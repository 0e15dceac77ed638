use fcsrv::predictor::{
    dispatch, BrokenJigsawbrokenjigsaw_swap, ChallengeKind, DispatchError,
    NumericalmatchPredictor, Predictor, Slot,
};

#[test]
fn resolved_predictor_is_active() {
    let p = NumericalmatchPredictor::new(Some("/cache/numericalmatch.onnx".to_string()));
    assert!(p.active());
    assert_eq!(
        p.model_path().as_deref(),
        Some("/cache/numericalmatch.onnx")
    );
    assert_eq!(NumericalmatchPredictor::model_name(), "numericalmatch.onnx");
}

#[test]
fn unresolved_predictor_is_inactive() {
    let p = BrokenJigsawbrokenjigsaw_swap::new(None);
    assert!(!p.active());
    assert!(p.model_path().is_none());
    assert_eq!(
        BrokenJigsawbrokenjigsaw_swap::model_name(),
        "BrokenJigsawbrokenjigsaw_swap.onnx"
    );
}

#[test]
fn dispatch_skips_inactive_predictors() {
    let slots = [
        Slot { kind: ChallengeKind::Numericalmatch, active: false },
        Slot { kind: ChallengeKind::BrokenJigsawSwap, active: true },
        Slot { kind: ChallengeKind::Numericalmatch, active: true },
    ];
    assert_eq!(dispatch(&slots, ChallengeKind::Numericalmatch), Ok(2));
    assert_eq!(dispatch(&slots, ChallengeKind::BrokenJigsawSwap), Ok(1));
}

#[test]
fn dispatch_reports_unavailable_and_unknown() {
    let slots = [Slot { kind: ChallengeKind::Numericalmatch, active: false }];
    assert_eq!(
        dispatch(&slots, ChallengeKind::Numericalmatch),
        Err(DispatchError::Unavailable)
    );
    assert_eq!(
        dispatch(&slots, ChallengeKind::BrokenJigsawSwap),
        Err(DispatchError::Unknown)
    );
    assert_eq!(dispatch(&[], ChallengeKind::Numericalmatch), Err(DispatchError::Unknown));
}
