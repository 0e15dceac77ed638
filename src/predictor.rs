//! Predictors and the dispatch of a challenge to the one that serves it.
//!
//! A predictor that could not resolve its model is still built, in an
//! inactive state; dispatch skips it and reports the challenge unavailable
//! rather than answering with a default.
use vstd::prelude::*;

verus! {

/// The common capability of every predictor.
pub trait Predictor {
    spec fn is_active(&self) -> bool;

    /// Whether initialisation fully succeeded and the predictor may be used.
    fn active(&self) -> (r: bool)
        ensures
            r == self.is_active(),
    ;
}

/// Classifier for numerical-match challenges.
pub struct NumericalmatchPredictor {
    model: Option<String>,
}

impl NumericalmatchPredictor {
    /// The model file this predictor loads.
    pub fn model_name() -> (r: &'static str)
        ensures
            r@ == "numericalmatch.onnx"@,
    {
        proof {
            reveal_strlit("numericalmatch.onnx");
        }
        "numericalmatch.onnx"
    }

    /// Builds the predictor from the outcome of resolving its model: the
    /// local path, or `None` when resolution failed.
    pub fn new(resolved: Option<String>) -> (r: Self)
        ensures
            r.model_path_spec() == resolved,
            r.is_active() == resolved is Some,
    {
        NumericalmatchPredictor { model: resolved }
    }

    pub closed spec fn model_path_spec(&self) -> Option<String> {
        self.model
    }

    /// The resolved model path, if any.
    pub fn model_path(&self) -> (r: &Option<String>)
        ensures
            *r == self.model_path_spec(),
    {
        &self.model
    }
}

impl Predictor for NumericalmatchPredictor {
    open spec fn is_active(&self) -> bool {
        self.model_path_spec() is Some
    }

    fn active(&self) -> (r: bool) {
        self.model.is_some()
    }
}

/// Classifier for broken-jigsaw challenges with swapped pieces.
#[allow(non_camel_case_types)]
pub struct BrokenJigsawbrokenjigsaw_swap {
    model: Option<String>,
}

impl BrokenJigsawbrokenjigsaw_swap {
    /// The model file this predictor loads.
    pub fn model_name() -> (r: &'static str)
        ensures
            r@ == "BrokenJigsawbrokenjigsaw_swap.onnx"@,
    {
        proof {
            reveal_strlit("BrokenJigsawbrokenjigsaw_swap.onnx");
        }
        "BrokenJigsawbrokenjigsaw_swap.onnx"
    }

    /// Builds the predictor from the outcome of resolving its model: the
    /// local path, or `None` when resolution failed.
    pub fn new(resolved: Option<String>) -> (r: Self)
        ensures
            r.model_path_spec() == resolved,
            r.is_active() == resolved is Some,
    {
        BrokenJigsawbrokenjigsaw_swap { model: resolved }
    }

    pub closed spec fn model_path_spec(&self) -> Option<String> {
        self.model
    }

    /// The resolved model path, if any.
    pub fn model_path(&self) -> (r: &Option<String>)
        ensures
            *r == self.model_path_spec(),
    {
        &self.model
    }
}

impl Predictor for BrokenJigsawbrokenjigsaw_swap {
    open spec fn is_active(&self) -> bool {
        self.model_path_spec() is Some
    }

    fn active(&self) -> (r: bool) {
        self.model.is_some()
    }
}

/// The kinds of challenge that predictors serve.
#[derive(Clone, Copy, Debug, PartialEq, Eq, Structural)]
pub enum ChallengeKind {
    Numericalmatch,
    BrokenJigsawSwap,
}

/// One registered predictor: the challenge it serves and whether it is active.
#[derive(Clone, Copy, Debug, PartialEq, Eq, Structural)]
pub struct Slot {
    pub kind: ChallengeKind,
    pub active: bool,
}

/// Why a challenge cannot be served.
#[derive(Clone, Copy, Debug, PartialEq, Eq, Structural)]
pub enum DispatchError {
    /// No predictor is registered for the challenge.
    Unknown,
    /// Predictors for the challenge exist, but none is active.
    Unavailable,
}

pub open spec fn serves(s: Slot, kind: ChallengeKind) -> bool {
    s.kind == kind && s.active
}

/// Routes a challenge to the first active predictor registered for it.
pub fn dispatch(slots: &[Slot], kind: ChallengeKind) -> (r: Result<usize, DispatchError>)
    ensures
        match r {
            Ok(i) => i < slots@.len() && serves(slots@[i as int], kind) && forall|k: int|
                0 <= k < i ==> !serves(#[trigger] slots@[k], kind),
            Err(DispatchError::Unavailable) => (forall|k: int|
                0 <= k < slots@.len() ==> !serves(#[trigger] slots@[k], kind)) && exists|k: int|
                0 <= k < slots@.len() && #[trigger] slots@[k].kind == kind,
            Err(DispatchError::Unknown) => forall|k: int|
                0 <= k < slots@.len() ==> #[trigger] slots@[k].kind != kind,
        },
{
    let mut registered = false;
    let mut i: usize = 0;
    while i < slots.len()
        invariant
            i <= slots@.len(),
            forall|k: int| 0 <= k < i ==> !serves(#[trigger] slots@[k], kind),
            registered == exists|k: int| 0 <= k < i && #[trigger] slots@[k].kind == kind,
        decreases slots@.len() - i,
    {
        let s = slots[i];
        if s.kind == kind {
            if s.active {
                return Ok(i);
            }
            registered = true;
        }
        i = i + 1;
    }
    if registered {
        Err(DispatchError::Unavailable)
    } else {
        Err(DispatchError::Unknown)
    }
}

} // verus!
