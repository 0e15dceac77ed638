//! Where model files come from, and the decisions that turn a model name
//! into a verified local file.
//!
//! Resolving a model is a conversation between a [`ResolveSession`] and the
//! program that owns the file system and the network: the session answers
//! each [`Event`] with the next [`Action`] to perform.
use vstd::prelude::*;
use crate::checksum::{file_sha256, sha256_hex};

verus! {

/// The configured storage option for model files.
#[derive(Debug, Clone, PartialEq, Eq)]
pub enum ONNXStore {
    /// An object store with a key-value index of the expected digests.
    R2 {
        bucket_name: String,
        cloudflare_kv_uri: String,
        cloudflare_kv_client_id: String,
        cloudflare_kv_secret: String,
    },
    /// The public repository.
    Github,
}

impl Default for ONNXStore {
    fn default() -> (r: Self)
        ensures
            r is Github,
    {
        ONNXStore::Github
    }
}

/// Object-store backend: bucket identity and index-service credentials.
pub struct R2Store {
    pub bucket_name: String,
    pub kv_uri: String,
    pub kv_client_id: String,
    pub kv_secret: String,
}

/// Public-repository backend; it needs no configuration.
pub struct GithubStore;

/// The backend chosen at startup, held for the life of the process.
pub enum FetchStore {
    R2(R2Store),
    Github(GithubStore),
}

/// The caching policy that a backend follows.
#[derive(Clone, Copy, Debug, PartialEq, Eq, Structural)]
pub enum Backend {
    /// A cached file is authoritative: never asks the network again.
    Repository,
    /// A cached file is reused only when its digest matches the index.
    ObjectStorage,
}

impl FetchStore {
    /// Builds the backend that the configuration names, moving its settings over.
    pub fn new(onnx_store: ONNXStore) -> (r: Self)
        ensures
            match onnx_store {
                ONNXStore::R2 {
                    bucket_name,
                    cloudflare_kv_uri,
                    cloudflare_kv_client_id,
                    cloudflare_kv_secret,
                } => r matches FetchStore::R2(s) && s.bucket_name == bucket_name
                    && s.kv_uri == cloudflare_kv_uri && s.kv_client_id == cloudflare_kv_client_id
                    && s.kv_secret == cloudflare_kv_secret,
                ONNXStore::Github => r is Github,
            },
    {
        match onnx_store {
            ONNXStore::R2 {
                bucket_name,
                cloudflare_kv_uri,
                cloudflare_kv_client_id,
                cloudflare_kv_secret,
            } => FetchStore::R2(
                R2Store {
                    bucket_name,
                    kv_uri: cloudflare_kv_uri,
                    kv_client_id: cloudflare_kv_client_id,
                    kv_secret: cloudflare_kv_secret,
                },
            ),
            ONNXStore::Github => FetchStore::Github(GithubStore),
        }
    }

    pub open spec fn backend_spec(&self) -> Backend {
        match self {
            FetchStore::R2(_) => Backend::ObjectStorage,
            FetchStore::Github(_) => Backend::Repository,
        }
    }

    /// The caching policy of this backend.
    pub fn backend(&self) -> (r: Backend)
        ensures
            r == self.backend_spec(),
    {
        match self {
            FetchStore::R2(_) => Backend::ObjectStorage,
            FetchStore::Github(_) => Backend::Repository,
        }
    }
}

/// Why a model could not be resolved.
#[derive(Clone, Copy, Debug, PartialEq, Eq, Structural)]
pub enum ResolveError {
    /// The backend could not deliver the model, or delivered nothing.
    FetchFailed,
    /// The fetched bytes could not be stored at the model's path.
    IOFailure,
    /// An event arrived that the current step does not wait for.
    OutOfOrder,
}

/// How far a resolution has come.
pub enum Phase {
    /// Waiting to learn whether the model file exists locally.
    AwaitLocal,
    /// Waiting for the index's expected digest.
    AwaitIndex,
    /// Waiting for the local file's contents, to compare with `expected`.
    AwaitLocalContents { expected: String },
    /// Waiting for the backend's bytes.
    AwaitDownload,
    /// Waiting for the fetched bytes to be moved into place.
    AwaitPersist,
    /// Nothing more to do.
    Finished,
}

/// What the program observed after performing the last action.
pub enum Event {
    /// Whether a file exists at the model path.
    LocalPresence(bool),
    /// The expected digest from the index; `None` when the lookup failed.
    IndexDigest(Option<String>),
    /// The local file's bytes; `None` when it could not be read.
    LocalContents(Option<Vec<u8>>),
    /// The backend's bytes; `None` when the fetch failed.
    Downloaded(Option<Vec<u8>>),
    /// Whether the bytes were written to a temporary file and renamed into place.
    Persisted(bool),
}

/// What the program must do next.
pub enum Action {
    /// Ask the index for the model's expected digest.
    QueryIndex,
    /// Read the local model file.
    ReadLocal,
    /// Fetch the model's bytes from the backend.
    Download,
    /// Write these bytes to a temporary file, then rename it onto the model path.
    Persist(Vec<u8>),
    /// The model is ready at this path.
    Done(String),
    /// The resolution failed.
    Failed(ResolveError),
}

pub ghost enum PhaseView {
    AwaitLocal,
    AwaitIndex,
    AwaitLocalContents { expected: Seq<char> },
    AwaitDownload,
    AwaitPersist,
    Finished,
}

pub ghost enum EventView {
    LocalPresence(bool),
    IndexDigest(Option<Seq<char>>),
    LocalContents(Option<Seq<u8>>),
    Downloaded(Option<Seq<u8>>),
    Persisted(bool),
}

pub ghost enum ActionView {
    QueryIndex,
    ReadLocal,
    Download,
    Persist(Seq<u8>),
    Done(Seq<char>),
    Failed(ResolveError),
}

pub ghost struct SessionView {
    pub backend: Backend,
    pub update_check: bool,
    pub path: Seq<char>,
    pub phase: PhaseView,
    /// Requests sent to the backend or its index so far.
    pub backend_calls: nat,
}

pub open spec fn opt_str_view(o: Option<String>) -> Option<Seq<char>> {
    match o {
        Some(s) => Some(s@),
        None => None,
    }
}

pub open spec fn opt_bytes_view(o: Option<Vec<u8>>) -> Option<Seq<u8>> {
    match o {
        Some(v) => Some(v@),
        None => None,
    }
}

impl View for Phase {
    type V = PhaseView;

    open spec fn view(&self) -> PhaseView {
        match self {
            Phase::AwaitLocal => PhaseView::AwaitLocal,
            Phase::AwaitIndex => PhaseView::AwaitIndex,
            Phase::AwaitLocalContents { expected } => PhaseView::AwaitLocalContents {
                expected: expected@,
            },
            Phase::AwaitDownload => PhaseView::AwaitDownload,
            Phase::AwaitPersist => PhaseView::AwaitPersist,
            Phase::Finished => PhaseView::Finished,
        }
    }
}

impl View for Event {
    type V = EventView;

    open spec fn view(&self) -> EventView {
        match self {
            Event::LocalPresence(b) => EventView::LocalPresence(*b),
            Event::IndexDigest(d) => EventView::IndexDigest(opt_str_view(*d)),
            Event::LocalContents(c) => EventView::LocalContents(opt_bytes_view(*c)),
            Event::Downloaded(c) => EventView::Downloaded(opt_bytes_view(*c)),
            Event::Persisted(b) => EventView::Persisted(*b),
        }
    }
}

impl View for Action {
    type V = ActionView;

    open spec fn view(&self) -> ActionView {
        match self {
            Action::QueryIndex => ActionView::QueryIndex,
            Action::ReadLocal => ActionView::ReadLocal,
            Action::Download => ActionView::Download,
            Action::Persist(b) => ActionView::Persist(b@),
            Action::Done(p) => ActionView::Done(p@),
            Action::Failed(e) => ActionView::Failed(*e),
        }
    }
}

/// The step that follows `phase`, with the backend call counter and path
/// unchanged.
pub open spec fn moved(s: SessionView, phase: PhaseView, extra_calls: nat) -> SessionView {
    SessionView { phase, backend_calls: s.backend_calls + extra_calls, ..s }
}

/// One step of resolution: the new state and the action to perform.
pub open spec fn next(s: SessionView, e: EventView) -> (SessionView, ActionView) {
    match (s.phase, e) {
        (PhaseView::AwaitLocal, EventView::LocalPresence(exists)) => {
            if exists && (!s.update_check || s.backend == Backend::Repository) {
                (moved(s, PhaseView::Finished, 0), ActionView::Done(s.path))
            } else if exists {
                (moved(s, PhaseView::AwaitIndex, 1), ActionView::QueryIndex)
            } else {
                (moved(s, PhaseView::AwaitDownload, 1), ActionView::Download)
            }
        },
        (PhaseView::AwaitIndex, EventView::IndexDigest(d)) => match d {
            Some(expected) => (
                moved(s, PhaseView::AwaitLocalContents { expected }, 0),
                ActionView::ReadLocal,
            ),
            None => (moved(s, PhaseView::AwaitDownload, 1), ActionView::Download),
        },
        (PhaseView::AwaitLocalContents { expected }, EventView::LocalContents(c)) => match c {
            Some(bytes) if sha256_hex(bytes) == expected => (
                moved(s, PhaseView::Finished, 0),
                ActionView::Done(s.path),
            ),
            _ => (moved(s, PhaseView::AwaitDownload, 1), ActionView::Download),
        },
        (PhaseView::AwaitDownload, EventView::Downloaded(c)) => match c {
            Some(bytes) if bytes.len() > 0 => (
                moved(s, PhaseView::AwaitPersist, 0),
                ActionView::Persist(bytes),
            ),
            _ => (moved(s, PhaseView::Finished, 0), ActionView::Failed(ResolveError::FetchFailed)),
        },
        (PhaseView::AwaitPersist, EventView::Persisted(ok)) => if ok {
            (moved(s, PhaseView::Finished, 0), ActionView::Done(s.path))
        } else {
            (moved(s, PhaseView::Finished, 0), ActionView::Failed(ResolveError::IOFailure))
        },
        _ => (moved(s, PhaseView::Finished, 0), ActionView::Failed(ResolveError::OutOfOrder)),
    }
}

/// The largest number of backend calls a resolution can have made by `phase`.
pub open spec fn calls_bound(phase: PhaseView) -> nat {
    match phase {
        PhaseView::AwaitLocal => 0,
        PhaseView::AwaitIndex => 1,
        PhaseView::AwaitLocalContents { .. } => 1,
        _ => 2,
    }
}

/// The resolution of one model name to a local file.
pub struct ResolveSession {
    backend: Backend,
    update_check: bool,
    path: String,
    phase: Phase,
    backend_calls: u32,
}

impl View for ResolveSession {
    type V = SessionView;

    closed spec fn view(&self) -> SessionView {
        SessionView {
            backend: self.backend,
            update_check: self.update_check,
            path: self.path@,
            phase: self.phase@,
            backend_calls: self.backend_calls as nat,
        }
    }
}

impl ResolveSession {
    /// Sessions that `start` and `step` produce: the call counter stays
    /// within what the phase allows.
    pub open spec fn wf(&self) -> bool {
        self@.backend_calls <= calls_bound(self@.phase)
    }

    /// A fresh session for the model file at `path`. The first event it
    /// expects is [`Event::LocalPresence`].
    pub fn start(backend: Backend, path: String, update_check: bool) -> (r: Self)
        ensures
            r.wf(),
            r@ == (SessionView {
                backend,
                update_check,
                path: path@,
                phase: PhaseView::AwaitLocal,
                backend_calls: 0,
            }),
    {
        ResolveSession { backend, update_check, path, phase: Phase::AwaitLocal, backend_calls: 0 }
    }

    /// The model path this session resolves.
    pub fn path(&self) -> (r: &String)
        ensures
            r@ == self@.path,
    {
        &self.path
    }

    /// How many requests have gone to the backend or its index.
    pub fn backend_calls(&self) -> (r: u32)
        ensures
            r == self@.backend_calls,
    {
        self.backend_calls
    }

    /// Whether the session has nothing more to do.
    pub fn is_finished(&self) -> (r: bool)
        ensures
            r == (self@.phase is Finished),
    {
        match self.phase {
            Phase::Finished => true,
            _ => false,
        }
    }

    fn advance(&mut self, phase: Phase, extra_calls: u32)
        requires
            old(self).wf(),
            extra_calls <= 1,
            old(self)@.backend_calls + extra_calls <= calls_bound(phase@),
        ensures
            final(self)@ == moved(old(self)@, phase@, extra_calls as nat),
            final(self).wf(),
    {
        self.phase = phase;
        self.backend_calls = self.backend_calls + extra_calls;
    }

    /// Takes what the program observed and says what it must do next.
    pub fn step(&mut self, event: Event) -> (a: Action)
        requires
            old(self).wf(),
        ensures
            final(self).wf(),
            (final(self)@, a@) == next(old(self)@, event@),
    {
        let ghost s = self@;
        let ghost e = event@;
        match event {
            Event::LocalPresence(exists) => {
                if let Phase::AwaitLocal = self.phase {
                    if exists && (!self.update_check || self.backend == Backend::Repository) {
                        self.advance(Phase::Finished, 0);
                        return Action::Done(self.path.clone());
                    } else if exists {
                        self.advance(Phase::AwaitIndex, 1);
                        return Action::QueryIndex;
                    } else {
                        self.advance(Phase::AwaitDownload, 1);
                        return Action::Download;
                    }
                }
            },
            Event::IndexDigest(d) => {
                if let Phase::AwaitIndex = self.phase {
                    match d {
                        Some(expected) => {
                            self.advance(Phase::AwaitLocalContents { expected }, 0);
                            return Action::ReadLocal;
                        },
                        None => {
                            self.advance(Phase::AwaitDownload, 1);
                            return Action::Download;
                        },
                    }
                }
            },
            Event::LocalContents(c) => {
                let matched: Option<bool> = match &self.phase {
                    Phase::AwaitLocalContents { expected } => match &c {
                        Some(bytes) => Some(file_sha256(bytes.as_slice()) == *expected),
                        None => Some(false),
                    },
                    _ => None,
                };
                match matched {
                    Some(true) => {
                        self.advance(Phase::Finished, 0);
                        return Action::Done(self.path.clone());
                    },
                    Some(false) => {
                        self.advance(Phase::AwaitDownload, 1);
                        return Action::Download;
                    },
                    None => {},
                }
            },
            Event::Downloaded(c) => {
                if let Phase::AwaitDownload = self.phase {
                    match c {
                        Some(bytes) => {
                            if bytes.len() > 0 {
                                self.advance(Phase::AwaitPersist, 0);
                                return Action::Persist(bytes);
                            }
                        },
                        None => {},
                    }
                    self.advance(Phase::Finished, 0);
                    return Action::Failed(ResolveError::FetchFailed);
                }
            },
            Event::Persisted(ok) => {
                if let Phase::AwaitPersist = self.phase {
                    self.advance(Phase::Finished, 0);
                    if ok {
                        return Action::Done(self.path.clone());
                    } else {
                        return Action::Failed(ResolveError::IOFailure);
                    }
                }
            },
        }
        self.advance(Phase::Finished, 0);
        Action::Failed(ResolveError::OutOfOrder)
    }
}

/// The path of `name` inside `dir`, as Unix paths join: an absolute
/// `name` replaces `dir`, and a separator is added only where `dir` is
/// non-empty and does not already end in one.
pub open spec fn joined_path(dir: Seq<char>, name: Seq<char>) -> Seq<char> {
    if name.len() > 0 && name[0] == '/' {
        name
    } else if dir.len() == 0 {
        name
    } else if dir.last() == '/' {
        dir + name
    } else {
        dir + seq!['/'] + name
    }
}

/// Relies on `std::path::Path::join` on Unix, read back as text; both
/// parts are valid UTF-8, so nothing is lost in the conversion.
#[verifier::external_body]
fn join_path(dir: &str, name: &str) -> (r: String)
    ensures
        r@ == joined_path(dir@, name@),
{
    std::path::Path::new(dir).join(name).to_string_lossy().into_owned()
}

/// Obtaining a model file from a backend.
pub trait Fetch {
    /// The caching policy the implementor follows.
    spec fn policy(&self) -> Backend;

    /// Begins resolving `model_name` into `model_dir`, re-checking a cached
    /// file only when `update_check` asks for it and the policy allows.
    fn fetch_model(&self, model_name: &str, model_dir: &str, update_check: bool) -> (r:
        ResolveSession)
        ensures
            r.wf(),
            r@ == (SessionView {
                backend: self.policy(),
                update_check,
                path: joined_path(model_dir@, model_name@),
                phase: PhaseView::AwaitLocal,
                backend_calls: 0,
            }),
    ;
}

impl Fetch for FetchStore {
    open spec fn policy(&self) -> Backend {
        self.backend_spec()
    }

    fn fetch_model(&self, model_name: &str, model_dir: &str, update_check: bool) -> (r:
        ResolveSession) {
        let path = join_path(model_dir, model_name);
        ResolveSession::start(self.backend(), path, update_check)
    }
}

/// A cached file whose digest equals the index's entry is reused: after
/// the index answers with `d` and the file's contents hash to `d`, the
/// session is done at the model path and has made no download.
pub proof fn lemma_matching_digest_reuses_file(s: SessionView, d: Seq<char>, contents: Seq<u8>)
    requires
        s.backend == Backend::ObjectStorage,
        s.update_check,
        s.phase == PhaseView::AwaitLocal,
        s.backend_calls == 0,
        sha256_hex(contents) == d,
    ensures
        ({
            let (s1, a1) = next(s, EventView::LocalPresence(true));
            let (s2, a2) = next(s1, EventView::IndexDigest(Some(d)));
            let (s3, a3) = next(s2, EventView::LocalContents(Some(contents)));
            a1 == ActionView::QueryIndex && a2 == ActionView::ReadLocal && a3
                == ActionView::Done(s.path) && s3.phase == PhaseView::Finished
                && s3.backend_calls == 1
        }),
{
}

/// A cached file whose digest differs from the index's entry is replaced:
/// the session downloads, and the bytes it asks to persist are exactly the
/// fetched ones, so the file's digest afterwards is theirs.
pub proof fn lemma_stale_digest_replaces_file(
    s: SessionView,
    d: Seq<char>,
    contents: Seq<u8>,
    fetched: Seq<u8>,
)
    requires
        s.backend == Backend::ObjectStorage,
        s.update_check,
        s.phase == PhaseView::AwaitLocal,
        sha256_hex(contents) != d,
        fetched.len() > 0,
    ensures
        ({
            let (s1, a1) = next(s, EventView::LocalPresence(true));
            let (s2, a2) = next(s1, EventView::IndexDigest(Some(d)));
            let (s3, a3) = next(s2, EventView::LocalContents(Some(contents)));
            let (s4, a4) = next(s3, EventView::Downloaded(Some(fetched)));
            let (s5, a5) = next(s4, EventView::Persisted(true));
            a3 == ActionView::Download && a4 == ActionView::Persist(fetched) && sha256_hex(
                a4->Persist_0,
            ) == sha256_hex(fetched) && a5 == ActionView::Done(s.path)
        }),
{
}

/// A failed index lookup never reuses the cached file: the session
/// downloads instead.
pub proof fn lemma_index_failure_downloads(s: SessionView)
    requires
        s.phase == PhaseView::AwaitIndex,
    ensures
        next(s, EventView::IndexDigest(None)).1 == ActionView::Download,
{
}

/// With the repository policy, once the model file exists the session is
/// done at once, whatever `update_check` says: no request reaches the
/// backend.
pub proof fn lemma_repository_cache_is_final(s: SessionView)
    requires
        s.backend == Backend::Repository,
        s.phase == PhaseView::AwaitLocal,
        s.backend_calls == 0,
    ensures
        next(s, EventView::LocalPresence(true)).1 == ActionView::Done(s.path),
        next(s, EventView::LocalPresence(true)).0.backend_calls == 0,
        next(s, EventView::LocalPresence(true)).0.phase == PhaseView::Finished,
{
}

/// Without an update check an existing model file is returned as it is,
/// with no request to any backend.
pub proof fn lemma_no_update_check_uses_cache(s: SessionView)
    requires
        !s.update_check,
        s.phase == PhaseView::AwaitLocal,
        s.backend_calls == 0,
    ensures
        next(s, EventView::LocalPresence(true)).1 == ActionView::Done(s.path),
        next(s, EventView::LocalPresence(true)).0.backend_calls == 0,
{
}

/// Every step keeps the backend call counter within two: one index query
/// and one download at most.
pub proof fn lemma_at_most_two_backend_calls(s: SessionView, e: EventView)
    requires
        s.backend_calls <= calls_bound(s.phase),
    ensures
        next(s, e).0.backend_calls <= calls_bound(next(s, e).0.phase),
        next(s, e).0.backend_calls <= 2,
{
}

/// A download never yields an empty model file: empty or failed fetches
/// end in `FetchFailed`.
pub proof fn lemma_empty_fetch_fails(s: SessionView, fetched: Option<Seq<u8>>)
    requires
        s.phase == PhaseView::AwaitDownload,
        fetched is None || fetched->Some_0.len() == 0,
    ensures
        next(s, EventView::Downloaded(fetched)).1 == ActionView::Failed(ResolveError::FetchFailed),
{
}

} // verus!
