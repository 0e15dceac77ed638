//! Lifecycle decisions of the background daemon: reading the PID file,
//! whether to launch, the stop sequence, status and captured logs.
//!
//! The PID file is only a claim of liveness; every decision that reports
//! a running daemon is checked against the process table the caller read.
use vstd::prelude::*;

verus! {

/// How many interrupt signals `stop` sends before giving up.
pub const STOP_ATTEMPTS: u32 = 360;

/// Failures of a lifecycle command.
#[derive(Clone, Copy, Debug, PartialEq, Eq, Structural)]
pub enum DaemonError {
    /// The PID file names a process that is not running.
    NotRunning,
    /// The command needs root privileges.
    PermissionDenied,
    /// The PID file's text, trimmed, is not a decimal `i32`.
    MalformedPidFile,
}

/// Characters with the Unicode `White_Space` property.
pub open spec fn is_white_space(c: char) -> bool {
    ('\u{9}' <= c && c <= '\u{d}') || c == ' ' || c == '\u{85}' || c == '\u{a0}' || c
        == '\u{1680}' || ('\u{2000}' <= c && c <= '\u{200a}') || c == '\u{2028}' || c
        == '\u{2029}' || c == '\u{202f}' || c == '\u{205f}' || c == '\u{3000}'
}

pub open spec fn trim_start(s: Seq<char>) -> Seq<char>
    decreases s.len(),
{
    if s.len() > 0 && is_white_space(s[0]) {
        trim_start(s.drop_first())
    } else {
        s
    }
}

pub open spec fn trim_end(s: Seq<char>) -> Seq<char>
    decreases s.len(),
{
    if s.len() > 0 && is_white_space(s.last()) {
        trim_end(s.drop_last())
    } else {
        s
    }
}

/// Relies on `str::trim`, which removes leading and trailing characters
/// with the Unicode `White_Space` property.
#[verifier::external_body]
fn trim_text(s: &str) -> (r: &str)
    ensures
        r@ == trim_end(trim_start(s@)),
{
    s.trim()
}

pub open spec fn is_digit(c: char) -> bool {
    '0' <= c && c <= '9'
}

/// The value of a run of decimal digits.
pub open spec fn digits_value(d: Seq<char>) -> int
    decreases d.len(),
{
    if d.len() == 0 {
        0
    } else {
        digits_value(d.drop_last()) * 10 + (d.last() as int - '0' as int)
    }
}

/// The digits of a numeral, after its optional sign.
pub open spec fn unsigned_part(t: Seq<char>) -> Seq<char> {
    if t.len() > 0 && (t[0] == '+' || t[0] == '-') {
        t.drop_first()
    } else {
        t
    }
}

/// The `i32` that a numeral denotes: an optional `+` or `-`, then one or
/// more decimal digits, with a value in range.
pub open spec fn i32_of(t: Seq<char>) -> Option<int> {
    let d = unsigned_part(t);
    let v = if t.len() > 0 && t[0] == '-' {
        -digits_value(d)
    } else {
        digits_value(d)
    };
    if d.len() > 0 && (forall|k: int| 0 <= k < d.len() ==> is_digit(#[trigger] d[k])) && i32::MIN
        <= v <= i32::MAX {
        Some(v)
    } else {
        None
    }
}

/// The process ID that a PID file's text holds: the text without
/// surrounding whitespace, read as an `i32`.
pub open spec fn pid_of(s: Seq<char>) -> Option<int> {
    i32_of(trim_end(trim_start(s)))
}

proof fn lemma_digits_value_grows(t: Seq<char>, k: int)
    requires
        0 <= k <= t.len(),
        forall|i: int| 0 <= i < t.len() ==> is_digit(#[trigger] t[i]),
    ensures
        0 <= digits_value(t.subrange(0, k)) <= digits_value(t),
    decreases t.len() - k,
{
    if k < t.len() {
        lemma_digits_value_grows(t, k + 1);
        let p = t.subrange(0, k + 1);
        assert(p.drop_last() =~= t.subrange(0, k));
        assert(is_digit(p.last()));
    } else {
        assert(t.subrange(0, k) =~= t);
        lemma_digits_value_nonneg(t);
    }
}

proof fn lemma_digits_value_nonneg(t: Seq<char>)
    requires
        forall|i: int| 0 <= i < t.len() ==> is_digit(#[trigger] t[i]),
    ensures
        digits_value(t) >= 0,
    decreases t.len(),
{
    if t.len() > 0 {
        let d = t.drop_last();
        assert forall|i: int| 0 <= i < d.len() implies is_digit(#[trigger] d[i]) by {
            assert(d[i] == t[i]);
        }
        lemma_digits_value_nonneg(d);
        assert(is_digit(t[t.len() - 1]));
    }
}

/// Reads the process ID out of a PID file's text, as `str::trim` followed
/// by `str::parse::<i32>` does.
pub fn parse_pid(text: &str) -> (r: Option<i32>)
    ensures
        match pid_of(text@) {
            Some(p) => r == Some(p as i32),
            None => r is None,
        },
{
    let t = trim_text(text);
    if !t.is_ascii() {
        proof {
            let k = choose|k: int| 0 <= k < t@.len() && !('\0' <= #[trigger] t@[k] <= '\u{7f}');
            let d = unsigned_part(t@);
            if t@.len() > 0 && (t@[0] == '+' || t@[0] == '-') {
                if k > 0 {
                    assert(d[k - 1] == t@[k]);
                    assert(!is_digit(d[k - 1]));
                }
            } else {
                assert(d[k] == t@[k]);
                assert(!is_digit(d[k]));
            }
        }
        return None;
    }
    let b = t.as_bytes();
    proof {
        vstd::string::is_ascii_spec_bytes(t);
    }
    let ghost s = t@;
    let n = b.len();
    assert(n == s.len());
    assert forall|k: int| 0 <= k < n implies #[trigger] b@[k] == s[k] as u8 by {}
    if n == 0 {
        return None;
    }
    let negative = b[0] == 45;
    let start: usize = if b[0] == 43 || b[0] == 45 {
        1
    } else {
        0
    };
    assert(s[0] == '+' <==> b@[0] == 43);
    assert(s[0] == '-' <==> b@[0] == 45);
    let ghost d = unsigned_part(s);
    assert(d =~= s.subrange(start as int, n as int));
    if start == n {
        return None;
    }
    let mut k: usize = start;
    let mut acc: i64 = 0;
    while k < n
        invariant
            start <= k <= n,
            n == b@.len(),
            n == s.len(),
            s == t@,
            t@ == trim_end(trim_start(text@)),
            d == unsigned_part(s),
            d =~= s.subrange(start as int, n as int),
            negative == (s[0] == '-'),
            forall|m: int| 0 <= m < n ==> #[trigger] b@[m] == s[m] as u8,
            forall|m: int| 0 <= m < n ==> '\0' <= #[trigger] s[m] <= '\u{7f}',
            forall|m: int| 0 <= m < k - start ==> is_digit(#[trigger] d[m]),
            acc as int == digits_value(d.subrange(0, k - start)),
            0 <= acc <= 2147483648,
        decreases n - k,
    {
        let c = b[k];
        assert(d[k - start] == s[k as int]);
        assert(is_digit(s[k as int]) <==> (48 <= c && c <= 57));
        if c < 48 || c > 57 {
            assert(!is_digit(d[k - start]));
            return None;
        }
        assert(s[k as int] as int == c as int);
        let ghost p = d.subrange(0, k - start + 1);
        assert(p.drop_last() =~= d.subrange(0, k - start));
        assert(p.last() == s[k as int]);
        acc = acc * 10 + (c - 48) as i64;
        k = k + 1;
        if acc > 2147483648 {
            proof {
                if forall|m: int| 0 <= m < d.len() ==> is_digit(#[trigger] d[m]) {
                    lemma_digits_value_grows(d, k - start);
                }
            }
            return None;
        }
    }
    assert(d.subrange(0, k - start) =~= d);
    if negative {
        Some((-acc) as i32)
    } else if acc <= 2147483647 {
        Some(acc as i32)
    } else {
        None
    }
}

/// The daemon's PID as the PID file states it: `None` when there is no
/// PID file.
pub fn get_pid(contents: Option<&str>) -> (r: Result<Option<i32>, DaemonError>)
    ensures
        match contents {
            None => r == Ok::<Option<i32>, DaemonError>(None),
            Some(text) => match pid_of(text@) {
                Some(p) => r == Ok::<Option<i32>, DaemonError>(Some(p as i32)),
                None => r == Err::<Option<i32>, DaemonError>(DaemonError::MalformedPidFile),
            },
        },
{
    match contents {
        None => Ok(None),
        Some(text) => match parse_pid(text) {
            Some(p) => Ok(Some(p)),
            None => Err(DaemonError::MalformedPidFile),
        },
    }
}

/// What `start` decided.
#[derive(Clone, Copy, Debug, PartialEq, Eq, Structural)]
pub enum StartPlan {
    /// A daemon is already recorded under this PID: nothing to do.
    AlreadyRunning(i32),
    /// Create the PID and capture files, detach, and run the service.
    Launch,
}

/// Decides whether to launch the daemon. Only a recorded PID that the
/// process table confirms means it is already running; a stale PID file
/// does not block a launch. Launching needs root privileges.
pub fn start(recorded_pid: Option<i32>, table: &[u32], is_root: bool) -> (r: Result<
    StartPlan,
    DaemonError,
>)
    ensures
        match recorded_pid {
            Some(p) if exists|k: int| 0 <= k < table@.len() && #[trigger] table@[k] as int == p => r
                == Ok::<StartPlan, DaemonError>(StartPlan::AlreadyRunning(p)),
            _ => if is_root {
                r == Ok::<StartPlan, DaemonError>(StartPlan::Launch)
            } else {
                r == Err::<StartPlan, DaemonError>(DaemonError::PermissionDenied)
            },
        },
{
    if let Some(p) = recorded_pid {
        if let Some(_) = find_process(table, p) {
            return Ok(StartPlan::AlreadyRunning(p));
        }
    }
    if is_root {
        Ok(StartPlan::Launch)
    } else {
        Err(DaemonError::PermissionDenied)
    }
}

/// What `status` reports.
#[derive(Clone, Copy, Debug, PartialEq, Eq, Structural)]
pub enum Status {
    /// No PID file: the daemon is not running.
    Stopped,
    /// The daemon runs under `pid`, found at `entry` of the process table.
    Running { pid: i32, entry: usize },
}

/// The first entry of `table` that holds `pid`.
pub fn find_process(table: &[u32], pid: i32) -> (r: Option<usize>)
    ensures
        match r {
            Some(i) => i < table@.len() && table@[i as int] as int == pid && forall|k: int|
                0 <= k < i ==> #[trigger] table@[k] as int != pid,
            None => forall|k: int| 0 <= k < table@.len() ==> #[trigger] table@[k] as int != pid,
        },
{
    if pid < 0 {
        return None;
    }
    let mut i: usize = 0;
    while i < table.len()
        invariant
            i <= table@.len(),
            pid >= 0,
            forall|k: int| 0 <= k < i ==> #[trigger] table@[k] as int != pid,
        decreases table@.len() - i,
    {
        if table[i] == pid as u32 {
            return Some(i);
        }
        i = i + 1;
    }
    None
}

/// Reports the daemon's state from the recorded PID and the PIDs of the
/// process table. A PID file whose process is gone is a stale claim and
/// yields `NotRunning`.
pub fn status(recorded_pid: Option<i32>, table: &[u32]) -> (r: Result<Status, DaemonError>)
    ensures
        match recorded_pid {
            None => r == Ok::<Status, DaemonError>(Status::Stopped),
            Some(p) => if exists|k: int| 0 <= k < table@.len() && #[trigger] table@[k] as int == p {
                r matches Ok(Status::Running { pid, entry }) && pid == p && entry < table@.len()
                    && table@[entry as int] as int == p
            } else {
                r == Err::<Status, DaemonError>(DaemonError::NotRunning)
            },
        },
{
    match recorded_pid {
        None => Ok(Status::Stopped),
        Some(p) => match find_process(table, p) {
            Some(entry) => Ok(Status::Running { pid: p, entry }),
            None => Err(DaemonError::NotRunning),
        },
    }
}

/// What the program must do next while stopping the daemon.
#[derive(Clone, Copy, Debug, PartialEq, Eq, Structural)]
pub enum StopAction {
    /// Send an interrupt signal to the process.
    Signal(i32),
    /// Wait one second.
    Sleep,
    /// Remove the PID file, whatever the outcome.
    RemovePidFile,
    /// Stopping is over; start the daemon again when `then_start` holds.
    Finish { then_start: bool },
}

/// What the program observed after the last action.
#[derive(Clone, Copy, Debug, PartialEq, Eq, Structural)]
pub enum StopEvent {
    /// Whether the signal reached the process.
    SignalDelivered(bool),
    /// The wait is over.
    Slept,
    /// The PID file removal was attempted.
    PidFileRemoved,
}

#[derive(Clone, Copy, Debug, PartialEq, Eq, Structural)]
pub enum StopPhase {
    AwaitSignal,
    AwaitSleep,
    AwaitRemoval,
    Finished,
}

/// The stop sequence: signal, wait, and retry until the process is gone
/// or the attempts run out, then remove the PID file.
#[derive(Clone, Copy, Debug, PartialEq, Eq, Structural)]
pub struct StopSession {
    pub pid: i32,
    /// Signals sent so far.
    pub attempts: u32,
    pub phase: StopPhase,
    pub then_start: bool,
}

impl StopSession {
    pub open spec fn wf(self) -> bool {
        self.attempts <= STOP_ATTEMPTS
    }
}

/// One step of the stop sequence.
pub open spec fn stop_next(s: StopSession, e: StopEvent) -> (StopSession, StopAction) {
    match (s.phase, e) {
        (StopPhase::AwaitSignal, StopEvent::SignalDelivered(true)) => (
            StopSession { phase: StopPhase::AwaitSleep, ..s },
            StopAction::Sleep,
        ),
        (StopPhase::AwaitSleep, StopEvent::Slept) if s.attempts < STOP_ATTEMPTS => (
            StopSession { phase: StopPhase::AwaitSignal, attempts: (s.attempts + 1) as u32, ..s },
            StopAction::Signal(s.pid),
        ),
        (StopPhase::AwaitRemoval, _) | (StopPhase::Finished, _) => (
            StopSession { phase: StopPhase::Finished, ..s },
            StopAction::Finish { then_start: s.then_start },
        ),
        _ => (StopSession { phase: StopPhase::AwaitRemoval, ..s }, StopAction::RemovePidFile),
    }
}


/// How the stop sequence begins. Root privileges are checked first. With
/// no recorded PID there is nothing to stop. A PID that is not positive
/// names no single process (signalling it would reach a process group), so
/// its PID file is removed without a signal. Otherwise the first signal
/// goes out at once.
pub open spec fn begin_stop_spec(recorded_pid: Option<i32>, is_root: bool, then_start: bool) -> Result<
    (StopSession, StopAction),
    DaemonError,
> {
    if !is_root {
        Err(DaemonError::PermissionDenied)
    } else {
        match recorded_pid {
            None => Ok(
                (
                    StopSession { pid: 0, attempts: 0, phase: StopPhase::Finished, then_start },
                    StopAction::Finish { then_start },
                ),
            ),
            Some(p) => if p <= 0 {
                Ok(
                    (
                        StopSession { pid: p, attempts: 0, phase: StopPhase::AwaitRemoval, then_start },
                        StopAction::RemovePidFile,
                    ),
                )
            } else {
                Ok(
                    (
                        StopSession { pid: p, attempts: 1, phase: StopPhase::AwaitSignal, then_start },
                        StopAction::Signal(p),
                    ),
                )
            },
        }
    }
}

/// Begins the stop sequence, or a restart when `then_start` holds.
pub fn begin_stop(recorded_pid: Option<i32>, is_root: bool, then_start: bool) -> (r: Result<
    (StopSession, StopAction),
    DaemonError,
>)
    ensures
        r == begin_stop_spec(recorded_pid, is_root, then_start),
        r matches Ok((s, _)) ==> s.wf(),
{
    if !is_root {
        return Err(DaemonError::PermissionDenied);
    }
    match recorded_pid {
        None => Ok(
            (
                StopSession { pid: 0, attempts: 0, phase: StopPhase::Finished, then_start },
                StopAction::Finish { then_start },
            ),
        ),
        Some(p) => if p <= 0 {
            Ok(
                (
                    StopSession { pid: p, attempts: 0, phase: StopPhase::AwaitRemoval, then_start },
                    StopAction::RemovePidFile,
                ),
            )
        } else {
            Ok(
                (
                    StopSession { pid: p, attempts: 1, phase: StopPhase::AwaitSignal, then_start },
                    StopAction::Signal(p),
                ),
            )
        },
    }
}

/// Stops the daemon: see [`begin_stop`].
pub fn stop(recorded_pid: Option<i32>, is_root: bool) -> (r: Result<
    (StopSession, StopAction),
    DaemonError,
>)
    ensures
        r == begin_stop_spec(recorded_pid, is_root, false),
{
    begin_stop(recorded_pid, is_root, false)
}

/// Restarts the daemon: the stop sequence, ending in a request to start.
pub fn restart(recorded_pid: Option<i32>, is_root: bool) -> (r: Result<
    (StopSession, StopAction),
    DaemonError,
>)
    ensures
        r == begin_stop_spec(recorded_pid, is_root, true),
        r matches Ok((s, _)) ==> s.then_start,
{
    begin_stop(recorded_pid, is_root, true)
}

impl StopSession {
    /// Takes what the program observed and says what it must do next.
    pub fn step(&mut self, event: StopEvent) -> (a: StopAction)
        requires
            old(self).wf(),
        ensures
            final(self).wf(),
            (*final(self), a) == stop_next(*old(self), event),
    {
        match (self.phase, event) {
            (StopPhase::AwaitSignal, StopEvent::SignalDelivered(true)) => {
                self.phase = StopPhase::AwaitSleep;
                StopAction::Sleep
            },
            (StopPhase::AwaitSleep, StopEvent::Slept) if self.attempts < STOP_ATTEMPTS => {
                self.phase = StopPhase::AwaitSignal;
                self.attempts = self.attempts + 1;
                StopAction::Signal(self.pid)
            },
            (StopPhase::AwaitRemoval, _) | (StopPhase::Finished, _) => {
                self.phase = StopPhase::Finished;
                StopAction::Finish { then_start: self.then_start }
            },
            _ => {
                self.phase = StopPhase::AwaitRemoval;
                StopAction::RemovePidFile
            },
        }
    }
}

/// The stop sequence after `n` rounds in which every signal reached the
/// process and every wait ended.
pub open spec fn rounds_delivered(s: StopSession, n: nat) -> StopSession
    decreases n,
{
    if n == 0 {
        s
    } else {
        let s1 = stop_next(s, StopEvent::SignalDelivered(true)).0;
        let s2 = stop_next(s1, StopEvent::Slept).0;
        rounds_delivered(s2, (n - 1) as nat)
    }
}

/// A process that disappears ends the polling at once: the failed signal
/// is answered by removing the PID file, and then the sequence finishes.
pub proof fn lemma_vanished_process_ends_stop(s: StopSession)
    requires
        s.phase == StopPhase::AwaitSignal,
    ensures
        stop_next(s, StopEvent::SignalDelivered(false)).1 == StopAction::RemovePidFile,
        stop_next(stop_next(s, StopEvent::SignalDelivered(false)).0, StopEvent::PidFileRemoved).1
            == (StopAction::Finish { then_start: s.then_start }),
{
}

/// While signals keep arriving, each round sends one more signal, up to
/// the bound.
pub proof fn lemma_rounds_delivered(s: StopSession, n: nat)
    requires
        s.phase == StopPhase::AwaitSignal,
        s.attempts + n <= STOP_ATTEMPTS,
    ensures
        rounds_delivered(s, n) == (StopSession { attempts: (s.attempts + n) as u32, ..s }),
    decreases n,
{
    if n > 0 {
        let s1 = stop_next(s, StopEvent::SignalDelivered(true)).0;
        let s2 = stop_next(s1, StopEvent::Slept).0;
        assert(s2 == StopSession { attempts: (s.attempts + 1) as u32, ..s });
        lemma_rounds_delivered(s2, (n - 1) as nat);
    }
}

/// A process that never exits receives exactly the bounded number of
/// signals, one per second, and the PID file is removed after the last
/// one.
pub proof fn lemma_stop_gives_up_after_bound(p: i32, then_start: bool)
    requires
        p > 0,
    ensures
        ({
            let s0 = begin_stop_spec(Some(p), true, then_start)->Ok_0.0;
            let s = rounds_delivered(s0, (STOP_ATTEMPTS - 1) as nat);
            let (s1, a1) = stop_next(s, StopEvent::SignalDelivered(true));
            let (s2, a2) = stop_next(s1, StopEvent::Slept);
            s.attempts == STOP_ATTEMPTS && a1 == StopAction::Sleep && a2
                == StopAction::RemovePidFile && s2.attempts == STOP_ATTEMPTS
        }),
{
    let s0 = begin_stop_spec(Some(p), true, then_start)->Ok_0.0;
    lemma_rounds_delivered(s0, (STOP_ATTEMPTS - 1) as nat);
}

/// No step sends a signal beyond the bound.
pub proof fn lemma_signals_bounded(s: StopSession, e: StopEvent)
    requires
        s.wf(),
    ensures
        stop_next(s, e).0.wf(),
        stop_next(s, e).1 is Signal ==> stop_next(s, e).0.attempts == s.attempts + 1
            <= STOP_ATTEMPTS,
{
}

/// The text of each line.
pub open spec fn texts(lines: Seq<String>) -> Seq<Seq<char>> {
    lines.map_values(|l: String| l@)
}

/// A captured stream as printed: its label, then its lines; nothing at all
/// when it holds no line.
pub open spec fn section(label: Seq<char>, lines: Seq<Seq<char>>) -> Seq<Seq<char>> {
    if lines.len() == 0 {
        seq![]
    } else {
        seq![label] + lines
    }
}

/// The printed form of one captured stream.
pub fn log_section(placeholder: &str, lines: &Vec<String>) -> (r: Vec<String>)
    ensures
        texts(r@) == section(placeholder@, texts(lines@)),
{
    let mut r: Vec<String> = Vec::new();
    if lines.len() == 0 {
        assert(texts(r@) =~= section(placeholder@, texts(lines@)));
        return r;
    }
    r.push(placeholder.to_owned());
    let mut i: usize = 0;
    while i < lines.len()
        invariant
            i <= lines@.len(),
            texts(r@) =~= seq![placeholder@] + texts(lines@).subrange(0, i as int),
        decreases lines@.len() - i,
    {
        let ghost prev = r@;
        r.push(lines[i].clone());
        assert(texts(r@) =~= texts(prev).push(lines@[i as int]@));
        i = i + 1;
        assert(texts(r@) =~= seq![placeholder@] + texts(lines@).subrange(0, i as int));
    }
    assert(texts(lines@).subrange(0, i as int) =~= texts(lines@));
    r
}

/// The daemon's log: captured standard output, then standard error, each
/// under its label, streams without lines left out.
pub fn log(stdout_lines: &Vec<String>, stderr_lines: &Vec<String>) -> (r: Vec<String>)
    ensures
        texts(r@) == section("STDOUT>"@, texts(stdout_lines@)) + section(
            "STDERR>"@,
            texts(stderr_lines@),
        ),
{
    let mut r = log_section("STDOUT>", stdout_lines);
    let mut e = log_section("STDERR>", stderr_lines);
    let ghost r0 = r@;
    let ghost e0 = e@;
    r.append(&mut e);
    assert(r@ == r0 + e0);
    assert(texts(r@) =~= texts(r0) + texts(e0));
    r
}

} // verus!
