//! The evaluator-pin handshake shared by every WebView driver run: the
//! messages a driver sends back, how each is validated against the run's
//! current phase, how a joined completion is checked, and the machine that
//! advances through a run's phases.
//!
//! What is run-specific (the phase table, its order and milestones, the
//! terminal stage and marker) comes from each run's `PhaseKind`.

use vstd::prelude::*;
use crate::catalog::same_text;
use crate::fmt::{lines_are, string_views};
use crate::text::push_str;

verus! {

/// The protocol version every message and completion must carry.
pub const SMOKE_PROTOCOL_VERSION: u32 = 2;

/// A run's phase table: each phase's name, its successor (none for the
/// last), and the milestone its progress report must carry.
pub trait PhaseKind: Copy + Sized {
    spec fn name_spec(self) -> Seq<char>;

    spec fn successor(self) -> Option<Self>;

    spec fn milestone_spec(self) -> Seq<char>;

    spec fn first_spec() -> Self;

    /// The phase's name, sent to the driver and matched against its report.
    fn as_str(self) -> (s: &'static str)
        ensures
            s@ == self.name_spec(),
    ;

    /// The phase after this one; none after the last.
    fn next(self) -> (n: Option<Self>)
        ensures
            n == self.successor(),
    ;

    /// The milestone a progress report from this phase must carry.
    fn expected_milestone(self) -> (m: &'static str)
        ensures
            m@ == self.milestone_spec(),
    ;

    /// The run's first phase.
    fn first() -> (p: Self)
        ensures
            p == Self::first_spec(),
    ;
}

/// What the driver reports at the end of a run.
#[derive(Debug, Clone)]
pub struct DriverResult {
    pub ok: bool,
    pub stage: String,
    pub marker: String,
    pub milestones: Vec<String>,
    pub error_toast_seen: bool,
    pub error: Option<String>,
}

#[derive(Debug, Clone, Copy, PartialEq, Eq, Structural)]
pub enum MessageKind {
    Pending,
    Progress,
    Terminal,
}

/// The driver's report for one exchange.
#[derive(Debug, Clone)]
pub struct PhaseMessage {
    pub protocol_version: u32,
    pub exchange_id: u64,
    pub kind: MessageKind,
    pub phase: String,
    pub released_exchange_id: Option<u64>,
    pub released_phase: Option<String>,
    pub milestone: Option<String>,
    pub result: Option<DriverResult>,
}

/// What the driver returns once its acknowledged exchange is joined.
#[derive(Debug, Clone)]
pub struct PhaseCompletion {
    pub protocol_version: u32,
    pub exchange_id: u64,
    pub phase: String,
    pub kind: MessageKind,
    pub acknowledgement_processed: bool,
    pub evaluator_pinned: bool,
    /// Why the part after the acknowledgement failed, if it did.
    pub error: Option<String>,
}

/// The exchange whose evaluator the driver keeps pinned until the next one
/// releases it.
#[derive(Debug, Clone, Copy, PartialEq, Eq)]
pub struct PinnedExchange<Phase> {
    pub exchange_id: u64,
    pub phase: Phase,
}

/// One joined exchange: the report, the completion, and the pin it left.
#[derive(Debug)]
pub struct CompletedProbe<Phase> {
    pub message: PhaseMessage,
    pub completion: PhaseCompletion,
    pub pin: PinnedExchange<Phase>,
}

/// The driver's own reason, when the message is a terminal failure that
/// carries one.
pub open spec fn reason_of(message: PhaseMessage) -> Option<Seq<char>> {
    if message.kind == MessageKind::Terminal && (message.result matches Some(r) && !r.ok
        && r.error is Some) {
        Some(message.result->0.error->0@)
    } else {
        None
    }
}

/// A structural rejection, with the driver's own reason appended when
/// there is one.
pub open spec fn rejection(message: PhaseMessage, base: Seq<char>) -> Seq<char> {
    match reason_of(message) {
        Some(reason) => base + ": "@ + reason,
        None => base,
    }
}

/// Appends a terminal failure's own driver-reported reason to a structural
/// rejection, when `message` carries one: a driver's early-rejection report
/// cannot know what Rust expected released, so a bare structural complaint
/// would otherwise discard the driver's more specific reason.
pub fn reject_with_reason(message: &PhaseMessage, base: &str) -> (m: String)
    ensures
        m@ == rejection(*message, base@),
{
    let mut m = String::new();
    push_str(&mut m, base);
    if let MessageKind::Terminal = message.kind {
        if let Some(result) = &message.result {
            if !result.ok {
                if let Some(reason) = &result.error {
                    push_str(&mut m, ": ");
                    push_str(&mut m, reason.as_str());
                }
            }
        }
    }
    assert(m@ =~= rejection(*message, base@));
    m
}

/// The message releases exactly the prior pin, or none when there was none.
pub open spec fn released_matches<P: PhaseKind>(
    message: PhaseMessage,
    release: Option<PinnedExchange<P>>,
) -> bool {
    match release {
        Some(r) => message.released_exchange_id == Some(r.exchange_id) && (message.released_phase matches Some(p)
            && p@ == r.phase.name_spec()),
        None => message.released_exchange_id is None && message.released_phase is None,
    }
}

/// The judgement of a driver's report at phase `current`.
pub open spec fn validate_spec<P: PhaseKind>(
    current: P,
    message: PhaseMessage,
    exchange_id: u64,
    release: Option<PinnedExchange<P>>,
) -> Result<(), Seq<char>> {
    if message.protocol_version != SMOKE_PROTOCOL_VERSION {
        Err(rejection(message, "driver returned an unsupported smoke protocol version"@))
    } else if message.exchange_id != exchange_id {
        Err(rejection(message, "driver returned the wrong smoke exchange"@))
    } else if message.phase@ != current.name_spec() {
        Err(rejection(message, "driver returned an out-of-order phase"@))
    } else if !released_matches(message, release) {
        Err(rejection(message, "driver did not release the exact prior evaluator pin"@))
    } else {
        match message.kind {
            MessageKind::Pending => if message.milestone is Some || message.result is Some {
                Err("pending driver message contained progress data"@)
            } else {
                Ok(())
            },
            MessageKind::Progress => if current.successor() is None {
                Err(current.name_spec() + " phase cannot return nonterminal progress"@)
            } else if !(message.milestone matches Some(m) && m@ == current.milestone_spec())
                || message.result is Some {
                Err("driver returned malformed phase progress"@)
            } else {
                Ok(())
            },
            MessageKind::Terminal => if message.milestone is Some || message.result is None {
                Err("terminal driver message was malformed"@)
            } else {
                Ok(())
            },
        }
    }
}

/// The judgement of a joined completion.
pub open spec fn completion_spec(
    completion: PhaseCompletion,
    exchange_id: u64,
    phase: Seq<char>,
    kind: MessageKind,
) -> Result<(), Seq<char>> {
    if completion.protocol_version != SMOKE_PROTOCOL_VERSION || completion.exchange_id
        != exchange_id || completion.phase@ != phase || completion.kind != kind
        || !completion.acknowledgement_processed || !completion.evaluator_pinned
        || completion.error is Some {
        let base = phase + " phase evaluator returned invalid pinned completion"@;
        match completion.error {
            Some(reason) => Err(base + ": "@ + reason@),
            None => Err(base),
        }
    } else {
        Ok(())
    }
}

/// Checks a joined completion against the exchange it must close.
pub fn validate_completion(
    completion: &PhaseCompletion,
    exchange_id: u64,
    phase: &str,
    kind: MessageKind,
) -> (r: Result<(), String>)
    ensures
        match completion_spec(*completion, exchange_id, phase@, kind) {
            Ok(u) => r == Ok::<(), String>(u),
            Err(m) => r matches Err(e) && e@ == m,
        },
{
    if completion.protocol_version != SMOKE_PROTOCOL_VERSION || completion.exchange_id
        != exchange_id || !same_text(completion.phase.as_str(), phase) || completion.kind != kind
        || !completion.acknowledgement_processed || !completion.evaluator_pinned
        || completion.error.is_some() {
        let mut m = String::new();
        push_str(&mut m, phase);
        push_str(&mut m, " phase evaluator returned invalid pinned completion");
        if let Some(reason) = &completion.error {
            push_str(&mut m, ": ");
            push_str(&mut m, reason.as_str());
        }
        assert(m@ =~= completion_spec(*completion, exchange_id, phase@, kind)->Err_0);
        return Err(m);
    }
    Ok(())
}

/// The judgement of a run's final result.
pub open spec fn run_result_spec(
    result: DriverResult,
    terminal_stage: Seq<char>,
    marker: Seq<char>,
    label: Seq<char>,
    expected: Seq<Seq<char>>,
) -> Result<(), Seq<char>> {
    if !result.ok {
        Err("driver failed at "@ + result.stage@ + ": "@ + match result.error {
            Some(e) => e@,
            None => "unknown error"@,
        })
    } else if result.stage@ != terminal_stage || result.marker@ != marker {
        Err("driver returned the wrong terminal stage or marker"@)
    } else if result.error_toast_seen {
        Err("an error toast appeared during the "@ + label + " sequence"@)
    } else if result.error is Some {
        Err("successful driver result unexpectedly contained an error"@)
    } else if string_views(result.milestones@) != expected {
        Err("driver returned an incomplete or out-of-order milestone list"@)
    } else {
        Ok(())
    }
}

/// Checks a run's final result: it succeeded, at the run's terminal stage,
/// with the run's marker, with no error toast, and with every milestone in
/// order.
pub fn validate_run_result(
    result: &DriverResult,
    terminal_stage: &str,
    marker: &str,
    label: &str,
    expected: &[&str],
) -> (r: Result<(), String>)
    ensures
        match run_result_spec(
            *result,
            terminal_stage@,
            marker@,
            label@,
            expected@.map_values(|s: &str| s@),
        ) {
            Ok(u) => r == Ok::<(), String>(u),
            Err(m) => r matches Err(e) && e@ == m,
        },
{
    if !result.ok {
        let mut m = String::new();
        push_str(&mut m, "driver failed at ");
        push_str(&mut m, result.stage.as_str());
        push_str(&mut m, ": ");
        match &result.error {
            Some(e) => push_str(&mut m, e.as_str()),
            None => push_str(&mut m, "unknown error"),
        }
        assert(m@ =~= run_result_spec(*result, terminal_stage@, marker@, label@, expected@.map_values(|s: &str| s@))->Err_0);
        return Err(m);
    }
    if !same_text(result.stage.as_str(), terminal_stage) || !same_text(result.marker.as_str(), marker) {
        return Err("driver returned the wrong terminal stage or marker".to_owned());
    }
    if result.error_toast_seen {
        let mut m = String::new();
        push_str(&mut m, "an error toast appeared during the ");
        push_str(&mut m, label);
        push_str(&mut m, " sequence");
        assert(m@ =~= "an error toast appeared during the "@ + label@ + " sequence"@);
        return Err(m);
    }
    if result.error.is_some() {
        return Err("successful driver result unexpectedly contained an error".to_owned());
    }
    if !lines_are(&result.milestones, expected) {
        return Err("driver returned an incomplete or out-of-order milestone list".to_owned());
    }
    Ok(())
}

/// A run's position in its phase table, and the last exchange applied.
#[derive(Debug)]
pub struct PhaseMachine<P> {
    current: P,
    last_applied_exchange_id: Option<u64>,
}

impl<P: PhaseKind> PhaseMachine<P> {
    /// The phase the run is at.
    pub closed spec fn phase(&self) -> P {
        self.current
    }

    /// The last exchange applied, if any.
    pub closed spec fn last_applied(&self) -> Option<u64> {
        self.last_applied_exchange_id
    }

    /// A machine at the run's first phase, with nothing applied.
    pub fn new() -> (m: Self)
        ensures
            m.phase() == P::first_spec(),
            m.last_applied() is None,
    {
        PhaseMachine { current: P::first(), last_applied_exchange_id: None }
    }

    /// A machine at `current`, with nothing applied.
    pub fn for_phase(current: P) -> (m: Self)
        ensures
            m.phase() == current,
            m.last_applied() is None,
    {
        PhaseMachine { current, last_applied_exchange_id: None }
    }

    pub fn current(&self) -> (p: P)
        ensures
            p == self.phase(),
    {
        self.current
    }

    /// Validates the driver's report for `exchange_id` at the current phase:
    /// protocol, exchange, phase, the exact prior pin released, and the shape
    /// of the report for its kind.
    pub fn validate(
        &self,
        message: &PhaseMessage,
        exchange_id: u64,
        release: Option<PinnedExchange<P>>,
    ) -> (r: Result<(), String>)
        ensures
            match validate_spec(self.phase(), *message, exchange_id, release) {
                Ok(u) => r == Ok::<(), String>(u),
                Err(m) => r matches Err(e) && e@ == m,
            },
    {
        if message.protocol_version != SMOKE_PROTOCOL_VERSION {
            return Err(reject_with_reason(message, "driver returned an unsupported smoke protocol version"));
        }
        if message.exchange_id != exchange_id {
            return Err(reject_with_reason(message, "driver returned the wrong smoke exchange"));
        }
        if !same_text(message.phase.as_str(), self.current.as_str()) {
            return Err(reject_with_reason(message, "driver returned an out-of-order phase"));
        }
        let matches = match release {
            Some(pin) => {
                message.released_exchange_id == Some(pin.exchange_id) && match &message.released_phase {
                    Some(p) => same_text(p.as_str(), pin.phase.as_str()),
                    None => false,
                }
            },
            None => message.released_exchange_id.is_none() && message.released_phase.is_none(),
        };
        if !matches {
            return Err(reject_with_reason(message, "driver did not release the exact prior evaluator pin"));
        }
        match message.kind {
            MessageKind::Pending => {
                if message.milestone.is_some() || message.result.is_some() {
                    return Err("pending driver message contained progress data".to_owned());
                }
            },
            MessageKind::Progress => {
                if self.current.next().is_none() {
                    let mut m = String::new();
                    push_str(&mut m, self.current.as_str());
                    push_str(&mut m, " phase cannot return nonterminal progress");
                    assert(m@ =~= self.phase().name_spec() + " phase cannot return nonterminal progress"@);
                    return Err(m);
                }
                let expected = self.current.expected_milestone();
                let right = match &message.milestone {
                    Some(m) => same_text(m.as_str(), expected),
                    None => false,
                };
                if !right || message.result.is_some() {
                    return Err("driver returned malformed phase progress".to_owned());
                }
            },
            MessageKind::Terminal => {
                if message.milestone.is_some() || message.result.is_none() {
                    return Err("terminal driver message was malformed".to_owned());
                }
            },
        }
        Ok(())
    }

    /// Applies a joined exchange: a stale or repeated exchange is refused
    /// and changes nothing; otherwise it is recorded, and a progress report
    /// moves the run to the next phase.
    pub fn apply_completed(&mut self, exchange_id: u64, message: &PhaseMessage) -> (r: Result<
        (),
        String,
    >)
        ensures
            (old(self).last_applied() matches Some(last) && exchange_id <= last) ==> {
                &&& r matches Err(e) && e@ == "driver completion was stale or already applied"@
                &&& final(self).phase() == old(self).phase()
                &&& final(self).last_applied() == old(self).last_applied()
            },
            !(old(self).last_applied() matches Some(last) && exchange_id <= last) ==> {
                &&& r is Ok
                &&& final(self).last_applied() == Some(exchange_id)
                &&& final(self).phase() == (if message.kind == MessageKind::Progress
                    && old(self).phase().successor() is Some {
                    old(self).phase().successor()->0
                } else {
                    old(self).phase()
                })
            },
    {
        if let Some(last) = self.last_applied_exchange_id {
            if exchange_id <= last {
                return Err("driver completion was stale or already applied".to_owned());
            }
        }
        self.last_applied_exchange_id = Some(exchange_id);
        if let MessageKind::Progress = message.kind {
            if let Some(next) = self.current.next() {
                self.current = next;
            }
        }
        Ok(())
    }
}

/// The phase reached from `p` after `k` steps of `next`, if the table lasts
/// that long.
pub open spec fn walk<P: PhaseKind>(p: P, k: nat) -> Option<P>
    decreases k,
{
    if k == 0 {
        Some(p)
    } else {
        match walk(p, (k - 1) as nat) {
            Some(q) => q.successor(),
            None => None,
        }
    }
}

/// A whole run's sequence of exchanges: the machine, the next exchange id,
/// and the pin the next exchange must release.
#[derive(Debug)]
pub struct RunSequence<P> {
    machine: PhaseMachine<P>,
    exchange_id: u64,
    release: Option<PinnedExchange<P>>,
}

impl<P: PhaseKind> RunSequence<P> {
    pub closed spec fn machine_spec(&self) -> PhaseMachine<P> {
        self.machine
    }

    pub closed spec fn exchange_spec(&self) -> u64 {
        self.exchange_id
    }

    pub closed spec fn release_spec(&self) -> Option<PinnedExchange<P>> {
        self.release
    }

    /// The run's own invariant while it goes on: every applied exchange
    /// came before the one to request next.
    pub closed spec fn wf(&self) -> bool {
        self.machine.last_applied() matches Some(last) ==> last < self.exchange_id
    }

    /// The run before its first exchange: at the first phase, exchange 1,
    /// nothing to release.
    pub fn new() -> (s: Self)
        ensures
            s.machine_spec().phase() == P::first_spec(),
            s.machine_spec().last_applied() is None,
            s.exchange_spec() == 1,
            s.release_spec() is None,
            s.wf(),
    {
        RunSequence { machine: PhaseMachine::new(), exchange_id: 1, release: None }
    }

    /// The phase to request next.
    pub fn phase(&self) -> (p: P)
        ensures
            p == self.machine_spec().phase(),
    {
        self.machine.current()
    }

    /// The id of the exchange to request next.
    pub fn exchange_id(&self) -> (id: u64)
        ensures
            id == self.exchange_spec(),
    {
        self.exchange_id
    }

    /// The pin the next exchange must release.
    pub fn release(&self) -> (pin: Option<PinnedExchange<P>>)
        ensures
            pin == self.release_spec(),
    {
        self.release
    }

    /// Takes one joined exchange: the report is validated, the completion
    /// checked, and the exchange applied; its pin is the next one to release.
    /// A terminal report ends the run with its result; otherwise the run goes
    /// on with the next exchange id.
    pub fn step(&mut self, completed: CompletedProbe<P>) -> (r: Result<Option<DriverResult>, String>)
        ensures
            r is Ok ==> {
                &&& validate_spec(
                    old(self).machine_spec().phase(),
                    completed.message,
                    old(self).exchange_spec(),
                    old(self).release_spec(),
                ) is Ok
                &&& completion_spec(
                    completed.completion,
                    old(self).exchange_spec(),
                    old(self).machine_spec().phase().name_spec(),
                    completed.message.kind,
                ) is Ok
                &&& final(self).machine_spec().last_applied() == Some(old(self).exchange_spec())
                &&& final(self).machine_spec().phase() == (if completed.message.kind
                    == MessageKind::Progress && old(self).machine_spec().phase().successor() is Some {
                    old(self).machine_spec().phase().successor()->0
                } else {
                    old(self).machine_spec().phase()
                })
                &&& final(self).release_spec() == Some(completed.pin)
            },
            r matches Ok(Some(result)) ==> completed.message.result == Some(result),
            r matches Ok(None) ==> completed.message.result is None && final(self).exchange_spec()
                == old(self).exchange_spec() + 1,
            validate_spec(
                old(self).machine_spec().phase(),
                completed.message,
                old(self).exchange_spec(),
                old(self).release_spec(),
            ) matches Err(m) ==> r matches Err(e) && e@ == m,
            validate_spec(
                old(self).machine_spec().phase(),
                completed.message,
                old(self).exchange_spec(),
                old(self).release_spec(),
            ) is Ok ==> (completion_spec(
                completed.completion,
                old(self).exchange_spec(),
                old(self).machine_spec().phase().name_spec(),
                completed.message.kind,
            ) matches Err(m) ==> r matches Err(e) && e@ == m),
            old(self).wf() && validate_spec(
                old(self).machine_spec().phase(),
                completed.message,
                old(self).exchange_spec(),
                old(self).release_spec(),
            ) is Ok && completion_spec(
                completed.completion,
                old(self).exchange_spec(),
                old(self).machine_spec().phase().name_spec(),
                completed.message.kind,
            ) is Ok ==> {
                &&& completed.message.result is Some ==> r == Ok::<Option<DriverResult>, String>(
                    completed.message.result,
                )
                &&& completed.message.result is None && old(self).exchange_spec() < u64::MAX ==> r
                    == Ok::<Option<DriverResult>, String>(None)
                &&& completed.message.result is None && old(self).exchange_spec() == u64::MAX ==> (r matches Err(
                    e,
                ) && e@ == "exchange id exhausted"@)
            },
            r matches Ok(None) ==> final(self).wf(),
    {
        let phase = self.machine.current();
        let id = self.exchange_id;
        self.machine.validate(&completed.message, id, self.release)?;
        validate_completion(&completed.completion, id, phase.as_str(), completed.message.kind)?;
        self.machine.apply_completed(id, &completed.message)?;
        self.release = Some(completed.pin);
        match completed.message.result {
            Some(result) => Ok(Some(result)),
            None => {
                if id == u64::MAX {
                    return Err("exchange id exhausted".to_owned());
                }
                self.exchange_id = id + 1;
                Ok(None)
            },
        }
    }
}

/// A model of the evaluator's owner across the joined return: the driver's
/// pin keeps the channel alive through a finalizer attempt, until the next
/// exchange releases it.
#[derive(Debug, Clone, Copy, PartialEq, Eq)]
pub struct ModeledEvaluatorOwner {
    pub live: bool,
    pub pinned: bool,
    pub returned: bool,
}

impl ModeledEvaluatorOwner {
    /// An evaluator that has returned, pinned or not.
    pub fn returned(pinned: bool) -> (o: Self)
        ensures
            o == (ModeledEvaluatorOwner { live: true, pinned, returned: true }),
    {
        ModeledEvaluatorOwner { live: true, pinned, returned: true }
    }

    /// A finalizer runs: an unpinned owner is dropped; a pinned one stays.
    pub fn finalizer_attempt(&mut self)
        ensures
            final(self).live == (old(self).live && old(self).pinned),
            final(self).pinned == old(self).pinned,
            final(self).returned == old(self).returned,
    {
        if !self.pinned {
            self.live = false;
        }
    }

    /// Joining succeeds only on a returned evaluator whose owner is alive.
    pub fn consume_join(&self) -> (r: Result<(), &'static str>)
        ensures
            r is Ok <==> (self.returned && self.live),
            r matches Err(m) ==> m@ == "EvalError::Finished"@,
    {
        if self.returned && self.live {
            Ok(())
        } else {
            Err("EvalError::Finished")
        }
    }

    /// The next exchange releases the pin.
    pub fn release(&mut self)
        ensures
            final(self).pinned == false,
            final(self).live == old(self).live,
            final(self).returned == old(self).returned,
    {
        self.pinned = false;
    }
}

} // verus!
