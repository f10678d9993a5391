//! A verified state machine for one supervised run of a child process.
//!
//! A run starts when the caller attempts to spawn the child and ends in one
//! of five terminal phases: the child exited on its own, it was killed after
//! the deadline, the spawn was refused, the output pipe failed mid-drain, or
//! its exit status could not be collected.  The caller reports every
//! observation (bytes drained, end of stream, the deadline firing, the reap
//! result) as an [`Event`]; [`Supervision::step`] updates the state and says
//! what to do next as an [`Action`].

use vstd::prelude::*;

verus! {

/// Where a supervised run currently stands.
///
/// `Idle` precedes the spawn; `Draining`, `GraceDraining` and `Reaping` are
/// the live phases; the rest are terminal.
#[derive(Clone, Copy, PartialEq, Eq, Structural, Debug)]
pub enum Phase {
    /// The child has not been spawned yet.
    Idle,
    /// The child is running and its output is being drained; the deadline
    /// has not fired.
    Draining,
    /// The deadline fired and the kill was issued; the output already
    /// buffered in the pipe is still being drained, for a bounded grace
    /// period.
    GraceDraining,
    /// The output stream is closed (or abandoned); the exit status is being
    /// collected.
    Reaping,
    /// Terminal: the child closed its output and was reaped in time.
    Exited,
    /// Terminal: the run timed out and the child was killed.
    Killed,
    /// Terminal: the operating system refused to create the process.
    SpawnFailed,
    /// Terminal: reading the output pipe failed mid-drain.
    ReadFailed,
    /// Terminal: the exit status of a naturally exited child could not be
    /// collected.
    ReapFailed,
}

/// One observation reported by the caller to the state machine.
pub enum Event {
    /// The spawn succeeded; the output pipe is open.
    Spawned,
    /// The operating system refused to create the process.
    SpawnRefused,
    /// A read from the output pipe returned these bytes.
    Data(Vec<u8>),
    /// A read from the output pipe returned zero bytes: end of stream.
    Eof,
    /// A read from the output pipe failed.
    ReadFault,
    /// The deadline elapsed before the output stream closed.
    DeadlineExpired,
    /// The bounded grace period after the kill elapsed before the output
    /// stream closed.
    GraceExpired,
    /// Waiting on the child succeeded and reported this exit status.
    Reaped(i32),
    /// Waiting on the child failed; its final state is unknown.
    ReapRefused,
}

/// What the caller must do next, as decided by [`Supervision::step`].
#[derive(Clone, Copy, PartialEq, Eq, Structural, Debug)]
pub enum Action {
    /// Keep draining the output pipe, racing the pending timer.
    Wait,
    /// Terminate the child now, then keep draining for a bounded grace
    /// period.
    Kill,
    /// Collect the child's exit status, within a bounded grace period.
    Reap,
    /// Terminate the child (best effort), then collect its exit status as
    /// cleanup; the run has already failed.
    KillThenReap,
    /// The run is over: read it off with [`Supervision::result`].
    Stop,
}

/// The mathematical state of a supervised run.
#[verifier::ext_equal]
pub struct Model {
    /// The current phase.
    pub phase: Phase,
    /// Every byte drained from the output pipe so far, in order.
    pub captured: Seq<u8>,
    /// Whether the deadline fired before the output stream closed.
    pub timed_out: bool,
    /// Whether a kill has been issued (at the deadline, or defensively on a
    /// read fault).
    pub kill_requested: bool,
    /// The collected exit status, once known.
    pub exit_status: Option<i32>,
}

/// The state of a run that has not been started.
pub open spec fn init_model() -> Model {
    Model {
        phase: Phase::Idle,
        captured: Seq::empty(),
        timed_out: false,
        kill_requested: false,
        exit_status: None,
    }
}

/// Which events the caller may report in a given state.  Reads race the
/// deadline only while draining; the deadline fires at most once, and only
/// before end of stream; reap results answer a reap request.
pub open spec fn event_allowed(m: Model, e: Event) -> bool {
    match e {
        Event::Spawned => m.phase is Idle,
        Event::SpawnRefused => m.phase is Idle,
        Event::Data(_) => m.phase is Draining || m.phase is GraceDraining,
        Event::Eof => m.phase is Draining || m.phase is GraceDraining,
        Event::ReadFault => m.phase is Draining || m.phase is GraceDraining,
        Event::DeadlineExpired => m.phase is Draining,
        Event::GraceExpired => m.phase is GraceDraining,
        Event::Reaped(_) => m.phase is Reaping,
        Event::ReapRefused => m.phase is Reaping,
    }
}

/// The state after one event.
pub open spec fn next(m: Model, e: Event) -> Model {
    match e {
        Event::Spawned => Model { phase: Phase::Draining, ..m },
        Event::SpawnRefused => Model { phase: Phase::SpawnFailed, ..m },
        Event::Data(d) => Model { captured: m.captured + d@, ..m },
        Event::Eof => Model { phase: Phase::Reaping, ..m },
        Event::ReadFault => Model { phase: Phase::ReadFailed, kill_requested: true, ..m },
        Event::DeadlineExpired => Model {
            phase: Phase::GraceDraining,
            timed_out: true,
            kill_requested: true,
            ..m
        },
        Event::GraceExpired => Model { phase: Phase::Reaping, ..m },
        Event::Reaped(code) => Model {
            phase: if m.timed_out { Phase::Killed } else { Phase::Exited },
            exit_status: Some(code),
            ..m
        },
        Event::ReapRefused => if m.timed_out {
            // The kill was issued but its effect cannot be confirmed: the
            // timed-out outcome is still returned, with no exit status.
            Model { phase: Phase::Killed, ..m }
        } else {
            Model { phase: Phase::ReapFailed, ..m }
        },
    }
}

/// What the caller must do in response to one event.
pub open spec fn emit(m: Model, e: Event) -> Action {
    match e {
        Event::Spawned => Action::Wait,
        Event::SpawnRefused => Action::Stop,
        Event::Data(_) => Action::Wait,
        Event::Eof => Action::Reap,
        Event::ReadFault => if m.phase is Draining {
            // No kill was issued yet: terminate defensively, then clean up.
            Action::KillThenReap
        } else {
            // The deadline already forced a kill; only the cleanup is left.
            Action::Reap
        },
        Event::DeadlineExpired => Action::Kill,
        Event::GraceExpired => Action::Reap,
        Event::Reaped(_) => Action::Stop,
        Event::ReapRefused => Action::Stop,
    }
}

/// Whether a phase ends the run.
pub open spec fn is_terminal(p: Phase) -> bool {
    p is Exited || p is Killed || p is SpawnFailed || p is ReadFailed || p is ReapFailed
}

/// The invariant every reachable state satisfies.
pub open spec fn wf(m: Model) -> bool {
    &&& (m.phase is Idle ==> m.captured.len() == 0 && !m.timed_out && !m.kill_requested)
    &&& (m.phase is Draining ==> !m.timed_out && !m.kill_requested)
    &&& (m.phase is GraceDraining ==> m.timed_out && m.kill_requested)
    &&& (m.phase is Reaping ==> m.timed_out == m.kill_requested)
    &&& (m.phase is SpawnFailed ==> m.captured.len() == 0 && !m.timed_out && !m.kill_requested)
    &&& (m.phase is Exited ==> !m.timed_out)
    &&& (m.phase is Killed ==> m.timed_out)
    &&& (m.phase is ReadFailed ==> m.kill_requested)
    &&& (m.phase is ReapFailed ==> !m.timed_out)
    &&& (m.timed_out ==> m.kill_requested)
    &&& (m.exit_status is Some ==> m.phase is Exited || m.phase is Killed)
    &&& (m.phase is Exited ==> m.exit_status is Some)
}

/// Each allowed event preserves the invariant.
pub proof fn lemma_next_preserves_wf(m: Model, e: Event)
    requires
        wf(m),
        event_allowed(m, e),
    ensures
        wf(next(m, e)),
{
}

/// The state after a whole sequence of events.
pub open spec fn run(m: Model, es: Seq<Event>) -> Model
    decreases es.len(),
{
    if es.len() == 0 {
        m
    } else {
        run(next(m, es[0]), es.drop_first())
    }
}

/// Whether every event of the sequence is allowed in the state it meets.
pub open spec fn trace_allowed(m: Model, es: Seq<Event>) -> bool
    decreases es.len(),
{
    es.len() == 0 || (event_allowed(m, es[0]) && trace_allowed(next(m, es[0]), es.drop_first()))
}

/// The payload of one event: the bytes it drains, if any.
pub open spec fn event_data(e: Event) -> Seq<u8> {
    match e {
        Event::Data(d) => d@,
        _ => Seq::empty(),
    }
}

/// All the bytes a sequence of events drains, in order.
pub open spec fn drained(es: Seq<Event>) -> Seq<u8>
    decreases es.len(),
{
    if es.len() == 0 {
        Seq::empty()
    } else {
        event_data(es[0]) + drained(es.drop_first())
    }
}

/// Whether the deadline fires somewhere in the sequence.
pub open spec fn contains_deadline(es: Seq<Event>) -> bool {
    exists|i: int| 0 <= i < es.len() && es[i] is DeadlineExpired
}

/// How many kill requests a sequence of events makes the caller issue.
pub open spec fn kills_issued(m: Model, es: Seq<Event>) -> nat
    decreases es.len(),
{
    if es.len() == 0 {
        0
    } else {
        (if emit(m, es[0]) is Kill || emit(m, es[0]) is KillThenReap {
            1nat
        } else {
            0nat
        }) + kills_issued(next(m, es[0]), es.drop_first())
    }
}

/// The mathematical value of an [`Outcome`].
#[verifier::ext_equal]
pub struct OutcomeModel {
    /// The collected exit status, if it could be collected.
    pub exit_status: Option<i32>,
    /// The bytes drained from the child's output, in order.
    pub captured: Seq<u8>,
    /// Whether the deadline forced a kill.
    pub timed_out: bool,
}

/// How a supervised run ended, when it ended without error.
///
/// A timed-out run is not an error: it is an `Outcome` with
/// `timed_out == true` whose `captured_output` holds exactly the bytes
/// drained before the kill.
#[derive(Debug)]
pub struct Outcome {
    /// The child's exit status; absent only when the run timed out and the
    /// effect of the kill could not be confirmed.
    pub exit_status: Option<i32>,
    /// Exactly the bytes read from the child's output before the run
    /// ended: none fabricated, none dropped silently.
    pub captured_output: Vec<u8>,
    /// Whether the deadline fired before the output stream closed.
    pub timed_out: bool,
}

impl View for Outcome {
    type V = OutcomeModel;

    open spec fn view(&self) -> OutcomeModel {
        OutcomeModel {
            exit_status: self.exit_status,
            captured: self.captured_output@,
            timed_out: self.timed_out,
        }
    }
}

/// The mathematical value of a [`SupervisionError`].
#[verifier::ext_equal]
pub enum ErrorModel {
    /// The operating system refused to create the process.
    Spawn,
    /// Reading the output pipe failed; the payload is the partial output
    /// drained before the failure.
    OutputRead(Seq<u8>),
    /// The exit status could not be collected; the child's final state is
    /// unknown.
    Reap,
}

/// Why a supervised run failed.
#[derive(Debug)]
pub enum SupervisionError {
    /// The executable could not be found, or the operating system refused
    /// to create the process.  Surfaced immediately, never retried.
    SpawnError,
    /// A read from the output pipe failed mid-drain.  Carries whatever
    /// partial output was captured before the failure.
    OutputReadError {
        /// The bytes drained before the read failed.
        partial: Vec<u8>,
    },
    /// The child's exit status could not be collected after a natural
    /// exit; the caller must treat the child's final state as unknown.
    ReapError,
}

impl View for SupervisionError {
    type V = ErrorModel;

    open spec fn view(&self) -> ErrorModel {
        match self {
            SupervisionError::SpawnError => ErrorModel::Spawn,
            SupervisionError::OutputReadError { partial } => ErrorModel::OutputRead(partial@),
            SupervisionError::ReapError => ErrorModel::Reap,
        }
    }
}

/// The result a terminal state denotes: the outcome of a run that ended in
/// `Exited` or `Killed`, and the error of one that ended in `SpawnFailed`,
/// `ReadFailed` or `ReapFailed`.
pub open spec fn denotes(m: Model, r: Result<Outcome, SupervisionError>) -> bool {
    match m.phase {
        Phase::Exited | Phase::Killed => r matches Ok(o) && o@ == (OutcomeModel {
            exit_status: m.exit_status,
            captured: m.captured,
            timed_out: m.timed_out,
        }),
        Phase::SpawnFailed => r matches Err(e) && e@ == ErrorModel::Spawn,
        Phase::ReadFailed => r matches Err(e) && e@ == ErrorModel::OutputRead(m.captured),
        Phase::ReapFailed => r matches Err(e) && e@ == ErrorModel::Reap,
        _ => false,
    }
}

/// Copies a byte buffer.
fn copy_bytes(v: &Vec<u8>) -> (r: Vec<u8>)
    ensures
        r@ == v@,
{
    let mut r: Vec<u8> = Vec::new();
    let mut i: usize = 0;
    while i < v.len()
        invariant
            i <= v.len(),
            r@ == v@.subrange(0, i as int),
        decreases v.len() - i,
    {
        r.push(v[i]);
        i = i + 1;
    }
    proof {
        assert(r@ =~= v@);
    }
    r
}

/// One supervised run of a child process, driven by the caller's
/// observations.
pub struct Supervision {
    buf: Vec<u8>,
    phase: Phase,
    timed_out: bool,
    kill_requested: bool,
    exit_status: Option<i32>,
}

impl View for Supervision {
    type V = Model;

    closed spec fn view(&self) -> Model {
        Model {
            phase: self.phase,
            captured: self.buf@,
            timed_out: self.timed_out,
            kill_requested: self.kill_requested,
            exit_status: self.exit_status,
        }
    }
}

impl Supervision {
    /// A run that has not been started.
    pub fn new() -> (s: Supervision)
        ensures
            s@ == init_model(),
    {
        let s = Supervision {
            buf: Vec::new(),
            phase: Phase::Idle,
            timed_out: false,
            kill_requested: false,
            exit_status: None,
        };
        proof {
            assert(s@ =~= init_model());
        }
        s
    }

    /// Feed one observation into the run and learn what to do next.
    ///
    /// The new state is exactly [`next`] of the old one, and the returned
    /// action exactly [`emit`]; both are total functions the caller can
    /// reason about.
    pub fn step(&mut self, event: Event) -> (action: Action)
        requires
            wf(old(self)@),
            event_allowed(old(self)@, event),
        ensures
            final(self)@ == next(old(self)@, event),
            action == emit(old(self)@, event),
            wf(final(self)@),
    {
        match event {
            Event::Spawned => {
                self.phase = Phase::Draining;
                Action::Wait
            },
            Event::SpawnRefused => {
                self.phase = Phase::SpawnFailed;
                Action::Stop
            },
            Event::Data(mut d) => {
                self.buf.append(&mut d);
                Action::Wait
            },
            Event::Eof => {
                self.phase = Phase::Reaping;
                Action::Reap
            },
            Event::ReadFault => {
                let was_draining = match self.phase {
                    Phase::Draining => true,
                    _ => false,
                };
                self.phase = Phase::ReadFailed;
                self.kill_requested = true;
                if was_draining {
                    Action::KillThenReap
                } else {
                    Action::Reap
                }
            },
            Event::DeadlineExpired => {
                self.phase = Phase::GraceDraining;
                self.timed_out = true;
                self.kill_requested = true;
                Action::Kill
            },
            Event::GraceExpired => {
                self.phase = Phase::Reaping;
                Action::Reap
            },
            Event::Reaped(code) => {
                self.phase = if self.timed_out {
                    Phase::Killed
                } else {
                    Phase::Exited
                };
                self.exit_status = Some(code);
                Action::Stop
            },
            Event::ReapRefused => {
                self.phase = if self.timed_out {
                    Phase::Killed
                } else {
                    Phase::ReapFailed
                };
                Action::Stop
            },
        }
    }

    /// Read a finished run off: the outcome, or the error that ended it.
    pub fn result(&self) -> (r: Result<Outcome, SupervisionError>)
        requires
            is_terminal(self@.phase),
        ensures
            denotes(self@, r),
    {
        match self.phase {
            Phase::Exited | Phase::Killed => Ok(Outcome {
                exit_status: self.exit_status,
                captured_output: copy_bytes(&self.buf),
                timed_out: self.timed_out,
            }),
            Phase::SpawnFailed => Err(SupervisionError::SpawnError),
            Phase::ReadFailed => Err(SupervisionError::OutputReadError {
                partial: copy_bytes(&self.buf),
            }),
            _ => Err(SupervisionError::ReapError),
        }
    }

    /// The phase the run currently stands in.
    pub fn phase(&self) -> (p: Phase)
        ensures
            p == self@.phase,
    {
        self.phase
    }

    /// Whether the run has reached a terminal phase.
    pub fn is_finished(&self) -> (b: bool)
        ensures
            b == is_terminal(self@.phase),
    {
        match self.phase {
            Phase::Exited => true,
            Phase::Killed => true,
            Phase::SpawnFailed => true,
            Phase::ReadFailed => true,
            Phase::ReapFailed => true,
            _ => false,
        }
    }
}

/// Running a concatenation of traces is running one after the other.
pub proof fn lemma_run_append(m: Model, es1: Seq<Event>, es2: Seq<Event>)
    ensures
        run(m, es1 + es2) == run(run(m, es1), es2),
    decreases es1.len(),
{
    if es1.len() == 0 {
        assert(es1 + es2 =~= es2);
    } else {
        assert((es1 + es2).drop_first() =~= es1.drop_first() + es2);
        lemma_run_append(next(m, es1[0]), es1.drop_first(), es2);
    }
}

/// A concatenation of traces is allowed when each half is allowed where it
/// starts.
pub proof fn lemma_trace_allowed_append(m: Model, es1: Seq<Event>, es2: Seq<Event>)
    requires
        trace_allowed(m, es1),
        trace_allowed(run(m, es1), es2),
    ensures
        trace_allowed(m, es1 + es2),
    decreases es1.len(),
{
    if es1.len() == 0 {
        assert(es1 + es2 =~= es2);
    } else {
        assert((es1 + es2).drop_first() =~= es1.drop_first() + es2);
        lemma_trace_allowed_append(next(m, es1[0]), es1.drop_first(), es2);
    }
}

/// Every allowed trace keeps the invariant.
pub proof fn lemma_trace_preserves_wf(m: Model, es: Seq<Event>)
    requires
        wf(m),
        trace_allowed(m, es),
    ensures
        wf(run(m, es)),
    decreases es.len(),
{
    if es.len() > 0 {
        lemma_next_preserves_wf(m, es[0]);
        lemma_trace_preserves_wf(next(m, es[0]), es.drop_first());
    }
}

/// The captured output after any trace is the old captured output followed
/// by exactly the bytes the trace drained: none fabricated, none dropped.
pub proof fn lemma_captured_is_drained(m: Model, es: Seq<Event>)
    ensures
        run(m, es).captured == m.captured + drained(es),
    decreases es.len(),
{
    if es.len() == 0 {
        assert(m.captured + drained(es) =~= m.captured);
    } else {
        lemma_captured_is_drained(next(m, es[0]), es.drop_first());
        assert(next(m, es[0]).captured =~= m.captured + event_data(es[0]));
        assert((m.captured + event_data(es[0])) + drained(es.drop_first()) =~= m.captured
            + drained(es));
    }
}

/// What a concatenation of traces drains.
pub proof fn lemma_drained_append(es1: Seq<Event>, es2: Seq<Event>)
    ensures
        drained(es1 + es2) == drained(es1) + drained(es2),
    decreases es1.len(),
{
    if es1.len() == 0 {
        assert(es1 + es2 =~= es2);
        assert(drained(es1) + drained(es2) =~= drained(es2));
    } else {
        assert((es1 + es2).drop_first() =~= es1.drop_first() + es2);
        lemma_drained_append(es1.drop_first(), es2);
        assert(event_data(es1[0]) + (drained(es1.drop_first()) + drained(es2)) =~= drained(es1)
            + drained(es2));
    }
}

/// The output captured at any point of a run — in particular just before a
/// kill — is a byte-exact prefix of the output captured however the run
/// would have gone on: truncation, never corruption.
pub proof fn lemma_captured_is_prefix(m: Model, es: Seq<Event>, ext: Seq<Event>)
    ensures
        run(m, es).captured.is_prefix_of(run(m, es + ext).captured),
{
    lemma_captured_is_drained(m, es);
    lemma_captured_is_drained(m, es + ext);
    lemma_drained_append(es, ext);
    assert((m.captured + drained(es)).is_prefix_of((m.captured + drained(es)) + drained(ext)))
        by {
        let a = m.captured + drained(es);
        let b = drained(ext);
        assert((a + b).subrange(0, a.len() as int) =~= a);
    }
    assert(m.captured + (drained(es) + drained(ext)) =~= (m.captured + drained(es)) + drained(
        ext,
    ));
}

/// Once the deadline has fired it is never forgotten.
pub proof fn lemma_timeout_stays(m: Model, es: Seq<Event>)
    requires
        m.timed_out,
    ensures
        run(m, es).timed_out,
    decreases es.len(),
{
    if es.len() > 0 {
        lemma_timeout_stays(next(m, es[0]), es.drop_first());
    }
}

/// Once a kill has been requested that fact is never forgotten.
pub proof fn lemma_kill_request_stays(m: Model, es: Seq<Event>)
    requires
        m.kill_requested,
    ensures
        run(m, es).kill_requested,
    decreases es.len(),
{
    if es.len() > 0 {
        lemma_kill_request_stays(next(m, es[0]), es.drop_first());
    }
}

/// A process that runs past its deadline is killed: whenever the deadline
/// fires anywhere in a trace, the run records the timeout and the kill
/// request, whatever else happens.
pub proof fn lemma_deadline_forces_kill(m: Model, es: Seq<Event>)
    requires
        contains_deadline(es),
    ensures
        run(m, es).timed_out,
        run(m, es).kill_requested,
    decreases es.len(),
{
    if es[0] is DeadlineExpired {
        lemma_timeout_stays(next(m, es[0]), es.drop_first());
        lemma_kill_request_stays(next(m, es[0]), es.drop_first());
    } else {
        let i = choose|i: int| 0 <= i < es.len() && es[i] is DeadlineExpired;
        assert(es.drop_first()[i - 1] is DeadlineExpired);
        lemma_deadline_forces_kill(next(m, es[0]), es.drop_first());
    }
}

/// A process that finishes under its deadline is never reported as timed
/// out: a trace in which the deadline does not fire leaves the timeout
/// flag clear.
pub proof fn lemma_no_deadline_no_timeout(m: Model, es: Seq<Event>)
    requires
        !m.timed_out,
        !contains_deadline(es),
    ensures
        !run(m, es).timed_out,
    decreases es.len(),
{
    if es.len() > 0 {
        assert(!(es[0] is DeadlineExpired));
        assert(forall|i: int|
            0 <= i < es.drop_first().len() ==> es.drop_first()[i] == es[i + 1]);
        lemma_no_deadline_no_timeout(next(m, es[0]), es.drop_first());
    }
}

/// A run is reported as timed out exactly when the deadline fired during
/// it: never for a run the deadline did not interrupt, always for a run
/// it did.
pub proof fn lemma_timed_out_iff_deadline(es: Seq<Event>)
    ensures
        run(init_model(), es).timed_out <==> contains_deadline(es),
{
    if contains_deadline(es) {
        lemma_deadline_forces_kill(init_model(), es);
    } else {
        lemma_no_deadline_no_timeout(init_model(), es);
    }
}

/// Draining only moves bytes: a trace of data events keeps the run in the
/// same phase and appends exactly those bytes.
pub proof fn lemma_drain_only(m: Model, ds: Seq<Event>)
    requires
        m.phase is Draining || m.phase is GraceDraining,
        forall|i: int| 0 <= i < ds.len() ==> ds[i] is Data,
    ensures
        trace_allowed(m, ds),
        run(m, ds) == (Model { captured: m.captured + drained(ds), ..m }),
    decreases ds.len(),
{
    if ds.len() == 0 {
        assert(m.captured + drained(ds) =~= m.captured);
        assert(run(m, ds) =~= Model { captured: m.captured + drained(ds), ..m });
    } else {
        lemma_drain_only(next(m, ds[0]), ds.drop_first());
        assert((m.captured + event_data(ds[0])) + drained(ds.drop_first()) =~= m.captured
            + drained(ds));
        assert(run(m, ds) =~= Model { captured: m.captured + drained(ds), ..m });
    }
}

/// A process that closes its output and is reaped before the deadline
/// fires ends as `Exited`, with `timed_out` clear, with its own exit code,
/// and with every drained byte captured.
pub proof fn lemma_exit_before_deadline(ds: Seq<Event>, code: i32)
    requires
        forall|i: int| 0 <= i < ds.len() ==> ds[i] is Data,
    ensures
        ({
            let es = seq![Event::Spawned] + ds + seq![Event::Eof, Event::Reaped(code)];
            let end = run(init_model(), es);
            &&& trace_allowed(init_model(), es)
            &&& end.phase is Exited
            &&& !end.timed_out
            &&& end.exit_status == Some(code)
            &&& end.captured == drained(ds)
        }),
{
    reveal_with_fuel(run, 3);
    reveal_with_fuel(trace_allowed, 3);
    let m0 = init_model();
    let spawn = seq![Event::Spawned];
    let tail = seq![Event::Eof, Event::Reaped(code)];
    let m1 = run(m0, spawn);
    assert(m1 == next(m0, Event::Spawned)) by {
        assert(spawn.drop_first() =~= Seq::<Event>::empty());
    }
    lemma_drain_only(m1, ds);
    let m2 = run(m1, ds);
    let m3 = run(m2, tail);
    assert(m3 == next(next(m2, Event::Eof), Event::Reaped(code))) by {
        assert(tail.drop_first() =~= seq![Event::Reaped(code)]);
        assert(tail.drop_first().drop_first() =~= Seq::<Event>::empty());
    }
    assert(trace_allowed(m2, tail)) by {
        assert(tail.drop_first() =~= seq![Event::Reaped(code)]);
        assert(tail.drop_first().drop_first() =~= Seq::<Event>::empty());
    }
    lemma_trace_allowed_append(m1, ds, tail);
    lemma_trace_allowed_append(m0, spawn, ds + tail);
    assert(spawn + (ds + tail) =~= spawn + ds + tail);
    lemma_run_append(m1, ds, tail);
    lemma_run_append(m0, spawn, ds + tail);
    assert(run(m0, spawn + ds + tail) == m3);
    assert(m2.captured =~= drained(ds));
}

/// However much output the child writes, draining it never blocks the
/// deadline: after any amount of drained data the deadline still fires,
/// still kills, and every drained byte is kept.
pub proof fn lemma_drain_never_blocks_deadline(ds: Seq<Event>)
    requires
        forall|i: int| 0 <= i < ds.len() ==> ds[i] is Data,
    ensures
        ({
            let es = seq![Event::Spawned] + ds + seq![Event::DeadlineExpired];
            let end = run(init_model(), es);
            &&& trace_allowed(init_model(), es)
            &&& end.timed_out
            &&& end.kill_requested
            &&& end.phase is GraceDraining
            &&& end.captured == drained(ds)
        }),
{
    reveal_with_fuel(run, 2);
    reveal_with_fuel(trace_allowed, 2);
    let m0 = init_model();
    let spawn = seq![Event::Spawned];
    let tail = seq![Event::DeadlineExpired];
    let m1 = run(m0, spawn);
    assert(m1 == next(m0, Event::Spawned)) by {
        assert(spawn.drop_first() =~= Seq::<Event>::empty());
    }
    lemma_drain_only(m1, ds);
    let m2 = run(m1, ds);
    let m3 = run(m2, tail);
    assert(m3 == next(m2, Event::DeadlineExpired)) by {
        assert(tail.drop_first() =~= Seq::<Event>::empty());
    }
    assert(trace_allowed(m2, tail)) by {
        assert(tail.drop_first() =~= Seq::<Event>::empty());
    }
    lemma_trace_allowed_append(m1, ds, tail);
    lemma_trace_allowed_append(m0, spawn, ds + tail);
    assert(spawn + (ds + tail) =~= spawn + ds + tail);
    lemma_run_append(m1, ds, tail);
    lemma_run_append(m0, spawn, ds + tail);
    assert(run(m0, spawn + ds + tail) == m3);
    assert(m2.captured =~= drained(ds));
}

/// After a kill has been requested, no further kill is ever issued.
pub proof fn lemma_no_kill_after_request(m: Model, es: Seq<Event>)
    requires
        wf(m),
        trace_allowed(m, es),
        m.kill_requested,
    ensures
        kills_issued(m, es) == 0,
    decreases es.len(),
{
    if es.len() > 0 {
        lemma_next_preserves_wf(m, es[0]);
        lemma_no_kill_after_request(next(m, es[0]), es.drop_first());
    }
}

/// A kill is issued exactly when a run needs one, and never twice: the
/// caller is told to kill once if the deadline fires or a read fails
/// mid-drain, and never otherwise — never speculatively.
pub proof fn lemma_kill_issued_exactly_once(m: Model, es: Seq<Event>)
    requires
        wf(m),
        trace_allowed(m, es),
        !m.kill_requested,
    ensures
        kills_issued(m, es) == (if run(m, es).kill_requested {
            1nat
        } else {
            0nat
        }),
    decreases es.len(),
{
    if es.len() > 0 {
        let e = es[0];
        lemma_next_preserves_wf(m, e);
        if next(m, e).kill_requested {
            lemma_no_kill_after_request(next(m, e), es.drop_first());
            lemma_kill_request_stays(next(m, e), es.drop_first());
        } else {
            lemma_kill_issued_exactly_once(next(m, e), es.drop_first());
        }
    }
}

/// The tie-break: once the output stream has been fully drained without
/// the deadline having fired, the run is never reclassified as timed out,
/// however it goes on.
pub proof fn lemma_drained_never_reclassified(m: Model, es: Seq<Event>)
    requires
        wf(m),
        trace_allowed(m, es),
        m.phase is Reaping || is_terminal(m.phase),
        !m.timed_out,
    ensures
        !run(m, es).timed_out,
        !(run(m, es).phase is Killed),
    decreases es.len(),
{
    if es.len() > 0 {
        lemma_next_preserves_wf(m, es[0]);
        lemma_drained_never_reclassified(next(m, es[0]), es.drop_first());
    }
}

/// A refused spawn ends the run at once: nothing is captured, no timeout
/// is reported, and no kill or reap is ever asked of the caller.
pub proof fn lemma_spawn_refused_is_immediate()
    ensures
        ({
            let es = seq![Event::SpawnRefused];
            let end = run(init_model(), es);
            &&& trace_allowed(init_model(), es)
            &&& end.phase is SpawnFailed
            &&& end.captured == Seq::<u8>::empty()
            &&& !end.timed_out
            &&& kills_issued(init_model(), es) == 0
            &&& emit(init_model(), Event::SpawnRefused) is Stop
        }),
{
    reveal_with_fuel(run, 2);
    reveal_with_fuel(trace_allowed, 2);
    reveal_with_fuel(kills_issued, 2);
    let es = seq![Event::SpawnRefused];
    assert(es.drop_first() =~= Seq::<Event>::empty());
}

} // verus!

