//! One busy-wait delay on the SysTick timer, as a state machine.
//!
//! The caller asks [`Delay::action`] what to do next, performs it on the timer
//! or the debug console, and hands what it observed to [`Delay::advance`].
//! A ghost trace records every performed action with its observation; the
//! laws at the end of this module are stated over that trace.
use vstd::prelude::*;
use crate::text::{done_line, done_text, waiting_line, waiting_text};
use crate::ticks::{fits_reload, reload_for, ticks_of};

verus! {

/// What the driver asks the caller to do next.
#[derive(Debug, PartialEq, Eq)]
pub enum Action {
    /// Write the value into the reload register.
    SetReload(u32),
    /// Clear the current-value register.
    ClearCurrent,
    /// Enable the counter.
    EnableCounter,
    /// Read the current-value register and report it as `Outcome::Current`.
    ReadCurrent,
    /// Write the text to the debug console.
    Write(String),
    /// Read the wrap flag and report it as `Outcome::Wrapped`.
    PollWrapped,
    /// Disable the counter.
    DisableCounter,
    /// The delay is over: return to the caller of the delay.
    Finished,
}

/// What the caller observed while performing the requested action.
#[derive(Clone, Copy, Debug, PartialEq, Eq)]
pub enum Outcome {
    /// The action was carried out and yields no value.
    Performed,
    /// The current-value register read this value.
    Current(u32),
    /// The wrap flag read this value.
    Wrapped(bool),
}

/// One performed action, with what was observed, as recorded in the trace.
pub enum Effect {
    Reload(nat),
    Clear,
    Enable,
    Read(nat),
    Emit(Seq<char>),
    Poll(bool),
    Disable,
}

/// Where a delay stands: the action it requests next.
pub enum Stage {
    Program,
    Clear,
    Enable,
    ReadBefore,
    Announce { current: u32 },
    Poll,
    ReadAfter,
    Report { current: u32 },
    Disable,
    Finished,
}

/// The effects that start a delay of `ms` milliseconds, up to and including
/// the announcement, when the counter read `before` after being enabled.
pub open spec fn opening(ms: nat, before: nat) -> Seq<Effect> {
    seq![
        Effect::Reload(ticks_of(ms)),
        Effect::Clear,
        Effect::Enable,
        Effect::Read(before),
        Effect::Emit(waiting_text(ms, before)),
    ]
}

/// `idle` polls that found the wrap flag clear.
pub open spec fn idle_polls(idle: nat) -> Seq<Effect> {
    Seq::new(idle, |i: int| Effect::Poll(false))
}

/// The effects that end a delay once the wrap flag is seen set, when the
/// counter then read `after`.
pub open spec fn closing(after: nat) -> Seq<Effect> {
    seq![
        Effect::Poll(true),
        Effect::Read(after),
        Effect::Emit(done_text(after)),
        Effect::Disable,
    ]
}

/// Everything a completed delay of `ms` milliseconds performed, in order.
pub open spec fn delay_trace(ms: nat, before: nat, idle: nat, after: nat) -> Seq<Effect> {
    opening(ms, before) + idle_polls(idle) + closing(after)
}

/// Whether the counter runs after the effects `t`: the last enable or disable
/// among them was an enable.
pub open spec fn counter_running(t: Seq<Effect>) -> bool
    decreases t.len(),
{
    if t.len() == 0 {
        false
    } else {
        match t.last() {
            Effect::Enable => true,
            Effect::Disable => false,
            _ => counter_running(t.drop_last()),
        }
    }
}

/// A delay in progress.
pub struct Delay {
    ms: u32,
    reload: u32,
    stage: Stage,
    trace: Ghost<Seq<Effect>>,
    before: Ghost<nat>,
    idle: Ghost<nat>,
    after: Ghost<nat>,
}

impl Delay {
    /// The requested duration in milliseconds.
    pub closed spec fn ms(self) -> nat {
        self.ms as nat
    }

    pub closed spec fn stage(self) -> Stage {
        self.stage
    }

    /// Every action performed so far, with what was observed.
    pub closed spec fn trace(self) -> Seq<Effect> {
        self.trace@
    }

    /// The counter value read right after enabling it.
    pub closed spec fn before(self) -> nat {
        self.before@
    }

    /// How many polls found the wrap flag clear.
    pub closed spec fn idle(self) -> nat {
        self.idle@
    }

    /// The counter value read once the wrap flag was seen set.
    pub closed spec fn after(self) -> nat {
        self.after@
    }

    pub closed spec fn reload(self) -> nat {
        self.reload as nat
    }

    /// The trace is the prefix of a delay's run that the stage calls for.
    pub open spec fn wf(self) -> bool {
        let (ms, b, k, a, t) = (self.ms(), self.before(), self.idle(), self.after(), self.trace());
        &&& fits_reload(ms)
        &&& self.reload() == ticks_of(ms)
        &&& match self.stage() {
            Stage::Program => t == Seq::<Effect>::empty(),
            Stage::Clear => t == opening(ms, b).take(1),
            Stage::Enable => t == opening(ms, b).take(2),
            Stage::ReadBefore => t == opening(ms, b).take(3),
            Stage::Announce { current } => current == b && t == opening(ms, b).take(4),
            Stage::Poll => t == opening(ms, b) + idle_polls(k),
            Stage::ReadAfter => t == opening(ms, b) + idle_polls(k) + closing(a).take(1),
            Stage::Report { current } => current == a && t == opening(ms, b) + idle_polls(k)
                + closing(a).take(2),
            Stage::Disable => t == opening(ms, b) + idle_polls(k) + closing(a).take(3),
            Stage::Finished => t == delay_trace(ms, b, k, a),
        }
    }

    pub open spec fn is_finished(self) -> bool {
        self.stage() is Finished
    }

    /// Whether `a` is the action the stage requests.
    pub open spec fn requests(self, a: Action) -> bool {
        match self.stage() {
            Stage::Program => a == Action::SetReload(self.reload() as u32),
            Stage::Clear => a == Action::ClearCurrent,
            Stage::Enable => a == Action::EnableCounter,
            Stage::ReadBefore => a == Action::ReadCurrent,
            Stage::Announce { current } => a matches Action::Write(s) && s@ == waiting_text(
                self.ms(),
                current as nat,
            ),
            Stage::Poll => a == Action::PollWrapped,
            Stage::ReadAfter => a == Action::ReadCurrent,
            Stage::Report { current } => a matches Action::Write(s) && s@ == done_text(
                current as nat,
            ),
            Stage::Disable => a == Action::DisableCounter,
            Stage::Finished => a == Action::Finished,
        }
    }

    /// Whether `o` is an observation of the kind the requested action yields.
    pub open spec fn accepts(self, o: Outcome) -> bool {
        match self.stage() {
            Stage::ReadBefore | Stage::ReadAfter => o is Current,
            Stage::Poll => o is Wrapped,
            Stage::Finished => false,
            _ => o is Performed,
        }
    }

    /// The trace entry that performing the requested action with outcome `o`
    /// adds.
    pub open spec fn effect_of(self, o: Outcome) -> Effect {
        match self.stage() {
            Stage::Program => Effect::Reload(self.reload()),
            Stage::Clear => Effect::Clear,
            Stage::Enable => Effect::Enable,
            Stage::Announce { current } => Effect::Emit(waiting_text(self.ms(), current as nat)),
            Stage::Poll => Effect::Poll(o->Wrapped_0),
            Stage::Report { current } => Effect::Emit(done_text(current as nat)),
            Stage::Disable => Effect::Disable,
            _ => Effect::Read(o->Current_0 as nat),
        }
    }

    /// The stage that follows the current one under outcome `o`.
    pub open spec fn next_stage(self, o: Outcome) -> Stage {
        match self.stage() {
            Stage::Program => Stage::Clear,
            Stage::Clear => Stage::Enable,
            Stage::Enable => Stage::ReadBefore,
            Stage::ReadBefore => Stage::Announce { current: o->Current_0 },
            Stage::Announce { .. } => Stage::Poll,
            Stage::Poll => if o->Wrapped_0 {
                Stage::ReadAfter
            } else {
                Stage::Poll
            },
            Stage::ReadAfter => Stage::Report { current: o->Current_0 },
            Stage::Report { .. } => Stage::Disable,
            _ => Stage::Finished,
        }
    }

    /// Starts a delay of `ms` milliseconds. `None` when `12000 * ms` ticks do
    /// not fit the 24-bit reload register.
    pub fn new(ms: u32) -> (r: Option<Delay>)
        ensures
            r is Some <==> fits_reload(ms as nat),
            r matches Some(d) ==> {
                &&& d.wf()
                &&& d.ms() == ms as nat
                &&& d.stage() is Program
                &&& d.trace() == Seq::<Effect>::empty()
            },
    {
        match reload_for(ms) {
            Some(reload) => Some(
                Delay {
                    ms,
                    reload,
                    stage: Stage::Program,
                    trace: Ghost(Seq::empty()),
                    before: Ghost(0),
                    idle: Ghost(0),
                    after: Ghost(0),
                },
            ),
            None => None,
        }
    }

    /// The action to perform next.
    pub fn action(&self) -> (a: Action)
        requires
            self.wf(),
        ensures
            self.requests(a),
    {
        match self.stage {
            Stage::Program => Action::SetReload(self.reload),
            Stage::Clear => Action::ClearCurrent,
            Stage::Enable => Action::EnableCounter,
            Stage::ReadBefore => Action::ReadCurrent,
            Stage::Announce { current } => Action::Write(waiting_line(self.ms, current)),
            Stage::Poll => Action::PollWrapped,
            Stage::ReadAfter => Action::ReadCurrent,
            Stage::Report { current } => Action::Write(done_line(current)),
            Stage::Disable => Action::DisableCounter,
            Stage::Finished => Action::Finished,
        }
    }

    /// Records that the requested action was performed with outcome `o`.
    pub fn advance(&mut self, o: Outcome)
        requires
            old(self).wf(),
            old(self).accepts(o),
        ensures
            final(self).wf(),
            final(self).ms() == old(self).ms(),
            final(self).stage() == old(self).next_stage(o),
            final(self).trace() == old(self).trace().push(old(self).effect_of(o)),
    {
        let ghost t0 = self.trace@;
        let ghost (ms, b, k, a) = (self.ms as nat, self.before@, self.idle@, self.after@);
        proof {
            self.trace@ = t0.push(self.effect_of(o));
        }
        match self.stage {
            Stage::Program => {
                self.stage = Stage::Clear;
                assert(self.trace@ =~= opening(ms, b).take(1));
            },
            Stage::Clear => {
                self.stage = Stage::Enable;
                assert(self.trace@ =~= opening(ms, b).take(2));
            },
            Stage::Enable => {
                self.stage = Stage::ReadBefore;
                assert(self.trace@ =~= opening(ms, b).take(3));
            },
            Stage::ReadBefore => {
                let current = match o {
                    Outcome::Current(v) => v,
                    _ => 0,
                };
                self.stage = Stage::Announce { current };
                proof {
                    self.before@ = current as nat;
                }
                assert(self.trace@ =~= opening(ms, current as nat).take(4));
            },
            Stage::Announce { .. } => {
                self.stage = Stage::Poll;
                proof {
                    self.idle@ = 0;
                }
                assert(self.trace@ =~= opening(ms, b) + idle_polls(0));
            },
            Stage::Poll => {
                let wrapped = match o {
                    Outcome::Wrapped(w) => w,
                    _ => false,
                };
                if wrapped {
                    self.stage = Stage::ReadAfter;
                    assert(self.trace@ =~= opening(ms, b) + idle_polls(k) + closing(a).take(1));
                } else {
                    proof {
                        self.idle@ = k + 1;
                    }
                    assert(self.trace@ =~= opening(ms, b) + idle_polls(k + 1));
                }
            },
            Stage::ReadAfter => {
                let current = match o {
                    Outcome::Current(v) => v,
                    _ => 0,
                };
                self.stage = Stage::Report { current };
                proof {
                    self.after@ = current as nat;
                }
                assert(self.trace@ =~= opening(ms, b) + idle_polls(k) + closing(
                    current as nat,
                ).take(2));
            },
            Stage::Report { .. } => {
                self.stage = Stage::Disable;
                assert(self.trace@ =~= opening(ms, b) + idle_polls(k) + closing(a).take(3));
            },
            Stage::Disable => {
                self.stage = Stage::Finished;
                assert(self.trace@ =~= delay_trace(ms, b, k, a));
            },
            Stage::Finished => {},
        }
    }
}

/// The counter runs from the moment it is enabled until the wrap flag is
/// seen set: every poll of a delay happens while it runs.
pub proof fn lemma_running_while_polling(ms: nat, before: nat, idle: nat)
    ensures
        counter_running(opening(ms, before) + idle_polls(idle)),
    decreases idle,
{
    let t = opening(ms, before) + idle_polls(idle);
    if idle == 0 {
        assert(t =~= opening(ms, before));
        assert(t.drop_last().drop_last() =~= opening(ms, before).take(3));
        assert(counter_running(t.drop_last().drop_last()));
        assert(counter_running(t.drop_last()));
    } else {
        assert(t.drop_last() =~= opening(ms, before) + idle_polls((idle - 1) as nat));
        lemma_running_while_polling(ms, before, (idle - 1) as nat);
    }
}

/// Every poll of a delay finds the counter running.
pub proof fn law_polls_while_running(d: Delay)
    requires
        d.wf(),
        d.stage() is Poll,
    ensures
        counter_running(d.trace()),
{
    lemma_running_while_polling(d.ms(), d.before(), d.idle());
}

/// A completed delay performed, in order: reload, clear, enable, a read, the
/// announcement, the polls that found the wrap flag clear, the poll that
/// found it set, a read, the report, and disable.
pub proof fn law_completed_run(d: Delay)
    requires
        d.wf(),
        d.is_finished(),
    ensures
        d.trace() == delay_trace(d.ms(), d.before(), d.idle(), d.after()),
{
}

/// Whatever a delay has done so far began with writing exactly `12000 * ms`
/// ticks into the reload register.
pub proof fn law_reload_is_ticks(d: Delay)
    requires
        d.wf(),
        d.trace().len() > 0,
    ensures
        d.trace()[0] == Effect::Reload(ticks_of(d.ms())),
{
    let (ms, b, k, a) = (d.ms(), d.before(), d.idle(), d.after());
    assert((opening(ms, b) + idle_polls(k))[0] == opening(ms, b)[0]);
    assert((opening(ms, b) + idle_polls(k) + closing(a).take(1))[0] == opening(ms, b)[0]);
    assert((opening(ms, b) + idle_polls(k) + closing(a).take(2))[0] == opening(ms, b)[0]);
    assert((opening(ms, b) + idle_polls(k) + closing(a).take(3))[0] == opening(ms, b)[0]);
    assert(delay_trace(ms, b, k, a)[0] == opening(ms, b)[0]);
}

/// A completed delay returned only after a poll found the wrap flag set: that
/// poll is its last, and every poll before it found the flag clear.
pub proof fn law_returns_after_wrap(d: Delay)
    requires
        d.wf(),
        d.is_finished(),
    ensures
        d.trace()[5 + d.idle() as int] == Effect::Poll(true),
        forall|i: int|
            0 <= i < d.trace().len() && #[trigger] d.trace()[i] is Poll && i != 5 + d.idle() as int
                ==> i < 5 + d.idle() && d.trace()[i] == Effect::Poll(false),
{
    let t = d.trace();
    assert(t.len() == 9 + d.idle());
    assert forall|i: int| 0 <= i < t.len() && #[trigger] t[i] is Poll && i != 5 + d.idle() as int implies i
        < 5 + d.idle() && t[i] == Effect::Poll(false) by {
        if i >= 5 + d.idle() {
            assert(t[i] == closing(d.after())[i - 5 - d.idle()]);
        }
    }
}

/// A completed delay leaves the counter disabled, whatever its duration.
pub proof fn law_counter_disabled(d: Delay)
    requires
        d.wf(),
        d.is_finished(),
    ensures
        !counter_running(d.trace()),
{
    assert(d.trace().last() == Effect::Disable);
}

/// The announcement is written before the first poll, and the report after
/// the poll that found the wrap flag set.
pub proof fn law_diagnostics_frame_wait(d: Delay)
    requires
        d.wf(),
        d.is_finished(),
    ensures
        d.trace()[4] == Effect::Emit(waiting_text(d.ms(), d.before())),
        d.trace()[5 + d.idle() as int] == Effect::Poll(true),
        d.trace()[7 + d.idle() as int] == Effect::Emit(done_text(d.after())),
        forall|i: int|
            0 <= i < d.trace().len() && (#[trigger] d.trace()[i]) is Poll ==> 4 < i <= 5
                + d.idle(),
{
    let t = d.trace();
    assert(t.len() == 9 + d.idle());
    assert(t[7 + d.idle() as int] == closing(d.after())[2]);
    assert forall|i: int| 0 <= i < t.len() && (#[trigger] t[i]) is Poll implies 4 < i <= 5
        + d.idle() by {
        if i < 5 {
            assert(t[i] == opening(d.ms(), d.before())[i]);
        } else if i > 5 + d.idle() {
            assert(t[i] == closing(d.after())[i - 5 - d.idle()]);
        }
    }
}

} // verus!
