//! The firmware's top level: claim the core peripherals once, clock SysTick
//! from the core clock, then wait 1000 ms and 100 ms in turn, forever.
use vstd::prelude::*;
use crate::ticks::fits_reload;

verus! {

/// The long wait of each round, in milliseconds.
pub const LONG_WAIT_MS: u32 = 1000;

/// The short wait of each round, in milliseconds.
pub const SHORT_WAIT_MS: u32 = 100;

/// What the firmware asks the caller to do next.
#[derive(Clone, Copy, Debug, PartialEq, Eq)]
pub enum Command {
    /// Claim the core peripherals, which can be had once per process.
    ClaimPeripherals,
    /// Clock SysTick from the core clock.
    UseCoreClock,
    /// Run a delay of this many milliseconds.
    Wait(u32),
    /// Stop for good: the peripherals could not be claimed.
    Halt,
}

/// One reported step of the firmware, as recorded in its history.
pub enum Step {
    /// The claim of the peripherals succeeded or failed.
    Claim(bool),
    /// SysTick was switched to the core clock.
    CoreClock,
    /// A delay of this many milliseconds completed.
    Waited(nat),
}

/// Where the firmware stands: the command it gives next.
pub enum Phase {
    Unclaimed,
    Claimed,
    Running,
    Halted,
}

/// The duration of the delay numbered `n`, counting from zero.
pub open spec fn wait_ms(n: nat) -> nat {
    if n % 2 == 0 {
        LONG_WAIT_MS as nat
    } else {
        SHORT_WAIT_MS as nat
    }
}

/// The history of a firmware that claimed the peripherals, selected the
/// core clock and completed `n` delays.
pub open spec fn running_history(n: nat) -> Seq<Step> {
    seq![Step::Claim(true), Step::CoreClock] + Seq::new(n, |i: int| Step::Waited(wait_ms(i as nat)))
}

/// The firmware's control state.
pub struct Firmware {
    phase: Phase,
    long_next: bool,
    completed: Ghost<nat>,
    history: Ghost<Seq<Step>>,
}

impl Firmware {
    pub closed spec fn phase(self) -> Phase {
        self.phase
    }

    /// How many delays have completed.
    pub closed spec fn completed(self) -> nat {
        self.completed@
    }

    /// Every step reported so far.
    pub closed spec fn history(self) -> Seq<Step> {
        self.history@
    }

    pub closed spec fn long_next(self) -> bool {
        self.long_next
    }

    pub open spec fn wf(self) -> bool {
        &&& match self.phase() {
            Phase::Unclaimed => self.history() == Seq::<Step>::empty(),
            Phase::Claimed => self.history() == seq![Step::Claim(true)],
            Phase::Running => self.history() == running_history(self.completed()),
            Phase::Halted => self.history() == seq![Step::Claim(false)],
        }
        &&& self.long_next() == (self.completed() % 2 == 0)
    }

    /// The command the phase calls for.
    pub open spec fn spec_command(self) -> Command {
        match self.phase() {
            Phase::Unclaimed => Command::ClaimPeripherals,
            Phase::Claimed => Command::UseCoreClock,
            Phase::Running => Command::Wait(wait_ms(self.completed()) as u32),
            Phase::Halted => Command::Halt,
        }
    }

    /// A firmware that has not claimed anything yet.
    pub fn new() -> (r: Firmware)
        ensures
            r.wf(),
            r.phase() is Unclaimed,
            r.history() == Seq::<Step>::empty(),
    {
        Firmware {
            phase: Phase::Unclaimed,
            long_next: true,
            completed: Ghost(0),
            history: Ghost(Seq::empty()),
        }
    }

    /// The command to carry out next. A requested wait always fits the
    /// reload register.
    pub fn command(&self) -> (r: Command)
        requires
            self.wf(),
        ensures
            r == self.spec_command(),
            r matches Command::Wait(ms) ==> fits_reload(ms as nat),
    {
        match self.phase {
            Phase::Unclaimed => Command::ClaimPeripherals,
            Phase::Claimed => Command::UseCoreClock,
            Phase::Running => {
                if self.long_next {
                    Command::Wait(LONG_WAIT_MS)
                } else {
                    Command::Wait(SHORT_WAIT_MS)
                }
            },
            Phase::Halted => Command::Halt,
        }
    }

    /// Records the result of claiming the peripherals: on failure the
    /// firmware halts for good.
    pub fn claimed(&mut self, ok: bool)
        requires
            old(self).wf(),
            old(self).phase() is Unclaimed,
        ensures
            final(self).wf(),
            final(self).phase() == (if ok {
                Phase::Claimed
            } else {
                Phase::Halted
            }),
            final(self).history() == old(self).history().push(Step::Claim(ok)),
    {
        proof {
            self.history@ = self.history@.push(Step::Claim(ok));
        }
        if ok {
            self.phase = Phase::Claimed;
        } else {
            self.phase = Phase::Halted;
        }
    }

    /// Records that SysTick now runs from the core clock.
    pub fn clock_selected(&mut self)
        requires
            old(self).wf(),
            old(self).phase() is Claimed,
        ensures
            final(self).wf(),
            final(self).phase() is Running,
            final(self).completed() == 0,
            final(self).history() == old(self).history().push(Step::CoreClock),
    {
        proof {
            self.history@ = self.history@.push(Step::CoreClock);
            self.completed@ = 0;
            assert(self.history@ =~= running_history(0));
        }
        self.phase = Phase::Running;
        self.long_next = true;
    }

    /// Records that the requested delay completed.
    pub fn waited(&mut self)
        requires
            old(self).wf(),
            old(self).phase() is Running,
        ensures
            final(self).wf(),
            final(self).phase() is Running,
            final(self).completed() == old(self).completed() + 1,
            final(self).history() == old(self).history().push(
                Step::Waited(wait_ms(old(self).completed())),
            ),
    {
        let ghost n = self.completed@;
        proof {
            self.history@ = self.history@.push(Step::Waited(wait_ms(n)));
            self.completed@ = n + 1;
            assert(self.history@ =~= running_history(n + 1));
        }
        self.long_next = !self.long_next;
    }
}

/// The delays alternate long and short: the delay numbered `i` in the history
/// lasted 1000 ms when `i` is even and 100 ms when it is odd, and after an
/// even number of completed delays the next one requested is 1000 ms.
pub proof fn law_alternation(f: Firmware)
    requires
        f.wf(),
        f.phase() is Running,
    ensures
        f.completed() % 2 == 0 ==> f.spec_command() == Command::Wait(LONG_WAIT_MS),
        f.completed() % 2 == 1 ==> f.spec_command() == Command::Wait(SHORT_WAIT_MS),
        forall|i: int|
            2 <= i < f.history().len() ==> #[trigger] f.history()[i] == Step::Waited(
                if (i - 2) % 2 == 0 {
                    LONG_WAIT_MS as nat
                } else {
                    SHORT_WAIT_MS as nat
                },
            ),
{
}

/// The peripherals are claimed at most once: a claim is only ever asked for
/// before anything has happened, only the first step of the history is a
/// claim, and a firmware whose claim failed does nothing but halt.
pub proof fn law_single_claim(f: Firmware)
    requires
        f.wf(),
    ensures
        f.spec_command() is ClaimPeripherals ==> f.history().len() == 0,
        forall|i: int| 0 <= i < f.history().len() && (#[trigger] f.history()[i]) is Claim ==> i == 0,
        f.history().len() > 0 && f.history()[0] == Step::Claim(false) ==> {
            &&& f.spec_command() is Halt
            &&& f.history().len() == 1
        },
{
    let h = f.history();
    assert forall|i: int| 0 <= i < h.len() && (#[trigger] h[i]) is Claim implies i == 0 by {
        if f.phase() is Running && i >= 1 {
            assert(h[i] == running_history(f.completed())[i]);
        }
    }
}

} // verus!
