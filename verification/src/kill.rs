//! Ending a backend process by its id.
//!
//! On Unix the process is asked to terminate, given about three seconds to do
//! so, and killed if it is still there. On Windows one command ends the whole
//! process tree.

use vstd::prelude::*;

verus! {

/// How often a terminating process is looked at.
pub const KILL_PROBES: u32 = 30;

/// How long to pause after each look, in milliseconds.
pub const KILL_PROBE_PAUSE_MILLIS: u64 = 100;

/// What is to be done next to end a process.
#[derive(Clone, Copy, Debug, PartialEq, Eq, Structural)]
pub enum KillStep {
    /// Send the signal that asks it to terminate.
    Terminate,
    /// Send the null signal, to see whether it is still there; `round` looks
    /// were made before.
    Probe { round: u32 },
    /// Pause before the next look.
    Pause { round: u32 },
    /// Send the signal that kills it.
    Kill,
    /// Nothing.
    Done,
}

/// What came of the last step.
#[derive(Clone, Copy, Debug, PartialEq, Eq, Structural)]
pub enum KillAnswer {
    /// A signal was sent; its return code.
    Sent(i32),
    /// A pause is over.
    Paused,
}

/// The end of one process: the process that signals go to, and what is to be
/// done next.
#[derive(Clone, Copy, Debug, PartialEq, Eq, Structural)]
pub struct GracefulKill {
    pub target: i32,
    pub step: KillStep,
}

/// The number that signals take for a process id: the same 32 bits, signed.
pub open spec fn signed_pid(pid: u32) -> int {
    if pid <= i32::MAX {
        pid as int
    } else {
        pid - 0x1_0000_0000
    }
}

/// What follows an answer. A process that a look does not find is gone; any
/// other answer than the one awaited changes nothing.
pub open spec fn kill_next(step: KillStep, answer: KillAnswer) -> KillStep {
    match (step, answer) {
        (KillStep::Terminate, KillAnswer::Sent(_)) => KillStep::Probe { round: 0 },
        (KillStep::Probe { round }, KillAnswer::Sent(code)) => if code != 0 {
            KillStep::Done
        } else {
            KillStep::Pause { round }
        },
        (KillStep::Pause { round }, KillAnswer::Paused) => if round + 1 < KILL_PROBES {
            KillStep::Probe { round: (round + 1) as u32 }
        } else {
            KillStep::Kill
        },
        (KillStep::Kill, KillAnswer::Sent(_)) => KillStep::Done,
        _ => step,
    }
}

/// Begins to end the process `pid`.
pub fn graceful_kill(pid: u32) -> (res: GracefulKill)
    ensures
        res.target == signed_pid(pid),
        res.step == KillStep::Terminate,
{
    let target: i32 = if pid <= 0x7fff_ffff {
        pid as i32
    } else {
        let below: u32 = 0xffff_ffff - pid;
        -(below as i32) - 1
    };
    GracefulKill { target, step: KillStep::Terminate }
}

impl GracefulKill {
    /// Takes what came of the last step.
    pub fn answer(self, answer: KillAnswer) -> (res: GracefulKill)
        ensures
            res.target == self.target,
            res.step == kill_next(self.step, answer),
    {
        let step = match (self.step, answer) {
            (KillStep::Terminate, KillAnswer::Sent(_)) => KillStep::Probe { round: 0 },
            (KillStep::Probe { round }, KillAnswer::Sent(code)) => if code != 0 {
                KillStep::Done
            } else {
                KillStep::Pause { round }
            },
            (KillStep::Pause { round }, KillAnswer::Paused) => if round < KILL_PROBES - 1 {
                KillStep::Probe { round: round + 1 }
            } else {
                KillStep::Kill
            },
            (KillStep::Kill, KillAnswer::Sent(_)) => KillStep::Done,
            (step, _) => step,
        };
        GracefulKill { target: self.target, step }
    }
}

/// The arguments of the Windows command that ends the tree of the process
/// `pid` by force.
pub fn taskkill_args(pid: u32) -> (res: Vec<String>)
    ensures
        crate::text::texts(res@) == seq![
            "/PID"@,
            crate::text::decimal(pid as nat),
            "/T"@,
            "/F"@,
        ],
{
    let mut res: Vec<String> = Vec::new();
    res.push("/PID".to_owned());
    res.push(crate::text::decimal_text(pid));
    res.push("/T".to_owned());
    res.push("/F".to_owned());
    assert(crate::text::texts(res@) =~= seq![
        "/PID"@,
        crate::text::decimal(pid as nat),
        "/T"@,
        "/F"@,
    ]);
    res
}

/// The step after the given number of looks, all of which found the process,
/// and the pauses behind them.
pub open spec fn after_looks(looks: nat) -> KillStep
    decreases looks,
{
    if looks == 0 {
        kill_next(KillStep::Terminate, KillAnswer::Sent(0))
    } else {
        kill_next(
            kill_next(after_looks((looks - 1) as nat), KillAnswer::Sent(0)),
            KillAnswer::Paused,
        )
    }
}

/// A process that stays is looked at thirty times, is not killed before that,
/// and is killed right after it.
pub proof fn lemma_patience(looks: nat)
    ensures
        looks < KILL_PROBES ==> after_looks(looks) == (KillStep::Probe { round: looks as u32 }),
        looks == KILL_PROBES ==> after_looks(looks) == KillStep::Kill,
    decreases looks,
{
    if looks > 0 {
        lemma_patience((looks - 1) as nat);
    }
}

/// A look that does not find the process ends the matter, without a kill.
pub proof fn lemma_gone_is_done(round: u32, code: i32)
    requires
        code != 0,
    ensures
        kill_next(KillStep::Probe { round }, KillAnswer::Sent(code)) == KillStep::Done,
{
}

/// The pauses of a process that stays add up to three seconds.
pub proof fn lemma_three_seconds()
    ensures
        KILL_PROBES * KILL_PROBE_PAUSE_MILLIS == 3000,
{
}

/// How many steps are left at most.
pub open spec fn steps_left(step: KillStep) -> int {
    match step {
        KillStep::Terminate => 2 * KILL_PROBES + 2,
        KillStep::Probe { round } => if round < KILL_PROBES {
            2 * (KILL_PROBES - round) + 1
        } else {
            3
        },
        KillStep::Pause { round } => if round < KILL_PROBES {
            2 * (KILL_PROBES - round)
        } else {
            2
        },
        KillStep::Kill => 1,
        KillStep::Done => 0,
    }
}

/// Ending a process takes finitely many steps: every answer that is awaited
/// brings the end nearer.
pub proof fn lemma_every_answer_leads_on(step: KillStep, answer: KillAnswer)
    requires
        step != KillStep::Done,
        step is Pause <==> answer is Paused,
    ensures
        0 <= steps_left(kill_next(step, answer)) < steps_left(step),
{
}

} // verus!
