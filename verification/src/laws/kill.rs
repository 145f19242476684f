//! Laws of ending a process.

use vstd::prelude::*;

#[allow(unused_imports)]
use crate::kill::{self, KillAnswer, KillStep};

verus! {

/// The steps come in order: the process is asked to terminate, whatever comes of
/// that; it is looked at, and paused after each look that finds it; after the
/// thirtieth pause it is killed; and a look that does not find it, or the kill,
/// is the last step.
pub proof fn lemma_steps_in_order(code: i32, round: u32)
    ensures
        kill::kill_next(KillStep::Terminate, KillAnswer::Sent(code)) == (KillStep::Probe { round: 0 }),
        kill::kill_next(KillStep::Probe { round }, KillAnswer::Sent(0)) == (KillStep::Pause { round }),
        code != 0 ==> kill::kill_next(KillStep::Probe { round }, KillAnswer::Sent(code))
            == KillStep::Done,
        round < 29 ==> kill::kill_next(KillStep::Pause { round }, KillAnswer::Paused) == (
        KillStep::Probe { round: (round + 1) as u32 }),
        round >= 29 ==> kill::kill_next(KillStep::Pause { round }, KillAnswer::Paused) == KillStep::Kill,
        kill::kill_next(KillStep::Kill, KillAnswer::Sent(code)) == KillStep::Done,
{
}

/// An answer that is not the one awaited changes nothing.
pub proof fn lemma_kill_ignores_other_answers(step: KillStep, answer: KillAnswer)
    requires
        step is Pause ==> !(answer is Paused),
        (step is Terminate || step is Probe || step is Kill) ==> !(answer is Sent),
    ensures
        kill::kill_next(step, answer) == step,
{
}

/// The number that signals take fits in 32 signed bits and differs from the
/// process id by a multiple of the range of 32 bits, so it is made of the same
/// bits; a process id that fits stays as it is.
pub proof fn lemma_signed_pid(pid: u32)
    ensures
        i32::MIN <= kill::signed_pid(pid) <= i32::MAX,
        kill::signed_pid(pid) == pid || kill::signed_pid(pid) == pid - 0x1_0000_0000,
        pid <= i32::MAX ==> kill::signed_pid(pid) == pid,
{
}

} // verus!
