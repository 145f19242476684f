use dsh_desktop::kill::{
    graceful_kill, taskkill_args, KillAnswer, KillStep, KILL_PROBES, KILL_PROBE_PAUSE_MILLIS,
};

/// Ends a process that is found by the given number of looks; counts the looks
/// and the pauses, and tells whether it was killed.
fn end(found: u32) -> (u32, u32, bool) {
    let mut looks = 0;
    let mut pauses = 0;
    let mut killed = false;
    let mut kill = graceful_kill(1234);
    loop {
        let answer = match kill.step {
            KillStep::Terminate => KillAnswer::Sent(0),
            KillStep::Probe { .. } => {
                looks += 1;
                KillAnswer::Sent(if looks <= found { 0 } else { -1 })
            }
            KillStep::Pause { .. } => {
                pauses += 1;
                KillAnswer::Paused
            }
            KillStep::Kill => {
                killed = true;
                KillAnswer::Sent(0)
            }
            KillStep::Done => return (looks, pauses, killed),
        };
        kill = kill.answer(answer);
        assert_eq!(kill.target, 1234);
    }
}

#[test]
fn a_process_that_goes_is_not_killed() {
    assert_eq!(end(0), (1, 0, false));
    assert_eq!(end(5), (6, 5, false));
    assert_eq!(end(29), (30, 29, false));
}

#[test]
fn a_process_that_stays_is_killed_after_three_seconds() {
    assert_eq!(end(30), (30, 30, true));
    assert_eq!(end(1000), (30, 30, true));
    assert_eq!(KILL_PROBES as u64 * KILL_PROBE_PAUSE_MILLIS, 3000);
}

#[test]
fn signals_take_the_process_id_as_it_is() {
    assert_eq!(graceful_kill(1).target, 1);
    assert_eq!(graceful_kill(2147483647).target, i32::MAX);
    assert_eq!(graceful_kill(2147483648).target, i32::MIN);
    assert_eq!(graceful_kill(4294967295).target, -1);
    for pid in [0, 77, 0x7fff_fffe, 0x8000_0001, 0xffff_fffe] {
        assert_eq!(graceful_kill(pid).target, pid as i32);
    }
}

#[test]
fn one_command_ends_a_tree() {
    assert_eq!(taskkill_args(4711), ["/PID", "4711", "/T", "/F"]);
}

#[test]
fn an_answer_that_is_not_awaited_changes_nothing() {
    let kill = graceful_kill(1);
    assert_eq!(kill.answer(KillAnswer::Paused), kill);
}
