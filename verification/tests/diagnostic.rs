use fault_signal::{Action, DiagnosticLoop, Pattern, PAUSE_MS};

fn take(running: &mut DiagnosticLoop, steps: usize) -> Vec<Option<Action>> {
    let mut actions = Vec::new();
    for _ in 0..steps {
        actions.push(running.step());
    }
    actions
}

fn blink_turn(count: u32) -> Vec<Option<Action>> {
    let mut turn = Vec::new();
    for led in 0..count {
        turn.push(Some(Action::On(led)));
    }
    turn.push(Some(Action::Sleep(100)));
    for led in 0..count {
        turn.push(Some(Action::Off(led)));
    }
    turn.push(Some(Action::Sleep(100)));
    turn
}

fn cycle_pass(count: u32) -> Vec<Option<Action>> {
    let mut pass = Vec::new();
    for led in 0..count {
        pass.push(Some(Action::On(led)));
        pass.push(Some(Action::Sleep(100)));
        pass.push(Some(Action::Off(led)));
        pass.push(Some(Action::Sleep(100)));
    }
    pass
}

#[test]
fn the_pause_is_a_hundred_milliseconds() {
    assert_eq!(PAUSE_MS, 100);
}

#[test]
fn blink_first_cycle_over_three_leds() {
    let mut running = DiagnosticLoop::new(Pattern::SimultaneousBlink, 3);
    assert_eq!(
        take(&mut running, 8),
        vec![
            Some(Action::On(0)),
            Some(Action::On(1)),
            Some(Action::On(2)),
            Some(Action::Sleep(100)),
            Some(Action::Off(0)),
            Some(Action::Off(1)),
            Some(Action::Off(2)),
            Some(Action::Sleep(100)),
        ]
    );
}

#[test]
fn blink_repeats_identically_over_three_cycles() {
    for count in [0u32, 1, 2, 3, 7] {
        let mut running = DiagnosticLoop::new(Pattern::SimultaneousBlink, count);
        let turn = blink_turn(count);
        assert_eq!(turn.len() as u64, 2 * count as u64 + 2);
        for _ in 0..3 {
            assert_eq!(take(&mut running, turn.len()), turn);
        }
    }
}

#[test]
fn blink_cycle_counts_its_actions() {
    let count = 5u32;
    let mut running = DiagnosticLoop::new(Pattern::SimultaneousBlink, count);
    let turn = take(&mut running, 12);
    let ons = turn.iter().filter(|a| matches!(a, Some(Action::On(_)))).count();
    let offs = turn.iter().filter(|a| matches!(a, Some(Action::Off(_)))).count();
    let sleeps = turn.iter().filter(|a| matches!(a, Some(Action::Sleep(100)))).count();
    assert_eq!(ons, 5);
    assert_eq!(offs, 5);
    assert_eq!(sleeps, 2);
    assert_eq!(turn[5], Some(Action::Sleep(100)));
    assert_eq!(turn[11], Some(Action::Sleep(100)));
}

#[test]
fn blink_over_no_leds_only_pauses() {
    let mut running = DiagnosticLoop::new(Pattern::SimultaneousBlink, 0);
    assert_eq!(running.period(), 2);
    assert_eq!(take(&mut running, 5), vec![Some(Action::Sleep(100)); 5]);
}

#[test]
fn blink_over_one_led() {
    let mut running = DiagnosticLoop::new(Pattern::SimultaneousBlink, 1);
    assert_eq!(
        take(&mut running, 5),
        vec![
            Some(Action::On(0)),
            Some(Action::Sleep(100)),
            Some(Action::Off(0)),
            Some(Action::Sleep(100)),
            Some(Action::On(0)),
        ]
    );
}

#[test]
fn cycle_first_pass_over_three_leds() {
    let mut running = DiagnosticLoop::new(Pattern::SequentialCycle, 3);
    assert_eq!(
        take(&mut running, 13),
        vec![
            Some(Action::On(0)),
            Some(Action::Sleep(100)),
            Some(Action::Off(0)),
            Some(Action::Sleep(100)),
            Some(Action::On(1)),
            Some(Action::Sleep(100)),
            Some(Action::Off(1)),
            Some(Action::Sleep(100)),
            Some(Action::On(2)),
            Some(Action::Sleep(100)),
            Some(Action::Off(2)),
            Some(Action::Sleep(100)),
            Some(Action::On(0)),
        ]
    );
}

#[test]
fn cycle_wraps_after_the_last_led() {
    for count in [1u32, 2, 3, 6] {
        let mut running = DiagnosticLoop::new(Pattern::SequentialCycle, count);
        let pass = cycle_pass(count);
        assert_eq!(pass.len() as u64, 4 * count as u64);
        for _ in 0..3 {
            assert_eq!(take(&mut running, pass.len()), pass);
        }
    }
}

#[test]
fn cycle_over_no_leds_has_nothing_due() {
    let mut running = DiagnosticLoop::new(Pattern::SequentialCycle, 0);
    assert_eq!(running.period(), 0);
    assert_eq!(running.due(), None);
    assert_eq!(take(&mut running, 4), vec![None; 4]);
}

#[test]
fn due_does_not_move_on() {
    let running = DiagnosticLoop::new(Pattern::SimultaneousBlink, 2);
    assert_eq!(running.due(), Some(Action::On(0)));
    assert_eq!(running.due(), Some(Action::On(0)));
}

#[test]
fn advance_moves_on_by_one() {
    let mut running = DiagnosticLoop::new(Pattern::SimultaneousBlink, 2);
    running.advance();
    assert_eq!(running.due(), Some(Action::On(1)));
    running.advance();
    assert_eq!(running.due(), Some(Action::Sleep(100)));
    running.advance();
    assert_eq!(running.due(), Some(Action::Off(0)));
}

#[test]
fn step_is_due_then_advance() {
    let mut stepped = DiagnosticLoop::new(Pattern::SequentialCycle, 2);
    let mut walked = DiagnosticLoop::new(Pattern::SequentialCycle, 2);
    for _ in 0..20 {
        let due = walked.due();
        walked.advance();
        assert_eq!(stepped.step(), due);
    }
}

#[test]
fn loop_keeps_pattern_and_count() {
    let mut running = DiagnosticLoop::new(Pattern::SequentialCycle, 9);
    assert_eq!(running.pattern(), Pattern::SequentialCycle);
    assert_eq!(running.count(), 9);
    assert_eq!(running.period(), 36);
    let _ = take(&mut running, 50);
    assert_eq!(running.pattern(), Pattern::SequentialCycle);
    assert_eq!(running.count(), 9);
    let blink = DiagnosticLoop::new(Pattern::SimultaneousBlink, 9);
    assert_eq!(blink.pattern(), Pattern::SimultaneousBlink);
    assert_eq!(blink.period(), 20);
}

#[test]
fn the_largest_board_does_not_overflow() {
    let mut blink = DiagnosticLoop::new(Pattern::SimultaneousBlink, u32::MAX);
    assert_eq!(blink.period(), 2 * (u32::MAX as u64) + 2);
    assert_eq!(blink.step(), Some(Action::On(0)));
    assert_eq!(blink.step(), Some(Action::On(1)));
    let mut cycle = DiagnosticLoop::new(Pattern::SequentialCycle, u32::MAX);
    assert_eq!(cycle.period(), 4 * (u32::MAX as u64));
    assert_eq!(cycle.step(), Some(Action::On(0)));
    assert_eq!(cycle.step(), Some(Action::Sleep(100)));
}

#[test]
fn a_copy_of_a_loop_goes_its_own_way() {
    let mut first = DiagnosticLoop::new(Pattern::SimultaneousBlink, 2);
    first.advance();
    let mut second = first;
    assert_eq!(first.step(), Some(Action::On(1)));
    assert_eq!(second.step(), Some(Action::On(1)));
    assert_eq!(first.step(), Some(Action::Sleep(100)));
}
