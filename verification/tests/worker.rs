use awesome_clicker::clicker::{
    draw_jitter, jittered_interval, ClickButton, ClickMode, ClickType, ClickerConfig, SequenceItem,
};
use awesome_clicker::worker::{
    ClickerAction, ClickerEvent, ClickerRun, Phase, SleepPlan, SleepStep,
};

fn basic_config(interval_ms: u64, jitter_ms: u64, max_clicks: Option<u64>, click_type: ClickType) -> ClickerConfig {
    ClickerConfig {
        interval_ms,
        jitter_ms,
        button: ClickButton::Left,
        click_type,
        max_clicks,
        mode: ClickMode::Basic,
        sequence: Vec::new(),
        seq_loop: false,
        seq_repeat_count: 0,
    }
}

fn row(x: i32, y: i32, button: ClickButton, delay_ms: u64) -> SequenceItem {
    SequenceItem { x, y, button, delay_ms }
}

fn seq_config(rows: Vec<SequenceItem>, seq_loop: bool, repeat: u64, max_clicks: Option<u64>) -> ClickerConfig {
    ClickerConfig {
        interval_ms: 100,
        jitter_ms: 0,
        button: ClickButton::Right,
        click_type: ClickType::Single,
        max_clicks,
        mode: ClickMode::Sequence,
        sequence: rows,
        seq_loop,
        seq_repeat_count: repeat,
    }
}

/// Drives a run the way the worker thread does, with the stop flag never
/// set and every sleep completed, and returns the actions asked for.
fn drive(run: &mut ClickerRun, limit: usize) -> Vec<ClickerAction> {
    let mut actions = Vec::new();
    let mut event = ClickerEvent::Proceed;
    for _ in 0..limit {
        assert!(run.can_step(event));
        let action = run.step_with_jitter(event, 0);
        actions.push(action);
        event = match action {
            ClickerAction::CheckStop => ClickerEvent::StopFlag(false),
            ClickerAction::Sleep(_) => ClickerEvent::Slept { interrupted: false },
            ClickerAction::Finish { .. } => return actions,
            _ => ClickerEvent::Proceed,
        };
    }
    actions
}

fn presses(actions: &[ClickerAction]) -> Vec<ClickButton> {
    actions
        .iter()
        .filter_map(|a| match a {
            ClickerAction::Press(b) => Some(*b),
            _ => None,
        })
        .collect()
}

#[test]
fn jittered_interval_adds_offset_and_floors_at_one() {
    assert_eq!(jittered_interval(100, 0), 100);
    assert_eq!(jittered_interval(100, 7), 107);
    assert_eq!(jittered_interval(100, -7), 93);
    assert_eq!(jittered_interval(5, -10), 1);
    assert_eq!(jittered_interval(0, 0), 1);
    assert_eq!(jittered_interval(u64::MAX, 0), 1);
}

#[test]
fn draw_jitter_stays_in_range() {
    assert_eq!(draw_jitter(0), 0);
    let mut seen_nonzero = false;
    for _ in 0..2000 {
        let j = draw_jitter(3);
        assert!((-3..=3).contains(&j));
        if j != 0 {
            seen_nonzero = true;
        }
    }
    assert!(seen_nonzero);
}

#[test]
fn runnable_configurations() {
    assert!(basic_config(100, 500, None, ClickType::Single).is_runnable());
    assert!(!basic_config(100, u64::MAX, None, ClickType::Single).is_runnable());
    assert!(!basic_config(i64::MAX as u64, 1, None, ClickType::Single).is_runnable());
    assert!(basic_config(u64::MAX, 0, None, ClickType::Single).is_runnable());
    let mut c = basic_config(100, u64::MAX, None, ClickType::Single);
    c.mode = ClickMode::Sequence;
    assert!(c.is_runnable());
}

#[test]
fn basic_run_until_limit() {
    let mut run = ClickerRun::new(basic_config(250, 0, Some(3), ClickType::Single));
    let actions = drive(&mut run, 100);
    assert_eq!(
        actions,
        vec![
            ClickerAction::CheckStop,
            ClickerAction::Press(ClickButton::Left),
            ClickerAction::Publish(1),
            ClickerAction::Sleep(250),
            ClickerAction::CheckStop,
            ClickerAction::Press(ClickButton::Left),
            ClickerAction::Publish(2),
            ClickerAction::Sleep(250),
            ClickerAction::CheckStop,
            ClickerAction::Press(ClickButton::Left),
            ClickerAction::Publish(3),
            ClickerAction::Finish { raise_stop: true },
        ]
    );
    assert_eq!(run.clicks, 3);
    assert!(run.is_finished());
}

#[test]
fn limit_of_zero_still_clicks_once() {
    let mut run = ClickerRun::new(basic_config(10, 0, Some(0), ClickType::Single));
    let actions = drive(&mut run, 100);
    assert_eq!(presses(&actions).len(), 1);
    assert_eq!(actions.last(), Some(&ClickerAction::Finish { raise_stop: true }));
}

#[test]
fn double_click_presses_twice_with_gap() {
    let mut run = ClickerRun::new(basic_config(10, 0, Some(1), ClickType::Double));
    let actions = drive(&mut run, 100);
    assert_eq!(
        actions,
        vec![
            ClickerAction::CheckStop,
            ClickerAction::Press(ClickButton::Left),
            ClickerAction::Pause(40),
            ClickerAction::Press(ClickButton::Left),
            ClickerAction::Publish(1),
            ClickerAction::Finish { raise_stop: true },
        ]
    );
}

#[test]
fn stop_flag_ends_run_without_raising() {
    let mut run = ClickerRun::new(basic_config(10, 0, None, ClickType::Single));
    assert_eq!(run.step(ClickerEvent::Proceed), ClickerAction::CheckStop);
    assert_eq!(run.step(ClickerEvent::StopFlag(true)), ClickerAction::Finish { raise_stop: false });
    assert_eq!(run.phase, Phase::Finished);
    assert_eq!(run.clicks, 0);
}

#[test]
fn interrupted_pause_ends_run() {
    let mut run = ClickerRun::new(basic_config(10, 0, None, ClickType::Single));
    run.step(ClickerEvent::Proceed);
    run.step(ClickerEvent::StopFlag(false));
    run.step(ClickerEvent::Proceed);
    assert_eq!(run.step(ClickerEvent::Proceed), ClickerAction::Sleep(10));
    assert_eq!(
        run.step(ClickerEvent::Slept { interrupted: true }),
        ClickerAction::Finish { raise_stop: false }
    );
}

#[test]
fn basic_pause_with_jitter_stays_in_range() {
    for _ in 0..200 {
        let mut run = ClickerRun::new(basic_config(100, 20, None, ClickType::Single));
        run.step(ClickerEvent::Proceed);
        run.step(ClickerEvent::StopFlag(false));
        run.step(ClickerEvent::Proceed);
        match run.step(ClickerEvent::Proceed) {
            ClickerAction::Sleep(ms) => assert!((80..=120).contains(&ms)),
            other => panic!("unexpected {:?}", other),
        }
    }
}

#[test]
fn unlimited_basic_run_keeps_clicking() {
    let mut run = ClickerRun::new(basic_config(1, 0, None, ClickType::Single));
    let actions = drive(&mut run, 400);
    assert_eq!(presses(&actions).len(), 100);
    assert!(!run.is_finished());
}

#[test]
fn empty_sequence_ends_without_raising_stop() {
    let mut run = ClickerRun::new(seq_config(Vec::new(), true, 0, None));
    assert_eq!(run.step(ClickerEvent::Proceed), ClickerAction::Finish { raise_stop: false });
}

#[test]
fn sequence_once_visits_rows_in_order() {
    let rows = vec![
        row(10, 20, ClickButton::Left, 0),
        row(30, 40, ClickButton::Middle, 250),
        row(-5, 7, ClickButton::Right, 0),
    ];
    let mut run = ClickerRun::new(seq_config(rows, false, 0, None));
    let actions = drive(&mut run, 100);
    assert_eq!(
        actions,
        vec![
            ClickerAction::CheckStop,
            ClickerAction::MoveMouse { x: 10, y: 20 },
            ClickerAction::Press(ClickButton::Left),
            ClickerAction::Publish(1),
            ClickerAction::CheckStop,
            ClickerAction::Sleep(250),
            ClickerAction::MoveMouse { x: 30, y: 40 },
            ClickerAction::Press(ClickButton::Middle),
            ClickerAction::Publish(2),
            ClickerAction::CheckStop,
            ClickerAction::MoveMouse { x: -5, y: 7 },
            ClickerAction::Press(ClickButton::Right),
            ClickerAction::Publish(3),
            ClickerAction::Finish { raise_stop: true },
        ]
    );
}

#[test]
fn sequence_repeats_set_number_of_times() {
    let rows = vec![row(1, 1, ClickButton::Left, 0), row(2, 2, ClickButton::Right, 0)];
    let mut run = ClickerRun::new(seq_config(rows, true, 3, None));
    let actions = drive(&mut run, 1000);
    assert_eq!(
        presses(&actions),
        vec![
            ClickButton::Left,
            ClickButton::Right,
            ClickButton::Left,
            ClickButton::Right,
            ClickButton::Left,
            ClickButton::Right
        ]
    );
    assert_eq!(run.clicks, 6);
    assert_eq!(run.repeats, 3);
    assert_eq!(actions.last(), Some(&ClickerAction::Finish { raise_stop: true }));
}

#[test]
fn sequence_forever_never_ends_by_itself() {
    let rows = vec![row(1, 1, ClickButton::Left, 0)];
    let mut run = ClickerRun::new(seq_config(rows, true, 0, None));
    let actions = drive(&mut run, 1000);
    assert!(!run.is_finished());
    assert!(presses(&actions).len() > 100);
}

#[test]
fn sequence_respects_click_limit() {
    let rows = vec![row(1, 1, ClickButton::Left, 0), row(2, 2, ClickButton::Right, 0)];
    let mut run = ClickerRun::new(seq_config(rows, true, 0, Some(3)));
    let actions = drive(&mut run, 1000);
    assert_eq!(presses(&actions).len(), 3);
    assert_eq!(run.clicks, 3);
}

#[test]
fn sequence_delay_interrupted_ends_run() {
    let rows = vec![row(1, 1, ClickButton::Left, 500)];
    let mut run = ClickerRun::new(seq_config(rows, false, 0, None));
    run.step(ClickerEvent::Proceed);
    assert_eq!(run.step(ClickerEvent::StopFlag(false)), ClickerAction::Sleep(500));
    assert_eq!(
        run.step(ClickerEvent::Slept { interrupted: true }),
        ClickerAction::Finish { raise_stop: false }
    );
}

#[test]
fn can_step_rejects_unexpected_events() {
    let mut run = ClickerRun::new(basic_config(10, 0, None, ClickType::Single));
    assert!(run.can_step(ClickerEvent::Proceed));
    assert!(!run.can_step(ClickerEvent::StopFlag(false)));
    run.step(ClickerEvent::Proceed);
    assert!(run.can_step(ClickerEvent::StopFlag(true)));
    assert!(!run.can_step(ClickerEvent::Proceed));
    run.step(ClickerEvent::StopFlag(true));
    assert!(!run.can_step(ClickerEvent::Proceed));
}

#[test]
fn sleep_plan_takes_chunks_of_fifty() {
    let mut plan = SleepPlan::new(120);
    assert_eq!(plan.next(false), SleepStep::Sleep(50));
    assert_eq!(plan.next(false), SleepStep::Sleep(50));
    assert_eq!(plan.next(false), SleepStep::Sleep(20));
    assert_eq!(plan.next(false), SleepStep::Done);
    assert_eq!(plan.next(true), SleepStep::Done);
}

#[test]
fn sleep_plan_interrupts_and_zero_is_done() {
    let mut plan = SleepPlan::new(75);
    assert_eq!(plan.next(false), SleepStep::Sleep(50));
    assert_eq!(plan.next(true), SleepStep::Interrupted);
    assert_eq!(plan.remaining, 25);
    let mut zero = SleepPlan::new(0);
    assert_eq!(zero.next(true), SleepStep::Done);
}

#[test]
fn sleep_plan_total_equals_request() {
    for ms in [1u64, 49, 50, 51, 100, 101, 1234] {
        let mut plan = SleepPlan::new(ms);
        let mut total = 0;
        let mut steps = 0;
        while let SleepStep::Sleep(c) = plan.next(false) {
            assert!((1..=50).contains(&c));
            total += c;
            steps += 1;
        }
        assert_eq!(total, ms);
        assert_eq!(steps, (ms + 49) / 50);
    }
}

#[test]
fn stop_flag_at_start_ends_any_run_without_clicking() {
    let mut run = ClickerRun::new(basic_config(100, u64::MAX, None, ClickType::Single));
    assert_eq!(run.step(ClickerEvent::Proceed), ClickerAction::CheckStop);
    assert_eq!(run.step(ClickerEvent::StopFlag(true)), ClickerAction::Finish { raise_stop: false });
    assert_eq!(run.clicks, 0);
}

#[test]
fn limit_of_one_finishes_before_any_draw() {
    let mut run = ClickerRun::new(basic_config(100, u64::MAX, Some(1), ClickType::Single));
    let actions = drive(&mut run, 100);
    assert_eq!(presses(&actions).len(), 1);
    assert_eq!(actions.last(), Some(&ClickerAction::Finish { raise_stop: true }));
}

#[test]
fn can_step_refuses_a_draw_that_cannot_fit() {
    let mut run = ClickerRun::new(basic_config(100, u64::MAX, None, ClickType::Single));
    run.step(ClickerEvent::Proceed);
    run.step(ClickerEvent::StopFlag(false));
    run.step(ClickerEvent::Proceed);
    assert_eq!(run.phase, Phase::Counted);
    assert!(!run.can_step(ClickerEvent::Proceed));
}
