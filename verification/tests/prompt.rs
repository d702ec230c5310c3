//! Scenario tests for the interactive prompt state machine.

use tureng::multiplexer::{Event, KeyInput, PromptState, StepOutcome};

fn key(st: &mut PromptState, k: KeyInput, now: u64) -> StepOutcome {
    st.step(Event::Key { key: k, now })
}

fn issued_token(out: StepOutcome) -> u64 {
    match out {
        StepOutcome::Continue(d) => d.issue.expect("a request should have been issued").token,
        StepOutcome::Finished(_) => panic!("the loop should have continued"),
    }
}

#[test]
fn scenario_navigate_and_confirm() {
    let mut st = PromptState::new(9, 200);
    key(&mut st, KeyInput::Char('c'), 0);
    key(&mut st, KeyInput::Char('a'), 10);
    assert_eq!(st.debounce.deadline, Some(210));
    let token = issued_token(st.step(Event::DebounceFired { now: 210 }));
    let cands = vec!["cat".to_string(), "car".to_string(), "cab".to_string()];
    let out = st.step(Event::Response { token, result: Some(cands) });
    match out {
        StepOutcome::Continue(d) => assert!(d.render_popup),
        StepOutcome::Finished(_) => panic!("the loop should have continued"),
    }
    assert_eq!(st.selection.index, 0);
    key(&mut st, KeyInput::Down, 220);
    assert_eq!(st.selection.index, 1);
    key(&mut st, KeyInput::Down, 230);
    assert_eq!(st.selection.index, 2);
    key(&mut st, KeyInput::Up, 240);
    assert_eq!(st.selection.index, 1);
    match key(&mut st, KeyInput::Enter, 250) {
        StepOutcome::Finished(Some(w)) => assert_eq!(w, "car"),
        _ => panic!("Enter should confirm the highlighted candidate"),
    }
}

#[test]
fn scenario_empty_buffer_never_requests() {
    let mut st = PromptState::new(9, 200);
    // A space changes the fingerprint and arms the timer, but the trimmed
    // buffer stays empty.
    key(&mut st, KeyInput::Char(' '), 0);
    assert_eq!(st.debounce.deadline, Some(200));
    match st.step(Event::DebounceFired { now: 200 }) {
        StepOutcome::Continue(d) => assert!(d.issue.is_none()),
        StepOutcome::Finished(_) => panic!("the loop should have continued"),
    }
    assert_eq!(st.debounce.deadline, None);
    assert_eq!(st.debounce.live, None);
}

#[test]
fn scenario_abort_with_request_outstanding() {
    let mut st = PromptState::new(9, 200);
    key(&mut st, KeyInput::Char('c'), 0);
    key(&mut st, KeyInput::Char('a'), 10);
    let _token = issued_token(st.step(Event::DebounceFired { now: 210 }));
    // The response never arrives; the interrupt must end the loop at once.
    match key(&mut st, KeyInput::CtrlC, 220) {
        StepOutcome::Finished(None) => {}
        _ => panic!("an interrupt should abort with no selection"),
    }
}

#[test]
fn scenario_failed_call_keeps_candidates() {
    let mut st = PromptState::new(9, 200);
    key(&mut st, KeyInput::Char('c'), 0);
    let t1 = issued_token(st.step(Event::DebounceFired { now: 200 }));
    st.step(Event::Response { token: t1, result: Some(vec!["cat".to_string()]) });
    assert_eq!(st.candidates, vec!["cat".to_string()]);
    key(&mut st, KeyInput::Char('a'), 300);
    let t2 = issued_token(st.step(Event::DebounceFired { now: 500 }));
    // The second call fails: the previous candidates stay visible.
    match st.step(Event::Response { token: t2, result: None }) {
        StepOutcome::Continue(d) => assert!(!d.render_popup),
        StepOutcome::Finished(_) => panic!("the loop should have continued"),
    }
    assert_eq!(st.candidates, vec!["cat".to_string()]);
    assert_eq!(st.debounce.live, None);
}

#[test]
fn scenario_stale_response_discarded() {
    let mut st = PromptState::new(9, 200);
    key(&mut st, KeyInput::Char('c'), 0);
    key(&mut st, KeyInput::Char('a'), 10);
    let a = issued_token(st.step(Event::DebounceFired { now: 210 }));
    // A further edit supersedes request `a` before its response arrives.
    match key(&mut st, KeyInput::Char('r'), 300) {
        StepOutcome::Continue(d) => assert!(d.cancel),
        StepOutcome::Finished(_) => panic!("the loop should have continued"),
    }
    assert_eq!(st.debounce.live, None);
    let b = issued_token(st.step(Event::DebounceFired { now: 500 }));
    assert_ne!(a, b);
    // The late response of `a` must not alter the candidate list.
    st.step(Event::Response { token: a, result: Some(vec!["stale".to_string()]) });
    assert!(st.candidates.is_empty());
    st.step(Event::Response { token: b, result: Some(vec!["cart".to_string()]) });
    assert_eq!(st.candidates, vec!["cart".to_string()]);
}

#[test]
fn scenario_debounce_rearms_on_each_edit() {
    let mut st = PromptState::new(9, 200);
    key(&mut st, KeyInput::Char('a'), 0);
    assert_eq!(st.debounce.deadline, Some(200));
    key(&mut st, KeyInput::Char('b'), 50);
    assert_eq!(st.debounce.deadline, Some(250));
    key(&mut st, KeyInput::Char('c'), 100);
    // Three edits within the window: nothing may fire before 300.
    assert_eq!(st.debounce.deadline, Some(300));
}

#[test]
fn scenario_single_edit_fires_once() {
    let mut st = PromptState::new(9, 200);
    key(&mut st, KeyInput::Char('a'), 0);
    assert_eq!(st.debounce.deadline, Some(200));
    let out = st.step(Event::DebounceFired { now: 200 });
    match out {
        StepOutcome::Continue(d) => {
            let req = d.issue.expect("one request fires at t + 200");
            assert_eq!(req.query, "a");
        }
        StepOutcome::Finished(_) => panic!("the loop should have continued"),
    }
    // Disarmed afterwards: no second request without a further edit.
    assert_eq!(st.debounce.deadline, None);
}

#[test]
fn cursor_moves_do_not_rearm_the_timer() {
    let mut st = PromptState::new(9, 200);
    key(&mut st, KeyInput::Char('a'), 0);
    let _ = issued_token(st.step(Event::DebounceFired { now: 200 }));
    key(&mut st, KeyInput::Left, 300);
    key(&mut st, KeyInput::Right, 310);
    assert_eq!(st.debounce.deadline, None);
    // The outstanding request was not invalidated by cursor motion.
    assert!(st.debounce.live.is_some());
}

#[test]
fn cursor_stays_in_range_under_edits() {
    let mut st = PromptState::new(9, 200);
    let keys = [
        KeyInput::Char('\u{fc}'),
        KeyInput::Char('\u{11f}'),
        KeyInput::Left,
        KeyInput::Char('x'),
        KeyInput::Backspace,
        KeyInput::Backspace,
        KeyInput::Left,
        KeyInput::Backspace,
        KeyInput::Right,
        KeyInput::Char('q'),
    ];
    let mut now: u64 = 0;
    for k in keys {
        key(&mut st, k, now);
        assert!(st.cursor <= st.buffer.len());
        now += 10;
    }
    assert_eq!(st.buffer.render(), "\u{11f}q");
}

#[test]
fn loading_tick_only_animates() {
    let mut st = PromptState::new(9, 200);
    key(&mut st, KeyInput::Char('a'), 0);
    let _ = issued_token(st.step(Event::DebounceFired { now: 200 }));
    assert_eq!(st.loading_frame, 0);
    match st.step(Event::LoadingTick) {
        StepOutcome::Continue(d) => {
            assert!(d.render_spinner);
            assert!(!d.render_prompt && !d.render_popup && d.issue.is_none() && !d.cancel);
        }
        StepOutcome::Finished(_) => panic!("the loop should have continued"),
    }
    assert_eq!(st.loading_frame, 1);
    for _ in 0..13 {
        st.step(Event::LoadingTick);
    }
    assert_eq!(st.loading_frame, 0);
}

#[test]
fn enter_with_no_candidates_returns_none() {
    let mut st = PromptState::new(9, 200);
    key(&mut st, KeyInput::Char('c'), 0);
    match key(&mut st, KeyInput::Enter, 10) {
        StepOutcome::Finished(None) => {}
        _ => panic!("no candidate list: Enter confirms nothing"),
    }
}

#[test]
fn selection_clamped_on_replacement() {
    let mut st = PromptState::new(3, 200);
    key(&mut st, KeyInput::Char('c'), 0);
    let t1 = issued_token(st.step(Event::DebounceFired { now: 200 }));
    let five = vec![
        "c1".to_string(),
        "c2".to_string(),
        "c3".to_string(),
        "c4".to_string(),
        "c5".to_string(),
    ];
    st.step(Event::Response { token: t1, result: Some(five) });
    // Capacity 3: the index may reach row 2 and no further.
    key(&mut st, KeyInput::Down, 210);
    key(&mut st, KeyInput::Down, 220);
    key(&mut st, KeyInput::Down, 230);
    assert_eq!(st.selection.index, 2);
    // A shorter list arrives: the index is now invalid and resets to 0.
    key(&mut st, KeyInput::Char('a'), 240);
    let t2 = issued_token(st.step(Event::DebounceFired { now: 440 }));
    st.step(Event::Response { token: t2, result: Some(vec!["only".to_string()]) });
    assert_eq!(st.selection.index, 0);
    // A replacement that keeps the index valid leaves it alone.
    key(&mut st, KeyInput::Down, 450);
    assert_eq!(st.selection.index, 0);
    key(&mut st, KeyInput::Char('b'), 460);
    let t3 = issued_token(st.step(Event::DebounceFired { now: 660 }));
    st.step(Event::Response {
        token: t3,
        result: Some(vec!["x".to_string(), "y".to_string()]),
    });
    assert_eq!(st.selection.index, 0);
}
