use zit::mentor::{time_of_day_text, AiMentorState, AiMode, MAX_HISTORY};

fn state() -> AiMentorState {
    AiMentorState {
        mode: AiMode::Result,
        selected: 2,
        input: "why".to_string(),
        result_text: "because".to_string(),
        result_scroll: 3,
        last_action: Some("ask".to_string()),
        history: Vec::new(),
        history_selected: 1,
        history_scroll: 4,
    }
}

#[test]
fn time_of_day_has_two_digits_each() {
    assert_eq!(time_of_day_text(0), "00:00");
    assert_eq!(time_of_day_text(59), "00:00");
    assert_eq!(time_of_day_text(60), "00:01");
    assert_eq!(time_of_day_text(3600 * 9 + 60 * 5 + 7), "09:05");
    assert_eq!(time_of_day_text(86399), "23:59");
    assert_eq!(time_of_day_text(86400), "00:00");
    assert_eq!(time_of_day_text(1_770_000_000), "02:40");
    assert_eq!(time_of_day_text(u64::MAX), "07:00");
}

#[test]
fn history_keeps_the_last_fifty() {
    assert_eq!(MAX_HISTORY, 50);
    let mut s = state();
    for i in 0..50u64 {
        s.add_history(format!("q{}", i), format!("r{}", i), i * 60);
    }
    assert_eq!(s.history.len(), 50);
    assert_eq!(s.history[0].query, "q0");
    assert_eq!(s.history[49].timestamp, "00:49");
    s.add_history("q50".to_string(), "r50".to_string(), 3600);
    assert_eq!(s.history.len(), 50);
    assert_eq!(s.history[0].query, "q1");
    assert_eq!(s.history[49].query, "q50");
    assert_eq!(s.history[49].response, "r50");
    assert_eq!(s.history[49].timestamp, "01:00");
    assert_eq!(s.mode, AiMode::Result);
    assert_eq!((s.selected, s.result_scroll, s.history_selected, s.history_scroll), (2, 3, 1, 4));
    assert_eq!(s.input, "why");
    assert_eq!(s.last_action, Some("ask".to_string()));
}
