use tomato_novel_downloader::prewarm_state::{
    format_iid_register_failure, is_prewarm_in_progress, mark_prewarm_done, mark_prewarm_failed,
    mark_prewarm_start, prewarm_error, PrewarmState, IID_BLOCK_HINT,
};

#[test]
fn fresh_state_is_idle() {
    let s = PrewarmState::new();
    assert!(!is_prewarm_in_progress(&s));
    assert_eq!(prewarm_error(&s), None);
}

#[test]
fn start_then_done() {
    let mut s = PrewarmState::new();
    mark_prewarm_start(&mut s);
    assert!(is_prewarm_in_progress(&s));
    assert_eq!(prewarm_error(&s), None);
    mark_prewarm_done(&mut s);
    assert!(!is_prewarm_in_progress(&s));
    assert_eq!(prewarm_error(&s), None);
}

#[test]
fn failure_message_with_hint() {
    let mut s = PrewarmState::new();
    mark_prewarm_start(&mut s);
    mark_prewarm_failed(&mut s, "  timeout \n");
    assert!(!is_prewarm_in_progress(&s));
    let expected = format!("Ошибка регистрации IID: timeout\n\n{}", IID_BLOCK_HINT);
    assert_eq!(prewarm_error(&s), Some(expected.clone()));
    // A finished prewarm keeps the failure readable.
    mark_prewarm_done(&mut s);
    assert_eq!(prewarm_error(&s), Some(expected));
}

#[test]
fn failure_message_without_hint_when_self_explaining() {
    let msg = format_iid_register_failure("blocked: log.snssdk.com (AdGuard)");
    assert_eq!(msg, "Ошибка регистрации IID: blocked: log.snssdk.com (AdGuard)");
    let only_domain = format_iid_register_failure("log.snssdk.com");
    assert!(only_domain.ends_with(IID_BLOCK_HINT));
}

#[test]
fn start_forgets_old_failure() {
    let mut s = PrewarmState::new();
    mark_prewarm_failed(&mut s, "x");
    assert!(prewarm_error(&s).is_some());
    mark_prewarm_start(&mut s);
    assert_eq!(prewarm_error(&s), None);
    assert!(is_prewarm_in_progress(&s));
}

#[test]
fn formatting_a_failure_twice_adds_the_hint_once() {
    let first = format_iid_register_failure("timeout");
    assert!(first.ends_with(IID_BLOCK_HINT));
    let second = format_iid_register_failure(&first);
    assert_eq!(second, format!("Ошибка регистрации IID: {}", first));
    assert_eq!(second.matches(IID_BLOCK_HINT).count(), 1);
}
