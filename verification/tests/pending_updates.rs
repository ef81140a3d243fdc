//! Updates that wait for an edit session, by document context.

use qingjian_keys::shared::{ClientRequest, ClientState, Shared};

/// The tokens of two document contexts.
const CTX_A: usize = 0xAAA;
const CTX_B: usize = 0xBBB;

fn shared() -> Shared {
    Shared::new()
}

#[test]
fn merge_appends_consecutive_commits() {
    let mut s = shared();
    assert!(s.enqueue_update(CTX_A, Some("gpt-".to_owned()), String::new()));
    assert!(!s.enqueue_update(CTX_A, Some("6".to_owned()), String::new()));
    assert_eq!(
        s.take_pending_update(CTX_A),
        Some((Some("gpt-6".to_owned()), String::new()))
    );
}

#[test]
fn merge_replaces_pending_preedit_with_new_commit() {
    let mut s = shared();
    assert!(s.enqueue_update(CTX_A, None, "g'p't".to_owned()));
    assert!(!s.enqueue_update(CTX_A, Some("gpt-".to_owned()), String::new()));
    assert_eq!(
        s.take_pending_update(CTX_A),
        Some((Some("gpt-".to_owned()), String::new()))
    );
}

#[test]
fn merge_combines_pending_commit_with_new_preedit() {
    let mut s = shared();
    assert!(s.enqueue_update(CTX_A, Some("gpt-".to_owned()), String::new()));
    assert!(!s.enqueue_update(CTX_A, None, "q".to_owned()));
    assert_eq!(
        s.take_pending_update(CTX_A),
        Some((Some("gpt-".to_owned()), "q".to_owned()))
    );
}

#[test]
fn fresh_queue_requests_new_session_after_take() {
    let mut s = shared();
    assert!(s.enqueue_update(CTX_A, None, "a".to_owned()));
    assert_eq!(s.take_pending_update(CTX_A), Some((None, "a".to_owned())));
    assert!(
        s.enqueue_update(CTX_A, Some("b".to_owned()), String::new()),
        "队列清空后应重新发起会话"
    );
    assert_eq!(
        s.take_pending_update(CTX_A),
        Some((Some("b".to_owned()), String::new()))
    );
}

#[test]
fn contexts_queue_independently_and_take_their_own() {
    let mut s = shared();
    assert!(s.enqueue_update(CTX_A, None, "g'p't".to_owned()));
    assert!(s.enqueue_update(CTX_B, Some("b".to_owned()), String::new()));
    assert_eq!(
        s.take_pending_update(CTX_B),
        Some((Some("b".to_owned()), String::new()))
    );
    assert_eq!(
        s.take_pending_update(CTX_A),
        Some((None, "g'p't".to_owned()))
    );
    assert_eq!(s.take_pending_update(CTX_A), None, "取走后队列为空");
}

#[test]
fn same_context_merges_other_context_is_untouched() {
    let mut s = shared();
    assert!(s.enqueue_update(CTX_A, None, "a".to_owned()));
    assert!(s.enqueue_update(CTX_B, None, "x".to_owned()));
    assert!(!s.enqueue_update(CTX_A, Some("1".to_owned()), String::new()));
    assert!(s.has_pending_update());
    assert_eq!(
        s.take_pending_update(CTX_A),
        Some((Some("1".to_owned()), String::new()))
    );
    assert_eq!(s.take_pending_update(CTX_B), Some((None, "x".to_owned())));
    assert!(!s.has_pending_update());
}

#[test]
fn clear_only_drops_the_failed_context() {
    let mut s = shared();
    assert!(s.enqueue_update(CTX_A, None, "a".to_owned()));
    assert!(s.enqueue_update(CTX_B, None, "x".to_owned()));
    s.clear_pending_update(CTX_A);
    assert!(s.has_pending_update(), "B 的槽应还在");
    assert_eq!(s.take_pending_update(CTX_B), Some((None, "x".to_owned())));
    assert!(!s.has_pending_update());
}

#[test]
fn three_updates_merge_in_order() {
    let mut s = shared();
    s.enqueue_update(CTX_A, Some("a".to_owned()), "1".to_owned());
    s.enqueue_update(CTX_A, None, "2".to_owned());
    s.enqueue_update(CTX_A, Some("b".to_owned()), "3".to_owned());
    assert_eq!(
        s.take_pending_update(CTX_A),
        Some((Some("ab".to_owned()), "3".to_owned()))
    );
}

#[test]
fn leaving_a_composition_forgets_the_reported_field() {
    let mut s = shared();
    s.set_composing(true);
    s.set_context_reported(true);
    assert!(s.context_reported());
    s.set_composing(true);
    assert!(s.context_reported());
    s.set_composing(false);
    assert!(!s.composing());
    assert!(!s.context_reported());
}

#[test]
fn ended_composing_forgets_the_reported_field() {
    let mut s = shared();
    s.set_composing(true);
    s.set_translating(true);
    s.set_context_reported(true);
    assert_eq!(
        s.end_composing(ClientState::Connected),
        Some(ClientRequest::HideCandidates)
    );
    assert!(!s.composing());
    assert!(!s.translating());
    assert!(!s.context_reported());
}

#[test]
fn reset_and_termination_forget_the_reported_field() {
    let mut s = shared();
    s.set_composing(true);
    s.set_context_reported(true);
    s.reset(ClientState::Connected);
    assert!(!s.context_reported());
    s.set_composing(true);
    s.set_context_reported(true);
    s.terminated(ClientState::Connected);
    assert!(!s.context_reported());
}

#[test]
fn dropping_twice_is_dropping_once() {
    let mut s = shared();
    s.enqueue_update(CTX_A, Some("a".to_owned()), String::new());
    s.enqueue_update(CTX_B, Some("b".to_owned()), String::new());
    s.clear_pending_update(CTX_A);
    s.clear_pending_update(CTX_A);
    assert_eq!(s.take_pending_update(CTX_A), None);
    assert!(s.enqueue_update(CTX_A, None, "c".to_owned()));
    assert!(!s.enqueue_update(CTX_B, None, "d".to_owned()));
}

#[test]
fn candidates_are_hidden_only_over_a_usable_connection() {
    let s = shared();
    assert_eq!(s.hide_candidates(ClientState::Busy), None);
    assert_eq!(s.hide_candidates(ClientState::Disconnected), None);
    assert_eq!(
        s.hide_candidates(ClientState::Connected),
        Some(ClientRequest::HideCandidates)
    );
}

#[test]
fn reset_forgets_everything_but_the_focus() {
    let mut s = shared();
    s.set_foreground(true);
    s.set_composing(true);
    s.enqueue_update(CTX_A, Some("a".to_owned()), String::new());
    assert_eq!(s.reset(ClientState::Disconnected), None);
    assert!(s.foreground());
    assert!(!s.composing());
    assert!(!s.has_pending_update());
    assert!(!s.has_composition());
    assert!(s.composition().is_none());
    assert!(s.take_composition().is_none());
    assert!(s.last_context().is_none());
    assert!(!s.take_server_stale());
}

#[test]
fn a_terminated_composition_leaves_the_server_stale_once() {
    let mut s = shared();
    s.enqueue_update(CTX_B, None, "x".to_owned());
    assert_eq!(
        s.terminated(ClientState::Connected),
        Some(ClientRequest::HideCandidates)
    );
    assert!(!s.has_pending_update());
    assert!(s.take_server_stale());
    assert!(!s.take_server_stale());
}
