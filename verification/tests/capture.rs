use errlink::err_msg;
use errlink::ErrorDisplay;
use errlink::ErrorExt;
use errlink::MSG_ERR_TAG;
use errlink::SYNC_ERR_TAG;

#[test]
fn first_wrap_captures_a_snapshot() {
    let b = err_msg("disk full".to_string()).with_backtrace();
    assert!(b.own_backtrace().is_some());
    assert!(b.backtrace().is_some());
    assert_eq!(b.display_text(), "disk full");
}

#[test]
fn second_wrap_defers_to_the_inner_snapshot() {
    let b = err_msg("disk full".to_string()).with_backtrace();
    let first_text = b.backtrace().unwrap().text().clone();
    let captured_by_first = b.own_backtrace().is_some();

    let b2 = b.with_backtrace();
    let captured_by_second = b2.own_backtrace().is_some();

    // The outer node stores no snapshot of its own, yet still hands one out:
    // the one the inner node captured. Exactly one capture happened in all.
    assert!(captured_by_first);
    assert!(!captured_by_second);
    assert_eq!(b2.backtrace().unwrap().text(), &first_text);
    let total = captured_by_first as u32 + captured_by_second as u32;
    assert_eq!(total, 1);
}

#[test]
fn downcast_passes_through_all_layers() {
    let b = err_msg("disk full".to_string())
        .context("saving file".to_string())
        .with_backtrace()
        .context("request failed".to_string())
        .with_backtrace();
    assert!(b.is_kind(MSG_ERR_TAG));
    assert!(!b.is_kind(SYNC_ERR_TAG));
    assert_eq!(b.downcast_leaf(MSG_ERR_TAG).unwrap(), "disk full");
    assert!(b.downcast_leaf(SYNC_ERR_TAG).is_none());
}

#[test]
fn end_to_end_wrapping() {
    // Leaf: a message error.
    let leaf = err_msg("disk full".to_string());
    assert_eq!(leaf.display_text(), "disk full");

    // Wrap with a context message.
    let ctx = leaf.context("saving file".to_string());
    assert_eq!(ctx.display_text(), "saving file");
    assert_eq!(ctx.source().unwrap().display_text(), "disk full");

    // Attach a backtrace: display unchanged, snapshot present and non-empty.
    let b = ctx.with_backtrace();
    assert_eq!(b.display_text(), "saving file");
    let snapshot_text = b.backtrace().unwrap().text().clone();
    assert!(!snapshot_text.is_empty());

    // Attach again: the outer node's own snapshot is absent, but the
    // accessor still returns the original snapshot.
    let b2 = b.with_backtrace();
    assert_eq!(b2.display_text(), "saving file");
    assert!(b2.own_backtrace().is_none());
    assert_eq!(b2.backtrace().unwrap().text(), &snapshot_text);
}

#[test]
fn capture_cause_is_the_wrapped_chain() {
    let b = err_msg("inner".to_string())
        .context("outer".to_string())
        .with_backtrace();
    let held = b.err();
    assert_eq!(held.display_text(), "outer");
    assert_eq!(held.cause().unwrap().display_text(), "inner");
}
