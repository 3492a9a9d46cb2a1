use errlink::err_msg;
use errlink::Context;
use errlink::ErrorDisplay;
use errlink::ErrorExt;
use errlink::Failure;
use errlink::MSG_ERR_TAG;

#[test]
fn err_msg_displays_payload() {
    let e = err_msg("disk full".to_string());
    assert_eq!(e.display_text(), "disk full");
}

#[test]
fn context_displays_message_only() {
    let e = err_msg("disk full".to_string());
    let c = e.context("saving file".to_string());
    assert_eq!(c.display_text(), "saving file");
    assert_eq!(c.source().unwrap().display_text(), "disk full");
}

#[test]
fn context_new_pairs_message_and_error() {
    let c = Context::new("outer".to_string(), err_msg("inner".to_string()));
    assert_eq!(c.display_text(), "outer");
    assert_eq!(c.source().unwrap().display_text(), "inner");
}

#[test]
fn nested_contexts_keep_one_leaf() {
    let e = err_msg("root cause".to_string());
    let wrapped = e
        .context("first".to_string())
        .context("second".to_string())
        .context("third".to_string());
    assert_eq!(wrapped.display_text(), "third");

    let erased = wrapped.erase();
    assert_eq!(erased.display_text(), "third");

    // Chain length via repeated cause lookup: three wraps around one leaf.
    let mut len = 1;
    let mut cur = &erased;
    while let Some(next) = cur.cause() {
        len += 1;
        cur = next;
    }
    assert_eq!(len, 4);
    assert!(cur.cause().is_none());
    assert_eq!(cur.display_text(), "root cause");
    assert_eq!(erased.downcast_leaf(MSG_ERR_TAG).unwrap(), "root cause");
}

#[test]
fn zero_wraps_chain_is_one_leaf() {
    let erased = err_msg("alone".to_string()).erase();
    assert!(erased.cause().is_none());
    assert_eq!(erased.display_text(), "alone");
    assert!(erased.is_kind(MSG_ERR_TAG));
}

#[test]
fn custom_leaf_kinds_are_told_apart() {
    let parse_kind = 42;
    let erased = errlink::ErasedError::leaf(parse_kind, "bad digit".to_string());
    let wrapped = errlink::ErasedError::with_message("parsing input".to_string(), erased);
    assert_eq!(wrapped.display_text(), "parsing input");
    assert_eq!(wrapped.downcast_leaf(parse_kind).unwrap(), "bad digit");
    assert!(wrapped.downcast_leaf(MSG_ERR_TAG).is_none());
    assert!(!wrapped.is_kind(MSG_ERR_TAG));
}

#[test]
fn erased_values_wrap_like_typed_ones() {
    let erased = err_msg("inner".to_string()).erase();
    let b = erased.with_backtrace();
    assert_eq!(b.display_text(), "inner");
    assert!(b.own_backtrace().is_some());
}

#[test]
fn erased_context_layer_has_cause() {
    let erased = err_msg("inner".to_string())
        .context("outer".to_string())
        .erase();
    assert_eq!(erased.display_text(), "outer");
    let cause = erased.cause().unwrap();
    assert_eq!(cause.display_text(), "inner");
}
