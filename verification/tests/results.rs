use errlink::err_msg;
use errlink::ErrorDisplay;
use errlink::ErrorExt;
use errlink::MsgErr;
use errlink::ResultExt;
use errlink::Failure;
use errlink::SyncError;

#[test]
fn result_context_passes_success_through() {
    let r: Result<u32, MsgErr<String>> = Ok(7);
    let r = r.context("reading config".to_string());
    assert_eq!(r.unwrap(), 7);
}

#[test]
fn result_context_wraps_failure() {
    let r: Result<u32, MsgErr<String>> = Err(err_msg("disk full".to_string()));
    let c = r.context("saving file".to_string()).unwrap_err();
    assert_eq!(c.display_text(), "saving file");
    assert_eq!(c.source().unwrap().display_text(), "disk full");
}

#[test]
fn result_with_context_is_lazy_on_success() {
    let r: Result<u32, MsgErr<String>> = Ok(3);
    let r = r.with_context(|| -> String { panic!("message built on the success path") });
    assert_eq!(r.unwrap(), 3);
}

#[test]
fn result_with_context_builds_message_on_failure() {
    let r: Result<u32, MsgErr<String>> = Err(err_msg("disk full".to_string()));
    let c = r.with_context(|| "saving file".to_string()).unwrap_err();
    assert_eq!(c.display_text(), "saving file");
    assert_eq!(c.source().unwrap().display_text(), "disk full");
}

#[test]
fn result_sync_err_wraps_failure() {
    let r: Result<u32, MsgErr<String>> = Err(err_msg("disk full".to_string()));
    let s = r.sync_err().unwrap_err();
    assert_eq!(s.display_text(), "disk full");
}

#[test]
fn result_with_backtrace_wraps_failure() {
    let r: Result<u32, MsgErr<String>> = Err(err_msg("disk full".to_string()));
    let b = r.with_backtrace().unwrap_err();
    assert_eq!(b.display_text(), "disk full");
    assert!(b.backtrace().is_some());

    let ok: Result<u32, MsgErr<String>> = Ok(9);
    assert_eq!(ok.with_backtrace().unwrap(), 9);
}

#[test]
fn sync_error_displays_through_the_guard() {
    let s = err_msg("disk full".to_string()).sync_err();
    assert_eq!(s.display_text(), "disk full");
    assert_eq!(s.display_text(), "disk full");
}

#[test]
fn sync_error_built_through_from() {
    let s = SyncError::from(err_msg("broken pipe".to_string()));
    assert_eq!(s.display_text(), "broken pipe");
}

#[test]
fn sync_error_wraps_a_wrapped_chain() {
    let s = err_msg("inner".to_string())
        .context("outer".to_string())
        .sync_err();
    assert_eq!(s.display_text(), "outer");
}

#[test]
fn sync_error_ends_the_chain() {
    let s = err_msg("inner".to_string())
        .context("outer".to_string())
        .sync_err();
    let erased = s.erase();
    assert_eq!(erased.display_text(), "outer");
    assert!(erased.cause().is_none());
    assert!(erased.is_kind(errlink::SYNC_ERR_TAG));
}
