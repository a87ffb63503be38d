use ebrz::service::playground::{
    execute_url, gist_url, perma_link, PlaygroundError, PlaygroundExecuteResult, CHANNEL,
    EDITION, MODE,
};

#[test]
fn the_service_is_asked_at_its_addresses() {
    assert_eq!(execute_url("https://play.rust-lang.org"), "https://play.rust-lang.org/execute");
    assert_eq!(gist_url("https://play.rust-lang.org"), "https://play.rust-lang.org/meta/gist");
    assert_eq!(execute_url(""), "/execute");
}

#[test]
fn programs_run_on_stable_in_debug_mode() {
    assert_eq!(CHANNEL, "stable");
    assert_eq!(MODE, "debug");
    assert_eq!(EDITION, "2021");
}

#[test]
fn a_permalink_names_channel_mode_edition_and_gist() {
    assert_eq!(
        perma_link(CHANNEL, MODE, EDITION, "abc123"),
        "https://play.rust-lang.org/?version=stable&mode=debug&edition=2021&gist=abc123"
    );
    assert_eq!(
        perma_link("nightly", "release", "2018", ""),
        "https://play.rust-lang.org/?version=nightly&mode=release&edition=2018&gist="
    );
}

#[test]
fn a_result_is_made_of_the_answer_of_the_service() {
    let result = PlaygroundExecuteResult::from_response(
        true,
        "exit 0".to_string(),
        "Hello, world!\n".to_string(),
        "Compiling".to_string(),
    );
    assert!(result.result_success);
    assert_eq!(result.result_code, "");
    assert_eq!(result.result_exit_detail, "exit 0");
    assert_eq!(result.result_stdout, "Hello, world!\n");
    assert_eq!(result.result_stderr, "Compiling");
}

#[test]
fn failures_of_the_service_have_messages() {
    assert_eq!(PlaygroundError::Request.to_string(), "request error");
    assert_eq!(PlaygroundError::Timeout.to_string(), "timeout");
}
