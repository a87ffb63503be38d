use ebrz::controller::{
    EvalPageData, EvalPageState, EvalResultResponse, GetEvalLinkResponse,
    RequestDeleteEvalResponse, ShowEvalOutputResponse,
};
use ebrz::handler::answer::{
    delete_answer, internal_error_answer, link_answer, state_answer, unknown_command_answer,
    CallbackAnswer,
};
use ebrz::handler::callback_query::{callback_payload, parse_callback, CallbackCommand};
use ebrz::handler::new_message::{
    plan_placeholder, render_error, render_fatal_error, result_edit, MessageEdit,
    PlaceholderPlan, PROCESSING_MESSAGE_TEXT,
};
use ebrz::handler::render::{render_page_data, ButtonPressed, KeyboardButton};
use ebrz::handler::tg_client::{method_url, parse_env, server_url, TgEnv};
use ebrz::handler::updates::{extract_command, next_update_offset};

fn page() -> EvalPageData {
    EvalPageData {
        perma_link: None,
        has_warning: false,
        has_error: false,
        has_fatal_error: false,
        diagnostic_count: 0,
        revision: 2,
        revision_id: 41,
        title: "Output",
        content: "a < b && c > d".to_string(),
    }
}

fn callback(text: &str, payload: &str) -> KeyboardButton {
    KeyboardButton {
        text: text.to_string(),
        pressed: ButtonPressed::CallbackData(payload.to_string()),
    }
}

#[test]
fn payloads_are_read() {
    assert_eq!(parse_callback("v1:del:12"), Some(CallbackCommand::Delete { revision_id: 12 }));
    assert_eq!(parse_callback("v1:genlink:7"), Some(CallbackCommand::GenLink { revision_id: 7 }));
    assert_eq!(
        parse_callback("v1:state:output:3"),
        Some(CallbackCommand::State { page_state: EvalPageState::Output, revision_id: 3 })
    );
    assert_eq!(
        parse_callback("v1:state:build:-3"),
        Some(CallbackCommand::State { page_state: EvalPageState::Build, revision_id: -3 })
    );
    assert_eq!(parse_callback("v1:del:0"), Some(CallbackCommand::Delete { revision_id: 0 }));
    assert_eq!(parse_callback("v1:del:+5"), Some(CallbackCommand::Delete { revision_id: 5 }));
    assert_eq!(parse_callback("v1:del:005"), Some(CallbackCommand::Delete { revision_id: 5 }));
}

#[test]
fn malformed_payloads_ask_for_nothing() {
    for payload in [
        "", "v1", "v1:", "v1:del", "v1:del:", "v1:del:x", "v1:del:1:2", "v1:del: 1", "v2:del:1",
        "V1:del:1", "v1:delete:1", "v1:state:1", "v1:state:output", "v1:state:output:",
        "v1:state:stderr:1", "v1:state:build:1x", "v1:genlink:", "v1:genlink:9223372036854775808",
        " v1:del:1", "del:1", "v1:del:1 ", "v1::1",
    ] {
        assert_eq!(parse_callback(payload), None, "{payload:?}");
    }
}

#[test]
fn payloads_are_written_and_read_back() {
    let commands = [
        CallbackCommand::Delete { revision_id: 1 },
        CallbackCommand::Delete { revision_id: i64::MIN },
        CallbackCommand::GenLink { revision_id: i64::MAX },
        CallbackCommand::State { page_state: EvalPageState::Output, revision_id: 0 },
        CallbackCommand::State { page_state: EvalPageState::Build, revision_id: -20 },
    ];
    for command in commands {
        assert_eq!(parse_callback(&callback_payload(command)), Some(command));
    }
    assert_eq!(callback_payload(CallbackCommand::Delete { revision_id: 15 }), "v1:del:15");
    assert_eq!(callback_payload(CallbackCommand::GenLink { revision_id: 15 }), "v1:genlink:15");
    assert_eq!(
        callback_payload(CallbackCommand::State {
            page_state: EvalPageState::Output,
            revision_id: 15
        }),
        "v1:state:output:15"
    );
    assert_eq!(
        callback_payload(CallbackCommand::State {
            page_state: EvalPageState::Build,
            revision_id: 15
        }),
        "v1:state:build:15"
    );
}

#[test]
fn a_page_is_rendered_with_its_markup_escaped() {
    let (text, keyboard) = render_page_data(page());
    assert_eq!(
        text,
        "<b>Output</b>\n<blockquote expandable><code>a &lt; b &amp;&amp; c &gt; d</code></blockquote>"
    );
    assert_eq!(
        keyboard.inline_keyboard,
        vec![vec![
            callback("✅", "v1:state:build:41"),
            callback("📃2", "v1:state:output:41"),
            callback("🔗", "v1:genlink:41"),
            callback("🗑️", "v1:del:41"),
        ]]
    );
}

#[test]
fn quotes_and_other_characters_are_not_escaped() {
    let mut data = page();
    data.content = "\"it's\" é×😀 &amp;".to_string();
    let (text, _) = render_page_data(data);
    assert_eq!(
        text,
        "<b>Output</b>\n<blockquote expandable><code>\"it's\" é×😀 &amp;amp;</code></blockquote>"
    );
}

#[test]
fn the_first_button_tells_how_the_run_went() {
    let mut data = page();
    data.has_warning = true;
    assert_eq!(render_page_data(data.clone()).1.inline_keyboard[0][0].text, "⚠️");
    data.has_error = true;
    assert_eq!(render_page_data(data.clone()).1.inline_keyboard[0][0].text, "❌️");
    data.has_fatal_error = true;
    assert_eq!(render_page_data(data.clone()).1.inline_keyboard[0][0].text, "👻");
    data.has_error = false;
    data.has_warning = false;
    assert_eq!(render_page_data(data).1.inline_keyboard[0][0].text, "👻");
}

#[test]
fn an_unknown_count_of_revisions_is_not_shown() {
    let mut data = page();
    data.revision = 0;
    assert_eq!(render_page_data(data.clone()).1.inline_keyboard[0][1].text, "📃");
    data.revision = 120;
    assert_eq!(render_page_data(data).1.inline_keyboard[0][1].text, "📃120");
}

#[test]
fn a_page_with_a_permalink_opens_it() {
    let mut data = page();
    data.perma_link = Some("https://play.rust-lang.org/?gist=1".to_string());
    let (_, keyboard) = render_page_data(data);
    assert_eq!(
        keyboard.inline_keyboard[0][2],
        KeyboardButton {
            text: "🔗".to_string(),
            pressed: ButtonPressed::Url("https://play.rust-lang.org/?gist=1".to_string()),
        }
    );
}

#[test]
fn the_buttons_of_a_page_ask_for_its_revision() {
    let mut data = page();
    data.revision_id = -9;
    let (_, keyboard) = render_page_data(data);
    let commands: Vec<Option<CallbackCommand>> = keyboard.inline_keyboard[0]
        .iter()
        .map(|button| match &button.pressed {
            ButtonPressed::CallbackData(payload) => parse_callback(payload),
            ButtonPressed::Url(_) => None,
        })
        .collect();
    assert_eq!(
        commands,
        vec![
            Some(CallbackCommand::State { page_state: EvalPageState::Build, revision_id: -9 }),
            Some(CallbackCommand::State { page_state: EvalPageState::Output, revision_id: -9 }),
            Some(CallbackCommand::GenLink { revision_id: -9 }),
            Some(CallbackCommand::Delete { revision_id: -9 }),
        ]
    );
}

#[test]
fn errors_are_told_in_italics() {
    assert_eq!(PROCESSING_MESSAGE_TEXT, "<i>Processing...</i>");
    assert_eq!(
        render_fatal_error("Failed to create record"),
        "<i>Fatal error: Failed to create record</i>"
    );
    assert_eq!(render_fatal_error("<b>"), "<i>Fatal error: &lt;b&gt;</i>");
    assert_eq!(render_error("a & b"), "<i>Error: a &amp; b</i>");
}

#[test]
fn a_record_with_a_message_has_it_edited() {
    assert_eq!(plan_placeholder(Some(5)), PlaceholderPlan::Edit(5));
    assert_eq!(plan_placeholder(None), PlaceholderPlan::Send);
}

#[test]
fn the_end_of_a_wait_decides_what_the_message_shows() {
    assert_eq!(result_edit(EvalResultResponse::Cancelled), MessageEdit::Nothing);
    assert_eq!(result_edit(EvalResultResponse::RequestOutdated), MessageEdit::Nothing);
    assert_eq!(
        result_edit(EvalResultResponse::Failed("Failed to update revision".to_string())),
        MessageEdit::Text("<i>Error: Failed to update revision</i>".to_string())
    );
    let (text, keyboard) = render_page_data(page());
    assert_eq!(result_edit(EvalResultResponse::Shown(page())), MessageEdit::Page(text, keyboard));
}

fn said(text: &str, show_alert: bool) -> CallbackAnswer {
    CallbackAnswer { text: Some(text.to_string()), show_alert }
}

#[test]
fn button_presses_are_answered() {
    let silent = CallbackAnswer { text: None, show_alert: false };
    assert_eq!(unknown_command_answer(), said("Unknown command", false));
    assert_eq!(internal_error_answer(), said("Internal error", false));

    assert_eq!(delete_answer(RequestDeleteEvalResponse::Approved(7)), (Some(7), silent.clone()));
    assert_eq!(
        delete_answer(RequestDeleteEvalResponse::<u8>::SenderMismatch),
        (None, said("Only the original sender can delete", false))
    );
    assert_eq!(
        delete_answer(RequestDeleteEvalResponse::<u8>::Failed(
            "Error deleting eval record".to_string()
        )),
        (None, said("Error deleting eval record", true))
    );

    assert_eq!(
        state_answer(ShowEvalOutputResponse::Shown(page())),
        (Some(render_page_data(page())), silent)
    );
    assert_eq!(
        state_answer(ShowEvalOutputResponse::SenderMismatch),
        (None, said("Only the original sender can switch state", false))
    );
    assert_eq!(
        state_answer(ShowEvalOutputResponse::Failed("Error lookup eval record".to_string())),
        (None, said("Error lookup eval record", true))
    );

    assert_eq!(
        link_answer(GetEvalLinkResponse::Shown(page())),
        (Some(render_page_data(page())), said("Link generated in-place", false))
    );
    assert_eq!(
        link_answer(GetEvalLinkResponse::NotFound),
        (None, said("Revision not found", true))
    );
    assert_eq!(
        link_answer(GetEvalLinkResponse::Failed("Error generating link".to_string())),
        (None, said("Error generating link", true))
    );
}

#[test]
fn a_message_with_the_command_word_is_a_submission() {
    assert_eq!(extract_command("/bval 1 + 1"), Some("1 + 1".to_string()));
    assert_eq!(extract_command("  /bval   1 + 1  \n"), Some("1 + 1".to_string()));
    assert_eq!(extract_command("/bval"), Some(String::new()));
    assert_eq!(extract_command("/bval   "), Some(String::new()));
    assert_eq!(extract_command("/bvalx"), Some("x".to_string()));
    assert_eq!(extract_command("/bval\n\tlet a = 1;\n\ta"), Some("let a = 1;\n\ta".to_string()));
    assert_eq!(extract_command("\u{3000}/bval\u{a0}é \u{2003}"), Some("é".to_string()));
}

#[test]
fn other_messages_are_not_submissions() {
    for text in ["", "   ", "hello", "/bva", "/eval 1", "bval 1", "x /bval 1", "/BVAL 1", "/ bval"] {
        assert_eq!(extract_command(text), None, "{text:?}");
    }
}

#[test]
fn extraction_agrees_with_trimming() {
    for text in ["/bval a\u{200b}", " \u{85}/bval\u{1680}b\u{2028}", "/bval \u{feff}c", "\r\n/bval d\r\n"] {
        let expected = text.trim().strip_prefix("/bval").map(|rest| rest.trim_start().to_string());
        assert_eq!(extract_command(text), expected, "{text:?}");
    }
}

#[test]
fn updates_are_read_on_behind_the_last_one_seen() {
    assert_eq!(next_update_offset(None, 10), Some(11));
    assert_eq!(next_update_offset(Some(5), 10), Some(11));
    assert_eq!(next_update_offset(Some(11), 10), Some(11));
    assert_eq!(next_update_offset(Some(20), 10), Some(20));
    assert_eq!(next_update_offset(None, -1), Some(0));
    assert_eq!(next_update_offset(Some(i64::MAX), i64::MAX - 1), Some(i64::MAX));
}

#[test]
fn the_chat_service_has_two_environments() {
    assert_eq!(parse_env("test"), Some(TgEnv::Test));
    assert_eq!(parse_env("prod"), Some(TgEnv::Prod));
    for name in ["", "Test", "production", "prod ", "tes", "testing"] {
        assert_eq!(parse_env(name), None, "{name:?}");
    }
    assert_eq!(server_url("123:abc", TgEnv::Test), "https://api.telegram.org/bot123:abc/test/");
    assert_eq!(server_url("123:abc", TgEnv::Prod), "https://api.telegram.org/bot123:abc/");
    assert_eq!(
        method_url("https://api.telegram.org/bot1/", "getMe"),
        "https://api.telegram.org/bot1/getMe"
    );
}
