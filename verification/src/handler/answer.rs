//! What a button press is answered with.

use super::render::{render_page_data, rendered_buttons, rendered_text, row_view, Keyboard};
use crate::controller::{
    GetEvalLinkResponse, RequestDeleteEvalResponse, ShowEvalOutputResponse,
};
use vstd::prelude::*;

verus! {

/// The answer to a button press: a notice, if there is something to say,
/// and whether the notice is shown as an alert.
#[derive(Debug, Clone, PartialEq, Eq)]
pub struct CallbackAnswer {
    pub text: Option<String>,
    pub show_alert: bool,
}

/// An answer as a mathematical value.
pub struct AnswerView {
    pub text: Option<Seq<char>>,
    pub show_alert: bool,
}

impl View for CallbackAnswer {
    type V = AnswerView;

    open spec fn view(&self) -> AnswerView {
        AnswerView {
            text: match self.text {
                Some(text) => Some(text@),
                None => None,
            },
            show_alert: self.show_alert,
        }
    }
}

/// The answer without a notice.
pub open spec fn silent() -> AnswerView {
    AnswerView { text: None, show_alert: false }
}

/// The answer with a notice in passing.
pub open spec fn notice(text: Seq<char>) -> AnswerView {
    AnswerView { text: Some(text), show_alert: false }
}

/// The answer with a notice that the user has to dismiss.
pub open spec fn alert(text: Seq<char>) -> AnswerView {
    AnswerView { text: Some(text), show_alert: true }
}

/// The answer to a payload that asks for no command.
pub fn unknown_command_answer() -> (answer: CallbackAnswer)
    ensures
        answer@ == notice("Unknown command"@),
{
    CallbackAnswer { text: Some(String::from_str("Unknown command")), show_alert: false }
}

/// The answer to a press that could not be handled.
pub fn internal_error_answer() -> (answer: CallbackAnswer)
    ensures
        answer@ == notice("Internal error"@),
{
    CallbackAnswer { text: Some(String::from_str("Internal error")), show_alert: false }
}

/// Decides what follows a request for deletion: an approval hands on what
/// takes it back, in case the message cannot be deleted; a refusal tells
/// who may delete; a failure is shown as an alert.
pub fn delete_answer<R>(res: RequestDeleteEvalResponse<R>) -> (out: (Option<R>, CallbackAnswer))
    ensures
        match res {
            RequestDeleteEvalResponse::Approved(revert) => out.0 == Some(revert) && out.1@
                == silent(),
            RequestDeleteEvalResponse::SenderMismatch => out.0 is None && out.1@ == notice(
                "Only the original sender can delete"@,
            ),
            RequestDeleteEvalResponse::Failed(error) => out.0 is None && out.1@ == alert(
                error@,
            ),
        },
{
    match res {
        RequestDeleteEvalResponse::Approved(revert) => (
            Some(revert),
            CallbackAnswer { text: None, show_alert: false },
        ),
        RequestDeleteEvalResponse::SenderMismatch => (
            None,
            CallbackAnswer {
                text: Some(String::from_str("Only the original sender can delete")),
                show_alert: false,
            },
        ),
        RequestDeleteEvalResponse::Failed(error) => (
            None,
            CallbackAnswer { text: Some(error), show_alert: true },
        ),
    }
}

/// Whether `page` is a page rendered: its text, and one row of buttons.
pub open spec fn renders(page: (String, Keyboard), data: crate::controller::PageDataView) -> bool {
    &&& page.0@ == rendered_text(data)
    &&& page.1.inline_keyboard@.len() == 1
    &&& row_view(page.1.inline_keyboard@[0]) == rendered_buttons(data)
}

/// Decides what follows a request for another page state: a page replaces
/// what the message shows; a refusal tells who may switch; a failure is
/// shown as an alert.
pub fn state_answer(res: ShowEvalOutputResponse) -> (out: (
    Option<(String, Keyboard)>,
    CallbackAnswer,
))
    ensures
        match res {
            ShowEvalOutputResponse::Shown(data) => out.0 matches Some(page) && renders(
                page,
                data@,
            ) && out.1@ == silent(),
            ShowEvalOutputResponse::SenderMismatch => out.0 is None && out.1@ == notice(
                "Only the original sender can switch state"@,
            ),
            ShowEvalOutputResponse::Failed(error) => out.0 is None && out.1@ == alert(error@),
        },
{
    match res {
        ShowEvalOutputResponse::Shown(data) => (
            Some(render_page_data(data)),
            CallbackAnswer { text: None, show_alert: false },
        ),
        ShowEvalOutputResponse::SenderMismatch => (
            None,
            CallbackAnswer {
                text: Some(String::from_str("Only the original sender can switch state")),
                show_alert: false,
            },
        ),
        ShowEvalOutputResponse::Failed(error) => (
            None,
            CallbackAnswer { text: Some(error), show_alert: true },
        ),
    }
}

/// Decides what follows a request for a permalink: a page replaces what
/// the message shows, with a notice; a revision that was not found and a
/// failure are shown as alerts.
pub fn link_answer(res: GetEvalLinkResponse) -> (out: (Option<(String, Keyboard)>, CallbackAnswer))
    ensures
        match res {
            GetEvalLinkResponse::Shown(data) => out.0 matches Some(page) && renders(page, data@)
                && out.1@ == notice("Link generated in-place"@),
            GetEvalLinkResponse::NotFound => out.0 is None && out.1@ == alert(
                "Revision not found"@,
            ),
            GetEvalLinkResponse::Failed(error) => out.0 is None && out.1@ == alert(error@),
        },
{
    match res {
        GetEvalLinkResponse::Shown(data) => (
            Some(render_page_data(data)),
            CallbackAnswer {
                text: Some(String::from_str("Link generated in-place")),
                show_alert: false,
            },
        ),
        GetEvalLinkResponse::NotFound => (
            None,
            CallbackAnswer {
                text: Some(String::from_str("Revision not found")),
                show_alert: true,
            },
        ),
        GetEvalLinkResponse::Failed(error) => (
            None,
            CallbackAnswer { text: Some(error), show_alert: true },
        ),
    }
}

} // verus!
