//! From a page to what the chat shows: a text in the chat's markup, and a
//! row of buttons under it.

use super::callback_query::{
    callback_payload, callback_text, law_payload_is_read_back, parsed_callback, CallbackCommand,
};
use crate::controller::{EvalPageData, EvalPageState, PageDataView};
use crate::decimal::{append_u32, int_text};
use vstd::prelude::*;

verus! {

/// What a character becomes in a text of the chat's markup: `&`, `<` and
/// `>` become their entities, every other character stays.
pub open spec fn escaped_char(c: char) -> Seq<char> {
    if c == '&' {
        "&amp;"@
    } else if c == '<' {
        "&lt;"@
    } else if c == '>' {
        "&gt;"@
    } else {
        seq![c]
    }
}

/// A text with every character escaped.
pub open spec fn escaped_text(text: Seq<char>) -> Seq<char>
    decreases text.len(),
{
    if text.len() == 0 {
        Seq::empty()
    } else {
        escaped_text(text.drop_last()) + escaped_char(text.last())
    }
}

/// Calls `htmlize::escape_text`. That function copies its input and puts
/// `&amp;`, `&lt;` and `&gt;` in the place of `&`, `<` and `>`; the
/// contract says so, character by character, and is not proved here.
#[verifier::external_body]
pub(crate) fn escape_text(text: &str) -> (escaped: String)
    ensures
        escaped@ == escaped_text(text@),
{
    htmlize::escape_text(text).into_owned()
}

/// What happens when a button is pressed.
#[derive(Debug, Clone, PartialEq, Eq)]
pub enum ButtonPressed {
    /// The payload comes back to the library.
    CallbackData(String),
    /// The address is opened.
    Url(String),
}

/// A button press as a mathematical value.
pub enum PressedView {
    CallbackData(Seq<char>),
    Url(Seq<char>),
}

impl View for ButtonPressed {
    type V = PressedView;

    open spec fn view(&self) -> PressedView {
        match self {
            ButtonPressed::CallbackData(payload) => PressedView::CallbackData(payload@),
            ButtonPressed::Url(url) => PressedView::Url(url@),
        }
    }
}

/// A button under a message.
#[derive(Debug, Clone, PartialEq, Eq)]
pub struct KeyboardButton {
    pub text: String,
    pub pressed: ButtonPressed,
}

/// A button as a mathematical value.
pub struct ButtonView {
    pub text: Seq<char>,
    pub pressed: PressedView,
}

impl View for KeyboardButton {
    type V = ButtonView;

    open spec fn view(&self) -> ButtonView {
        ButtonView { text: self.text@, pressed: self.pressed@ }
    }
}

/// The rows of buttons under a message.
#[derive(Debug, Clone, PartialEq, Eq)]
pub struct Keyboard {
    pub inline_keyboard: Vec<Vec<KeyboardButton>>,
}

/// The text of a page in the chat's markup: the title in bold, and the
/// content as a quoted block of code that can be folded.
pub open spec fn rendered_text(data: PageDataView) -> Seq<char> {
    "<b>"@ + escaped_text(data.title) + "</b>\n<blockquote expandable><code>"@ + escaped_text(
        data.content,
    ) + "</code></blockquote>"@
}

/// The sign of how a run went: a ghost if the execution service failed, a
/// cross if the program did, a warning sign if it ran with warnings, and
/// a check mark else.
pub open spec fn status_text(data: PageDataView) -> Seq<char> {
    if data.has_fatal_error {
        "\u{1f47b}"@
    } else if data.has_error {
        "\u{274c}\u{fe0f}"@
    } else if data.has_warning {
        "\u{26a0}\u{fe0f}"@
    } else {
        "\u{2705}"@
    }
}

/// The sign of a page, followed by the number of revisions if it is known.
pub open spec fn revision_text(data: PageDataView) -> Seq<char> {
    if data.revision == 0 {
        "\u{1f4c3}"@
    } else {
        "\u{1f4c3}"@ + int_text(data.revision as int)
    }
}

/// The button that shows the diagnostics.
pub open spec fn build_button(data: PageDataView) -> ButtonView {
    ButtonView {
        text: status_text(data),
        pressed: PressedView::CallbackData(
            callback_text(
                CallbackCommand::State {
                    page_state: EvalPageState::Build,
                    revision_id: data.revision_id as i64,
                },
            ),
        ),
    }
}

/// The button that shows the output.
pub open spec fn output_button(data: PageDataView) -> ButtonView {
    ButtonView {
        text: revision_text(data),
        pressed: PressedView::CallbackData(
            callback_text(
                CallbackCommand::State {
                    page_state: EvalPageState::Output,
                    revision_id: data.revision_id as i64,
                },
            ),
        ),
    }
}

/// The button of the permalink: it opens the permalink if the page has
/// one, and asks for one to be made if not.
pub open spec fn link_button(data: PageDataView) -> ButtonView {
    ButtonView {
        text: "\u{1f517}"@,
        pressed: match data.perma_link {
            Some(link) => PressedView::Url(link),
            None => PressedView::CallbackData(
                callback_text(CallbackCommand::GenLink { revision_id: data.revision_id as i64 }),
            ),
        },
    }
}

/// The button that deletes the message.
pub open spec fn delete_button(data: PageDataView) -> ButtonView {
    ButtonView {
        text: "\u{1f5d1}\u{fe0f}"@,
        pressed: PressedView::CallbackData(
            callback_text(CallbackCommand::Delete { revision_id: data.revision_id as i64 }),
        ),
    }
}

/// The buttons under a page, from left to right.
pub open spec fn rendered_buttons(data: PageDataView) -> Seq<ButtonView> {
    seq![build_button(data), output_button(data), link_button(data), delete_button(data)]
}

/// The buttons of a row as mathematical values.
pub open spec fn row_view(row: Vec<KeyboardButton>) -> Seq<ButtonView> {
    Seq::new(row@.len(), |i: int| row@[i]@)
}

/// Renders a page: the text, and one row of buttons under it.
pub fn render_page_data(data: EvalPageData) -> (rendered: (String, Keyboard))
    ensures
        rendered.0@ == rendered_text(data@),
        rendered.1.inline_keyboard@.len() == 1,
        row_view(rendered.1.inline_keyboard@[0]) == rendered_buttons(data@),
{
    let mut text = String::from_str("<b>");
    text.append(escape_text(data.title).as_str());
    text.append("</b>\n<blockquote expandable><code>");
    text.append(escape_text(data.content.as_str()).as_str());
    text.append("</code></blockquote>");

    let status = if data.has_fatal_error {
        "\u{1f47b}"
    } else if data.has_error {
        "\u{274c}\u{fe0f}"
    } else if data.has_warning {
        "\u{26a0}\u{fe0f}"
    } else {
        "\u{2705}"
    };
    let mut revision = String::from_str("\u{1f4c3}");
    if data.revision != 0 {
        append_u32(&mut revision, data.revision);
    }
    let link = match data.perma_link {
        Some(link) => ButtonPressed::Url(link),
        None => ButtonPressed::CallbackData(
            callback_payload(CallbackCommand::GenLink { revision_id: data.revision_id }),
        ),
    };
    let mut row: Vec<KeyboardButton> = Vec::new();
    row.push(
        KeyboardButton {
            text: String::from_str(status),
            pressed: ButtonPressed::CallbackData(
                callback_payload(
                    CallbackCommand::State {
                        page_state: EvalPageState::Build,
                        revision_id: data.revision_id,
                    },
                ),
            ),
        },
    );
    row.push(
        KeyboardButton {
            text: revision,
            pressed: ButtonPressed::CallbackData(
                callback_payload(
                    CallbackCommand::State {
                        page_state: EvalPageState::Output,
                        revision_id: data.revision_id,
                    },
                ),
            ),
        },
    );
    row.push(KeyboardButton { text: String::from_str("\u{1f517}"), pressed: link });
    row.push(
        KeyboardButton {
            text: String::from_str("\u{1f5d1}\u{fe0f}"),
            pressed: ButtonPressed::CallbackData(
                callback_payload(CallbackCommand::Delete { revision_id: data.revision_id }),
            ),
        },
    );
    assert(row_view(row) =~= rendered_buttons(data@));
    let mut rows: Vec<Vec<KeyboardButton>> = Vec::new();
    rows.push(row);
    (text, Keyboard { inline_keyboard: rows })
}

/// The payload that a press of a button sends back, if it sends one.
pub open spec fn button_payload(button: ButtonView) -> Option<Seq<char>> {
    match button.pressed {
        PressedView::CallbackData(payload) => Some(payload),
        PressedView::Url(_) => None,
    }
}

/// The buttons under a page ask for what they show: each payload, read
/// back, is a command for the revision of the page.
pub proof fn law_buttons_are_read_back(data: EvalPageData)
    ensures
        parsed_callback(button_payload(build_button(data@))->0) == Some(
            CallbackCommand::State {
                page_state: EvalPageState::Build,
                revision_id: data.revision_id,
            },
        ),
        parsed_callback(button_payload(output_button(data@))->0) == Some(
            CallbackCommand::State {
                page_state: EvalPageState::Output,
                revision_id: data.revision_id,
            },
        ),
        data.perma_link is None ==> parsed_callback(button_payload(link_button(data@))->0)
            == Some(CallbackCommand::GenLink { revision_id: data.revision_id }),
        parsed_callback(button_payload(delete_button(data@))->0) == Some(
            CallbackCommand::Delete { revision_id: data.revision_id },
        ),
{
    law_payload_is_read_back(
        CallbackCommand::State { page_state: EvalPageState::Build, revision_id: data.revision_id },
    );
    law_payload_is_read_back(
        CallbackCommand::State {
            page_state: EvalPageState::Output,
            revision_id: data.revision_id,
        },
    );
    law_payload_is_read_back(CallbackCommand::GenLink { revision_id: data.revision_id });
    law_payload_is_read_back(CallbackCommand::Delete { revision_id: data.revision_id });
}

} // verus!
