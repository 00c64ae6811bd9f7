//! The values exchanged with the Telegram bot interface.
use vstd::prelude::*;
use vstd::string::*;

verus! {

/// A button under a message: it either sends data back or opens a link.
#[derive(Debug)]
pub struct InlineKeyboardButton {
    pub text: String,
    pub callback_data: Option<String>,
    pub url: Option<String>,
}

/// What an [`InlineKeyboardButton`] holds.
pub struct ButtonView {
    pub text: Seq<char>,
    pub callback_data: Option<Seq<char>>,
    pub url: Option<Seq<char>>,
}

impl DeepView for InlineKeyboardButton {
    type V = ButtonView;

    open spec fn deep_view(&self) -> ButtonView {
        ButtonView {
            text: self.text@,
            callback_data: self.callback_data.deep_view(),
            url: self.url.deep_view(),
        }
    }
}

/// A button that sends `data` back.
pub open spec fn callback_button(text: Seq<char>, data: Seq<char>) -> ButtonView {
    ButtonView { text, callback_data: Some(data), url: None }
}

/// A button that opens `url`.
pub open spec fn url_button(text: Seq<char>, url: Seq<char>) -> ButtonView {
    ButtonView { text, callback_data: None, url: Some(url) }
}

impl InlineKeyboardButton {
    /// A button that sends `data` back when it is tapped.
    pub fn callback(text: &str, data: &str) -> (button: Self)
        ensures
            button.deep_view() == callback_button(text@, data@),
    {
        InlineKeyboardButton {
            text: text.to_string(),
            callback_data: Some(data.to_string()),
            url: None,
        }
    }

    /// A button that opens `url` when it is tapped.
    pub fn url(text: &str, url: &str) -> (button: Self)
        ensures
            button.deep_view() == url_button(text@, url@),
    {
        InlineKeyboardButton {
            text: text.to_string(),
            callback_data: None,
            url: Some(url.to_string()),
        }
    }
}

/// The rows of buttons under a message.
#[derive(Debug)]
pub struct InlineKeyboardMarkup {
    pub inline_keyboard: Vec<Vec<InlineKeyboardButton>>,
}

impl DeepView for InlineKeyboardMarkup {
    type V = Seq<Seq<ButtonView>>;

    open spec fn deep_view(&self) -> Seq<Seq<ButtonView>> {
        self.inline_keyboard.deep_view()
    }
}

/// The request that sends a message.
#[derive(Debug)]
pub struct SendMessagePayload {
    pub chat_id: i64,
    pub text: String,
    pub parse_mode: Option<String>,
    pub reply_markup: Option<InlineKeyboardMarkup>,
    pub disable_web_page_preview: bool,
}

/// What a [`SendMessagePayload`] holds.
pub struct MessageView {
    pub chat_id: i64,
    pub text: Seq<char>,
    pub parse_mode: Option<Seq<char>>,
    pub reply_markup: Option<Seq<Seq<ButtonView>>>,
    pub disable_web_page_preview: bool,
}

impl DeepView for SendMessagePayload {
    type V = MessageView;

    open spec fn deep_view(&self) -> MessageView {
        MessageView {
            chat_id: self.chat_id,
            text: self.text@,
            parse_mode: self.parse_mode.deep_view(),
            reply_markup: self.reply_markup.deep_view(),
            disable_web_page_preview: self.disable_web_page_preview,
        }
    }
}

/// The request that answers a tapped button.
#[derive(Debug)]
pub struct AnswerCallbackPayload {
    pub callback_query_id: String,
    pub text: String,
    pub show_alert: bool,
}

/// What an [`AnswerCallbackPayload`] holds.
pub struct AnswerView {
    pub callback_query_id: Seq<char>,
    pub text: Seq<char>,
    pub show_alert: bool,
}

impl DeepView for AnswerCallbackPayload {
    type V = AnswerView;

    open spec fn deep_view(&self) -> AnswerView {
        AnswerView {
            callback_query_id: self.callback_query_id@,
            text: self.text@,
            show_alert: self.show_alert,
        }
    }
}

/// A chat.
#[derive(Debug, Clone, Copy, PartialEq, Eq)]
pub struct Chat {
    pub id: i64,
}

/// A message that was received.
#[derive(Debug)]
pub struct Message {
    pub message_id: i64,
    pub chat: Chat,
    pub text: Option<String>,
}

/// A tap on a button.
#[derive(Debug)]
pub struct CallbackQuery {
    pub id: String,
    pub data: Option<String>,
    pub message: Option<Message>,
}

/// One thing that happened since the last poll.
#[derive(Debug)]
pub struct Update {
    pub update_id: i64,
    pub message: Option<Message>,
    pub callback_query: Option<CallbackQuery>,
}

/// A button does one of two things: it sends its data back and opens no link,
/// or it opens its link and sends nothing back.
pub proof fn law_buttons_do_one_thing(text: Seq<char>, target: Seq<char>)
    ensures
        callback_button(text, target).text == text,
        callback_button(text, target).callback_data == Some(target),
        callback_button(text, target).url is None,
        url_button(text, target).text == text,
        url_button(text, target).callback_data is None,
        url_button(text, target).url == Some(target),
{
}

/// What is stated of a button is stated of its fields.
pub proof fn law_button_view(button: InlineKeyboardButton)
    ensures
        button.deep_view().text == button.text@,
        button.deep_view().callback_data is Some == button.callback_data is Some,
        button.callback_data matches Some(data) ==> button.deep_view().callback_data == Some(data@),
        button.deep_view().url is Some == button.url is Some,
        button.url matches Some(url) ==> button.deep_view().url == Some(url@),
{
}

/// What is stated of a panel is stated of its buttons, row by row.
pub proof fn law_panel_view(markup: InlineKeyboardMarkup, r: int, b: int)
    requires
        0 <= r < markup.inline_keyboard@.len(),
        0 <= b < markup.inline_keyboard@[r]@.len(),
    ensures
        markup.deep_view().len() == markup.inline_keyboard@.len(),
        markup.deep_view()[r].len() == markup.inline_keyboard@[r]@.len(),
        markup.deep_view()[r][b] == markup.inline_keyboard@[r]@[b].deep_view(),
{
}

/// What is stated of a message to send is stated of its fields.
pub proof fn law_message_view(payload: SendMessagePayload)
    ensures
        payload.deep_view().chat_id == payload.chat_id,
        payload.deep_view().text == payload.text@,
        payload.deep_view().parse_mode is Some == payload.parse_mode is Some,
        payload.parse_mode matches Some(mode) ==> payload.deep_view().parse_mode == Some(mode@),
        payload.deep_view().reply_markup is Some == payload.reply_markup is Some,
        payload.reply_markup matches Some(markup) ==> payload.deep_view().reply_markup == Some(
            markup.deep_view(),
        ),
        payload.deep_view().disable_web_page_preview == payload.disable_web_page_preview,
{
}

/// What is stated of an answer is stated of its fields.
pub proof fn law_answer_view(payload: AnswerCallbackPayload)
    ensures
        payload.deep_view().callback_query_id == payload.callback_query_id@,
        payload.deep_view().text == payload.text@,
        payload.deep_view().show_alert == payload.show_alert,
{
}

/// The two kinds of button, as they are made.
pub proof fn law_made_buttons(
    text: &str,
    target: &str,
    tap: InlineKeyboardButton,
    link: InlineKeyboardButton,
)
    requires
        call_ensures(InlineKeyboardButton::callback, (text, target), tap),
        call_ensures(InlineKeyboardButton::url, (text, target), link),
    ensures
        tap.text@ == text@,
        tap.callback_data matches Some(data) && data@ == target@,
        tap.url is None,
        link.text@ == text@,
        link.callback_data is None,
        link.url matches Some(url) && url@ == target@,
{
}

} // verus!
