//! What the bot says: its requests, keyboards and texts.
use vstd::prelude::*;
use vstd::string::*;

use crate::config::Config;
use crate::story::{Story, StoryView};
use crate::telegram::{
    callback_button, url_button, AnswerCallbackPayload, AnswerView, ButtonView,
    InlineKeyboardButton, InlineKeyboardMarkup, MessageView, SendMessagePayload,
};

verus! {

/// The panel under the greeting: every function of the bot.
pub open spec fn hero_rows(feed_url: Seq<char>) -> Seq<Seq<ButtonView>> {
    seq![
        seq![
            callback_button("🚀 AutoPulse"@, "auto_pulse"@),
            callback_button("🧠 AI Recap"@, "ai_recap"@),
        ],
        seq![
            callback_button("🗞️ News"@, "latest"@),
            callback_button("⚙️ Mission Control"@, "settings"@),
        ],
        seq![
            callback_button("💡 Tips"@, "tips"@),
            callback_button("❤️ Support"@, "support"@),
        ],
        seq![
            url_button("🌐 Source Feed"@, feed_url),
            callback_button("📡 Refresh"@, "refresh"@),
        ],
    ]
}

/// The panel under every other message.
pub open spec fn secondary_rows(feed_url: Seq<char>) -> Seq<Seq<ButtonView>> {
    seq![
        seq![
            callback_button("🗞️ News"@, "latest"@),
            callback_button("📡 Refresh"@, "refresh"@),
        ],
        seq![
            callback_button("⚙️ Settings"@, "settings"@),
            url_button("🌐 Feed"@, feed_url),
        ],
    ]
}

/// A plain message with a panel under it.
pub open spec fn message_with(
    chat_id: i64,
    text: Seq<char>,
    rows: Option<Seq<Seq<ButtonView>>>,
    disable_preview: bool,
) -> MessageView {
    MessageView {
        chat_id,
        text,
        parse_mode: None,
        reply_markup: rows,
        disable_web_page_preview: disable_preview,
    }
}

/// The sign in front of the story at `index`.
pub open spec fn marker(index: int) -> Seq<char> {
    if index == 0 {
        "①"@
    } else if index == 1 {
        "②"@
    } else if index == 2 {
        "③"@
    } else if index == 3 {
        "④"@
    } else {
        "•"@
    }
}

/// One story in a digest.
pub open spec fn card(index: int, story: StoryView) -> Seq<char> {
    marker(index) + " "@ + story.title + "\n"@ + story.summary + "\n🔗 "@ + story.link + "\n\n"@
}

/// The cards of `stories`, one behind the other.
pub open spec fn cards(stories: Seq<StoryView>) -> Seq<char>
    decreases stories.len(),
{
    if stories.len() == 0 {
        Seq::empty()
    } else {
        cards(stories.drop_last()) + card(stories.len() - 1, stories.last())
    }
}

/// A digest of stories under a heading.
pub open spec fn curated(stories: Seq<StoryView>, heading: Seq<char>) -> Seq<char> {
    heading + "\n\n"@ + cards(stories)
}

/// The address of a method of the bot interface.
pub open spec fn method_url(bot_token: Seq<char>, method: Seq<char>) -> Seq<char> {
    "https://api.telegram.org/bot"@ + bot_token + "/"@ + method
}

/// What the bot's requests are built from.
#[derive(Debug)]
pub struct BotContext {
    pub config: Config,
}

fn row(first: InlineKeyboardButton, second: InlineKeyboardButton) -> (buttons: Vec<
    InlineKeyboardButton,
>)
    ensures
        buttons.deep_view() == seq![first.deep_view(), second.deep_view()],
{
    vec![first, second]
}

fn marker_text(index: usize) -> (text: &'static str)
    ensures
        text@ == marker(index as int),
{
    match index {
        0 => "①",
        1 => "②",
        2 => "③",
        3 => "④",
        _ => "•",
    }
}

impl BotContext {
    /// The address at which `method` of the bot interface is called.
    pub fn api_url(&self, method: &str) -> (url: String)
        ensures
            url@ == method_url(self.config.bot_token@, method@),
    {
        let mut url = "https://api.telegram.org/bot".to_string();
        url.append(self.config.bot_token.as_str());
        url.append("/");
        url.append(method);
        url
    }

    /// Where updates are asked for.
    pub fn get_updates_url(&self) -> (url: String)
        ensures
            url@ == method_url(self.config.bot_token@, "getUpdates"@),
    {
        self.api_url("getUpdates")
    }

    /// Where the request of [`BotContext::send_message`] goes.
    pub fn send_message_url(&self) -> (url: String)
        ensures
            url@ == method_url(self.config.bot_token@, "sendMessage"@),
    {
        self.api_url("sendMessage")
    }

    /// Where the request of [`BotContext::answer_callback`] goes.
    pub fn answer_callback_url(&self) -> (url: String)
        ensures
            url@ == method_url(self.config.bot_token@, "answerCallbackQuery"@),
    {
        self.api_url("answerCallbackQuery")
    }

    /// The panel under the greeting.
    pub fn hero_keyboard(&self) -> (markup: InlineKeyboardMarkup)
        ensures
            markup.deep_view() == hero_rows(self.config.feed_url@),
    {
        let rows = vec![
            row(
                InlineKeyboardButton::callback("🚀 AutoPulse", "auto_pulse"),
                InlineKeyboardButton::callback("🧠 AI Recap", "ai_recap"),
            ),
            row(
                InlineKeyboardButton::callback("🗞️ News", "latest"),
                InlineKeyboardButton::callback("⚙️ Mission Control", "settings"),
            ),
            row(
                InlineKeyboardButton::callback("💡 Tips", "tips"),
                InlineKeyboardButton::callback("❤️ Support", "support"),
            ),
            row(
                InlineKeyboardButton::url("🌐 Source Feed", self.config.feed_url.as_str()),
                InlineKeyboardButton::callback("📡 Refresh", "refresh"),
            ),
        ];
        InlineKeyboardMarkup { inline_keyboard: rows }
    }

    /// The panel under every other message.
    pub fn secondary_keyboard(&self) -> (markup: InlineKeyboardMarkup)
        ensures
            markup.deep_view() == secondary_rows(self.config.feed_url@),
    {
        let rows = vec![
            row(
                InlineKeyboardButton::callback("🗞️ News", "latest"),
                InlineKeyboardButton::callback("📡 Refresh", "refresh"),
            ),
            row(
                InlineKeyboardButton::callback("⚙️ Settings", "settings"),
                InlineKeyboardButton::url("🌐 Feed", self.config.feed_url.as_str()),
            ),
        ];
        InlineKeyboardMarkup { inline_keyboard: rows }
    }

    /// The request that sends a text to a chat, for
    /// [`BotContext::send_message_url`].
    pub fn send_message(
        &self,
        chat_id: i64,
        text: &str,
        reply_markup: Option<InlineKeyboardMarkup>,
        disable_preview: bool,
    ) -> (payload: SendMessagePayload)
        ensures
            payload.deep_view() == message_with(
                chat_id,
                text@,
                reply_markup.deep_view(),
                disable_preview,
            ),
    {
        SendMessagePayload {
            chat_id,
            text: text.to_string(),
            parse_mode: None,
            reply_markup,
            disable_web_page_preview: disable_preview,
        }
    }

    /// The request that answers a tapped button with a short notice, for
    /// [`BotContext::answer_callback_url`].
    pub fn answer_callback(&self, query_id: &str, text: &str) -> (payload: AnswerCallbackPayload)
        ensures
            payload.deep_view() == (AnswerView {
                callback_query_id: query_id@,
                text: text@,
                show_alert: false,
            }),
    {
        AnswerCallbackPayload {
            callback_query_id: query_id.to_string(),
            text: text.to_string(),
            show_alert: false,
        }
    }

    /// Lists stories under a heading.
    pub fn format_curated(items: &[Story], heading: &str) -> (payload: String)
        ensures
            payload@ == curated(items.deep_view(), heading@),
    {
        let mut payload = String::new();
        payload.append(heading);
        payload.append("\n\n");
        let ghost views = items.deep_view();
        let mut index: usize = 0;
        while index < items.len()
            invariant
                index <= items.len(),
                views == items.deep_view(),
                payload@ == heading@ + "\n\n"@ + cards(views.take(index as int)),
            decreases items.len() - index,
        {
            let story = &items[index];
            payload.append(marker_text(index));
            payload.append(" ");
            payload.append(story.title.as_str());
            payload.append("\n");
            payload.append(story.summary.as_str());
            payload.append("\n🔗 ");
            payload.append(story.link.as_str());
            payload.append("\n\n");
            assert(views.take(index + 1).drop_last() =~= views.take(index as int));
            index += 1;
        }
        assert(views.take(index as int) =~= views);
        payload
    }
}

/// A message goes to the chat that it is made for, with the text, the panel and
/// the preview that it is made with, and without a markup language.
pub proof fn law_message_keeps_what_it_is_made_of(
    chat_id: i64,
    text: Seq<char>,
    rows: Option<Seq<Seq<ButtonView>>>,
    disable_preview: bool,
)
    ensures
        message_with(chat_id, text, rows, disable_preview).chat_id == chat_id,
        message_with(chat_id, text, rows, disable_preview).text == text,
        message_with(chat_id, text, rows, disable_preview).parse_mode is None,
        message_with(chat_id, text, rows, disable_preview).reply_markup == rows,
        message_with(chat_id, text, rows, disable_preview).disable_web_page_preview
            == disable_preview,
{
}

/// Two feeds have the same panels, but for the one button in each panel that
/// opens the feed itself.
pub proof fn law_panels_differ_by_the_feed_alone(feed: Seq<char>, other: Seq<char>)
    ensures
        hero_rows(feed).len() == 4,
        forall|r: int| 0 <= r < 4 ==> (#[trigger] hero_rows(feed)[r]).len() == 2,
        forall|r: int, b: int|
            0 <= r < 4 && 0 <= b < 2 && (r, b) != (3int, 0int) ==> #[trigger] hero_rows(feed)[r][b]
                == hero_rows(other)[r][b],
        hero_rows(feed)[3][0].text == hero_rows(other)[3][0].text,
        hero_rows(feed)[3][0].callback_data is None,
        hero_rows(feed)[3][0].url == Some(feed),
        secondary_rows(feed).len() == 2,
        forall|r: int| 0 <= r < 2 ==> (#[trigger] secondary_rows(feed)[r]).len() == 2,
        forall|r: int, b: int|
            0 <= r < 2 && 0 <= b < 2 && (r, b) != (1int, 1int) ==> #[trigger] secondary_rows(
                feed,
            )[r][b] == secondary_rows(other)[r][b],
        secondary_rows(feed)[1][1].text == secondary_rows(other)[1][1].text,
        secondary_rows(feed)[1][1].callback_data is None,
        secondary_rows(feed)[1][1].url == Some(feed),
{
}

/// What stands on the buttons, and the data behind them, whatever the feed.
pub proof fn law_panel_buttons_carry_their_data(feed: Seq<char>)
    ensures
        hero_rows(feed)[0][0].text == "🚀 AutoPulse"@,
        hero_rows(feed)[0][1].text == "🧠 AI Recap"@,
        hero_rows(feed)[1][0].text == "🗞️ News"@,
        hero_rows(feed)[1][1].text == "⚙️ Mission Control"@,
        hero_rows(feed)[2][0].text == "💡 Tips"@,
        hero_rows(feed)[2][1].text == "❤️ Support"@,
        hero_rows(feed)[3][0].text == "🌐 Source Feed"@,
        hero_rows(feed)[3][1].text == "📡 Refresh"@,
        secondary_rows(feed)[0][0].text == "🗞️ News"@,
        secondary_rows(feed)[0][1].text == "📡 Refresh"@,
        secondary_rows(feed)[1][0].text == "⚙️ Settings"@,
        secondary_rows(feed)[1][1].text == "🌐 Feed"@,
        forall|r: int, b: int|
            0 <= r < 4 && 0 <= b < 2 && (r, b) != (3int, 0int) ==> (#[trigger] hero_rows(
                feed,
            )[r][b]).url is None,
        forall|r: int, b: int|
            0 <= r < 2 && 0 <= b < 2 && (r, b) != (1int, 1int) ==> (#[trigger] secondary_rows(
                feed,
            )[r][b]).url is None,
        hero_rows(feed)[0][0].callback_data == Some("auto_pulse"@),
        hero_rows(feed)[0][1].callback_data == Some("ai_recap"@),
        hero_rows(feed)[1][0].callback_data == Some("latest"@),
        hero_rows(feed)[1][1].callback_data == Some("settings"@),
        hero_rows(feed)[2][0].callback_data == Some("tips"@),
        hero_rows(feed)[2][1].callback_data == Some("support"@),
        hero_rows(feed)[3][1].callback_data == Some("refresh"@),
        secondary_rows(feed)[0][0].callback_data == Some("latest"@),
        secondary_rows(feed)[0][1].callback_data == Some("refresh"@),
        secondary_rows(feed)[1][0].callback_data == Some("settings"@),
{
}

/// An address is the host of the bot interface, the token and, behind a slash,
/// the method: each can be read off again.
pub proof fn law_address_holds_token_and_method(bot_token: Seq<char>, method: Seq<char>)
    ensures
        ({
            let url = method_url(bot_token, method);
            let host = "https://api.telegram.org/bot"@;
            let slash = host.len() + bot_token.len();
            &&& url.len() == slash + 1 + method.len()
            &&& url.take(host.len() as int) == host
            &&& url.subrange(host.len() as int, slash as int) == bot_token
            &&& url[slash as int] == '/'
            &&& url.skip(slash + 1int) == method
        }),
{
    let url = method_url(bot_token, method);
    let host = "https://api.telegram.org/bot"@;
    let slash = host.len() + bot_token.len();
    reveal_strlit("/");
    assert(url.take(host.len() as int) =~= host);
    assert(url.subrange(host.len() as int, slash as int) =~= bot_token);
    assert(url.skip(slash + 1int) =~= method);
}

/// A digest without stories is its heading and a blank line; each story is
/// added at the end, and what stands before it stays as it is.
pub proof fn law_digest_grows_by_one_card(
    stories: Seq<StoryView>,
    story: StoryView,
    heading: Seq<char>,
)
    ensures
        curated(Seq::empty(), heading) == heading + seq!['\n', '\n'],
        curated(stories.push(story), heading) == curated(stories, heading) + card(
            stories.len() as int,
            story,
        ),
{
    reveal_strlit("\n\n");
    assert(curated(Seq::empty(), heading) =~= heading + seq!['\n', '\n']);
    assert(stories.push(story).drop_last() =~= stories);
    assert(curated(stories.push(story), heading) =~= curated(stories, heading) + card(
        stories.len() as int,
        story,
    ));
}

/// The first four stories of a digest are numbered and every other one has a
/// bullet. Behind the sign stands the title; the summary and the link each have
/// a line of their own, and a blank line ends the card.
pub proof fn law_card_shows_title_summary_and_link(index: int, story: StoryView)
    requires
        index >= 0,
    ensures
        ({
            let sign = if index == 0 {
                '①'
            } else if index == 1 {
                '②'
            } else if index == 2 {
                '③'
            } else if index == 3 {
                '④'
            } else {
                '•'
            };
            card(index, story) == seq![sign, ' '] + story.title + seq!['\n'] + story.summary + seq![
                '\n',
                '🔗',
                ' ',
            ] + story.link + seq!['\n', '\n']
        }),
{
    reveal_strlit("①");
    reveal_strlit("②");
    reveal_strlit("③");
    reveal_strlit("④");
    reveal_strlit("•");
    reveal_strlit(" ");
    reveal_strlit("\n");
    reveal_strlit("\n🔗 ");
    reveal_strlit("\n\n");
    let sign = marker(index)[0];
    assert(card(index, story) =~= seq![sign, ' '] + story.title + seq!['\n'] + story.summary
        + seq!['\n', '🔗', ' '] + story.link + seq!['\n', '\n']);
}

/// Each request has its own address, with the token of the bot in it.
pub proof fn law_request_addresses(
    ctx: BotContext,
    method: &str,
    address: String,
    updates: String,
    message: String,
    answer: String,
)
    requires
        call_ensures(BotContext::api_url, (&ctx, method), address),
        call_ensures(BotContext::get_updates_url, (&ctx,), updates),
        call_ensures(BotContext::send_message_url, (&ctx,), message),
        call_ensures(BotContext::answer_callback_url, (&ctx,), answer),
    ensures
        ({
            let base = "https://api.telegram.org/bot"@ + ctx.config.bot_token@ + "/"@;
            &&& address@ == base + method@
            &&& updates@ == base + "getUpdates"@
            &&& message@ == base + "sendMessage"@
            &&& answer@ == base + "answerCallbackQuery"@
        }),
{
}

/// A request to send a text holds what it was made of, and so does an answer to
/// a tap, which never asks for an alert.
pub proof fn law_made_requests(
    ctx: BotContext,
    chat_id: i64,
    text: &str,
    panel: Option<InlineKeyboardMarkup>,
    disable_preview: bool,
    message: SendMessagePayload,
    query_id: &str,
    answer: AnswerCallbackPayload,
)
    requires
        call_ensures(
            BotContext::send_message,
            (&ctx, chat_id, text, panel, disable_preview),
            message,
        ),
        call_ensures(BotContext::answer_callback, (&ctx, query_id, text), answer),
    ensures
        message.chat_id == chat_id,
        message.text@ == text@,
        message.parse_mode is None,
        message.reply_markup is Some == panel is Some,
        panel matches Some(markup) ==> (message.reply_markup matches Some(sent)
            && sent.deep_view() == markup.deep_view()),
        message.disable_web_page_preview == disable_preview,
        answer.callback_query_id@ == query_id@,
        answer.text@ == text@,
        !answer.show_alert,
{
}

/// The full panel has four rows of two buttons and the small one two; in each,
/// one button opens the feed of the bot.
pub proof fn law_made_panels(
    ctx: BotContext,
    hero: InlineKeyboardMarkup,
    secondary: InlineKeyboardMarkup,
)
    requires
        call_ensures(BotContext::hero_keyboard, (&ctx,), hero),
        call_ensures(BotContext::secondary_keyboard, (&ctx,), secondary),
    ensures
        hero.deep_view() == hero_rows(ctx.config.feed_url@),
        secondary.deep_view() == secondary_rows(ctx.config.feed_url@),
        hero.inline_keyboard@.len() == 4,
        forall|r: int| 0 <= r < 4 ==> (#[trigger] hero.inline_keyboard@[r])@.len() == 2,
        hero.inline_keyboard@[3]@[0].url matches Some(url) && url@ == ctx.config.feed_url@,
        secondary.inline_keyboard@.len() == 2,
        forall|r: int| 0 <= r < 2 ==> (#[trigger] secondary.inline_keyboard@[r])@.len() == 2,
        secondary.inline_keyboard@[1]@[1].url matches Some(url) && url@ == ctx.config.feed_url@,
{
    assert(hero.deep_view().len() == 4);
    assert(secondary.deep_view().len() == 2);
    assert forall|r: int| 0 <= r < 4 implies (#[trigger] hero.inline_keyboard@[r])@.len() == 2 by {
        assert(hero.deep_view()[r].len() == 2);
    }
    assert forall|r: int| 0 <= r < 2 implies (#[trigger] secondary.inline_keyboard@[r])@.len()
        == 2 by {
        assert(secondary.deep_view()[r].len() == 2);
    }
    assert(hero.deep_view()[3][0] == hero.inline_keyboard@[3]@[0].deep_view());
    assert(secondary.deep_view()[1][1] == secondary.inline_keyboard@[1]@[1].deep_view());
}

/// With one story more, a digest is the digest without it and then the card of
/// that story.
pub proof fn law_made_digests(
    stories: &[Story],
    more: &[Story],
    heading: &str,
    digest: String,
    longer: String,
)
    requires
        more@.len() == stories@.len() + 1,
        more@.drop_last() == stories@,
        call_ensures(BotContext::format_curated, (stories, heading), digest),
        call_ensures(BotContext::format_curated, (more, heading), longer),
    ensures
        stories@.len() == 0 ==> digest@ == heading@ + seq!['\n', '\n'],
        longer@ == digest@ + card(stories@.len() as int, more@.last().deep_view()),
{
    law_digest_grows_by_one_card(stories.deep_view(), more@.last().deep_view(), heading@);
    assert(more.deep_view() =~= stories.deep_view().push(more@.last().deep_view()));
    if stories@.len() == 0 {
        assert(stories.deep_view() =~= Seq::<StoryView>::empty());
    }
}

} // verus!
