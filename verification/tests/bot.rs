use daily_pulse::bot::{Action, Bot, BotError, RunAction, RunEvent};
use daily_pulse::config::Config;
use daily_pulse::context::BotContext;
use daily_pulse::story::Story;
use daily_pulse::telegram::{
    CallbackQuery, Chat, InlineKeyboardButton, InlineKeyboardMarkup, Message, SendMessagePayload,
    Update,
};

fn bot() -> Bot {
    Bot::new(Config::from_env(
        "SECRET".to_string(),
        Some("https://feed".to_string()),
        Some("12".to_string()),
        None,
        None,
    ))
}

fn message(chat: i64, text: Option<&str>) -> Message {
    Message { message_id: 1, chat: Chat { id: chat }, text: text.map(str::to_string) }
}

fn callback(chat: Option<i64>, data: Option<&str>) -> CallbackQuery {
    CallbackQuery {
        id: "query".to_string(),
        data: data.map(str::to_string),
        message: chat.map(|chat| message(chat, None)),
    }
}

fn update(id: i64, message: Option<Message>, callback_query: Option<CallbackQuery>) -> Update {
    Update { update_id: id, message, callback_query }
}

fn story(n: usize) -> Story {
    Story {
        id: format!("id{n}"),
        title: format!("Title {n}"),
        summary: format!("Summary {n}."),
        link: format!("https://story/{n}"),
    }
}

/// The buttons of a panel: the text, and the data or the address.
fn buttons(markup: &InlineKeyboardMarkup) -> Vec<Vec<(String, String)>> {
    markup
        .inline_keyboard
        .iter()
        .map(|row| {
            row.iter()
                .map(|button| match (&button.callback_data, &button.url) {
                    (Some(data), None) => (button.text.clone(), data.clone()),
                    (None, Some(url)) => (button.text.clone(), format!("url:{url}")),
                    _ => panic!("a button does one thing"),
                })
                .collect()
        })
        .collect()
}

fn pairs(rows: &[&[(&str, &str)]]) -> Vec<Vec<(String, String)>> {
    rows.iter()
        .map(|row| row.iter().map(|(a, b)| (a.to_string(), b.to_string())).collect())
        .collect()
}

fn hero() -> Vec<Vec<(String, String)>> {
    pairs(&[
        &[("🚀 AutoPulse", "auto_pulse"), ("🧠 AI Recap", "ai_recap")],
        &[("🗞️ News", "latest"), ("⚙️ Mission Control", "settings")],
        &[("💡 Tips", "tips"), ("❤️ Support", "support")],
        &[("🌐 Source Feed", "url:https://feed"), ("📡 Refresh", "refresh")],
    ])
}

fn secondary() -> Vec<Vec<(String, String)>> {
    pairs(&[
        &[("🗞️ News", "latest"), ("📡 Refresh", "refresh")],
        &[("⚙️ Settings", "settings"), ("🌐 Feed", "url:https://feed")],
    ])
}

fn assert_sends(
    payload: &SendMessagePayload,
    chat: i64,
    text: &str,
    panel: Vec<Vec<(String, String)>>,
    disable_preview: bool,
) {
    assert_eq!(payload.chat_id, chat);
    assert_eq!(payload.text, text);
    assert_eq!(payload.parse_mode, None);
    assert_eq!(buttons(payload.reply_markup.as_ref().unwrap()), panel);
    assert_eq!(payload.disable_web_page_preview, disable_preview);
}

fn sent(action: &Action) -> &SendMessagePayload {
    match action {
        Action::Send(payload) => payload,
        other => panic!("not a message: {other:?}"),
    }
}

const WELCOME: &str = "🛫 Daily Pulse HUD\n\nAviation-inspired mission console for your AI news bot:\n• AutoPulse schedules clean drops\n• AI Recap condenses every story\n• Live cards keep channels vibrant\n\nChoose a flight plan:";

const MISSION: &str = "⚙️ Mission Control\n• Source feed: https://feed\n• Headlines per flight: 12\n• Commands: /start, /panel, /latest, /help\n\nInvite me to your channel as admin and tap AutoPulse to broadcast.";

#[test]
fn buttons_send_data_or_open_links() {
    let button = InlineKeyboardButton::callback("Text", "data");
    assert_eq!(button.text, "Text");
    assert_eq!(button.callback_data, Some("data".to_string()));
    assert_eq!(button.url, None);
    let button = InlineKeyboardButton::url("Text", "https://x");
    assert_eq!(button.text, "Text");
    assert_eq!(button.callback_data, None);
    assert_eq!(button.url, Some("https://x".to_string()));
}

#[test]
fn addresses_hold_token_and_method() {
    assert_eq!(bot().api_url("getUpdates"), "https://api.telegram.org/botSECRET/getUpdates");
    let ctx = bot().ctx;
    assert_eq!(ctx.api_url("m"), "https://api.telegram.org/botSECRET/m");
    assert_eq!(ctx.get_updates_url(), "https://api.telegram.org/botSECRET/getUpdates");
    assert_eq!(ctx.send_message_url(), "https://api.telegram.org/botSECRET/sendMessage");
    assert_eq!(
        ctx.answer_callback_url(),
        "https://api.telegram.org/botSECRET/answerCallbackQuery"
    );
}

#[test]
fn panels_are_laid_out() {
    assert_eq!(buttons(&bot().ctx.hero_keyboard()), hero());
    assert_eq!(buttons(&bot().ctx.secondary_keyboard()), secondary());
}

#[test]
fn requests_are_built() {
    let ctx = bot().ctx;
    let payload = ctx.send_message(3, "hi", None, true);
    assert_eq!(payload.chat_id, 3);
    assert_eq!(payload.text, "hi");
    assert_eq!(payload.parse_mode, None);
    assert!(payload.reply_markup.is_none());
    assert!(payload.disable_web_page_preview);
    let answer = ctx.answer_callback("q", "ok");
    assert_eq!(answer.callback_query_id, "q");
    assert_eq!(answer.text, "ok");
    assert!(!answer.show_alert);
}

#[test]
fn digests_number_their_stories() {
    let stories: Vec<Story> = (1..=6).map(story).collect();
    assert_eq!(BotContext::format_curated(&[], "Head"), "Head\n\n");
    assert_eq!(
        BotContext::format_curated(&stories[..1], "Head"),
        "Head\n\n① Title 1\nSummary 1.\n🔗 https://story/1\n\n"
    );
    let text = BotContext::format_curated(&stories, "Head");
    let markers: Vec<char> =
        text.lines().filter(|line| line.contains("Title")).filter_map(|l| l.chars().next()).collect();
    assert_eq!(markers, vec!['①', '②', '③', '④', '•', '•']);
    assert!(text.ends_with("• Title 6\nSummary 6.\n🔗 https://story/6\n\n"));
}

#[test]
fn commands_are_told_by_their_beginning() {
    let bot = bot();
    for text in ["/start", "/start@bot", "/startle", "/panel"] {
        let actions = bot.handle_message(message(9, Some(text)));
        assert_sends(sent(&actions[1]), 9, WELCOME, hero(), true);
    }
    let actions = bot.handle_message(message(9, Some("/latest news")));
    assert!(matches!(actions[1], Action::SendBrief(9)));
    let actions = bot.handle_message(message(9, Some("/help")));
    assert_sends(sent(&actions[1]), 9, MISSION, secondary(), true);
    for text in [None, Some(""), Some("hello"), Some(" /start"), Some("/Start")] {
        let actions = bot.handle_message(message(9, text));
        assert_sends(
            sent(&actions[1]),
            9,
            "🛰️ Command not recognized. Tap a panel below to steer the bot.",
            hero(),
            true,
        );
    }
}

#[test]
fn every_message_subscribes_its_chat_first() {
    for text in [None, Some("/start"), Some("/latest"), Some("?")] {
        let actions = bot().handle_message(message(-100, text));
        assert_eq!(actions.len(), 2);
        assert!(matches!(actions[0], Action::Subscribe(-100)));
    }
}

#[test]
fn buttons_are_answered_with_their_notice() {
    let bot = bot();
    for (data, notice) in [
        (Some("auto_pulse"), "AutoPulse armed ⚡"),
        (Some("ai_recap"), "Rendering recap ✨"),
        (Some("latest"), "Feed refreshed 🔄"),
        (Some("refresh"), "Feed refreshed 🔄"),
        (Some("settings"), "Mission control opened ⚙️"),
        (Some("tips"), "Noted ✅"),
        (Some("support"), "Appreciated 🙏"),
        (Some("other"), "Roger that"),
        (Some(""), "Roger that"),
        (None, "Roger that"),
    ] {
        let actions = bot.handle_callback(callback(Some(4), data)).unwrap();
        assert!(matches!(actions[0], Action::Subscribe(4)));
        match actions.last().unwrap() {
            Action::Answer(answer) => {
                assert_eq!(answer.callback_query_id, "query");
                assert_eq!(answer.text, notice);
                assert!(!answer.show_alert);
            }
            other => panic!("not an answer: {other:?}"),
        }
        let answers = actions.iter().filter(|a| matches!(a, Action::Answer(_))).count();
        assert_eq!(answers, 1);
    }
}

#[test]
fn buttons_send_what_they_promise() {
    let bot = bot();
    let actions = |data| bot.handle_callback(callback(Some(4), Some(data))).unwrap();
    assert_sends(
        sent(&actions("auto_pulse")[1]),
        4,
        "🚀 AutoPulse armed. The bot will fetch the freshest tech bursts and prep them for launch. Tap ‘Refresh’ anytime for a manual sweep.",
        secondary(),
        true,
    );
    for data in ["ai_recap", "latest", "refresh"] {
        assert!(matches!(actions(data)[1], Action::SendBrief(4)));
        assert_eq!(actions(data).len(), 3);
    }
    assert_sends(sent(&actions("settings")[1]), 4, MISSION, secondary(), true);
    assert_sends(
        sent(&actions("tips")[1]),
        4,
        "💡 Tip: Add this bot to any channel as admin and tap AutoPulse for autonomous drops.",
        secondary(),
        true,
    );
    assert_sends(
        sent(&actions("support")[1]),
        4,
        "❤️ Thanks for flying with Daily Pulse. Share feedback via @DailyPulseHQ.",
        secondary(),
        true,
    );
    assert_eq!(actions("other").len(), 2);
}

#[test]
fn every_panel_button_does_something() {
    let bot = bot();
    for row in hero().into_iter().chain(secondary()) {
        for (_, data) in row {
            if !data.starts_with("url:") {
                let actions = bot.handle_callback(callback(Some(1), Some(&data))).unwrap();
                assert_eq!(actions.len(), 3, "{data}");
            }
        }
    }
}

#[test]
fn a_button_without_a_chat_is_an_error() {
    let error = bot().handle_callback(callback(None, Some("tips"))).unwrap_err();
    assert_eq!(error, BotError::MissingChat);
    assert_eq!(error.message(), "callback query missing chat context");
}

#[test]
fn a_brief_lists_the_stories_or_says_there_are_none() {
    let bot = bot();
    assert_sends(
        &bot.send_curated_brief(8, &[]),
        8,
        "🌫️ Radar quiet. No fresh stories from the feed yet.",
        secondary(),
        true,
    );
    assert_sends(
        &bot.send_curated_brief(8, &[story(1), story(2)]),
        8,
        "🧠 AI Recap\n\n① Title 1\nSummary 1.\n🔗 https://story/1\n\n② Title 2\nSummary 2.\n🔗 https://story/2\n\n",
        secondary(),
        false,
    );
}

#[test]
fn single_messages_are_built() {
    let bot = bot();
    assert_sends(&bot.send_welcome(2), 2, WELCOME, hero(), true);
    assert_sends(&bot.send_mission_brief(2), 2, MISSION, secondary(), true);
    assert!(bot.send_auto_pulse(2).text.starts_with("🚀 AutoPulse armed."));
}

#[test]
fn polling_starts_at_zero_and_pauses_when_nothing_came() {
    let mut bot = bot();
    assert!(matches!(bot.run(RunEvent::Started), RunAction::Poll { offset: 0, timeout: 25 }));
    assert!(matches!(bot.run(RunEvent::Updates(vec![])), RunAction::Sleep { millis: 800 }));
    assert!(matches!(bot.run(RunEvent::Slept), RunAction::Poll { offset: 0, timeout: 25 }));
}

#[test]
fn updates_are_answered_in_order_before_the_next_poll() {
    let mut bot = bot();
    let updates = vec![
        update(10, Some(message(1, Some("a"))), None),
        update(11, None, None),
        update(12, Some(message(2, Some("b"))), Some(callback(Some(3), Some("tips")))),
        update(20, None, None),
    ];
    match bot.run(RunEvent::Updates(updates)) {
        RunAction::HandleMessage(message) => assert_eq!(message.chat.id, 1),
        other => panic!("{other:?}"),
    }
    assert_eq!(bot.offset, 11);
    match bot.run(RunEvent::Handled) {
        RunAction::HandleCallback(callback) => {
            assert_eq!(callback.message.unwrap().chat.id, 3)
        }
        other => panic!("{other:?}"),
    }
    assert_eq!(bot.offset, 13);
    assert!(matches!(bot.run(RunEvent::Handled), RunAction::Poll { offset: 21, timeout: 25 }));
    assert!(bot.pending.is_empty());
}

#[test]
fn updates_without_content_are_skipped() {
    let mut bot = bot();
    let updates = vec![update(5, None, None), update(6, None, None)];
    assert!(matches!(
        bot.run(RunEvent::Updates(updates)),
        RunAction::Poll { offset: 7, timeout: 25 }
    ));
}

#[test]
fn a_failure_stops_the_loop() {
    let mut bot = bot();
    assert!(matches!(bot.run(RunEvent::Failed), RunAction::Stop));
    assert_eq!(bot.offset, 0);
}
