//! How the bot answers what it receives.
use vstd::prelude::*;
use vstd::string::*;

use crate::config::{Config, ConfigView};
use crate::context::{
    curated, hero_rows, message_with, method_url, secondary_rows, BotContext,
};
use crate::story::{Story, StoryView};
use crate::telegram::{
    AnswerCallbackPayload, AnswerView, ButtonView, CallbackQuery, Message, MessageView, SendMessagePayload,
    Update,
};
use crate::text::{decimal, same_text, starts_with, to_decimal};

verus! {

pub const WELCOME: &'static str = "🛫 Daily Pulse HUD\n\nAviation-inspired mission console for your AI news bot:\n• AutoPulse schedules clean drops\n• AI Recap condenses every story\n• Live cards keep channels vibrant\n\nChoose a flight plan:";

pub const AUTO_PULSE: &'static str = "🚀 AutoPulse armed. The bot will fetch the freshest tech bursts and prep them for launch. Tap ‘Refresh’ anytime for a manual sweep.";

pub const UNRECOGNIZED: &'static str = "🛰️ Command not recognized. Tap a panel below to steer the bot.";

pub const RADAR_QUIET: &'static str = "🌫️ Radar quiet. No fresh stories from the feed yet.";

pub const RECAP_HEADING: &'static str = "🧠 AI Recap";

pub const TIP: &'static str = "💡 Tip: Add this bot to any channel as admin and tap AutoPulse for autonomous drops.";

pub const SUPPORT: &'static str = "❤️ Thanks for flying with Daily Pulse. Share feedback via @DailyPulseHQ.";

/// The seconds that one poll waits for updates.
pub const POLL_TIMEOUT_SECS: i64 = 25;

/// The pause after a poll that brought nothing.
pub const IDLE_PAUSE_MILLIS: u64 = 800;

/// One thing that answering an update asks for. [`Bot::reply`] carries such
/// actions out in order, up to the first that fails.
#[derive(Debug)]
pub enum Action {
    /// Subscribe a chat.
    Subscribe(i64),
    /// Send a message.
    Send(SendMessagePayload),
    /// Fetch the headlines and send [`Bot::send_curated_brief`] to a chat.
    SendBrief(i64),
    /// Answer a tapped button.
    Answer(AnswerCallbackPayload),
}

/// What an [`Action`] holds.
pub enum ActionView {
    Subscribe(i64),
    Send(MessageView),
    SendBrief(i64),
    Answer(AnswerView),
}

impl DeepView for Action {
    type V = ActionView;

    open spec fn deep_view(&self) -> ActionView {
        match self {
            Action::Subscribe(chat_id) => ActionView::Subscribe(*chat_id),
            Action::Send(payload) => ActionView::Send(payload.deep_view()),
            Action::SendBrief(chat_id) => ActionView::SendBrief(*chat_id),
            Action::Answer(payload) => ActionView::Answer(payload.deep_view()),
        }
    }
}

/// Why an update cannot be answered.
#[derive(Debug, Clone, Copy, PartialEq, Eq)]
pub enum BotError {
    /// A tapped button came without the message that it stands under.
    MissingChat,
}

impl BotError {
    /// The error in words.
    pub fn message(&self) -> (text: String)
        ensures
            text@ == "callback query missing chat context"@,
    {
        "callback query missing chat context".to_string()
    }
}

/// The greeting.
pub open spec fn welcome_message(config: ConfigView, chat_id: i64) -> MessageView {
    message_with(chat_id, WELCOME@, Some(hero_rows(config.feed_url)), true)
}

/// The notice that AutoPulse is on.
pub open spec fn auto_pulse_message(config: ConfigView, chat_id: i64) -> MessageView {
    message_with(chat_id, AUTO_PULSE@, Some(secondary_rows(config.feed_url)), true)
}

/// What the bot is set to and which commands it takes.
pub open spec fn mission_text(config: ConfigView) -> Seq<char> {
    "⚙️ Mission Control\n• Source feed: "@ + config.feed_url + "\n• Headlines per flight: "@
        + decimal(config.max_posts as nat)
        + "\n• Commands: /start, /panel, /latest, /help\n\nInvite me to your channel as admin and tap AutoPulse to broadcast."@
}

/// The overview of the settings.
pub open spec fn mission_message(config: ConfigView, chat_id: i64) -> MessageView {
    message_with(chat_id, mission_text(config), Some(secondary_rows(config.feed_url)), true)
}

/// The recap of the newest stories, or the notice that there are none.
pub open spec fn brief_message(
    config: ConfigView,
    chat_id: i64,
    stories: Seq<StoryView>,
) -> MessageView {
    if stories.len() == 0 {
        message_with(chat_id, RADAR_QUIET@, Some(secondary_rows(config.feed_url)), true)
    } else {
        message_with(
            chat_id,
            curated(stories, RECAP_HEADING@),
            Some(secondary_rows(config.feed_url)),
            false,
        )
    }
}

/// How a text is replied to: by the command that it begins with.
pub open spec fn text_reply(config: ConfigView, chat_id: i64, text: Seq<char>) -> ActionView {
    if "/start"@.is_prefix_of(text) {
        ActionView::Send(welcome_message(config, chat_id))
    } else if "/latest"@.is_prefix_of(text) {
        ActionView::SendBrief(chat_id)
    } else if "/panel"@.is_prefix_of(text) {
        ActionView::Send(welcome_message(config, chat_id))
    } else if "/help"@.is_prefix_of(text) {
        ActionView::Send(mission_message(config, chat_id))
    } else {
        ActionView::Send(
            message_with(chat_id, UNRECOGNIZED@, Some(hero_rows(config.feed_url)), true),
        )
    }
}

/// What a message leads to: its chat is subscribed and gets a reply.
pub open spec fn message_plan(config: ConfigView, message: Message) -> Seq<ActionView> {
    let text = match message.text {
        Some(text) => text@,
        None => Seq::<char>::empty(),
    };
    seq![
        ActionView::Subscribe(message.chat.id),
        text_reply(config, message.chat.id, text),
    ]
}

/// What the button with `data` sends to its chat.
pub open spec fn button_reply(config: ConfigView, chat_id: i64, data: Seq<char>) -> Option<
    ActionView,
> {
    if data == "auto_pulse"@ {
        Some(ActionView::Send(auto_pulse_message(config, chat_id)))
    } else if data == "ai_recap"@ || data == "latest"@ || data == "refresh"@ {
        Some(ActionView::SendBrief(chat_id))
    } else if data == "settings"@ {
        Some(ActionView::Send(mission_message(config, chat_id)))
    } else if data == "tips"@ {
        Some(
            ActionView::Send(
                message_with(chat_id, TIP@, Some(secondary_rows(config.feed_url)), true),
            ),
        )
    } else if data == "support"@ {
        Some(
            ActionView::Send(
                message_with(chat_id, SUPPORT@, Some(secondary_rows(config.feed_url)), true),
            ),
        )
    } else {
        None
    }
}

/// The notice that answers the button with `data`.
pub open spec fn button_notice(data: Seq<char>) -> Seq<char> {
    if data == "auto_pulse"@ {
        "AutoPulse armed ⚡"@
    } else if data == "ai_recap"@ {
        "Rendering recap ✨"@
    } else if data == "latest"@ || data == "refresh"@ {
        "Feed refreshed 🔄"@
    } else if data == "settings"@ {
        "Mission control opened ⚙️"@
    } else if data == "tips"@ {
        "Noted ✅"@
    } else if data == "support"@ {
        "Appreciated 🙏"@
    } else {
        "Roger that"@
    }
}

/// What a tapped button leads to, in a chat: the chat is subscribed, gets what
/// the button sends, and the tap is answered.
pub open spec fn callback_plan(
    config: ConfigView,
    chat_id: i64,
    query_id: Seq<char>,
    data: Seq<char>,
) -> Seq<ActionView> {
    let answer = ActionView::Answer(
        AnswerView { callback_query_id: query_id, text: button_notice(data), show_alert: false },
    );
    match button_reply(config, chat_id, data) {
        Some(reply) => seq![ActionView::Subscribe(chat_id), reply, answer],
        None => seq![ActionView::Subscribe(chat_id), answer],
    }
}

/// The data of a tapped button; empty where it carries none.
pub open spec fn callback_data(callback: CallbackQuery) -> Seq<char> {
    match callback.data {
        Some(data) => data@,
        None => Seq::<char>::empty(),
    }
}

/// What the polling loop is told.
#[derive(Debug)]
pub enum RunEvent {
    /// The loop begins.
    Started,
    /// A poll brought these updates.
    Updates(Vec<Update>),
    /// A pause is over.
    Slept,
    /// An update was answered.
    Handled,
    /// A poll or an answer failed.
    Failed,
}

/// What the polling loop does next.
#[derive(Debug)]
pub enum RunAction {
    /// Ask for the updates from `offset` on.
    Poll { offset: i64, timeout: i64 },
    /// Pause.
    Sleep { millis: u64 },
    /// Answer a tapped button.
    HandleCallback(CallbackQuery),
    /// Answer a message.
    HandleMessage(Message),
    /// End the loop.
    Stop,
}

/// An update asks for an answer where it holds a tapped button or, failing
/// that, a message.
pub open spec fn answer_to(update: Update) -> Option<RunAction> {
    match (update.callback_query, update.message) {
        (Some(callback), _) => Some(RunAction::HandleCallback(callback)),
        (None, Some(message)) => Some(RunAction::HandleMessage(message)),
        (None, None) => None,
    }
}

/// Works off `pending` up to the next update that asks for an answer: the
/// offset reached, what is left, and the next action.
pub open spec fn next_action(offset: i64, pending: Seq<Update>) -> (i64, Seq<Update>, RunAction)
    decreases pending.len(),
{
    if pending.len() == 0 {
        (offset, pending, RunAction::Poll { offset, timeout: POLL_TIMEOUT_SECS })
    } else {
        let reached = (pending[0].update_id + 1) as i64;
        match answer_to(pending[0]) {
            Some(action) => (reached, pending.skip(1), action),
            None => next_action(reached, pending.skip(1)),
        }
    }
}

/// Every update leaves room for the offset behind it.
pub open spec fn ids_in_range(updates: Seq<Update>) -> bool {
    forall|i: int| 0 <= i < updates.len() ==> (#[trigger] updates[i]).update_id < i64::MAX
}

/// The bot: its settings, the offset of the next poll, and the updates that
/// were received and not yet worked off.
#[derive(Debug)]
pub struct Bot {
    pub ctx: BotContext,
    pub offset: i64,
    pub pending: Vec<Update>,
}

impl Bot {
    pub open spec fn well_formed(&self) -> bool {
        ids_in_range(self.pending@)
    }

    /// A bot that has received nothing yet.
    pub fn new(config: Config) -> (bot: Bot)
        ensures
            bot.well_formed(),
            bot.ctx.config == config,
            bot.offset == 0,
            bot.pending@ == Seq::<Update>::empty(),
    {
        Bot { ctx: BotContext { config }, offset: 0, pending: Vec::new() }
    }

    /// The address at which `method` of the bot interface is called.
    pub fn api_url(&self, method: &str) -> (url: String)
        ensures
            url@ == method_url(self.ctx.config.bot_token@, method@),
    {
        self.ctx.api_url(method)
    }

    fn advance(&mut self) -> (action: RunAction)
        requires
            old(self).well_formed(),
        ensures
            final(self).well_formed(),
            final(self).ctx == old(self).ctx,
            (final(self).offset, final(self).pending@, action) == next_action(
                old(self).offset,
                old(self).pending@,
            ),
    {
        while self.pending.len() > 0
            invariant
                self.well_formed(),
                self.ctx == old(self).ctx,
                next_action(self.offset, self.pending@) == next_action(
                    old(self).offset,
                    old(self).pending@,
                ),
            decreases self.pending.len(),
        {
            let update = self.pending.remove(0);
            self.offset = update.update_id + 1;
            if let Some(callback) = update.callback_query {
                return RunAction::HandleCallback(callback);
            } else if let Some(message) = update.message {
                return RunAction::HandleMessage(message);
            }
        }
        RunAction::Poll { offset: self.offset, timeout: POLL_TIMEOUT_SECS }
    }

    /// Drives the polling loop: takes what happened and says what to do next.
    pub fn run(&mut self, event: RunEvent) -> (action: RunAction)
        requires
            old(self).well_formed(),
            event matches RunEvent::Updates(updates) ==> ids_in_range(updates@),
        ensures
            final(self).well_formed(),
            final(self).ctx == old(self).ctx,
            match event {
                RunEvent::Updates(updates) => if updates.len() == 0 {
                    &&& final(self).offset == old(self).offset
                    &&& final(self).pending@ == old(self).pending@
                    &&& action == (RunAction::Sleep { millis: IDLE_PAUSE_MILLIS })
                } else {
                    (final(self).offset, final(self).pending@, action) == next_action(
                        old(self).offset,
                        old(self).pending@ + updates@,
                    )
                },
                RunEvent::Started | RunEvent::Slept | RunEvent::Handled => (
                    final(self).offset,
                    final(self).pending@,
                    action,
                ) == next_action(old(self).offset, old(self).pending@),
                RunEvent::Failed => {
                    &&& final(self).offset == old(self).offset
                    &&& final(self).pending@ == old(self).pending@
                    &&& action == RunAction::Stop
                },
            },
    {
        match event {
            RunEvent::Updates(mut updates) => {
                if updates.len() == 0 {
                    return RunAction::Sleep { millis: IDLE_PAUSE_MILLIS };
                }
                self.pending.append(&mut updates);
                self.advance()
            },
            RunEvent::Started | RunEvent::Slept | RunEvent::Handled => self.advance(),
            RunEvent::Failed => RunAction::Stop,
        }
    }

    /// The greeting with the full panel.
    pub fn send_welcome(&self, chat_id: i64) -> (payload: SendMessagePayload)
        ensures
            payload.deep_view() == welcome_message(self.ctx.config.deep_view(), chat_id),
    {
        self.ctx.send_message(chat_id, WELCOME, Some(self.ctx.hero_keyboard()), true)
    }

    /// The notice that AutoPulse is on.
    pub fn send_auto_pulse(&self, chat_id: i64) -> (payload: SendMessagePayload)
        ensures
            payload.deep_view() == auto_pulse_message(self.ctx.config.deep_view(), chat_id),
    {
        self.ctx.send_message(chat_id, AUTO_PULSE, Some(self.ctx.secondary_keyboard()), true)
    }

    /// The recap of the newest stories, or the notice that there are none.
    pub fn send_curated_brief(&self, chat_id: i64, stories: &[Story]) -> (payload:
        SendMessagePayload)
        ensures
            payload.deep_view() == brief_message(
                self.ctx.config.deep_view(),
                chat_id,
                stories.deep_view(),
            ),
    {
        if stories.len() == 0 {
            return self.ctx.send_message(
                chat_id,
                RADAR_QUIET,
                Some(self.ctx.secondary_keyboard()),
                true,
            );
        }
        let text = BotContext::format_curated(stories, RECAP_HEADING);
        self.ctx.send_message(chat_id, text.as_str(), Some(self.ctx.secondary_keyboard()), false)
    }

    /// The overview of the settings.
    pub fn send_mission_brief(&self, chat_id: i64) -> (payload: SendMessagePayload)
        ensures
            payload.deep_view() == mission_message(self.ctx.config.deep_view(), chat_id),
    {
        let mut brief = "⚙️ Mission Control\n• Source feed: ".to_string();
        brief.append(self.ctx.config.feed_url.as_str());
        brief.append("\n• Headlines per flight: ");
        brief.append(to_decimal(self.ctx.config.max_posts as u64).as_str());
        brief.append(
            "\n• Commands: /start, /panel, /latest, /help\n\nInvite me to your channel as admin and tap AutoPulse to broadcast.",
        );
        self.ctx.send_message(chat_id, brief.as_str(), Some(self.ctx.secondary_keyboard()), true)
    }

    /// What a message leads to.
    pub fn handle_message(&self, message: Message) -> (actions: Vec<Action>)
        ensures
            actions.deep_view() == message_plan(self.ctx.config.deep_view(), message),
    {
        let chat_id = message.chat.id;
        let text = match message.text {
            Some(text) => text,
            None => String::new(),
        };
        let reply = if starts_with(text.as_str(), "/start") {
            Action::Send(self.send_welcome(chat_id))
        } else if starts_with(text.as_str(), "/latest") {
            Action::SendBrief(chat_id)
        } else if starts_with(text.as_str(), "/panel") {
            Action::Send(self.send_welcome(chat_id))
        } else if starts_with(text.as_str(), "/help") {
            Action::Send(self.send_mission_brief(chat_id))
        } else {
            Action::Send(
                self.ctx.send_message(
                    chat_id,
                    UNRECOGNIZED,
                    Some(self.ctx.hero_keyboard()),
                    true,
                ),
            )
        };
        vec![Action::Subscribe(chat_id), reply]
    }

    /// What a tapped button leads to.
    pub fn handle_callback(&self, callback: CallbackQuery) -> (result: Result<
        Vec<Action>,
        BotError,
    >)
        ensures
            match callback.message {
                Some(message) => result matches Ok(actions) && actions.deep_view() == callback_plan(
                    self.ctx.config.deep_view(),
                    message.chat.id,
                    callback.id@,
                    callback_data(callback),
                ),
                None => result == Err::<Vec<Action>, BotError>(BotError::MissingChat),
            },
    {
        let chat_id = match &callback.message {
            Some(message) => message.chat.id,
            None => {
                return Err(BotError::MissingChat);
            },
        };
        let data: &str = match &callback.data {
            Some(data) => data.as_str(),
            None => "",
        };
        proof {
            reveal_strlit("");
            assert(data@ =~= callback_data(callback));
        }
        let mut actions: Vec<Action> = vec![Action::Subscribe(chat_id)];
        let notice: &str = if same_text(data, "auto_pulse") {
            actions.push(Action::Send(self.send_auto_pulse(chat_id)));
            "AutoPulse armed ⚡"
        } else if same_text(data, "ai_recap") {
            actions.push(Action::SendBrief(chat_id));
            "Rendering recap ✨"
        } else if same_text(data, "latest") || same_text(data, "refresh") {
            actions.push(Action::SendBrief(chat_id));
            "Feed refreshed 🔄"
        } else if same_text(data, "settings") {
            actions.push(Action::Send(self.send_mission_brief(chat_id)));
            "Mission control opened ⚙️"
        } else if same_text(data, "tips") {
            actions.push(
                Action::Send(
                    self.ctx.send_message(
                        chat_id,
                        TIP,
                        Some(self.ctx.secondary_keyboard()),
                        true,
                    ),
                ),
            );
            "Noted ✅"
        } else if same_text(data, "support") {
            actions.push(
                Action::Send(
                    self.ctx.send_message(
                        chat_id,
                        SUPPORT,
                        Some(self.ctx.secondary_keyboard()),
                        true,
                    ),
                ),
            );
            "Appreciated 🙏"
        } else {
            "Roger that"
        };
        actions.push(Action::Answer(self.ctx.answer_callback(callback.id.as_str(), notice)));
        Ok(actions)
    }
}

/// The offset behind the last of `pending`, or `offset` where nothing is
/// pending.
pub open spec fn offset_behind(offset: i64, pending: Seq<Update>) -> int {
    if pending.len() == 0 {
        offset as int
    } else {
        pending.last().update_id + 1
    }
}

/// The answers that `pending` asks for, in order.
pub open spec fn answers_to(pending: Seq<Update>) -> Seq<RunAction>
    decreases pending.len(),
{
    if pending.len() == 0 {
        Seq::empty()
    } else {
        match answer_to(pending[0]) {
            Some(action) => seq![action] + answers_to(pending.skip(1)),
            None => answers_to(pending.skip(1)),
        }
    }
}

/// Working off updates keeps the offset that they lead to, and the next poll
/// comes when none is left and asks for what is behind the last of them.
pub proof fn law_polls_continue_behind_the_last_update(offset: i64, pending: Seq<Update>)
    requires
        ids_in_range(pending),
    ensures
        ({
            let (reached, left, action) = next_action(offset, pending);
            &&& offset_behind(reached, left) == offset_behind(offset, pending)
            &&& action matches RunAction::Poll { offset: asked, timeout: _ } ==> {
                &&& left.len() == 0
                &&& asked == offset_behind(offset, pending)
            }
        }),
    decreases pending.len(),
{
    if pending.len() > 0 {
        law_polls_continue_behind_the_last_update(
            (pending[0].update_id + 1) as i64,
            pending.skip(1),
        );
    }
}

/// Every update that asks for an answer gets it, once and in order, before the
/// next poll.
pub proof fn law_updates_are_answered_in_order(offset: i64, pending: Seq<Update>)
    ensures
        ({
            let (_, left, action) = next_action(offset, pending);
            if action is Poll {
                answers_to(pending).len() == 0
            } else {
                answers_to(pending) == seq![action] + answers_to(left)
            }
        }),
    decreases pending.len(),
{
    if pending.len() > 0 {
        law_updates_are_answered_in_order(
            (pending[0].update_id + 1) as i64,
            pending.skip(1),
        );
    }
}

/// Whoever writes to the bot is subscribed before anything is sent, and gets
/// exactly one reply.
pub proof fn law_message_subscribes_first(config: ConfigView, message: Message)
    ensures
        message_plan(config, message).len() == 2,
        message_plan(config, message)[0] == ActionView::Subscribe(message.chat.id),
        message_plan(config, message)[1] matches ActionView::Send(reply) ==> reply.chat_id
            == message.chat.id,
        message_plan(config, message)[1] matches ActionView::SendBrief(chat_id) ==> chat_id
            == message.chat.id,
        message_plan(config, message)[1] is Send || message_plan(config, message)[1] is SendBrief,
{
}

/// A tapped button subscribes its chat first and is answered last, once,
/// whatever data it carries.
pub proof fn law_callback_is_answered_last(
    config: ConfigView,
    chat_id: i64,
    query_id: Seq<char>,
    data: Seq<char>,
)
    ensures
        ({
            let plan = callback_plan(config, chat_id, query_id, data);
            &&& plan.len() >= 2
            &&& plan[0] == ActionView::Subscribe(chat_id)
            &&& plan.last() matches ActionView::Answer(answer)
            &&& answer.callback_query_id == query_id
            &&& forall|i: int| 0 <= i < plan.len() - 1 ==> !(#[trigger] plan[i] is Answer)
        }),
{
}

/// Whether a button opens a link, or carries data on which the bot sends
/// something to the chat.
pub open spec fn button_is_live(config: ConfigView, chat_id: i64, button: ButtonView) -> bool {
    match button.callback_data {
        Some(data) => button_reply(config, chat_id, data) is Some,
        None => button.url is Some,
    }
}

/// Every button of the two panels either opens a link or is one that the bot
/// reacts to.
pub proof fn law_panel_buttons_are_live(config: ConfigView, chat_id: i64)
    ensures
        forall|r: int, b: int|
            0 <= r < hero_rows(config.feed_url).len() && 0 <= b < hero_rows(
                config.feed_url,
            )[r].len() ==> button_is_live(
                config,
                chat_id,
                #[trigger] hero_rows(config.feed_url)[r][b],
            ),
        forall|r: int, b: int|
            0 <= r < secondary_rows(config.feed_url).len() && 0 <= b < secondary_rows(
                config.feed_url,
            )[r].len() ==> button_is_live(
                config,
                chat_id,
                #[trigger] secondary_rows(config.feed_url)[r][b],
            ),
{
}

/// The greeting and the overview of the settings go to the chat that asked,
/// without a markup language and without previews: the greeting over the full
/// panel, the overview over the small one. So does the notice on AutoPulse.
pub proof fn law_fixed_messages(config: ConfigView, chat_id: i64)
    ensures
        welcome_message(config, chat_id) == (MessageView {
            chat_id,
            text: WELCOME@,
            parse_mode: None,
            reply_markup: Some(hero_rows(config.feed_url)),
            disable_web_page_preview: true,
        }),
        auto_pulse_message(config, chat_id) == (MessageView {
            chat_id,
            text: AUTO_PULSE@,
            parse_mode: None,
            reply_markup: Some(secondary_rows(config.feed_url)),
            disable_web_page_preview: true,
        }),
        mission_message(config, chat_id) == (MessageView {
            chat_id,
            text: mission_text(config),
            parse_mode: None,
            reply_markup: Some(secondary_rows(config.feed_url)),
            disable_web_page_preview: true,
        }),
{
}

/// The overview names the feed and the number of headlines that the bot is set
/// to, and can be read back: what stands around the two is always the same.
pub proof fn law_overview_names_feed_and_headlines(config: ConfigView)
    ensures
        ({
            let text = mission_text(config);
            let head = "⚙️ Mission Control\n• Source feed: "@;
            let between = "\n• Headlines per flight: "@;
            let number = decimal(config.max_posts as nat);
            let feed_end = head.len() + config.feed_url.len() as int;
            let number_start = feed_end + between.len();
            let number_end = number_start + number.len();
            &&& text.len() >= number_end
            &&& text.take(head.len() as int) == head
            &&& text.subrange(head.len() as int, feed_end) == config.feed_url
            &&& text.subrange(feed_end, number_start) == between
            &&& text.subrange(number_start, number_end) == number
            &&& text.skip(number_end)
                == "\n• Commands: /start, /panel, /latest, /help\n\nInvite me to your channel as admin and tap AutoPulse to broadcast."@
        }),
{
    let text = mission_text(config);
    let head = "⚙️ Mission Control\n• Source feed: "@;
    let between = "\n• Headlines per flight: "@;
    let number = decimal(config.max_posts as nat);
    let feed_end = head.len() + config.feed_url.len() as int;
    let number_start = feed_end + between.len();
    let number_end = number_start + number.len();
    assert(text.take(head.len() as int) =~= head);
    assert(text.subrange(head.len() as int, feed_end) =~= config.feed_url);
    assert(text.subrange(feed_end, number_start) =~= between);
    assert(text.subrange(number_start, number_end) =~= number);
    assert(text.skip(number_end)
        =~= "\n• Commands: /start, /panel, /latest, /help\n\nInvite me to your channel as admin and tap AutoPulse to broadcast."@);
}

/// A brief goes to the chat that it is for, over the small panel. It shows the
/// stories, with previews; without a story it is a fixed notice, without them.
pub proof fn law_brief_shows_the_stories(
    config: ConfigView,
    chat_id: i64,
    stories: Seq<StoryView>,
)
    ensures
        brief_message(config, chat_id, stories).chat_id == chat_id,
        brief_message(config, chat_id, stories).parse_mode is None,
        brief_message(config, chat_id, stories).reply_markup == Some(
            secondary_rows(config.feed_url),
        ),
        brief_message(config, chat_id, stories).disable_web_page_preview <==> stories.len() == 0,
        stories.len() == 0 ==> brief_message(config, chat_id, stories).text == RADAR_QUIET@,
        stories.len() > 0 ==> brief_message(config, chat_id, stories).text == curated(
            stories,
            "🧠 AI Recap"@,
        ),
{
}

/// A command is told by how a message begins, whatever follows and also where
/// nothing does: `/latest` brings the brief, `/start` and `/panel` the greeting,
/// and `/help` the overview of the settings. Each goes to the chat of the
/// message, which is subscribed first.
pub proof fn law_commands_are_told_by_their_beginning(
    config: ConfigView,
    message: Message,
    command: Seq<char>,
    rest: Seq<char>,
)
    requires
        message.text matches Some(text) && text@ == command + rest,
    ensures
        command == "/latest"@ ==> message_plan(config, message) == seq![
            ActionView::Subscribe(message.chat.id),
            ActionView::SendBrief(message.chat.id),
        ],
        command == "/start"@ || command == "/panel"@ ==> message_plan(config, message) == seq![
            ActionView::Subscribe(message.chat.id),
            ActionView::Send(welcome_message(config, message.chat.id)),
        ],
        command == "/help"@ ==> message_plan(config, message) == seq![
            ActionView::Subscribe(message.chat.id),
            ActionView::Send(mission_message(config, message.chat.id)),
        ],
{
    reveal_strlit("/start");
    reveal_strlit("/latest");
    reveal_strlit("/panel");
    reveal_strlit("/help");
    let text = command + rest;
    assert(text.take(command.len() as int) =~= command);
    assert(command.is_prefix_of(text));
    if command == "/latest"@ {
        assert(text[1] == 'l');
        assert("/start"@[1] == 's');
    }
    if command == "/panel"@ {
        assert(text[1] == 'p');
        assert("/start"@[1] == 's');
        assert("/latest"@[1] == 'l');
    }
    if command == "/help"@ {
        assert(text[1] == 'h');
        assert("/start"@[1] == 's');
        assert("/latest"@[1] == 'l');
        assert("/panel"@[1] == 'p');
    }
}

/// A message that begins with none of the commands, or holds no text, is
/// answered by the notice over the full panel.
pub proof fn law_other_messages_are_not_recognized(config: ConfigView, message: Message)
    requires
        message.text matches Some(text) ==> {
            &&& !"/start"@.is_prefix_of(text@)
            &&& !"/latest"@.is_prefix_of(text@)
            &&& !"/panel"@.is_prefix_of(text@)
            &&& !"/help"@.is_prefix_of(text@)
        },
    ensures
        message_plan(config, message) == seq![
            ActionView::Subscribe(message.chat.id),
            ActionView::Send(
                MessageView {
                    chat_id: message.chat.id,
                    text: UNRECOGNIZED@,
                    parse_mode: None,
                    reply_markup: Some(hero_rows(config.feed_url)),
                    disable_web_page_preview: true,
                },
            ),
        ],
{
    reveal_strlit("/start");
    reveal_strlit("/latest");
    reveal_strlit("/panel");
    reveal_strlit("/help");
}

/// What a tap leads to, button by button: the chat is subscribed, gets what the
/// button is for, and the tap is answered without an alert.
pub proof fn law_taps_bring_what_the_button_is_for(
    config: ConfigView,
    chat_id: i64,
    query_id: Seq<char>,
)
    ensures
        callback_plan(config, chat_id, query_id, "auto_pulse"@) == seq![
            ActionView::Subscribe(chat_id),
            ActionView::Send(auto_pulse_message(config, chat_id)),
            ActionView::Answer(
                AnswerView {
                    callback_query_id: query_id,
                    text: "AutoPulse armed ⚡"@,
                    show_alert: false,
                },
            ),
        ],
        callback_plan(config, chat_id, query_id, "ai_recap"@) == seq![
            ActionView::Subscribe(chat_id),
            ActionView::SendBrief(chat_id),
            ActionView::Answer(
                AnswerView {
                    callback_query_id: query_id,
                    text: "Rendering recap ✨"@,
                    show_alert: false,
                },
            ),
        ],
        callback_plan(config, chat_id, query_id, "latest"@) == seq![
            ActionView::Subscribe(chat_id),
            ActionView::SendBrief(chat_id),
            ActionView::Answer(
                AnswerView {
                    callback_query_id: query_id,
                    text: "Feed refreshed 🔄"@,
                    show_alert: false,
                },
            ),
        ],
        callback_plan(config, chat_id, query_id, "refresh"@) == callback_plan(
            config,
            chat_id,
            query_id,
            "latest"@,
        ),
        callback_plan(config, chat_id, query_id, "settings"@) == seq![
            ActionView::Subscribe(chat_id),
            ActionView::Send(mission_message(config, chat_id)),
            ActionView::Answer(
                AnswerView {
                    callback_query_id: query_id,
                    text: "Mission control opened ⚙️"@,
                    show_alert: false,
                },
            ),
        ],
        callback_plan(config, chat_id, query_id, "tips"@) == seq![
            ActionView::Subscribe(chat_id),
            ActionView::Send(
                MessageView {
                    chat_id,
                    text: TIP@,
                    parse_mode: None,
                    reply_markup: Some(secondary_rows(config.feed_url)),
                    disable_web_page_preview: true,
                },
            ),
            ActionView::Answer(
                AnswerView { callback_query_id: query_id, text: "Noted ✅"@, show_alert: false },
            ),
        ],
        callback_plan(config, chat_id, query_id, "support"@) == seq![
            ActionView::Subscribe(chat_id),
            ActionView::Send(
                MessageView {
                    chat_id,
                    text: SUPPORT@,
                    parse_mode: None,
                    reply_markup: Some(secondary_rows(config.feed_url)),
                    disable_web_page_preview: true,
                },
            ),
            ActionView::Answer(
                AnswerView {
                    callback_query_id: query_id,
                    text: "Appreciated 🙏"@,
                    show_alert: false,
                },
            ),
        ],
{
    reveal_strlit("auto_pulse");
    reveal_strlit("ai_recap");
    reveal_strlit("latest");
    reveal_strlit("refresh");
    reveal_strlit("settings");
    reveal_strlit("tips");
    reveal_strlit("support");
    assert("ai_recap"@[0] == 'a' && "latest"@[0] == 'l' && "refresh"@[0] == 'r');
    assert("settings"@[1] == 'e' && "support"@[1] == 'u' && "tips"@[0] == 't');
    assert("settings"@[0] == 's' && "support"@[0] == 's' && "ai_recap"@[1] == 'i');
    assert("auto_pulse"@[1] == 'u' && "auto_pulse"@[0] == 'a');
}

/// A tap with any other data, or none, sends nothing to the chat; it is still
/// subscribed and the tap answered.
pub proof fn law_other_taps_are_only_answered(
    config: ConfigView,
    chat_id: i64,
    query_id: Seq<char>,
    data: Seq<char>,
)
    requires
        data != "auto_pulse"@,
        data != "ai_recap"@,
        data != "latest"@,
        data != "refresh"@,
        data != "settings"@,
        data != "tips"@,
        data != "support"@,
    ensures
        callback_plan(config, chat_id, query_id, data) == seq![
            ActionView::Subscribe(chat_id),
            ActionView::Answer(
                AnswerView { callback_query_id: query_id, text: "Roger that"@, show_alert: false },
            ),
        ],
{
}

/// The data of a tap is what the button carries, and nothing where it carries
/// none.
pub proof fn law_tap_data(callback: CallbackQuery)
    ensures
        callback.data matches Some(data) ==> callback_data(callback) == data@,
        callback.data is None ==> callback_data(callback).len() == 0,
{
}

/// A tapped button is answered whether or not a message comes with it; a
/// message without one is answered too, and only an update that holds neither
/// is passed over. The offset moves behind each update that is worked off.
pub proof fn law_no_update_is_passed_over(offset: i64, update: Update, rest: Seq<Update>)
    requires
        update.update_id < i64::MAX,
    ensures
        update.callback_query matches Some(callback) ==> next_action(offset, seq![update] + rest)
            == (
            (update.update_id + 1) as i64,
            rest,
            RunAction::HandleCallback(callback),
        ),
        update.callback_query is None ==> (update.message matches Some(message) ==> next_action(
            offset,
            seq![update] + rest,
        ) == ((update.update_id + 1) as i64, rest, RunAction::HandleMessage(message))),
        update.callback_query is None && update.message is None ==> next_action(
            offset,
            seq![update] + rest,
        ) == next_action((update.update_id + 1) as i64, rest),
        next_action(offset, Seq::empty()) == (
            offset,
            Seq::<Update>::empty(),
            RunAction::Poll { offset, timeout: 25 },
        ),
        update.callback_query matches Some(callback) ==> answer_to(update) == Some(
            RunAction::HandleCallback(callback),
        ),
        answer_to(update) is None <==> update.callback_query is None && update.message is None,
{
    assert((seq![update] + rest).skip(1) =~= rest);
}

/// The bot takes every update whose id leaves room for the offset behind it:
/// each id but the largest.
pub proof fn law_ids_in_range(updates: Seq<Update>, more: Seq<Update>, bot: Bot)
    ensures
        ids_in_range(updates) <==> (forall|i: int|
            0 <= i < updates.len() ==> (#[trigger] updates[i]).update_id != 0x7fff_ffff_ffff_ffff),
        ids_in_range(updates) && ids_in_range(more) ==> ids_in_range(updates + more),
        bot.well_formed() <==> ids_in_range(bot.pending@),
{
}

/// What is stated of an action is stated of what it holds.
pub proof fn law_action_view(action: Action)
    ensures
        match action {
            Action::Subscribe(chat_id) => action.deep_view() == ActionView::Subscribe(chat_id),
            Action::Send(payload) => action.deep_view() == ActionView::Send(payload.deep_view()),
            Action::SendBrief(chat_id) => action.deep_view() == ActionView::SendBrief(chat_id),
            Action::Answer(payload) => action.deep_view() == ActionView::Answer(
                payload.deep_view(),
            ),
        },
{
}

/// A new bot has its settings, starts at the first update and has received
/// nothing. Its addresses hold its token.
pub proof fn law_new_bot(config: Config, bot: Bot, method: &str, address: String)
    requires
        call_ensures(Bot::new, (config,), bot),
        call_ensures(Bot::api_url, (&bot, method), address),
    ensures
        bot.ctx.config == config,
        bot.offset == 0,
        bot.pending@.len() == 0,
        address@ == "https://api.telegram.org/bot"@ + config.bot_token@ + "/"@ + method@,
{
}

/// The one error of the bot, in words.
pub proof fn law_error_text(error: BotError, text: String)
    requires
        call_ensures(BotError::message, (&error,), text),
    ensures
        text@ == "callback query missing chat context"@,
{
}

/// The fixed messages as they are made.
pub proof fn law_made_messages(
    bot: Bot,
    chat_id: i64,
    welcome: SendMessagePayload,
    notice: SendMessagePayload,
    overview: SendMessagePayload,
)
    requires
        call_ensures(Bot::send_welcome, (&bot, chat_id), welcome),
        call_ensures(Bot::send_auto_pulse, (&bot, chat_id), notice),
        call_ensures(Bot::send_mission_brief, (&bot, chat_id), overview),
    ensures
        welcome.chat_id == chat_id,
        notice.chat_id == chat_id,
        overview.chat_id == chat_id,
        welcome.text@ == WELCOME@,
        notice.text@ == AUTO_PULSE@,
        overview.text@ == mission_text(bot.ctx.config.deep_view()),
        welcome.parse_mode is None && notice.parse_mode is None && overview.parse_mode is None,
        welcome.reply_markup matches Some(markup) && markup.deep_view() == hero_rows(
            bot.ctx.config.feed_url@,
        ),
        notice.reply_markup matches Some(markup) && markup.deep_view() == secondary_rows(
            bot.ctx.config.feed_url@,
        ),
        overview.reply_markup matches Some(markup) && markup.deep_view() == secondary_rows(
            bot.ctx.config.feed_url@,
        ),
        welcome.disable_web_page_preview && notice.disable_web_page_preview
            && overview.disable_web_page_preview,
{
}

/// A brief as it is made.
pub proof fn law_made_brief(
    bot: Bot,
    chat_id: i64,
    stories: &[Story],
    heading: &str,
    digest: String,
    brief: SendMessagePayload,
)
    requires
        call_ensures(Bot::send_curated_brief, (&bot, chat_id, stories), brief),
        heading@ == "🧠 AI Recap"@,
        call_ensures(BotContext::format_curated, (stories, heading), digest),
    ensures
        brief.chat_id == chat_id,
        brief.parse_mode is None,
        brief.reply_markup matches Some(markup) && markup.deep_view() == secondary_rows(
            bot.ctx.config.feed_url@,
        ),
        stories@.len() == 0 ==> brief.text@ == RADAR_QUIET@ && brief.disable_web_page_preview,
        stories@.len() > 0 ==> brief.text@ == digest@ && !brief.disable_web_page_preview,
{
    assert(stories.deep_view().len() == stories@.len());
}

/// What a received message leads to, by the command that it begins with.
pub proof fn law_received_commands(
    bot: Bot,
    message: Message,
    command: Seq<char>,
    rest: Seq<char>,
    actions: Vec<Action>,
)
    requires
        message.text matches Some(text) && text@ == command + rest,
        call_ensures(Bot::handle_message, (&bot, message), actions),
    ensures
        actions@.len() == 2,
        actions@[0] == Action::Subscribe(message.chat.id),
        command == "/latest"@ ==> actions@[1] == Action::SendBrief(message.chat.id),
        command == "/start"@ || command == "/panel"@ ==> (actions@[1] matches Action::Send(reply)
            && reply.chat_id == message.chat.id && reply.text@ == WELCOME@),
        command == "/help"@ ==> (actions@[1] matches Action::Send(reply) && reply.chat_id
            == message.chat.id && reply.text@ == mission_text(bot.ctx.config.deep_view())),
{
    let plan = message_plan(bot.ctx.config.deep_view(), message);
    law_commands_are_told_by_their_beginning(bot.ctx.config.deep_view(), message, command, rest);
    assert(actions.deep_view().len() == plan.len());
    assert(actions@[0].deep_view() == plan[0]);
    assert(actions@[1].deep_view() == plan[1]);
}

/// What a received message leads to where it holds no text, or one that begins
/// with no command.
pub proof fn law_received_other_messages(bot: Bot, message: Message, actions: Vec<Action>)
    requires
        message.text matches Some(text) ==> {
            &&& !"/start"@.is_prefix_of(text@)
            &&& !"/latest"@.is_prefix_of(text@)
            &&& !"/panel"@.is_prefix_of(text@)
            &&& !"/help"@.is_prefix_of(text@)
        },
        call_ensures(Bot::handle_message, (&bot, message), actions),
    ensures
        actions@.len() == 2,
        actions@[0] == Action::Subscribe(message.chat.id),
        actions@[1] matches Action::Send(reply) && {
            &&& reply.chat_id == message.chat.id
            &&& reply.text@ == UNRECOGNIZED@
            &&& reply.reply_markup matches Some(markup) && markup.deep_view() == hero_rows(
                bot.ctx.config.feed_url@,
            )
            &&& reply.disable_web_page_preview
        },
{
    let plan = message_plan(bot.ctx.config.deep_view(), message);
    law_other_messages_are_not_recognized(bot.ctx.config.deep_view(), message);
    assert(actions.deep_view().len() == plan.len());
    assert(actions@[0].deep_view() == plan[0]);
    assert(actions@[1].deep_view() == plan[1]);
}

/// A tap without a message cannot be answered. Any other subscribes the chat of
/// its message first and is answered last; in between comes, for a button of
/// the panels, what the button is for.
pub proof fn law_received_taps(
    bot: Bot,
    callback: CallbackQuery,
    result: Result<Vec<Action>, BotError>,
)
    requires
        call_ensures(Bot::handle_callback, (&bot, callback), result),
    ensures
        callback.message is None ==> result == Err::<Vec<Action>, BotError>(BotError::MissingChat),
        callback.message matches Some(message) ==> (result matches Ok(actions) && {
            &&& actions@.len() >= 2
            &&& actions@[0] == Action::Subscribe(message.chat.id)
            &&& actions@.last() matches Action::Answer(answer) && answer.callback_query_id@
                == callback.id@ && !answer.show_alert
            &&& callback.data matches Some(data) ==> actions.deep_view() == callback_plan(
                bot.ctx.config.deep_view(),
                message.chat.id,
                callback.id@,
                data@,
            )
            &&& callback.data is None ==> actions@.len() == 2
        }),
{
    if let Some(message) = callback.message {
        let actions = result->Ok_0;
        let data = callback_data(callback);
        let plan = callback_plan(bot.ctx.config.deep_view(), message.chat.id, callback.id@, data);
        law_callback_is_answered_last(
            bot.ctx.config.deep_view(),
            message.chat.id,
            callback.id@,
            data,
        );
        assert(actions.deep_view() == plan);
        assert(actions.deep_view().len() == plan.len());
        assert(actions@[0].deep_view() == plan[0]);
        assert(actions@.last().deep_view() == plan.last());
        assert(plan.last() matches ActionView::Answer(answer) && !answer.show_alert);
        if callback.data is None {
            assert("auto_pulse"@.len() > 0 && "ai_recap"@.len() > 0 && "latest"@.len() > 0
                && "refresh"@.len() > 0 && "settings"@.len() > 0 && "tips"@.len() > 0
                && "support"@.len() > 0) by {
                reveal_strlit("auto_pulse");
                reveal_strlit("ai_recap");
                reveal_strlit("latest");
                reveal_strlit("refresh");
                reveal_strlit("settings");
                reveal_strlit("tips");
                reveal_strlit("support");
            }
            law_other_taps_are_only_answered(
                bot.ctx.config.deep_view(),
                message.chat.id,
                callback.id@,
                data,
            );
        }
    }
}

/// Unless something failed or a poll brought nothing, the loop takes up the
/// first update that is left, those just received standing behind the others:
/// a tapped button, else a message, is handed out, and the offset moves behind
/// the update. One that holds neither is as good as not there.
pub proof fn law_loop_takes_up_the_first_update(
    bot: &mut Bot,
    event: RunEvent,
    update: Update,
    rest: Seq<Update>,
    action: RunAction,
)
    requires
        old(bot).well_formed(),
        match event {
            RunEvent::Updates(updates) => {
                &&& updates@.len() > 0
                &&& ids_in_range(updates@)
                &&& old(bot).pending@ + updates@ == seq![update] + rest
            },
            RunEvent::Started | RunEvent::Slept | RunEvent::Handled => old(bot).pending@
                == seq![update] + rest,
            RunEvent::Failed => false,
        },
        call_ensures(Bot::run, (bot, event), action),
    ensures
        final(bot).ctx == old(bot).ctx,
        update.callback_query matches Some(callback) ==> {
            &&& action == RunAction::HandleCallback(callback)
            &&& final(bot).offset == update.update_id + 1
            &&& final(bot).pending@ == rest
        },
        update.callback_query is None ==> (update.message matches Some(message) ==> {
            &&& action == RunAction::HandleMessage(message)
            &&& final(bot).offset == update.update_id + 1
            &&& final(bot).pending@ == rest
        }),
        update.callback_query is None && update.message is None ==> (
            final(bot).offset,
            final(bot).pending@,
            action,
        ) == next_action((update.update_id + 1) as i64, rest),
{
    let all = seq![update] + rest;
    assert(all[0] == update);
    match event {
        RunEvent::Updates(updates) => {
            law_ids_in_range(old(bot).pending@, updates@, *old(bot));
        },
        _ => {},
    }
    assert(ids_in_range(all));
    law_no_update_is_passed_over(old(bot).offset, update, rest);
}

/// With nothing left the loop polls from where it stands, and a poll that
/// brought nothing is followed by a pause. A failure stops it. None of these
/// moves the offset or loses an update.
pub proof fn law_loop_waits_or_stops(bot: &mut Bot, event: RunEvent, action: RunAction)
    requires
        old(bot).well_formed(),
        call_ensures(Bot::run, (bot, event), action),
    ensures
        final(bot).ctx == old(bot).ctx,
        (event is Started || event is Slept || event is Handled) && old(bot).pending@.len() == 0
            ==> {
            &&& action == (RunAction::Poll { offset: old(bot).offset, timeout: 25 })
            &&& final(bot).offset == old(bot).offset
            &&& final(bot).pending@.len() == 0
        },
        event matches RunEvent::Updates(updates) ==> (updates@.len() == 0 ==> {
            &&& action == (RunAction::Sleep { millis: 800 })
            &&& final(bot).offset == old(bot).offset
            &&& final(bot).pending@ == old(bot).pending@
        }),
        event is Failed ==> {
            &&& action is Stop
            &&& final(bot).offset == old(bot).offset
            &&& final(bot).pending@ == old(bot).pending@
        },
{
    if let RunEvent::Updates(updates) = event {
        assert(updates@.len() == 0 ==> ids_in_range(updates@));
    }
}

} // verus!
