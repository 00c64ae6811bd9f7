//! Announcing new stories to every subscribed chat.
use vstd::prelude::*;
use vstd::string::*;

use crate::config::ConfigView;
use crate::context::{curated, message_with, secondary_rows, BotContext};
use crate::story::{Story, StoryView};
use crate::telegram::{MessageView, SendMessagePayload};
use crate::text::same_text;

verus! {

pub const DISPATCH_HEADING: &'static str = "🛰️ AutoPulse Dispatch";

/// How far a broadcast has come.
#[derive(Debug)]
pub enum Broadcast {
    /// Nothing was done yet.
    Idle,
    /// The headlines were asked for.
    Fetching,
    /// The id of the newest announced story was asked for.
    Comparing { stories: Vec<Story> },
    /// The subscribed chats were asked for.
    Addressing { message: String, newest: String },
    /// The message was sent to a chat; these remain.
    Delivering { message: String, newest: String, remaining: Vec<i64> },
    /// The new id was handed over for saving.
    Recording,
    /// Nothing is left to do.
    Over,
}

/// What a [`Broadcast`] holds.
pub enum BroadcastView {
    Idle,
    Fetching,
    Comparing { stories: Seq<StoryView> },
    Addressing { message: Seq<char>, newest: Seq<char> },
    Delivering { message: Seq<char>, newest: Seq<char>, remaining: Seq<i64> },
    Recording,
    Over,
}

impl DeepView for Broadcast {
    type V = BroadcastView;

    open spec fn deep_view(&self) -> BroadcastView {
        match self {
            Broadcast::Idle => BroadcastView::Idle,
            Broadcast::Fetching => BroadcastView::Fetching,
            Broadcast::Comparing { stories } => BroadcastView::Comparing {
                stories: stories.deep_view(),
            },
            Broadcast::Addressing { message, newest } => BroadcastView::Addressing {
                message: message@,
                newest: newest@,
            },
            Broadcast::Delivering { message, newest, remaining } => BroadcastView::Delivering {
                message: message@,
                newest: newest@,
                remaining: remaining@,
            },
            Broadcast::Recording => BroadcastView::Recording,
            Broadcast::Over => BroadcastView::Over,
        }
    }
}

/// What a broadcast is told.
#[derive(Debug)]
pub enum BroadcastEvent {
    /// The broadcast begins.
    Started,
    /// The headlines, newest first.
    Headlines(Vec<Story>),
    /// The id of the newest story that was announced before, if any was.
    LastId(Option<String>),
    /// The subscribed chats.
    Subscribers(Vec<i64>),
    /// A message was sent, or an id saved.
    Done,
    /// What was asked for failed.
    Failed,
}

/// What a [`BroadcastEvent`] holds.
pub enum BroadcastEventView {
    Started,
    Headlines(Seq<StoryView>),
    LastId(Option<Seq<char>>),
    Subscribers(Seq<i64>),
    Done,
    Failed,
}

impl DeepView for BroadcastEvent {
    type V = BroadcastEventView;

    open spec fn deep_view(&self) -> BroadcastEventView {
        match self {
            BroadcastEvent::Started => BroadcastEventView::Started,
            BroadcastEvent::Headlines(stories) => BroadcastEventView::Headlines(
                stories.deep_view(),
            ),
            BroadcastEvent::LastId(id) => BroadcastEventView::LastId(id.deep_view()),
            BroadcastEvent::Subscribers(chats) => BroadcastEventView::Subscribers(chats@),
            BroadcastEvent::Done => BroadcastEventView::Done,
            BroadcastEvent::Failed => BroadcastEventView::Failed,
        }
    }
}

/// What a broadcast does next.
#[derive(Debug)]
pub enum BroadcastAction {
    /// Fetch the headlines.
    FetchHeadlines,
    /// Look up the id of the newest announced story.
    ReadLastId,
    /// Look up the subscribed chats.
    ReadSubscribers,
    /// Send a message.
    Send(SendMessagePayload),
    /// Save the id of the newest announced story.
    SaveLastId(String),
    /// End: all is done.
    Finish,
    /// End: something failed.
    Abort,
}

/// What a [`BroadcastAction`] holds.
pub enum BroadcastActionView {
    FetchHeadlines,
    ReadLastId,
    ReadSubscribers,
    Send(MessageView),
    SaveLastId(Seq<char>),
    Finish,
    Abort,
}

impl DeepView for BroadcastAction {
    type V = BroadcastActionView;

    open spec fn deep_view(&self) -> BroadcastActionView {
        match self {
            BroadcastAction::FetchHeadlines => BroadcastActionView::FetchHeadlines,
            BroadcastAction::ReadLastId => BroadcastActionView::ReadLastId,
            BroadcastAction::ReadSubscribers => BroadcastActionView::ReadSubscribers,
            BroadcastAction::Send(payload) => BroadcastActionView::Send(payload.deep_view()),
            BroadcastAction::SaveLastId(id) => BroadcastActionView::SaveLastId(id@),
            BroadcastAction::Finish => BroadcastActionView::Finish,
            BroadcastAction::Abort => BroadcastActionView::Abort,
        }
    }
}

/// What the loop of automatic announcements is told.
#[derive(Debug, Clone, Copy, PartialEq, Eq)]
pub enum AutoEvent {
    /// The loop begins.
    Started,
    /// A broadcast finished.
    Announced,
    /// A broadcast failed.
    Failed,
    /// A pause is over.
    Slept,
}

/// What the loop of automatic announcements does next.
#[derive(Debug, Clone, Copy, PartialEq, Eq)]
pub enum AutoAction {
    /// Broadcast what is new.
    Announce,
    /// Pause.
    Pause { seconds: u64 },
}

/// One step of the loop: announcements and pauses take turns, whether or not
/// an announcement fails.
pub open spec fn auto_step(config: ConfigView, event: AutoEvent) -> AutoAction {
    match event {
        AutoEvent::Started | AutoEvent::Slept => AutoAction::Announce,
        AutoEvent::Announced | AutoEvent::Failed => AutoAction::Pause {
            seconds: config.check_interval,
        },
    }
}

/// The stories in front of the one with the id `last`.
pub open spec fn fresh_stories(stories: Seq<StoryView>, last: Option<Seq<char>>) -> Seq<StoryView>
    decreases stories.len(),
{
    if stories.len() == 0 || last == Some(stories[0].id) {
        Seq::empty()
    } else {
        seq![stories[0]] + fresh_stories(stories.skip(1), last)
    }
}

/// The announcement as one chat gets it.
pub open spec fn announcement(config: ConfigView, chat_id: i64, message: Seq<char>) -> MessageView {
    message_with(chat_id, message, Some(secondary_rows(config.feed_url)), false)
}

/// Goes on to the next of the `remaining` chats, or to saving the new id once
/// there is none.
pub open spec fn deliver(
    config: ConfigView,
    message: Seq<char>,
    newest: Seq<char>,
    remaining: Seq<i64>,
) -> (BroadcastView, BroadcastActionView) {
    if remaining.len() == 0 {
        (BroadcastView::Recording, BroadcastActionView::SaveLastId(newest))
    } else {
        (
            BroadcastView::Delivering { message, newest, remaining: remaining.skip(1) },
            BroadcastActionView::Send(announcement(config, remaining[0], message)),
        )
    }
}

/// One step of a broadcast. An event that does not fit ends it as a failure
/// does.
pub open spec fn broadcast_step(
    config: ConfigView,
    state: BroadcastView,
    event: BroadcastEventView,
) -> (BroadcastView, BroadcastActionView) {
    match (state, event) {
        (BroadcastView::Idle, BroadcastEventView::Started) => (
            BroadcastView::Fetching,
            BroadcastActionView::FetchHeadlines,
        ),
        (BroadcastView::Fetching, BroadcastEventView::Headlines(stories)) => if stories.len()
            == 0 {
            (BroadcastView::Over, BroadcastActionView::Finish)
        } else {
            (BroadcastView::Comparing { stories }, BroadcastActionView::ReadLastId)
        },
        (BroadcastView::Comparing { stories }, BroadcastEventView::LastId(last)) => {
            let fresh = fresh_stories(stories, last);
            if fresh.len() == 0 {
                (BroadcastView::Over, BroadcastActionView::Finish)
            } else {
                (
                    BroadcastView::Addressing {
                        message: curated(fresh.reverse(), DISPATCH_HEADING@),
                        newest: stories[0].id,
                    },
                    BroadcastActionView::ReadSubscribers,
                )
            }
        },
        (
            BroadcastView::Addressing { message, newest },
            BroadcastEventView::Subscribers(chats),
        ) => deliver(config, message, newest, chats),
        (
            BroadcastView::Delivering { message, newest, remaining },
            BroadcastEventView::Done,
        ) => deliver(config, message, newest, remaining),
        (BroadcastView::Recording, BroadcastEventView::Done) => (
            BroadcastView::Over,
            BroadcastActionView::Finish,
        ),
        _ => (BroadcastView::Over, BroadcastActionView::Abort),
    }
}

/// Whether two ids, of which one may be missing, are the same.
fn is_known(id: &String, last: &Option<String>) -> (known: bool)
    ensures
        known == (last.deep_view() == Some(id@)),
{
    match last {
        Some(last) => same_text(id.as_str(), last.as_str()),
        None => false,
    }
}

/// The stories in front of the one with the id `last`, the oldest first.
pub fn collect_fresh(stories: &Vec<Story>, last: &Option<String>) -> (fresh: Vec<Story>)
    ensures
        fresh.deep_view() == fresh_stories(stories.deep_view(), last.deep_view()).reverse(),
{
    let ghost views = stories.deep_view();
    let mut count: usize = 0;
    assert(views.skip(0) =~= views);
    while count < stories.len() && !is_known(&stories[count].id, last)
        invariant
            count <= stories.len(),
            views == stories.deep_view(),
            fresh_stories(views, last.deep_view()) == views.take(count as int) + fresh_stories(
                views.skip(count as int),
                last.deep_view(),
            ),
        decreases stories.len() - count,
    {
        assert(views.skip(count as int).skip(1) =~= views.skip(count + 1));
        count += 1;
    }
    let mut fresh: Vec<Story> = Vec::new();
    let mut left: usize = count;
    while left > 0
        invariant
            left <= count <= stories.len(),
            views == stories.deep_view(),
            fresh.len() == count - left,
            forall|k: int|
                0 <= k < fresh.len() ==> (#[trigger] fresh@[k]).deep_view() == views[count - 1 - k],
        decreases left,
    {
        left -= 1;
        fresh.push(stories[left].clone());
    }
    fresh
}

impl BotContext {
    fn deliver_next(&self, message: String, newest: String, remaining: Vec<i64>) -> (step: (
        Broadcast,
        BroadcastAction,
    ))
        ensures
            (step.0.deep_view(), step.1.deep_view()) == deliver(
                self.config.deep_view(),
                message@,
                newest@,
                remaining@,
            ),
    {
        let mut remaining = remaining;
        if remaining.len() == 0 {
            (Broadcast::Recording, BroadcastAction::SaveLastId(newest))
        } else {
            let chat = remaining.remove(0);
            let payload = self.send_message(
                chat,
                message.as_str(),
                Some(self.secondary_keyboard()),
                false,
            );
            (Broadcast::Delivering { message, newest, remaining }, BroadcastAction::Send(payload))
        }
    }

    /// Drives the loop of automatic announcements: takes what happened and says
    /// what to do next.
    pub fn auto_update(&self, event: AutoEvent) -> (action: AutoAction)
        ensures
            action == auto_step(self.config.deep_view(), event),
    {
        match event {
            AutoEvent::Started | AutoEvent::Slept => AutoAction::Announce,
            AutoEvent::Announced | AutoEvent::Failed => AutoAction::Pause {
                seconds: self.config.check_interval,
            },
        }
    }

    /// Drives a broadcast: takes how far it has come and what happened, and
    /// says what to do next.
    pub fn broadcast_latest_if_new(&self, state: Broadcast, event: BroadcastEvent) -> (step: (
        Broadcast,
        BroadcastAction,
    ))
        ensures
            (step.0.deep_view(), step.1.deep_view()) == broadcast_step(
                self.config.deep_view(),
                state.deep_view(),
                event.deep_view(),
            ),
    {
        match (state, event) {
            (Broadcast::Idle, BroadcastEvent::Started) => (
                Broadcast::Fetching,
                BroadcastAction::FetchHeadlines,
            ),
            (Broadcast::Fetching, BroadcastEvent::Headlines(stories)) => {
                if stories.len() == 0 {
                    (Broadcast::Over, BroadcastAction::Finish)
                } else {
                    (Broadcast::Comparing { stories }, BroadcastAction::ReadLastId)
                }
            },
            (Broadcast::Comparing { stories }, BroadcastEvent::LastId(last)) => {
                let fresh = collect_fresh(&stories, &last);
                if fresh.len() == 0 {
                    return (Broadcast::Over, BroadcastAction::Finish);
                }
                let message = BotContext::format_curated(fresh.as_slice(), DISPATCH_HEADING);
                proof {
                    law_fresh_stories_are_unannounced(stories.deep_view(), last.deep_view());
                }
                let newest = stories[0].id.clone();
                (Broadcast::Addressing { message, newest }, BroadcastAction::ReadSubscribers)
            },
            (
                Broadcast::Addressing { message, newest },
                BroadcastEvent::Subscribers(chats),
            ) => self.deliver_next(message, newest, chats),
            (
                Broadcast::Delivering { message, newest, remaining },
                BroadcastEvent::Done,
            ) => self.deliver_next(message, newest, remaining),
            (Broadcast::Recording, BroadcastEvent::Done) => (
                Broadcast::Over,
                BroadcastAction::Finish,
            ),
            _ => (Broadcast::Over, BroadcastAction::Abort),
        }
    }
}

/// What is announced is the front of the headlines, up to the story that was
/// announced last: none of it has that story's id, and nothing in front of that
/// story is left out.
pub proof fn law_fresh_stories_are_unannounced(stories: Seq<StoryView>, last: Option<Seq<char>>)
    ensures
        fresh_stories(stories, last).len() <= stories.len(),
        fresh_stories(stories, last) == stories.take(fresh_stories(stories, last).len() as int),
        forall|i: int|
            0 <= i < fresh_stories(stories, last).len() ==> last != Some(
                (#[trigger] fresh_stories(stories, last)[i]).id,
            ),
        fresh_stories(stories, last).len() < stories.len() ==> last == Some(
            stories[fresh_stories(stories, last).len() as int].id,
        ),
    decreases stories.len(),
{
    if stories.len() == 0 || last == Some(stories[0].id) {
    } else {
        law_fresh_stories_are_unannounced(stories.skip(1), last);
    }
}

/// While no story was announced yet, every headline is new.
pub proof fn law_all_stories_are_fresh_at_first(stories: Seq<StoryView>)
    ensures
        fresh_stories(stories, None) == stories,
{
    law_fresh_stories_are_unannounced(stories, None);
}

/// A broadcast that finds the announced story still in front ends at once.
pub proof fn law_nothing_new_sends_nothing(config: ConfigView, stories: Seq<StoryView>)
    requires
        stories.len() > 0,
    ensures
        broadcast_step(
            config,
            BroadcastView::Comparing { stories },
            BroadcastEventView::LastId(Some(stories[0].id)),
        ) == (BroadcastView::Over, BroadcastActionView::Finish),
{
}

/// What a broadcast does from `state` on while everything that it asks for
/// succeeds, over `steps` steps.
pub open spec fn actions_while_done(config: ConfigView, state: BroadcastView, steps: nat) -> Seq<
    BroadcastActionView,
>
    decreases steps,
{
    if steps == 0 {
        Seq::empty()
    } else {
        let (next, action) = broadcast_step(config, state, BroadcastEventView::Done);
        seq![action] + actions_while_done(config, next, (steps - 1) as nat)
    }
}

/// The announcement to each of `chats`, then the new id, then the end.
pub open spec fn delivery(
    config: ConfigView,
    message: Seq<char>,
    newest: Seq<char>,
    chats: Seq<i64>,
) -> Seq<BroadcastActionView> {
    Seq::new(
        chats.len(),
        |i: int| BroadcastActionView::Send(announcement(config, chats[i], message)),
    ) + seq![BroadcastActionView::SaveLastId(newest), BroadcastActionView::Finish]
}

/// While sending succeeds, every remaining chat gets the announcement once and
/// in turn; only then is the new id saved, and the broadcast ends.
pub proof fn law_every_chat_gets_the_announcement(
    config: ConfigView,
    message: Seq<char>,
    newest: Seq<char>,
    remaining: Seq<i64>,
)
    ensures
        actions_while_done(
            config,
            BroadcastView::Delivering { message, newest, remaining },
            remaining.len() + 2,
        ) == delivery(config, message, newest, remaining),
    decreases remaining.len(),
{
    if remaining.len() == 0 {
        reveal_with_fuel(actions_while_done, 3);
    } else {
        law_every_chat_gets_the_announcement(config, message, newest, remaining.skip(1));
    }
}

/// What a broadcast does in all, given the headlines, the id announced before
/// and the subscribed chats, while everything that it asks for succeeds.
pub open spec fn broadcast_actions(
    config: ConfigView,
    stories: Seq<StoryView>,
    last: Option<Seq<char>>,
    chats: Seq<i64>,
) -> Seq<BroadcastActionView> {
    let (fetching, a0) = broadcast_step(config, BroadcastView::Idle, BroadcastEventView::Started);
    let (comparing, a1) = broadcast_step(
        config,
        fetching,
        BroadcastEventView::Headlines(stories),
    );
    let (addressing, a2) = broadcast_step(config, comparing, BroadcastEventView::LastId(last));
    let (delivering, a3) = broadcast_step(
        config,
        addressing,
        BroadcastEventView::Subscribers(chats),
    );
    if a1 is Finish {
        seq![a0, a1]
    } else if a2 is Finish {
        seq![a0, a1, a2]
    } else {
        seq![a0, a1, a2, a3] + actions_while_done(config, delivering, chats.len() + 1)
    }
}

/// A broadcast announces the stories that are new, the oldest first, to every
/// subscribed chat, and then saves the id of the newest headline, also where
/// nobody is subscribed. Where nothing is new it neither sends nor saves.
pub proof fn law_broadcast(
    config: ConfigView,
    stories: Seq<StoryView>,
    last: Option<Seq<char>>,
    chats: Seq<i64>,
)
    ensures
        stories.len() == 0 ==> broadcast_actions(config, stories, last, chats) == seq![
            BroadcastActionView::FetchHeadlines,
            BroadcastActionView::Finish,
        ],
        stories.len() > 0 && fresh_stories(stories, last).len() == 0 ==> broadcast_actions(
            config,
            stories,
            last,
            chats,
        ) == seq![
            BroadcastActionView::FetchHeadlines,
            BroadcastActionView::ReadLastId,
            BroadcastActionView::Finish,
        ],
        fresh_stories(stories, last).len() > 0 ==> broadcast_actions(config, stories, last, chats)
            == seq![
            BroadcastActionView::FetchHeadlines,
            BroadcastActionView::ReadLastId,
            BroadcastActionView::ReadSubscribers,
        ] + delivery(
            config,
            curated(fresh_stories(stories, last).reverse(), DISPATCH_HEADING@),
            stories[0].id,
            chats,
        ),
{
    if fresh_stories(stories, last).len() > 0 {
        let message = curated(fresh_stories(stories, last).reverse(), DISPATCH_HEADING@);
        law_every_chat_gets_the_announcement(config, message, stories[0].id, chats);
    }
}

/// Once a broadcast has saved an id, another one that finds the same headlines
/// sends nothing, whoever is subscribed by then: no story is announced twice.
pub proof fn law_nothing_is_announced_twice(
    config: ConfigView,
    stories: Seq<StoryView>,
    last: Option<Seq<char>>,
    chats: Seq<i64>,
    i: int,
    later_chats: Seq<i64>,
)
    requires
        0 <= i < broadcast_actions(config, stories, last, chats).len(),
        broadcast_actions(config, stories, last, chats)[i] is SaveLastId,
    ensures
        broadcast_actions(
            config,
            stories,
            Some(broadcast_actions(config, stories, last, chats)[i]->SaveLastId_0),
            later_chats,
        ) == seq![
            BroadcastActionView::FetchHeadlines,
            BroadcastActionView::ReadLastId,
            BroadcastActionView::Finish,
        ],
{
    law_broadcast(config, stories, last, chats);
    law_fresh_stories_are_unannounced(stories, last);
    law_broadcast(config, stories, Some(stories[0].id), later_chats);
}

/// A failed broadcast does not end the loop: the same pause follows as after
/// one that finished, and then the next broadcast.
pub proof fn law_failures_do_not_end_the_loop(config: ConfigView)
    ensures
        auto_step(config, AutoEvent::Failed) == auto_step(config, AutoEvent::Announced),
        auto_step(config, AutoEvent::Failed) == (AutoAction::Pause {
            seconds: config.check_interval,
        }),
        auto_step(config, AutoEvent::Slept) == AutoAction::Announce,
        auto_step(config, AutoEvent::Started) == AutoAction::Announce,
{
}

/// A failure ends the broadcast wherever it happens, and from then on nothing
/// is sent or saved.
pub proof fn law_failure_ends_the_broadcast(
    config: ConfigView,
    state: BroadcastView,
    event: BroadcastEventView,
)
    ensures
        broadcast_step(config, state, BroadcastEventView::Failed) == (
            BroadcastView::Over,
            BroadcastActionView::Abort,
        ),
        broadcast_step(config, BroadcastView::Over, event) == (
            BroadcastView::Over,
            BroadcastActionView::Abort,
        ),
{
}

/// The new id is saved only when no chat is left to send to.
pub proof fn law_id_is_saved_after_the_last_chat(
    config: ConfigView,
    state: BroadcastView,
    event: BroadcastEventView,
)
    requires
        broadcast_step(config, state, event).1 is SaveLastId,
    ensures
        match state {
            BroadcastView::Delivering { message, newest, remaining } => remaining.len() == 0
                && event is Done && broadcast_step(config, state, event).1
                == BroadcastActionView::SaveLastId(newest),
            BroadcastView::Addressing { message, newest } => event
                == BroadcastEventView::Subscribers(Seq::<i64>::empty()) && broadcast_step(
                config,
                state,
                event,
            ).1 == BroadcastActionView::SaveLastId(newest),
            _ => false,
        },
{
    if let BroadcastEventView::Subscribers(chats) = event {
        assert(chats.len() == 0 ==> chats =~= Seq::<i64>::empty());
    }
}

/// An announcement goes to the very chat that it is made for, whichever that
/// is, and brings the whole message, over the small panel and with previews.
pub proof fn law_announcement_reaches_its_chat(
    config: ConfigView,
    chat_id: i64,
    message: Seq<char>,
)
    ensures
        announcement(config, chat_id, message).chat_id == chat_id,
        announcement(config, chat_id, message).text == message,
        announcement(config, chat_id, message).parse_mode is None,
        announcement(config, chat_id, message).reply_markup == Some(
            secondary_rows(config.feed_url),
        ),
        !announcement(config, chat_id, message).disable_web_page_preview,
{
}

/// Whether the first `n` of `stories` were not announced yet, and the one
/// behind them, if there is one, was.
pub open spec fn unannounced(stories: Seq<StoryView>, last: Option<Seq<char>>, n: int) -> bool {
    &&& 0 <= n <= stories.len()
    &&& forall|i: int| 0 <= i < n ==> last != Some((#[trigger] stories[i]).id)
    &&& n < stories.len() ==> last == Some(stories[n].id)
}

proof fn lemma_fresh_stories_are_the_first(
    stories: Seq<StoryView>,
    last: Option<Seq<char>>,
    n: int,
)
    requires
        unannounced(stories, last, n),
    ensures
        fresh_stories(stories, last) == stories.take(n),
{
    law_fresh_stories_are_unannounced(stories, last);
    let found = fresh_stories(stories, last).len() as int;
    if n < found {
        assert(fresh_stories(stories, last)[n] == stories[n]);
    }
}

/// The chats that a broadcast sends to are the subscribed ones, each once and
/// in their order. Each gets the digest of what is new, the oldest first; then
/// the id of the newest headline is saved, and the broadcast ends.
pub proof fn law_subscribers_are_served_in_order(
    config: ConfigView,
    stories: Seq<StoryView>,
    last: Option<Seq<char>>,
    n: int,
    chats: Seq<i64>,
)
    requires
        unannounced(stories, last, n),
        n > 0,
    ensures
        ({
            let actions = broadcast_actions(config, stories, last, chats);
            let digest = curated(stories.take(n).reverse(), "🛰️ AutoPulse Dispatch"@);
            &&& actions.len() == chats.len() + 5
            &&& actions[0] == BroadcastActionView::FetchHeadlines
            &&& actions[1] == BroadcastActionView::ReadLastId
            &&& actions[2] == BroadcastActionView::ReadSubscribers
            &&& forall|i: int|
                3 <= i < chats.len() + 3 ==> #[trigger] actions[i] == BroadcastActionView::Send(
                    MessageView {
                        chat_id: chats[i - 3],
                        text: digest,
                        parse_mode: None,
                        reply_markup: Some(secondary_rows(config.feed_url)),
                        disable_web_page_preview: false,
                    },
                )
            &&& actions[chats.len() + 3int] == BroadcastActionView::SaveLastId(stories[0].id)
            &&& actions[chats.len() + 4int] == BroadcastActionView::Finish
        }),
{
    lemma_fresh_stories_are_the_first(stories, last, n);
    law_broadcast(config, stories, last, chats);
}

/// A broadcast moves on by what it was told: the headlines, the id announced
/// before, the subscribed chats, and that a message was sent or the id saved.
pub proof fn law_broadcast_moves_on(
    config: ConfigView,
    stories: Seq<StoryView>,
    last: Option<Seq<char>>,
    n: int,
    message: Seq<char>,
    newest: Seq<char>,
    chat_id: i64,
    chats: Seq<i64>,
)
    requires
        unannounced(stories, last, n),
    ensures
        broadcast_step(config, BroadcastView::Idle, BroadcastEventView::Started) == (
            BroadcastView::Fetching,
            BroadcastActionView::FetchHeadlines,
        ),
        broadcast_step(
            config,
            BroadcastView::Fetching,
            BroadcastEventView::Headlines(stories),
        ) == if stories.len() == 0 {
            (BroadcastView::Over, BroadcastActionView::Finish)
        } else {
            (BroadcastView::Comparing { stories }, BroadcastActionView::ReadLastId)
        },
        broadcast_step(
            config,
            BroadcastView::Comparing { stories },
            BroadcastEventView::LastId(last),
        ) == if n == 0 {
            (BroadcastView::Over, BroadcastActionView::Finish)
        } else {
            (
                BroadcastView::Addressing {
                    message: curated(stories.take(n).reverse(), "🛰️ AutoPulse Dispatch"@),
                    newest: stories[0].id,
                },
                BroadcastActionView::ReadSubscribers,
            )
        },
        broadcast_step(
            config,
            BroadcastView::Addressing { message, newest },
            BroadcastEventView::Subscribers(seq![chat_id] + chats),
        ) == (
            BroadcastView::Delivering { message, newest, remaining: chats },
            BroadcastActionView::Send(
                MessageView {
                    chat_id,
                    text: message,
                    parse_mode: None,
                    reply_markup: Some(secondary_rows(config.feed_url)),
                    disable_web_page_preview: false,
                },
            ),
        ),
        broadcast_step(
            config,
            BroadcastView::Addressing { message, newest },
            BroadcastEventView::Subscribers(Seq::empty()),
        ) == (BroadcastView::Recording, BroadcastActionView::SaveLastId(newest)),
        broadcast_step(
            config,
            BroadcastView::Delivering { message, newest, remaining: chats },
            BroadcastEventView::Done,
        ) == broadcast_step(
            config,
            BroadcastView::Addressing { message, newest },
            BroadcastEventView::Subscribers(chats),
        ),
        broadcast_step(config, BroadcastView::Recording, BroadcastEventView::Done) == (
            BroadcastView::Over,
            BroadcastActionView::Finish,
        ),
{
    lemma_fresh_stories_are_the_first(stories, last, n);
    assert((seq![chat_id] + chats).skip(1) =~= chats);
}

/// Whatever a broadcast is told out of turn ends it.
pub proof fn law_events_out_of_turn_end_the_broadcast(
    config: ConfigView,
    state: BroadcastView,
    event: BroadcastEventView,
)
    requires
        !(state is Idle && event is Started),
        !(state is Fetching && event is Headlines),
        !(state is Comparing && event is LastId),
        !(state is Addressing && event is Subscribers),
        !(state is Delivering && event is Done),
        !(state is Recording && event is Done),
    ensures
        broadcast_step(config, state, event) == (BroadcastView::Over, BroadcastActionView::Abort),
{
}

/// What is stated of a broadcast is stated of what it holds.
pub proof fn law_broadcast_view(state: Broadcast)
    ensures
        match state {
            Broadcast::Idle => state.deep_view() is Idle,
            Broadcast::Fetching => state.deep_view() is Fetching,
            Broadcast::Comparing { stories } => {
                &&& state.deep_view() matches BroadcastView::Comparing { stories: views }
                &&& views.len() == stories@.len()
                &&& forall|i: int|
                    0 <= i < views.len() ==> #[trigger] views[i] == stories@[i].deep_view()
            },
            Broadcast::Addressing { message, newest } => state.deep_view() == (
            BroadcastView::Addressing { message: message@, newest: newest@ }),
            Broadcast::Delivering { message, newest, remaining } => state.deep_view() == (
            BroadcastView::Delivering {
                message: message@,
                newest: newest@,
                remaining: remaining@,
            }),
            Broadcast::Recording => state.deep_view() is Recording,
            Broadcast::Over => state.deep_view() is Over,
        },
{
}

/// What is stated of an event is stated of what it holds.
pub proof fn law_broadcast_event_view(event: BroadcastEvent)
    ensures
        match event {
            BroadcastEvent::Started => event.deep_view() is Started,
            BroadcastEvent::Headlines(stories) => {
                &&& event.deep_view() matches BroadcastEventView::Headlines(views)
                &&& views.len() == stories@.len()
                &&& forall|i: int|
                    0 <= i < views.len() ==> #[trigger] views[i] == stories@[i].deep_view()
            },
            BroadcastEvent::LastId(Some(id)) => event.deep_view() == BroadcastEventView::LastId(
                Some(id@),
            ),
            BroadcastEvent::LastId(None) => event.deep_view() == BroadcastEventView::LastId(None),
            BroadcastEvent::Subscribers(chats) => event.deep_view()
                == BroadcastEventView::Subscribers(chats@),
            BroadcastEvent::Done => event.deep_view() is Done,
            BroadcastEvent::Failed => event.deep_view() is Failed,
        },
{
}

/// What is stated of an action is stated of what it holds.
pub proof fn law_broadcast_action_view(action: BroadcastAction)
    ensures
        match action {
            BroadcastAction::FetchHeadlines => action.deep_view() is FetchHeadlines,
            BroadcastAction::ReadLastId => action.deep_view() is ReadLastId,
            BroadcastAction::ReadSubscribers => action.deep_view() is ReadSubscribers,
            BroadcastAction::Send(payload) => action.deep_view() == BroadcastActionView::Send(
                payload.deep_view(),
            ),
            BroadcastAction::SaveLastId(id) => action.deep_view()
                == BroadcastActionView::SaveLastId(id@),
            BroadcastAction::Finish => action.deep_view() is Finish,
            BroadcastAction::Abort => action.deep_view() is Abort,
        },
{
}

/// The loop announces when it begins and after each pause, and pauses after
/// each announcement, for as long as it is set to, whether or not it failed.
pub proof fn law_loop_takes_turns(ctx: BotContext, event: AutoEvent, action: AutoAction)
    requires
        call_ensures(BotContext::auto_update, (&ctx, event), action),
    ensures
        event is Started || event is Slept ==> action is Announce,
        event is Announced || event is Failed ==> action == (AutoAction::Pause {
            seconds: ctx.config.check_interval,
        }),
{
}

/// What is collected are the stories in front of the one announced last, turned
/// round: the oldest comes first.
pub proof fn law_collected_stories(
    stories: Vec<Story>,
    last: Option<String>,
    n: int,
    fresh: Vec<Story>,
)
    requires
        call_ensures(collect_fresh, (&stories, &last), fresh),
        0 <= n <= stories@.len(),
        forall|i: int|
            0 <= i < n ==> (last matches Some(id) ==> id@ != (#[trigger] stories@[i]).id@),
        n < stories@.len() ==> (last matches Some(id) && id@ == stories@[n].id@),
    ensures
        fresh@.len() == n,
        forall|i: int|
            0 <= i < n ==> (#[trigger] fresh@[i]).deep_view() == stories@[n - 1 - i].deep_view(),
{
    let views = stories.deep_view();
    assert(views.len() == stories@.len());
    assert forall|i: int| 0 <= i < n implies last.deep_view() != Some((#[trigger] views[i]).id) by {
        assert(views[i] == stories@[i].deep_view());
    }
    if n < views.len() {
        assert(views[n] == stories@[n].deep_view());
    }
    lemma_fresh_stories_are_the_first(views, last.deep_view(), n);
    let turned = views.take(n).reverse();
    assert(fresh.deep_view() == turned);
    assert(fresh.deep_view().len() == turned.len());
    assert forall|i: int| 0 <= i < n implies (#[trigger] fresh@[i]).deep_view() == stories@[n - 1
        - i].deep_view() by {
        assert(fresh.deep_view()[i] == turned[i]);
    }
}

/// While chats are left, each step sends the message, unchanged, to the first
/// of them, and the others stay as they are; with none left the id is saved.
pub proof fn law_delivery_goes_chat_by_chat(
    ctx: BotContext,
    message: String,
    newest: String,
    chats: Vec<i64>,
    state: Broadcast,
    event: BroadcastEvent,
    step: (Broadcast, BroadcastAction),
)
    requires
        (state == (Broadcast::Addressing { message, newest }) && event
            == BroadcastEvent::Subscribers(chats)) || (state == (Broadcast::Delivering {
            message,
            newest,
            remaining: chats,
        }) && event is Done),
        call_ensures(BotContext::broadcast_latest_if_new, (&ctx, state, event), step),
    ensures
        chats@.len() > 0 ==> {
            &&& step.1 matches BroadcastAction::Send(payload) && payload.chat_id == chats@[0]
                && payload.text@ == message@ && payload.parse_mode is None
                && !payload.disable_web_page_preview
            &&& step.0 matches Broadcast::Delivering { message: kept, newest: id, remaining }
                && kept@ == message@ && id@ == newest@ && remaining@ == chats@.skip(1)
        },
        chats@.len() == 0 ==> step.0 is Recording && (step.1 matches BroadcastAction::SaveLastId(
            id,
        ) && id@ == newest@),
{
}

/// The first steps of a broadcast and its last one, as they are taken.
pub proof fn law_broadcast_steps(
    ctx: BotContext,
    stories: Vec<Story>,
    begun: (Broadcast, BroadcastAction),
    read: (Broadcast, BroadcastAction),
    saved: (Broadcast, BroadcastAction),
)
    requires
        call_ensures(
            BotContext::broadcast_latest_if_new,
            (&ctx, Broadcast::Idle, BroadcastEvent::Started),
            begun,
        ),
        call_ensures(
            BotContext::broadcast_latest_if_new,
            (&ctx, Broadcast::Fetching, BroadcastEvent::Headlines(stories)),
            read,
        ),
        call_ensures(
            BotContext::broadcast_latest_if_new,
            (&ctx, Broadcast::Recording, BroadcastEvent::Done),
            saved,
        ),
    ensures
        begun.0 is Fetching,
        begun.1 is FetchHeadlines,
        stories@.len() == 0 ==> read.0 is Over && read.1 is Finish,
        stories@.len() > 0 ==> read.1 is ReadLastId && (read.0 matches Broadcast::Comparing {
            stories: kept,
        } && kept.deep_view() == stories.deep_view()),
        saved.0 is Over,
        saved.1 is Finish,
{
    assert(stories.deep_view().len() == stories@.len());
}

/// What is compared decides: where nothing is new the broadcast ends, else the
/// digest of what was collected is to go out, and the id of the newest headline
/// to be saved.
pub proof fn law_broadcast_compares(
    ctx: BotContext,
    stories: Vec<Story>,
    last: Option<String>,
    fresh: Vec<Story>,
    listed: &[Story],
    heading: &str,
    digest: String,
    step: (Broadcast, BroadcastAction),
)
    requires
        stories@.len() > 0,
        call_ensures(collect_fresh, (&stories, &last), fresh),
        listed@ == fresh@,
        heading@ == "🛰️ AutoPulse Dispatch"@,
        call_ensures(BotContext::format_curated, (listed, heading), digest),
        call_ensures(
            BotContext::broadcast_latest_if_new,
            (&ctx, Broadcast::Comparing { stories }, BroadcastEvent::LastId(last)),
            step,
        ),
    ensures
        fresh@.len() == 0 ==> step.0 is Over && step.1 is Finish,
        fresh@.len() > 0 ==> step.1 is ReadSubscribers && (step.0 matches Broadcast::Addressing {
            message,
            newest,
        } && message@ == digest@ && newest@ == stories@[0].id@),
{
    assert(stories.deep_view()[0] == stories@[0].deep_view());
    assert(fresh.deep_view().len() == fresh@.len());
    assert(listed.deep_view() =~= fresh.deep_view());
}

/// A broadcast that is told of a failure, or of anything out of turn, is over,
/// and does nothing further.
pub proof fn law_broken_broadcast(
    ctx: BotContext,
    state: Broadcast,
    event: BroadcastEvent,
    step: (Broadcast, BroadcastAction),
)
    requires
        call_ensures(BotContext::broadcast_latest_if_new, (&ctx, state, event), step),
        event is Failed || state is Over || !{
            ||| state is Idle && event is Started
            ||| state is Fetching && event is Headlines
            ||| state is Comparing && event is LastId
            ||| state is Addressing && event is Subscribers
            ||| state is Delivering && event is Done
            ||| state is Recording && event is Done
        },
    ensures
        step.0 is Over,
        step.1 is Abort,
{
    law_events_out_of_turn_end_the_broadcast(
        ctx.config.deep_view(),
        state.deep_view(),
        event.deep_view(),
    );
}

} // verus!
