//! Carrying out what an update leads to, one action after the other.
use vstd::prelude::*;

use crate::bot::{brief_message, Action, ActionView, Bot};
use crate::config::ConfigView;
use crate::story::{Story, StoryView};
use crate::telegram::{AnswerCallbackPayload, AnswerView, MessageView, SendMessagePayload};

verus! {

/// How far an update is worked off: the actions that are left, and the chat
/// for whose brief the headlines were asked for, if they were.
#[derive(Debug)]
pub struct Reply {
    pub pending: Vec<Action>,
    pub brief_for: Option<i64>,
}

/// What a [`Reply`] holds.
pub struct ReplyView {
    pub pending: Seq<ActionView>,
    pub brief_for: Option<i64>,
}

impl DeepView for Reply {
    type V = ReplyView;

    open spec fn deep_view(&self) -> ReplyView {
        ReplyView { pending: self.pending.deep_view(), brief_for: self.brief_for }
    }
}

/// What a reply is told.
#[derive(Debug)]
pub enum ReplyEvent {
    /// The reply begins, or what was asked for was done.
    Done,
    /// The headlines that were asked for.
    Headlines(Vec<Story>),
    /// What was asked for failed.
    Failed,
}

/// What a [`ReplyEvent`] holds.
pub enum ReplyEventView {
    Done,
    Headlines(Seq<StoryView>),
    Failed,
}

impl DeepView for ReplyEvent {
    type V = ReplyEventView;

    open spec fn deep_view(&self) -> ReplyEventView {
        match self {
            ReplyEvent::Done => ReplyEventView::Done,
            ReplyEvent::Headlines(stories) => ReplyEventView::Headlines(stories.deep_view()),
            ReplyEvent::Failed => ReplyEventView::Failed,
        }
    }
}

/// What a reply does next.
#[derive(Debug)]
pub enum ReplyAction {
    /// Subscribe a chat.
    Subscribe(i64),
    /// Fetch the headlines.
    FetchHeadlines,
    /// Send a message.
    Send(SendMessagePayload),
    /// Answer a tapped button.
    Answer(AnswerCallbackPayload),
    /// End: all is done.
    Finish,
    /// End: something failed.
    Abort,
}

/// What a [`ReplyAction`] holds.
pub enum ReplyActionView {
    Subscribe(i64),
    FetchHeadlines,
    Send(MessageView),
    Answer(AnswerView),
    Finish,
    Abort,
}

impl DeepView for ReplyAction {
    type V = ReplyActionView;

    open spec fn deep_view(&self) -> ReplyActionView {
        match self {
            ReplyAction::Subscribe(chat_id) => ReplyActionView::Subscribe(*chat_id),
            ReplyAction::FetchHeadlines => ReplyActionView::FetchHeadlines,
            ReplyAction::Send(payload) => ReplyActionView::Send(payload.deep_view()),
            ReplyAction::Answer(payload) => ReplyActionView::Answer(payload.deep_view()),
            ReplyAction::Finish => ReplyActionView::Finish,
            ReplyAction::Abort => ReplyActionView::Abort,
        }
    }
}

/// A reply of which nothing is left.
pub open spec fn reply_over() -> ReplyView {
    ReplyView { pending: Seq::empty(), brief_for: None }
}

/// One step of a reply. An event that does not fit ends it as a failure does.
pub open spec fn reply_step(config: ConfigView, state: ReplyView, event: ReplyEventView) -> (
    ReplyView,
    ReplyActionView,
) {
    match (state.brief_for, event) {
        (Some(chat_id), ReplyEventView::Headlines(stories)) => (
            ReplyView { pending: state.pending, brief_for: None },
            ReplyActionView::Send(brief_message(config, chat_id, stories)),
        ),
        (None, ReplyEventView::Done) => if state.pending.len() == 0 {
            (reply_over(), ReplyActionView::Finish)
        } else {
            let rest = state.pending.skip(1);
            match state.pending[0] {
                ActionView::Subscribe(chat_id) => (
                    ReplyView { pending: rest, brief_for: None },
                    ReplyActionView::Subscribe(chat_id),
                ),
                ActionView::Send(payload) => (
                    ReplyView { pending: rest, brief_for: None },
                    ReplyActionView::Send(payload),
                ),
                ActionView::SendBrief(chat_id) => (
                    ReplyView { pending: rest, brief_for: Some(chat_id) },
                    ReplyActionView::FetchHeadlines,
                ),
                ActionView::Answer(payload) => (
                    ReplyView { pending: rest, brief_for: None },
                    ReplyActionView::Answer(payload),
                ),
            }
        },
        _ => (reply_over(), ReplyActionView::Abort),
    }
}

impl Reply {
    /// A reply of which nothing was done yet.
    pub fn new(actions: Vec<Action>) -> (reply: Reply)
        ensures
            reply.deep_view() == (ReplyView { pending: actions.deep_view(), brief_for: None }),
    {
        Reply { pending: actions, brief_for: None }
    }

    fn over() -> (reply: Reply)
        ensures
            reply.deep_view() == reply_over(),
    {
        let pending: Vec<Action> = Vec::new();
        assert(pending.deep_view() =~= Seq::<ActionView>::empty());
        Reply { pending, brief_for: None }
    }
}

impl Bot {
    /// Drives a reply: takes how far it has come and what happened, and says
    /// what to do next.
    pub fn reply(&self, state: Reply, event: ReplyEvent) -> (step: (Reply, ReplyAction))
        ensures
            (step.0.deep_view(), step.1.deep_view()) == reply_step(
                self.ctx.config.deep_view(),
                state.deep_view(),
                event.deep_view(),
            ),
    {
        let mut pending = state.pending;
        match (state.brief_for, event) {
            (Some(chat_id), ReplyEvent::Headlines(stories)) => {
                let payload = self.send_curated_brief(chat_id, stories.as_slice());
                (Reply { pending, brief_for: None }, ReplyAction::Send(payload))
            },
            (None, ReplyEvent::Done) => {
                if pending.len() == 0 {
                    return (Reply::over(), ReplyAction::Finish);
                }
                let ghost views = pending.deep_view();
                let action = pending.remove(0);
                assert(pending.deep_view() =~= views.skip(1));
                match action {
                    Action::Subscribe(chat_id) => (
                        Reply { pending, brief_for: None },
                        ReplyAction::Subscribe(chat_id),
                    ),
                    Action::Send(payload) => (
                        Reply { pending, brief_for: None },
                        ReplyAction::Send(payload),
                    ),
                    Action::SendBrief(chat_id) => (
                        Reply { pending, brief_for: Some(chat_id) },
                        ReplyAction::FetchHeadlines,
                    ),
                    Action::Answer(payload) => (
                        Reply { pending, brief_for: None },
                        ReplyAction::Answer(payload),
                    ),
                }
            },
            _ => (Reply::over(), ReplyAction::Abort),
        }
    }
}

/// What one action of a plan comes to, given the headlines.
pub open spec fn carried_out(
    config: ConfigView,
    action: ActionView,
    stories: Seq<StoryView>,
) -> Seq<ReplyActionView> {
    match action {
        ActionView::Subscribe(chat_id) => seq![ReplyActionView::Subscribe(chat_id)],
        ActionView::Send(payload) => seq![ReplyActionView::Send(payload)],
        ActionView::SendBrief(chat_id) => seq![
            ReplyActionView::FetchHeadlines,
            ReplyActionView::Send(brief_message(config, chat_id, stories)),
        ],
        ActionView::Answer(payload) => seq![ReplyActionView::Answer(payload)],
    }
}

/// What a whole plan comes to, given the headlines.
pub open spec fn plan_carried_out(
    config: ConfigView,
    plan: Seq<ActionView>,
    stories: Seq<StoryView>,
) -> Seq<ReplyActionView>
    decreases plan.len(),
{
    if plan.len() == 0 {
        seq![ReplyActionView::Finish]
    } else {
        carried_out(config, plan[0], stories) + plan_carried_out(config, plan.skip(1), stories)
    }
}

/// What a reply does from `state` on, over `steps` steps, while everything that
/// it asks for succeeds and `stories` are the headlines.
pub open spec fn reply_actions(
    config: ConfigView,
    state: ReplyView,
    stories: Seq<StoryView>,
    steps: nat,
) -> Seq<ReplyActionView>
    decreases steps,
{
    if steps == 0 {
        Seq::empty()
    } else {
        let event = if state.brief_for is Some {
            ReplyEventView::Headlines(stories)
        } else {
            ReplyEventView::Done
        };
        let (next, action) = reply_step(config, state, event);
        seq![action] + reply_actions(config, next, stories, (steps - 1) as nat)
    }
}

/// While everything succeeds, a plan is carried out whole and in order, and
/// then the reply ends.
pub proof fn law_plan_is_carried_out(
    config: ConfigView,
    plan: Seq<ActionView>,
    stories: Seq<StoryView>,
)
    ensures
        reply_actions(
            config,
            ReplyView { pending: plan, brief_for: None },
            stories,
            plan_carried_out(config, plan, stories).len(),
        ) == plan_carried_out(config, plan, stories),
    decreases plan.len(),
{
    if plan.len() == 0 {
        reveal_with_fuel(reply_actions, 2);
    } else {
        let rest = plan.skip(1);
        law_plan_is_carried_out(config, rest, stories);
        let later = plan_carried_out(config, rest, stories);
        if let ActionView::SendBrief(chat_id) = plan[0] {
            let fetching = ReplyView { pending: rest, brief_for: Some(chat_id) };
            let brief = ReplyActionView::Send(brief_message(config, chat_id, stories));
            assert(reply_actions(config, fetching, stories, later.len() + 1) =~= seq![brief]
                + later);
        }
    }
}

/// A failure ends the reply wherever it happens, and what was left of the plan
/// is dropped.
pub proof fn law_failure_ends_the_reply(config: ConfigView, state: ReplyView)
    ensures
        reply_step(config, state, ReplyEventView::Failed) == (
            reply_over(),
            ReplyActionView::Abort,
        ),
{
}

/// A reply takes up the first action that is left, and the rest stays as it is:
/// what is to be sent goes out unchanged, and for a brief the headlines are
/// fetched first. Once nothing is left the reply ends.
pub proof fn law_reply_takes_up_the_first_action(
    config: ConfigView,
    action: ActionView,
    rest: Seq<ActionView>,
)
    ensures
        ({
            let state = ReplyView { pending: seq![action] + rest, brief_for: None };
            let (next, done) = reply_step(config, state, ReplyEventView::Done);
            &&& next.pending == rest
            &&& match action {
                ActionView::Subscribe(chat_id) => next.brief_for is None && done
                    == ReplyActionView::Subscribe(chat_id),
                ActionView::Send(payload) => next.brief_for is None && done
                    == ReplyActionView::Send(payload),
                ActionView::SendBrief(chat_id) => next.brief_for == Some(chat_id) && done
                    == ReplyActionView::FetchHeadlines,
                ActionView::Answer(payload) => next.brief_for is None && done
                    == ReplyActionView::Answer(payload),
            }
        }),
        ({
            let state = ReplyView { pending: Seq::empty(), brief_for: None };
            let (next, done) = reply_step(config, state, ReplyEventView::Done);
            &&& next.pending.len() == 0
            &&& next.brief_for is None
            &&& done == ReplyActionView::Finish
        }),
{
    assert((seq![action] + rest).skip(1) =~= rest);
}

/// The headlines go, as a brief, to the chat that they were fetched for, and
/// what was left of the plan is still left.
pub proof fn law_headlines_become_the_brief(
    config: ConfigView,
    chat_id: i64,
    pending: Seq<ActionView>,
    stories: Seq<StoryView>,
)
    ensures
        ({
            let state = ReplyView { pending, brief_for: Some(chat_id) };
            let (next, done) = reply_step(config, state, ReplyEventView::Headlines(stories));
            &&& next.pending == pending
            &&& next.brief_for is None
            &&& done matches ReplyActionView::Send(brief)
            &&& brief == brief_message(config, chat_id, stories)
            &&& brief.chat_id == chat_id
        }),
{
}

/// Whatever a reply is told out of turn ends it, and what was left of the plan
/// is dropped.
pub proof fn law_events_out_of_turn_end_the_reply(
    config: ConfigView,
    state: ReplyView,
    event: ReplyEventView,
)
    requires
        !(state.brief_for is Some && event is Headlines),
        !(state.brief_for is None && event is Done),
    ensures
        reply_step(config, state, event).0.pending.len() == 0,
        reply_step(config, state, event).0.brief_for is None,
        reply_step(config, state, event).1 is Abort,
{
}

/// What is stated of a reply is stated of its fields.
pub proof fn law_reply_view(reply: Reply)
    ensures
        reply.deep_view().brief_for == reply.brief_for,
        reply.deep_view().pending.len() == reply.pending@.len(),
        forall|i: int|
            0 <= i < reply.pending@.len() ==> #[trigger] reply.deep_view().pending[i]
                == reply.pending@[i].deep_view(),
{
}

/// What is stated of an event is stated of what it holds.
pub proof fn law_reply_event_view(event: ReplyEvent)
    ensures
        match event {
            ReplyEvent::Done => event.deep_view() is Done,
            ReplyEvent::Headlines(stories) => {
                &&& event.deep_view() matches ReplyEventView::Headlines(views)
                &&& views.len() == stories@.len()
                &&& forall|i: int|
                    0 <= i < views.len() ==> #[trigger] views[i] == stories@[i].deep_view()
            },
            ReplyEvent::Failed => event.deep_view() is Failed,
        },
{
}

/// What is stated of an action is stated of what it holds.
pub proof fn law_reply_action_view(action: ReplyAction)
    ensures
        match action {
            ReplyAction::Subscribe(chat_id) => action.deep_view() == ReplyActionView::Subscribe(
                chat_id,
            ),
            ReplyAction::FetchHeadlines => action.deep_view() is FetchHeadlines,
            ReplyAction::Send(payload) => action.deep_view() == ReplyActionView::Send(
                payload.deep_view(),
            ),
            ReplyAction::Answer(payload) => action.deep_view() == ReplyActionView::Answer(
                payload.deep_view(),
            ),
            ReplyAction::Finish => action.deep_view() is Finish,
            ReplyAction::Abort => action.deep_view() is Abort,
        },
{
}

/// A new reply has the whole plan before it, and takes up the first action as
/// it is: only for a brief are the headlines fetched first.
pub proof fn law_new_reply_begins_the_plan(
    bot: Bot,
    actions: Vec<Action>,
    reply: Reply,
    step: (Reply, ReplyAction),
)
    requires
        call_ensures(Reply::new, (actions,), reply),
        call_ensures(Bot::reply, (&bot, reply, ReplyEvent::Done), step),
    ensures
        reply.brief_for is None,
        reply.pending.deep_view() == actions.deep_view(),
        actions@.len() == 0 ==> step.1 is Finish,
        actions@.len() > 0 ==> {
            &&& step.0.pending.deep_view() == actions.deep_view().skip(1)
            &&& match actions@[0] {
                Action::Subscribe(chat_id) => step.1 == ReplyAction::Subscribe(chat_id)
                    && step.0.brief_for is None,
                Action::Send(payload) => step.1 matches ReplyAction::Send(sent)
                    && sent.deep_view() == payload.deep_view() && step.0.brief_for is None,
                Action::SendBrief(chat_id) => step.1 is FetchHeadlines && step.0.brief_for == Some(
                    chat_id,
                ),
                Action::Answer(payload) => step.1 matches ReplyAction::Answer(sent)
                    && sent.deep_view() == payload.deep_view() && step.0.brief_for is None,
            }
        },
{
    assert(actions.deep_view().len() == actions@.len());
    if actions@.len() > 0 {
        assert(actions.deep_view()[0] == actions@[0].deep_view());
    }
}

/// The headlines that were fetched for a chat go out as its brief.
pub proof fn law_fetched_headlines_are_sent(
    bot: Bot,
    chat_id: i64,
    state: Reply,
    stories: Vec<Story>,
    listed: &[Story],
    brief: SendMessagePayload,
    step: (Reply, ReplyAction),
)
    requires
        state.brief_for == Some(chat_id),
        listed@ == stories@,
        call_ensures(Bot::send_curated_brief, (&bot, chat_id, listed), brief),
        call_ensures(Bot::reply, (&bot, state, ReplyEvent::Headlines(stories)), step),
    ensures
        step.0.brief_for is None,
        step.0.pending.deep_view() == state.pending.deep_view(),
        step.1 matches ReplyAction::Send(sent) && sent.deep_view() == brief.deep_view(),
{
    assert(listed.deep_view() =~= stories.deep_view());
}

/// A reply that is told of a failure, or of anything out of turn, is over, and
/// what was left of the plan is dropped.
pub proof fn law_broken_reply(
    bot: Bot,
    state: Reply,
    event: ReplyEvent,
    step: (Reply, ReplyAction),
)
    requires
        call_ensures(Bot::reply, (&bot, state, event), step),
        event is Failed || (event is Headlines && state.brief_for is None) || (event is Done
            && state.brief_for is Some),
    ensures
        step.0.pending@.len() == 0,
        step.0.brief_for is None,
        step.1 is Abort,
{
    law_events_out_of_turn_end_the_reply(
        bot.ctx.config.deep_view(),
        state.deep_view(),
        event.deep_view(),
    );
    assert(step.0.pending.deep_view().len() == step.0.pending@.len());
}

} // verus!
