use daily_pulse::broadcast::{
    collect_fresh, AutoAction, AutoEvent, Broadcast, BroadcastAction, BroadcastEvent,
};
use daily_pulse::config::Config;
use daily_pulse::context::BotContext;
use daily_pulse::story::Story;

fn ctx() -> BotContext {
    BotContext { config: Config::from_env("t".to_string(), None, None, None, None) }
}

fn story(id: &str) -> Story {
    Story {
        id: id.to_string(),
        title: format!("T{id}"),
        summary: format!("S{id}."),
        link: format!("L{id}"),
    }
}

fn stories(ids: &[&str]) -> Vec<Story> {
    ids.iter().map(|id| story(id)).collect()
}

/// What a whole broadcast did, with a failure in place of the outcome of the
/// action at `fail_at`.
fn run(
    headlines: &[&str],
    last: Option<&str>,
    chats: &[i64],
    fail_at: Option<usize>,
) -> Vec<String> {
    let ctx = ctx();
    let mut log = Vec::new();
    let mut state = Broadcast::Idle;
    let mut event = BroadcastEvent::Started;
    loop {
        let (next, action) = ctx.broadcast_latest_if_new(state, event);
        state = next;
        event = match &action {
            BroadcastAction::FetchHeadlines => {
                log.push("fetch".to_string());
                BroadcastEvent::Headlines(stories(headlines))
            }
            BroadcastAction::ReadLastId => {
                log.push("last".to_string());
                BroadcastEvent::LastId(last.map(str::to_string))
            }
            BroadcastAction::ReadSubscribers => {
                log.push("chats".to_string());
                BroadcastEvent::Subscribers(chats.to_vec())
            }
            BroadcastAction::Send(payload) => {
                assert!(!payload.disable_web_page_preview);
                assert_eq!(payload.reply_markup.as_ref().unwrap().inline_keyboard.len(), 2);
                log.push(format!("send {}: {}", payload.chat_id, payload.text));
                BroadcastEvent::Done
            }
            BroadcastAction::SaveLastId(id) => {
                log.push(format!("save {id}"));
                BroadcastEvent::Done
            }
            BroadcastAction::Finish => {
                log.push("finish".to_string());
                return log;
            }
            BroadcastAction::Abort => {
                log.push("abort".to_string());
                return log;
            }
        };
        if fail_at == Some(log.len() - 1) {
            event = BroadcastEvent::Failed;
        }
    }
}

const NEW_TEXT: &str =
    "🛰️ AutoPulse Dispatch\n\n① Tb\nSb.\n🔗 Lb\n\n② Ta\nSa.\n🔗 La\n\n";

#[test]
fn fresh_stories_come_oldest_first() {
    let ids = |headlines: &[&str], last: Option<&str>| -> Vec<String> {
        collect_fresh(&stories(headlines), &last.map(str::to_string))
            .into_iter()
            .map(|story| story.id)
            .collect()
    };
    assert_eq!(ids(&["a", "b", "c"], Some("c")), vec!["b", "a"]);
    assert_eq!(ids(&["a", "b", "c"], None), vec!["c", "b", "a"]);
    assert_eq!(ids(&["a", "b", "c"], Some("gone")), vec!["c", "b", "a"]);
    assert!(ids(&["a", "b", "c"], Some("a")).is_empty());
    assert_eq!(ids(&["a", "b", "a"], Some("b")), vec!["a"]);
    assert!(ids(&[], None).is_empty());
}

#[test]
fn new_stories_go_to_every_chat_and_are_then_remembered() {
    assert_eq!(
        run(&["a", "b", "c"], Some("c"), &[7, -8], None),
        vec![
            "fetch".to_string(),
            "last".to_string(),
            "chats".to_string(),
            format!("send 7: {NEW_TEXT}"),
            format!("send -8: {NEW_TEXT}"),
            "save a".to_string(),
            "finish".to_string(),
        ]
    );
}

#[test]
fn the_first_broadcast_announces_everything() {
    let log = run(&["a", "b"], None, &[1], None);
    assert_eq!(log[3], format!("send 1: {NEW_TEXT}"));
    assert_eq!(log[4], "save a");
}

#[test]
fn without_chats_the_newest_story_is_still_remembered() {
    assert_eq!(run(&["a", "b"], None, &[], None), vec!["fetch", "last", "chats", "save a", "finish"]);
}

#[test]
fn nothing_is_announced_twice() {
    let first = run(&["a", "b"], Some("b"), &[1], None);
    assert_eq!(first[4], "save a");
    assert_eq!(run(&["a", "b"], Some("a"), &[1], None), vec!["fetch", "last", "finish"]);
}

#[test]
fn an_empty_feed_ends_the_broadcast() {
    assert_eq!(run(&[], None, &[1], None), vec!["fetch", "finish"]);
}

#[test]
fn a_failed_delivery_leaves_the_story_unremembered() {
    for fail_at in 0..6 {
        let log = run(&["a", "b", "c"], Some("c"), &[7, -8], Some(fail_at));
        assert_eq!(log.len(), fail_at + 2);
        assert_eq!(log[fail_at + 1], "abort");
        assert_eq!(log.contains(&"save a".to_string()), fail_at == 5);
    }
}

#[test]
fn announcements_and_pauses_take_turns_even_after_a_failure() {
    let interval = Some("45".to_string());
    let config = Config::from_env("t".to_string(), None, None, interval, None);
    let ctx = BotContext { config };
    assert_eq!(ctx.auto_update(AutoEvent::Started), AutoAction::Announce);
    assert_eq!(ctx.auto_update(AutoEvent::Announced), AutoAction::Pause { seconds: 45 });
    assert_eq!(ctx.auto_update(AutoEvent::Failed), AutoAction::Pause { seconds: 45 });
    assert_eq!(ctx.auto_update(AutoEvent::Slept), AutoAction::Announce);
}

#[test]
fn an_event_out_of_turn_aborts() {
    let (state, action) = ctx().broadcast_latest_if_new(Broadcast::Idle, BroadcastEvent::Done);
    assert!(matches!(state, Broadcast::Over));
    assert!(matches!(action, BroadcastAction::Abort));
    let (state, action) = ctx().broadcast_latest_if_new(state, BroadcastEvent::Started);
    assert!(matches!(state, Broadcast::Over));
    assert!(matches!(action, BroadcastAction::Abort));
}
