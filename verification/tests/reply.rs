use daily_pulse::bot::{Action, Bot};
use daily_pulse::config::Config;
use daily_pulse::reply::{Reply, ReplyAction, ReplyEvent};
use daily_pulse::story::Story;
use daily_pulse::telegram::{CallbackQuery, Chat, Message};

fn bot() -> Bot {
    Bot::new(Config::from_env("t".to_string(), None, None, None, None))
}

fn tap(data: &str) -> Vec<Action> {
    bot()
        .handle_callback(CallbackQuery {
            id: "q".to_string(),
            data: Some(data.to_string()),
            message: Some(Message { message_id: 1, chat: Chat { id: 6 }, text: None }),
        })
        .unwrap()
}

/// What a whole reply did, with a failure in place of the outcome of the action
/// at `fail_at`.
fn run(actions: Vec<Action>, titles: &[&str], fail_at: Option<usize>) -> Vec<String> {
    let bot = bot();
    let mut log = Vec::new();
    let mut state = Reply::new(actions);
    let mut event = ReplyEvent::Done;
    loop {
        let (next, action) = bot.reply(state, event);
        state = next;
        event = match &action {
            ReplyAction::Subscribe(chat) => {
                log.push(format!("subscribe {chat}"));
                ReplyEvent::Done
            }
            ReplyAction::FetchHeadlines => {
                log.push("fetch".to_string());
                ReplyEvent::Headlines(
                    titles
                        .iter()
                        .map(|title| Story {
                            id: "i".to_string(),
                            title: title.to_string(),
                            summary: "s".to_string(),
                            link: "l".to_string(),
                        })
                        .collect(),
                )
            }
            ReplyAction::Send(payload) => {
                log.push(format!("send {}: {}", payload.chat_id, payload.text));
                ReplyEvent::Done
            }
            ReplyAction::Answer(payload) => {
                log.push(format!("answer {}: {}", payload.callback_query_id, payload.text));
                ReplyEvent::Done
            }
            ReplyAction::Finish => {
                log.push("finish".to_string());
                return log;
            }
            ReplyAction::Abort => {
                log.push("abort".to_string());
                return log;
            }
        };
        if fail_at == Some(log.len() - 1) {
            event = ReplyEvent::Failed;
        }
    }
}

#[test]
fn a_plan_is_carried_out_in_order() {
    assert_eq!(
        run(tap("tips"), &[], None),
        vec![
            "subscribe 6",
            "send 6: 💡 Tip: Add this bot to any channel as admin and tap AutoPulse for autonomous drops.",
            "answer q: Noted ✅",
            "finish",
        ]
    );
    assert_eq!(run(tap("?"), &[], None), vec!["subscribe 6", "answer q: Roger that", "finish"]);
    assert_eq!(run(vec![], &[], None), vec!["finish"]);
}

#[test]
fn a_brief_waits_for_the_headlines() {
    assert_eq!(
        run(tap("latest"), &["A", "B"], None),
        vec![
            "subscribe 6",
            "fetch",
            "send 6: 🧠 AI Recap\n\n① A\ns\n🔗 l\n\n② B\ns\n🔗 l\n\n",
            "answer q: Feed refreshed 🔄",
            "finish",
        ]
    );
    assert_eq!(
        run(tap("ai_recap"), &[], None),
        vec![
            "subscribe 6",
            "fetch",
            "send 6: 🌫️ Radar quiet. No fresh stories from the feed yet.",
            "answer q: Rendering recap ✨",
            "finish",
        ]
    );
}

#[test]
fn a_failed_action_drops_the_rest() {
    for fail_at in 0..4 {
        let log = run(tap("latest"), &["A"], Some(fail_at));
        assert_eq!(log.len(), fail_at + 2);
        assert_eq!(log[fail_at + 1], "abort");
    }
}

#[test]
fn headlines_out_of_turn_end_the_reply() {
    let (state, action) = bot().reply(Reply::new(tap("tips")), ReplyEvent::Headlines(vec![]));
    assert!(state.pending.is_empty());
    assert_eq!(state.brief_for, None);
    assert!(matches!(action, ReplyAction::Abort));
}
