use agent_runtime::agent::Prompt;
use agent_runtime::cycle::{Action, Event, RunError};
use agent_runtime::providers::{ChannelMessage, Tweet, TwitterType};
use agent_runtime::runtime::Runtime;

fn runtime_with(templates: &[&str], memory: Vec<String>) -> Runtime {
    let mut runtime =
        Runtime::new("key", "hook", None, None, None, None, Some("u"), Some("p"), memory)
            .ok()
            .expect("a username and a password are given");
    for template in templates {
        runtime.add_agent(template);
    }
    runtime
}

fn account() -> TwitterType {
    TwitterType::Ai16zTwitter { username: "u".to_string(), password: "p".to_string() }
}

/// Drives one cycle as a caller would, with collaborators that answer
/// as given, and returns every action that the runtime asked for.
fn drive(
    runtime: &mut Runtime,
    generated: Result<String, String>,
    saved: Result<(), String>,
    published: Result<(), String>,
) -> Vec<Action<String>> {
    let mut actions = Vec::new();
    let mut event = Event::Start;
    loop {
        let action = runtime.run(event);
        event = match &action {
            Action::Prompt(_) => Event::Prompted(generated.clone()),
            Action::Save { text } => Event::Saved { text: text.clone(), result: saved.clone() },
            Action::SendChannelMessage(message) => Event::MessageSent { text: message.text.clone() },
            Action::Tweet(_) => Event::Tweeted(published.clone()),
            Action::Finish(_) => {
                actions.push(action);
                return actions;
            }
        };
        actions.push(action);
        assert!(actions.len() <= 5, "a cycle asks for five actions at most");
    }
}

#[test]
fn an_empty_pool_is_reported() {
    let mut runtime = runtime_with(&[], vec!["old".to_string()]);
    let action: Action<String> = runtime.run(Event::Start);
    assert_eq!(action, Action::Finish(Err(RunError::NoAgents)));
    assert_eq!(runtime.memory(), &vec!["old".to_string()]);
    assert_eq!(runtime.twitter(), &account());
    assert!(runtime.agents().is_empty());
}

#[test]
fn an_empty_pool_asks_for_nothing() {
    let mut runtime = runtime_with(&[], Vec::new());
    let actions = drive(&mut runtime, Ok("text".to_string()), Ok(()), Ok(()));
    assert_eq!(actions, vec![Action::Finish(Err(RunError::NoAgents))]);
    assert!(runtime.memory().is_empty());
}

#[test]
fn an_empty_pool_is_reported_every_time() {
    let mut runtime = runtime_with(&[], Vec::new());
    for _ in 0..3 {
        let action: Action<String> = runtime.run(Event::Start);
        assert_eq!(action, Action::Finish(Err(RunError::NoAgents)));
    }
}

#[test]
fn the_only_agent_is_selected() {
    let mut runtime = runtime_with(&["poet"], Vec::new());
    let action: Action<String> = runtime.run(Event::Start);
    assert_eq!(
        action,
        Action::Prompt(Prompt {
            openai_api_key: "key".to_string(),
            template: "poet".to_string(),
            instruction: "tweet".to_string(),
        })
    );
}

#[test]
fn the_selected_agent_is_in_the_pool() {
    let templates = ["poet", "critic", "jester"];
    let mut runtime = runtime_with(&templates, Vec::new());
    let mut seen = [false; 3];
    for _ in 0..300 {
        let action: Action<String> = runtime.run(Event::Start);
        match action {
            Action::Prompt(prompt) => {
                assert_eq!(prompt.openai_api_key, "key");
                assert_eq!(prompt.instruction, "tweet");
                let index = templates.iter().position(|t| *t == prompt.template);
                assert!(index.is_some(), "the template is none of the pool's");
                seen[index.unwrap()] = true;
            }
            other => panic!("a cycle on a pool with agents starts with a prompt, not {:?}", other),
        }
    }
    assert_eq!(seen, [true, true, true], "three hundred draws reach every agent");
    assert_eq!(runtime.agents().len(), 3);
    assert!(runtime.memory().is_empty());
}

#[test]
fn a_given_draw_selects_that_agent() {
    let templates = ["poet", "critic", "jester"];
    let mut runtime = runtime_with(&templates, Vec::new());
    for (draw, template) in templates.iter().enumerate() {
        let action: Action<String> = runtime.run_with(Event::Start, draw);
        assert_eq!(
            action,
            Action::Prompt(Prompt {
                openai_api_key: "key".to_string(),
                template: template.to_string(),
                instruction: "tweet".to_string(),
            })
        );
    }
}

#[test]
fn the_draw_plays_no_part_on_an_empty_pool() {
    let mut runtime = runtime_with(&[], Vec::new());
    let action: Action<String> = runtime.run_with(Event::Start, 7);
    assert_eq!(action, Action::Finish(Err(RunError::NoAgents)));
}

#[test]
fn agents_are_added_at_the_end() {
    let mut runtime = runtime_with(&["poet"], Vec::new());
    runtime.add_agent("critic");
    assert_eq!(runtime.agents().len(), 2);
    assert_eq!(runtime.agents()[0].prompt("tweet").template, "poet");
    assert_eq!(runtime.agents()[1].prompt("tweet").template, "critic");
    assert_eq!(runtime.agents()[1].prompt("tweet").openai_api_key, "key");
    assert!(runtime.memory().is_empty());
    assert_eq!(runtime.twitter(), &account());
}

#[test]
fn the_same_template_may_be_added_twice() {
    let mut runtime = runtime_with(&["poet", "poet"], Vec::new());
    assert_eq!(runtime.agents().len(), 2);
    let action: Action<String> = runtime.run_with(Event::Start, 1);
    assert!(matches!(action, Action::Prompt(prompt) if prompt.template == "poet"));
}

#[test]
fn a_full_cycle_publishes_what_was_generated() {
    let mut runtime = runtime_with(&["poet"], vec!["old".to_string()]);
    let actions = drive(&mut runtime, Ok("hello".to_string()), Ok(()), Ok(()));
    assert_eq!(
        actions,
        vec![
            Action::Prompt(Prompt {
                openai_api_key: "key".to_string(),
                template: "poet".to_string(),
                instruction: "tweet".to_string(),
            }),
            Action::Save { text: "hello".to_string() },
            Action::SendChannelMessage(ChannelMessage {
                webhook_url: "hook".to_string(),
                text: "hello".to_string(),
            }),
            Action::Tweet(Tweet { account: account(), text: "hello".to_string() }),
            Action::Finish(Ok(())),
        ]
    );
    assert_eq!(runtime.memory(), &vec!["old".to_string(), "hello".to_string()]);
}

#[test]
fn a_failed_generation_ends_the_cycle() {
    let mut runtime = runtime_with(&["poet"], vec!["old".to_string()]);
    let actions = drive(&mut runtime, Err("quota".to_string()), Ok(()), Ok(()));
    assert_eq!(actions.len(), 2);
    assert!(matches!(actions[0], Action::Prompt(_)));
    assert_eq!(actions[1], Action::Finish(Err(RunError::Generation("quota".to_string()))));
    assert_eq!(runtime.memory(), &vec!["old".to_string()]);
}

#[test]
fn a_failed_save_does_not_stop_the_cycle() {
    let mut runtime = runtime_with(&["poet"], Vec::new());
    let actions = drive(&mut runtime, Ok("hello".to_string()), Err("disk full".to_string()), Ok(()));
    assert_eq!(actions.len(), 5);
    assert_eq!(
        actions[2],
        Action::SendChannelMessage(ChannelMessage {
            webhook_url: "hook".to_string(),
            text: "hello".to_string(),
        })
    );
    assert_eq!(actions[3], Action::Tweet(Tweet { account: account(), text: "hello".to_string() }));
    assert_eq!(actions[4], Action::Finish(Ok(())));
    assert_eq!(runtime.memory(), &vec!["hello".to_string()]);
}

#[test]
fn a_failed_publish_is_returned_and_the_text_is_kept() {
    let mut runtime = runtime_with(&["poet"], vec!["old".to_string()]);
    let actions = drive(&mut runtime, Ok("hello".to_string()), Ok(()), Err("rate limit".to_string()));
    assert_eq!(actions.len(), 5);
    assert_eq!(actions[4], Action::Finish(Err(RunError::Publish("rate limit".to_string()))));
    assert_eq!(runtime.memory(), &vec!["old".to_string(), "hello".to_string()]);
}

#[test]
fn a_failed_save_and_a_failed_publish_together() {
    let mut runtime = runtime_with(&["poet"], Vec::new());
    let actions = drive(
        &mut runtime,
        Ok("hello".to_string()),
        Err("disk full".to_string()),
        Err("rate limit".to_string()),
    );
    assert_eq!(actions.len(), 5);
    assert!(matches!(actions[3], Action::Tweet(_)));
    assert_eq!(actions[4], Action::Finish(Err(RunError::Publish("rate limit".to_string()))));
    assert_eq!(runtime.memory(), &vec!["hello".to_string()]);
}

#[test]
fn the_key_identity_is_published_under() {
    let mut runtime = Runtime::new(
        "key",
        "hook",
        Some("ck"),
        Some("cs"),
        Some("at"),
        Some("ats"),
        None,
        None,
        Vec::new(),
    )
    .ok()
    .expect("all four keys are given");
    runtime.add_agent("poet");
    let actions = drive(&mut runtime, Ok("hello".to_string()), Ok(()), Ok(()));
    assert_eq!(
        actions[3],
        Action::Tweet(Tweet {
            account: TwitterType::ApiKeys {
                consumer_key: "ck".to_string(),
                consumer_secret: "cs".to_string(),
                access_token: "at".to_string(),
                access_token_secret: "ats".to_string(),
            },
            text: "hello".to_string(),
        })
    );
}

#[test]
fn cycles_append_in_order() {
    let mut runtime = runtime_with(&["poet", "critic"], Vec::new());
    drive(&mut runtime, Ok("one".to_string()), Ok(()), Ok(()));
    drive(&mut runtime, Err("quota".to_string()), Ok(()), Ok(()));
    drive(&mut runtime, Ok("two".to_string()), Err("disk full".to_string()), Err("down".to_string()));
    drive(&mut runtime, Ok("one".to_string()), Ok(()), Ok(()));
    assert_eq!(
        runtime.memory(),
        &vec!["one".to_string(), "two".to_string(), "one".to_string()]
    );
}

#[test]
fn an_empty_text_is_published_like_any_other() {
    let mut runtime = runtime_with(&["poet"], Vec::new());
    let actions = drive(&mut runtime, Ok(String::new()), Ok(()), Ok(()));
    assert_eq!(actions.len(), 5);
    assert_eq!(actions[1], Action::Save { text: String::new() });
    assert_eq!(actions[3], Action::Tweet(Tweet { account: account(), text: String::new() }));
    assert_eq!(runtime.memory(), &vec![String::new()]);
}

#[test]
fn each_event_has_its_answer() {
    let mut runtime = runtime_with(&["poet"], Vec::new());
    let saved: Action<String> =
        runtime.run(Event::Saved { text: "a".to_string(), result: Err("disk full".to_string()) });
    assert_eq!(
        saved,
        Action::SendChannelMessage(ChannelMessage {
            webhook_url: "hook".to_string(),
            text: "a".to_string(),
        })
    );
    let sent: Action<String> = runtime.run(Event::MessageSent { text: "b".to_string() });
    assert_eq!(sent, Action::Tweet(Tweet { account: account(), text: "b".to_string() }));
    let tweeted: Action<String> = runtime.run(Event::Tweeted(Ok(())));
    assert_eq!(tweeted, Action::Finish(Ok(())));
    assert!(runtime.memory().is_empty());
}
