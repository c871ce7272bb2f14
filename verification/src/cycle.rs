//! One cycle of the bot, as a state machine.
//!
//! A cycle asks one agent for a text, appends the text to the history,
//! sends it to the chat webhook and publishes it on the social-media
//! account. The runtime does none of that work itself. It hands out an
//! [`Action`], the caller carries the action out and reports the result
//! as an [`Event`], and the runtime answers with the next action, until
//! the action is [`Action::Finish`].
//!
//! This module holds the vocabulary of that exchange and its meaning:
//! [`step`] says what the runtime answers to an event, [`cycle`] says what
//! a whole cycle comes to, and the proof functions at the end state what
//! follows for every cycle.

use vstd::prelude::*;
use crate::agent::{AgentView, Prompt, PromptView};
use crate::providers::{
    ChannelMessage,
    ChannelMessageView,
    Tweet,
    TweetView,
    TwitterTypeView,
};

verus! {

/// Why a cycle ended without publishing. `E` is the failure type of the
/// caller's transports; a failure is handed back as it was reported.
#[derive(Debug, PartialEq, Eq)]
pub enum RunError<E> {
    /// The pool holds no agent to ask.
    NoAgents,
    /// The language model failed to produce a text.
    Generation(E),
    /// The social-media account refused the text.
    Publish(E),
}

/// What the caller reports to the runtime.
#[derive(Debug, PartialEq, Eq)]
pub enum Event<E> {
    /// A cycle is to begin.
    Start,
    /// The language model answered the prompt.
    Prompted(Result<String, E>),
    /// The history was written out, or could not be. `text` is the text
    /// of the [`Action::Save`] that asked for it.
    Saved { text: String, result: Result<(), E> },
    /// The chat message was handed to the webhook. Whether it arrived
    /// is not reported. `text` is the text of the message.
    MessageSent { text: String },
    /// The social-media account answered.
    Tweeted(Result<(), E>),
}

/// What an [`Event`] is in contracts.
pub ghost enum EventView<E> {
    Start,
    Prompted(Result<Seq<char>, E>),
    Saved { text: Seq<char>, result: Result<(), E> },
    MessageSent { text: Seq<char> },
    Tweeted(Result<(), E>),
}

impl<E> View for Event<E> {
    type V = EventView<E>;

    open spec fn view(&self) -> EventView<E> {
        match self {
            Event::Start => EventView::Start,
            Event::Prompted(Ok(text)) => EventView::Prompted(Ok(text@)),
            Event::Prompted(Err(failure)) => EventView::Prompted(Err(*failure)),
            Event::Saved { text, result } => EventView::Saved { text: text@, result: *result },
            Event::MessageSent { text } => EventView::MessageSent { text: text@ },
            Event::Tweeted(result) => EventView::Tweeted(*result),
        }
    }
}

/// What the runtime asks the caller to do.
#[derive(Debug, PartialEq, Eq)]
pub enum Action<E> {
    /// Send the prompt to the language model.
    Prompt(Prompt),
    /// Write the history out as it now stands. `text` is the entry just
    /// appended.
    Save { text: String },
    /// Send the message to the chat webhook.
    SendChannelMessage(ChannelMessage),
    /// Publish the text on the social-media account.
    Tweet(Tweet),
    /// The cycle is over, with this result.
    Finish(Result<(), RunError<E>>),
}

/// What an [`Action`] is in contracts.
pub ghost enum ActionView<E> {
    Prompt(PromptView),
    Save { text: Seq<char> },
    SendChannelMessage(ChannelMessageView),
    Tweet(TweetView),
    Finish(Result<(), RunError<E>>),
}

impl<E> View for Action<E> {
    type V = ActionView<E>;

    open spec fn view(&self) -> ActionView<E> {
        match self {
            Action::Prompt(prompt) => ActionView::Prompt(prompt@),
            Action::Save { text } => ActionView::Save { text: text@ },
            Action::SendChannelMessage(message) => ActionView::SendChannelMessage(message@),
            Action::Tweet(tweet) => ActionView::Tweet(tweet@),
            Action::Finish(result) => ActionView::Finish(*result),
        }
    }
}

/// What a runtime is in contracts: its configuration, its pool of
/// agents in the order they were added, and its history, oldest first.
pub ghost struct RuntimeView {
    pub openai_api_key: Seq<char>,
    pub twitter: TwitterTypeView,
    pub discord: Seq<char>,
    pub agents: Seq<AgentView>,
    pub memory: Seq<Seq<char>>,
}

/// The instruction that every cycle gives its agent.
pub open spec fn instruction() -> Seq<char> {
    "tweet"@
}

impl RuntimeView {
    /// A runtime as it is when built: the configuration and the loaded
    /// history as given, and no agents.
    pub open spec fn initial(
        openai_api_key: Seq<char>,
        twitter: TwitterTypeView,
        discord: Seq<char>,
        memory: Seq<Seq<char>>,
    ) -> RuntimeView {
        RuntimeView { openai_api_key, twitter, discord, agents: Seq::empty(), memory }
    }

    /// Whether every agent of the pool holds the runtime's own
    /// credential.
    pub open spec fn well_formed(self) -> bool {
        forall|i: int|
            0 <= i < self.agents.len() ==> (#[trigger] self.agents[i]).openai_api_key
                == self.openai_api_key
    }

    /// Whether `draw` can stand for the random choice of an agent: it
    /// is an index into the pool, if the pool has any agent.
    pub open spec fn admits(self, draw: int) -> bool {
        self.agents.len() == 0 || 0 <= draw < self.agents.len()
    }

    /// The runtime with `text` appended to its history.
    pub open spec fn remember(self, text: Seq<char>) -> RuntimeView {
        RuntimeView { memory: self.memory.push(text), ..self }
    }

    /// The runtime with one more agent, made from `template` and the
    /// runtime's own credential, at the end of the pool.
    pub open spec fn enlist(self, template: Seq<char>) -> RuntimeView {
        RuntimeView {
            agents: self.agents.push(
                AgentView { openai_api_key: self.openai_api_key, template },
            ),
            ..self
        }
    }
}

/// What the runtime answers to `event`, and what it is afterwards.
/// `draw` stands for the random choice of an agent; only the answer to
/// [`EventView::Start`] depends on it.
pub open spec fn step<E>(runtime: RuntimeView, event: EventView<E>, draw: int) -> (
    RuntimeView,
    ActionView<E>,
) {
    match event {
        EventView::Start => if runtime.agents.len() == 0 {
            (runtime, ActionView::Finish(Err(RunError::NoAgents)))
        } else {
            (runtime, ActionView::Prompt(runtime.agents[draw].prompt(instruction())))
        },
        EventView::Prompted(Err(failure)) => (
            runtime,
            ActionView::Finish(Err(RunError::Generation(failure))),
        ),
        EventView::Prompted(Ok(text)) => (runtime.remember(text), ActionView::Save { text }),
        EventView::Saved { text, .. } => (
            runtime,
            ActionView::SendChannelMessage(
                ChannelMessageView { webhook_url: runtime.discord, text },
            ),
        ),
        EventView::MessageSent { text } => (
            runtime,
            ActionView::Tweet(TweetView { account: runtime.twitter, text }),
        ),
        EventView::Tweeted(Ok(_)) => (runtime, ActionView::Finish(Ok(()))),
        EventView::Tweeted(Err(failure)) => (
            runtime,
            ActionView::Finish(Err(RunError::Publish(failure))),
        ),
    }
}

/// The agents of a pool all hold the runtime's credential: a runtime
/// is well formed when built, and adding an agent or answering an event
/// keeps it so.
pub proof fn lemma_credential_is_shared<E>(
    openai_api_key: Seq<char>,
    twitter: TwitterTypeView,
    discord: Seq<char>,
    memory: Seq<Seq<char>>,
    runtime: RuntimeView,
    template: Seq<char>,
    event: EventView<E>,
    draw: int,
)
    ensures
        RuntimeView::initial(openai_api_key, twitter, discord, memory).well_formed(),
        runtime.well_formed() ==> runtime.enlist(template).well_formed(),
        runtime.well_formed() ==> step(runtime, event, draw).0.well_formed(),
{
}

/// Answering an event changes nothing but the history. The
/// configuration, and with it the social-media identity chosen at
/// construction, stays as it is, and so does the pool. The history is
/// either left alone or gets one text at its end: nothing in it is ever
/// changed or removed.
pub proof fn lemma_step_only_appends<E>(runtime: RuntimeView, event: EventView<E>, draw: int)
    ensures
        step(runtime, event, draw).0.openai_api_key == runtime.openai_api_key,
        step(runtime, event, draw).0.twitter == runtime.twitter,
        step(runtime, event, draw).0.discord == runtime.discord,
        step(runtime, event, draw).0.agents == runtime.agents,
        step(runtime, event, draw).0.memory == runtime.memory || exists|text: Seq<char>|
            step(runtime, event, draw).0.memory == #[trigger] runtime.memory.push(text),
{
}

/// What the outside world answers in the course of one cycle: the
/// language model to the prompt, the store to the request to write the
/// history out, and the social-media account to the tweet. The chat
/// webhook reports nothing.
pub ghost struct Replies<E> {
    pub generated: Result<Seq<char>, E>,
    pub saved: Result<(), E>,
    pub published: Result<(), E>,
}

/// The event that a caller reports after carrying out `action`, in a
/// world that answers with `replies`. A caller reports nothing after
/// [`ActionView::Finish`]; the value given for it is never used.
pub open spec fn report<E>(action: ActionView<E>, replies: Replies<E>) -> EventView<E> {
    match action {
        ActionView::Prompt(_) => EventView::Prompted(replies.generated),
        ActionView::Save { text } => EventView::Saved { text, result: replies.saved },
        ActionView::SendChannelMessage(message) => EventView::MessageSent { text: message.text },
        ActionView::Tweet(_) => EventView::Tweeted(replies.published),
        ActionView::Finish(_) => EventView::Start,
    }
}

/// A cycle as it went: the actions that the runtime asked for, in
/// order, and the runtime at the end.
pub ghost struct Course<E> {
    pub runtime: RuntimeView,
    pub actions: Seq<ActionView<E>>,
}

/// The course that begins with the runtime's answer to `event` and goes
/// on, each action answered through [`report`], until the runtime
/// finishes or `turns` further actions have been asked for.
pub open spec fn proceed<E>(
    runtime: RuntimeView,
    event: EventView<E>,
    draw: int,
    replies: Replies<E>,
    turns: nat,
) -> Course<E>
    decreases turns,
{
    let (next, action) = step(runtime, event, draw);
    if action is Finish || turns == 0 {
        Course { runtime: next, actions: seq![action] }
    } else {
        let rest = proceed(next, report(action, replies), draw, replies, (turns - 1) as nat);
        Course { runtime: rest.runtime, actions: seq![action] + rest.actions }
    }
}

/// One whole cycle, from [`EventView::Start`] to [`ActionView::Finish`].
/// No cycle asks for more than five actions.
pub open spec fn cycle<E>(runtime: RuntimeView, draw: int, replies: Replies<E>) -> Course<E> {
    proceed(runtime, EventView::Start, draw, replies, 4)
}

/// What a cycle returns, given what the social-media account answered.
pub open spec fn outcome<E>(published: Result<(), E>) -> Result<(), RunError<E>> {
    match published {
        Ok(_) => Ok(()),
        Err(failure) => Err(RunError::Publish(failure)),
    }
}

/// A cycle on an empty pool asks for nothing. It finishes at once with
/// [`RunError::NoAgents`] and leaves the runtime, its history and its
/// channels as they were.
pub proof fn lemma_empty_pool<E>(runtime: RuntimeView, draw: int, replies: Replies<E>)
    requires
        runtime.agents.len() == 0,
    ensures
        cycle(runtime, draw, replies) == (Course {
            runtime,
            actions: seq![ActionView::<E>::Finish(Err(RunError::NoAgents))],
        }),
{
    reveal_with_fuel(proceed, 2);
}

/// A cycle on a pool that is not empty first prompts an agent of the
/// pool, with the instruction that every cycle uses.
pub proof fn lemma_prompts_an_agent_of_the_pool<E>(
    runtime: RuntimeView,
    draw: int,
    replies: Replies<E>,
)
    requires
        runtime.agents.len() > 0,
        runtime.admits(draw),
    ensures
        cycle(runtime, draw, replies).actions.len() >= 2,
        exists|i: int|
            0 <= i < runtime.agents.len() && cycle(runtime, draw, replies).actions[0]
                == ActionView::<E>::Prompt(#[trigger] runtime.agents[i].prompt(instruction())),
{
    reveal_with_fuel(proceed, 3);
    let first = ActionView::<E>::Prompt(runtime.agents[draw].prompt(instruction()));
    assert(cycle(runtime, draw, replies).actions[0] == first);
}

/// Where the language model fails, the cycle ends with that failure.
/// Nothing was appended to the history, and neither the chat webhook
/// nor the social-media account was asked for anything.
pub proof fn lemma_failed_generation<E>(
    runtime: RuntimeView,
    draw: int,
    replies: Replies<E>,
    failure: E,
)
    requires
        runtime.agents.len() > 0,
        runtime.admits(draw),
        replies.generated == Err::<Seq<char>, E>(failure),
    ensures
        cycle(runtime, draw, replies) == (Course {
            runtime,
            actions: seq![
                ActionView::<E>::Prompt(runtime.agents[draw].prompt(instruction())),
                ActionView::<E>::Finish(Err(RunError::Generation(failure))),
            ],
        }),
{
    reveal_with_fuel(proceed, 3);
    let course = cycle(runtime, draw, replies);
    assert(course.actions =~= seq![
        ActionView::<E>::Prompt(runtime.agents[draw].prompt(instruction())),
        ActionView::<E>::Finish(Err(RunError::Generation(failure))),
    ]);
}

/// Where the language model produces a text, the cycle runs its full
/// course, whatever the store and the social-media account answer: it
/// prompts, asks for the history to be written out, sends the text to
/// the chat webhook, publishes it on the social-media account under
/// the runtime's identity, and finishes with what the account
/// answered. The text is the last entry of the history from then on.
pub proof fn lemma_full_course<E>(
    runtime: RuntimeView,
    draw: int,
    replies: Replies<E>,
    text: Seq<char>,
)
    requires
        runtime.agents.len() > 0,
        runtime.admits(draw),
        replies.generated == Ok::<Seq<char>, E>(text),
    ensures
        cycle(runtime, draw, replies) == (Course {
            runtime: runtime.remember(text),
            actions: seq![
                ActionView::<E>::Prompt(runtime.agents[draw].prompt(instruction())),
                ActionView::<E>::Save { text },
                ActionView::<E>::SendChannelMessage(
                    ChannelMessageView { webhook_url: runtime.discord, text },
                ),
                ActionView::<E>::Tweet(TweetView { account: runtime.twitter, text }),
                ActionView::<E>::Finish(outcome(replies.published)),
            ],
        }),
{
    reveal_with_fuel(proceed, 6);
    let course = cycle(runtime, draw, replies);
    assert(course.actions =~= seq![
        ActionView::<E>::Prompt(runtime.agents[draw].prompt(instruction())),
        ActionView::<E>::Save { text },
        ActionView::<E>::SendChannelMessage(
            ChannelMessageView { webhook_url: runtime.discord, text },
        ),
        ActionView::<E>::Tweet(TweetView { account: runtime.twitter, text }),
        ActionView::<E>::Finish(outcome(replies.published)),
    ]);
}

/// A history that cannot be written out does not stop the cycle. Where
/// the language model produced a text and the store then failed, the
/// text still goes to the chat webhook and after that to the
/// social-media account.
pub proof fn lemma_failed_save_is_no_obstacle<E>(
    runtime: RuntimeView,
    draw: int,
    replies: Replies<E>,
    text: Seq<char>,
)
    requires
        runtime.agents.len() > 0,
        runtime.admits(draw),
        replies.generated == Ok::<Seq<char>, E>(text),
        replies.saved is Err,
    ensures
        cycle(runtime, draw, replies).actions.len() == 5,
        cycle(runtime, draw, replies).actions[2] == ActionView::<E>::SendChannelMessage(
            ChannelMessageView { webhook_url: runtime.discord, text },
        ),
        cycle(runtime, draw, replies).actions[3] == ActionView::<E>::Tweet(
            TweetView { account: runtime.twitter, text },
        ),
{
    lemma_full_course(runtime, draw, replies, text);
}

/// A failure of the social-media account is the cycle's result. Where
/// the language model produced a text and the account then failed,
/// the cycle finishes with that very failure, and the text is in the
/// history all the same, as its last entry.
pub proof fn lemma_failed_publish_is_returned<E>(
    runtime: RuntimeView,
    draw: int,
    replies: Replies<E>,
    text: Seq<char>,
    failure: E,
)
    requires
        runtime.agents.len() > 0,
        runtime.admits(draw),
        replies.generated == Ok::<Seq<char>, E>(text),
        replies.published == Err::<(), E>(failure),
    ensures
        cycle(runtime, draw, replies).actions.last() == ActionView::<E>::Finish(
            Err(RunError::Publish(failure)),
        ),
        cycle(runtime, draw, replies).runtime.memory == runtime.memory.push(text),
{
    lemma_full_course(runtime, draw, replies, text);
}

/// Nothing is tried twice. In one cycle the language model is asked at
/// most once and the social-media account at most once, and the action
/// that finishes the cycle is the last one.
pub proof fn lemma_no_retry<E>(runtime: RuntimeView, draw: int, replies: Replies<E>)
    requires
        runtime.admits(draw),
    ensures
        forall|i: int, j: int|
            #![trigger cycle(runtime, draw, replies).actions[i], cycle(runtime, draw, replies).actions[j]]
            0 <= i < j < cycle(runtime, draw, replies).actions.len() ==> !(cycle(
                runtime,
                draw,
                replies,
            ).actions[i] is Prompt && cycle(runtime, draw, replies).actions[j] is Prompt) && !(
            cycle(runtime, draw, replies).actions[i] is Tweet && cycle(
                runtime,
                draw,
                replies,
            ).actions[j] is Tweet) && !(cycle(runtime, draw, replies).actions[i] is Finish),
        cycle(runtime, draw, replies).actions.last() is Finish,
{
    if runtime.agents.len() == 0 {
        lemma_empty_pool(runtime, draw, replies);
    } else {
        match replies.generated {
            Ok(text) => lemma_full_course(runtime, draw, replies, text),
            Err(failure) => lemma_failed_generation(runtime, draw, replies, failure),
        }
    }
}

} // verus!
