//! The runtime: the pool of agents, the outbound channels and the
//! history, and the decisions of a cycle.

use vstd::prelude::*;
use crate::agent::{views, Agent};
use crate::chance::{random_between, random_index};
use crate::cycle::{instruction, step, Action, ActionView, Event, RunError, RuntimeView};
use crate::memory::{texts, MemoryStore};
use crate::providers::{selected, text_of, ConfigError, Discord, TwitterType};
use crate::schedule::{next, LoopAction, LoopEvent, MAX_SLEEP_SECS, MIN_SLEEP_SECS};

verus! {

/// The bot's state. The configuration is fixed at construction, the
/// pool of agents only grows and the history is append-only.
pub struct Runtime {
    openai_api_key: String,
    twitter: TwitterType,
    discord: Discord,
    agents: Vec<Agent>,
    memory: Vec<String>,
}

impl View for Runtime {
    type V = RuntimeView;

    closed spec fn view(&self) -> RuntimeView {
        RuntimeView {
            openai_api_key: self.openai_api_key@,
            twitter: self.twitter@,
            discord: self.discord@,
            agents: views(self.agents@),
            memory: texts(self.memory@),
        }
    }
}

impl Runtime {
    /// Builds a runtime from its configuration and the history that was
    /// loaded for it.
    ///
    /// The social-media identity is chosen by [`selected`]: a username
    /// with its password gives password authentication, whatever keys
    /// are given beside them, and all four API keys give key
    /// authentication otherwise. Where neither is complete there is
    /// no runtime: the result is
    /// [`ConfigError::MissingTwitterCredentials`]. A runtime that is
    /// built holds what was passed in, and no agents yet.
    pub fn new(
        openai_api_key: &str,
        discord_webhook_url: &str,
        twitter_consumer_key: Option<&str>,
        twitter_consumer_secret: Option<&str>,
        twitter_access_token: Option<&str>,
        twitter_access_token_secret: Option<&str>,
        twitter_username: Option<&str>,
        twitter_password: Option<&str>,
        memory: Vec<String>,
    ) -> (built: Result<Runtime, ConfigError>)
        ensures
            match selected(
                text_of(twitter_consumer_key),
                text_of(twitter_consumer_secret),
                text_of(twitter_access_token),
                text_of(twitter_access_token_secret),
                text_of(twitter_username),
                text_of(twitter_password),
            ) {
                Some(account) => built matches Ok(runtime) && runtime@ == RuntimeView::initial(
                    openai_api_key@,
                    account,
                    discord_webhook_url@,
                    texts(memory@),
                ),
                None => built matches Err(ConfigError::MissingTwitterCredentials),
            },
            twitter_username is Some && twitter_password is Some ==> (built matches Ok(runtime)
                && runtime@.twitter is Ai16zTwitter),
            built is Err <==> !(twitter_username is Some && twitter_password is Some) && !(
            twitter_consumer_key is Some && twitter_consumer_secret is Some
                && twitter_access_token is Some && twitter_access_token_secret is Some),
    {
        let choice = TwitterType::select(
            twitter_consumer_key,
            twitter_consumer_secret,
            twitter_access_token,
            twitter_access_token_secret,
            twitter_username,
            twitter_password,
        );
        match choice {
            Ok(twitter) => {
                let runtime = Runtime {
                    openai_api_key: openai_api_key.to_owned(),
                    twitter,
                    discord: Discord::new(discord_webhook_url),
                    agents: Vec::new(),
                    memory,
                };
                assert(runtime@.agents =~= RuntimeView::initial(
                    openai_api_key@,
                    twitter@,
                    discord_webhook_url@,
                    texts(memory@),
                ).agents);
                Ok(runtime)
            },
            Err(error) => Err(error),
        }
    }

    /// The social-media identity that was chosen at construction.
    pub fn twitter(&self) -> (twitter: &TwitterType)
        ensures
            twitter@ == self@.twitter,
    {
        &self.twitter
    }

    /// The pool of agents, in the order they were added.
    pub fn agents(&self) -> (agents: &Vec<Agent>)
        ensures
            views(agents@) == self@.agents,
    {
        &self.agents
    }

    /// The history, oldest text first.
    pub fn memory(&self) -> (memory: &Vec<String>)
        ensures
            texts(memory@) == self@.memory,
    {
        &self.memory
    }

    /// Adds an agent with the given prompt template to the end of the
    /// pool. The agent gets the runtime's credential. Nothing else
    /// changes.
    pub fn add_agent(&mut self, prompt: &str)
        ensures
            final(self)@ == old(self)@.enlist(prompt@),
    {
        let agent = Agent::new(self.openai_api_key.as_str(), prompt);
        self.agents.push(agent);
        assert(self@.agents =~= old(self)@.enlist(prompt@).agents);
    }

    /// Answers `event` with the next action of the cycle, choosing the
    /// agent at index `draw` where a cycle starts.
    ///
    /// This is [`Runtime::run`] with the random choice made by the
    /// caller. The answer and the runtime afterwards are exactly what
    /// [`step`] says.
    pub fn run_with<E>(&mut self, event: Event<E>, draw: usize) -> (action: Action<E>)
        requires
            old(self)@.admits(draw as int),
        ensures
            (final(self)@, action@) == step(old(self)@, event@, draw as int),
    {
        match event {
            Event::Start => {
                if self.agents.len() == 0 {
                    Action::Finish(Err(RunError::NoAgents))
                } else {
                    Action::Prompt(self.agents[draw].prompt("tweet"))
                }
            },
            Event::Prompted(Err(failure)) => Action::Finish(Err(RunError::Generation(failure))),
            Event::Prompted(Ok(text)) => {
                MemoryStore::add_to_memory(&mut self.memory, text.as_str());
                Action::Save { text }
            },
            Event::Saved { text, result: _ } => Action::SendChannelMessage(
                self.discord.send_channel_message(text.as_str()),
            ),
            Event::MessageSent { text } => Action::Tweet(self.twitter.tweet(text.as_str())),
            Event::Tweeted(Ok(_)) => Action::Finish(Ok(())),
            Event::Tweeted(Err(failure)) => Action::Finish(Err(RunError::Publish(failure))),
        }
    }

    /// Answers `event` with the next action of the cycle.
    ///
    /// Where a cycle starts and the pool is not empty, one agent of the
    /// pool is chosen at random. Whichever it is, the answer and the
    /// runtime afterwards are what [`step`] says for some index into
    /// the pool. Where a cycle starts and the pool is empty, the answer
    /// is [`RunError::NoAgents`] and the runtime is left as it was.
    pub fn run<E>(&mut self, event: Event<E>) -> (action: Action<E>)
        ensures
            exists|draw: int|
                old(self)@.admits(draw) && (final(self)@, action@) == #[trigger] step(
                    old(self)@,
                    event@,
                    draw,
                ),
            event@ is Start && old(self)@.agents.len() > 0 ==> (final(self)@ == old(self)@
                && exists|i: int|
                0 <= i < old(self)@.agents.len() && action@ == ActionView::<E>::Prompt(
                    #[trigger] old(self)@.agents[i].prompt(instruction()),
                )),
            event@ is Start && old(self)@.agents.len() == 0 ==> (final(self)@ == old(self)@
                && action@ == ActionView::<E>::Finish(Err(RunError::NoAgents))),
    {
        match event {
            Event::Start => {
                let draw: usize = if self.agents.len() > 0 {
                    random_index(0, self.agents.len())
                } else {
                    0
                };
                self.run_with(Event::Start, draw)
            },
            reply => {
                assert(old(self)@.admits(0));
                self.run_with(reply, 0)
            },
        }
    }

    /// Answers `event` with the next action of the periodic loop,
    /// sleeping for `secs` seconds where the loop is to sleep.
    ///
    /// This is [`Runtime::run_periodically`] with the random length of
    /// the sleep chosen by the caller. The answer is exactly what
    /// [`next`] says.
    pub fn run_periodically_with<E>(&self, event: LoopEvent<E>, secs: u64) -> (action: LoopAction<
        E,
    >)
        ensures
            action == next(event, secs),
    {
        match event {
            LoopEvent::Entered => LoopAction::Sleep { secs, swallowed: None },
            LoopEvent::Woke => LoopAction::Run,
            LoopEvent::Ran(Ok(_)) => LoopAction::Sleep { secs, swallowed: None },
            LoopEvent::Ran(Err(error)) => LoopAction::Sleep { secs, swallowed: Some(error) },
        }
    }

    /// Answers `event` with the next action of the periodic loop.
    ///
    /// After a sleep the loop runs a cycle. After anything else, a
    /// failed cycle included, it sleeps, for a number of seconds drawn
    /// at random between [`MIN_SLEEP_SECS`] and [`MAX_SLEEP_SECS`],
    /// both included. The loop has no last action, and it keeps nothing
    /// in the runtime between its turns: the answer depends on the
    /// event alone.
    pub fn run_periodically<E>(&self, event: LoopEvent<E>) -> (action: LoopAction<E>)
        ensures
            exists|secs: u64|
                MIN_SLEEP_SECS <= secs <= MAX_SLEEP_SECS && action == #[trigger] next(event, secs),
            action matches LoopAction::Sleep { secs, .. } ==> MIN_SLEEP_SECS <= secs
                <= MAX_SLEEP_SECS,
    {
        match event {
            LoopEvent::Woke => {
                assert(next(event, MIN_SLEEP_SECS) == LoopAction::<E>::Run);
                LoopAction::Run
            },
            after => {
                let secs = random_between(MIN_SLEEP_SECS, MAX_SLEEP_SECS);
                self.run_periodically_with(after, secs)
            },
        }
    }
}

} // verus!
