//! Language-model agents.

use vstd::prelude::*;

verus! {

/// An agent: a prompt template together with the credential of the
/// language model that will answer it. Immutable once made.
#[derive(Debug, PartialEq, Eq)]
pub struct Agent {
    openai_api_key: String,
    template: String,
}

/// What an [`Agent`] is in contracts.
pub ghost struct AgentView {
    pub openai_api_key: Seq<char>,
    pub template: Seq<char>,
}

impl View for Agent {
    type V = AgentView;

    closed spec fn view(&self) -> AgentView {
        AgentView { openai_api_key: self.openai_api_key@, template: self.template@ }
    }
}

/// The agents of a pool as they are in contracts, in the pool's order.
pub open spec fn views(agents: Seq<Agent>) -> Seq<AgentView> {
    agents.map_values(|agent: Agent| agent@)
}

/// A request to the language model: the agent's credential and template
/// and the instruction that names the kind of text wanted.
#[derive(Debug, PartialEq, Eq)]
pub struct Prompt {
    pub openai_api_key: String,
    pub template: String,
    pub instruction: String,
}

/// What a [`Prompt`] is in contracts.
pub ghost struct PromptView {
    pub openai_api_key: Seq<char>,
    pub template: Seq<char>,
    pub instruction: Seq<char>,
}

impl View for Prompt {
    type V = PromptView;

    open spec fn view(&self) -> PromptView {
        PromptView {
            openai_api_key: self.openai_api_key@,
            template: self.template@,
            instruction: self.instruction@,
        }
    }
}

impl AgentView {
    /// The request that this agent makes of the model for `instruction`.
    pub open spec fn prompt(self, instruction: Seq<char>) -> PromptView {
        PromptView {
            openai_api_key: self.openai_api_key,
            template: self.template,
            instruction,
        }
    }
}

impl Agent {
    /// Makes an agent from a credential and a prompt template.
    pub fn new(openai_api_key: &str, template: &str) -> (agent: Agent)
        ensures
            agent@ == (AgentView { openai_api_key: openai_api_key@, template: template@ }),
    {
        Agent { openai_api_key: openai_api_key.to_owned(), template: template.to_owned() }
    }

    /// The request to send to the language model for `instruction`.
    pub fn prompt(&self, instruction: &str) -> (request: Prompt)
        ensures
            request@ == self@.prompt(instruction@),
    {
        Prompt {
            openai_api_key: self.openai_api_key.clone(),
            template: self.template.clone(),
            instruction: instruction.to_owned(),
        }
    }
}

impl Clone for Agent {
    fn clone(&self) -> (copy: Agent)
        ensures
            copy@ == self@,
    {
        Agent { openai_api_key: self.openai_api_key.clone(), template: self.template.clone() }
    }
}

} // verus!
