//! The agent for information retrieval, which may answer with tools.
use std::sync::Arc;
use vstd::prelude::*;

use crate::agents::tool_use::{offers_exactly, tool_functions};
use crate::llm::types::Function;
use crate::tools::ToolRegistry;

verus! {

/// The agent for information retrieval and analysis; when it has tools it
/// offers them to the model and runs the calls the model makes.
pub struct ResearcherAgent<T> {
    name: String,
    role: String,
    tools: Option<Arc<ToolRegistry<T>>>,
}

impl<T> ResearcherAgent<T> {
    /// The agent named `"Researcher"`, with no tools.
    pub fn new() -> (a: Self)
        ensures
            a.name_text() == "Researcher"@,
            a.role_text() == "Information retrieval and analysis"@,
            a.tools() is None,
    {
        ResearcherAgent {
            name: "Researcher".to_owned(),
            role: "Information retrieval and analysis".to_owned(),
            tools: None,
        }
    }

    /// The same agent, now offering `tools`.
    pub fn with_tools(self, tools: Arc<ToolRegistry<T>>) -> (a: Self)
        ensures
            a.name_text() == self.name_text(),
            a.role_text() == self.role_text(),
            a.tools() == Some(tools),
    {
        let mut a = self;
        a.tools = Some(tools);
        a
    }

    /// The agent's name.
    pub closed spec fn name_text(&self) -> Seq<char> {
        self.name@
    }

    /// The agent's role.
    pub closed spec fn role_text(&self) -> Seq<char> {
        self.role@
    }

    /// The tools the agent offers.
    pub closed spec fn tools(&self) -> Option<Arc<ToolRegistry<T>>> {
        self.tools
    }

    /// The agent's name.
    pub fn name(&self) -> (r: &str)
        ensures
            r@ == self.name_text(),
    {
        self.name.as_str()
    }

    /// The agent's role.
    pub fn role(&self) -> (r: &str)
        ensures
            r@ == self.role_text(),
    {
        self.role.as_str()
    }

    /// The registry of the agent's tools, if it has any.
    pub fn tool_registry(&self) -> (r: &Option<Arc<ToolRegistry<T>>>)
        ensures
            *r == self.tools(),
    {
        &self.tools
    }

    /// The functions offered to the model with a request: one per tool, or
    /// none when the agent has no tools.
    pub fn offered_functions(&self) -> (r: Option<Vec<Function>>)
        ensures
            self.tools() is None <==> r is None,
            r is Some ==> offers_exactly(r->0@.map_values(|f: Function| f@), self.tools()->0.view()),
    {
        tool_functions(&self.tools)
    }
}

} // verus!
