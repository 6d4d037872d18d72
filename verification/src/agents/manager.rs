//! The coordinating agent: it routes a task to the sub-agent for its kind, or
//! handles it itself with tools.
use std::sync::Arc;
use vstd::prelude::*;

use crate::agents::base::TaskType;
use crate::agents::engineer::EngineerAgent;
use crate::agents::planner::PlannerAgent;
use crate::agents::researcher::ResearcherAgent;
use crate::agents::tool_use::{offers_exactly, tool_functions};
use crate::llm::types::{plain_message, Function, Message, MessageView};
use crate::text::{ascii_lower, concat2, contains, is_ascii_text, lowercase_of, owned, text_contains, text_eq, to_lowercase};
use crate::tools::ToolRegistry;

verus! {

/// A sub-agent the manager delegates to.
pub enum SubAgent<T> {
    Researcher(ResearcherAgent<T>),
    Engineer(EngineerAgent),
    Planner(PlannerAgent),
}

impl<T> SubAgent<T> {
    /// The sub-agent's name.
    pub open spec fn name_text(&self) -> Seq<char> {
        match self {
            SubAgent::Researcher(a) => a.name_text(),
            SubAgent::Engineer(a) => a.name_text(),
            SubAgent::Planner(a) => a.name_text(),
        }
    }

    /// The sub-agent's role.
    pub open spec fn role_text(&self) -> Seq<char> {
        match self {
            SubAgent::Researcher(a) => a.role_text(),
            SubAgent::Engineer(a) => a.role_text(),
            SubAgent::Planner(a) => a.role_text(),
        }
    }

    /// The sub-agent's name.
    pub fn name(&self) -> (r: &str)
        ensures
            r@ == self.name_text(),
    {
        match self {
            SubAgent::Researcher(a) => a.name(),
            SubAgent::Engineer(a) => a.name(),
            SubAgent::Planner(a) => a.name(),
        }
    }

    /// The sub-agent's role.
    pub fn role(&self) -> (r: &str)
        ensures
            r@ == self.role_text(),
    {
        match self {
            SubAgent::Researcher(a) => a.role(),
            SubAgent::Engineer(a) => a.role(),
            SubAgent::Planner(a) => a.role(),
        }
    }
}

/// The task kind a lowercase task text is routed to, by the words it holds:
/// research words first, then engineering words, then planning words.
pub open spec fn route_for(lower: Seq<char>) -> TaskType {
    if text_contains(lower, "research"@) || text_contains(lower, "find"@) || text_contains(lower, "search"@)
        || text_contains(lower, "investigate"@) || text_contains(lower, "analyze"@)
        || text_contains(lower, "information"@) {
        TaskType::Research
    } else if text_contains(lower, "code"@) || text_contains(lower, "implement"@) || text_contains(lower, "build"@)
        || text_contains(lower, "create"@) || text_contains(lower, "fix"@) || text_contains(lower, "debug"@) {
        TaskType::Engineering
    } else if text_contains(lower, "plan"@) || text_contains(lower, "schedule"@)
        || text_contains(lower, "organize"@) || text_contains(lower, "coordinate"@) {
        TaskType::Planning
    } else {
        TaskType::Unknown
    }
}

/// The key of the sub-agent that handles a task kind, if one does.
pub open spec fn agent_key(t: TaskType) -> Option<Seq<char>> {
    match t {
        TaskType::Research => Some("researcher"@),
        TaskType::Engineering => Some("engineer"@),
        TaskType::Planning => Some("planner"@),
        TaskType::Coordination | TaskType::Unknown => None,
    }
}

/// How the manager goes about a task.
pub enum CoordinationPlan {
    /// Send `messages` to the sub-agent for `task_type`.
    Delegate { task_type: TaskType, messages: Vec<Message> },
    /// Handle `messages` itself, with its tools.
    Direct { messages: Vec<Message> },
}

/// The coordinator: it knows a researcher, an engineer and a planner by key.
pub struct ManagerAgent<T> {
    name: String,
    role: String,
    sub_agents: Vec<(String, SubAgent<T>)>,
    tools: Option<Arc<ToolRegistry<T>>>,
}

impl<T> ManagerAgent<T> {
    #[verifier::type_invariant]
    spec fn knows_sub_agents(self) -> bool {
        &&& self.sub_agents@.len() == 3
        &&& self.sub_agents@[0].0@ == "researcher"@ && self.sub_agents@[0].1 is Researcher
        &&& self.sub_agents@[1].0@ == "engineer"@ && self.sub_agents@[1].1 is Engineer
        &&& self.sub_agents@[2].0@ == "planner"@ && self.sub_agents@[2].1 is Planner
    }

    /// The manager's name.
    pub closed spec fn name_text(&self) -> Seq<char> {
        self.name@
    }

    /// The manager's role.
    pub closed spec fn role_text(&self) -> Seq<char> {
        self.role@
    }

    /// The tools the manager offers.
    pub closed spec fn tools(&self) -> Option<Arc<ToolRegistry<T>>> {
        self.tools
    }

    /// The sub-agent registered under `key`, if any.
    pub closed spec fn sub_agent(&self, key: Seq<char>) -> Option<SubAgent<T>> {
        if key == "researcher"@ {
            Some(self.sub_agents@[0].1)
        } else if key == "engineer"@ {
            Some(self.sub_agents@[1].1)
        } else if key == "planner"@ {
            Some(self.sub_agents@[2].1)
        } else {
            None
        }
    }

    /// A manager named `"Manager"` with a fresh researcher, engineer and
    /// planner, and no tools.
    pub fn new() -> (m: Self)
        ensures
            m.name_text() == "Manager"@,
            m.role_text() == "Coordinator and router"@,
            m.tools() is None,
            m.sub_agent("researcher"@) matches Some(SubAgent::Researcher(a)) && a.name_text() == "Researcher"@
                && a.role_text() == "Information retrieval and analysis"@ && a.tools() is None,
            m.sub_agent("engineer"@) matches Some(SubAgent::Engineer(a)) && a.name_text() == "Engineer"@
                && a.role_text() == "Code implementation and technical solutions"@,
            m.sub_agent("planner"@) matches Some(SubAgent::Planner(a)) && a.name_text() == "Planner"@
                && a.role_text() == "Task decomposition and planning"@,
    {
        let mut agents: Vec<(String, SubAgent<T>)> = Vec::new();
        agents.push((owned("researcher"), SubAgent::Researcher(ResearcherAgent::new())));
        agents.push((owned("engineer"), SubAgent::Engineer(EngineerAgent::new())));
        agents.push((owned("planner"), SubAgent::Planner(PlannerAgent::new())));
        let m = ManagerAgent {
            name: owned("Manager"),
            role: owned("Coordinator and router"),
            sub_agents: agents,
            tools: None,
        };
        proof {
            reveal_strlit("researcher");
            reveal_strlit("engineer");
            reveal_strlit("planner");
            assert("engineer"@.len() != "researcher"@.len());
            assert("planner"@.len() != "researcher"@.len() && "planner"@.len() != "engineer"@.len());
        }
        m
    }

    /// The same manager, now offering `tools`; its sub-agents are unchanged.
    pub fn with_tools(self, tools: Arc<ToolRegistry<T>>) -> (m: Self)
        ensures
            m.name_text() == self.name_text(),
            m.role_text() == self.role_text(),
            m.tools() == Some(tools),
            forall|k: Seq<char>| m.sub_agent(k) == self.sub_agent(k),
    {
        proof { use_type_invariant(&self); }
        let ManagerAgent { name, role, sub_agents, tools: _ } = self;
        ManagerAgent { name, role, sub_agents, tools: Some(tools) }
    }

    /// The manager's name.
    pub fn name(&self) -> (r: &str)
        ensures
            r@ == self.name_text(),
    {
        self.name.as_str()
    }

    /// The manager's role.
    pub fn role(&self) -> (r: &str)
        ensures
            r@ == self.role_text(),
    {
        self.role.as_str()
    }

    /// The registry of the manager's tools, if it has any.
    pub fn tool_registry(&self) -> (r: &Option<Arc<ToolRegistry<T>>>)
        ensures
            *r == self.tools(),
    {
        &self.tools
    }

    /// The functions offered to the model: one per tool of the manager, or
    /// none when it has no tools.
    pub fn offered_functions(&self) -> (r: Option<Vec<Function>>)
        ensures
            self.tools() is None <==> r is None,
            r is Some ==> offers_exactly(r->0@.map_values(|f: Function| f@), self.tools()->0.view()),
    {
        tool_functions(&self.tools)
    }

    /// The task kind a task is routed to, from the words of its lowercase text.
    pub fn route_task(&self, task_content: &str) -> (t: TaskType)
        ensures
            t == route_for(lowercase_of(task_content@)),
            is_ascii_text(task_content@) ==> t == route_for(ascii_lower(task_content@)),
    {
        let lower = to_lowercase(task_content);
        route_lowercase(lower.as_str())
    }

    /// The sub-agent that handles a task kind: the researcher, engineer or
    /// planner; none for coordination or unknown tasks.
    pub fn get_agent_for_task(&self, task_type: TaskType) -> (r: Option<&SubAgent<T>>)
        ensures
            match agent_key(task_type) {
                Some(k) => r matches Some(a) && self.sub_agent(k) == Some(*a),
                None => r is None,
            },
    {
        proof { use_type_invariant(self); }
        let key = match task_type {
            TaskType::Research => "researcher",
            TaskType::Engineering => "engineer",
            TaskType::Planning => "planner",
            TaskType::Coordination | TaskType::Unknown => { return None; },
        };
        let n = self.sub_agents.len();
        let mut i: usize = 0;
        while i < n
            invariant
                n == self.sub_agents@.len(),
                n == 3,
                i <= n,
                key@ == "researcher"@ || key@ == "engineer"@ || key@ == "planner"@,
                agent_key(task_type) == Some(key@),
                self.sub_agents@[0].0@ == "researcher"@,
                self.sub_agents@[1].0@ == "engineer"@,
                self.sub_agents@[2].0@ == "planner"@,
                forall|k: int| 0 <= k < i ==> self.sub_agents@[k].0@ != key@,
            decreases n - i,
        {
            if text_eq(self.sub_agents[i].0.as_str(), key) {
                proof { reveal_strlit("researcher"); reveal_strlit("engineer"); reveal_strlit("planner"); }
                return Some(&self.sub_agents[i].1);
            }
            i = i + 1;
        }
        proof {
            assert(self.sub_agents@[0].0@ != key@);
            assert(self.sub_agents@[1].0@ != key@);
            assert(self.sub_agents@[2].0@ != key@);
        }
        None
    }

    /// How to go about a task: when its kind has a sub-agent, delegate with a
    /// system message naming that agent's role and name followed by the task;
    /// otherwise handle the task itself as a single user message.
    pub fn plan_coordination(&self, task: &str) -> (p: CoordinationPlan)
        ensures
            ({
                let t = route_for(lowercase_of(task@));
                match agent_key(t) {
                    Some(k) => {
                        &&& p matches CoordinationPlan::Delegate { task_type, messages }
                        &&& task_type == t
                        &&& self.sub_agent(k) matches Some(a)
                        &&& messages@.map_values(|m: Message| m@) == seq![
                            plain_message("system"@, "You are a "@ + a.role_text() + ". "@ + a.name_text()),
                            plain_message("user"@, task@),
                        ]
                    },
                    None => {
                        &&& p matches CoordinationPlan::Direct { messages }
                        &&& messages@.map_values(|m: Message| m@) == seq![plain_message("user"@, task@)]
                    },
                }
            }),
            is_ascii_text(task@) ==> route_for(lowercase_of(task@)) == route_for(ascii_lower(task@)),
    {
        let task_type = self.route_task(task);
        match self.get_agent_for_task(task_type) {
            Some(agent) => {
                let head = concat2("You are a ", agent.role());
                let intro = concat2(head.as_str(), ". ");
                let sys = concat2(intro.as_str(), agent.name());
                let mut messages: Vec<Message> = Vec::new();
                messages.push(Message::system(sys));
                messages.push(Message::user(owned(task)));
                proof {
                    assert(messages@.map_values(|m: Message| m@) =~= seq![
                        plain_message("system"@, "You are a "@ + agent.role_text() + ". "@ + agent.name_text()),
                        plain_message("user"@, task@),
                    ]);
                }
                CoordinationPlan::Delegate { task_type, messages }
            },
            None => {
                let mut messages: Vec<Message> = Vec::new();
                messages.push(Message::user(owned(task)));
                proof {
                    assert(messages@.map_values(|m: Message| m@) =~= seq![plain_message("user"@, task@)]);
                }
                CoordinationPlan::Direct { messages }
            },
        }
    }
}

/// Routing never yields a coordination task, research words win over all
/// others, and a task is delegated exactly when its words name a kind of work:
/// only an unknown task is handled by the manager itself.
pub proof fn lemma_routing(lower: Seq<char>)
    ensures
        route_for(lower) != TaskType::Coordination,
        text_contains(lower, "research"@) ==> route_for(lower) == TaskType::Research,
        agent_key(route_for(lower)) is None <==> route_for(lower) == TaskType::Unknown,
{
}

/// Routing by the words of a lowercase task text: a task naming any of
/// "research", "find", "search", "investigate", "analyze" or "information" goes
/// to the researcher; otherwise one naming "code", "implement", "build",
/// "create", "fix" or "debug" goes to the engineer; otherwise one naming "plan",
/// "schedule", "organize" or "coordinate" goes to the planner; a task naming
/// none of these is unknown.
pub proof fn lemma_route_words(lower: Seq<char>)
    ensures
        text_contains(lower, "research"@) ==> route_for(lower) == TaskType::Research,
        text_contains(lower, "find"@) ==> route_for(lower) == TaskType::Research,
        text_contains(lower, "search"@) ==> route_for(lower) == TaskType::Research,
        text_contains(lower, "investigate"@) ==> route_for(lower) == TaskType::Research,
        text_contains(lower, "analyze"@) ==> route_for(lower) == TaskType::Research,
        text_contains(lower, "information"@) ==> route_for(lower) == TaskType::Research,
        ({
            let no_research = !text_contains(lower, "research"@) && !text_contains(lower, "find"@)
                && !text_contains(lower, "search"@) && !text_contains(lower, "investigate"@)
                && !text_contains(lower, "analyze"@) && !text_contains(lower, "information"@);
            let no_engineering = !text_contains(lower, "code"@) && !text_contains(lower, "implement"@)
                && !text_contains(lower, "build"@) && !text_contains(lower, "create"@)
                && !text_contains(lower, "fix"@) && !text_contains(lower, "debug"@);
            let no_planning = !text_contains(lower, "plan"@) && !text_contains(lower, "schedule"@)
                && !text_contains(lower, "organize"@) && !text_contains(lower, "coordinate"@);
            &&& no_research && text_contains(lower, "code"@) ==> route_for(lower) == TaskType::Engineering
            &&& no_research && text_contains(lower, "implement"@) ==> route_for(lower) == TaskType::Engineering
            &&& no_research && text_contains(lower, "build"@) ==> route_for(lower) == TaskType::Engineering
            &&& no_research && text_contains(lower, "create"@) ==> route_for(lower) == TaskType::Engineering
            &&& no_research && text_contains(lower, "fix"@) ==> route_for(lower) == TaskType::Engineering
            &&& no_research && text_contains(lower, "debug"@) ==> route_for(lower) == TaskType::Engineering
            &&& no_research && no_engineering && text_contains(lower, "plan"@) ==> route_for(lower) == TaskType::Planning
            &&& no_research && no_engineering && text_contains(lower, "schedule"@) ==> route_for(lower) == TaskType::Planning
            &&& no_research && no_engineering && text_contains(lower, "organize"@) ==> route_for(lower) == TaskType::Planning
            &&& no_research && no_engineering && text_contains(lower, "coordinate"@) ==> route_for(lower) == TaskType::Planning
            &&& no_research && no_engineering && no_planning ==> route_for(lower) == TaskType::Unknown
        }),
{
}

/// The task kind for a lowercase task text.
pub fn route_lowercase(task_lower: &str) -> (t: TaskType)
    ensures
        t == route_for(task_lower@),
{
    let s = task_lower;
    if contains(s, "research") || contains(s, "find") || contains(s, "search") || contains(s, "investigate")
        || contains(s, "analyze") || contains(s, "information") {
        TaskType::Research
    } else if contains(s, "code") || contains(s, "implement") || contains(s, "build") || contains(s, "create")
        || contains(s, "fix") || contains(s, "debug") {
        TaskType::Engineering
    } else if contains(s, "plan") || contains(s, "schedule") || contains(s, "organize") || contains(s, "coordinate") {
        TaskType::Planning
    } else {
        TaskType::Unknown
    }
}

} // verus!
