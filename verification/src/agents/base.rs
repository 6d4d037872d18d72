//! Task kinds, messages between agents, and the plain agent record.
use std::sync::Arc;
use vstd::prelude::*;

use crate::text::{ascii_lower, ascii_upper, is_ascii_text, lemma_ascii_case, lowercase_of, text_eq, to_lowercase};
use crate::tools::ToolRegistry;

verus! {

/// A message passed between agents about a task.
pub enum AgentMessage {
    Task { task_id: String, content: String, task_type: TaskType },
    Result { task_id: String, content: String, from_agent: String },
    Error { task_id: String, error: String },
}

/// The kind of work a task asks for.
#[derive(Debug, Clone, Copy, PartialEq, Eq, Structural)]
pub enum TaskType {
    Research,
    Engineering,
    Planning,
    Coordination,
    Unknown,
}

/// The task kind that a lowercase name stands for.
pub open spec fn task_type_named(s: Seq<char>) -> TaskType {
    if s == "research"@ || s == "researcher"@ || s == "investigation"@ {
        TaskType::Research
    } else if s == "engineering"@ || s == "engineer"@ || s == "code"@ || s == "implementation"@ {
        TaskType::Engineering
    } else if s == "planning"@ || s == "planner"@ || s == "plan"@ {
        TaskType::Planning
    } else if s == "coordination"@ || s == "coordinate"@ {
        TaskType::Coordination
    } else {
        TaskType::Unknown
    }
}

impl TaskType {
    /// The task kind named by `s`, in any letter case.
    pub fn from_str(s: &str) -> (t: TaskType)
        ensures
            t == task_type_named(lowercase_of(s@)),
            is_ascii_text(s@) ==> t == task_type_named(ascii_lower(s@)),
    {
        let lower = to_lowercase(s);
        TaskType::from_lowercase(lower.as_str())
    }

    /// The task kind named by the lowercase text `s`: one of its names
    /// (`"research"`, `"engineer"`, `"plan"`, ...) or `Unknown`.
    pub fn from_lowercase(s: &str) -> (t: TaskType)
        ensures
            t == task_type_named(s@),
    {
        if text_eq(s, "research") || text_eq(s, "researcher") || text_eq(s, "investigation") {
            TaskType::Research
        } else if text_eq(s, "engineering") || text_eq(s, "engineer") || text_eq(s, "code")
            || text_eq(s, "implementation") {
            TaskType::Engineering
        } else if text_eq(s, "planning") || text_eq(s, "planner") || text_eq(s, "plan") {
            TaskType::Planning
        } else if text_eq(s, "coordination") || text_eq(s, "coordinate") {
            TaskType::Coordination
        } else {
            TaskType::Unknown
        }
    }
}

/// An agent described by name and role, optionally with tools (run as `T`).
pub struct BaseAgent<T> {
    pub name: String,
    pub role: String,
    pub tools: Option<Arc<ToolRegistry<T>>>,
}

impl<T> BaseAgent<T> {
    /// An agent with no tools.
    pub fn new(name: String, role: String) -> (a: Self)
        ensures
            a.name == name,
            a.role == role,
            a.tools is None,
    {
        BaseAgent { name, role, tools: None }
    }

    /// The same agent, now offering `tools`.
    pub fn with_tools(self, tools: Arc<ToolRegistry<T>>) -> (a: Self)
        ensures
            a.name == self.name,
            a.role == self.role,
            a.tools == Some(tools),
    {
        let mut a = self;
        a.tools = Some(tools);
        a
    }
}

/// Each name of a task kind reads as that kind: "research", "researcher" and
/// "investigation" as research; "engineering", "engineer", "code" and
/// "implementation" as engineering; "planning", "planner" and "plan" as
/// planning; "coordination" and "coordinate" as coordination. Any other text
/// is unknown.
pub proof fn lemma_task_type_names(s: Seq<char>)
    ensures
        task_type_named("research"@) == TaskType::Research,
        task_type_named("researcher"@) == TaskType::Research,
        task_type_named("investigation"@) == TaskType::Research,
        task_type_named("engineering"@) == TaskType::Engineering,
        task_type_named("engineer"@) == TaskType::Engineering,
        task_type_named("code"@) == TaskType::Engineering,
        task_type_named("implementation"@) == TaskType::Engineering,
        task_type_named("planning"@) == TaskType::Planning,
        task_type_named("planner"@) == TaskType::Planning,
        task_type_named("plan"@) == TaskType::Planning,
        task_type_named("coordination"@) == TaskType::Coordination,
        task_type_named("coordinate"@) == TaskType::Coordination,
        s != "research"@ && s != "researcher"@ && s != "investigation"@ && s != "engineering"@
            && s != "engineer"@ && s != "code"@ && s != "implementation"@ && s != "planning"@
            && s != "planner"@ && s != "plan"@ && s != "coordination"@ && s != "coordinate"@
            ==> task_type_named(s) == TaskType::Unknown,
{
    reveal_strlit("research");
    reveal_strlit("researcher");
    reveal_strlit("investigation");
    reveal_strlit("engineering");
    reveal_strlit("engineer");
    reveal_strlit("code");
    reveal_strlit("implementation");
    reveal_strlit("planning");
    reveal_strlit("planner");
    reveal_strlit("plan");
    reveal_strlit("coordination");
    reveal_strlit("coordinate");
    assert("research"@[0] == 'r' && "research"@.len() == 8);
    assert("researcher"@[0] == 'r' && "researcher"@.len() == 10);
    assert("investigation"@[0] == 'i' && "investigation"@.len() == 13);
    assert("engineering"@[0] == 'e' && "engineering"@.len() == 11);
    assert("engineer"@[0] == 'e' && "engineer"@.len() == 8);
    assert("code"@[0] == 'c' && "code"@.len() == 4);
    assert("implementation"@[0] == 'i' && "implementation"@.len() == 14);
    assert("planning"@[0] == 'p' && "planning"@.len() == 8);
    assert("planner"@[0] == 'p' && "planner"@.len() == 7);
    assert("plan"@[0] == 'p' && "plan"@.len() == 4);
    assert("coordination"@[0] == 'c' && "coordination"@.len() == 12);
    assert("coordinate"@[0] == 'c' && "coordinate"@.len() == 10);
}

/// Reading a task kind ignores letter case: on an ASCII text, `from_str`
/// reads the kind from the text's lowercase, and the text, its lowercase and its
/// uppercase all have that same lowercase, so all three name the same kind.
pub proof fn lemma_from_str_ignores_case(s: Seq<char>)
    requires
        is_ascii_text(s),
    ensures
        is_ascii_text(ascii_lower(s)),
        is_ascii_text(ascii_upper(s)),
        task_type_named(ascii_lower(ascii_lower(s))) == task_type_named(ascii_lower(s)),
        task_type_named(ascii_lower(ascii_upper(s))) == task_type_named(ascii_lower(s)),
{
    lemma_ascii_case(s);
}

} // verus!
