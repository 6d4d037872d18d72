//! The agent for planning tasks.
use vstd::prelude::*;

verus! {

/// The agent for planning tasks; it answers with one chat request.
pub struct PlannerAgent {
    name: String,
    role: String,
}

impl PlannerAgent {
    /// The agent named `"Planner"`.
    pub fn new() -> (a: Self)
        ensures
            a.name_text() == "Planner"@,
            a.role_text() == "Task decomposition and planning"@,
    {
        PlannerAgent { name: "Planner".to_owned(), role: "Task decomposition and planning".to_owned() }
    }

    /// The agent's name.
    pub closed spec fn name_text(&self) -> Seq<char> {
        self.name@
    }

    /// The agent's role.
    pub closed spec fn role_text(&self) -> Seq<char> {
        self.role@
    }

    /// The agent's name.
    pub fn name(&self) -> (r: &str)
        ensures
            r@ == self.name_text(),
    {
        self.name.as_str()
    }

    /// The agent's role.
    pub fn role(&self) -> (r: &str)
        ensures
            r@ == self.role_text(),
    {
        self.role.as_str()
    }
}

} // verus!
