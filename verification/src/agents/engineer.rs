//! The agent for engineering tasks.
use vstd::prelude::*;

verus! {

/// The agent for engineering tasks; it answers with one chat request.
pub struct EngineerAgent {
    name: String,
    role: String,
}

impl EngineerAgent {
    /// The agent named `"Engineer"`.
    pub fn new() -> (a: Self)
        ensures
            a.name_text() == "Engineer"@,
            a.role_text() == "Code implementation and technical solutions"@,
    {
        EngineerAgent { name: "Engineer".to_owned(), role: "Code implementation and technical solutions".to_owned() }
    }

    /// The agent's name.
    pub closed spec fn name_text(&self) -> Seq<char> {
        self.name@
    }

    /// The agent's role.
    pub closed spec fn role_text(&self) -> Seq<char> {
        self.role@
    }

    /// The agent's name.
    pub fn name(&self) -> (r: &str)
        ensures
            r@ == self.name_text(),
    {
        self.name.as_str()
    }

    /// The agent's role.
    pub fn role(&self) -> (r: &str)
        ensures
            r@ == self.role_text(),
    {
        self.role.as_str()
    }
}

} // verus!
