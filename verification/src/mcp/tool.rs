//! A tool served by an MCP server, over a spawned process or over HTTP.
use std::sync::Arc;
use serde_json::Value;
use vstd::prelude::*;

use crate::mcp::protocol::Tool;
use crate::text::{concat2, text_eq};
use crate::tools::registry::{ToolSchema, ToolSchemaView};

verus! {

/// `tokio::sync::RwLock`, declared so that a shared flag can be held; what it
/// guards is not visible here.
#[verifier::external_type_specification]
#[verifier::external_body]
#[verifier::reject_recursive_types(T)]
pub struct ExTokioRwLock<T: ?Sized>(tokio::sync::RwLock<T>);

/// The value that a `tokio::sync::RwLock` was created with. It is fixed for
/// the lock's whole life; what is written into the lock later is not told here.
pub uninterp spec fn lock_created_with(lock: tokio::sync::RwLock<bool>) -> bool;

/// Calls `tokio::sync::RwLock::new` on `value` and shares the lock: the lock
/// is created holding `value`. What it holds later cannot be read here.
#[verifier::external_body]
fn shared_flag(value: bool) -> (r: Arc<tokio::sync::RwLock<bool>>)
    ensures
        lock_created_with(*r) == value,
{
    Arc::new(tokio::sync::RwLock::new(value))
}

/// A tool of an MCP server: its name, description and input schema, and the
/// command that starts its server (empty when the server is reached over
/// HTTP).
#[derive(Clone)]
pub struct McpTool {
    name: String,
    description: String,
    input_schema: Value,
    command: String,
    args: Vec<String>,
    initialized: Arc<tokio::sync::RwLock<bool>>,
}

impl McpTool {
    /// The tool's name.
    pub closed spec fn name_text(&self) -> Seq<char> {
        self.name@
    }

    /// The tool's description.
    pub closed spec fn description_text(&self) -> Seq<char> {
        self.description@
    }

    /// The tool's input schema.
    pub closed spec fn input_schema_value(&self) -> Value {
        self.input_schema
    }

    /// The command that starts the tool's server.
    pub closed spec fn command_text(&self) -> Seq<char> {
        self.command@
    }

    /// The shared flag that records whether the tool's server session is
    /// initialized.
    pub closed spec fn initialized_lock(&self) -> Arc<tokio::sync::RwLock<bool>> {
        self.initialized
    }

    /// Whether the tool's session counted as initialized when the tool was
    /// made: the value its flag was created with.
    pub closed spec fn starts_initialized(&self) -> bool {
        lock_created_with(*self.initialized)
    }

    /// The arguments of that command.
    pub closed spec fn args_texts(&self) -> Seq<Seq<char>> {
        self.args@.map_values(|a: String| a@)
    }

    /// A tool whose server is started with `command` and `args`; its session
    /// starts uninitialized.
    pub fn new(name: String, description: String, input_schema: Value, command: String, args: Vec<String>) -> (t: Self)
        ensures
            t.name_text() == name@,
            t.description_text() == description@,
            t.input_schema_value() == input_schema,
            t.command_text() == command@,
            t.args_texts() == args@.map_values(|a: String| a@),
            !t.starts_initialized(),
    {
        McpTool { name, description, input_schema, command, args, initialized: shared_flag(false) }
    }

    /// A tool of a server reached over HTTP: no command, and its session
    /// counts as initialized.
    pub fn new_http(name: String, description: String, input_schema: Value) -> (t: Self)
        ensures
            t.name_text() == name@,
            t.description_text() == description@,
            t.input_schema_value() == input_schema,
            t.command_text() == Seq::<char>::empty(),
            t.args_texts() == Seq::<Seq<char>>::empty(),
            t.starts_initialized(),
    {
        let t = McpTool {
            name,
            description,
            input_schema,
            command: String::new(),
            args: Vec::new(),
            initialized: shared_flag(true),
        };
        assert(t.args_texts() =~= Seq::<Seq<char>>::empty());
        t
    }

    /// Whether the tool's server is reached over HTTP: it has no command.
    pub fn is_http(&self) -> (b: bool)
        ensures
            b == (self.command_text().len() == 0),
    {
        self.command.as_str().is_empty()
    }

    /// The tool's name.
    pub fn name(&self) -> (r: &str)
        ensures
            r@ == self.name_text(),
    {
        self.name.as_str()
    }

    /// The tool's description.
    pub fn description(&self) -> (r: &str)
        ensures
            r@ == self.description_text(),
    {
        self.description.as_str()
    }

    /// The command that starts the tool's server.
    pub fn command(&self) -> (r: &str)
        ensures
            r@ == self.command_text(),
    {
        self.command.as_str()
    }

    /// The arguments of that command.
    pub fn args(&self) -> (r: &Vec<String>)
        ensures
            r@.map_values(|a: String| a@) == self.args_texts(),
    {
        &self.args
    }

    /// The flag that records whether the tool's server session is initialized.
    pub fn initialized_flag(&self) -> (r: &Arc<tokio::sync::RwLock<bool>>)
        ensures
            *r == self.initialized_lock(),
    {
        &self.initialized
    }

    /// How the tool presents itself to the model.
    pub fn schema(&self) -> (s: ToolSchema)
        ensures
            s@ == (ToolSchemaView {
                name: self.name_text(),
                description: self.description_text(),
                parameters: self.input_schema_value(),
            }),
    {
        ToolSchema {
            name: self.name.clone(),
            description: self.description.clone(),
            parameters: self.input_schema.clone(),
        }
    }
}


/// What to do before calling a tool on its server.
pub enum InitStep {
    /// The session is initialized already: go on.
    Skip,
    /// Start the server, send it `initialize`, then mark the session
    /// initialized.
    Initialize,
}

/// The step before a tool call, from the tool's initialized flag: initialize
/// exactly when the session is not initialized yet.
pub fn init_step(initialized: bool) -> (s: InitStep)
    ensures
        initialized ==> s is Skip,
        !initialized ==> s is Initialize,
{
    if initialized {
        InitStep::Skip
    } else {
        InitStep::Initialize
    }
}

/// The tools of a server started with `command` and `args`, one per listed
/// tool, in the listed order.
pub fn stdio_tools(listed: Vec<Tool>, command: &str, args: &Vec<String>) -> (r: Vec<McpTool>)
    ensures
        r@.len() == listed@.len(),
        forall|i: int| 0 <= i < r@.len() ==> {
            &&& (#[trigger] r@[i]).name_text() == listed@[i].name@
            &&& r@[i].description_text() == listed@[i].description@
            &&& r@[i].input_schema_value() == listed@[i].input_schema
            &&& r@[i].command_text() == command@
            &&& r@[i].args_texts() == args@.map_values(|a: String| a@)
            &&& !r@[i].starts_initialized()
        },
{
    let mut r: Vec<McpTool> = Vec::new();
    let n = listed.len();
    let mut i: usize = 0;
    while i < n
        invariant
            n == listed@.len(),
            i <= n,
            r@.len() == i,
            forall|k: int| 0 <= k < i ==> {
                &&& (#[trigger] r@[k]).name_text() == listed@[k].name@
                &&& r@[k].description_text() == listed@[k].description@
                &&& r@[k].input_schema_value() == listed@[k].input_schema
                &&& r@[k].command_text() == command@
                &&& r@[k].args_texts() == args@.map_values(|a: String| a@)
                &&& !r@[k].starts_initialized()
            },
        decreases n - i,
    {
        let t = &listed[i];
        let mut a: Vec<String> = Vec::new();
        let m = args.len();
        let mut j: usize = 0;
        while j < m
            invariant
                m == args@.len(),
                j <= m,
                a@.len() == j,
                forall|k: int| 0 <= k < j ==> #[trigger] a@[k]@ == args@[k]@,
            decreases m - j,
        {
            a.push(args[j].clone());
            j = j + 1;
        }
        assert(a@.map_values(|x: String| x@) =~= args@.map_values(|x: String| x@));
        r.push(McpTool::new(
            t.name.clone(),
            t.description.clone(),
            t.input_schema.clone(),
            command.to_owned(),
            a,
        ));
        i = i + 1;
    }
    r
}

/// The tools of a server reached over HTTP, one per listed tool, in order.
pub fn http_tools(listed: Vec<Tool>) -> (r: Vec<McpTool>)
    ensures
        r@.len() == listed@.len(),
        forall|i: int| 0 <= i < r@.len() ==> {
            &&& (#[trigger] r@[i]).name_text() == listed@[i].name@
            &&& r@[i].description_text() == listed@[i].description@
            &&& r@[i].input_schema_value() == listed@[i].input_schema
            &&& r@[i].command_text() == Seq::<char>::empty()
            &&& r@[i].starts_initialized()
        },
{
    let mut r: Vec<McpTool> = Vec::new();
    let n = listed.len();
    let mut i: usize = 0;
    while i < n
        invariant
            n == listed@.len(),
            i <= n,
            r@.len() == i,
            forall|k: int| 0 <= k < i ==> {
                &&& (#[trigger] r@[k]).name_text() == listed@[k].name@
                &&& r@[k].description_text() == listed@[k].description@
                &&& r@[k].input_schema_value() == listed@[k].input_schema
                &&& r@[k].command_text() == Seq::<char>::empty()
                &&& r@[k].starts_initialized()
            },
        decreases n - i,
    {
        let t = &listed[i];
        r.push(McpTool::new_http(t.name.clone(), t.description.clone(), t.input_schema.clone()));
        i = i + 1;
    }
    r
}

/// The first tool named `name`, or the failure naming the missing tool.
pub fn find_tool<'a>(tools: &'a Vec<McpTool>, name: &str) -> (r: Result<&'a McpTool, String>)
    ensures
        match r {
            Ok(t) => exists|i: int| 0 <= i < tools@.len() && tools@[i] == *t && t.name_text() == name@
                && forall|k: int| 0 <= k < i ==> tools@[k].name_text() != name@,
            Err(msg) => msg@ == "Tool not found: "@ + name@
                && forall|k: int| 0 <= k < tools@.len() ==> tools@[k].name_text() != name@,
        },
{
    let n = tools.len();
    let mut i: usize = 0;
    while i < n
        invariant
            n == tools@.len(),
            i <= n,
            forall|k: int| 0 <= k < i ==> tools@[k].name_text() != name@,
        decreases n - i,
    {
        if text_eq(tools[i].name(), name) {
            return Ok(&tools[i]);
        }
        i = i + 1;
    }
    Err(concat2("Tool not found: ", name))
}

} // verus!
