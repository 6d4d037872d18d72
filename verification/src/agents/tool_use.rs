//! The steps of answering with tools: offering the registered tools to the
//! model, deciding what to do with each tool call it makes, and building the
//! follow-up conversation from the results.
use std::sync::Arc;
use vstd::prelude::*;

use serde_json::Value;

use crate::json::{json_parsed_of, parse_json};
use crate::llm::types::{plain_message, Function, FunctionView, Message, MessageView, ToolCall};
use crate::text::{concat2, owned};
use crate::tools::registry::{ToolRegistry, ToolSchemaView};

verus! {

/// The function offered to the model for a registered tool.
pub open spec fn offered_function(s: ToolSchemaView) -> FunctionView {
    FunctionView { type_field: "function"@, name: s.name, description: s.description, parameters: s.parameters }
}

/// `fs` offers exactly the tools of `view`, one function per tool.
pub open spec fn offers_exactly<T>(fs: Seq<FunctionView>, view: Map<Seq<char>, (ToolSchemaView, T)>) -> bool {
    &&& fs.len() == view.dom().len()
    &&& forall|i: int| 0 <= i < fs.len() ==> #[trigger] view.contains_key(fs[i].name)
        && fs[i] == offered_function(view[fs[i].name].0)
    &&& forall|n: Seq<char>| #[trigger] view.contains_key(n) ==> exists|i: int| 0 <= i < fs.len() && fs[i].name == n
}

/// The functions to offer the model: none without a registry, else one per
/// registered tool.
pub fn tool_functions<T>(tools: &Option<Arc<ToolRegistry<T>>>) -> (r: Option<Vec<Function>>)
    ensures
        tools is None <==> r is None,
        r is Some ==> offers_exactly(r->0@.map_values(|f: Function| f@), tools->0.view()),
{
    match tools {
        None => None,
        Some(reg) => {
            let schemas = reg.get_all_schemas();
            let mut fs: Vec<Function> = Vec::new();
            let n = schemas.len();
            let mut i: usize = 0;
            while i < n
                invariant
                    n == schemas@.len(),
                    i <= n,
                    fs@.len() == i,
                    forall|k: int| 0 <= k < i ==> #[trigger] fs@[k]@ == offered_function(schemas@[k]@),
                decreases n - i,
            {
                let s = &schemas[i];
                fs.push(Function {
                    type_field: owned("function"),
                    name: s.name.clone(),
                    description: s.description.clone(),
                    parameters: s.parameters.clone(),
                });
                i = i + 1;
            }
            proof {
                let fv = fs@.map_values(|f: Function| f@);
                let view = reg.view();
                assert forall|k: int| 0 <= k < fv.len() implies #[trigger] view.contains_key(fv[k].name)
                    && fv[k] == offered_function(view[fv[k].name].0) by {
                    assert(fv[k] == fs@[k]@);
                    assert(view.contains_key(schemas@[k]@.name));
                }
                assert forall|m: Seq<char>| #[trigger] view.contains_key(m) implies exists|k: int| 0 <= k < fv.len() && fv[k].name == m by {
                    let k = choose|k: int| 0 <= k < schemas@.len() && schemas@[k]@.name == m;
                    assert(fv[k].name == m);
                }
            }
            Some(fs)
        },
    }
}

/// What to do with one tool call of the model.
pub enum ToolStep {
    /// Run the registered tool `tool_name` on `params`, the call's arguments
    /// read as JSON (`None` when they are not JSON: the tool then gets null),
    /// and answer call `call_id` with its outcome.
    Run { call_id: String, tool_name: String, params: Option<Value> },
    /// No such tool: answer call `call_id` with `result`.
    Missing { call_id: String, result: String },
}

/// `step` is what to do with `call` given the registered tools.
pub open spec fn step_for<T>(step: ToolStep, call: ToolCall, tools: Option<Arc<ToolRegistry<T>>>) -> bool {
    let found = tools matches Some(reg) && reg.view().contains_key(call.function.name@);
    if found {
        step matches ToolStep::Run { call_id, tool_name, params }
            && call_id@ == call.id@ && tool_name@ == call.function.name@
            && params == json_parsed_of(call.function.arguments@)
    } else {
        step matches ToolStep::Missing { call_id, result }
            && call_id@ == call.id@ && result@ == "Tool not found: "@ + call.function.name@
    }
}

/// For each tool call, in order: run it if its tool is registered, else
/// answer that the tool was not found.
pub fn plan_tool_calls<T>(tools: &Option<Arc<ToolRegistry<T>>>, calls: &Vec<ToolCall>) -> (r: Vec<ToolStep>)
    ensures
        r@.len() == calls@.len(),
        forall|i: int| 0 <= i < r@.len() ==> step_for(#[trigger] r@[i], calls@[i], *tools),
{
    let mut r: Vec<ToolStep> = Vec::new();
    let n = calls.len();
    let mut i: usize = 0;
    while i < n
        invariant
            n == calls@.len(),
            i <= n,
            r@.len() == i,
            forall|k: int| 0 <= k < i ==> step_for(#[trigger] r@[k], calls@[k], *tools),
        decreases n - i,
    {
        let call = &calls[i];
        let found = match tools {
            Some(reg) => reg.get(call.function.name.as_str()).is_some(),
            None => false,
        };
        if found {
            r.push(ToolStep::Run {
                call_id: call.id.clone(),
                tool_name: call.function.name.clone(),
                params: parse_json(call.function.arguments.as_str()),
            });
        } else {
            r.push(ToolStep::Missing {
                call_id: call.id.clone(),
                result: concat2("Tool not found: ", call.function.name.as_str()),
            });
        }
        i = i + 1;
    }
    r
}

/// The text a tool call is answered with: the tool's output, or `"Error: "`
/// followed by the failure.
pub fn tool_outcome_text(outcome: Result<String, String>) -> (r: String)
    ensures
        outcome matches Ok(v) ==> r@ == v@,
        outcome matches Err(e) ==> r@ == "Error: "@ + e@,
{
    match outcome {
        Ok(v) => v,
        Err(e) => concat2("Error: ", e.as_str()),
    }
}

/// The answer to one tool call, as a message.
pub open spec fn tool_reply(id: Seq<char>, result: Seq<char>) -> MessageView {
    MessageView { role: "tool"@, content: result, tool_call_id: Some(id) }
}

/// The conversation to send after the tools ran: the original messages, the
/// model's reply that asked for the tools, then one tool message per result.
pub open spec fn followup(
    messages: Seq<MessageView>,
    response: Seq<char>,
    results: Seq<(Seq<char>, Seq<char>)>,
) -> Seq<MessageView> {
    messages.push(plain_message("assistant"@, response)) + results.map_values(
        |p: (Seq<char>, Seq<char>)| tool_reply(p.0, p.1),
    )
}

/// Builds the follow-up conversation from `(call id, result)` pairs.
pub fn followup_messages(messages: &Vec<Message>, response: String, results: &Vec<(String, String)>) -> (r: Vec<Message>)
    ensures
        r@.map_values(|m: Message| m@) == followup(
            messages@.map_values(|m: Message| m@),
            response@,
            results@.map_values(|p: (String, String)| (p.0@, p.1@)),
        ),
{
    let ghost target = followup(
        messages@.map_values(|m: Message| m@),
        response@,
        results@.map_values(|p: (String, String)| (p.0@, p.1@)),
    );
    let mut r: Vec<Message> = Vec::new();
    let n = messages.len();
    let mut i: usize = 0;
    while i < n
        invariant
            n == messages@.len(),
            i <= n,
            r@.len() == i,
            forall|k: int| 0 <= k < i ==> #[trigger] r@[k]@ == messages@[k]@,
        decreases n - i,
    {
        r.push(messages[i].duplicate());
        i = i + 1;
    }
    r.push(Message::assistant(response));
    let m = results.len();
    let mut j: usize = 0;
    while j < m
        invariant
            n == messages@.len(),
            m == results@.len(),
            j <= m,
            r@.len() == n + 1 + j,
            forall|k: int| 0 <= k < n ==> #[trigger] r@[k]@ == messages@[k]@,
            r@[n as int]@ == plain_message("assistant"@, response@),
            forall|k: int| 0 <= k < j ==> #[trigger] r@[n + 1 + k]@ == tool_reply(results@[k].0@, results@[k].1@),
        decreases m - j,
    {
        let (id, res) = &results[j];
        r.push(Message::tool(res.clone(), id.clone()));
        j = j + 1;
    }
    proof {
        let rv = r@.map_values(|x: Message| x@);
        assert(rv.len() == target.len());
        assert forall|k: int| 0 <= k < rv.len() implies rv[k] == target[k] by {
            if k < n {
                assert(rv[k] == messages@[k]@);
            } else if k == n {
            } else {
                assert(rv[k] == r@[n + 1 + (k - n - 1)]@);
            }
        }
        assert(rv =~= target);
    }
    r
}

} // verus!
