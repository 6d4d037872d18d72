use std::sync::Arc;

use mi7_agent::agents::base::{AgentMessage, BaseAgent, TaskType};
use mi7_agent::agents::manager::{route_lowercase, CoordinationPlan, ManagerAgent, SubAgent};
use mi7_agent::agents::tool_use::{followup_messages, plan_tool_calls, tool_functions, tool_outcome_text, ToolStep};
use mi7_agent::agents::{EngineerAgent, PlannerAgent, ResearcherAgent};
use mi7_agent::llm::{FunctionCall, Message, ToolCall};
use mi7_agent::tools::{ToolRegistry, ToolSchema};

fn schema(name: &str) -> ToolSchema {
    ToolSchema { name: name.to_string(), description: format!("{} tool", name), parameters: serde_json::Value::Null }
}

fn call(id: &str, name: &str, args: &str) -> ToolCall {
    ToolCall {
        id: id.to_string(),
        call_type: "function".to_string(),
        function: FunctionCall { name: name.to_string(), arguments: args.to_string() },
    }
}

#[test]
fn task_type_names() {
    assert_eq!(TaskType::from_str("Research"), TaskType::Research);
    assert_eq!(TaskType::from_str("INVESTIGATION"), TaskType::Research);
    assert_eq!(TaskType::from_str("code"), TaskType::Engineering);
    assert_eq!(TaskType::from_str("Implementation"), TaskType::Engineering);
    assert_eq!(TaskType::from_str("plan"), TaskType::Planning);
    assert_eq!(TaskType::from_str("Coordinate"), TaskType::Coordination);
    assert_eq!(TaskType::from_str("coordination"), TaskType::Coordination);
    assert_eq!(TaskType::from_str("cooking"), TaskType::Unknown);
    assert_eq!(TaskType::from_lowercase("Research"), TaskType::Unknown);
}

#[test]
fn agents_have_names_and_roles() {
    let e = EngineerAgent::new();
    assert_eq!(e.name(), "Engineer");
    assert_eq!(e.role(), "Code implementation and technical solutions");
    let p = PlannerAgent::new();
    assert_eq!(p.name(), "Planner");
    assert_eq!(p.role(), "Task decomposition and planning");
    let r: ResearcherAgent<()> = ResearcherAgent::new();
    assert_eq!(r.name(), "Researcher");
    assert_eq!(r.role(), "Information retrieval and analysis");
    assert!(r.tool_registry().is_none());
    assert!(r.offered_functions().is_none());
    let m: ManagerAgent<()> = ManagerAgent::new();
    assert_eq!(m.name(), "Manager");
    assert_eq!(m.role(), "Coordinator and router");
}

#[test]
fn base_agent_tools() {
    let b: BaseAgent<u8> = BaseAgent::new("n".into(), "r".into());
    assert!(b.tools.is_none());
    let mut reg = ToolRegistry::new();
    reg.register(schema("t"), 7u8);
    let b = b.with_tools(Arc::new(reg));
    assert_eq!(b.name, "n");
    assert_eq!(b.tools.as_ref().unwrap().get("t"), Some(&7u8));
    let msg = AgentMessage::Task { task_id: "1".into(), content: "c".into(), task_type: TaskType::Planning };
    assert!(matches!(msg, AgentMessage::Task { task_type: TaskType::Planning, .. }));
}

#[test]
fn routing_by_words() {
    let m: ManagerAgent<()> = ManagerAgent::new();
    assert_eq!(m.route_task("Please RESEARCH the market"), TaskType::Research);
    assert_eq!(m.route_task("find and fix the bug"), TaskType::Research);
    assert_eq!(m.route_task("fix the bug"), TaskType::Engineering);
    assert_eq!(m.route_task("Schedule a meeting"), TaskType::Planning);
    assert_eq!(m.route_task("coordinate the team"), TaskType::Planning);
    assert_eq!(m.route_task("hello there"), TaskType::Unknown);
    assert_eq!(route_lowercase("SEARCH"), TaskType::Unknown);
    assert_eq!(route_lowercase("Research"), TaskType::Research);
}

#[test]
fn sub_agents_by_kind() {
    let m: ManagerAgent<()> = ManagerAgent::new();
    assert!(matches!(m.get_agent_for_task(TaskType::Research), Some(SubAgent::Researcher(_))));
    assert!(matches!(m.get_agent_for_task(TaskType::Engineering), Some(SubAgent::Engineer(_))));
    assert!(matches!(m.get_agent_for_task(TaskType::Planning), Some(SubAgent::Planner(_))));
    assert!(m.get_agent_for_task(TaskType::Coordination).is_none());
    assert!(m.get_agent_for_task(TaskType::Unknown).is_none());
}

#[test]
fn coordination_plans() {
    let m: ManagerAgent<()> = ManagerAgent::new();
    match m.plan_coordination("build a parser") {
        CoordinationPlan::Delegate { task_type, messages } => {
            assert_eq!(task_type, TaskType::Engineering);
            assert_eq!(messages.len(), 2);
            assert_eq!(messages[0].role, "system");
            assert_eq!(messages[0].content, "You are a Code implementation and technical solutions. Engineer");
            assert_eq!(messages[1].role, "user");
            assert_eq!(messages[1].content, "build a parser");
        }
        _ => panic!("expected delegation"),
    }
    match m.plan_coordination("hello") {
        CoordinationPlan::Direct { messages } => {
            assert_eq!(messages.len(), 1);
            assert_eq!(messages[0].role, "user");
            assert_eq!(messages[0].content, "hello");
        }
        _ => panic!("expected direct handling"),
    }
}

#[test]
fn registry_replaces_by_name() {
    let mut reg: ToolRegistry<u32> = ToolRegistry::new();
    reg.register(schema("a"), 1);
    reg.register(schema("b"), 2);
    reg.register(ToolSchema { name: "a".into(), description: "new".into(), parameters: serde_json::Value::Bool(true) }, 3);
    assert_eq!(reg.get("a"), Some(&3));
    assert_eq!(reg.get("b"), Some(&2));
    assert_eq!(reg.get("c"), None);
    assert_eq!(reg.get_schema("a").unwrap().description, "new");
    let names = reg.list_tools();
    assert_eq!(names, vec!["a".to_string(), "b".to_string()]);
    assert_eq!(reg.get_all_schemas().len(), 2);
}

#[test]
fn functions_offered_for_tools() {
    let none: Option<Arc<ToolRegistry<()>>> = None;
    assert!(tool_functions(&none).is_none());
    let mut reg = ToolRegistry::new();
    reg.register(schema("get_weather"), ());
    let fs = tool_functions(&Some(Arc::new(reg))).unwrap();
    assert_eq!(fs.len(), 1);
    assert_eq!(fs[0].type_field, "function");
    assert_eq!(fs[0].name, "get_weather");
    assert_eq!(fs[0].description, "get_weather tool");
    let mut reg2 = ToolRegistry::new();
    reg2.register(schema("x"), ());
    let m = ManagerAgent::new().with_tools(Arc::new(reg2));
    assert_eq!(m.offered_functions().unwrap()[0].name, "x");
    let mut reg3 = ToolRegistry::new();
    reg3.register(schema("y"), ());
    let r = ResearcherAgent::new().with_tools(Arc::new(reg3));
    assert_eq!(r.offered_functions().unwrap()[0].name, "y");
}

#[test]
fn tool_call_steps() {
    let mut reg = ToolRegistry::new();
    reg.register(schema("get_weather"), ());
    let tools = Some(Arc::new(reg));
    let calls = vec![
        call("c1", "get_weather", "{\"city\":\"Paris\"}"),
        call("c2", "missing", "{}"),
        call("c3", "get_weather", "city=Paris"),
    ];
    let steps = plan_tool_calls(&tools, &calls);
    match &steps[0] {
        ToolStep::Run { call_id, tool_name, params } => {
            assert_eq!(call_id, "c1");
            assert_eq!(tool_name, "get_weather");
            let mut expected = serde_json::Map::new();
            expected.insert("city".to_string(), serde_json::Value::String("Paris".to_string()));
            assert_eq!(params, &Some(serde_json::Value::Object(expected)));
        }
        _ => panic!("expected run"),
    }
    match &steps[2] {
        ToolStep::Run { call_id, params, .. } => {
            assert_eq!(call_id, "c3");
            assert_eq!(params, &None);
        }
        _ => panic!("expected run"),
    }
    match &steps[1] {
        ToolStep::Missing { call_id, result } => {
            assert_eq!(call_id, "c2");
            assert_eq!(result, "Tool not found: missing");
        }
        _ => panic!("expected missing"),
    }
    let none: Option<Arc<ToolRegistry<()>>> = None;
    assert!(matches!(plan_tool_calls(&none, &calls)[0], ToolStep::Missing { .. }));
}

#[test]
fn tool_outcomes_and_followup() {
    assert_eq!(tool_outcome_text(Ok("{\"a\":1}".into())), "{\"a\":1}");
    assert_eq!(tool_outcome_text(Err("boom".into())), "Error: boom");
    let msgs = vec![Message::system("s".into()), Message::user("u".into())];
    let results = vec![("c1".to_string(), "r1".to_string()), ("c2".to_string(), "r2".to_string())];
    let f = followup_messages(&msgs, "calls".into(), &results);
    assert_eq!(f.len(), 5);
    assert_eq!(f[0].role, "system");
    assert_eq!(f[2].role, "assistant");
    assert_eq!(f[2].content, "calls");
    assert_eq!(f[3].role, "tool");
    assert_eq!(f[3].content, "r1");
    assert_eq!(f[3].tool_call_id.as_deref(), Some("c1"));
    assert_eq!(f[4].tool_call_id.as_deref(), Some("c2"));
}

#[test]
fn task_kind_ignores_case() {
    for word in ["research", "Engineer", "PLAN", "cOoRdInAtE", "cooking"] {
        let t = TaskType::from_str(word);
        assert_eq!(TaskType::from_str(&word.to_lowercase()), t);
        assert_eq!(TaskType::from_str(&word.to_uppercase()), t);
    }
    assert_eq!(TaskType::from_str("RESEARCHER"), TaskType::Research);
}

#[test]
fn routing_ignores_case() {
    let m: ManagerAgent<()> = ManagerAgent::new();
    assert_eq!(m.route_task("Please RESEARCH this"), m.route_task("please research this"));
    assert_eq!(m.route_task("Please RESEARCH this"), TaskType::Research);
}
