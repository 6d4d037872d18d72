//! The agents, how a task is routed among them, and the tool-use steps they
//! share.
pub mod base;
pub mod engineer;
pub mod planner;
pub mod tool_use;

pub use base::{AgentMessage, BaseAgent, TaskType};
pub use engineer::EngineerAgent;
pub use planner::PlannerAgent;
pub mod manager;
pub mod researcher;

pub use manager::ManagerAgent;
pub use researcher::ResearcherAgent;
