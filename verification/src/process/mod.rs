pub mod runner;
pub mod orchestrator;
pub mod optimizer;
pub mod detector;
pub mod router_check;
pub mod live_apply;
pub mod icon;
