pub mod cli_integration;
pub mod common;
pub mod copy;
pub mod daemon_integration;
pub mod exact_route;
pub mod intent_router;
pub mod planner_engine;
pub mod planner_model;
pub mod query_ir;
pub mod query_text;
pub mod ranking;
pub mod route_adapters;
pub mod result_grouping;
pub mod route_policy;
pub mod route_registry;
pub mod score_fusion;
pub mod trust_payloads;
