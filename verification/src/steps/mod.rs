//! The decisions of the step executors: reading page snapshots, judging
//! assertions, and the agent and login procedures.

pub mod agentic;
pub mod deterministic;
pub mod virtual_tools;
pub mod provider;
