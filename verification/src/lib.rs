//! Session lifecycle control for a headless streaming speaker: how credentials
//! are chosen, when a lost session is reconnected, and how the control loop
//! moves between its stages.

pub mod cli;
pub mod credentials;
pub mod environment;
pub mod guarantees;
pub mod identity;
pub mod numbers;
pub mod orchestrator;
pub mod proxy;
pub mod reconnect;
pub mod report;
pub mod setup;
pub mod text;
