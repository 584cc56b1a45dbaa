//! Verified core of the NPC cluster backends: the controller that provisions
//! Matrix agent accounts and scales the agent StatefulSet, and the UI backend
//! that keeps VM configurations and task queues.
pub mod text;
pub mod keys;
pub mod external;
pub mod registration;
pub mod login;
pub mod provisioning;
pub mod scaling;
pub mod gateway;
pub mod health;
pub mod registry;
pub mod controller_records;
pub mod ui_records;
pub mod members;
pub mod startup;
