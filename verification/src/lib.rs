//! Ticket lifecycle core of an airline booking service: the soft-delete record
//! store, the wire mapper, the field-mask update translator, the capacity rule
//! and the event notifications that the service publishes.

pub mod bson;
pub mod config;
pub mod datautils;
pub mod dependencies;
pub mod errors;
pub mod parse;
pub mod proto;
pub mod rabbitmq;
pub mod status;
pub mod text;
pub mod tickets;
