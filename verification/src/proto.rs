//! The messages that the service exchanges with its callers and with the
//! services it consults.

pub mod flightmngr;
pub mod protobuf;
pub mod ticketsrvc;
pub mod validationsvc;
