//! Defaults of the service configuration.

use vstd::prelude::*;
use vstd::string::StringExecFns;

verus! {

/// The port the service listens on when none is configured.
pub fn default_port() -> (port: u16)
    ensures
        port == 50051,
{
    50051
}

/// The address of the flight manager when none is configured.
pub fn default_flightmngr_url() -> (url: String)
    ensures
        url@ == "grpc://flightmngr"@,
{
    String::from_str("grpc://flightmngr")
}

/// The address of the validation service when none is configured.
pub fn default_validationsvc_url() -> (url: String)
    ensures
        url@ == "grpc://validationsvc"@,
{
    String::from_str("grpc://validationsvc")
}

/// The broker port when none is configured.
pub fn default_rabbitmq_port() -> (port: u16)
    ensures
        port == 5672,
{
    5672
}

} // verus!
