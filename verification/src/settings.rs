//! Validated runtime configuration.
//!
//! The process reads a configuration file merged with environment overrides
//! and hands the raw values here; only the validation is the library's own.

use vstd::prelude::*;

verus! {

/// The four already-validated inputs the exporter needs at startup.
pub struct AppSettings {
    pub azure_client_id: String,
    pub azure_client_secret: String,
    pub azure_tenant_id: String,
    pub port: u16,
}

/// The listen port as configuration sources deliver it: a wide integer that
/// must fit a TCP port. Returns the port exactly when the value is in range.
pub fn port_from_config(value: i64) -> (r: Option<u16>)
    ensures
        r is Some <==> 0 <= value <= u16::MAX,
        r matches Some(p) ==> p == value,
{
    if 0 <= value && value <= u16::MAX as i64 {
        Some(value as u16)
    } else {
        None
    }
}

} // verus!
