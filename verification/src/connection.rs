//! Connection configuration and the connection-check responses.
//!
//! The bus connection itself is the host's; the library holds the plain
//! settings the connection is made with, the reconfiguration that
//! replaces them, and the responses the connection-check handlers
//! return.

use vstd::prelude::*;
use vstd::string::StringExecFns;

verus! {

/// A requested connection configuration.
pub struct PLCConfig {
    pub address: String,
    pub rack: i32,
    pub slot: i32,
}

/// The settings the service currently connects with.
pub struct ConnectionSettings {
    pub address: String,
    pub rack: i32,
    pub slot: i32,
}

impl ConnectionSettings {
    /// Replaces the connection settings with a requested configuration.
    pub fn update_config(&mut self, new_config: PLCConfig)
        ensures
            final(self).address@ == new_config.address@,
            final(self).rack == new_config.rack,
            final(self).slot == new_config.slot,
    {
        self.address = new_config.address;
        self.rack = new_config.rack;
        self.slot = new_config.slot;
    }
}

/// Query of the connection check that targets an explicit address.
pub struct PLCConnectionCheckQuery {
    pub address: String,
    pub rack: i32,
    pub slot: i32,
}

/// Response of the connection check that targets an explicit address.
pub struct PLCConnectionCheckResponse {
    pub address: String,
    pub rack: i32,
    pub slot: i32,
    pub message: String,
}

/// Builds the connection-check response: it echoes the queried target
/// and reports success, or carries the fault text the host rendered.
pub fn connection_check_response(
    query: &PLCConnectionCheckQuery,
    connected: bool,
    fault_text: String,
) -> (response: PLCConnectionCheckResponse)
    ensures
        response.address@ == query.address@,
        response.rack == query.rack,
        response.slot == query.slot,
        connected ==> response.message@ == "Connected to PLC"@,
        !connected ==> response.message@ == fault_text@,
{
    PLCConnectionCheckResponse {
        address: query.address.clone(),
        rack: query.rack,
        slot: query.slot,
        message: if connected {
            connected_message()
        } else {
            fault_text
        },
    }
}

/// Response of the connection check against the configured settings.
pub struct PLCResponse {
    pub address: String,
    pub rack: i32,
    pub slot: i32,
    pub message: String,
}

/// Builds the response of the connection check against the configured
/// settings: it echoes them and reports success, or carries the fault
/// text the host rendered.
pub fn plc_response(settings: &ConnectionSettings, connected: bool, fault_text: String) -> (
    response: PLCResponse)
    ensures
        response.address@ == settings.address@,
        response.rack == settings.rack,
        response.slot == settings.slot,
        connected ==> response.message@ == "Connected to PLC"@,
        !connected ==> response.message@ == fault_text@,
{
    PLCResponse {
        address: settings.address.clone(),
        rack: settings.rack,
        slot: settings.slot,
        message: if connected {
            connected_message()
        } else {
            fault_text
        },
    }
}

/// The message of a successful connection check.
fn connected_message() -> (message: String)
    ensures
        message@ == "Connected to PLC"@,
{
    String::from_str("Connected to PLC")
}

} // verus!
