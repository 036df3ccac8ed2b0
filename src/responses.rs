use vstd::prelude::*;

use crate::emulator::{emulator_error_text, Emulator, EmulatorError};

verus! {

/// What the management interface reports about one instance.
#[derive(Debug)]
pub struct EmulatorResponse {
    pub name: String,
    pub port: u16,
    pub adb_port: u16,
    pub status: String,
}

/// What the management interface reports when a request fails.
#[derive(Debug)]
pub struct ErrorResponse {
    pub error: String,
}

impl EmulatorResponse {
    /// The report on `emulator`, under the status label `status`.
    pub fn new(emulator: &Emulator, status: &str) -> (r: Self)
        ensures
            r.name@ == emulator@.name,
            r.port == emulator@.port,
            r.adb_port == emulator@.adb_port,
            r.status@ == status@,
    {
        EmulatorResponse {
            name: emulator.name().to_owned(),
            port: emulator.port(),
            adb_port: emulator.adb_port(),
            status: status.to_owned(),
        }
    }

    /// The status label for a probe of the device list.
    pub fn probe_label(running: bool) -> (r: &'static str)
        ensures
            running ==> r@ == "running"@,
            !running ==> r@ == "stopped"@,
    {
        if running {
            "running"
        } else {
            "stopped"
        }
    }
}

impl ErrorResponse {
    pub fn from_error(error: &EmulatorError) -> (r: Self)
        ensures
            r.error@ == emulator_error_text(*error),
    {
        ErrorResponse { error: error.message() }
    }

    /// The report for a name that has no stored record.
    pub fn not_found(name: &str) -> (r: Self)
        ensures
            r.error@ == "Emulator "@ + name@ + " not found"@,
    {
        ErrorResponse { error: "Emulator ".to_owned().concat(name).concat(" not found") }
    }
}

} // verus!
