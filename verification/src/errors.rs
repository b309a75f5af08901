//! The library's error type. Each variant carries the operator-facing message
//! text; `describe` renders the single-line form the binary prints.

use vstd::prelude::*;
use vstd::string::*;
use crate::text::{dec_rep, push_decimal};

verus! {

/// A failure surfaced by the harness. Every failure aborts the operation
/// that met it; no category is retried.
#[derive(Debug)]
pub enum OrbitError {
    /// An HTTP request to the control plane failed outright.
    Http(String),
    /// The control plane answered with an error status.
    Api { status: u16, message: String },
    /// The local configuration could not be used.
    Config(String),
    /// User-actionable input problem: bad payload, missing source,
    /// pre-existing directory, missing toolchain, failed local test.
    Input(String),
    /// A file could not be read or written.
    Io(String),
    /// JSON could not be produced or understood.
    Json(String),
}

/// The rendered text of an error, variant prefix included.
pub open spec fn error_text(e: OrbitError) -> Seq<char> {
    match e {
        OrbitError::Http(m) => "HTTP request failed: "@ + m@,
        OrbitError::Api { status, message } => "API error ("@ + dec_rep(status as int) + "): "@
            + message@,
        OrbitError::Config(m) => "Configuration error: "@ + m@,
        OrbitError::Input(m) => "Invalid input: "@ + m@,
        OrbitError::Io(m) => "IO error: "@ + m@,
        OrbitError::Json(m) => "JSON error: "@ + m@,
    }
}

impl OrbitError {
    /// Builds the control-plane error variant from a status and message.
    pub fn api(status: u16, message: String) -> (e: OrbitError)
        ensures
            e matches OrbitError::Api { status: s, message: m } && s == status && m == message,
    {
        OrbitError::Api { status, message }
    }

    /// Renders the error as the one-line text the binary prints.
    pub fn describe(&self) -> (r: String)
        ensures
            r@ == error_text(*self),
    {
        match self {
            OrbitError::Http(m) => {
                let mut out = "HTTP request failed: ".to_owned();
                out.append(m.as_str());
                out
            },
            OrbitError::Api { status, message } => {
                let mut out = "API error (".to_owned();
                push_decimal(&mut out, *status as u64);
                out.append("): ");
                out.append(message.as_str());
                out
            },
            OrbitError::Config(m) => {
                let mut out = "Configuration error: ".to_owned();
                out.append(m.as_str());
                out
            },
            OrbitError::Input(m) => {
                let mut out = "Invalid input: ".to_owned();
                out.append(m.as_str());
                out
            },
            OrbitError::Io(m) => {
                let mut out = "IO error: ".to_owned();
                out.append(m.as_str());
                out
            },
            OrbitError::Json(m) => {
                let mut out = "JSON error: ".to_owned();
                out.append(m.as_str());
                out
            },
        }
    }
}

} // verus!
