//! Tracing setup: what the log settings ask for.
//!
//! Installing a subscriber is outside work. [`setup_tracing`] decides what is
//! installed: the filter, the crates that are silenced, and the output format.

use vstd::prelude::*;

verus! {

/// The output format of the log.
#[derive(Clone, Copy, Debug, PartialEq, Eq, Structural)]
pub enum LogFormat {
    /// One JSON object per event.
    Json,
    /// Human-readable lines.
    Text,
    /// Spans exported to an OpenTelemetry collector, and human-readable lines.
    Otlp,
}

/// What to install.
#[derive(Clone, Debug, PartialEq, Eq)]
pub struct TracingPlan {
    /// The filter the operator asked for.
    pub log_level: String,
    /// Filter directives added to it: one per crate that is silenced.
    pub directives: Vec<&'static str>,
    pub format: LogFormat,
    /// Whether the human-readable lines are coloured. The JSON format has no
    /// such lines.
    pub ansi: bool,
}

/// Why no subscriber can be installed.
#[derive(Clone, Copy, Debug, PartialEq, Eq, Structural)]
pub enum TracingError {
    /// The format is none of `json`, `text` and `otlp`.
    UnknownFormat,
}

/// The name under which the server reports itself.
pub const SERVICE_NAME: &'static str = "kubewarden-policy-server";

/// The message of [`TracingError::UnknownFormat`].
pub const UNKNOWN_FORMAT_MESSAGE: &'static str = "Unknown log message format";

/// The crates whose own events are dropped.
pub open spec fn silenced() -> Seq<&'static str> {
    seq![
        "cranelift_codegen=off",
        "cranelift_wasm=off",
        "h2=off",
        "hyper=off",
        "rustls=off",
        "regalloc=off",
        "wasmtime_cranelift=off",
        "wasmtime_jit=off",
    ]
}

/// The format a name stands for.
pub open spec fn format_named(name: Seq<char>) -> Option<LogFormat> {
    if name == "json"@ {
        Some(LogFormat::Json)
    } else if name == "text"@ {
        Some(LogFormat::Text)
    } else if name == "otlp"@ {
        Some(LogFormat::Otlp)
    } else {
        None
    }
}

/// The format a name stands for.
pub fn parse_log_format(name: &str) -> (format: Option<LogFormat>)
    ensures
        format == format_named(name@),
{
    let name = name.to_string();
    if name == "json".to_string() {
        Some(LogFormat::Json)
    } else if name == "text".to_string() {
        Some(LogFormat::Text)
    } else if name == "otlp".to_string() {
        Some(LogFormat::Otlp)
    } else {
        None
    }
}

/// The filter directives that silence the crates whose events are of no
/// interest.
pub fn silenced_directives() -> (directives: Vec<&'static str>)
    ensures
        directives@ == silenced(),
{
    let mut directives: Vec<&'static str> = Vec::new();
    directives.push("cranelift_codegen=off");
    directives.push("cranelift_wasm=off");
    directives.push("h2=off");
    directives.push("hyper=off");
    directives.push("rustls=off");
    directives.push("regalloc=off");
    directives.push("wasmtime_cranelift=off");
    directives.push("wasmtime_jit=off");
    assert(directives@ =~= silenced());
    directives
}

impl TracingError {
    /// The text of the error.
    pub fn message(&self) -> (text: String)
        ensures
            text@ == UNKNOWN_FORMAT_MESSAGE@,
    {
        UNKNOWN_FORMAT_MESSAGE.to_string()
    }
}

/// Decides what tracing is set up from the log settings: the plan for a
/// known format, an error for any other. The lines are coloured unless
/// `log_no_color` is set.
pub fn setup_tracing(log_level: &str, log_fmt: &str, log_no_color: bool) -> (res: Result<
    TracingPlan,
    TracingError,
>)
    ensures
        match format_named(log_fmt@) {
            None => res == Err::<TracingPlan, TracingError>(TracingError::UnknownFormat),
            Some(format) => res matches Ok(plan) && plan.log_level@ == log_level@
                && plan.directives@ == silenced() && plan.format == format && plan.ansi
                == !log_no_color,
        },
{
    match parse_log_format(log_fmt) {
        None => Err(TracingError::UnknownFormat),
        Some(format) => Ok(
            TracingPlan {
                log_level: log_level.to_string(),
                directives: silenced_directives(),
                format,
                ansi: !log_no_color,
            },
        ),
    }
}

} // verus!
