//! The editor's debug requests and the scenarios and launch plans the
//! adapters make from them.
use vstd::prelude::*;
use crate::env::EnvVars;
use crate::json::{json_from_map, json_view, Json, pairs_json};

verus! {

/// A request to start a program under the debugger.
pub struct LaunchRequest {
    /// The program to debug.
    pub program: String,
    /// The working directory, if one was chosen.
    pub cwd: Option<String>,
    /// The program's arguments.
    pub args: Vec<String>,
    /// Extra environment variables for the program.
    pub env: EnvVars,
}

/// A request to attach to a running process.
pub struct AttachRequest {
    /// The process to attach to, if one was chosen.
    pub process_id: Option<u32>,
}

/// What the user asks the debugger to do.
pub enum DebugRequest {
    Launch(LaunchRequest),
    Attach(AttachRequest),
}

/// A debug configuration in the editor's own format.
pub struct ZedDebugConfig {
    /// The name shown for the configuration.
    pub label: String,
    /// The adapter that should run it.
    pub adapter: String,
    pub request: DebugRequest,
    /// Whether to stop at the program's entry point.
    pub stop_on_entry: Option<bool>,
}

/// How to reach a debug adapter over TCP; each part may be left open.
#[derive(Clone, Copy, Debug, PartialEq, Eq)]
pub struct TcpArgumentsTemplate {
    pub port: Option<u16>,
    /// An IPv4 address, one byte per octet.
    pub host: Option<[u8; 4]>,
    /// Milliseconds to wait for the connection.
    pub timeout: Option<u64>,
}

/// A debug scenario in the adapter's own configuration format.
pub struct DebugScenario {
    pub adapter: String,
    pub label: String,
    /// The adapter-specific launch or attach configuration (a JSON object).
    pub config: serde_json::Value,
    pub tcp_connection: Option<TcpArgumentsTemplate>,
}

/// A debug task as it is about to be started.
pub struct DebugTaskDefinition {
    pub label: String,
    pub adapter: String,
    pub config: serde_json::Value,
    pub tcp_connection: Option<TcpArgumentsTemplate>,
}

/// Why an adapter cannot produce what was asked of it.
pub enum AdapterError {
    /// GDScript debugging only supports launch requests.
    LaunchRequestRequired,
    /// The adapter's executable was neither configured nor found on `PATH`.
    BinaryNotFound { binary: String, adapter: String },
    /// The configuration's kind of start request was refused; the text says why.
    RequestKind { message: String },
}

/// How the adapter is asked to start the debuggee.
#[derive(Clone, Copy, Debug, PartialEq, Eq, Structural)]
pub enum StartRequestKind {
    Launch,
    Attach,
}

/// The text of an adapter error.
pub open spec fn error_message(e: AdapterError) -> Seq<char> {
    match e {
        AdapterError::LaunchRequestRequired => "GDScript debugging uses a launch request to Godot's debug server"@,
        AdapterError::BinaryNotFound { binary, adapter } =>
            "Could not find "@ + binary@ + " in PATH or dap."@ + adapter@ + ".binary"@,
        AdapterError::RequestKind { message } => message@,
    }
}

impl AdapterError {
    /// The text of the error.
    pub fn message(&self) -> (r: String)
        ensures
            r@ == error_message(*self),
    {
        match self {
            AdapterError::LaunchRequestRequired => String::from_str(
                "GDScript debugging uses a launch request to Godot's debug server",
            ),
            AdapterError::BinaryNotFound { binary, adapter } => {
                let mut r = String::from_str("Could not find ");
                r.append(binary.as_str());
                r.append(" in PATH or dap.");
                r.append(adapter.as_str());
                r.append(".binary");
                r
            },
            AdapterError::RequestKind { message } => message.clone(),
        }
    }
}

impl LaunchRequest {
    /// The environment as a JSON object of strings.
    pub fn env_json(&self) -> (r: serde_json::Value)
        ensures
            json_view(r) == Json::Object(self.env@.map_values(|v: Seq<char>| Json::Str(v))),
    {
        let pairs = self.env.to_pairs();
        let m = pairs_json(&pairs);
        proof {
            crate::json::lemma_pairs_json_view(pairs@);
        }
        json_from_map(m)
    }
}

} // verus!

verus! {

/// A TCP endpoint with a definite host and port.
#[derive(Clone, Copy, Debug, PartialEq, Eq)]
pub struct TcpArguments {
    pub host: [u8; 4],
    pub port: u16,
    pub timeout: Option<u64>,
}

/// How to start a debug adapter: the program, its arguments, environment
/// and working directory, how to reach it, and the configuration it is
/// given.
pub struct DebugAdapterBinary {
    pub command: Option<String>,
    pub arguments: Vec<String>,
    pub envs: EnvVars,
    pub cwd: Option<String>,
    pub connection: Option<TcpArguments>,
    pub configuration: serde_json::Value,
    /// Whether the adapter launches or attaches.
    pub request: StartRequestKind,
}

/// The adapter's executable: the configured path when there is one, else
/// the one found on `PATH`, else `BinaryNotFound`.
pub fn resolve_adapter_command(
    user_installed_path: Option<String>,
    found_on_path: Option<String>,
    binary: &str,
    adapter: &str,
) -> (r: Result<String, AdapterError>)
    ensures
        match user_installed_path {
            Some(p) => r matches Ok(c) && c@ == p@,
            None => match found_on_path {
                Some(p) => r matches Ok(c) && c@ == p@,
                None => r matches Err(AdapterError::BinaryNotFound { binary: b, adapter: a }) && b@ == binary@ && a@
                    == adapter@,
            },
        },
{
    match user_installed_path {
        Some(p) => Ok(p),
        None => match found_on_path {
            Some(p) => Ok(p),
            None => Err(
                AdapterError::BinaryNotFound { binary: String::from_str(binary), adapter: String::from_str(adapter) },
            ),
        },
    }
}

/// The shell's variables with the user's on top (no user variables leave
/// the shell's as they are).
pub open spec fn user_over_shell(
    shell: Map<Seq<char>, Seq<char>>,
    user: Option<Map<Seq<char>, Seq<char>>>,
) -> Map<Seq<char>, Seq<char>> {
    match user {
        Some(u) => shell.union_prefer_right(u),
        None => shell,
    }
}

/// `base` with every binding of `extra`, `extra` winning where both bind a
/// name (the user's variables over the shell's).
pub fn merged_env(base: EnvVars, extra: Option<EnvVars>) -> (r: EnvVars)
    ensures
        r@ == user_over_shell(
            base@,
            match extra {
                Some(e) => Some(e@),
                None => None,
            },
        ),
{
    let mut r = base;
    match extra {
        Some(e) => r.extend(e),
        None => {},
    }
    r
}

} // verus!
