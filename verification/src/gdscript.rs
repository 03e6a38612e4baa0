//! The GDScript adapter: Godot's debug server, reached over TCP.
use vstd::prelude::*;
use crate::json::{
    Json, JsonMap, json_entries, json_view, json_map_new, json_from_map,
    json_clone, json_into_object, insert_str, insert_default, with_default,
};
use crate::env::EnvVars;
use crate::scenario::{
    merged_env, user_over_shell, AdapterError, DebugAdapterBinary, DebugRequest, DebugScenario, DebugTaskDefinition, StartRequestKind,
    TcpArguments, TcpArgumentsTemplate, ZedDebugConfig,
};
use crate::schema::{
    typed, typed_default, string_enum, string_enum_default, typed_either, with, jstring, jstrings,
    typed_exec, typed_default_exec, string_enum_exec, string_enum_default_exec, typed_either_exec,
    str_array,
};
use crate::text::{join_spaced, join_with_spaces};

verus! {

/// The adapter for Godot's GDScript debugger.
pub struct GDScriptDebugAdapter;

/// The entries a launch request adds to a GDScript configuration.
pub open spec fn gdscript_launch_entries(m: Map<Seq<char>, Json>, cfg: ZedDebugConfig) -> Map<Seq<char>, Json> {
    match cfg.request {
        DebugRequest::Launch(launch) => {
            let base = m.insert("request"@, Json::Str("launch"@)).insert("type"@, Json::Str("gdscript"@)).insert(
                "name"@,
                Json::Str(cfg.label@),
            ).insert("program"@, Json::Str(launch.program@)).insert(
                "args"@,
                Json::Str(join_spaced(launch.args@.map_values(|s: String| s@))),
            );
            match launch.cwd {
                Some(cwd) => base.insert("cwd"@, Json::Str(cwd@)),
                None => base,
            }
        },
        DebugRequest::Attach(_) => m,
    }
}

/// The TCP endpoint of Godot's debug server unless the task names another:
/// port 6006 on 127.0.0.1, 5000 ms to connect.
pub open spec fn gdscript_default_tcp() -> TcpArgumentsTemplate {
    TcpArgumentsTemplate { port: Some(6006), host: Some([127u8, 0u8, 0u8, 1u8]), timeout: Some(5000) }
}

/// A GDScript task configuration with the adapter's defaults filled in:
/// `type`, `cwd` (the worktree root) and `args` (empty), each only where it
/// is not set. A configuration that is not an object is left as it is.
pub open spec fn gdscript_prepared(config: Json, worktree_root: Seq<char>) -> Json {
    match config {
        Json::Object(m) => Json::Object(
            with_default(
                with_default(with_default(m, "type"@, Json::Str("gdscript"@)), "cwd"@, Json::Str(worktree_root)),
                "args"@,
                Json::Str(""@),
            ),
        ),
        other => other,
    }
}

/// The JSON schema of a GDScript configuration.
pub open spec fn gdscript_schema() -> Json {
    Json::Object(
        map![
            "type"@ => Json::Str("object"@),
            "required"@ => str_array(seq!["request"@]),
            "properties"@ => Json::Object(map![
                "request"@ => string_enum("launch"@),
                "type"@ => string_enum_default("gdscript"@),
                "name"@ => typed_default("string"@, Json::Str("Gdscript Debug"@)),
                "program"@ => typed_either("string"@, "null"@),
                "cwd"@ => typed("string"@),
                "args"@ => typed_default("string"@, Json::Str(""@)),
            ]),
        ],
    )
}

impl GDScriptDebugAdapter {
    /// The adapter's name.
    pub fn name(&self) -> (r: String)
        ensures
            r@ == "GDScript"@,
    {
        String::from_str("GDScript")
    }

    /// The language the adapter debugs.
    pub fn adapter_language_name(&self) -> (r: Option<String>)
        ensures
            r matches Some(n) && n@ == "GDScript"@,
    {
        Some(String::from_str("GDScript"))
    }

    /// Writes a launch request into a GDScript configuration: `request`,
    /// `type`, `name`, `program`, `args` (the arguments joined by spaces)
    /// and, when set, `cwd`. An attach request leaves it unchanged.
    pub fn insert_launch_config(config: &mut JsonMap, zed_scenario: &ZedDebugConfig)
        ensures
            json_entries(*final(config)) == gdscript_launch_entries(json_entries(*old(config)), *zed_scenario),
    {
        if let DebugRequest::Launch(launch) = &zed_scenario.request {
            insert_str(config, "request", "launch");
            insert_str(config, "type", "gdscript");
            insert_str(config, "name", zed_scenario.label.as_str());
            insert_str(config, "program", launch.program.as_str());
            if launch.args.len() != 0 {
                let joined = join_with_spaces(&launch.args);
                insert_str(config, "args", joined.as_str());
            } else {
                insert_str(config, "args", "");
                proof {
                    reveal_strlit("");
                    assert(launch.args@.map_values(|s: String| s@) =~= Seq::<Seq<char>>::empty());
                    assert(join_spaced(launch.args@.map_values(|s: String| s@)) =~= ""@);
                }
            }
            if let Some(cwd) = &launch.cwd {
                insert_str(config, "cwd", cwd.as_str());
            }
        }
    }

    /// The TCP endpoint of Godot's debug server used by default.
    pub fn default_tcp_connection() -> (r: TcpArgumentsTemplate)
        ensures
            r == gdscript_default_tcp(),
    {
        TcpArgumentsTemplate { port: Some(6006), host: Some([127u8, 0u8, 0u8, 1u8]), timeout: Some(5000) }
    }

    /// The endpoint a task names, or the default one.
    pub fn tcp_connection_template(tcp_connection: Option<TcpArgumentsTemplate>) -> (r: TcpArgumentsTemplate)
        ensures
            r == (match tcp_connection {
                Some(t) => t,
                None => gdscript_default_tcp(),
            }),
    {
        match tcp_connection {
            Some(t) => t,
            None => Self::default_tcp_connection(),
        }
    }

    /// Turns an editor debug configuration into a GDScript scenario.
    /// Launch requests become a configuration with the launch entries and
    /// the default debug-server endpoint; attach requests are refused.
    pub fn config_from_zed_format(&self, zed_scenario: ZedDebugConfig) -> (r: Result<DebugScenario, AdapterError>)
        ensures
            match r {
                Ok(s) => {
                    &&& zed_scenario.request is Launch
                    &&& s.adapter@ == zed_scenario.adapter@
                    &&& s.label@ == zed_scenario.label@
                    &&& json_view(s.config) == Json::Object(gdscript_launch_entries(Map::empty(), zed_scenario))
                    &&& s.tcp_connection == Some(gdscript_default_tcp())
                },
                Err(e) => {
                    &&& zed_scenario.request is Attach
                    &&& e is LaunchRequestRequired
                },
            },
    {
        let mut config = json_map_new();
        match &zed_scenario.request {
            DebugRequest::Launch(_) => {
                Self::insert_launch_config(&mut config, &zed_scenario);
            },
            DebugRequest::Attach(_) => {
                return Err(AdapterError::LaunchRequestRequired);
            },
        }
        Ok(DebugScenario {
            adapter: zed_scenario.adapter,
            label: zed_scenario.label,
            config: json_from_map(config),
            tcp_connection: Some(Self::default_tcp_connection()),
        })
    }

    /// The task configuration handed to the adapter: the task's own
    /// configuration with `type`, `cwd` and `args` filled in where missing.
    pub fn prepare_configuration(config: &serde_json::Value, worktree_root: &str) -> (r: serde_json::Value)
        ensures
            json_view(r) == gdscript_prepared(json_view(*config), worktree_root@),
    {
        match json_into_object(json_clone(config)) {
            Ok(m) => {
                let mut m = m;
                insert_default(&mut m, "type", jstring("gdscript"));
                insert_default(&mut m, "cwd", jstring(worktree_root));
                insert_default(&mut m, "args", jstring(""));
                json_from_map(m)
            },
            Err(v) => v,
        }
    }

    /// How to start the adapter for a task: no command of its own (Godot's
    /// debug server is reached at `connection`, chosen from
    /// `tcp_connection_template` of the task), the task's configuration
    /// with its defaults, the shell's environment with the user's on top,
    /// and the worktree root as working directory. The configured adapter
    /// path and user arguments play no part. `request_kind` is the editor's
    /// verdict on the prepared configuration's start request; when it is
    /// refused, so is the task.
    pub fn get_binary(
        config: &DebugTaskDefinition,
        connection: TcpArguments,
        shell_env: EnvVars,
        user_env: Option<EnvVars>,
        worktree_root: String,
        request_kind: Result<StartRequestKind, String>,
    ) -> (r: Result<DebugAdapterBinary, AdapterError>)
        ensures
            (r is Ok) <==> (request_kind is Ok),
            r matches Err(e) ==> e == (AdapterError::RequestKind { message: request_kind->Err_0 }),
            r matches Ok(b) ==> b.request == request_kind->Ok_0,
            r matches Ok(b) ==> b.command is None,
            r matches Ok(b) ==> b.arguments@.len() == 0,
            r matches Ok(b) ==> b.connection == Some(connection),
            r matches Ok(b) ==> (b.cwd matches Some(c) && c@ == worktree_root@),
            r matches Ok(b) ==> b.envs@ == user_over_shell(
                shell_env@,
                match user_env {
                    Some(u) => Some(u@),
                    None => None,
                },
            ),
            r matches Ok(b) ==> json_view(b.configuration) == gdscript_prepared(json_view(config.config), worktree_root@),
    {
        let request = match request_kind {
            Ok(k) => k,
            Err(message) => return Err(AdapterError::RequestKind { message }),
        };
        let configuration = Self::prepare_configuration(&config.config, worktree_root.as_str());
        Ok(DebugAdapterBinary {
            command: None,
            arguments: Vec::new(),
            envs: merged_env(shell_env, user_env),
            cwd: Some(worktree_root),
            connection: Some(connection),
            configuration,
            request,
        })
    }

    /// The JSON schema of a GDScript configuration.
    pub fn dap_schema(&self) -> (r: serde_json::Value)
        ensures
            json_view(r) == gdscript_schema(),
    {
        let mut required: Vec<&str> = Vec::new();
        required.push("request");
        let required = jstrings(required);
        proof {
            assert(seq!["request"].map_values(|s: &str| s@) =~= seq!["request"@]);
        }
        let properties = with(
            with(
                with(
                    with(
                        with(with(json_map_new(), "request", string_enum_exec("launch")), "type", string_enum_default_exec("gdscript")),
                        "name",
                        typed_default_exec("string", jstring("Gdscript Debug")),
                    ),
                    "program",
                    typed_either_exec("string", "null"),
                ),
                "cwd",
                typed_exec("string"),
            ),
            "args",
            typed_default_exec("string", jstring("")),
        );
        json_from_map(
            with(with(with(json_map_new(), "type", jstring("object")), "required", required), "properties", json_from_map(properties)),
        )
    }
}

} // verus!
