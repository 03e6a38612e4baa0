//! The NetCoreDbg adapter for .NET programs.
use vstd::prelude::*;
use crate::env::EnvVars;
use crate::json::{
    with_default, Json, JsonMap, json_entries, json_view, json_map_new, json_map_insert, json_from_map, json_from_bool,
    json_from_opt_u32, json_from_values, json_clone, json_into_object, json_as_object, json_as_str,
    json_map_get, json_map_entries, insert_str, insert_default, strings_json, string_entries,
};
use crate::scenario::{
    resolve_adapter_command, AdapterError, DebugAdapterBinary, DebugRequest, DebugScenario, DebugTaskDefinition,
    StartRequestKind, ZedDebugConfig,
};
use crate::schema::{
    typed, typed_default, string_enum, typed_either, str_array, with, jstring, jstrings, typed_exec,
    typed_default_exec, string_enum_exec, typed_either_exec,
};

verus! {

/// The adapter for .NET programs, run by `netcoredbg`.
pub struct NetCoreDbgDebugAdapter;

/// The entries a launch request adds to a NetCoreDbg configuration:
/// `program`; `args` and `env` when not empty; `stopAtEntry` when chosen;
/// `cwd` when set.
pub open spec fn netcoredbg_launch_entries(m: Map<Seq<char>, Json>, cfg: ZedDebugConfig) -> Map<Seq<char>, Json> {
    match cfg.request {
        DebugRequest::Launch(launch) => {
            let with_program = m.insert("program"@, Json::Str(launch.program@));
            let with_args = if launch.args@.len() > 0 {
                with_program.insert("args"@, Json::Array(launch.args@.map_values(|s: String| Json::Str(s@))))
            } else {
                with_program
            };
            let with_env = if launch.env@ != Map::<Seq<char>, Seq<char>>::empty() {
                with_args.insert("env"@, Json::Object(launch.env@.map_values(|v: Seq<char>| Json::Str(v))))
            } else {
                with_args
            };
            let with_stop = match cfg.stop_on_entry {
                Some(b) => with_env.insert("stopAtEntry"@, Json::Bool(b)),
                None => with_env,
            };
            match launch.cwd {
                Some(cwd) => with_stop.insert("cwd"@, Json::Str(cwd@)),
                None => with_stop,
            }
        },
        DebugRequest::Attach(_) => m,
    }
}

/// The scenario configuration made from an editor configuration.
pub open spec fn netcoredbg_scenario_config(cfg: ZedDebugConfig) -> Map<Seq<char>, Json> {
    match cfg.request {
        DebugRequest::Launch(_) => netcoredbg_launch_entries(map!["request"@ => Json::Str("launch"@)], cfg),
        DebugRequest::Attach(attach) => map![
            "request"@ => Json::Str("attach"@),
            "processId"@ => match attach.process_id {
                Some(p) => Json::Int(p as int),
                None => Json::Null,
            },
        ],
    }
}

/// A NetCoreDbg task configuration with `cwd` (the worktree root) filled in
/// where missing. A configuration that is not an object is left as it is.
pub open spec fn netcoredbg_prepared(config: Json, worktree_root: Seq<char>) -> Json {
    match config {
        Json::Object(m) => Json::Object(with_default(m, "cwd"@, Json::Str(worktree_root))),
        other => other,
    }
}

/// The string variables of a configuration's `env` object (none when the
/// configuration or its `env` is not an object).
pub open spec fn config_env(config: Json) -> Map<Seq<char>, Seq<char>> {
    match config {
        Json::Object(m) => if m.contains_key("env"@) && m["env"@] is Object {
            string_entries(m["env"@]->Object_0)
        } else {
            Map::empty()
        },
        _ => Map::empty(),
    }
}

/// The environment handed to the adapter: the shell's, then the user's,
/// then the configuration's own string variables.
pub open spec fn netcoredbg_env(
    shell: Map<Seq<char>, Seq<char>>,
    user: Option<Map<Seq<char>, Seq<char>>>,
    config: Json,
) -> Map<Seq<char>, Seq<char>> {
    let merged = match user {
        Some(u) => shell.union_prefer_right(u),
        None => shell,
    };
    merged.union_prefer_right(config_env(config))
}

/// Adds to `env` the string-valued entries of a JSON object.
fn extend_with_strings(env: &mut EnvVars, object: &JsonMap)
    ensures
        final(env)@ == old(env)@.union_prefer_right(string_entries(json_entries(*object))),
{
    let ghost m = json_entries(*object);
    let ghost base = env@;
    let entries = json_map_entries(object);
    let n = entries.len();
    for i in 0..n
        invariant
            n == entries@.len(),
            m == json_entries(*object),
            forall|j: int|
                0 <= j < entries@.len() ==> m.contains_key(#[trigger] entries@[j].0@) && json_view(entries@[j].1)
                    == m[entries@[j].0@],
            env@ == base.union_prefer_right(
                string_entries(m).restrict(Set::new(|k: Seq<char>| exists|j: int| 0 <= j < i && entries@[j].0@ == k)),
            ),
    {
        let ghost k = entries@[i as int].0@;
        let ghost seen = Set::new(|x: Seq<char>| exists|j: int| 0 <= j < i && entries@[j].0@ == x);
        let ghost seen_next = Set::new(|x: Seq<char>| exists|j: int| 0 <= j < i + 1 && entries@[j].0@ == x);
        assert(seen_next =~= seen.insert(k)) by {
            assert forall|x: Seq<char>| seen_next.contains(x) <==> seen.insert(k).contains(x) by {
                if seen_next.contains(x) {
                    let j = choose|j: int| 0 <= j < i + 1 && entries@[j].0@ == x;
                    if j < i {
                        assert(seen.contains(x));
                    }
                }
                if seen.contains(x) {
                    let j = choose|j: int| 0 <= j < i && entries@[j].0@ == x;
                    assert(seen_next.contains(x));
                }
            }
        }
        match json_as_str(&entries[i].1) {
            Some(s) => {
                env.insert(entries[i].0.clone(), String::from_str(s));
                assert(env@ =~= base.union_prefer_right(string_entries(m).restrict(seen_next)));
            },
            None => {
                assert(env@ =~= base.union_prefer_right(string_entries(m).restrict(seen_next)));
            },
        }
    }
    proof {
        let all = Set::new(|x: Seq<char>| exists|j: int| 0 <= j < n && entries@[j].0@ == x);
        assert(string_entries(m).restrict(all) =~= string_entries(m)) by {
            assert forall|x: Seq<char>| #[trigger] string_entries(m).contains_key(x) implies all.contains(x) by {
                assert(json_entries(*object).contains_key(x));
                let j = choose|j: int| 0 <= j < entries@.len() && entries@[j].0@ == x;
            }
        }
    }
}

impl NetCoreDbgDebugAdapter {
    /// The executable looked up on `PATH` when no adapter path is configured.
    pub fn binary_name() -> (r: &'static str)
        ensures
            r@ == "netcoredbg"@,
    {
        "netcoredbg"
    }

    /// The adapter's command: the configured path, else the `netcoredbg`
    /// found on `PATH`, else an error naming it and the
    /// `dap.NetCoreDbg.binary` setting.
    pub fn resolve_command(user_installed_path: Option<String>, found_on_path: Option<String>) -> (r: Result<
        String,
        AdapterError,
    >)
        ensures
            match user_installed_path {
                Some(p) => r matches Ok(c) && c@ == p@,
                None => match found_on_path {
                    Some(p) => r matches Ok(c) && c@ == p@,
                    None => r matches Err(AdapterError::BinaryNotFound { binary: b, adapter: a }) && b@
                        == "netcoredbg"@ && a@ == "NetCoreDbg"@,
                },
            },
    {
        resolve_adapter_command(user_installed_path, found_on_path, "netcoredbg", "NetCoreDbg")
    }

    /// The adapter's name.
    pub fn name(&self) -> (r: String)
        ensures
            r@ == "NetCoreDbg"@,
    {
        String::from_str("NetCoreDbg")
    }

    /// The language the adapter debugs.
    pub fn adapter_language_name(&self) -> (r: Option<String>)
        ensures
            r matches Some(n) && n@ == "CSharp"@,
    {
        Some(String::from_str("CSharp"))
    }

    /// Writes a launch request into a NetCoreDbg configuration (see
    /// `netcoredbg_launch_entries`). An attach request leaves it unchanged.
    pub fn insert_launch_config(config: &mut JsonMap, zed_scenario: &ZedDebugConfig)
        ensures
            json_entries(*final(config)) == netcoredbg_launch_entries(json_entries(*old(config)), *zed_scenario),
    {
        if let DebugRequest::Launch(launch) = &zed_scenario.request {
            insert_str(config, "program", launch.program.as_str());
            if launch.args.len() != 0 {
                json_map_insert(config, String::from_str("args"), strings_json(&launch.args));
            }
            if !launch.env.is_empty() {
                json_map_insert(config, String::from_str("env"), launch.env_json());
            }
            if let Some(stop_on_entry) = zed_scenario.stop_on_entry {
                json_map_insert(config, String::from_str("stopAtEntry"), json_from_bool(stop_on_entry));
            }
            if let Some(cwd) = &launch.cwd {
                insert_str(config, "cwd", cwd.as_str());
            }
        }
    }

    /// Turns an editor debug configuration into a NetCoreDbg scenario.
    pub fn config_from_zed_format(&self, zed_scenario: ZedDebugConfig) -> (r: DebugScenario)
        ensures
            r.adapter@ == zed_scenario.adapter@,
            r.label@ == zed_scenario.label@,
            json_view(r.config) == Json::Object(netcoredbg_scenario_config(zed_scenario)),
            r.tcp_connection is None,
    {
        let mut config = json_map_new();
        match &zed_scenario.request {
            DebugRequest::Launch(_) => {
                insert_str(&mut config, "request", "launch");
                Self::insert_launch_config(&mut config, &zed_scenario);
            },
            DebugRequest::Attach(attach) => {
                insert_str(&mut config, "request", "attach");
                json_map_insert(&mut config, String::from_str("processId"), json_from_opt_u32(attach.process_id));
            },
        }
        DebugScenario {
            adapter: zed_scenario.adapter,
            label: zed_scenario.label,
            config: json_from_map(config),
            tcp_connection: None,
        }
    }

    /// The task configuration handed to the adapter: `cwd` filled in where missing.
    pub fn prepare_configuration(config: &serde_json::Value, worktree_root: &str) -> (r: serde_json::Value)
        ensures
            json_view(r) == netcoredbg_prepared(json_view(*config), worktree_root@),
    {
        match json_into_object(json_clone(config)) {
            Ok(m) => {
                let mut m = m;
                insert_default(&mut m, "cwd", jstring(worktree_root));
                json_from_map(m)
            },
            Err(v) => v,
        }
    }

    /// The environment handed to the adapter (see `netcoredbg_env`); `config`
    /// is the task's configuration.
    pub fn envs(shell_env: EnvVars, user_env: Option<EnvVars>, config: &serde_json::Value) -> (r: EnvVars)
        ensures
            r@ == netcoredbg_env(
                shell_env@,
                match user_env {
                    Some(u) => Some(u@),
                    None => None,
                },
                json_view(*config),
            ),
    {
        let mut envs = crate::scenario::merged_env(shell_env, user_env);
        let ghost merged = envs@;
        if let Some(object) = json_as_object(config) {
            if let Some(env) = json_map_get(object, "env") {
                if let Some(env_object) = json_as_object(env) {
                    extend_with_strings(&mut envs, env_object);
                    return envs;
                }
            }
        }
        assert(merged.union_prefer_right(Map::<Seq<char>, Seq<char>>::empty()) =~= merged);
        envs
    }

    /// The adapter's arguments: the user's, or `--interpreter=vscode`.
    pub fn arguments(user_args: Option<Vec<String>>) -> (r: Vec<String>)
        ensures
            match user_args {
                Some(a) => r@ == a@,
                None => r@.len() == 1 && r@[0]@ == "--interpreter=vscode"@,
            },
    {
        match user_args {
            Some(a) => a,
            None => {
                let mut v: Vec<String> = Vec::new();
                v.push(String::from_str("--interpreter=vscode"));
                v
            },
        }
    }

    /// How to start `netcoredbg` for a task, from the adapter's command
    /// (`resolve_adapter_command`), the shell's and the user's environment,
    /// the user's arguments and the worktree root. `request_kind` is the
    /// editor's verdict on the task's own configuration's start request;
    /// when it is refused, so is the task.
    pub fn get_binary(
        config: &DebugTaskDefinition,
        command: String,
        shell_env: EnvVars,
        user_env: Option<EnvVars>,
        user_args: Option<Vec<String>>,
        worktree_root: String,
        request_kind: Result<StartRequestKind, String>,
    ) -> (r: Result<DebugAdapterBinary, AdapterError>)
        ensures
            (r is Ok) <==> (request_kind is Ok),
            r matches Err(e) ==> e == (AdapterError::RequestKind { message: request_kind->Err_0 }),
            r matches Ok(b) ==> b.request == request_kind->Ok_0,
            r matches Ok(b) ==> (b.command matches Some(c) && c@ == command@),
            r matches Ok(b) ==> (match user_args {
                Some(a) => b.arguments@ == a@,
                None => b.arguments@.len() == 1 && b.arguments@[0]@ == "--interpreter=vscode"@,
            }),
            r matches Ok(b) ==> b.envs@ == netcoredbg_env(
                shell_env@,
                match user_env {
                    Some(u) => Some(u@),
                    None => None,
                },
                json_view(config.config),
            ),
            r matches Ok(b) ==> (b.cwd matches Some(c) && c@ == worktree_root@),
            r matches Ok(b) ==> b.connection is None,
            r matches Ok(b) ==> json_view(b.configuration) == netcoredbg_prepared(json_view(config.config), worktree_root@),
    {
        let configuration = Self::prepare_configuration(&config.config, worktree_root.as_str());
        let envs = Self::envs(shell_env, user_env, &config.config);
        let request = match request_kind {
            Ok(k) => k,
            Err(message) => return Err(AdapterError::RequestKind { message }),
        };
        Ok(DebugAdapterBinary {
            command: Some(command),
            arguments: Self::arguments(user_args),
            envs,
            cwd: Some(worktree_root),
            connection: None,
            configuration,
            request,
        })
    }

    /// The JSON schema of a NetCoreDbg configuration: one for launch, one for attach.
    pub fn dap_schema(&self) -> (r: serde_json::Value)
        ensures
            json_view(r) == netcoredbg_schema(),
    {
        let mut alternatives: Vec<serde_json::Value> = Vec::new();
        alternatives.push(netcoredbg_launch_schema_exec());
        alternatives.push(netcoredbg_attach_schema_exec());
        let one_of = json_from_values(alternatives);
        assert(alternatives@.map_values(|x: serde_json::Value| json_view(x)) =~= seq![
            netcoredbg_launch_schema(),
            netcoredbg_attach_schema(),
        ]);
        json_from_map(with(json_map_new(), "oneOf", one_of))
    }
}

/// The schema of a NetCoreDbg launch configuration.
pub open spec fn netcoredbg_launch_schema() -> Json {
    Json::Object(
        map![
            "type"@ => Json::Str("object"@),
            "required"@ => str_array(seq!["request"@, "program"@]),
            "properties"@ => Json::Object(map![
                "request"@ => string_enum("launch"@),
                "program"@ => Json::Object(map![
                    "type"@ => Json::Str("string"@),
                    "description"@ => Json::Str("Path to the .NET assembly to debug"@),
                ]),
                "args"@ => Json::Object(map![
                    "type"@ => Json::Str("array"@),
                    "items"@ => typed("string"@),
                    "default"@ => Json::Array(Seq::empty()),
                ]),
                "cwd"@ => typed("string"@),
                "env"@ => Json::Object(map![
                    "type"@ => Json::Str("object"@),
                    "patternProperties"@ => Json::Object(map![".*"@ => typed("string"@)]),
                ]),
                "stopAtEntry"@ => typed_default("boolean"@, Json::Bool(false)),
                "justMyCode"@ => typed_default("boolean"@, Json::Bool(true)),
            ]),
        ],
    )
}

/// The schema of a NetCoreDbg attach configuration.
pub open spec fn netcoredbg_attach_schema() -> Json {
    Json::Object(
        map![
            "type"@ => Json::Str("object"@),
            "required"@ => str_array(seq!["request"@, "processId"@]),
            "properties"@ => Json::Object(map![
                "request"@ => string_enum("attach"@),
                "processId"@ => typed_either("number"@, "string"@),
            ]),
        ],
    )
}

/// The JSON schema of a NetCoreDbg configuration.
pub open spec fn netcoredbg_schema() -> Json {
    Json::Object(map!["oneOf"@ => Json::Array(seq![netcoredbg_launch_schema(), netcoredbg_attach_schema()])])
}

fn netcoredbg_launch_schema_exec() -> (r: serde_json::Value)
    ensures
        json_view(r) == netcoredbg_launch_schema(),
{
    let required = jstrings(vec!["request", "program"]);
    assert(seq!["request", "program"].map_values(|s: &str| s@) =~= seq!["request"@, "program"@]);
    let program = json_from_map(
        with(with(json_map_new(), "type", jstring("string")), "description", jstring("Path to the .NET assembly to debug")),
    );
    let no_strings: Vec<String> = Vec::new();
    let empty = crate::json::json_from_strings(no_strings);
    assert(no_strings@.map_values(|s: String| Json::Str(s@)) =~= Seq::<Json>::empty());
    let args = json_from_map(
        with(with(with(json_map_new(), "type", jstring("array")), "items", typed_exec("string")), "default", empty),
    );
    let env = json_from_map(
        with(
            with(json_map_new(), "type", jstring("object")),
            "patternProperties",
            json_from_map(with(json_map_new(), ".*", typed_exec("string"))),
        ),
    );
    let mut p = json_map_new();
    p = with(p, "request", string_enum_exec("launch"));
    p = with(p, "program", program);
    p = with(p, "args", args);
    p = with(p, "cwd", typed_exec("string"));
    p = with(p, "env", env);
    p = with(p, "stopAtEntry", typed_default_exec("boolean", json_from_bool(false)));
    p = with(p, "justMyCode", typed_default_exec("boolean", json_from_bool(true)));
    json_from_map(
        with(with(with(json_map_new(), "type", jstring("object")), "required", required), "properties", json_from_map(p)),
    )
}

fn netcoredbg_attach_schema_exec() -> (r: serde_json::Value)
    ensures
        json_view(r) == netcoredbg_attach_schema(),
{
    let required = jstrings(vec!["request", "processId"]);
    assert(seq!["request", "processId"].map_values(|s: &str| s@) =~= seq!["request"@, "processId"@]);
    let mut p = json_map_new();
    p = with(p, "request", string_enum_exec("attach"));
    p = with(p, "processId", typed_either_exec("number", "string"));
    json_from_map(
        with(with(with(json_map_new(), "type", jstring("object")), "required", required), "properties", json_from_map(p)),
    )
}

} // verus!
