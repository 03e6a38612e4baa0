//! The Kotlin adapter: `kotlin-debug-adapter`, optionally behind a Python
//! proxy script, with the project root found from the main file.
use vstd::prelude::*;
use crate::env::EnvVars;
use crate::json::{
    with_default, Json, JsonMap, json_entries, json_view, json_map_new, json_map_insert, json_map_remove, json_from_map,
    json_from_string, json_from_bool, json_from_u32, json_from_values, json_clone, json_into_object,
    insert_str, insert_default, entry_str, get_str, object_str, value_get_str,
};
use crate::paths::{
    path_parent, path_file_name, path_file_stem, path_join, parent_of, file_name_of, file_stem_of, join_path,
};
use crate::scenario::{
    resolve_adapter_command, AdapterError, DebugAdapterBinary, DebugRequest, DebugScenario, DebugTaskDefinition,
    StartRequestKind, ZedDebugConfig,
};
use crate::schema::{
    typed, typed_default, string_enum, string_enum_default, typed_either, str_array, with, jstring, jstrings,
    typed_exec, typed_default_exec, string_enum_exec, string_enum_default_exec, typed_either_exec,
};
use crate::text::{contains_seq, replace_all, contains_str, replace_str};

verus! {

/// The adapter for Kotlin programs.
pub struct KotlinDebugAdapter;

/// The placeholder in `mainClass` that stands for the main file's stem.
pub open spec fn stem_placeholder() -> Seq<char> {
    "$ZED_STEM"@
}

/// The stem of the configuration's `mainFile`, if it names one.
pub open spec fn stem_from_main_file_spec(m: Map<Seq<char>, Json>) -> Option<Seq<char>> {
    match entry_str(m, "mainFile"@) {
        Some(f) => path_file_stem(f),
        None => None,
    }
}

/// The last component of the configuration's `projectRoot`, if it has one.
pub open spec fn stem_from_project_root_spec(m: Map<Seq<char>, Json>) -> Option<Seq<char>> {
    match entry_str(m, "projectRoot"@) {
        Some(r) => path_file_name(r),
        None => None,
    }
}

/// The stem that replaces the placeholder: from the main file, else from
/// the project root.
pub open spec fn main_class_stem(m: Map<Seq<char>, Json>) -> Option<Seq<char>> {
    match stem_from_main_file_spec(m) {
        Some(s) => Some(s),
        None => stem_from_project_root_spec(m),
    }
}

/// The configuration with every placeholder in a string `mainClass`
/// replaced by the stem, when there is a placeholder and a stem.
pub open spec fn main_class_substituted(m: Map<Seq<char>, Json>) -> Map<Seq<char>, Json> {
    match entry_str(m, "mainClass"@) {
        Some(main_class) => if contains_seq(main_class, stem_placeholder()) {
            match main_class_stem(m) {
                Some(stem) => m.insert("mainClass"@, Json::Str(replace_all(main_class, stem_placeholder(), stem))),
                None => m,
            }
        } else {
            m
        },
        None => m,
    }
}

/// The entries a launch request adds to a Kotlin configuration.
pub open spec fn kotlin_launch_entries(m: Map<Seq<char>, Json>, cfg: ZedDebugConfig) -> Map<Seq<char>, Json> {
    match cfg.request {
        DebugRequest::Launch(launch) => {
            let base = m.insert("request"@, Json::Str("launch"@)).insert("type"@, Json::Str("kotlin"@)).insert(
                "name"@,
                Json::Str(cfg.label@),
            );
            match launch.cwd {
                Some(cwd) => base.insert("projectRoot"@, Json::Str(cwd@)),
                None => base,
            }
        },
        DebugRequest::Attach(_) => m,
    }
}

/// The configuration of an attach request: a local connection on the
/// process id given (port 5005 when none is), with a 2000 ms timeout.
pub open spec fn kotlin_attach_entries(label: Seq<char>, process_id: Option<u32>) -> Map<Seq<char>, Json> {
    map![
        "request"@ => Json::Str("attach"@),
        "type"@ => Json::Str("kotlin"@),
        "name"@ => Json::Str(label),
        "hostName"@ => Json::Str("localhost"@),
        "port"@ => Json::Int(match process_id { Some(p) => p as int, None => 5005 }),
        "timeout"@ => Json::Int(2000),
    ]
}

/// The scenario configuration made from an editor configuration.
pub open spec fn kotlin_scenario_config(cfg: ZedDebugConfig) -> Map<Seq<char>, Json> {
    match cfg.request {
        DebugRequest::Launch(_) => kotlin_launch_entries(Map::empty(), cfg),
        DebugRequest::Attach(attach) => kotlin_attach_entries(cfg.label@, attach.process_id),
    }
}

/// A Kotlin task configuration as handed to the adapter: `type`
/// (`kotlin`), `projectRoot` (the worktree root) and `enableJsonLogging`
/// (false) where missing; `projectRoot` set to the discovered project root
/// when there is one; the placeholder in `mainClass` substituted; and
/// `mainFile` dropped. A configuration that is not an object is left as it is.
pub open spec fn kotlin_prepared(config: Json, worktree_root: Seq<char>, project_root: Option<Seq<char>>) -> Json {
    match config {
        Json::Object(m) => {
            let defaults = with_default(
                with_default(with_default(m, "type"@, Json::Str("kotlin"@)), "projectRoot"@, Json::Str(worktree_root)),
                "enableJsonLogging"@,
                Json::Bool(false),
            );
            let rooted = match project_root {
                Some(r) => defaults.insert("projectRoot"@, Json::Str(r)),
                None => defaults,
            };
            Json::Object(main_class_substituted(rooted).remove("mainFile"@))
        },
        other => other,
    }
}

/// The `k`-th ancestor of a directory (`k` applications of `Path::parent`).
pub open spec fn ancestor(dir: Seq<char>, k: nat) -> Option<Seq<char>>
    decreases k,
{
    if k == 0 {
        Some(dir)
    } else {
        match ancestor(dir, (k - 1) as nat) {
            Some(d) => path_parent(d),
            None => None,
        }
    }
}

/// The directory a project-root search settles on when the directories
/// holding a Gradle build file are those `has_build` accepts: the nearest
/// such directory from `dir` upward, else `fallback`.
pub open spec fn nearest_build_root(
    dir: Seq<char>,
    fallback: Seq<char>,
    has_build: spec_fn(Seq<char>) -> bool,
) -> Seq<char>
    decreases dir.len(),
{
    if has_build(dir) {
        dir
    } else {
        match path_parent(dir) {
            Some(p) => if p.len() < dir.len() {
                nearest_build_root(p, fallback, has_build)
            } else {
                fallback
            },
            None => fallback,
        }
    }
}

/// The environment handed to the adapter: the shell's, then the user's,
/// then `ZED_KOTLIN_DAP_PROJECT_ROOT` when the configuration names a project root.
pub open spec fn kotlin_env(
    shell: Map<Seq<char>, Seq<char>>,
    user: Option<Map<Seq<char>, Seq<char>>>,
    configuration: Json,
) -> Map<Seq<char>, Seq<char>> {
    let merged = match user {
        Some(u) => shell.union_prefer_right(u),
        None => shell,
    };
    match object_str(configuration, "projectRoot"@) {
        Some(r) => merged.insert("ZED_KOTLIN_DAP_PROJECT_ROOT"@, r),
        None => merged,
    }
}

/// `a` is a prefix of `b`.
pub open spec fn is_prefix_of(a: Seq<char>, b: Seq<char>) -> bool {
    a.len() <= b.len() && b.take(a.len() as int) == a
}

/// A search for the Kotlin project root: starting at the main file's
/// directory, each directory is probed for a Gradle build file, moving to
/// the parent until one is found or there is no parent.
pub struct ProjectRootSearch {
    /// The main file's directory: the answer when no build file is found.
    pub main_dir: String,
    /// The directory to probe next.
    pub dir: String,
}

/// What a probe leads to.
pub enum RootSearchStep {
    /// The search is over: the project root.
    Found(String),
    /// Probe the next directory.
    Continue(ProjectRootSearch),
}

impl ProjectRootSearch {
    /// Starts the search at the directory of the configuration's
    /// `mainFile`; `None` when the configuration is not an object, has no
    /// string `mainFile`, or the main file has no parent directory.
    pub fn start(configuration: &serde_json::Value) -> (r: Option<ProjectRootSearch>)
        ensures
            match object_str(json_view(*configuration), "mainFile"@) {
                Some(f) => match path_parent(f) {
                    Some(d) => r matches Some(s) && s.main_dir@ == d && s.dir@ == d && is_prefix_of(s.dir@, s.main_dir@),
                    None => r is None,
                },
                None => r is None,
            },
    {
        let main_file = match value_get_str(configuration, "mainFile") {
            Some(f) => f,
            None => return None,
        };
        match parent_of(main_file) {
            Some(d) => {
                let s = ProjectRootSearch { main_dir: d.clone(), dir: d };
                assert(s.main_dir@.take(s.dir@.len() as int) =~= s.dir@);
                Some(s)
            },
            None => None,
        }
    }

    /// The files whose presence marks the directory being probed as the
    /// project root: `build.gradle.kts`, then `build.gradle`.
    pub fn build_files(&self) -> (r: (String, String))
        ensures
            r.0@ == path_join(self.dir@, "build.gradle.kts"@),
            r.1@ == path_join(self.dir@, "build.gradle"@),
    {
        (join_path(self.dir.as_str(), "build.gradle.kts"), join_path(self.dir.as_str(), "build.gradle"))
    }

    /// One probe: when the directory holds a build file it is the root;
    /// otherwise the search moves to its parent, or, when there is none,
    /// settles on the main file's directory.
    pub fn advance(self, has_build_file: bool) -> (r: RootSearchStep)
        ensures
            match r {
                RootSearchStep::Found(d) => {
                    ||| has_build_file && d@ == self.dir@
                    ||| !has_build_file && path_parent(self.dir@) is None && d@ == self.main_dir@
                },
                RootSearchStep::Continue(next) => {
                    &&& !has_build_file
                    &&& path_parent(self.dir@) == Some(next.dir@)
                    &&& next.main_dir@ == self.main_dir@
                    &&& next.dir@.len() < self.dir@.len()
                    &&& is_prefix_of(next.dir@, self.dir@)
                },
            },
            is_prefix_of(self.dir@, self.main_dir@) ==> match r {
                RootSearchStep::Found(d) => is_prefix_of(d@, self.main_dir@),
                RootSearchStep::Continue(next) => is_prefix_of(next.dir@, next.main_dir@),
            },
    {
        if has_build_file {
            return RootSearchStep::Found(self.dir);
        }
        match parent_of(self.dir.as_str()) {
            Some(p) => {
                proof {
                    if is_prefix_of(self.dir@, self.main_dir@) {
                        assert(self.main_dir@.take(p@.len() as int) =~= self.dir@.take(p@.len() as int));
                    }
                }
                RootSearchStep::Continue(ProjectRootSearch { main_dir: self.main_dir, dir: p })
            },
            None => {
                assert(self.main_dir@.take(self.main_dir@.len() as int) =~= self.main_dir@);
                RootSearchStep::Found(self.main_dir)
            },
        }
    }
}

impl KotlinDebugAdapter {
    /// The executable looked up on `PATH` when no adapter path is configured.
    pub fn binary_name() -> (r: &'static str)
        ensures
            r@ == "kotlin-debug-adapter"@,
    {
        "kotlin-debug-adapter"
    }

    /// The adapter's command: the configured path, else the
    /// `kotlin-debug-adapter` found on `PATH`, else an error naming it and
    /// the `dap.Kotlin.binary` setting.
    pub fn resolve_command(user_installed_path: Option<String>, found_on_path: Option<String>) -> (r: Result<
        String,
        AdapterError,
    >)
        ensures
            match user_installed_path {
                Some(p) => r matches Ok(c) && c@ == p@,
                None => match found_on_path {
                    Some(p) => r matches Ok(c) && c@ == p@,
                    None => r matches Err(AdapterError::BinaryNotFound { binary: b, adapter: a }) && b@
                        == "kotlin-debug-adapter"@ && a@ == "Kotlin"@,
                },
            },
    {
        resolve_adapter_command(user_installed_path, found_on_path, "kotlin-debug-adapter", "Kotlin")
    }

    /// The adapter's name.
    pub fn name(&self) -> (r: String)
        ensures
            r@ == "Kotlin"@,
    {
        String::from_str("Kotlin")
    }

    /// The language the adapter debugs.
    pub fn adapter_language_name(&self) -> (r: Option<String>)
        ensures
            r matches Some(n) && n@ == "Kotlin"@,
    {
        Some(String::from_str("Kotlin"))
    }

    /// The stem of the configuration's `mainFile`.
    pub fn stem_from_main_file(configuration: &JsonMap) -> (r: Option<String>)
        ensures
            r matches Some(s) ==> stem_from_main_file_spec(json_entries(*configuration)) == Some(s@),
            r is None ==> stem_from_main_file_spec(json_entries(*configuration)) is None,
    {
        match get_str(configuration, "mainFile") {
            Some(f) => file_stem_of(f),
            None => None,
        }
    }

    /// The last component of the configuration's `projectRoot`.
    pub fn stem_from_project_root(configuration: &JsonMap) -> (r: Option<String>)
        ensures
            r matches Some(s) ==> stem_from_project_root_spec(json_entries(*configuration)) == Some(s@),
            r is None ==> stem_from_project_root_spec(json_entries(*configuration)) is None,
    {
        match get_str(configuration, "projectRoot") {
            Some(r) => file_name_of(r),
            None => None,
        }
    }

    /// Replaces `$ZED_STEM` in a string `mainClass` with the stem of the
    /// main file, or else with the last component of the project root.
    pub fn substitute_main_class(configuration: &mut JsonMap)
        ensures
            json_entries(*final(configuration)) == main_class_substituted(json_entries(*old(configuration))),
    {
        let main_class: String = match get_str(configuration, "mainClass") {
            Some(c) => String::from_str(c),
            None => return ,
        };
        if !contains_str(main_class.as_str(), "$ZED_STEM") {
            return ;
        }
        let stem = match Self::stem_from_main_file(configuration) {
            Some(s) => s,
            None => match Self::stem_from_project_root(configuration) {
                Some(s) => s,
                None => return ,
            },
        };
        let replaced = replace_str(main_class.as_str(), "$ZED_STEM", stem.as_str());
        json_map_insert(configuration, String::from_str("mainClass"), json_from_string(replaced));
    }

    /// Writes a launch request into a Kotlin configuration: `request`,
    /// `type`, `name` and, when a working directory is set, `projectRoot`.
    /// An attach request leaves it unchanged.
    pub fn insert_launch_config(config: &mut JsonMap, zed_scenario: &ZedDebugConfig)
        ensures
            json_entries(*final(config)) == kotlin_launch_entries(json_entries(*old(config)), *zed_scenario),
    {
        if let DebugRequest::Launch(launch) = &zed_scenario.request {
            insert_str(config, "request", "launch");
            insert_str(config, "type", "kotlin");
            insert_str(config, "name", zed_scenario.label.as_str());
            if let Some(cwd) = &launch.cwd {
                insert_str(config, "projectRoot", cwd.as_str());
            }
        }
    }

    /// Turns an editor debug configuration into a Kotlin scenario.
    pub fn config_from_zed_format(&self, zed_scenario: ZedDebugConfig) -> (r: DebugScenario)
        ensures
            r.adapter@ == zed_scenario.adapter@,
            r.label@ == zed_scenario.label@,
            json_view(r.config) == Json::Object(kotlin_scenario_config(zed_scenario)),
            r.tcp_connection is None,
    {
        let mut config = json_map_new();
        match &zed_scenario.request {
            DebugRequest::Launch(_) => {
                Self::insert_launch_config(&mut config, &zed_scenario);
            },
            DebugRequest::Attach(attach) => {
                insert_str(&mut config, "request", "attach");
                insert_str(&mut config, "type", "kotlin");
                insert_str(&mut config, "name", zed_scenario.label.as_str());
                insert_str(&mut config, "hostName", "localhost");
                let port = match attach.process_id {
                    Some(p) => p,
                    None => 5005,
                };
                json_map_insert(&mut config, String::from_str("port"), json_from_u32(port));
                json_map_insert(&mut config, String::from_str("timeout"), json_from_u32(2000));
            },
        }
        DebugScenario {
            adapter: zed_scenario.adapter,
            label: zed_scenario.label,
            config: json_from_map(config),
            tcp_connection: None,
        }
    }

    /// Sets `projectRoot` to the root the project-root search found, if it found one.
    pub fn normalize_project_root(configuration: &mut JsonMap, project_root: Option<String>)
        ensures
            json_entries(*final(configuration)) == (match project_root {
                Some(r) => json_entries(*old(configuration)).insert("projectRoot"@, Json::Str(r@)),
                None => json_entries(*old(configuration)),
            }),
    {
        if let Some(root) = project_root {
            json_map_insert(configuration, String::from_str("projectRoot"), json_from_string(root));
        }
    }

    /// The task configuration handed to the adapter (see `kotlin_prepared`);
    /// `project_root` is the outcome of the project-root search.
    pub fn prepare_configuration(
        config: &serde_json::Value,
        worktree_root: &str,
        project_root: Option<String>,
    ) -> (r: serde_json::Value)
        ensures
            json_view(r) == kotlin_prepared(
                json_view(*config),
                worktree_root@,
                match project_root {
                    Some(p) => Some(p@),
                    None => None,
                },
            ),
    {
        match json_into_object(json_clone(config)) {
            Ok(m) => {
                let mut m = m;
                insert_default(&mut m, "type", jstring("kotlin"));
                insert_default(&mut m, "projectRoot", jstring(worktree_root));
                insert_default(&mut m, "enableJsonLogging", json_from_bool(false));
                Self::normalize_project_root(&mut m, project_root);
                Self::substitute_main_class(&mut m);
                json_map_remove(&mut m, "mainFile");
                json_from_map(m)
            },
            Err(v) => v,
        }
    }

    /// The environment handed to the adapter (see `kotlin_env`).
    pub fn envs(shell_env: EnvVars, user_env: Option<EnvVars>, configuration: &serde_json::Value) -> (r: EnvVars)
        ensures
            r@ == kotlin_env(
                shell_env@,
                match user_env {
                    Some(u) => Some(u@),
                    None => None,
                },
                json_view(*configuration),
            ),
    {
        let mut envs = crate::scenario::merged_env(shell_env, user_env);
        if let Some(root) = value_get_str(configuration, "projectRoot") {
            envs.insert(String::from_str("ZED_KOTLIN_DAP_PROJECT_ROOT"), String::from_str(root));
        }
        envs
    }

    /// The Python interpreter that runs the proxy script.
    pub fn python_binary_name(on_windows: bool) -> (r: &'static str)
        ensures
            r@ == (if on_windows {
                "python"@
            } else {
                "python3"@
            }),
    {
        if on_windows {
            "python"
        } else {
            "python3"
        }
    }

    /// Where the proxy script lives under the home directory:
    /// `sourcecode/Settings/binlinux/kotlin-dap-proxy.py`.
    pub fn proxy_script_path(home_dir: &str) -> (r: String)
        ensures
            r@ == path_join(
                path_join(path_join(path_join(home_dir@, "sourcecode"@), "Settings"@), "binlinux"@),
                "kotlin-dap-proxy.py"@,
            ),
    {
        let a = join_path(home_dir, "sourcecode");
        let b = join_path(a.as_str(), "Settings");
        let c = join_path(b.as_str(), "binlinux");
        join_path(c.as_str(), "kotlin-dap-proxy.py")
    }

    /// The command that starts the adapter: through the proxy script when
    /// a Python interpreter was found and the script exists (the script,
    /// the adapter and then the user's arguments become the interpreter's
    /// arguments); otherwise the adapter itself with the user's arguments.
    pub fn proxy_command(
        adapter_command: String,
        user_args: Option<Vec<String>>,
        python: Option<String>,
        proxy_script: String,
        proxy_script_exists: bool,
    ) -> (r: (String, Vec<String>))
        ensures
            ({
                let args = match user_args {
                    Some(a) => a@,
                    None => Seq::<String>::empty(),
                };
                match python {
                    Some(py) => if proxy_script_exists {
                        r.0@ == py@ && r.1@.len() == args.len() + 2 && r.1@[0]@ == proxy_script@ && r.1@[1]@
                            == adapter_command@ && r.1@.skip(2) == args
                    } else {
                        r.0@ == adapter_command@ && r.1@ == args
                    },
                    None => r.0@ == adapter_command@ && r.1@ == args,
                }
            }),
    {
        let args: Vec<String> = match user_args {
            Some(a) => a,
            None => Vec::new(),
        };
        let python = match python {
            Some(p) => p,
            None => return (adapter_command, args),
        };
        if !proxy_script_exists {
            return (adapter_command, args);
        }
        let mut arguments: Vec<String> = Vec::new();
        arguments.push(proxy_script);
        arguments.push(adapter_command);
        let mut rest = args;
        arguments.append(&mut rest);
        (python, arguments)
    }

    /// How to start the adapter for a task, from the answers of the outside
    /// world: the adapter's command (`resolve_adapter_command`), the project
    /// root the search settled on, the shell's and the user's environment,
    /// the worktree root, the Python interpreter found, the proxy script's
    /// path and whether it exists. The configuration is `prepare_configuration`'s,
    /// the environment `envs`' of that configuration, the command and
    /// arguments `proxy_command`'s, the working directory the worktree root.
    /// `request_kind` is the editor's verdict on the prepared
    /// configuration's start request; when it is refused, so is the task.
    pub fn get_binary(
        config: &DebugTaskDefinition,
        adapter_command: String,
        project_root: Option<String>,
        shell_env: EnvVars,
        user_env: Option<EnvVars>,
        worktree_root: String,
        user_args: Option<Vec<String>>,
        python: Option<String>,
        proxy_script: String,
        proxy_script_exists: bool,
        request_kind: Result<StartRequestKind, String>,
    ) -> (r: Result<DebugAdapterBinary, AdapterError>)
        ensures
            (r is Ok) <==> (request_kind is Ok),
            r matches Err(e) ==> e == (AdapterError::RequestKind { message: request_kind->Err_0 }),
            r matches Ok(b) ==> b.request == request_kind->Ok_0,
            r matches Ok(b) ==> json_view(b.configuration) == kotlin_prepared(
                json_view(config.config),
                worktree_root@,
                match project_root {
                    Some(p) => Some(p@),
                    None => None,
                },
            ),
            r matches Ok(b) ==> b.envs@ == kotlin_env(
                shell_env@,
                match user_env {
                    Some(u) => Some(u@),
                    None => None,
                },
                json_view(b.configuration),
            ),
            r matches Ok(b) ==> ({
                let args = match user_args {
                    Some(a) => a@,
                    None => Seq::<String>::empty(),
                };
                match python {
                    Some(py) => if proxy_script_exists {
                        b.command matches Some(c) && c@ == py@ && b.arguments@.len() == args.len() + 2 && b.arguments@[0]@
                            == proxy_script@ && b.arguments@[1]@ == adapter_command@ && b.arguments@.skip(2) == args
                    } else {
                        b.command matches Some(c) && c@ == adapter_command@ && b.arguments@ == args
                    },
                    None => b.command matches Some(c) && c@ == adapter_command@ && b.arguments@ == args,
                }
            }),
            r matches Ok(b) ==> (b.cwd matches Some(c) && c@ == worktree_root@),
            r matches Ok(b) ==> b.connection is None,
    {
        let configuration = Self::prepare_configuration(&config.config, worktree_root.as_str(), project_root);
        let envs = Self::envs(shell_env, user_env, &configuration);
        let (command, arguments) = Self::proxy_command(adapter_command, user_args, python, proxy_script, proxy_script_exists);
        let request = match request_kind {
            Ok(k) => k,
            Err(message) => return Err(AdapterError::RequestKind { message }),
        };
        Ok(DebugAdapterBinary {
            command: Some(command),
            arguments,
            envs,
            cwd: Some(worktree_root),
            connection: None,
            configuration,
            request,
        })
    }

    /// The JSON schema of a Kotlin configuration: one for launch, one for attach.
    pub fn dap_schema(&self) -> (r: serde_json::Value)
        ensures
            json_view(r) == kotlin_schema(),
    {
        let mut alternatives: Vec<serde_json::Value> = Vec::new();
        alternatives.push(kotlin_launch_schema_exec());
        alternatives.push(kotlin_attach_schema_exec());
        let one_of = json_from_values(alternatives);
        assert(alternatives@.map_values(|x: serde_json::Value| json_view(x)) =~= seq![
            kotlin_launch_schema(),
            kotlin_attach_schema(),
        ]);
        json_from_map(with(json_map_new(), "oneOf", one_of))
    }
}

/// The schema of a Kotlin launch configuration.
pub open spec fn kotlin_launch_schema() -> Json {
    Json::Object(
        map![
            "type"@ => Json::Str("object"@),
            "required"@ => str_array(seq!["request"@, "projectRoot"@, "mainClass"@]),
            "properties"@ => Json::Object(map![
                "request"@ => string_enum("launch"@),
                "type"@ => string_enum_default("kotlin"@),
                "name"@ => typed_default("string"@, Json::Str("Kotlin Launch"@)),
                "projectRoot"@ => typed("string"@),
                "mainFile"@ => typed("string"@),
                "mainClass"@ => typed("string"@),
                "vmArguments"@ => typed_default("string"@, Json::Str(""@)),
                "enableJsonLogging"@ => typed_default("boolean"@, Json::Bool(false)),
                "jsonLogFile"@ => typed_either("string"@, "null"@),
            ]),
        ],
    )
}

/// The schema of a Kotlin attach configuration.
pub open spec fn kotlin_attach_schema() -> Json {
    Json::Object(
        map![
            "type"@ => Json::Str("object"@),
            "required"@ => str_array(seq!["request"@, "projectRoot"@, "hostName"@, "port"@, "timeout"@]),
            "properties"@ => Json::Object(map![
                "request"@ => string_enum("attach"@),
                "type"@ => string_enum_default("kotlin"@),
                "name"@ => typed_default("string"@, Json::Str("Kotlin Attach"@)),
                "projectRoot"@ => typed("string"@),
                "hostName"@ => typed_default("string"@, Json::Str("localhost"@)),
                "port"@ => typed_default("number"@, Json::Int(5005)),
                "timeout"@ => typed_default("number"@, Json::Int(2000)),
                "enableJsonLogging"@ => typed_default("boolean"@, Json::Bool(false)),
                "jsonLogFile"@ => typed_either("string"@, "null"@),
            ]),
        ],
    )
}

/// The JSON schema of a Kotlin configuration.
pub open spec fn kotlin_schema() -> Json {
    Json::Object(map!["oneOf"@ => Json::Array(seq![kotlin_launch_schema(), kotlin_attach_schema()])])
}

fn kotlin_launch_schema_exec() -> (r: serde_json::Value)
    ensures
        json_view(r) == kotlin_launch_schema(),
{
    let required = jstrings(vec!["request", "projectRoot", "mainClass"]);
    assert(seq!["request", "projectRoot", "mainClass"].map_values(|s: &str| s@) =~= seq![
        "request"@,
        "projectRoot"@,
        "mainClass"@,
    ]);
    let mut p = json_map_new();
    p = with(p, "request", string_enum_exec("launch"));
    p = with(p, "type", string_enum_default_exec("kotlin"));
    p = with(p, "name", typed_default_exec("string", jstring("Kotlin Launch")));
    p = with(p, "projectRoot", typed_exec("string"));
    p = with(p, "mainFile", typed_exec("string"));
    p = with(p, "mainClass", typed_exec("string"));
    p = with(p, "vmArguments", typed_default_exec("string", jstring("")));
    p = with(p, "enableJsonLogging", typed_default_exec("boolean", json_from_bool(false)));
    p = with(p, "jsonLogFile", typed_either_exec("string", "null"));
    json_from_map(
        with(with(with(json_map_new(), "type", jstring("object")), "required", required), "properties", json_from_map(p)),
    )
}

fn kotlin_attach_schema_exec() -> (r: serde_json::Value)
    ensures
        json_view(r) == kotlin_attach_schema(),
{
    let required = jstrings(vec!["request", "projectRoot", "hostName", "port", "timeout"]);
    assert(seq!["request", "projectRoot", "hostName", "port", "timeout"].map_values(|s: &str| s@) =~= seq![
        "request"@,
        "projectRoot"@,
        "hostName"@,
        "port"@,
        "timeout"@,
    ]);
    let mut p = json_map_new();
    p = with(p, "request", string_enum_exec("attach"));
    p = with(p, "type", string_enum_default_exec("kotlin"));
    p = with(p, "name", typed_default_exec("string", jstring("Kotlin Attach")));
    p = with(p, "projectRoot", typed_exec("string"));
    p = with(p, "hostName", typed_default_exec("string", jstring("localhost")));
    p = with(p, "port", typed_default_exec("number", json_from_u32(5005)));
    p = with(p, "timeout", typed_default_exec("number", json_from_u32(2000)));
    p = with(p, "enableJsonLogging", typed_default_exec("boolean", json_from_bool(false)));
    p = with(p, "jsonLogFile", typed_either_exec("string", "null"));
    json_from_map(
        with(with(with(json_map_new(), "type", jstring("object")), "required", required), "properties", json_from_map(p)),
    )
}

} // verus!
