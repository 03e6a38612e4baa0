use dap_adapters::env::EnvVars;
use dap_adapters::gdscript::GDScriptDebugAdapter;
use dap_adapters::kotlin::{KotlinDebugAdapter, ProjectRootSearch, RootSearchStep};
use dap_adapters::netcoredbg::NetCoreDbgDebugAdapter;
use dap_adapters::scenario::{
    resolve_adapter_command, AdapterError, AttachRequest, DebugRequest, LaunchRequest,
    TcpArgumentsTemplate, ZedDebugConfig,
};
use serde_json::Value;

fn obj(text: &str) -> Value {
    serde_json::from_str(text).unwrap()
}

fn map(text: &str) -> serde_json::Map<String, Value> {
    match obj(text) {
        Value::Object(m) => m,
        _ => panic!("not an object"),
    }
}

fn pairs(items: &[(&str, &str)]) -> Vec<(String, String)> {
    items.iter().map(|(k, v)| (k.to_string(), v.to_string())).collect()
}

fn sorted(mut v: Vec<(String, String)>) -> Vec<(String, String)> {
    v.sort();
    v
}

fn launch(program: &str, cwd: Option<&str>, args: &[&str], env: &[(&str, &str)]) -> ZedDebugConfig {
    ZedDebugConfig {
        label: "Run it".to_string(),
        adapter: "Adapter".to_string(),
        request: DebugRequest::Launch(LaunchRequest {
            program: program.to_string(),
            cwd: cwd.map(|c| c.to_string()),
            args: args.iter().map(|a| a.to_string()).collect(),
            env: EnvVars::from_pairs(pairs(env)),
        }),
        stop_on_entry: None,
    }
}

fn attach(process_id: Option<u32>) -> ZedDebugConfig {
    ZedDebugConfig {
        label: "Attach it".to_string(),
        adapter: "Adapter".to_string(),
        request: DebugRequest::Attach(AttachRequest { process_id }),
        stop_on_entry: None,
    }
}

// ---------- GDScript ----------

#[test]
fn gdscript_launch_scenario() {
    let s = GDScriptDebugAdapter
        .config_from_zed_format(launch("res://main.tscn", Some("/game"), &["--verbose", "-d"], &[]))
        .ok()
        .unwrap();
    assert_eq!(s.adapter, "Adapter");
    assert_eq!(s.label, "Run it");
    assert_eq!(
        s.config,
        obj(r#"{"request":"launch","type":"gdscript","name":"Run it","program":"res://main.tscn","args":"--verbose -d","cwd":"/game"}"#)
    );
    assert_eq!(
        s.tcp_connection,
        Some(TcpArgumentsTemplate { port: Some(6006), host: Some([127, 0, 0, 1]), timeout: Some(5000) })
    );
}

#[test]
fn gdscript_launch_without_args_has_empty_args() {
    let s = GDScriptDebugAdapter.config_from_zed_format(launch("p", None, &[], &[])).ok().unwrap();
    assert_eq!(
        s.config,
        obj(r#"{"request":"launch","type":"gdscript","name":"Run it","program":"p","args":""}"#)
    );
}

#[test]
fn gdscript_refuses_attach() {
    match GDScriptDebugAdapter.config_from_zed_format(attach(Some(3))) {
        Err(e) => assert_eq!(e.message(), "GDScript debugging uses a launch request to Godot's debug server"),
        Ok(_) => panic!("attach accepted"),
    }
}

#[test]
fn gdscript_insert_launch_config_keeps_other_keys() {
    let mut m = map(r#"{"extra":1,"type":"old"}"#);
    GDScriptDebugAdapter::insert_launch_config(&mut m, &launch("p", None, &["a"], &[]));
    assert_eq!(
        Value::Object(m),
        obj(r#"{"extra":1,"request":"launch","type":"gdscript","name":"Run it","program":"p","args":"a"}"#)
    );
    let mut m = map(r#"{"extra":1}"#);
    GDScriptDebugAdapter::insert_launch_config(&mut m, &attach(None));
    assert_eq!(Value::Object(m), obj(r#"{"extra":1}"#));
}

#[test]
fn gdscript_prepare_fills_missing_defaults_only() {
    let c = GDScriptDebugAdapter::prepare_configuration(&obj(r#"{"type":"custom","request":"launch"}"#), "/work");
    assert_eq!(c, obj(r#"{"type":"custom","request":"launch","cwd":"/work","args":""}"#));
    let again = GDScriptDebugAdapter::prepare_configuration(&c, "/elsewhere");
    assert_eq!(again, c);
    assert_eq!(GDScriptDebugAdapter::prepare_configuration(&obj("[1,2]"), "/w"), obj("[1,2]"));
}

#[test]
fn gdscript_tcp_template() {
    let given = TcpArgumentsTemplate { port: Some(1), host: None, timeout: None };
    assert_eq!(GDScriptDebugAdapter::tcp_connection_template(Some(given)), given);
    assert_eq!(
        GDScriptDebugAdapter::tcp_connection_template(None),
        GDScriptDebugAdapter::default_tcp_connection()
    );
}

#[test]
fn gdscript_schema() {
    let expected = obj(r#"{
        "type": "object",
        "required": ["request"],
        "properties": {
            "request": {"type": "string", "enum": ["launch"]},
            "type": {"type": "string", "enum": ["gdscript"], "default": "gdscript"},
            "name": {"type": "string", "default": "Gdscript Debug"},
            "program": {"type": ["string", "null"]},
            "cwd": {"type": "string"},
            "args": {"type": "string", "default": ""}
        }
    }"#);
    assert_eq!(GDScriptDebugAdapter.dap_schema(), expected);
    assert_eq!(GDScriptDebugAdapter.name(), "GDScript");
    assert_eq!(GDScriptDebugAdapter.adapter_language_name(), Some("GDScript".to_string()));
}

// ---------- Kotlin ----------

#[test]
fn kotlin_launch_scenario() {
    let s = KotlinDebugAdapter.config_from_zed_format(launch("Main.kt", Some("/proj"), &["x"], &[]));
    assert_eq!(
        s.config,
        obj(r#"{"request":"launch","type":"kotlin","name":"Run it","projectRoot":"/proj"}"#)
    );
    assert!(s.tcp_connection.is_none());
}

#[test]
fn kotlin_attach_scenario() {
    let s = KotlinDebugAdapter.config_from_zed_format(attach(None));
    assert_eq!(
        s.config,
        obj(r#"{"request":"attach","type":"kotlin","name":"Attach it","hostName":"localhost","port":5005,"timeout":2000}"#)
    );
    let s = KotlinDebugAdapter.config_from_zed_format(attach(Some(7000)));
    assert_eq!(s.config["port"], obj("7000"));
}

#[test]
fn kotlin_stems() {
    let m = map(r#"{"mainFile":"/p/src/App.main.kt","projectRoot":"/p/demo/"}"#);
    assert_eq!(KotlinDebugAdapter::stem_from_main_file(&m), Some("App.main".to_string()));
    assert_eq!(KotlinDebugAdapter::stem_from_project_root(&m), Some("demo".to_string()));
    let m = map(r#"{"mainFile":3,"projectRoot":"/"}"#);
    assert_eq!(KotlinDebugAdapter::stem_from_main_file(&m), None);
    assert_eq!(KotlinDebugAdapter::stem_from_project_root(&m), None);
}

#[test]
fn kotlin_substitute_main_class() {
    let mut m = map(r#"{"mainClass":"$ZED_STEMKt","mainFile":"/p/src/App.kt","projectRoot":"/p"}"#);
    KotlinDebugAdapter::substitute_main_class(&mut m);
    assert_eq!(m["mainClass"], obj(r#""AppKt""#));

    let mut m = map(r#"{"mainClass":"$ZED_STEMKt","projectRoot":"/work/demo"}"#);
    KotlinDebugAdapter::substitute_main_class(&mut m);
    assert_eq!(m["mainClass"], obj(r#""demoKt""#));

    let mut m = map(r#"{"mainClass":"$ZED_STEMKt"}"#);
    KotlinDebugAdapter::substitute_main_class(&mut m);
    assert_eq!(m["mainClass"], obj(r#""$ZED_STEMKt""#));

    let mut m = map(r#"{"mainClass":"a.MainKt","mainFile":"/p/App.kt"}"#);
    KotlinDebugAdapter::substitute_main_class(&mut m);
    assert_eq!(m["mainClass"], obj(r#""a.MainKt""#));
}

#[test]
fn kotlin_prepare_configuration() {
    let config = obj(r#"{"mainFile":"/p/app/src/Main.kt","mainClass":"$ZED_STEMKt","request":"launch"}"#);
    let c = KotlinDebugAdapter::prepare_configuration(&config, "/work", Some("/p/app".to_string()));
    assert_eq!(
        c,
        obj(r#"{"mainClass":"MainKt","request":"launch","type":"kotlin","projectRoot":"/p/app","enableJsonLogging":false}"#)
    );
    let c = KotlinDebugAdapter::prepare_configuration(&obj(r#"{"type":"other"}"#), "/work", None);
    assert_eq!(c, obj(r#"{"type":"other","projectRoot":"/work","enableJsonLogging":false}"#));
    assert_eq!(KotlinDebugAdapter::prepare_configuration(&obj("null"), "/w", None), obj("null"));
}

fn run_search(config: &Value, build_dirs: &[&str]) -> Option<String> {
    let mut search = ProjectRootSearch::start(config)?;
    loop {
        let dir = search.dir.clone();
        let (kts, groovy) = search.build_files();
        let joined = |name: &str| std::path::Path::new(&dir).join(name).to_string_lossy().into_owned();
        assert_eq!(kts, joined("build.gradle.kts"));
        assert_eq!(groovy, joined("build.gradle"));
        assert!(kts.ends_with("build.gradle.kts") && kts.starts_with(dir.as_str()));
        let found = build_dirs.contains(&dir.as_str());
        match search.advance(found) {
            RootSearchStep::Found(root) => return Some(root),
            RootSearchStep::Continue(next) => search = next,
        }
    }
}

#[test]
fn kotlin_root_search_finds_nearest_build_dir() {
    let config = obj(r#"{"mainFile":"/p/app/src/main/Main.kt"}"#);
    assert_eq!(run_search(&config, &["/p", "/p/app"]), Some("/p/app".to_string()));
    assert_eq!(run_search(&config, &["/p"]), Some("/p".to_string()));
    assert_eq!(run_search(&config, &[]), Some("/p/app/src/main".to_string()));
    assert_eq!(run_search(&obj(r#"{"mainFile":"/"}"#), &[]), None);
    assert_eq!(run_search(&obj(r#"{"mainClass":"x"}"#), &[]), None);
    assert_eq!(run_search(&obj(r#""text""#), &[]), None);
}

#[test]
fn kotlin_envs() {
    let shell = EnvVars::from_pairs(pairs(&[("PATH", "/bin"), ("A", "shell")]));
    let user = EnvVars::from_pairs(pairs(&[("A", "user")]));
    let env = KotlinDebugAdapter::envs(shell, Some(user), &obj(r#"{"projectRoot":"/p"}"#));
    assert_eq!(
        sorted(env.to_pairs()),
        pairs(&[("A", "user"), ("PATH", "/bin"), ("ZED_KOTLIN_DAP_PROJECT_ROOT", "/p")])
    );
    let env = KotlinDebugAdapter::envs(EnvVars::new(), None, &obj(r#"{"projectRoot":1}"#));
    assert!(env.is_empty());
}

#[test]
fn kotlin_proxy_command() {
    let script = KotlinDebugAdapter::proxy_script_path("/home/u");
    assert_eq!(script, "/home/u/sourcecode/Settings/binlinux/kotlin-dap-proxy.py");
    let (cmd, args) = KotlinDebugAdapter::proxy_command(
        "kda".to_string(),
        Some(vec!["--x".to_string()]),
        Some("/usr/bin/python3".to_string()),
        script.clone(),
        true,
    );
    assert_eq!(cmd, "/usr/bin/python3");
    assert_eq!(args, vec![script.clone(), "kda".to_string(), "--x".to_string()]);
    let (cmd, args) = KotlinDebugAdapter::proxy_command(
        "kda".to_string(),
        Some(vec!["--x".to_string()]),
        Some("/usr/bin/python3".to_string()),
        script.clone(),
        false,
    );
    assert_eq!((cmd, args), ("kda".to_string(), vec!["--x".to_string()]));
    let (cmd, args) = KotlinDebugAdapter::proxy_command("kda".to_string(), None, None, script, true);
    assert_eq!((cmd, args), ("kda".to_string(), Vec::<String>::new()));
    assert_eq!(KotlinDebugAdapter::python_binary_name(true), "python");
    assert_eq!(KotlinDebugAdapter::python_binary_name(false), "python3");
}

#[test]
fn kotlin_schema_and_names() {
    let expected = obj(r#"{"oneOf": [
        {"type": "object", "required": ["request", "projectRoot", "mainClass"], "properties": {
            "request": {"type": "string", "enum": ["launch"]},
            "type": {"type": "string", "enum": ["kotlin"], "default": "kotlin"},
            "name": {"type": "string", "default": "Kotlin Launch"},
            "projectRoot": {"type": "string"},
            "mainFile": {"type": "string"},
            "mainClass": {"type": "string"},
            "vmArguments": {"type": "string", "default": ""},
            "enableJsonLogging": {"type": "boolean", "default": false},
            "jsonLogFile": {"type": ["string", "null"]}}},
        {"type": "object", "required": ["request", "projectRoot", "hostName", "port", "timeout"], "properties": {
            "request": {"type": "string", "enum": ["attach"]},
            "type": {"type": "string", "enum": ["kotlin"], "default": "kotlin"},
            "name": {"type": "string", "default": "Kotlin Attach"},
            "projectRoot": {"type": "string"},
            "hostName": {"type": "string", "default": "localhost"},
            "port": {"type": "number", "default": 5005},
            "timeout": {"type": "number", "default": 2000},
            "enableJsonLogging": {"type": "boolean", "default": false},
            "jsonLogFile": {"type": ["string", "null"]}}}
    ]}"#);
    assert_eq!(KotlinDebugAdapter.dap_schema(), expected);
    assert_eq!(KotlinDebugAdapter.name(), "Kotlin");
    assert_eq!(KotlinDebugAdapter.adapter_language_name(), Some("Kotlin".to_string()));
}

// ---------- NetCoreDbg ----------

#[test]
fn netcoredbg_launch_scenario() {
    let mut cfg = launch("/bin/app.dll", Some("/src"), &["a", "b"], &[("K", "V")]);
    cfg.stop_on_entry = Some(true);
    let s = NetCoreDbgDebugAdapter.config_from_zed_format(cfg);
    assert_eq!(
        s.config,
        obj(r#"{"request":"launch","program":"/bin/app.dll","args":["a","b"],"env":{"K":"V"},"stopAtEntry":true,"cwd":"/src"}"#)
    );
    let s = NetCoreDbgDebugAdapter.config_from_zed_format(launch("p", None, &[], &[]));
    assert_eq!(s.config, obj(r#"{"request":"launch","program":"p"}"#));
}

#[test]
fn netcoredbg_attach_scenario() {
    let s = NetCoreDbgDebugAdapter.config_from_zed_format(attach(Some(42)));
    assert_eq!(s.config, obj(r#"{"request":"attach","processId":42}"#));
    let s = NetCoreDbgDebugAdapter.config_from_zed_format(attach(None));
    assert_eq!(s.config, obj(r#"{"request":"attach","processId":null}"#));
}

#[test]
fn netcoredbg_prepare_and_env() {
    let config = obj(r#"{"request":"launch","env":{"A":"cfg","N":5,"B":"b"}}"#);
    let c = NetCoreDbgDebugAdapter::prepare_configuration(&config, "/work");
    assert_eq!(c, obj(r#"{"request":"launch","env":{"A":"cfg","N":5,"B":"b"},"cwd":"/work"}"#));
    let c2 = NetCoreDbgDebugAdapter::prepare_configuration(&obj(r#"{"cwd":"/mine"}"#), "/work");
    assert_eq!(c2, obj(r#"{"cwd":"/mine"}"#));
    let shell = EnvVars::from_pairs(pairs(&[("A", "shell"), ("C", "shell")]));
    let user = EnvVars::from_pairs(pairs(&[("A", "user"), ("C", "user")]));
    let env = NetCoreDbgDebugAdapter::envs(shell, Some(user), &config);
    assert_eq!(sorted(env.to_pairs()), pairs(&[("A", "cfg"), ("B", "b"), ("C", "user")]));
    let env = NetCoreDbgDebugAdapter::envs(EnvVars::new(), None, &obj(r#"{"env":"x"}"#));
    assert!(env.is_empty());
}

#[test]
fn netcoredbg_arguments() {
    assert_eq!(NetCoreDbgDebugAdapter::arguments(None), vec!["--interpreter=vscode".to_string()]);
    assert_eq!(NetCoreDbgDebugAdapter::arguments(Some(vec![])), Vec::<String>::new());
}

#[test]
fn netcoredbg_schema_and_names() {
    let expected = obj(r#"{"oneOf": [
        {"type": "object", "required": ["request", "program"], "properties": {
            "request": {"type": "string", "enum": ["launch"]},
            "program": {"type": "string", "description": "Path to the .NET assembly to debug"},
            "args": {"type": "array", "items": {"type": "string"}, "default": []},
            "cwd": {"type": "string"},
            "env": {"type": "object", "patternProperties": {".*": {"type": "string"}}},
            "stopAtEntry": {"type": "boolean", "default": false},
            "justMyCode": {"type": "boolean", "default": true}}},
        {"type": "object", "required": ["request", "processId"], "properties": {
            "request": {"type": "string", "enum": ["attach"]},
            "processId": {"type": ["number", "string"]}}}
    ]}"#);
    assert_eq!(NetCoreDbgDebugAdapter.dap_schema(), expected);
    assert_eq!(NetCoreDbgDebugAdapter.name(), "NetCoreDbg");
    assert_eq!(NetCoreDbgDebugAdapter.adapter_language_name(), Some("CSharp".to_string()));
}

// ---------- shared ----------

#[test]
fn command_resolution() {
    let r = resolve_adapter_command(Some("/opt/kda".to_string()), Some("/usr/bin/kda".to_string()), "kotlin-debug-adapter", "Kotlin");
    assert_eq!(r.ok(), Some("/opt/kda".to_string()));
    let r = resolve_adapter_command(None, Some("/usr/bin/kda".to_string()), "kotlin-debug-adapter", "Kotlin");
    assert_eq!(r.ok(), Some("/usr/bin/kda".to_string()));
    match resolve_adapter_command(None, None, "netcoredbg", "NetCoreDbg") {
        Err(e) => {
            assert!(matches!(e, AdapterError::BinaryNotFound { .. }));
            assert_eq!(e.message(), "Could not find netcoredbg in PATH or dap.NetCoreDbg.binary");
        }
        Ok(_) => panic!("found a missing binary"),
    }
}

#[test]
fn env_json_holds_environment() {
    let l = LaunchRequest {
        program: "p".to_string(),
        cwd: None,
        args: vec![],
        env: EnvVars::from_pairs(pairs(&[("X", "1"), ("Y", "2")])),
    };
    assert_eq!(l.env_json(), obj(r#"{"X":"1","Y":"2"}"#));
}
