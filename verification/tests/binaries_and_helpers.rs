use dap_adapters::env::EnvVars;
use dap_adapters::gdscript::GDScriptDebugAdapter;
use dap_adapters::json::{get_str, insert_default, insert_str, pairs_json, strings_json, value_get_str};
use dap_adapters::kotlin::{KotlinDebugAdapter, ProjectRootSearch, RootSearchStep};
use dap_adapters::netcoredbg::NetCoreDbgDebugAdapter;
use dap_adapters::scenario::{merged_env, AdapterError, DebugTaskDefinition, StartRequestKind, TcpArguments};
use dap_adapters::schema::{jstrings, string_enum_default_exec, typed_either_exec, with};
use serde_json::Value;

fn obj(text: &str) -> Value {
    serde_json::from_str(text).unwrap()
}

fn map(text: &str) -> serde_json::Map<String, Value> {
    match obj(text) {
        Value::Object(m) => m,
        _ => panic!("not an object"),
    }
}

fn pairs(items: &[(&str, &str)]) -> Vec<(String, String)> {
    items.iter().map(|(k, v)| (k.to_string(), v.to_string())).collect()
}

fn sorted(mut v: Vec<(String, String)>) -> Vec<(String, String)> {
    v.sort();
    v
}

fn task(config: &str) -> DebugTaskDefinition {
    DebugTaskDefinition {
        label: "task".to_string(),
        adapter: "adapter".to_string(),
        config: obj(config),
        tcp_connection: None,
    }
}

#[test]
fn gdscript_binary_has_no_command_or_arguments() {
    let connection = TcpArguments { host: [127, 0, 0, 1], port: 6006, timeout: Some(5000) };
    let b = GDScriptDebugAdapter::get_binary(
        &task(r#"{"request":"launch"}"#),
        connection,
        EnvVars::from_pairs(pairs(&[("A", "shell")])),
        Some(EnvVars::from_pairs(pairs(&[("A", "user"), ("B", "u")]))),
        "/work".to_string(),
        Ok(StartRequestKind::Launch),
    )
    .ok()
    .unwrap();
    assert_eq!(b.request, StartRequestKind::Launch);
    assert!(b.command.is_none());
    assert!(b.arguments.is_empty());
    assert_eq!(b.connection, Some(connection));
    assert_eq!(b.cwd, Some("/work".to_string()));
    assert_eq!(sorted(b.envs.to_pairs()), pairs(&[("A", "user"), ("B", "u")]));
    assert_eq!(
        b.configuration,
        obj(r#"{"request":"launch","type":"gdscript","cwd":"/work","args":""}"#)
    );
}

#[test]
fn kotlin_binary_through_proxy() {
    let b = KotlinDebugAdapter::get_binary(
        &task(r#"{"request":"launch","mainFile":"/p/src/App.kt","mainClass":"$ZED_STEMKt"}"#),
        "kda".to_string(),
        Some("/p".to_string()),
        EnvVars::new(),
        None,
        "/work".to_string(),
        Some(vec!["-v".to_string()]),
        Some("/usr/bin/python3".to_string()),
        "/h/proxy.py".to_string(),
        true,
        Ok(StartRequestKind::Launch),
    )
    .ok()
    .unwrap();
    assert_eq!(b.command, Some("/usr/bin/python3".to_string()));
    assert_eq!(b.arguments, vec!["/h/proxy.py".to_string(), "kda".to_string(), "-v".to_string()]);
    assert_eq!(b.cwd, Some("/work".to_string()));
    assert!(b.connection.is_none());
    assert_eq!(
        b.configuration,
        obj(r#"{"request":"launch","mainClass":"AppKt","type":"kotlin","projectRoot":"/p","enableJsonLogging":false}"#)
    );
    assert_eq!(b.envs.to_pairs(), pairs(&[("ZED_KOTLIN_DAP_PROJECT_ROOT", "/p")]));
}

#[test]
fn kotlin_binary_without_python() {
    let b = KotlinDebugAdapter::get_binary(
        &task(r#"{"request":"attach"}"#),
        "kda".to_string(),
        None,
        EnvVars::new(),
        None,
        "/work".to_string(),
        None,
        None,
        "/h/proxy.py".to_string(),
        true,
        Ok(StartRequestKind::Attach),
    )
    .ok()
    .unwrap();
    assert_eq!(b.request, StartRequestKind::Attach);
    assert_eq!(b.command, Some("kda".to_string()));
    assert!(b.arguments.is_empty());
    assert_eq!(b.envs.to_pairs(), pairs(&[("ZED_KOTLIN_DAP_PROJECT_ROOT", "/work")]));
}

#[test]
fn netcoredbg_binary() {
    let b = NetCoreDbgDebugAdapter::get_binary(
        &task(r#"{"request":"launch","env":{"E":"1"}}"#),
        "/usr/bin/netcoredbg".to_string(),
        EnvVars::from_pairs(pairs(&[("E", "shell")])),
        None,
        None,
        "/work".to_string(),
        Ok(StartRequestKind::Launch),
    )
    .ok()
    .unwrap();
    assert_eq!(b.command, Some("/usr/bin/netcoredbg".to_string()));
    assert_eq!(b.arguments, vec!["--interpreter=vscode".to_string()]);
    assert_eq!(b.envs.to_pairs(), pairs(&[("E", "1")]));
    assert_eq!(b.cwd, Some("/work".to_string()));
    assert_eq!(b.configuration, obj(r#"{"request":"launch","env":{"E":"1"},"cwd":"/work"}"#));
}

#[test]
fn merged_env_prefers_user() {
    let shell = EnvVars::from_pairs(pairs(&[("A", "s"), ("B", "s")]));
    let merged = merged_env(shell, Some(EnvVars::from_pairs(pairs(&[("B", "u")]))));
    assert_eq!(sorted(merged.to_pairs()), pairs(&[("A", "s"), ("B", "u")]));
    let alone = merged_env(EnvVars::from_pairs(pairs(&[("A", "s")])), None);
    assert_eq!(alone.to_pairs(), pairs(&[("A", "s")]));
}

#[test]
fn normalize_project_root_sets_found_root() {
    let mut m = map(r#"{"projectRoot":"/work"}"#);
    KotlinDebugAdapter::normalize_project_root(&mut m, Some("/p/app".to_string()));
    assert_eq!(Value::Object(m), obj(r#"{"projectRoot":"/p/app"}"#));
    let mut m = map(r#"{"projectRoot":"/work"}"#);
    KotlinDebugAdapter::normalize_project_root(&mut m, None);
    assert_eq!(Value::Object(m), obj(r#"{"projectRoot":"/work"}"#));
}

#[test]
fn search_roots_are_prefixes_of_main_dir() {
    let config = obj(r#"{"mainFile":"/a/b/c/Main.kt"}"#);
    let mut search = ProjectRootSearch::start(&config).unwrap();
    assert_eq!(search.main_dir, "/a/b/c");
    let mut visited = vec![search.dir.clone()];
    let root = loop {
        match search.advance(search_dir_is(&visited, "/a")) {
            RootSearchStep::Found(r) => break r,
            RootSearchStep::Continue(next) => {
                assert!("/a/b/c".starts_with(next.dir.as_str()));
                visited.push(next.dir.clone());
                search = next;
            }
        }
    };
    assert_eq!(root, "/a");
    assert_eq!(visited, vec!["/a/b/c", "/a/b", "/a"]);
}

fn search_dir_is(visited: &[String], dir: &str) -> bool {
    visited.last().map(|d| d == dir).unwrap_or(false)
}

#[test]
fn json_helpers() {
    let mut m = map(r#"{"a":"x","n":1}"#);
    insert_str(&mut m, "b", "y");
    insert_default(&mut m, "a", Value::from("ignored"));
    insert_default(&mut m, "c", Value::from(true));
    assert_eq!(Value::Object(m.clone()), obj(r#"{"a":"x","n":1,"b":"y","c":true}"#));
    assert_eq!(get_str(&m, "a"), Some("x"));
    assert_eq!(get_str(&m, "n"), None);
    assert_eq!(get_str(&m, "zz"), None);
    assert_eq!(value_get_str(&Value::Object(m), "b"), Some("y"));
    assert_eq!(value_get_str(&obj("[1]"), "b"), None);
    assert_eq!(Value::Object(pairs_json(&pairs(&[("k", "1"), ("k", "2")]))), obj(r#"{"k":"2"}"#));
    assert_eq!(strings_json(&vec!["a".to_string(), "b".to_string()]), obj(r#"["a","b"]"#));
}

#[test]
fn schema_helpers() {
    assert_eq!(jstrings(vec!["x", "y"]), obj(r#"["x","y"]"#));
    assert_eq!(string_enum_default_exec("kotlin"), obj(r#"{"type":"string","enum":["kotlin"],"default":"kotlin"}"#));
    assert_eq!(typed_either_exec("number", "string"), obj(r#"{"type":["number","string"]}"#));
    let m = with(serde_json::Map::new(), "k", Value::from(1u32));
    assert_eq!(Value::Object(m), obj(r#"{"k":1}"#));
}

#[test]
fn refused_request_kind_refuses_the_task() {
    let connection = TcpArguments { host: [127, 0, 0, 1], port: 6006, timeout: None };
    let refused = || Err("missing or invalid `request`".to_string());
    let g = GDScriptDebugAdapter::get_binary(&task("{}"), connection, EnvVars::new(), None, "/w".to_string(), refused());
    let k = KotlinDebugAdapter::get_binary(
        &task("{}"),
        "kda".to_string(),
        None,
        EnvVars::new(),
        None,
        "/w".to_string(),
        None,
        None,
        "/p.py".to_string(),
        false,
        refused(),
    );
    let n = NetCoreDbgDebugAdapter::get_binary(&task("{}"), "nc".to_string(), EnvVars::new(), None, None, "/w".to_string(), refused());
    for e in [g.err().unwrap(), k.err().unwrap(), n.err().unwrap()] {
        assert!(matches!(e, AdapterError::RequestKind { .. }));
        assert_eq!(e.message(), "missing or invalid `request`");
    }
}

#[test]
fn adapter_specific_command_resolution() {
    assert_eq!(KotlinDebugAdapter::binary_name(), "kotlin-debug-adapter");
    assert_eq!(NetCoreDbgDebugAdapter::binary_name(), "netcoredbg");
    let e = KotlinDebugAdapter::resolve_command(None, None).err().unwrap();
    assert_eq!(e.message(), "Could not find kotlin-debug-adapter in PATH or dap.Kotlin.binary");
    let e = NetCoreDbgDebugAdapter::resolve_command(None, None).err().unwrap();
    assert_eq!(e.message(), "Could not find netcoredbg in PATH or dap.NetCoreDbg.binary");
    assert_eq!(
        KotlinDebugAdapter::resolve_command(Some("/opt/kda".to_string()), None).ok(),
        Some("/opt/kda".to_string())
    );
    assert_eq!(
        NetCoreDbgDebugAdapter::resolve_command(None, Some("/bin/nc".to_string())).ok(),
        Some("/bin/nc".to_string())
    );
}

#[test]
fn stems_follow_file_name_dots() {
    let stem = |f: &str| {
        let m = map(&format!(r#"{{"mainFile":"{}"}}"#, f));
        KotlinDebugAdapter::stem_from_main_file(&m)
    };
    assert_eq!(stem("/p/.hidden"), Some(".hidden".to_string()));
    assert_eq!(stem("/p/a."), Some("a".to_string()));
    assert_eq!(stem("/p/.a.b"), Some(".a".to_string()));
    assert_eq!(stem("/p/plain"), Some("plain".to_string()));
    assert_eq!(stem("/"), None);
}
