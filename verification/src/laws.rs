//! Properties that hold across the adapters' functions.
use vstd::prelude::*;
use crate::json::{Json, object_str, with_default};
use crate::gdscript::{gdscript_prepared, gdscript_launch_entries};
use crate::kotlin::{
    kotlin_prepared, kotlin_scenario_config, kotlin_env, main_class_substituted, main_class_stem, nearest_build_root,
    ancestor, stem_from_main_file_spec, stem_from_project_root_spec,
};
use crate::text::{occurs_at, contains_seq, replace_all, lemma_replace_first_occurrence, lemma_replace_absent};
use crate::netcoredbg::{netcoredbg_prepared, netcoredbg_scenario_config, netcoredbg_env, config_env};
use crate::paths::path_parent;
use crate::scenario::{DebugRequest, ZedDebugConfig, user_over_shell};

verus! {

/// The kind of request the editor sent.
pub open spec fn request_kind(cfg: ZedDebugConfig) -> Seq<char> {
    match cfg.request {
        DebugRequest::Launch(_) => "launch"@,
        DebugRequest::Attach(_) => "attach"@,
    }
}

/// The `request` entry of every Kotlin and NetCoreDbg scenario, and of
/// every GDScript launch scenario, names the kind of request the editor sent.
pub proof fn law_scenario_request_names_request_kind(cfg: ZedDebugConfig)
    ensures
        kotlin_scenario_config(cfg)["request"@] == Json::Str(request_kind(cfg)),
        netcoredbg_scenario_config(cfg)["request"@] == Json::Str(request_kind(cfg)),
        cfg.request is Launch ==> gdscript_launch_entries(Map::empty(), cfg)["request"@] == Json::Str(request_kind(cfg)),
{
    reveal_strlit("request");
    reveal_strlit("type");
    reveal_strlit("name");
    reveal_strlit("program");
    reveal_strlit("args");
    reveal_strlit("cwd");
    reveal_strlit("env");
    reveal_strlit("stopAtEntry");
    reveal_strlit("projectRoot");
    reveal_strlit("hostName");
    reveal_strlit("port");
    reveal_strlit("timeout");
    reveal_strlit("processId");
    assert("request"@[0] != "program"@[0]);
    assert("request"@.len() != "args"@.len());
    assert("request"@.len() != "env"@.len());
    assert("request"@.len() != "stopAtEntry"@.len());
    assert("request"@.len() != "cwd"@.len());
    assert("request"@.len() != "type"@.len());
    assert("request"@.len() != "name"@.len());
    assert("request"@.len() != "projectRoot"@.len());
    assert("request"@.len() != "hostName"@.len());
    assert("request"@.len() != "port"@.len());
    assert("request"@[0] != "timeout"@[0]);
    assert("request"@.len() != "processId"@.len());
}

/// Filling in GDScript defaults never changes a setting the task already has.
pub proof fn law_gdscript_defaults_keep_settings(m: Map<Seq<char>, Json>, worktree_root: Seq<char>, key: Seq<char>)
    requires
        m.contains_key(key),
    ensures
        gdscript_prepared(Json::Object(m), worktree_root)->Object_0[key] == m[key],
{
}

/// Filling in NetCoreDbg defaults never changes a setting the task already has.
pub proof fn law_netcoredbg_defaults_keep_settings(m: Map<Seq<char>, Json>, worktree_root: Seq<char>, key: Seq<char>)
    requires
        m.contains_key(key),
    ensures
        netcoredbg_prepared(Json::Object(m), worktree_root)->Object_0[key] == m[key],
{
}

/// Preparing a Kotlin configuration keeps every setting of the task other
/// than `projectRoot`, `mainClass` and `mainFile`.
pub proof fn law_kotlin_prepare_keeps_other_settings(
    m: Map<Seq<char>, Json>,
    worktree_root: Seq<char>,
    project_root: Option<Seq<char>>,
    key: Seq<char>,
)
    requires
        m.contains_key(key),
        key != "projectRoot"@,
        key != "mainClass"@,
        key != "mainFile"@,
    ensures
        kotlin_prepared(Json::Object(m), worktree_root, project_root)->Object_0.contains_key(key),
        kotlin_prepared(Json::Object(m), worktree_root, project_root)->Object_0[key] == m[key],
{
    reveal_strlit("projectRoot");
    reveal_strlit("mainClass");
    reveal_strlit("mainFile");
    reveal_strlit("type");
    reveal_strlit("enableJsonLogging");
    assert("type"@.len() != "mainClass"@.len());
    assert("enableJsonLogging"@.len() != "mainClass"@.len());
    assert("type"@.len() != "mainFile"@.len());
    assert("enableJsonLogging"@.len() != "mainFile"@.len());
}

/// A prepared Kotlin configuration always names its type, a project root
/// and whether to log JSON, and never a main file.
pub proof fn law_kotlin_prepared_shape(m: Map<Seq<char>, Json>, worktree_root: Seq<char>, project_root: Option<Seq<char>>)
    ensures
        ({
            let r = kotlin_prepared(Json::Object(m), worktree_root, project_root)->Object_0;
            &&& r.contains_key("type"@)
            &&& r.contains_key("projectRoot"@)
            &&& r.contains_key("enableJsonLogging"@)
            &&& !r.contains_key("mainFile"@)
        }),
        project_root matches Some(root) ==> object_str(kotlin_prepared(Json::Object(m), worktree_root, project_root), "projectRoot"@)
            == Some(root),
{
    reveal_strlit("projectRoot");
    reveal_strlit("mainClass");
    reveal_strlit("mainFile");
    reveal_strlit("type");
    reveal_strlit("enableJsonLogging");
    let defaults = with_default(
        with_default(with_default(m, "type"@, Json::Str("kotlin"@)), "projectRoot"@, Json::Str(worktree_root)),
        "enableJsonLogging"@,
        Json::Bool(false),
    );
    let rooted = match project_root {
        Some(r) => defaults.insert("projectRoot"@, Json::Str(r)),
        None => defaults,
    };
    assert("type"@.len() != "mainClass"@.len());
    assert("projectRoot"@.len() != "mainClass"@.len());
    assert("enableJsonLogging"@.len() != "mainClass"@.len());
    assert("type"@.len() != "mainFile"@.len());
    assert("projectRoot"@.len() != "mainFile"@.len());
    assert("enableJsonLogging"@.len() != "mainFile"@.len());
    law_substitution_touches_only_main_class(rooted, "type"@);
    law_substitution_touches_only_main_class(rooted, "projectRoot"@);
    law_substitution_touches_only_main_class(rooted, "enableJsonLogging"@);
}

/// Preparing a GDScript or NetCoreDbg configuration a second time changes nothing.
pub proof fn law_defaults_idempotent(config: Json, worktree_root: Seq<char>)
    ensures
        gdscript_prepared(gdscript_prepared(config, worktree_root), worktree_root) == gdscript_prepared(config, worktree_root),
        netcoredbg_prepared(netcoredbg_prepared(config, worktree_root), worktree_root) == netcoredbg_prepared(config, worktree_root),
{
}

/// Configurations that are not JSON objects pass through preparation unchanged.
pub proof fn law_non_objects_pass_through(config: Json, worktree_root: Seq<char>, project_root: Option<Seq<char>>)
    requires
        !(config is Object),
    ensures
        gdscript_prepared(config, worktree_root) == config,
        netcoredbg_prepared(config, worktree_root) == config,
        kotlin_prepared(config, worktree_root, project_root) == config,
{
}

/// Substituting the main class touches no entry but `mainClass`.
pub proof fn law_substitution_touches_only_main_class(m: Map<Seq<char>, Json>, key: Seq<char>)
    requires
        key != "mainClass"@,
    ensures
        main_class_substituted(m).contains_key(key) == m.contains_key(key),
        m.contains_key(key) ==> main_class_substituted(m)[key] == m[key],
{
}

/// Each step of the project-root search leaves its outcome unchanged: a
/// directory with a build file is the root; otherwise the root is the one
/// found from the parent, or the main file's directory when there is no
/// parent. So the probes made by `ProjectRootSearch::advance` settle on
/// `nearest_build_root` of the main file's directory.
pub proof fn law_root_search_step(dir: Seq<char>, fallback: Seq<char>, has_build: spec_fn(Seq<char>) -> bool)
    ensures
        has_build(dir) ==> nearest_build_root(dir, fallback, has_build) == dir,
        !has_build(dir) && path_parent(dir) is None ==> nearest_build_root(dir, fallback, has_build) == fallback,
        forall|p: Seq<char>|
            !has_build(dir) && path_parent(dir) == Some(p) && p.len() < dir.len() ==> nearest_build_root(dir, fallback, has_build)
                == #[trigger] nearest_build_root(p, fallback, has_build),
{
}

/// The directories the search visits are, in order, the ancestors of the
/// main file's directory: the next directory is one more step up.
pub proof fn law_root_search_visits_ancestors(main_dir: Seq<char>, dir: Seq<char>, k: nat, next: Seq<char>)
    requires
        ancestor(main_dir, k) == Some(dir),
        path_parent(dir) == Some(next),
    ensures
        ancestor(main_dir, k + 1) == Some(next),
{
}

/// The root the search settles on is the main file's directory or one of
/// its ancestors.
pub proof fn law_root_is_an_ancestor(dir: Seq<char>, main_dir: Seq<char>, k: nat, has_build: spec_fn(Seq<char>) -> bool)
    requires
        ancestor(main_dir, k) == Some(dir),
    ensures
        exists|j: nat| ancestor(main_dir, j) == Some(nearest_build_root(dir, main_dir, has_build)),
    decreases dir.len(),
{
    if has_build(dir) {
        assert(ancestor(main_dir, k) == Some(nearest_build_root(dir, main_dir, has_build)));
    } else {
        match path_parent(dir) {
            Some(p) => {
                if p.len() < dir.len() {
                    assert(ancestor(main_dir, k + 1) == Some(p));
                    law_root_is_an_ancestor(p, main_dir, k + 1, has_build);
                } else {
                    assert(ancestor(main_dir, 0) == Some(nearest_build_root(dir, main_dir, has_build)));
                }
            },
            None => {
                assert(ancestor(main_dir, 0) == Some(nearest_build_root(dir, main_dir, has_build)));
            },
        }
    }
}

/// In the Kotlin adapter's environment the user's variables override the
/// shell's, and the project root variable names the configuration's project root.
pub proof fn law_kotlin_env_precedence(
    shell: Map<Seq<char>, Seq<char>>,
    user: Map<Seq<char>, Seq<char>>,
    config: Json,
    name: Seq<char>,
)
    requires
        user.contains_key(name),
        name != "ZED_KOTLIN_DAP_PROJECT_ROOT"@,
    ensures
        kotlin_env(shell, Some(user), config)[name] == user[name],
        object_str(config, "projectRoot"@) matches Some(root) ==> kotlin_env(shell, Some(user), config)["ZED_KOTLIN_DAP_PROJECT_ROOT"@] == root,
{
}

/// In the NetCoreDbg adapter's environment the configuration's variables
/// override the user's, which override the shell's.
pub proof fn law_netcoredbg_env_precedence(
    shell: Map<Seq<char>, Seq<char>>,
    user: Map<Seq<char>, Seq<char>>,
    config: Json,
    name: Seq<char>,
)
    ensures
        config_env(config).contains_key(name) ==> netcoredbg_env(shell, Some(user), config)[name] == config_env(config)[name],
        !config_env(config).contains_key(name) && user.contains_key(name) ==> netcoredbg_env(shell, Some(user), config)[name]
            == user[name],
        !config_env(config).contains_key(name) && !user.contains_key(name) && shell.contains_key(name) ==> netcoredbg_env(
            shell,
            Some(user),
            config,
        )[name] == shell[name],
{
}

/// The project root of a prepared Kotlin configuration: the discovered
/// root when the search found one; otherwise the task's own `projectRoot`
/// when it has one, and only else the worktree root.
pub proof fn law_kotlin_project_root(m: Map<Seq<char>, Json>, worktree_root: Seq<char>, project_root: Option<Seq<char>>)
    ensures
        kotlin_prepared(Json::Object(m), worktree_root, project_root)->Object_0.contains_key("projectRoot"@),
        kotlin_prepared(Json::Object(m), worktree_root, project_root)->Object_0["projectRoot"@] == (match project_root {
            Some(p) => Json::Str(p),
            None => if m.contains_key("projectRoot"@) {
                m["projectRoot"@]
            } else {
                Json::Str(worktree_root)
            },
        }),
{
    reveal_strlit("projectRoot");
    reveal_strlit("mainClass");
    reveal_strlit("mainFile");
    reveal_strlit("type");
    reveal_strlit("enableJsonLogging");
    assert("projectRoot"@.len() != "mainClass"@.len());
    assert("projectRoot"@.len() != "mainFile"@.len());
    assert("projectRoot"@.len() != "type"@.len());
    assert("projectRoot"@.len() != "enableJsonLogging"@.len());
    let defaults = with_default(
        with_default(with_default(m, "type"@, Json::Str("kotlin"@)), "projectRoot"@, Json::Str(worktree_root)),
        "enableJsonLogging"@,
        Json::Bool(false),
    );
    let rooted = match project_root {
        Some(r) => defaults.insert("projectRoot"@, Json::Str(r)),
        None => defaults,
    };
    law_substitution_touches_only_main_class(rooted, "projectRoot"@);
}

/// Substituting the main class replaces the placeholder and keeps
/// everything around it: a `mainClass` of the form `a + "$ZED_STEM" + b`,
/// with no earlier placeholder, becomes `a + stem + b'`, where `b'` is `b`
/// with its own placeholders replaced; `b' == b` when `b` has none.
pub proof fn law_main_class_keeps_text_around_placeholder(
    m: Map<Seq<char>, Json>,
    a: Seq<char>,
    b: Seq<char>,
    stem: Seq<char>,
)
    requires
        m.contains_key("mainClass"@),
        m["mainClass"@] == Json::Str(a + "$ZED_STEM"@ + b),
        forall|i: int| 0 <= i < a.len() ==> !occurs_at(a + "$ZED_STEM"@ + b, "$ZED_STEM"@, i),
        main_class_stem(m) == Some(stem),
    ensures
        main_class_substituted(m).contains_key("mainClass"@),
        main_class_substituted(m)["mainClass"@] == Json::Str(a + stem + replace_all(b, "$ZED_STEM"@, stem)),
        !contains_seq(b, "$ZED_STEM"@) ==> main_class_substituted(m)["mainClass"@] == Json::Str(a + stem + b),
{
    reveal_strlit("$ZED_STEM");
    let p = "$ZED_STEM"@;
    let s = a + p + b;
    assert(s.subrange(a.len() as int, (a.len() + p.len()) as int) =~= p);
    assert(occurs_at(s, p, a.len() as int));
    assert(contains_seq(s, p));
    lemma_replace_first_occurrence(a, p, b, stem);
    if !contains_seq(b, p) {
        lemma_replace_absent(b, p, stem);
    }
}

/// In the Kotlin adapter's environment a variable that the shell binds and
/// the user does not (no user environment binds nothing) keeps the shell's
/// value, unless it is the project root variable.
pub proof fn law_kotlin_env_keeps_shell(
    shell: Map<Seq<char>, Seq<char>>,
    user: Option<Map<Seq<char>, Seq<char>>>,
    config: Json,
    name: Seq<char>,
)
    requires
        shell.contains_key(name),
        name != "ZED_KOTLIN_DAP_PROJECT_ROOT"@,
        user matches Some(u) ==> !u.contains_key(name),
    ensures
        kotlin_env(shell, user, config).contains_key(name),
        kotlin_env(shell, user, config)[name] == shell[name],
{
}

/// In the Kotlin adapter's environment a variable the user binds has the
/// user's value, unless it is the project root variable; and that variable
/// is bound to the configuration's project root when it names one.
pub proof fn law_kotlin_env_user_and_root(
    shell: Map<Seq<char>, Seq<char>>,
    user: Option<Map<Seq<char>, Seq<char>>>,
    config: Json,
    name: Seq<char>,
)
    ensures
        user matches Some(u) ==> (u.contains_key(name) && name != "ZED_KOTLIN_DAP_PROJECT_ROOT"@ ==> kotlin_env(
            shell,
            user,
            config,
        )[name] == u[name]),
        (config matches Json::Object(m) && m.contains_key("projectRoot"@) && m["projectRoot"@] is Str) ==> kotlin_env(
            shell,
            user,
            config,
        )["ZED_KOTLIN_DAP_PROJECT_ROOT"@] == config->Object_0["projectRoot"@]->Str_0,
        !shell.contains_key(name) && (user matches Some(u) ==> !u.contains_key(name)) && name
            != "ZED_KOTLIN_DAP_PROJECT_ROOT"@ ==> !kotlin_env(shell, user, config).contains_key(name),
{
}

/// In the NetCoreDbg adapter's environment a variable that the shell binds
/// and neither the user (no user environment binds nothing) nor the
/// configuration's `env` object binds keeps the shell's value.
pub proof fn law_netcoredbg_env_keeps_shell(
    shell: Map<Seq<char>, Seq<char>>,
    user: Option<Map<Seq<char>, Seq<char>>>,
    config: Json,
    name: Seq<char>,
)
    requires
        shell.contains_key(name),
        user matches Some(u) ==> !u.contains_key(name),
        config matches Json::Object(m) ==> (m.contains_key("env"@) && m["env"@] is Object
            ==> !m["env"@]->Object_0.contains_key(name)),
    ensures
        netcoredbg_env(shell, user, config).contains_key(name),
        netcoredbg_env(shell, user, config)[name] == shell[name],
{
}

/// In the NetCoreDbg adapter's environment a string that the
/// configuration's `env` object binds wins; otherwise a variable the user
/// binds has the user's value.
pub proof fn law_netcoredbg_env_config_and_user(
    shell: Map<Seq<char>, Seq<char>>,
    user: Option<Map<Seq<char>, Seq<char>>>,
    env: Map<Seq<char>, Json>,
    rest: Map<Seq<char>, Json>,
    name: Seq<char>,
)
    ensures
        ({
            let config = Json::Object(rest.insert("env"@, Json::Object(env)));
            &&& env.contains_key(name) && env[name] is Str ==> netcoredbg_env(shell, user, config).contains_key(name)
                && netcoredbg_env(shell, user, config)[name] == env[name]->Str_0
            &&& !env.contains_key(name) ==> (user matches Some(u) ==> (u.contains_key(name) ==> netcoredbg_env(
                shell,
                user,
                config,
            )[name] == u[name]))
        }),
{
}

/// A NetCoreDbg launch scenario carries `stopAtEntry` exactly when the
/// editor chose whether to stop at entry, with the value chosen.
pub proof fn law_netcoredbg_stop_at_entry(cfg: ZedDebugConfig)
    requires
        cfg.request is Launch,
    ensures
        netcoredbg_scenario_config(cfg).contains_key("stopAtEntry"@) == (cfg.stop_on_entry is Some),
        cfg.stop_on_entry matches Some(b) ==> netcoredbg_scenario_config(cfg)["stopAtEntry"@] == Json::Bool(b),
{
    reveal_strlit("stopAtEntry");
    reveal_strlit("cwd");
    reveal_strlit("request");
    reveal_strlit("program");
    reveal_strlit("args");
    reveal_strlit("env");
    assert("stopAtEntry"@.len() != "cwd"@.len());
    assert("stopAtEntry"@.len() != "request"@.len());
    assert("stopAtEntry"@.len() != "program"@.len());
    assert("stopAtEntry"@.len() != "args"@.len());
    assert("stopAtEntry"@.len() != "env"@.len());
}

/// The user's variables override the shell's; the shell's variables the
/// user does not bind are kept; nothing else is bound.
pub proof fn law_user_over_shell(
    shell: Map<Seq<char>, Seq<char>>,
    user: Option<Map<Seq<char>, Seq<char>>>,
    name: Seq<char>,
)
    ensures
        user matches Some(u) ==> (u.contains_key(name) ==> user_over_shell(shell, user).contains_key(name)
            && user_over_shell(shell, user)[name] == u[name]),
        shell.contains_key(name) && (user matches Some(u) ==> !u.contains_key(name)) ==> user_over_shell(
            shell,
            user,
        ).contains_key(name) && user_over_shell(shell, user)[name] == shell[name],
        user_over_shell(shell, user).contains_key(name) ==> shell.contains_key(name) || (user matches Some(u)
            && u.contains_key(name)),
{
}

/// The stem put in place of the placeholder is the main file's stem when
/// there is one, and otherwise the last component of the project root.
pub proof fn law_main_class_stem_source(m: Map<Seq<char>, Json>)
    ensures
        stem_from_main_file_spec(m) is Some ==> main_class_stem(m) == stem_from_main_file_spec(m),
        stem_from_main_file_spec(m) is None ==> main_class_stem(m) == stem_from_project_root_spec(m),
{
}

/// Missing settings get the adapters' defaults: GDScript's `type`
/// `gdscript`, `cwd` the worktree root and `args` empty; NetCoreDbg's `cwd`
/// the worktree root; Kotlin's `type` `kotlin` and `enableJsonLogging` false.
pub proof fn law_defaults_fill_missing(m: Map<Seq<char>, Json>, worktree_root: Seq<char>, project_root: Option<Seq<char>>)
    ensures
        !m.contains_key("type"@) ==> gdscript_prepared(Json::Object(m), worktree_root)->Object_0["type"@] == Json::Str(
            "gdscript"@,
        ),
        !m.contains_key("cwd"@) ==> gdscript_prepared(Json::Object(m), worktree_root)->Object_0["cwd"@] == Json::Str(
            worktree_root,
        ),
        !m.contains_key("args"@) ==> gdscript_prepared(Json::Object(m), worktree_root)->Object_0["args"@] == Json::Str(
            Seq::empty(),
        ),
        !m.contains_key("cwd"@) ==> netcoredbg_prepared(Json::Object(m), worktree_root)->Object_0["cwd"@] == Json::Str(
            worktree_root,
        ),
        !m.contains_key("type"@) ==> kotlin_prepared(Json::Object(m), worktree_root, project_root)->Object_0["type"@]
            == Json::Str("kotlin"@),
        !m.contains_key("enableJsonLogging"@) ==> kotlin_prepared(Json::Object(m), worktree_root, project_root)->Object_0[
            "enableJsonLogging"@] == Json::Bool(false),
{
    reveal_strlit("type");
    reveal_strlit("cwd");
    reveal_strlit("args");
    reveal_strlit("");
    assert(""@ =~= Seq::<char>::empty());
    reveal_strlit("projectRoot");
    reveal_strlit("mainClass");
    reveal_strlit("mainFile");
    reveal_strlit("enableJsonLogging");
    assert("type"@[0] != "args"@[0]);
    assert("type"@.len() != "cwd"@.len());
    assert("args"@.len() != "cwd"@.len());
    assert("type"@.len() != "projectRoot"@.len());
    assert("type"@.len() != "enableJsonLogging"@.len());
    assert("type"@.len() != "mainClass"@.len());
    assert("type"@.len() != "mainFile"@.len());
    assert("enableJsonLogging"@.len() != "projectRoot"@.len());
    assert("enableJsonLogging"@.len() != "mainClass"@.len());
    assert("enableJsonLogging"@.len() != "mainFile"@.len());
    let defaults = with_default(
        with_default(with_default(m, "type"@, Json::Str("kotlin"@)), "projectRoot"@, Json::Str(worktree_root)),
        "enableJsonLogging"@,
        Json::Bool(false),
    );
    let rooted = match project_root {
        Some(r) => defaults.insert("projectRoot"@, Json::Str(r)),
        None => defaults,
    };
    law_substitution_touches_only_main_class(rooted, "type"@);
    law_substitution_touches_only_main_class(rooted, "enableJsonLogging"@);
}

/// A Kotlin attach scenario connects to `localhost` on the process id the
/// editor gave, or port 5005 when it gave none, with a 2000 ms timeout,
/// under the configuration's label.
pub proof fn law_kotlin_attach_connection(cfg: ZedDebugConfig)
    requires
        cfg.request is Attach,
    ensures
        kotlin_scenario_config(cfg)["hostName"@] == Json::Str("localhost"@),
        kotlin_scenario_config(cfg)["port"@] == Json::Int(match cfg.request->Attach_0.process_id {
            Some(p) => p as int,
            None => 5005,
        }),
        kotlin_scenario_config(cfg)["timeout"@] == Json::Int(2000),
        kotlin_scenario_config(cfg)["name"@] == Json::Str(cfg.label@),
        kotlin_scenario_config(cfg)["type"@] == Json::Str("kotlin"@),
{
    reveal_strlit("request");
    reveal_strlit("type");
    reveal_strlit("name");
    reveal_strlit("hostName");
    reveal_strlit("port");
    reveal_strlit("timeout");
    assert("type"@[0] != "name"@[0]);
    assert("type"@[0] != "port"@[0]);
    assert("name"@[0] != "port"@[0]);
    assert("request"@[0] != "timeout"@[0]);
    assert("hostName"@.len() != "port"@.len());
    assert("hostName"@.len() != "timeout"@.len());
    assert("port"@.len() != "timeout"@.len());
    assert("name"@.len() != "timeout"@.len());
    assert("type"@.len() != "timeout"@.len());
    assert("name"@.len() != "hostName"@.len());
    assert("type"@.len() != "hostName"@.len());
    assert("request"@.len() != "hostName"@.len());
    assert("request"@.len() != "port"@.len());
    assert("request"@.len() != "name"@.len());
    assert("request"@.len() != "type"@.len());
}

/// A launch scenario names the program to debug (GDScript and NetCoreDbg),
/// carries the configuration's label as its name (GDScript and Kotlin), and
/// takes the chosen working directory (`cwd`, or Kotlin's `projectRoot`)
/// when there is one.
pub proof fn law_launch_scenario_fields(cfg: ZedDebugConfig)
    requires
        cfg.request is Launch,
    ensures
        gdscript_launch_entries(Map::empty(), cfg)["program"@] == Json::Str(cfg.request->Launch_0.program@),
        netcoredbg_scenario_config(cfg)["program"@] == Json::Str(cfg.request->Launch_0.program@),
        gdscript_launch_entries(Map::empty(), cfg)["name"@] == Json::Str(cfg.label@),
        kotlin_scenario_config(cfg)["name"@] == Json::Str(cfg.label@),
        cfg.request->Launch_0.cwd matches Some(c) ==> gdscript_launch_entries(Map::empty(), cfg)["cwd"@] == Json::Str(c@)
            && netcoredbg_scenario_config(cfg)["cwd"@] == Json::Str(c@) && kotlin_scenario_config(cfg)["projectRoot"@]
            == Json::Str(c@),
{
    reveal_strlit("request");
    reveal_strlit("type");
    reveal_strlit("name");
    reveal_strlit("program");
    reveal_strlit("args");
    reveal_strlit("cwd");
    reveal_strlit("env");
    reveal_strlit("stopAtEntry");
    reveal_strlit("projectRoot");
    assert("request"@[0] != "program"@[0]);
    assert("name"@[0] != "type"@[0]);
    assert("name"@[0] != "args"@[0]);
    assert("program"@.len() != "name"@.len());
    assert("program"@.len() != "type"@.len());
    assert("program"@.len() != "args"@.len());
    assert("program"@.len() != "cwd"@.len());
    assert("program"@.len() != "env"@.len());
    assert("program"@.len() != "stopAtEntry"@.len());
    assert("name"@.len() != "program"@.len());
    assert("name"@.len() != "cwd"@.len());
    assert("name"@.len() != "projectRoot"@.len());
    assert("name"@.len() != "request"@.len());
    assert("cwd"@[0] != "env"@[0]);
}

} // verus!
