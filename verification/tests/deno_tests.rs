use nixpacks::app::{App, ManifestFile, SourceFile};
use nixpacks::environment::{Environment, EnvironmentVariables};
use nixpacks::nix::NIXPACKS_ARCHIVE_LATEST_DENO;
use nixpacks::providers::deno::{DenoJson, DenoProvider, DenoTasks};

fn bare_app() -> App {
    App {
        files: Vec::new(),
        sources: Vec::new(),
        package_json: ManifestFile::Absent,
        deno_json: ManifestFile::Absent,
        deno_jsonc: ManifestFile::Absent,
        pixi_toml: ManifestFile::Absent,
    }
}

/// A tree like the Deno example project: a configuration file with a start
/// task, and an entry file beside it.
fn deno2_app() -> App {
    let mut app = bare_app();
    app.files = vec!["deno.json".to_string(), "main.ts".to_string()];
    app.deno_json = ManifestFile::Parsed(DenoJson {
        tasks: Some(DenoTasks { start: Some("deno run main.ts".to_string()) }),
    });
    app
}

fn empty_env() -> Environment {
    Environment::new(EnvironmentVariables::new())
}

#[test]
fn test_deno2() {
    let deno = DenoProvider {};
    assert_eq!(
        deno.get_build_plan(
            &deno2_app(),
            &Environment::from_envs(vec!["NIXPACKS_USE_DENO_2=1"]).unwrap()
        )
        .unwrap()
        .unwrap()
        .get_phase("setup")
        .unwrap()
        .nixpkgs_archive
        .as_ref()
        .unwrap(),
        &NIXPACKS_ARCHIVE_LATEST_DENO.to_string()
    );
}

#[test]
fn test_deno_archive_not_pinned_by_default() {
    let deno = DenoProvider {};
    let plan = deno.get_build_plan(&deno2_app(), &empty_env()).unwrap().unwrap();
    assert!(plan.get_phase("setup").unwrap().nixpkgs_archive.is_none());

    let env = Environment::from_envs(vec!["NIXPACKS_USE_DENO_2=0"]).unwrap();
    let plan = deno.get_build_plan(&deno2_app(), &env).unwrap().unwrap();
    assert!(plan.get_phase("setup").unwrap().nixpkgs_archive.is_none());

    let env = Environment::from_envs(vec!["NIXPACKS_USE_DENO_2=true"]).unwrap();
    let plan = deno.get_build_plan(&deno2_app(), &env).unwrap().unwrap();
    assert_eq!(
        plan.get_phase("setup").unwrap().nixpkgs_archive,
        Some(NIXPACKS_ARCHIVE_LATEST_DENO.to_string())
    );
}

#[test]
fn test_deno_detects_manifest() {
    let deno = DenoProvider {};
    let env = empty_env();
    assert!(deno.detect(&deno2_app(), &env).unwrap());

    let mut app = bare_app();
    app.files = vec!["deno.jsonc".to_string()];
    app.deno_jsonc = ManifestFile::Parsed(DenoJson { tasks: None });
    assert!(deno.detect(&app, &env).unwrap());
}

#[test]
fn test_deno_detects_import_without_manifest() {
    let deno = DenoProvider {};
    let env = empty_env();
    let mut app = bare_app();
    app.files = vec!["main.ts".to_string()];
    app.sources = vec![SourceFile {
        path: "main.ts".to_string(),
        content: "import { serve } from \"https://deno.land/std/http/server.ts\";\n".to_string(),
    }];
    assert!(deno.detect(&app, &env).unwrap());
}

#[test]
fn test_deno_ignores_plain_script_and_foreign_manifest() {
    let deno = DenoProvider {};
    let env = empty_env();

    // A script file without the import convention is not detected.
    let mut app = bare_app();
    app.files = vec!["main.ts".to_string()];
    app.sources = vec![SourceFile {
        path: "main.ts".to_string(),
        content: "console.log(\"hello\");\n".to_string(),
    }];
    assert!(!deno.detect(&app, &env).unwrap());

    // A tree holding only another ecosystem's package manifest is not
    // detected either.
    let mut app = bare_app();
    app.files = vec!["package.json".to_string()];
    assert!(!deno.detect(&app, &env).unwrap());
}

#[test]
fn test_deno_detect_twice_same_answer() {
    let deno = DenoProvider {};
    let env = empty_env();
    let app = deno2_app();
    let first = deno.detect(&app, &env).unwrap();
    let second = deno.detect(&app, &env).unwrap();
    assert_eq!(first, second);
    let other = bare_app();
    assert_eq!(deno.detect(&other, &env).unwrap(), deno.detect(&other, &env).unwrap());
}

#[test]
fn test_deno_start_cmd_prefers_task() {
    let app = deno2_app();
    assert_eq!(DenoProvider::get_start_cmd(&app).unwrap(), Some("deno run main.ts".to_string()));
}

#[test]
fn test_deno_start_and_build_from_entry_file() {
    let mut app = bare_app();
    app.files = vec!["README.md".to_string(), "src/index.ts".to_string()];
    assert_eq!(DenoProvider::get_start_file(&app).unwrap(), Some("src/index.ts".to_string()));
    assert_eq!(
        DenoProvider::get_build_cmd(&app).unwrap(),
        Some("deno cache src/index.ts".to_string())
    );
    assert_eq!(
        DenoProvider::get_start_cmd(&app).unwrap(),
        Some("deno run --allow-all src/index.ts".to_string())
    );
}

#[test]
fn test_deno_no_entry_file_no_commands() {
    let mut app = bare_app();
    app.files = vec!["README.md".to_string(), "indexing.ts".to_string()];
    assert_eq!(DenoProvider::get_start_file(&app).unwrap(), None);
    assert_eq!(DenoProvider::get_build_cmd(&app).unwrap(), None);
    assert_eq!(DenoProvider::get_start_cmd(&app).unwrap(), None);
}

#[test]
fn test_deno_plan_build_phase_depends_on_setup() {
    let deno = DenoProvider {};
    let mut app = deno2_app();
    app.files.push("index.ts".to_string());
    let plan = deno.get_build_plan(&app, &empty_env()).unwrap().unwrap();
    let build = plan.get_phase("build").unwrap();
    assert_eq!(build.cmds, Some(vec!["deno cache index.ts".to_string()]));
    assert_eq!(build.depends_on, Some(vec!["setup".to_string()]));
    assert_eq!(plan.start_phase.as_ref().unwrap().cmd, "deno run main.ts".to_string());
}
