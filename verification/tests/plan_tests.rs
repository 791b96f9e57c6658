use nixpacks::app::{App, ManifestFile, SourceFile};
use nixpacks::environment::{Environment, EnvironmentVariables, NamedValue};
use nixpacks::error::ProviderError;
use nixpacks::plan::{BuildPlan, Phase, StartPhase};
use nixpacks::providers::npm::PackageJson;
use nixpacks::registry::{detect_provider, generate_build_plan, ProviderKind};

fn bare_app() -> App {
    App {
        files: Vec::new(),
        sources: Vec::new(),
        package_json: ManifestFile::Absent,
        deno_json: ManifestFile::Absent,
        deno_jsonc: ManifestFile::Absent,
        pixi_toml: ManifestFile::Absent,
    }
}

fn empty_env() -> Environment {
    Environment::new(EnvironmentVariables::new())
}

#[test]
fn test_environment_from_envs() {
    let env = Environment::from_envs(vec!["A=1", "B=x=y", "A=2"]).unwrap();
    // Splitting happens at the first separator; later entries override
    // earlier ones for the same name.
    assert_eq!(env.get_variable("B"), Some("x=y".to_string()));
    assert_eq!(env.get_variable("A"), Some("2".to_string()));
    assert_eq!(env.get_variable("C"), None);

    assert_eq!(
        Environment::from_envs(vec!["A=1", "NOSEPARATOR"]).unwrap_err(),
        ProviderError::InvalidEnvironmentVariable
    );
}

#[test]
fn test_config_variable_truthy() {
    let env = Environment::from_envs(vec![
        "NIXPACKS_FLAG_A=1",
        "NIXPACKS_FLAG_B=true",
        "NIXPACKS_FLAG_C=0",
        "FLAG_D=1",
    ])
    .unwrap();
    assert!(env.is_config_variable_truthy("FLAG_A"));
    assert!(env.is_config_variable_truthy("FLAG_B"));
    assert!(!env.is_config_variable_truthy("FLAG_C"));
    // Only the namespaced name counts.
    assert!(!env.is_config_variable_truthy("FLAG_D"));
}

#[test]
fn test_environment_variables_override() {
    let mut vars = EnvironmentVariables::new();
    vars.insert("KEY", "first");
    vars.insert("KEY", "second");
    assert_eq!(vars.get("KEY"), Some("second".to_string()));
}

#[test]
fn test_plan_add_phase_and_get_phase() {
    let mut plan = BuildPlan::default();
    assert!(plan.get_phase("setup").is_none());

    let mut setup = Phase::new("setup");
    setup.add_cmd("true");
    plan.add_phase(setup);
    assert_eq!(plan.get_phase("setup").unwrap().cmds, Some(vec!["true".to_string()]));

    // Adding a phase under an existing name replaces it.
    let replacement = Phase::new("setup");
    plan.add_phase(replacement);
    assert_eq!(plan.get_phase("setup").unwrap().cmds, None);
    assert!(plan.get_phase("install").is_none());
}

#[test]
fn test_set_start_phase_last_write_wins() {
    let mut plan = BuildPlan::default();
    plan.set_start_phase(StartPhase::new("first".to_string()));
    plan.set_start_phase(StartPhase::new("second".to_string()));
    assert_eq!(plan.start_phase.unwrap().cmd, "second".to_string());
}

#[test]
fn test_provider_names() {
    assert_eq!(ProviderKind::Deno.name(), "deno");
    assert_eq!(ProviderKind::Npm.name(), "node");
    assert_eq!(ProviderKind::Pixi.name(), "pixi");
}

#[test]
fn test_registry_priority_order() {
    let env = empty_env();

    // A tree carrying both Deno and Node conventions goes to the earlier
    // provider in the priority list.
    let mut app = bare_app();
    app.files = vec!["deno.json".to_string(), "package.json".to_string()];
    assert_eq!(detect_provider(&app, &env).unwrap(), Some(ProviderKind::Deno));

    let mut app = bare_app();
    app.files = vec!["package.json".to_string()];
    assert_eq!(detect_provider(&app, &env).unwrap(), Some(ProviderKind::Npm));

    let mut app = bare_app();
    app.files = vec!["pixi.toml".to_string()];
    assert_eq!(detect_provider(&app, &env).unwrap(), Some(ProviderKind::Pixi));

    assert_eq!(detect_provider(&bare_app(), &env).unwrap(), None);
}

#[test]
fn test_detect_provider_twice_same_answer() {
    let env = empty_env();
    let mut app = bare_app();
    app.files = vec!["package.json".to_string()];
    app.sources = vec![SourceFile {
        path: "a.ts".to_string(),
        content: "console.log(1);".to_string(),
    }];
    assert_eq!(detect_provider(&app, &env).unwrap(), detect_provider(&app, &env).unwrap());
}

#[test]
fn test_generic_plan_phases_and_edges() {
    let env = empty_env();
    let mut app = bare_app();
    app.files = vec!["package.json".to_string()];
    app.package_json = ManifestFile::Parsed(PackageJson {
        name: "demo".to_string(),
        main: None,
        scripts: Some(vec![
            NamedValue { name: "build".to_string(), value: "tsc".to_string() },
            NamedValue { name: "start".to_string(), value: "node dist/main.js".to_string() },
        ]),
        engines: None,
    });

    let plan = generate_build_plan(&ProviderKind::Npm, &app, &env).unwrap();

    let setup = plan.get_phase("setup").unwrap();
    let pkg_names: Vec<&str> =
        setup.nix_pkgs.as_ref().unwrap().iter().map(|p| p.name.as_str()).collect();
    assert_eq!(pkg_names, vec!["pkgs.stdenv", "pkgs.nodejs"]);
    assert_eq!(setup.depends_on, None);

    let install = plan.get_phase("install").unwrap();
    assert_eq!(install.cmds, Some(vec!["npm install".to_string()]));
    assert_eq!(install.depends_on, Some(vec!["setup".to_string()]));

    let build = plan.get_phase("build").unwrap();
    assert_eq!(build.cmds, Some(vec!["npm run build".to_string()]));
    assert_eq!(build.depends_on, Some(vec!["install".to_string()]));

    assert!(plan.get_phase("release").is_none());

    assert_eq!(plan.start_phase.as_ref().unwrap().cmd, "npm run start".to_string());
    let vars = plan.variables.as_ref().unwrap();
    assert_eq!(vars.get("NODE_ENV"), Some("production".to_string()));
}

#[test]
fn test_generic_plan_omits_build_without_script() {
    let env = empty_env();
    let mut app = bare_app();
    app.files = vec!["package.json".to_string()];
    app.package_json = ManifestFile::Parsed(PackageJson {
        name: "demo".to_string(),
        main: None,
        scripts: None,
        engines: None,
    });

    let plan = generate_build_plan(&ProviderKind::Npm, &app, &env).unwrap();
    assert!(plan.get_phase("setup").is_some());
    assert!(plan.get_phase("install").is_some());
    assert!(plan.get_phase("build").is_none());
    assert!(plan.start_phase.is_none());
}

#[test]
fn test_generic_plan_propagates_version_error() {
    let env = empty_env();
    let mut app = bare_app();
    app.files = vec!["package.json".to_string()];
    app.package_json = ManifestFile::Parsed(PackageJson {
        name: "demo".to_string(),
        main: None,
        scripts: None,
        engines: Some(vec![NamedValue { name: "node".to_string(), value: "15".to_string() }]),
    });

    assert_eq!(
        generate_build_plan(&ProviderKind::Npm, &app, &env).unwrap_err(),
        ProviderError::UnsupportedNodeVersion(15)
    );
}
