use nixpacks::app::{App, ManifestFile};
use nixpacks::environment::{Environment, EnvironmentVariables};
use nixpacks::error::ProviderError;
use nixpacks::providers::pixi::{PixiProvider, PixiTasks, PixiToml};

fn pixi_app(toml: ManifestFile<PixiToml>) -> App {
    App {
        files: vec!["pixi.toml".to_string()],
        sources: Vec::new(),
        package_json: ManifestFile::Absent,
        deno_json: ManifestFile::Absent,
        deno_jsonc: ManifestFile::Absent,
        pixi_toml: toml,
    }
}

fn empty_env() -> Environment {
    Environment::new(EnvironmentVariables::new())
}

#[test]
fn test_pixi_detects_manifest() {
    let pixi = PixiProvider;
    let env = empty_env();
    let app = pixi_app(ManifestFile::Parsed(PixiToml {
        tasks: PixiTasks { build: false, start: true },
    }));
    assert!(pixi.detect(&app, &env).unwrap());

    let mut other = pixi_app(ManifestFile::Absent);
    other.files = Vec::new();
    assert!(!pixi.detect(&other, &env).unwrap());
}

#[test]
fn test_pixi_build_task_gates_build_phase() {
    let pixi = PixiProvider;
    let env = empty_env();

    let with_build = pixi_app(ManifestFile::Parsed(PixiToml {
        tasks: PixiTasks { build: true, start: true },
    }));
    let plan = pixi.get_build_plan(&with_build, &env).unwrap().unwrap();
    let build = plan.get_phase("build").unwrap();
    assert_eq!(build.cmds, Some(vec!["~/.pixi/bin/pixi run build".to_string()]));

    let without_build = pixi_app(ManifestFile::Parsed(PixiToml {
        tasks: PixiTasks { build: false, start: true },
    }));
    let plan = pixi.get_build_plan(&without_build, &env).unwrap().unwrap();
    assert!(plan.get_phase("build").is_none());
}

#[test]
fn test_pixi_missing_start_task_errors() {
    let pixi = PixiProvider;
    let env = empty_env();

    // Even with a build task declared, a missing start task is a hard error.
    let app = pixi_app(ManifestFile::Parsed(PixiToml {
        tasks: PixiTasks { build: true, start: false },
    }));
    assert_eq!(pixi.get_build_plan(&app, &env).unwrap_err(), ProviderError::MissingStartTask);

    let app = pixi_app(ManifestFile::Parsed(PixiToml {
        tasks: PixiTasks { build: false, start: false },
    }));
    assert_eq!(pixi.get_build_plan(&app, &env).unwrap_err(), ProviderError::MissingStartTask);
}

#[test]
fn test_pixi_manifest_errors_propagate() {
    let pixi = PixiProvider;
    let env = empty_env();
    let app = pixi_app(ManifestFile::Absent);
    assert_eq!(pixi.get_build_plan(&app, &env).unwrap_err(), ProviderError::MissingManifest);
    let app = pixi_app(ManifestFile::Unreadable);
    assert_eq!(pixi.get_build_plan(&app, &env).unwrap_err(), ProviderError::MalformedManifest);
}

#[test]
fn test_pixi_plan_shape() {
    let pixi = PixiProvider;
    let env = empty_env();
    let app = pixi_app(ManifestFile::Parsed(PixiToml {
        tasks: PixiTasks { build: false, start: true },
    }));
    let plan = pixi.get_build_plan(&app, &env).unwrap().unwrap();

    let setup = plan.get_phase("setup").unwrap();
    assert_eq!(setup.cmds, Some(vec!["curl -fsSL https://pixi.sh/install.sh | bash".to_string()]));
    assert_eq!(setup.only_include_files, Some(Vec::new()));

    let install = plan.get_phase("install").unwrap();
    assert_eq!(install.cmds, Some(vec!["~/.pixi/bin/pixi install".to_string()]));
    assert_eq!(
        install.only_include_files,
        Some(vec!["pixi.toml".to_string(), "pixi.lock".to_string()])
    );

    assert_eq!(plan.start_phase.as_ref().unwrap().cmd, "~/.pixi/bin/pixi run start".to_string());
}
