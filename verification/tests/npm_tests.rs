use nixpacks::app::{App, ManifestFile};
use nixpacks::environment::{Environment, EnvironmentVariables, NamedValue};
use nixpacks::error::ProviderError;
use nixpacks::nix::Pkg;
use nixpacks::providers::npm::{
    version_number_to_pkg, NpmProvider, PackageJson, DEFAULT_NODE_PKG_NAME,
};

fn engines_node(version: &str) -> Option<Vec<NamedValue>> {
    Some(vec![NamedValue { name: "node".to_string(), value: version.to_string() }])
}

fn bare_app() -> App {
    App {
        files: Vec::new(),
        sources: Vec::new(),
        package_json: ManifestFile::Absent,
        deno_json: ManifestFile::Absent,
        deno_jsonc: ManifestFile::Absent,
        pixi_toml: ManifestFile::Absent,
    }
}

fn app_with_package_json(package_json: PackageJson) -> App {
    let mut app = bare_app();
    app.files = vec!["package.json".to_string()];
    app.package_json = ManifestFile::Parsed(package_json);
    app
}

fn empty_env() -> Environment {
    Environment::new(EnvironmentVariables::new())
}

#[test]
fn test_no_engines() -> Result<(), ProviderError> {
    assert_eq!(
        NpmProvider::get_nix_node_pkg(&PackageJson {
            name: String::default(),
            main: None,
            scripts: None,
            engines: None
        })?,
        Pkg::new(DEFAULT_NODE_PKG_NAME)
    );

    Ok(())
}

#[test]
fn test_star_engine() -> Result<(), ProviderError> {
    assert_eq!(
        NpmProvider::get_nix_node_pkg(&PackageJson {
            name: String::default(),
            main: None,
            scripts: None,
            engines: engines_node("*")
        })?,
        Pkg::new(DEFAULT_NODE_PKG_NAME)
    );

    Ok(())
}

#[test]
fn test_simple_engine() -> Result<(), ProviderError> {
    assert_eq!(
        NpmProvider::get_nix_node_pkg(&PackageJson {
            name: String::default(),
            main: None,
            scripts: None,
            engines: engines_node("14"),
        })?,
        Pkg::new("nodejs-14_x")
    );

    Ok(())
}

#[test]
fn test_simple_engine_x() -> Result<(), ProviderError> {
    assert_eq!(
        NpmProvider::get_nix_node_pkg(&PackageJson {
            name: String::default(),
            main: None,
            scripts: None,
            engines: engines_node("12.x"),
        })?,
        Pkg::new("nodejs-12_x")
    );

    Ok(())
}

#[test]
fn test_engine_range() -> Result<(), ProviderError> {
    assert_eq!(
        NpmProvider::get_nix_node_pkg(&PackageJson {
            name: String::default(),
            main: None,
            scripts: None,
            engines: engines_node(">=14.10.3 <16"),
        })?,
        Pkg::new("nodejs-14_x")
    );

    Ok(())
}

#[test]
fn test_engine_invalid_version() -> Result<(), ProviderError> {
    assert!(NpmProvider::get_nix_node_pkg(&PackageJson {
        name: String::default(),
        main: None,
        scripts: None,
        engines: engines_node("15"),
    })
    .is_err());

    Ok(())
}

#[test]
fn test_engine_invalid_version_names_value() {
    let r = NpmProvider::get_nix_node_pkg(&PackageJson {
        name: String::default(),
        main: None,
        scripts: None,
        engines: engines_node("15"),
    });
    assert_eq!(r.unwrap_err(), ProviderError::UnsupportedNodeVersion(15));

    let r = NpmProvider::get_nix_node_pkg(&PackageJson {
        name: String::default(),
        main: None,
        scripts: None,
        engines: engines_node(">=11"),
    });
    assert_eq!(r.unwrap_err(), ProviderError::UnsupportedNodeVersion(11));
}

#[test]
fn test_version_number_to_pkg_values() {
    assert_eq!(version_number_to_pkg(&16).unwrap(), Some("nodejs-16_x".to_string()));
    assert_eq!(version_number_to_pkg(&10).unwrap(), Some("nodejs-10_x".to_string()));
    assert_eq!(
        version_number_to_pkg(&15).unwrap_err(),
        ProviderError::UnsupportedNodeVersion(15)
    );
}

#[test]
fn test_npm_detect_needs_manifest() {
    let npm = NpmProvider {};
    let env = empty_env();
    assert!(!npm.detect(&bare_app(), &env).unwrap());
    let app = app_with_package_json(PackageJson {
        name: String::default(),
        main: None,
        scripts: None,
        engines: None,
    });
    assert!(npm.detect(&app, &env).unwrap());
}

#[test]
fn test_npm_start_command_chain() {
    let npm = NpmProvider {};
    let env = empty_env();

    // A declared start script wins.
    let app = app_with_package_json(PackageJson {
        name: String::default(),
        main: Some("server.js".to_string()),
        scripts: Some(vec![NamedValue {
            name: "start".to_string(),
            value: "node boot.js".to_string(),
        }]),
        engines: None,
    });
    assert_eq!(
        npm.suggested_start_command(&app, &env).unwrap(),
        Some("npm run start".to_string())
    );

    // Else the declared main entry, when the file exists.
    let mut app = app_with_package_json(PackageJson {
        name: String::default(),
        main: Some("server.js".to_string()),
        scripts: None,
        engines: None,
    });
    app.files.push("server.js".to_string());
    assert_eq!(npm.suggested_start_command(&app, &env).unwrap(), Some("node server.js".to_string()));

    // A declared main whose file is missing falls through to the
    // conventional entry file.
    let mut app = app_with_package_json(PackageJson {
        name: String::default(),
        main: Some("server.js".to_string()),
        scripts: None,
        engines: None,
    });
    app.files.push("index.js".to_string());
    assert_eq!(npm.suggested_start_command(&app, &env).unwrap(), Some("node index.js".to_string()));

    // Nothing declared, nothing conventional: absent.
    let app = app_with_package_json(PackageJson {
        name: String::default(),
        main: None,
        scripts: None,
        engines: None,
    });
    assert_eq!(npm.suggested_start_command(&app, &env).unwrap(), None);
}

#[test]
fn test_npm_build_cmd_gated_by_script() {
    let npm = NpmProvider {};
    let env = empty_env();
    let app = app_with_package_json(PackageJson {
        name: String::default(),
        main: None,
        scripts: Some(vec![NamedValue {
            name: "build".to_string(),
            value: "tsc".to_string(),
        }]),
        engines: None,
    });
    assert_eq!(npm.suggested_build_cmd(&app, &env).unwrap(), Some("npm run build".to_string()));

    let app = app_with_package_json(PackageJson {
        name: String::default(),
        main: None,
        scripts: Some(Vec::new()),
        engines: None,
    });
    assert_eq!(npm.suggested_build_cmd(&app, &env).unwrap(), None);
}

#[test]
fn test_npm_malformed_manifest_is_error() {
    let npm = NpmProvider {};
    let env = empty_env();
    let mut app = bare_app();
    app.files = vec!["package.json".to_string()];
    app.package_json = ManifestFile::Unreadable;
    assert_eq!(npm.pkgs(&app, &env).unwrap_err(), ProviderError::MalformedManifest);
    let mut app = bare_app();
    app.package_json = ManifestFile::Absent;
    assert_eq!(
        npm.suggested_build_cmd(&app, &env).unwrap_err(),
        ProviderError::MissingManifest
    );
}

#[test]
fn test_node_environment_variables() {
    let vars = NpmProvider::get_node_environment_variables();
    assert_eq!(vars.get("NODE_ENV"), Some("production".to_string()));
    assert_eq!(vars.get("NPM_CONFIG_PRODUCTION"), Some("false".to_string()));
    assert_eq!(vars.get("NODE_OPTIONS"), None);
}
