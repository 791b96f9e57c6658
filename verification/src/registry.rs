//! The provider registry: a fixed, ordered list of ecosystem providers,
//! evaluated in priority order; the first whose detection matches is chosen.
//! For the chosen provider, either its custom plan is taken as it stands, or
//! — when it offers none — the generic assembly path composes the
//! conventional setup, install and build phases from its package, command
//! and environment derivations.

use vstd::prelude::*;

use crate::app::{file_listed, App, ManifestFile};
use crate::environment::Environment;
use crate::error::ProviderError;
use crate::plan::{
    no_cmds, no_deps, single_cmd, single_dep, BuildPlan, Phase, StartPhase,
};
use crate::providers::deno::{deno_detected, deno_plan_matches, deno_start_cmd_of, DenoProvider};
use crate::providers::npm::{
    node_constraint, node_environment_variables_spec, node_pkg_resolution, script_of,
    start_command_of, NpmProvider, PackageJson,
};
use crate::providers::pixi::{pixi_plan_matches, PixiProvider};

verus! {

/// The closed set of supported ecosystems, one provider each.
#[derive(Clone, Copy, Debug, PartialEq, Eq, Structural)]
pub enum ProviderKind {
    Deno,
    Npm,
    Pixi,
}

/// Whether the given provider's conventions are present in the tree.
pub open spec fn provider_detected(kind: ProviderKind, app: App, env: Environment) -> bool {
    match kind {
        ProviderKind::Deno => deno_detected(app),
        ProviderKind::Npm => file_listed(app, "package.json"@),
        ProviderKind::Pixi => file_listed(app, "pixi.toml"@),
    }
}

/// The first provider, in priority order, whose detection matches.
pub open spec fn detected_provider(app: App, env: Environment) -> Option<ProviderKind> {
    if deno_detected(app) {
        Some(ProviderKind::Deno)
    } else if file_listed(app, "package.json"@) {
        Some(ProviderKind::Npm)
    } else if file_listed(app, "pixi.toml"@) {
        Some(ProviderKind::Pixi)
    } else {
        None
    }
}

impl ProviderKind {
    pub fn name(&self) -> (r: &'static str)
        ensures
            match *self {
                ProviderKind::Deno => r@ == "deno"@,
                ProviderKind::Npm => r@ == "node"@,
                ProviderKind::Pixi => r@ == "pixi"@,
            },
    {
        match self {
            ProviderKind::Deno => DenoProvider {}.name(),
            ProviderKind::Npm => NpmProvider {}.name(),
            ProviderKind::Pixi => PixiProvider {}.name(),
        }
    }

    /// Detection is read-only and side-effect-free: the answer is a function
    /// of the tree and the configuration alone.
    pub fn detect(&self, app: &App, env: &Environment) -> (r: Result<bool, ProviderError>)
        ensures
            r matches Ok(b) && b == provider_detected(*self, *app, *env),
    {
        match self {
            ProviderKind::Deno => DenoProvider {}.detect(app, env),
            ProviderKind::Npm => NpmProvider {}.detect(app, env),
            ProviderKind::Pixi => PixiProvider {}.detect(app, env),
        }
    }
}

/// Evaluates the providers in priority order and picks the first match; no
/// scoring, no further matches considered. No match is reported to the
/// caller as `None`, not as an error.
pub fn detect_provider(app: &App, env: &Environment) -> (r: Result<
    Option<ProviderKind>,
    ProviderError,
>)
    ensures
        r matches Ok(o) && o == detected_provider(*app, *env),
{
    let deno = ProviderKind::Deno;
    match deno.detect(app, env) {
        Ok(true) => {
            return Ok(Some(ProviderKind::Deno));
        },
        Ok(false) => {},
        Err(e) => {
            return Err(e);
        },
    }
    let npm = ProviderKind::Npm;
    match npm.detect(app, env) {
        Ok(true) => {
            return Ok(Some(ProviderKind::Npm));
        },
        Ok(false) => {},
        Err(e) => {
            return Err(e);
        },
    }
    let pixi = ProviderKind::Pixi;
    match pixi.detect(app, env) {
        Ok(true) => {
            return Ok(Some(ProviderKind::Pixi));
        },
        Ok(false) => {},
        Err(e) => {
            return Err(e);
        },
    }
    Ok(None)
}

/// The first error of the generic derivation chain for the Node provider, if
/// any: an unreadable manifest, else an unsupported version constraint.
pub open spec fn npm_generic_error(app: App) -> Option<ProviderError> {
    match app.package_json {
        ManifestFile::Parsed(pj) => match node_pkg_resolution(node_constraint(pj)) {
            Ok(_) => None,
            Err(e) => Some(e),
        },
        ManifestFile::Absent => Some(ProviderError::MissingManifest),
        ManifestFile::Unreadable => Some(ProviderError::MalformedManifest),
    }
}

/// The shape of the generically assembled plan: a setup phase holding the
/// resolved packages; an install phase depending on setup; a build phase
/// exactly when a build command was derived, depending on install; a start
/// phase exactly when a start command was derived; the provider's
/// environment defaults; and nothing else.
pub open spec fn npm_plan_matches(app: App, plan: BuildPlan) -> bool {
    match app.package_json {
        ManifestFile::Parsed(pj) => {
            &&& (match plan.phase_with("setup"@) {
                Some(s) => {
                    &&& no_cmds(s)
                    &&& no_deps(s)
                    &&& (match s.nix_pkgs {
                        Some(ps) => {
                            &&& ps@.len() == 2
                            &&& ps@[0].name@ == "pkgs.stdenv"@
                            &&& node_pkg_resolution(node_constraint(pj)) matches Ok(nm)
                                && ps@[1].name@ == nm
                        },
                        None => false,
                    })
                    &&& s.nixpkgs_archive is None
                },
                None => false,
            })
            &&& (match plan.phase_with("install"@) {
                Some(p) => single_cmd(p, "npm install"@) && single_dep(p, "setup"@),
                None => false,
            })
            &&& (match script_of(pj, "build"@) {
                Some(b) => match plan.phase_with("build"@) {
                    Some(bp) => single_cmd(bp, "npm run build"@) && single_dep(bp, "install"@),
                    None => false,
                },
                None => plan.phase_with("build"@) is None,
            })
            &&& (forall|n: Seq<char>|
                n != "setup"@ && n != "install"@ && n != "build"@ ==> plan.phase_with(n) is None)
            &&& (match plan.start_phase {
                Some(sp) => start_command_of(app, pj) == Some(sp.cmd@),
                None => start_command_of(app, pj) is None,
            })
            &&& (match plan.variables {
                Some(vars) => node_environment_variables_spec(vars),
                None => false,
            })
            &&& plan.wf()
        },
        _ => false,
    }
}

/// Compiles the chosen provider's build plan: a provider with a custom plan
/// bypasses the generic path entirely; the Node provider goes through the
/// generic composition.
pub fn generate_build_plan(kind: &ProviderKind, app: &App, env: &Environment) -> (r: Result<
    BuildPlan,
    ProviderError,
>)
    ensures
        match *kind {
            ProviderKind::Deno => match r {
                Ok(plan) => deno_start_cmd_of(*app) is Ok && deno_plan_matches(*app, *env, plan),
                Err(e) => deno_start_cmd_of(*app) == Err::<Option<Seq<char>>, ProviderError>(e),
            },
            ProviderKind::Pixi => match app.pixi_toml {
                ManifestFile::Parsed(config) => if config.tasks.start {
                    r matches Ok(plan) && pixi_plan_matches(config, plan)
                } else {
                    r matches Err(e) && e == ProviderError::MissingStartTask
                },
                ManifestFile::Absent => r matches Err(e) && e == ProviderError::MissingManifest,
                ManifestFile::Unreadable => r matches Err(e) && e
                    == ProviderError::MalformedManifest,
            },
            ProviderKind::Npm => match r {
                Ok(plan) => npm_generic_error(*app) is None && npm_plan_matches(*app, plan),
                Err(e) => npm_generic_error(*app) == Some(e),
            },
        },
{
    match kind {
        ProviderKind::Deno => {
            match (DenoProvider {}.get_build_plan(app, env)) {
                Ok(Some(plan)) => Ok(plan),
                Ok(None) => {
                    proof {
                        assert(false);
                    }
                    Err(ProviderError::MissingManifest)
                },
                Err(e) => Err(e),
            }
        },
        ProviderKind::Pixi => {
            match (PixiProvider {}.get_build_plan(app, env)) {
                Ok(Some(plan)) => Ok(plan),
                Ok(None) => {
                    proof {
                        assert(false);
                    }
                    Err(ProviderError::MissingManifest)
                },
                Err(e) => Err(e),
            }
        },
        ProviderKind::Npm => generate_npm_plan(app, env),
    }
}

/// The generic assembly path for the Node provider.
fn generate_npm_plan(app: &App, env: &Environment) -> (r: Result<BuildPlan, ProviderError>)
    ensures
        match r {
            Ok(plan) => npm_generic_error(*app) is None && npm_plan_matches(*app, plan),
            Err(e) => npm_generic_error(*app) == Some(e),
        },
{
    proof {
        reveal_strlit("setup");
        reveal_strlit("install");
        reveal_strlit("build");
        assert("setup"@[0] == 's');
        assert("install"@[0] == 'i');
        assert("build"@[0] == 'b');
        assert("setup"@ != "install"@);
        assert("setup"@ != "build"@);
        assert("install"@ != "build"@);
    }
    let provider = NpmProvider {};

    let nix_config = match provider.pkgs(app, env) {
        Ok(c) => c,
        Err(e) => {
            return Err(e);
        },
    };

    let mut plan = BuildPlan::new();
    let ghost plan0 = plan;
    plan.add_phase(Phase::setup(Some(nix_config.pkgs)));
    proof {
        assert forall|n: Seq<char>| n != "setup"@ implies plan.phase_with(n) is None by {
            assert(plan.phase_with(n) == plan0.phase_with(n));
            assert(plan0.phases@.len() == 0);
        }
    }
    let ghost plan_s = plan;

    let install_cmd = match provider.install_cmd(app, env) {
        Ok(c) => c,
        Err(e) => {
            return Err(e);
        },
    };
    match install_cmd {
        Some(cmd) => {
            let mut install = Phase::install(Some(cmd));
            install.depends_on_phase("setup");
            plan.add_phase(install);
        },
        None => {},
    }
    proof {
        assert(plan.phase_with("setup"@) == plan_s.phase_with("setup"@));
        assert forall|n: Seq<char>|
            n != "setup"@ && n != "install"@ implies plan.phase_with(n) is None by {
            assert(plan.phase_with(n) == plan_s.phase_with(n));
        }
    }
    let ghost plan_i = plan;

    let build_cmd = match provider.suggested_build_cmd(app, env) {
        Ok(c) => c,
        Err(e) => {
            return Err(e);
        },
    };
    match build_cmd {
        Some(cmd) => {
            let mut build = Phase::build(Some(cmd));
            build.depends_on_phase("install");
            plan.add_phase(build);
            proof {
                assert(plan.phase_with("setup"@) == plan_i.phase_with("setup"@));
                assert(plan.phase_with("install"@) == plan_i.phase_with("install"@));
                assert forall|n: Seq<char>|
                    n != "setup"@ && n != "install"@ && n != "build"@ implies plan.phase_with(n)
                    is None by {
                    assert(plan.phase_with(n) == plan_i.phase_with(n));
                }
            }
        },
        None => {
            proof {
                assert(plan.phase_with("build"@) is None);
                assert forall|n: Seq<char>|
                    n != "setup"@ && n != "install"@ && n != "build"@ implies plan.phase_with(n)
                    is None by {
                    assert(plan.phase_with(n) == plan_i.phase_with(n));
                }
            }
        },
    }
    let ghost plan_b = plan;

    let start_cmd = match provider.suggested_start_command(app, env) {
        Ok(c) => c,
        Err(e) => {
            return Err(e);
        },
    };
    match start_cmd {
        Some(cmd) => {
            plan.set_start_phase(StartPhase::new(cmd));
        },
        None => {},
    }

    let variables = match provider.get_environment_variables(app, env) {
        Ok(v) => v,
        Err(e) => {
            return Err(e);
        },
    };
    plan.variables = Some(variables);

    proof {
        assert(plan.phases == plan_b.phases);
        assert(plan.phase_with("setup"@) == plan_b.phase_with("setup"@));
        assert(plan.phase_with("install"@) == plan_b.phase_with("install"@));
        assert(plan.phase_with("build"@) == plan_b.phase_with("build"@));
        assert forall|n: Seq<char>|
            n != "setup"@ && n != "install"@ && n != "build"@ implies plan.phase_with(n)
            is None by {
            assert(plan.phase_with(n) == plan_b.phase_with(n));
            assert(plan_b.phase_with(n) is None);
        }
    }
    Ok(plan)
}

/// Detection is idempotent: two detection runs over unchanged inputs answer
/// the same, because each provider's detection outcome is a function of the
/// tree and the configuration alone.
pub proof fn lemma_detect_idempotent(
    kind: ProviderKind,
    app: App,
    env: Environment,
    r1: bool,
    r2: bool,
)
    requires
        r1 == provider_detected(kind, app, env),
        r2 == provider_detected(kind, app, env),
    ensures
        r1 == r2,
{
}

/// A generically assembled plan with a derived build command holds exactly
/// the phases setup, install and build, with exactly the edges install →
/// setup and build → install, as queried by name; setup itself has no edge.
pub proof fn lemma_generic_plan_edges(app: App, pj: PackageJson, plan: BuildPlan)
    requires
        app.package_json == ManifestFile::<PackageJson>::Parsed(pj),
        script_of(pj, "build"@) is Some,
        npm_plan_matches(app, plan),
    ensures
        plan.phase_with("setup"@) matches Some(s) && no_deps(s),
        plan.phase_with("install"@) matches Some(p) && single_dep(p, "setup"@),
        plan.phase_with("build"@) matches Some(b) && single_dep(b, "install"@),
        forall|n: Seq<char>|
            n != "setup"@ && n != "install"@ && n != "build"@ ==> plan.phase_with(n) is None,
{
}

} // verus!
