//! The task-manifest provider: the presence of its manifest decides
//! detection, the presence of a `build` task — not its content — decides
//! whether a build phase exists, and a missing `start` task is a hard error
//! rather than a graceful fallback.

use vstd::prelude::*;

use crate::app::{file_listed, App};
use crate::environment::Environment;
use crate::error::ProviderError;
use crate::plan::{no_deps, single_cmd, BuildPlan, Phase, StartPhase};

verus! {

/// The task table of the manifest; only the presence of each task matters,
/// its content is never read.
pub struct PixiTasks {
    pub build: bool,
    pub start: bool,
}

/// The parsed task manifest.
pub struct PixiToml {
    pub tasks: PixiTasks,
}

/// The shape of the plan this provider assembles: a setup phase installing
/// the tool and seeing no source paths, an install phase seeing only the
/// manifest and its lockfile, a build phase exactly when a `build` task is
/// declared, the fixed start command, and nothing else.
pub open spec fn pixi_plan_matches(config: PixiToml, plan: BuildPlan) -> bool {
    &&& (match plan.phase_with("setup"@) {
        Some(s) => {
            &&& single_cmd(s, "curl -fsSL https://pixi.sh/install.sh | bash"@)
            &&& no_deps(s)
            &&& (match s.only_include_files {
                Some(f) => f@.len() == 0,
                None => false,
            })
            &&& s.nix_pkgs is None
            &&& s.nixpkgs_archive is None
        },
        None => false,
    })
    &&& (match plan.phase_with("install"@) {
        Some(p) => {
            &&& single_cmd(p, "~/.pixi/bin/pixi install"@)
            &&& no_deps(p)
            &&& (match p.only_include_files {
                Some(f) => f@.len() == 2 && f@[0]@ == "pixi.toml"@ && f@[1]@ == "pixi.lock"@,
                None => false,
            })
        },
        None => false,
    })
    &&& (if config.tasks.build {
        match plan.phase_with("build"@) {
            Some(b) => single_cmd(b, "~/.pixi/bin/pixi run build"@) && no_deps(b),
            None => false,
        }
    } else {
        plan.phase_with("build"@) is None
    })
    &&& (forall|n: Seq<char>|
        n != "setup"@ && n != "install"@ && n != "build"@ ==> plan.phase_with(n) is None)
    &&& (match plan.start_phase {
        Some(sp) => sp.cmd@ == "~/.pixi/bin/pixi run start"@,
        None => false,
    })
    &&& plan.variables is None
    &&& plan.wf()
}

pub struct PixiProvider;

impl PixiProvider {
    pub fn name(&self) -> (r: &'static str)
        ensures
            r@ == "pixi"@,
    {
        "pixi"
    }

    /// Detection: the task manifest at the tree root.
    pub fn detect(&self, app: &App, _env: &Environment) -> (r: Result<bool, ProviderError>)
        ensures
            r matches Ok(b) && b == file_listed(*app, "pixi.toml"@),
    {
        Ok(app.includes_file("pixi.toml"))
    }

    /// The custom plan; a manifest without a `start` task is rejected
    /// whether or not a `build` task is declared.
    pub fn get_build_plan(&self, app: &App, _environment: &Environment) -> (r: Result<
        Option<BuildPlan>,
        ProviderError,
    >)
        ensures
            match app.pixi_toml {
                crate::app::ManifestFile::Parsed(config) => if config.tasks.start {
                    r matches Ok(o) && o matches Some(plan) && pixi_plan_matches(config, plan)
                } else {
                    r matches Err(e) && e == ProviderError::MissingStartTask
                },
                crate::app::ManifestFile::Absent => r matches Err(e) && e
                    == ProviderError::MissingManifest,
                crate::app::ManifestFile::Unreadable => r matches Err(e) && e
                    == ProviderError::MalformedManifest,
            },
    {
        let config_has_build: bool;
        let config_has_start: bool;
        match app.read_pixi_toml() {
            Ok(config) => {
                config_has_build = config.tasks.build;
                config_has_start = config.tasks.start;
            },
            Err(e) => {
                return Err(e);
            },
        }
        proof {
            reveal_strlit("setup");
            reveal_strlit("install");
            reveal_strlit("build");
            assert("setup"@[0] == 's');
            assert("install"@[0] == 'i');
            assert("build"@[0] == 'b');
            assert("setup"@ != "install"@);
            assert("setup"@ != "build"@);
            assert("install"@ != "build"@);
        }
        let mut plan = BuildPlan::default();
        let ghost plan0 = plan;

        let mut setup = Phase::new("setup");
        setup.only_include_files = Some(Vec::new());
        setup.add_cmd("curl -fsSL https://pixi.sh/install.sh | bash");
        plan.add_phase(setup);
        proof {
            assert forall|n: Seq<char>| n != "setup"@ implies plan.phase_with(n) is None by {
                assert(plan.phase_with(n) == plan0.phase_with(n));
                assert(plan0.phases@.len() == 0);
            }
        }
        let ghost plan_s = plan;

        let mut install = Phase::install(Some("~/.pixi/bin/pixi install".to_owned()));
        let mut included: Vec<String> = Vec::new();
        included.push("pixi.toml".to_owned());
        included.push("pixi.lock".to_owned());
        install.only_include_files = Some(included);
        plan.add_phase(install);
        proof {
            assert(plan.phase_with("setup"@) == plan_s.phase_with("setup"@));
            assert forall|n: Seq<char>|
                n != "setup"@ && n != "install"@ implies plan.phase_with(n) is None by {
                assert(plan.phase_with(n) == plan_s.phase_with(n));
            }
        }
        let ghost plan_i = plan;

        if config_has_build {
            plan.add_phase(Phase::build(Some("~/.pixi/bin/pixi run build".to_owned())));
            proof {
                assert(plan.phase_with("setup"@) == plan_i.phase_with("setup"@));
                assert(plan.phase_with("install"@) == plan_i.phase_with("install"@));
                assert forall|n: Seq<char>|
                    n != "setup"@ && n != "install"@ && n != "build"@ implies plan.phase_with(n)
                    is None by {
                    assert(plan.phase_with(n) == plan_i.phase_with(n));
                }
            }
        } else {
            proof {
                assert(plan.phase_with("build"@) is None);
                assert forall|n: Seq<char>|
                    n != "setup"@ && n != "install"@ && n != "build"@ implies plan.phase_with(n)
                    is None by {
                    assert(plan.phase_with(n) == plan_i.phase_with(n));
                }
            }
        }
        let ghost plan_b = plan;

        if config_has_start {
            plan.set_start_phase(StartPhase::new("~/.pixi/bin/pixi run start".to_owned()));
        } else {
            return Err(ProviderError::MissingStartTask);
        }

        proof {
            assert(plan.phases == plan_b.phases);
            assert(plan.phase_with("setup"@) == plan_b.phase_with("setup"@));
            assert(plan.phase_with("install"@) == plan_b.phase_with("install"@));
            assert(plan.phase_with("build"@) == plan_b.phase_with("build"@));
            assert forall|n: Seq<char>|
                n != "setup"@ && n != "install"@ && n != "build"@ implies plan.phase_with(n)
                is None by {
                assert(plan.phase_with(n) == plan_b.phase_with(n));
                assert(plan_b.phase_with(n) is None);
            }
        }
        Ok(Some(plan))
    }
}

} // verus!
