//! The Deno ecosystem provider: detects a Deno configuration file or an
//! import from the Deno module host inside a script file, and assembles a
//! custom plan — a setup phase holding the runtime (optionally pinned to the
//! archive carrying the latest release), a cache-warming build phase, and a
//! start command taken from the configuration's `start` task or derived from
//! the conventional entry file.

use vstd::prelude::*;
use vstd::string::StringExecFns;

use crate::app::{
    deno_config_of, deno_read_error, file_listed, first_index_file, is_index_path, is_script_path,
    source_scan_hit, App,
};
use crate::environment::{config_truthy, Environment};
use crate::error::ProviderError;
use crate::nix::{Pkg, NIXPACKS_ARCHIVE_LATEST_DENO};
use crate::plan::{
    archive_of, no_cmds, no_deps, single_cmd, single_dep, BuildPlan, Phase, StartPhase,
};
use crate::scan;
use crate::strutil;

verus! {

/// The task table of a Deno configuration file.
pub struct DenoTasks {
    pub start: Option<String>,
}

/// The parsed Deno configuration file.
pub struct DenoJson {
    pub tasks: Option<DenoTasks>,
}

/// The content-scan pattern: an import from the Deno module host.
pub open spec fn deno_import_pattern() -> Seq<char> {
    "import .+ from (?:\"|'|`)https://deno.land/[^\"`']+\\.(?:ts|js|tsx|jsx)(?:\"|'|`);?"@
}

fn import_pattern() -> (r: &'static str)
    ensures
        r@ == deno_import_pattern(),
{
    "import .+ from (?:\"|'|`)https://deno.land/[^\"`']+\\.(?:ts|js|tsx|jsx)(?:\"|'|`);?"
}

/// Detection: a configuration file at the root, or — even without one — a
/// script file importing from the Deno module host.
pub open spec fn deno_detected(app: App) -> bool {
    ||| file_listed(app, "deno.json"@)
    ||| file_listed(app, "deno.jsonc"@)
    ||| source_scan_hit(app, deno_import_pattern())
}

/// The conventional entry file the plan runs and caches.
pub open spec fn deno_start_file_of(app: App) -> Option<Seq<char>> {
    first_index_file(app.files@)
}

/// The build command warms the module cache of the entry file.
pub open spec fn deno_build_cmd_of(app: App) -> Option<Seq<char>> {
    match first_index_file(app.files@) {
        Some(f) => Some("deno cache "@ + f),
        None => None,
    }
}

/// The start command used when the configuration declares no `start` task.
pub open spec fn deno_fallback_start(app: App) -> Option<Seq<char>> {
    match first_index_file(app.files@) {
        Some(f) => Some("deno run --allow-all "@ + f),
        None => None,
    }
}

/// The start command: the configuration's `start` task verbatim when one is
/// declared; otherwise a default invocation of the conventional entry file.
/// A configuration file that is present but unreadable is a terminal error.
pub open spec fn deno_start_cmd_of(app: App) -> Result<Option<Seq<char>>, ProviderError> {
    if file_listed(app, "deno.json"@) || file_listed(app, "deno.jsonc"@) {
        match deno_config_of(app) {
            Some(cfg) => match cfg.tasks {
                Some(t) => match t.start {
                    Some(s) => Ok(Some(s@)),
                    None => Ok(deno_fallback_start(app)),
                },
                None => Ok(deno_fallback_start(app)),
            },
            None => Err(deno_read_error(app)),
        }
    } else {
        Ok(deno_fallback_start(app))
    }
}

/// The shape of the plan this provider assembles: a setup phase holding the
/// runtime, pinned to the latest-release archive exactly when the
/// archive-pin flag is truthy; a build phase exactly when a build command was
/// derived, depending on setup; a start phase exactly when a start command
/// was derived; and nothing else.
pub open spec fn deno_plan_matches(app: App, env: Environment, plan: BuildPlan) -> bool {
    &&& (match plan.phase_with("setup"@) {
        Some(setup) => {
            &&& no_cmds(setup)
            &&& no_deps(setup)
            &&& (match setup.nix_pkgs {
                Some(ps) => ps@.len() == 1 && ps@[0].name@ == "deno"@,
                None => false,
            })
            &&& archive_of(setup) == (if config_truthy(env, "USE_DENO_2"@) {
                Some(NIXPACKS_ARCHIVE_LATEST_DENO@)
            } else {
                None::<Seq<char>>
            })
            &&& setup.only_include_files is None
        },
        None => false,
    })
    &&& (match deno_build_cmd_of(app) {
        Some(c) => match plan.phase_with("build"@) {
            Some(b) => single_cmd(b, c) && single_dep(b, "setup"@) && b.nix_pkgs is None
                && b.nixpkgs_archive is None,
            None => false,
        },
        None => plan.phase_with("build"@) is None,
    })
    &&& (forall|n: Seq<char>| n != "setup"@ && n != "build"@ ==> plan.phase_with(n) is None)
    &&& (match plan.start_phase {
        Some(sp) => deno_start_cmd_of(app) == Ok::<Option<Seq<char>>, ProviderError>(
            Some(sp.cmd@),
        ),
        None => deno_start_cmd_of(app) == Ok::<Option<Seq<char>>, ProviderError>(None),
    })
    &&& plan.variables is None
    &&& plan.wf()
}

pub struct DenoProvider {}

impl DenoProvider {
    pub fn name(&self) -> (r: &'static str)
        ensures
            r@ == "deno"@,
    {
        "deno"
    }

    /// Detection short-circuits the cheap file checks before the content
    /// scan over every script file.
    pub fn detect(&self, app: &App, _env: &Environment) -> (r: Result<bool, ProviderError>)
        ensures
            r matches Ok(b) && b == deno_detected(*app),
    {
        Ok(app.includes_file("deno.json") || app.includes_file("deno.jsonc") || app.find_match(
            import_pattern(),
        ))
    }

    pub fn get_build_plan(&self, app: &App, env: &Environment) -> (r: Result<
        Option<BuildPlan>,
        ProviderError,
    >)
        ensures
            match r {
                Ok(o) => {
                    &&& deno_start_cmd_of(*app) is Ok
                    &&& o matches Some(plan) && deno_plan_matches(*app, *env, plan)
                },
                Err(e) => deno_start_cmd_of(*app) == Err::<Option<Seq<char>>, ProviderError>(e),
            },
    {
        proof {
            reveal_strlit("setup");
            reveal_strlit("build");
            assert("setup"@[0] == 's');
            assert("build"@[0] == 'b');
            assert("setup"@ != "build"@);
        }
        let mut plan = BuildPlan::default();
        let ghost plan0 = plan;

        let mut deno_pkgs: Vec<Pkg> = Vec::new();
        deno_pkgs.push(Pkg::new("deno"));
        let mut setup = Phase::setup(Some(deno_pkgs));
        if env.is_config_variable_truthy("USE_DENO_2") {
            setup.pin(Some(NIXPACKS_ARCHIVE_LATEST_DENO.to_owned()));
        }
        plan.add_phase(setup);
        proof {
            assert forall|n: Seq<char>| n != "setup"@ implies plan.phase_with(n) is None by {
                assert(plan.phase_with(n) == plan0.phase_with(n));
                assert(plan0.phases@.len() == 0);
            }
        }
        let ghost plan_s = plan;

        match DenoProvider::get_build_cmd(app) {
            Ok(Some(build_cmd)) => {
                let mut build = Phase::build(Some(build_cmd));
                build.depends_on_phase("setup");
                plan.add_phase(build);
                proof {
                    assert(plan.phase_with("setup"@) == plan_s.phase_with("setup"@));
                    assert forall|n: Seq<char>|
                        n != "setup"@ && n != "build"@ implies plan.phase_with(n) is None by {
                        assert(plan.phase_with(n) == plan_s.phase_with(n));
                    }
                }
            },
            Ok(None) => {
                proof {
                    assert(plan.phase_with("build"@) is None);
                    assert forall|n: Seq<char>|
                        n != "setup"@ && n != "build"@ implies plan.phase_with(n) is None by {
                        assert(plan.phase_with(n) == plan_s.phase_with(n));
                    }
                }
            },
            Err(e) => {
                return Err(e);
            },
        }
        let ghost plan_b = plan;

        match DenoProvider::get_start_cmd(app) {
            Ok(Some(start_cmd)) => {
                plan.set_start_phase(StartPhase::new(start_cmd));
            },
            Ok(None) => {},
            Err(e) => {
                return Err(e);
            },
        }

        proof {
            assert(plan.phases == plan_b.phases);
            assert(plan.phase_with("setup"@) == plan_b.phase_with("setup"@));
            assert(plan.phase_with("build"@) == plan_b.phase_with("build"@));
            assert forall|n: Seq<char>|
                n != "setup"@ && n != "build"@ implies plan.phase_with(n) is None by {
                assert(plan.phase_with(n) == plan_b.phase_with(n));
                assert(plan_b.phase_with(n) is None);
            }
        }
        Ok(Some(plan))
    }

    /// The derived build command: caches the entry file when one exists.
    pub fn get_build_cmd(app: &App) -> (r: Result<Option<String>, ProviderError>)
        ensures
            r matches Ok(o) && (match o {
                Some(c) => deno_build_cmd_of(*app) == Some(c@),
                None => deno_build_cmd_of(*app) is None,
            }),
    {
        match DenoProvider::get_start_file(app) {
            Ok(Some(start_file)) => {
                let mut cmd = String::from_str("deno cache ");
                cmd.append(start_file.as_str());
                Ok(Some(cmd))
            },
            Ok(None) => Ok(None),
            Err(e) => Err(e),
        }
    }

    /// The derived start command, by the fixed fallback chain: the
    /// configuration's `start` task first, then a default invocation of the
    /// entry file.
    pub fn get_start_cmd(app: &App) -> (r: Result<Option<String>, ProviderError>)
        ensures
            match r {
                Ok(o) => (match o {
                    Some(c) => deno_start_cmd_of(*app) == Ok::<Option<Seq<char>>, ProviderError>(
                        Some(c@),
                    ),
                    None => deno_start_cmd_of(*app) == Ok::<Option<Seq<char>>, ProviderError>(
                        None,
                    ),
                }),
                Err(e) => deno_start_cmd_of(*app) == Err::<Option<Seq<char>>, ProviderError>(e),
            },
    {
        // First consult the configuration file and take its start task
        // verbatim when one is declared.
        if app.includes_file("deno.json") || app.includes_file("deno.jsonc") {
            let cfg = match app.read_deno_config() {
                Ok(c) => c,
                Err(e) => {
                    return Err(e);
                },
            };
            match &cfg.tasks {
                Some(tasks) => match &tasks.start {
                    Some(start) => {
                        return Ok(Some(start.clone()));
                    },
                    None => {},
                },
                None => {},
            }
        }

        // Barring that, start the entry file with permissive defaults.
        match DenoProvider::get_start_file(app) {
            Ok(Some(start_file)) => {
                let mut cmd = String::from_str("deno run --allow-all ");
                cmd.append(start_file.as_str());
                Ok(Some(cmd))
            },
            Ok(None) => Ok(None),
            Err(e) => Err(e),
        }
    }

    /// The first conventional entry file of the tree, by its relative path.
    pub fn get_start_file(app: &App) -> (r: Result<Option<String>, ProviderError>)
        ensures
            r matches Ok(o) && (match o {
                Some(f) => deno_start_file_of(*app) == Some(f@),
                None => deno_start_file_of(*app) is None,
            }),
    {
        let n = app.files.len();
        let mut i: usize = 0;
        proof {
            assert(app.files@.skip(0) =~= app.files@);
        }
        while i < n
            invariant
                n == app.files@.len(),
                0 <= i <= n,
                first_index_file(app.files@) == first_index_file(app.files@.skip(i as int)),
            decreases n - i,
        {
            proof {
                assert(app.files@.skip(i as int)[0] == app.files@[i as int]);
                assert(app.files@.skip(i as int).skip(1) =~= app.files@.skip(i + 1));
            }
            if is_index_file(app.files[i].as_str()) {
                return Ok(Some(app.files[i].clone()));
            }
            i = i + 1;
        }
        Ok(None)
    }
}

/// Whether a relative path names a conventional entry file.
fn is_index_file(p: &str) -> (r: bool)
    ensures
        r == is_index_path(p@),
{
    strutil::str_eq(p, "index.ts") || strutil::str_ends_with(p, "/index.ts") || strutil::str_eq(
        p,
        "index.tsx",
    ) || strutil::str_ends_with(p, "/index.tsx") || strutil::str_eq(p, "index.js")
        || strutil::str_ends_with(p, "/index.js") || strutil::str_eq(p, "index.jsx")
        || strutil::str_ends_with(p, "/index.jsx")
}

/// A tree without a Deno configuration file and without any script file is
/// never detected, whatever the other files — in particular, a tree holding
/// only another ecosystem's package manifest.
pub proof fn lemma_no_deno_evidence_no_detection(app: App)
    requires
        !file_listed(app, "deno.json"@),
        !file_listed(app, "deno.jsonc"@),
        forall|i: int|
            0 <= i < app.sources@.len() ==> !is_script_path((#[trigger] app.sources@[i]).path@),
    ensures
        !deno_detected(app),
{
}

/// A script file matching the import pattern makes the tree detected, even
/// without any Deno configuration file.
pub proof fn lemma_content_match_detects(app: App, i: int)
    requires
        0 <= i < app.sources@.len(),
        is_script_path(app.sources@[i].path@),
        scan::regex_found(deno_import_pattern(), app.sources@[i].content@),
    ensures
        deno_detected(app),
{
}

} // verus!
