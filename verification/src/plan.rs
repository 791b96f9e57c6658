//! The declarative build-plan model: named phases carrying commands and
//! dependency edges, a distinguished start phase, and plan-wide environment
//! variables. A plan is a mapping from phase name to phase; edges name other
//! phases and are not resolved or checked for cycles here — that is the
//! renderer's concern.

use vstd::prelude::*;

use crate::environment::EnvironmentVariables;
use crate::nix::Pkg;

verus! {

/// A named, orderable unit of build work.
#[derive(Debug)]
pub struct Phase {
    pub name: String,
    /// Shell-style command strings run by this phase, in order.
    pub cmds: Option<Vec<String>>,
    /// Names of the phases this phase depends on.
    pub depends_on: Option<Vec<String>>,
    /// Packages the phase asks the build environment for.
    pub nix_pkgs: Option<Vec<Pkg>>,
    /// Override of the default package-archive revision for this phase.
    pub nixpkgs_archive: Option<String>,
    /// When present, restricts which source paths are visible to this phase.
    pub only_include_files: Option<Vec<String>>,
}

/// `p` carries exactly the one command `cmd`.
pub open spec fn single_cmd(p: Phase, cmd: Seq<char>) -> bool {
    match p.cmds {
        Some(c) => c@.len() == 1 && c@[0]@ == cmd,
        None => false,
    }
}

/// `p` carries no command.
pub open spec fn no_cmds(p: Phase) -> bool {
    match p.cmds {
        Some(c) => c@.len() == 0,
        None => true,
    }
}

/// `p` has exactly the one dependency edge to the phase named `dep`.
pub open spec fn single_dep(p: Phase, dep: Seq<char>) -> bool {
    match p.depends_on {
        Some(d) => d@.len() == 1 && d@[0]@ == dep,
        None => false,
    }
}

/// `p` has no dependency edge.
pub open spec fn no_deps(p: Phase) -> bool {
    match p.depends_on {
        Some(d) => d@.len() == 0,
        None => true,
    }
}

/// The archive override of `p`, as a character sequence.
pub open spec fn archive_of(p: Phase) -> Option<Seq<char>> {
    match p.nixpkgs_archive {
        Some(a) => Some(a@),
        None => None,
    }
}

impl Phase {
    pub fn new(name: &str) -> (p: Phase)
        ensures
            p.name@ == name@,
            p.cmds is None,
            p.depends_on is None,
            p.nix_pkgs is None,
            p.nixpkgs_archive is None,
            p.only_include_files is None,
    {
        Phase {
            name: name.to_owned(),
            cmds: None,
            depends_on: None,
            nix_pkgs: None,
            nixpkgs_archive: None,
            only_include_files: None,
        }
    }

    /// The conventional first phase: installs the required packages.
    pub fn setup(pkgs: Option<Vec<Pkg>>) -> (p: Phase)
        ensures
            p.name@ == "setup"@,
            p.cmds is None,
            p.depends_on is None,
            p.nix_pkgs == pkgs,
            p.nixpkgs_archive is None,
            p.only_include_files is None,
    {
        let mut p = Phase::new("setup");
        p.nix_pkgs = pkgs;
        p
    }

    /// The conventional dependency-fetching phase.
    pub fn install(cmd: Option<String>) -> (p: Phase)
        ensures
            p.name@ == "install"@,
            match cmd {
                Some(c) => single_cmd(p, c@),
                None => p.cmds is None,
            },
            p.depends_on is None,
            p.nix_pkgs is None,
            p.nixpkgs_archive is None,
            p.only_include_files is None,
    {
        Phase::named_with_cmd("install", cmd)
    }

    /// The conventional build phase.
    pub fn build(cmd: Option<String>) -> (p: Phase)
        ensures
            p.name@ == "build"@,
            match cmd {
                Some(c) => single_cmd(p, c@),
                None => p.cmds is None,
            },
            p.depends_on is None,
            p.nix_pkgs is None,
            p.nixpkgs_archive is None,
            p.only_include_files is None,
    {
        Phase::named_with_cmd("build", cmd)
    }

    fn named_with_cmd(name: &str, cmd: Option<String>) -> (p: Phase)
        ensures
            p.name@ == name@,
            match cmd {
                Some(c) => single_cmd(p, c@),
                None => p.cmds is None,
            },
            p.depends_on is None,
            p.nix_pkgs is None,
            p.nixpkgs_archive is None,
            p.only_include_files is None,
    {
        let mut p = Phase::new(name);
        match cmd {
            Some(c) => {
                let mut cmds: Vec<String> = Vec::new();
                cmds.push(c);
                p.cmds = Some(cmds);
            },
            None => {},
        }
        p
    }

    /// Appends one command to this phase.
    pub fn add_cmd(&mut self, cmd: &str)
        ensures
            final(self).name == old(self).name,
            final(self).depends_on == old(self).depends_on,
            final(self).nix_pkgs == old(self).nix_pkgs,
            final(self).nixpkgs_archive == old(self).nixpkgs_archive,
            final(self).only_include_files == old(self).only_include_files,
            match final(self).cmds {
                Some(c) => {
                    &&& c@.len() == (match old(self).cmds {
                        Some(oc) => oc@.len() + 1,
                        None => 1,
                    })
                    &&& (match old(self).cmds {
                        Some(oc) => c@.drop_last() == oc@,
                        None => true,
                    })
                    &&& c@.last()@ == cmd@
                },
                None => false,
            },
    {
        let mut cmds: Vec<String> = match self.cmds.take() {
            Some(v) => v,
            None => Vec::new(),
        };
        cmds.push(cmd.to_owned());
        proof {
            assert(cmds@.drop_last() =~= (match old(self).cmds {
                Some(oc) => oc@,
                None => Seq::<String>::empty(),
            }));
        }
        self.cmds = Some(cmds);
    }

    /// Adds one dependency edge, by phase name.
    pub fn depends_on_phase(&mut self, name: &str)
        ensures
            final(self).name == old(self).name,
            final(self).cmds == old(self).cmds,
            final(self).nix_pkgs == old(self).nix_pkgs,
            final(self).nixpkgs_archive == old(self).nixpkgs_archive,
            final(self).only_include_files == old(self).only_include_files,
            match final(self).depends_on {
                Some(d) => {
                    &&& d@.len() == (match old(self).depends_on {
                        Some(od) => od@.len() + 1,
                        None => 1,
                    })
                    &&& (match old(self).depends_on {
                        Some(od) => d@.drop_last() == od@,
                        None => true,
                    })
                    &&& d@.last()@ == name@
                },
                None => false,
            },
    {
        let mut deps: Vec<String> = match self.depends_on.take() {
            Some(v) => v,
            None => Vec::new(),
        };
        deps.push(name.to_owned());
        proof {
            assert(deps@.drop_last() =~= (match old(self).depends_on {
                Some(od) => od@,
                None => Seq::<String>::empty(),
            }));
        }
        self.depends_on = Some(deps);
    }

    /// Sets or clears the package-archive override of this phase.
    pub fn pin(&mut self, archive: Option<String>)
        ensures
            final(self).name == old(self).name,
            final(self).cmds == old(self).cmds,
            final(self).depends_on == old(self).depends_on,
            final(self).nix_pkgs == old(self).nix_pkgs,
            final(self).only_include_files == old(self).only_include_files,
            final(self).nixpkgs_archive == archive,
    {
        self.nixpkgs_archive = archive;
    }
}

/// The singleton runtime entry point: exactly one command, outside the build
/// graph.
#[derive(Debug)]
pub struct StartPhase {
    pub cmd: String,
}

impl StartPhase {
    pub fn new(cmd: String) -> (s: StartPhase)
        ensures
            s.cmd == cmd,
    {
        StartPhase { cmd }
    }
}

/// The first phase of `phases` named `name`, if any.
pub open spec fn phase_named_in(phases: Seq<Phase>, name: Seq<char>) -> Option<Phase>
    decreases phases.len(),
{
    if phases.len() == 0 {
        None
    } else if phases[0].name@ == name {
        Some(phases[0])
    } else {
        phase_named_in(phases.skip(1), name)
    }
}

proof fn lemma_phase_named_update(old_s: Seq<Phase>, new_s: Seq<Phase>, i: int, ph: Phase)
    requires
        0 <= i < old_s.len(),
        new_s == old_s.update(i, ph),
        old_s[i].name@ == ph.name@,
        forall|j: int| 0 <= j < i ==> (#[trigger] old_s[j]).name@ != ph.name@,
    ensures
        phase_named_in(new_s, ph.name@) == Some(ph),
        forall|n: Seq<char>|
            n != ph.name@ ==> phase_named_in(new_s, n) == phase_named_in(old_s, n),
    decreases old_s.len(),
{
    if i == 0 {
        assert(new_s[0] == ph);
        assert(new_s.skip(1) =~= old_s.skip(1));
        assert forall|n: Seq<char>|
            n != ph.name@ implies phase_named_in(new_s, n) == phase_named_in(old_s, n) by {
            assert(phase_named_in(new_s, n) == phase_named_in(new_s.skip(1), n));
            assert(phase_named_in(old_s, n) == phase_named_in(old_s.skip(1), n));
        }
    } else {
        assert(new_s.skip(1) =~= old_s.skip(1).update(i - 1, ph));
        assert(forall|j: int|
            0 <= j < i - 1 ==> (#[trigger] old_s.skip(1)[j]).name@ != ph.name@) by {
            assert(forall|j: int| 0 <= j < i - 1 ==> old_s.skip(1)[j] == old_s[j + 1]);
        }
        lemma_phase_named_update(old_s.skip(1), new_s.skip(1), i - 1, ph);
        assert(new_s[0] == old_s[0]);
        assert(old_s[0].name@ != ph.name@);
        assert(phase_named_in(new_s, ph.name@) == phase_named_in(new_s.skip(1), ph.name@));
        assert forall|n: Seq<char>|
            n != ph.name@ implies phase_named_in(new_s, n) == phase_named_in(old_s, n) by {
            if old_s[0].name@ == n {
                assert(phase_named_in(new_s, n) == Some(new_s[0]));
                assert(phase_named_in(old_s, n) == Some(old_s[0]));
            } else {
                assert(phase_named_in(new_s, n) == phase_named_in(new_s.skip(1), n));
                assert(phase_named_in(old_s, n) == phase_named_in(old_s.skip(1), n));
            }
        }
    }
}

proof fn lemma_phase_named_push(s: Seq<Phase>, ph: Phase)
    requires
        forall|j: int| 0 <= j < s.len() ==> (#[trigger] s[j]).name@ != ph.name@,
    ensures
        phase_named_in(s.push(ph), ph.name@) == Some(ph),
        forall|n: Seq<char>| n != ph.name@ ==> phase_named_in(s.push(ph), n) == phase_named_in(s, n),
    decreases s.len(),
{
    if s.len() == 0 {
        assert(s.push(ph)[0] == ph);
        assert(s.push(ph).skip(1) =~= Seq::<Phase>::empty());
        assert forall|n: Seq<char>|
            n != ph.name@ implies phase_named_in(s.push(ph), n) == phase_named_in(s, n) by {
            assert(phase_named_in(s.push(ph), n) == phase_named_in(s.push(ph).skip(1), n));
        }
    } else {
        assert(s.push(ph)[0] == s[0]);
        assert(s.push(ph).skip(1) =~= s.skip(1).push(ph));
        assert(forall|j: int| 0 <= j < s.len() - 1 ==> s.skip(1)[j] == s[j + 1]);
        lemma_phase_named_push(s.skip(1), ph);
        assert forall|n: Seq<char>|
            n != ph.name@ implies phase_named_in(s.push(ph), n) == phase_named_in(s, n) by {
            if s[0].name@ == n {
                assert(phase_named_in(s.push(ph), n) == Some(s[0]));
                assert(phase_named_in(s, n) == Some(s[0]));
            } else {
                assert(phase_named_in(s.push(ph), n) == phase_named_in(s.skip(1).push(ph), n));
                assert(phase_named_in(s, n) == phase_named_in(s.skip(1), n));
            }
        }
    }
}

/// The full declarative output of one provider: the phase mapping, the
/// optional start phase, and plan-wide environment variables.
#[derive(Debug)]
pub struct BuildPlan {
    pub phases: Vec<Phase>,
    pub start_phase: Option<StartPhase>,
    pub variables: Option<EnvironmentVariables>,
}

impl BuildPlan {
    /// The phase of this plan named `name`, if any.
    pub open spec fn phase_with(self, name: Seq<char>) -> Option<Phase> {
        phase_named_in(self.phases@, name)
    }

    /// Phase names are unique within one plan.
    pub open spec fn wf(self) -> bool {
        forall|i: int, j: int|
            0 <= i < j < self.phases@.len() ==> (#[trigger] self.phases@[i]).name@ != (
            #[trigger] self.phases@[j]).name@
    }

    pub fn new() -> (r: BuildPlan)
        ensures
            r.phases@.len() == 0,
            r.start_phase is None,
            r.variables is None,
            r.wf(),
    {
        BuildPlan { phases: Vec::new(), start_phase: None, variables: None }
    }

    /// Adds `phase` to the plan; a phase already carrying the same name is
    /// replaced in place.
    pub fn add_phase(&mut self, phase: Phase)
        ensures
            final(self).start_phase == old(self).start_phase,
            final(self).variables == old(self).variables,
            final(self).phase_with(phase.name@) == Some(phase),
            forall|n: Seq<char>|
                n != phase.name@ ==> final(self).phase_with(n) == old(self).phase_with(n),
            old(self).wf() ==> final(self).wf(),
    {
        let ghost old_phases = self.phases@;
        let n = self.phases.len();
        let mut i: usize = 0;
        while i < n
            invariant
                n == self.phases@.len(),
                0 <= i <= n,
                self.phases@ == old_phases,
                self.start_phase == old(self).start_phase,
                self.variables == old(self).variables,
                old_phases == old(self).phases@,
                forall|j: int| 0 <= j < i ==> (#[trigger] self.phases@[j]).name@ != phase.name@,
            decreases n - i,
        {
            if crate::strutil::str_eq(self.phases[i].name.as_str(), phase.name.as_str()) {
                proof {
                    lemma_phase_named_update(
                        old_phases,
                        old_phases.update(i as int, phase),
                        i as int,
                        phase,
                    );
                }
                self.phases[i] = phase;
                proof {
                    if old(self).wf() {
                        assert(self.phases@ == old_phases.update(i as int, phase));
                        assert forall|a: int, b: int|
                            0 <= a < b < self.phases@.len() implies (
                        #[trigger] self.phases@[a]).name@ != (#[trigger] self.phases@[b]).name@ by {
                            assert(old(self).phases@[a].name@ != old(self).phases@[b].name@);
                            assert(self.phases@[a].name@ == old_phases[a].name@);
                            assert(self.phases@[b].name@ == old_phases[b].name@);
                        }
                    }
                }
                return ;
            }
            i = i + 1;
        }
        proof {
            lemma_phase_named_push(old_phases, phase);
            if old(self).wf() {
                assert forall|a: int, b: int|
                    0 <= a < b < old_phases.push(phase).len() implies (
                #[trigger] old_phases.push(phase)[a]).name@ != (#[trigger] old_phases.push(
                    phase,
                )[b]).name@ by {
                    if b < old_phases.len() {
                        assert(old(self).phases@[a].name@ != old(self).phases@[b].name@);
                    }
                }
            }
        }
        self.phases.push(phase);
    }

    /// Sets the start phase; an earlier start phase, if any, is overwritten —
    /// the last writer wins.
    pub fn set_start_phase(&mut self, start_phase: StartPhase)
        ensures
            final(self).phases == old(self).phases,
            final(self).variables == old(self).variables,
            final(self).start_phase == Some(start_phase),
    {
        self.start_phase = Some(start_phase);
    }

    /// Looks a phase up by name.
    pub fn get_phase(&self, name: &str) -> (r: Option<&Phase>)
        ensures
            match r {
                Some(p) => self.phase_with(name@) == Some(*p),
                None => self.phase_with(name@) is None,
            },
    {
        let n = self.phases.len();
        let mut i: usize = 0;
        proof {
            assert(self.phases@.skip(0) =~= self.phases@);
        }
        while i < n
            invariant
                n == self.phases@.len(),
                0 <= i <= n,
                self.phase_with(name@) == phase_named_in(self.phases@.skip(i as int), name@),
            decreases n - i,
        {
            proof {
                assert(self.phases@.skip(i as int)[0] == self.phases@[i as int]);
                assert(self.phases@.skip(i as int).skip(1) =~= self.phases@.skip(i + 1));
            }
            if crate::strutil::str_eq(self.phases[i].name.as_str(), name) {
                return Some(&self.phases[i]);
            }
            i = i + 1;
        }
        None
    }
}

impl Default for BuildPlan {
    /// The empty plan: no phases, no start phase, no variables.
    fn default() -> (r: BuildPlan)
        ensures
            r.phases@.len() == 0,
            r.start_phase is None,
            r.variables is None,
            r.wf(),
    {
        BuildPlan::new()
    }
}

} // verus!
