//! The Node ecosystem provider: detects a package manifest, derives install,
//! build and start commands from its script fields, and resolves the declared
//! runtime-version constraint to a package through an ordered list of
//! strategies whose first match wins.

use vstd::prelude::*;
use vstd::string::StrSliceExecFns;
use vstd::string::StringExecFns;

use crate::app::{file_listed, App};
use crate::environment::{lookup_in, lookup_value, Environment, EnvironmentVariables};
use crate::environment::NamedValue;
use crate::error::ProviderError;
use crate::nix::{NixConfig, Pkg};
use crate::strutil;

verus! {

/// The package used when no version constraint narrows the choice.
pub const DEFAULT_NODE_PKG_NAME: &'static str = "pkgs.nodejs";

/// The parsed package manifest of the Node ecosystem.
pub struct PackageJson {
    pub name: String,
    pub scripts: Option<Vec<NamedValue>>,
    pub engines: Option<Vec<NamedValue>>,
    pub main: Option<String>,
}

/// The script the manifest declares under key `k`, if any.
pub open spec fn script_of(pj: PackageJson, k: Seq<char>) -> Option<Seq<char>> {
    match pj.scripts {
        Some(rows) => lookup_in(rows@, k),
        None => None,
    }
}

/// The version constraint the manifest declares for the runtime.
pub open spec fn node_constraint(pj: PackageJson) -> Option<Seq<char>> {
    match pj.engines {
        Some(rows) => lookup_in(rows@, "node"@),
        None => None,
    }
}

pub open spec fn is_digit_char(c: char) -> bool {
    '0' <= c && c <= '9'
}

/// Length of the run of decimal digits at the start of `s`.
pub open spec fn digit_run_len(s: Seq<char>) -> int
    decreases s.len(),
{
    if s.len() == 0 || !is_digit_char(s[0]) {
        0
    } else {
        1 + digit_run_len(s.skip(1))
    }
}

pub proof fn lemma_digit_run_len_unique(s: Seq<char>, k: int)
    requires
        0 <= k <= s.len(),
        forall|j: int| 0 <= j < k ==> is_digit_char(#[trigger] s[j]),
        k == s.len() || !is_digit_char(s[k]),
    ensures
        k == digit_run_len(s),
    decreases s.len(),
{
    if s.len() == 0 || !is_digit_char(s[0]) {
    } else {
        assert(forall|j: int| 0 <= j < k - 1 ==> #[trigger] s.skip(1)[j] == s[j + 1]);
        if k < s.len() {
            assert(s.skip(1)[k - 1] == s[k]);
        }
        lemma_digit_run_len_unique(s.skip(1), k - 1);
    }
}

/// The number the decimal digits of `s` spell, most significant first.
pub open spec fn digits_value(s: Seq<char>) -> int
    decreases s.len(),
{
    if s.len() == 0 {
        0
    } else {
        digits_value(s.drop_last()) * 10 + (s.last() as int - '0' as int)
    }
}

pub proof fn lemma_digits_value_take_succ(s: Seq<char>, i: int)
    requires
        0 <= i < s.len(),
    ensures
        digits_value(s.take(i + 1)) == digits_value(s.take(i)) * 10 + (s[i] as int - '0' as int),
{
    assert(s.take(i + 1).drop_last() =~= s.take(i));
    assert(s.take(i + 1).last() == s[i]);
}

pub proof fn lemma_digits_value_nonneg(s: Seq<char>)
    requires
        forall|j: int| 0 <= j < s.len() ==> is_digit_char(#[trigger] s[j]),
    ensures
        digits_value(s) >= 0,
    decreases s.len(),
{
    if s.len() == 0 {
    } else {
        assert(forall|j: int|
            0 <= j < s.len() - 1 ==> is_digit_char(#[trigger] s.drop_last()[j]));
        lemma_digits_value_nonneg(s.drop_last());
    }
}

/// Reading more digits never shrinks the value: the number a digit prefix
/// spells is at most the number the longer prefix spells.
pub proof fn lemma_digits_value_grows(s: Seq<char>, i: int, j: int)
    requires
        0 <= i <= j <= s.len(),
        forall|m: int| 0 <= m < j ==> is_digit_char(#[trigger] s[m]),
    ensures
        digits_value(s.take(i)) <= digits_value(s.take(j)),
    decreases j - i,
{
    if i < j {
        lemma_digits_value_grows(s, i, j - 1);
        lemma_digits_value_take_succ(s, j - 1);
        assert(forall|m: int| 0 <= m < j - 1 ==> s.take(j - 1)[m] == s[m]);
        lemma_digits_value_nonneg(s.take(j - 1));
    }
}

/// What the anchored pattern `^(\d+)\.?x?$` allows after the digits: nothing,
/// `.`, `x`, or `.x`.
pub open spec fn opt_dot_x(t: Seq<char>) -> bool {
    t == Seq::<char>::empty() || t == seq!['.'] || t == seq!['x'] || t == seq!['.', 'x']
}

/// The major version a constraint like `12` or `12.x` names: the leading
/// digits of a string matching `^(\d+)\.?x?$`, read as a number when they fit
/// the machine word.
pub open spec fn major_x_value(s: Seq<char>) -> Option<u32> {
    let k = digit_run_len(s);
    if 1 <= k && opt_dot_x(s.skip(k)) && digits_value(s.take(k)) <= u32::MAX {
        Some(digits_value(s.take(k)) as u32)
    } else {
        None
    }
}

/// The major version a comparator constraint like `>=14.10.3 <16` starts
/// with: the digits following the operator in a string matching `^>=(\d+)`,
/// read as a number when they fit the machine word.
pub open spec fn ge_major_value(s: Seq<char>) -> Option<u32> {
    if s.len() >= 3 && s[0] == '>' && s[1] == '=' {
        let t = s.skip(2);
        let k = digit_run_len(t);
        if 1 <= k && digits_value(t.take(k)) <= u32::MAX {
            Some(digits_value(t.take(k)) as u32)
        } else {
            None
        }
    } else {
        None
    }
}

/// The major versions a package is available for.
pub open spec fn version_allowed(v: u32) -> bool {
    v == 10 || v == 12 || v == 14 || v == 16 || v == 17
}

/// The package name of an allow-listed major version.
pub open spec fn nodejs_pkg_name(v: u32) -> Seq<char> {
    if v == 10 {
        "nodejs-10_x"@
    } else if v == 12 {
        "nodejs-12_x"@
    } else if v == 14 {
        "nodejs-14_x"@
    } else if v == 16 {
        "nodejs-16_x"@
    } else if v == 17 {
        "nodejs-17_x"@
    } else {
        Seq::<char>::empty()
    }
}

/// Resolution of a version constraint to a package name: no constraint or the
/// wildcard gives the default; a constraint matching `^(\d+)\.?x?$`, else
/// `^>=(\d+)`, names a major that must be allow-listed — an unlisted major is
/// an error, never the default; a constraint matching neither pattern falls
/// back to the default. The first matching strategy wins and no later one is
/// attempted.
pub open spec fn node_pkg_resolution(constraint: Option<Seq<char>>) -> Result<
    Seq<char>,
    ProviderError,
> {
    match constraint {
        None => Ok("pkgs.nodejs"@),
        Some(v) => if v == "*"@ {
            Ok("pkgs.nodejs"@)
        } else {
            match major_x_value(v) {
                Some(n) => if version_allowed(n) {
                    Ok(nodejs_pkg_name(n))
                } else {
                    Err(ProviderError::UnsupportedNodeVersion(n))
                },
                None => match ge_major_value(v) {
                    Some(n) => if version_allowed(n) {
                        Ok(nodejs_pkg_name(n))
                    } else {
                        Err(ProviderError::UnsupportedNodeVersion(n))
                    },
                    None => Ok("pkgs.nodejs"@),
                },
            }
        },
    }
}

fn is_digit_at(s: &str, i: usize) -> (r: bool)
    requires
        i < s@.len(),
    ensures
        r == is_digit_char(s@[i as int]),
{
    let c = s.get_char(i);
    '0' <= c && c <= '9'
}

/// Counts the decimal digits at the start of `s`.
fn digit_run(s: &str) -> (k: usize)
    ensures
        k == digit_run_len(s@),
        k <= s@.len(),
        forall|j: int| 0 <= j < k ==> is_digit_char(#[trigger] s@[j]),
{
    let n = s.unicode_len();
    let mut k: usize = 0;
    while k < n && is_digit_at(s, k)
        invariant
            n == s@.len(),
            0 <= k <= n,
            forall|j: int| 0 <= j < k ==> is_digit_char(#[trigger] s@[j]),
        decreases n - k,
    {
        k = k + 1;
    }
    proof {
        lemma_digit_run_len_unique(s@, k as int);
    }
    k
}

/// Reads the first `k` characters of `s` — a run of digits — as a number;
/// `None` when the number does not fit the machine word.
fn digits_to_u32(s: &str, k: usize) -> (r: Option<u32>)
    requires
        k <= s@.len(),
        forall|j: int| 0 <= j < k ==> is_digit_char(#[trigger] s@[j]),
    ensures
        match r {
            Some(v) => digits_value(s@.take(k as int)) <= u32::MAX && v == digits_value(
                s@.take(k as int),
            ),
            None => digits_value(s@.take(k as int)) > u32::MAX,
        },
{
    let mut val: u32 = 0;
    let mut i: usize = 0;
    proof {
        assert(s@.take(0) =~= Seq::<char>::empty());
    }
    while i < k
        invariant
            0 <= i <= k <= s@.len(),
            forall|j: int| 0 <= j < k ==> is_digit_char(#[trigger] s@[j]),
            val == digits_value(s@.take(i as int)),
        decreases k - i,
    {
        let c = s.get_char(i);
        let d: u32 = c as u32 - '0' as u32;
        proof {
            lemma_digits_value_take_succ(s@, i as int);
        }
        if val > (u32::MAX - d) / 10 {
            proof {
                assert(10 * (val as int) + d > u32::MAX);
                lemma_digits_value_grows(s@, i + 1, k as int);
            }
            return None;
        }
        val = val * 10 + d;
        i = i + 1;
    }
    Some(val)
}

/// Decides whether what follows position `k` of `s` is a suffix the anchored
/// pattern allows.
fn opt_dot_x_check(s: &str, k: usize) -> (r: bool)
    requires
        k <= s@.len(),
    ensures
        r == opt_dot_x(s@.skip(k as int)),
{
    let n = s.unicode_len();
    let rem = n - k;
    let ghost t = s@.skip(k as int);
    if rem == 0 {
        proof {
            assert(t =~= Seq::<char>::empty());
        }
        true
    } else if rem == 1 {
        let c = s.get_char(k);
        proof {
            assert(t =~= seq![s@[k as int]]);
            assert(t[0] == c);
        }
        if c == '.' {
            proof {
                assert(t =~= seq!['.']);
            }
            true
        } else if c == 'x' {
            proof {
                assert(t =~= seq!['x']);
            }
            true
        } else {
            proof {
                assert(t.len() == 1);
                assert(t != seq!['.'] && t != seq!['x']);
            }
            false
        }
    } else if rem == 2 {
        let c0 = s.get_char(k);
        let c1 = s.get_char(k + 1);
        proof {
            assert(t =~= seq![s@[k as int], s@[k as int + 1]]);
            assert(t[0] == c0);
            assert(t[1] == c1);
        }
        if c0 == '.' && c1 == 'x' {
            proof {
                assert(t =~= seq!['.', 'x']);
            }
            true
        } else {
            proof {
                assert(t.len() == 2);
                assert(t != seq!['.', 'x']);
            }
            false
        }
    } else {
        proof {
            assert(t.len() >= 3);
        }
        false
    }
}

/// Matches `s` against the anchored pattern `^(\d+)\.?x?$` and reads the
/// captured digits.
fn parse_major_x(s: &str) -> (r: Option<u32>)
    ensures
        r == major_x_value(s@),
{
    let k = digit_run(s);
    if k == 0 {
        return None;
    }
    if !opt_dot_x_check(s, k) {
        return None;
    }
    digits_to_u32(s, k)
}

/// Matches `s` against the pattern `^>=(\d+)` and reads the captured digits.
fn parse_ge_major(s: &str) -> (r: Option<u32>)
    ensures
        r == ge_major_value(s@),
{
    let n = s.unicode_len();
    if n < 3 {
        return None;
    }
    if s.get_char(0) != '>' || s.get_char(1) != '=' {
        return None;
    }
    let t = s.substring_char(2, n);
    proof {
        assert(t@ =~= s@.skip(2));
    }
    let k = digit_run(t);
    if k == 0 {
        return None;
    }
    digits_to_u32(t, k)
}

/// The package of an allow-listed major version; an unlisted major is the
/// explicit error naming the rejected value.
pub fn version_number_to_pkg(version: &u32) -> (r: Result<Option<String>, ProviderError>)
    ensures
        match r {
            Ok(o) => {
                &&& version_allowed(*version)
                &&& o matches Some(p) && p@ == nodejs_pkg_name(*version)
            },
            Err(e) => !version_allowed(*version) && e == ProviderError::UnsupportedNodeVersion(
                *version,
            ),
        },
{
    let v = *version;
    if v == 10 {
        Ok(Some("nodejs-10_x".to_owned()))
    } else if v == 12 {
        Ok(Some("nodejs-12_x".to_owned()))
    } else if v == 14 {
        Ok(Some("nodejs-14_x".to_owned()))
    } else if v == 16 {
        Ok(Some("nodejs-16_x".to_owned()))
    } else if v == 17 {
        Ok(Some("nodejs-17_x".to_owned()))
    } else {
        Err(ProviderError::UnsupportedNodeVersion(v))
    }
}

/// Carries a pattern match on to its package: no match stays `None`, a
/// matched major goes through the allow-list.
fn parse_match_into_pkg(m: Option<u32>) -> (r: Result<Option<String>, ProviderError>)
    ensures
        match m {
            None => r matches Ok(o) && o is None,
            Some(n) => if version_allowed(n) {
                r matches Ok(o) && o matches Some(p) && p@ == nodejs_pkg_name(n)
            } else {
                r matches Err(e) && e == ProviderError::UnsupportedNodeVersion(n)
            },
        },
{
    match m {
        Some(n) => version_number_to_pkg(&n),
        None => Ok(None),
    }
}

pub struct NpmProvider {}

impl NpmProvider {
    pub fn name(&self) -> (r: &'static str)
        ensures
            r@ == "node"@,
    {
        "node"
    }

    /// Detection: a package manifest at the tree root.
    pub fn detect(&self, app: &App, _env: &Environment) -> (r: Result<bool, ProviderError>)
        ensures
            r matches Ok(b) && b == file_listed(*app, "package.json"@),
    {
        Ok(app.includes_file("package.json"))
    }

    /// The build-environment packages: the standard environment plus the
    /// runtime package the manifest's version constraint resolves to.
    pub fn pkgs(&self, app: &App, _env: &Environment) -> (r: Result<NixConfig, ProviderError>)
        ensures
            match app.package_json {
                crate::app::ManifestFile::Parsed(pj) => {
                    match node_pkg_resolution(node_constraint(pj)) {
                        Ok(nm) => r matches Ok(c) && c.pkgs@.len() == 2 && c.pkgs@[0].name@
                            == "pkgs.stdenv"@ && c.pkgs@[1].name@ == nm,
                        Err(e) => r matches Err(e2) && e2 == e,
                    }
                },
                crate::app::ManifestFile::Absent => r matches Err(e) && e
                    == ProviderError::MissingManifest,
                crate::app::ManifestFile::Unreadable => r matches Err(e) && e
                    == ProviderError::MalformedManifest,
            },
    {
        let package_json = match app.read_package_json() {
            Ok(pj) => pj,
            Err(e) => {
                return Err(e);
            },
        };
        let node_pkg = match NpmProvider::get_nix_node_pkg(package_json) {
            Ok(p) => p,
            Err(e) => {
                return Err(e);
            },
        };
        let mut pkgs: Vec<Pkg> = Vec::new();
        pkgs.push(Pkg::new("pkgs.stdenv"));
        pkgs.push(node_pkg);
        Ok(NixConfig::new(pkgs))
    }

    /// Dependencies are always fetched the same way.
    pub fn install_cmd(&self, _app: &App, _env: &Environment) -> (r: Result<
        Option<String>,
        ProviderError,
    >)
        ensures
            r matches Ok(o) && o matches Some(c) && c@ == "npm install"@,
    {
        Ok(Some("npm install".to_owned()))
    }

    /// A build command exactly when the manifest declares a `build` script.
    pub fn suggested_build_cmd(&self, app: &App, _env: &Environment) -> (r: Result<
        Option<String>,
        ProviderError,
    >)
        ensures
            match app.package_json {
                crate::app::ManifestFile::Parsed(pj) => r matches Ok(o) && (match o {
                    Some(c) => script_of(pj, "build"@) is Some && c@ == "npm run build"@,
                    None => script_of(pj, "build"@) is None,
                }),
                crate::app::ManifestFile::Absent => r matches Err(e) && e
                    == ProviderError::MissingManifest,
                crate::app::ManifestFile::Unreadable => r matches Err(e) && e
                    == ProviderError::MalformedManifest,
            },
    {
        let package_json = match app.read_package_json() {
            Ok(pj) => pj,
            Err(e) => {
                return Err(e);
            },
        };
        match &package_json.scripts {
            Some(rows) => {
                if lookup_value(rows, "build").is_some() {
                    return Ok(Some("npm run build".to_owned()));
                }
            },
            None => {},
        }
        Ok(None)
    }

    /// A start command exactly when the fixed fallback chain produces one.
    pub fn suggested_start_command(&self, app: &App, _env: &Environment) -> (r: Result<
        Option<String>,
        ProviderError,
    >)
        ensures
            match app.package_json {
                crate::app::ManifestFile::Parsed(pj) => r matches Ok(o) && (match o {
                    Some(c) => start_command_of(*app, pj) == Some(c@),
                    None => start_command_of(*app, pj) is None,
                }),
                crate::app::ManifestFile::Absent => r matches Err(e) && e
                    == ProviderError::MissingManifest,
                crate::app::ManifestFile::Unreadable => r matches Err(e) && e
                    == ProviderError::MalformedManifest,
            },
    {
        let package_json = match app.read_package_json() {
            Ok(pj) => pj,
            Err(e) => {
                return Err(e);
            },
        };
        match &package_json.scripts {
            Some(rows) => {
                if lookup_value(rows, "start").is_some() {
                    return Ok(Some("npm run start".to_owned()));
                }
            },
            None => {},
        }
        match &package_json.main {
            Some(main) => {
                if app.includes_file(main.as_str()) {
                    let mut cmd = String::from_str("node ");
                    cmd.append(main.as_str());
                    return Ok(Some(cmd));
                }
            },
            None => {},
        }
        if app.includes_file("index.js") {
            return Ok(Some("node index.js".to_owned()));
        }
        Ok(None)
    }

    /// The provider's environment defaults.
    pub fn get_environment_variables(&self, _app: &App, _env: &Environment) -> (r: Result<
        EnvironmentVariables,
        ProviderError,
    >)
        ensures
            r matches Ok(vars) && node_environment_variables_spec(vars),
    {
        Ok(NpmProvider::get_node_environment_variables())
    }

    /// The static environment defaults of the Node ecosystem: production
    /// mode, with development dependencies still installed.
    pub fn get_node_environment_variables() -> (r: EnvironmentVariables)
        ensures
            node_environment_variables_spec(r),
    {
        let mut vars = EnvironmentVariables::new();
        vars.insert("NODE_ENV", "production");
        vars.insert("NPM_CONFIG_PRODUCTION", "false");
        vars
    }

    /// Resolves the manifest's runtime-version constraint to its package.
    pub fn get_nix_node_pkg(package_json: &PackageJson) -> (r: Result<Pkg, ProviderError>)
        ensures
            match r {
                Ok(p) => node_pkg_resolution(node_constraint(*package_json)) matches Ok(nm)
                    && p.name@ == nm,
                Err(e) => node_pkg_resolution(node_constraint(*package_json)) matches Err(e2) && e
                    == e2,
            },
    {
        let node_version: Option<String> = match &package_json.engines {
            Some(rows) => lookup_value(rows, "node"),
            None => None,
        };
        let node_version = match node_version {
            Some(v) => v,
            None => {
                return Ok(Pkg::new(DEFAULT_NODE_PKG_NAME));
            },
        };

        // Any version will work, use the default.
        if strutil::str_eq(node_version.as_str(), "*") {
            return Ok(Pkg::new(DEFAULT_NODE_PKG_NAME));
        }

        // Parse `12` or `12.x` into its major.
        match parse_match_into_pkg(parse_major_x(node_version.as_str())) {
            Ok(Some(node_pkg)) => {
                return Ok(Pkg::new(node_pkg.as_str()));
            },
            Ok(None) => {},
            Err(e) => {
                return Err(e);
            },
        }

        // Parse `>=14.10.3 <16` into its major.
        match parse_match_into_pkg(parse_ge_major(node_version.as_str())) {
            Ok(Some(node_pkg)) => {
                return Ok(Pkg::new(node_pkg.as_str()));
            },
            Ok(None) => {},
            Err(e) => {
                return Err(e);
            },
        }

        Ok(Pkg::new(DEFAULT_NODE_PKG_NAME))
    }
}

/// The environment defaults the Node provider contributes.
pub open spec fn node_environment_variables_spec(vars: EnvironmentVariables) -> bool {
    &&& vars.entries@.len() == 2
    &&& vars.entries@[0].name@ == "NODE_ENV"@
    &&& vars.entries@[0].value@ == "production"@
    &&& vars.entries@[1].name@ == "NPM_CONFIG_PRODUCTION"@
    &&& vars.entries@[1].value@ == "false"@
}

/// The start-command fallback chain: the `start` script when declared, else
/// the declared `main` entry when that file exists, else the conventional
/// entry file when present, else nothing.
pub open spec fn start_command_of(app: App, pj: PackageJson) -> Option<Seq<char>> {
    if script_of(pj, "start"@) is Some {
        Some("npm run start"@)
    } else {
        match pj.main {
            Some(m) => if file_listed(app, m@) {
                Some("node "@ + m@)
            } else {
                conventional_start(app)
            },
            None => conventional_start(app),
        }
    }
}

/// The last rule of the start-command chain: the conventional entry file,
/// when present.
pub open spec fn conventional_start(app: App) -> Option<Seq<char>> {
    if file_listed(app, "index.js"@) {
        Some("node index.js"@)
    } else {
        None
    }
}

/// The resolution strategies are mutually exclusive: the wildcard matches
/// neither pattern, and a constraint matching the anchored major pattern
/// cannot also match the comparator pattern.
pub proof fn lemma_version_strategies_exclusive(v: Seq<char>)
    ensures
        v == "*"@ ==> major_x_value(v) is None && ge_major_value(v) is None,
        major_x_value(v) is Some ==> ge_major_value(v) is None,
{
    if v == "*"@ {
        reveal_strlit("*");
        assert(v.len() == 1);
        assert(v[0] == '*');
        assert(digit_run_len(v) == 0);
    }
    if major_x_value(v) is Some {
        assert(digit_run_len(v) >= 1);
        assert(is_digit_char(v[0]));
    }
}

/// Every constraint naming an allow-listed major — by the anchored pattern,
/// or by the comparator pattern when the anchored one does not match —
/// resolves to that major's package, through exactly that one strategy.
/// Resolution is a function of the constraint alone, so it is deterministic.
pub proof fn lemma_allowed_major_resolves(v: Seq<char>, n: u32)
    requires
        version_allowed(n),
        major_x_value(v) == Some(n) || (major_x_value(v) is None && ge_major_value(v) == Some(n)),
    ensures
        node_pkg_resolution(Some(v)) == Ok::<Seq<char>, ProviderError>(nodejs_pkg_name(n)),
{
    lemma_version_strategies_exclusive(v);
}

/// A constraint whose major is not allow-listed resolves to the explicit
/// error naming that major, never to the default package.
pub proof fn lemma_unlisted_major_errors(v: Seq<char>, n: u32)
    requires
        !version_allowed(n),
        major_x_value(v) == Some(n) || (major_x_value(v) is None && ge_major_value(v) == Some(n)),
    ensures
        node_pkg_resolution(Some(v)) == Err::<Seq<char>, ProviderError>(
            ProviderError::UnsupportedNodeVersion(n),
        ),
{
    lemma_version_strategies_exclusive(v);
}

} // verus!
