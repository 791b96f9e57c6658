//! Configuration accessor: named string values, typically environment-derived.
//! Lookup returns the value of the latest entry with the given name, so later
//! writers override earlier ones.

use vstd::prelude::*;
use vstd::string::StrSliceExecFns;
use vstd::string::StringExecFns;

use crate::error::ProviderError;
use crate::strutil;

verus! {

/// One name/value binding.
#[derive(Debug)]
pub struct NamedValue {
    pub name: String,
    pub value: String,
}

/// The value bound to `key` by the latest entry of `rows` carrying that name.
pub open spec fn lookup_in(rows: Seq<NamedValue>, key: Seq<char>) -> Option<Seq<char>>
    decreases rows.len(),
{
    if rows.len() == 0 {
        None
    } else if rows.last().name@ == key {
        Some(rows.last().value@)
    } else {
        lookup_in(rows.drop_last(), key)
    }
}

/// Finds the latest entry of `rows` named `key` and returns a copy of its
/// value.
pub fn lookup_value(rows: &Vec<NamedValue>, key: &str) -> (r: Option<String>)
    ensures
        match r {
            Some(v) => lookup_in(rows@, key@) == Some(v@),
            None => lookup_in(rows@, key@) is None,
        },
{
    let mut i: usize = rows.len();
    proof {
        assert(rows@.take(i as int) =~= rows@);
    }
    while i > 0
        invariant
            0 <= i <= rows@.len(),
            lookup_in(rows@, key@) == lookup_in(rows@.take(i as int), key@),
        decreases i,
    {
        proof {
            assert(rows@.take(i as int).drop_last() =~= rows@.take(i - 1));
            assert(rows@.take(i as int).last() == rows@[i - 1]);
        }
        if strutil::str_eq(rows[i - 1].name.as_str(), key) {
            return Some(rows[i - 1].value.clone());
        }
        i = i - 1;
    }
    None
}

/// A mapping from variable name to value; later insertions override earlier
/// ones for the same name.
#[derive(Debug)]
pub struct EnvironmentVariables {
    pub entries: Vec<NamedValue>,
}

impl EnvironmentVariables {
    pub fn new() -> (r: EnvironmentVariables)
        ensures
            r.entries@.len() == 0,
    {
        EnvironmentVariables { entries: Vec::new() }
    }

    pub fn insert(&mut self, name: &str, value: &str)
        ensures
            final(self).entries@.len() == old(self).entries@.len() + 1,
            final(self).entries@.last().name@ == name@,
            final(self).entries@.last().value@ == value@,
            final(self).entries@.drop_last() == old(self).entries@,
            lookup_in(final(self).entries@, name@) == Some(value@),
            forall|k: Seq<char>|
                k != name@ ==> lookup_in(final(self).entries@, k) == lookup_in(
                    old(self).entries@,
                    k,
                ),
    {
        let row = NamedValue { name: name.to_owned(), value: value.to_owned() };
        self.entries.push(row);
        proof {
            assert(self.entries@.drop_last() =~= old(self).entries@);
        }
    }

    pub fn get(&self, name: &str) -> (r: Option<String>)
        ensures
            match r {
                Some(v) => lookup_in(self.entries@, name@) == Some(v@),
                None => lookup_in(self.entries@, name@) is None,
            },
    {
        lookup_value(&self.entries, name)
    }
}

/// Number of characters before the first `=` of `s`; the whole length when
/// `s` has none.
pub open spec fn name_part_len(s: Seq<char>) -> int
    decreases s.len(),
{
    if s.len() == 0 || s[0] == '=' {
        0
    } else {
        1 + name_part_len(s.skip(1))
    }
}

/// The position of the first `=` is the unique `k` with no `=` before it and,
/// unless the string ends there, an `=` at it.
pub proof fn lemma_name_part_len_unique(s: Seq<char>, k: int)
    requires
        0 <= k <= s.len(),
        forall|j: int| 0 <= j < k ==> #[trigger] s[j] != '=',
        k == s.len() || s[k] == '=',
    ensures
        k == name_part_len(s),
    decreases s.len(),
{
    if s.len() == 0 || s[0] == '=' {
    } else {
        assert(forall|j: int| 0 <= j < k - 1 ==> #[trigger] s.skip(1)[j] == s[j + 1]);
        if k < s.len() {
            assert(s.skip(1)[k - 1] == s[k]);
        }
        lemma_name_part_len_unique(s.skip(1), k - 1);
    }
}

/// Splits an environment entry of the form `NAME=value` at its first `=`;
/// `None` when no `=` occurs.
pub open spec fn entry_split(s: Seq<char>) -> Option<(Seq<char>, Seq<char>)> {
    let p = name_part_len(s);
    if p == s.len() {
        None
    } else {
        Some((s.take(p), s.skip(p + 1)))
    }
}

/// The namespaced configuration variables of one build-plan compilation.
#[derive(Debug)]
pub struct Environment {
    pub variables: EnvironmentVariables,
}

/// The value the environment binds to the namespaced configuration key
/// `NIXPACKS_<name>`.
pub open spec fn config_variable(env: Environment, name: Seq<char>) -> Option<Seq<char>> {
    lookup_in(env.variables.entries@, "NIXPACKS_"@ + name)
}

/// A configuration flag counts as truthy when it is set to `1` or `true`.
pub open spec fn config_truthy(env: Environment, name: Seq<char>) -> bool {
    config_variable(env, name) == Some("1"@) || config_variable(env, name) == Some("true"@)
}

impl Environment {
    pub fn new(variables: EnvironmentVariables) -> (r: Environment)
        ensures
            r.variables == variables,
    {
        Environment { variables }
    }

    /// Builds an environment from `NAME=value` entries, later entries
    /// overriding earlier ones; rejects any entry without an `=`.
    pub fn from_envs(envs: Vec<&str>) -> (r: Result<Environment, ProviderError>)
        ensures
            match r {
                Ok(env) => {
                    &&& env.variables.entries@.len() == envs@.len()
                    &&& forall|i: int|
                        0 <= i < envs@.len() ==> {
                            let row = #[trigger] env.variables.entries@[i];
                            entry_split(envs@[i]@) == Some((row.name@, row.value@))
                        }
                },
                Err(e) => {
                    &&& e == ProviderError::InvalidEnvironmentVariable
                    &&& exists|i: int| 0 <= i < envs@.len() && entry_split(#[trigger] envs@[i]@) is None
                },
            },
    {
        let mut entries: Vec<NamedValue> = Vec::new();
        let mut i: usize = 0;
        while i < envs.len()
            invariant
                0 <= i <= envs@.len(),
                entries@.len() == i,
                forall|j: int|
                    0 <= j < i ==> {
                        let row = #[trigger] entries@[j];
                        entry_split(envs@[j]@) == Some((row.name@, row.value@))
                    },
            decreases envs@.len() - i,
        {
            let e: &str = envs[i];
            let n = e.unicode_len();
            let mut p: usize = 0;
            while p < n && e.get_char(p) != '='
                invariant
                    n == e@.len(),
                    0 <= p <= n,
                    forall|j: int| 0 <= j < p ==> e@[j] != '=',
                decreases n - p,
            {
                p = p + 1;
            }
            proof {
                lemma_name_part_len_unique(e@, p as int);
            }
            if p == n {
                return Err(ProviderError::InvalidEnvironmentVariable);
            }
            let name = e.substring_char(0, p);
            let value = e.substring_char(p + 1, n);
            proof {
                assert(name@ =~= e@.take(p as int));
                assert(value@ =~= e@.skip(p + 1));
            }
            entries.push(NamedValue { name: name.to_owned(), value: value.to_owned() });
            i = i + 1;
        }
        Ok(Environment { variables: EnvironmentVariables { entries } })
    }

    pub fn get_variable(&self, name: &str) -> (r: Option<String>)
        ensures
            match r {
                Some(v) => lookup_in(self.variables.entries@, name@) == Some(v@),
                None => lookup_in(self.variables.entries@, name@) is None,
            },
    {
        self.variables.get(name)
    }

    /// Whether the configuration flag `NIXPACKS_<name>` is set to a truthy
    /// value.
    pub fn is_config_variable_truthy(&self, name: &str) -> (r: bool)
        ensures
            r == config_truthy(*self, name@),
    {
        let key = String::from_str("NIXPACKS_").concat(name);
        match self.variables.get(key.as_str()) {
            Some(v) => strutil::str_eq(v.as_str(), "1") || strutil::str_eq(v.as_str(), "true"),
            None => false,
        }
    }
}

} // verus!
