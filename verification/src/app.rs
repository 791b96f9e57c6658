//! The source accessor: a read-only model of the application tree a provider
//! inspects. It holds the relative slash-separated paths of the tree's files,
//! the contents of the script files a content scan may look into, and the
//! ecosystem manifests in already-parsed form. Reading files from disk and
//! parsing them belongs to the embedding program; detection and planning only
//! query this value and never mutate it.

use vstd::prelude::*;

use crate::error::ProviderError;
use crate::providers::deno::DenoJson;
use crate::providers::npm::PackageJson;
use crate::providers::pixi::PixiToml;
use crate::scan;
use crate::strutil;

verus! {

/// One file whose text a content scan may inspect.
pub struct SourceFile {
    /// Relative slash-separated path.
    pub path: String,
    pub content: String,
}

/// The state of one manifest file of the tree.
pub enum ManifestFile<T> {
    /// The file is not present.
    Absent,
    /// The file is present but could not be parsed.
    Unreadable,
    /// The parsed content of the file.
    Parsed(T),
}

/// A read-only view of the application source tree.
pub struct App {
    /// Relative slash-separated paths of every file in the tree.
    pub files: Vec<String>,
    /// Path and text of the files a content scan may look into.
    pub sources: Vec<SourceFile>,
    pub package_json: ManifestFile<PackageJson>,
    pub deno_json: ManifestFile<DenoJson>,
    pub deno_jsonc: ManifestFile<DenoJson>,
    pub pixi_toml: ManifestFile<PixiToml>,
}

/// A file with this relative path is present in the tree.
pub open spec fn file_listed(app: App, name: Seq<char>) -> bool {
    exists|i: int| 0 <= i < app.files@.len() && (#[trigger] app.files@[i])@ == name
}

/// Paths the script-file content scan considers.
pub open spec fn is_script_path(p: Seq<char>) -> bool {
    ||| strutil::has_suffix(p, ".ts"@)
    ||| strutil::has_suffix(p, ".tsx"@)
    ||| strutil::has_suffix(p, ".js"@)
    ||| strutil::has_suffix(p, ".jsx"@)
}

/// Paths that name a conventional entry file, in any directory of the tree.
pub open spec fn is_index_path(p: Seq<char>) -> bool {
    ||| p == "index.ts"@ || strutil::has_suffix(p, "/index.ts"@)
    ||| p == "index.tsx"@ || strutil::has_suffix(p, "/index.tsx"@)
    ||| p == "index.js"@ || strutil::has_suffix(p, "/index.js"@)
    ||| p == "index.jsx"@ || strutil::has_suffix(p, "/index.jsx"@)
}

/// The first listed path naming a conventional entry file.
pub open spec fn first_index_file(files: Seq<String>) -> Option<Seq<char>>
    decreases files.len(),
{
    if files.len() == 0 {
        None
    } else if is_index_path(files[0]@) {
        Some(files[0]@)
    } else {
        first_index_file(files.skip(1))
    }
}

/// Some script file of the tree matches `pattern`.
pub open spec fn source_scan_hit(app: App, pattern: Seq<char>) -> bool {
    exists|i: int|
        0 <= i < app.sources@.len() && is_script_path((#[trigger] app.sources@[i]).path@)
            && scan::regex_found(pattern, app.sources@[i].content@)
}

/// The Deno configuration the tree offers: `deno.json` when it parses, else
/// `deno.jsonc`.
pub open spec fn deno_config_of(app: App) -> Option<DenoJson> {
    match app.deno_json {
        ManifestFile::Parsed(d) => Some(d),
        _ => match app.deno_jsonc {
            ManifestFile::Parsed(d) => Some(d),
            _ => None,
        },
    }
}

/// The error reported when neither Deno configuration file can be read: the
/// second attempt's failure is the one propagated.
pub open spec fn deno_read_error(app: App) -> ProviderError {
    match app.deno_jsonc {
        ManifestFile::Absent => ProviderError::MissingManifest,
        _ => ProviderError::MalformedManifest,
    }
}

impl App {
    /// Whether a file with this exact relative path is present.
    pub fn includes_file(&self, name: &str) -> (r: bool)
        ensures
            r == file_listed(*self, name@),
    {
        let n = self.files.len();
        let mut i: usize = 0;
        while i < n
            invariant
                n == self.files@.len(),
                0 <= i <= n,
                forall|j: int| 0 <= j < i ==> (#[trigger] self.files@[j])@ != name@,
            decreases n - i,
        {
            if strutil::str_eq(self.files[i].as_str(), name) {
                return true;
            }
            i = i + 1;
        }
        false
    }

    /// Whether the pattern matches the text of some script file of the tree.
    pub fn find_match(&self, pattern: &str) -> (r: bool)
        ensures
            r == source_scan_hit(*self, pattern@),
    {
        let n = self.sources.len();
        let mut i: usize = 0;
        while i < n
            invariant
                n == self.sources@.len(),
                0 <= i <= n,
                forall|j: int|
                    0 <= j < i ==> !(is_script_path((#[trigger] self.sources@[j]).path@)
                        && scan::regex_found(pattern@, self.sources@[j].content@)),
            decreases n - i,
        {
            let p = self.sources[i].path.as_str();
            let scripted = strutil::str_ends_with(p, ".ts") || strutil::str_ends_with(p, ".tsx")
                || strutil::str_ends_with(p, ".js") || strutil::str_ends_with(p, ".jsx");
            if scripted && scan::regex_is_match(pattern, self.sources[i].content.as_str()) {
                return true;
            }
            i = i + 1;
        }
        false
    }

    /// The parsed package manifest, or the error its absence or malformed
    /// content amounts to.
    pub fn read_package_json(&self) -> (r: Result<&PackageJson, ProviderError>)
        ensures
            match self.package_json {
                ManifestFile::Parsed(p) => r matches Ok(q) && *q == p,
                ManifestFile::Absent => r matches Err(e) && e == ProviderError::MissingManifest,
                ManifestFile::Unreadable => r matches Err(e) && e
                    == ProviderError::MalformedManifest,
            },
    {
        match &self.package_json {
            ManifestFile::Parsed(p) => Ok(p),
            ManifestFile::Absent => Err(ProviderError::MissingManifest),
            ManifestFile::Unreadable => Err(ProviderError::MalformedManifest),
        }
    }

    /// The parsed Deno configuration, trying `deno.json` first and
    /// `deno.jsonc` second; when neither parses, the second attempt's error.
    pub fn read_deno_config(&self) -> (r: Result<&DenoJson, ProviderError>)
        ensures
            match deno_config_of(*self) {
                Some(d) => r matches Ok(q) && *q == d,
                None => r matches Err(e) && e == deno_read_error(*self),
            },
    {
        match &self.deno_json {
            ManifestFile::Parsed(d) => Ok(d),
            _ => match &self.deno_jsonc {
                ManifestFile::Parsed(d) => Ok(d),
                ManifestFile::Absent => Err(ProviderError::MissingManifest),
                ManifestFile::Unreadable => Err(ProviderError::MalformedManifest),
            },
        }
    }

    /// The parsed task manifest, or the error its absence or malformed
    /// content amounts to.
    pub fn read_pixi_toml(&self) -> (r: Result<&PixiToml, ProviderError>)
        ensures
            match self.pixi_toml {
                ManifestFile::Parsed(t) => r matches Ok(q) && *q == t,
                ManifestFile::Absent => r matches Err(e) && e == ProviderError::MissingManifest,
                ManifestFile::Unreadable => r matches Err(e) && e
                    == ProviderError::MalformedManifest,
            },
    {
        match &self.pixi_toml {
            ManifestFile::Parsed(t) => Ok(t),
            ManifestFile::Absent => Err(ProviderError::MissingManifest),
            ManifestFile::Unreadable => Err(ProviderError::MalformedManifest),
        }
    }
}

} // verus!
