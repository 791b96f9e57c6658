//! The library's error values. Every failure a provider can report is an
//! explicit variant; nothing is substituted silently.

use vstd::prelude::*;

verus! {

#[derive(Clone, Copy, Debug, PartialEq, Eq, Structural)]
pub enum ProviderError {
    /// A manifest file the provider needs is not present in the source tree.
    MissingManifest,
    /// A manifest file is present but could not be parsed.
    MalformedManifest,
    /// A version constraint named a major version outside the supported list;
    /// the rejected value is carried along.
    UnsupportedNodeVersion(u32),
    /// The task manifest declares no start task, which is required.
    MissingStartTask,
    /// An environment entry was not of the form `NAME=value`.
    InvalidEnvironmentVariable,
}

} // verus!
