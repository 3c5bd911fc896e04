use vstd::prelude::*;

verus! {

/// A supported hosting provider; each has its own tarball URL template.
#[derive(Debug, Clone, Copy, PartialEq, Eq, Structural)]
pub enum RepositoryHost {
    GitHub,
    GitLab,
    BitBucket,
}

impl Default for RepositoryHost {
    /// GitHub is the provider used when none is given.
    fn default() -> (r: Self)
        ensures
            r == RepositoryHost::GitHub,
    {
        RepositoryHost::GitHub
    }
}

/// A host as named by a caller: one of the supported providers, or one that
/// is not recognised.
#[derive(Debug, Clone, Copy, PartialEq, Eq, Structural)]
pub enum Host {
    Known(RepositoryHost),
    Unknown,
}

impl Default for Host {
    /// The default provider, as a known host.
    fn default() -> (r: Self)
        ensures
            r == Host::Known(RepositoryHost::GitHub),
    {
        Host::Known(RepositoryHost::default())
    }
}

} // verus!
