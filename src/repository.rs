use vstd::prelude::*;
use crate::host::RepositoryHost;

verus! {

/// The ref (branch, tag or commit) of a repository whose archive is asked for.
#[derive(Debug, Clone)]
pub struct RepositoryMeta(pub String);

impl Default for RepositoryMeta {
    /// The ref used when none is given: `master`.
    fn default() -> (r: Self)
        ensures
            r.0@ == "master"@,
    {
        RepositoryMeta(String::from_str("master"))
    }
}

/// One remote repository snapshot: where it is hosted, whose it is, its
/// name and the ref to take.
#[derive(Debug, Clone)]
pub struct Repository {
    pub host: RepositoryHost,
    pub user: String,
    pub repo: String,
    pub meta: RepositoryMeta,
}

/// The tarball URL of `repo` owned by `user` at ref `meta` on `host`; each
/// field is put in its place of the provider's template as it is.
pub open spec fn tar_url(host: RepositoryHost, user: Seq<char>, repo: Seq<char>, meta: Seq<char>) -> Seq<char> {
    match host {
        RepositoryHost::GitHub => "https://github.com/"@ + user + "/"@ + repo + "/archive/"@ + meta
            + ".tar.gz"@,
        RepositoryHost::GitLab => "https://gitlab.com/"@ + user + "/"@ + repo
            + "/repository/archive.tar.gz?ref="@ + meta,
        RepositoryHost::BitBucket => "https://bitbucket.org/"@ + user + "/"@ + repo + "/get/"@
            + meta + ".tar.gz"@,
    }
}

impl Repository {
    /// The tarball URL of this repository, as a value.
    pub open spec fn resolved_url(&self) -> Seq<char> {
        tar_url(self.host, self.user@, self.repo@, self.meta.0@)
    }

    /// Resolves the tarball URL from the host and the other fields.
    pub fn get_tar_url(&self) -> (r: String)
        ensures
            r@ == self.resolved_url(),
    {
        let (prefix, middle, suffix) = match self.host {
            RepositoryHost::GitHub => ("https://github.com/", "/archive/", ".tar.gz"),
            RepositoryHost::GitLab => ("https://gitlab.com/", "/repository/archive.tar.gz?ref=", ""),
            RepositoryHost::BitBucket => ("https://bitbucket.org/", "/get/", ".tar.gz"),
        };
        let mut url = String::from_str(prefix);
        url.append(self.user.as_str());
        url.append("/");
        url.append(self.repo.as_str());
        url.append(middle);
        url.append(self.meta.0.as_str());
        url.append(suffix);
        proof {
            reveal_strlit("");
        }
        assert(url@ =~= self.resolved_url());
        url
    }
}

/// The URL depends on the four fields alone: two repositories whose host,
/// user, name and ref are equal resolve to the same URL.
pub proof fn tar_url_depends_on_fields_alone(a: &Repository, b: &Repository)
    requires
        a.host == b.host,
        a.user@ == b.user@,
        a.repo@ == b.repo@,
        a.meta.0@ == b.meta.0@,
    ensures
        a.resolved_url() == b.resolved_url(),
{
}

} // verus!
