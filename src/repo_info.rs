//! What is known of the version-control working copy of the project.
use vstd::prelude::*;

verus! {

/// A working copy: where it is, its remote, and the committer identity.
pub struct RepoInfo {
    pub path: String,
    pub remote: String,
    pub remote_url: String,
    pub user: String,
    pub email: String,
}

} // verus!
