//! Final comment periods, as their tracker reports them.

use crate::time::Timestamp;
use vstd::prelude::*;

verus! {

/// A person as the tracker names them.
#[derive(Debug, PartialEq, Eq)]
pub struct GitHubUser {
    pub id: i32,
    pub login: String,
}

/// A proposal to decide an issue after a final comment period.
#[derive(Debug, PartialEq, Eq)]
pub struct FcpProposal {
    pub disposition: String,
    /// When the comment period began, if it has.
    pub fcp_start: Option<Timestamp>,
    pub fcp_closed: bool,
}

/// What the tracker holds on one issue.
#[derive(Debug, PartialEq, Eq)]
pub struct FcpInfo {
    pub proposal: FcpProposal,
    /// Who was asked, and whether they have agreed.
    pub reviews: Vec<(GitHubUser, bool)>,
    /// The objections raised, each with who raised it.
    pub concerns: Vec<(String, GitHubUser)>,
}

} // verus!
