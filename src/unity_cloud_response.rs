use vstd::prelude::*;

verus! {

/// The latest build of one Unity Cloud Build target.
#[derive(Clone, Copy, Debug)]
pub struct UnityBuild {
    pub build_status: UnityBuildStatus,
}

#[derive(Clone, Copy, PartialEq, Eq, Structural, Debug)]
pub enum UnityBuildStatus {
    Queued,
    SentToBuilder,
    Started,
    Restarted,
    Success,
    Failure,
    Canceled,
    Unknown,
}

} // verus!
