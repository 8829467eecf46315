use vstd::prelude::*;

verus! {

/// The job listing of a Jenkins server.
pub struct JenkinsJobResponse {
    pub jobs: Vec<JenkinsJob>,
}

/// One job of the listing.
pub struct JenkinsJob {
    pub name: String,
    pub url: String,
    pub color: JenkinsJobColor,
}

/// The last build of one job.
#[derive(Clone, Copy, Debug)]
pub struct JenkinsBuildResult {
    pub building: bool,
    pub build_result: Option<JenkinsBuildStatus>,
}

/// Outcome of a finished build; `Building` stands for a build that is still running.
#[derive(Clone, Copy, PartialEq, Eq, Structural, Debug)]
pub enum JenkinsBuildStatus {
    Success,
    Failure,
    NotBuilt,
    Aborted,
    Unstable,
    Building,
}

/// Ball color of a job in the listing.
#[derive(Clone, Copy, PartialEq, Eq, Structural, Debug)]
pub enum JenkinsJobColor {
    Red,
    RedAnime,
    Yellow,
    YellowAnime,
    Blue,
    BlueAnime,
    Grey,
    GreyAnime,
    Disabled,
    DisabledAnime,
    Aborted,
    Notbuilt,
    NobtuiltAnime,
}

impl JenkinsJobColor {
    /// A job whose color is one of the two disabled ones is not built anymore.
    pub open spec fn is_disabled_spec(self) -> bool {
        self == JenkinsJobColor::Disabled || self == JenkinsJobColor::DisabledAnime
    }

    #[verifier::when_used_as_spec(is_disabled_spec)]
    pub fn is_disabled(self) -> (r: bool)
        ensures
            r == self.is_disabled_spec(),
    {
        match self {
            JenkinsJobColor::Disabled | JenkinsJobColor::DisabledAnime => true,
            _ => false,
        }
    }
}

} // verus!
