use vstd::prelude::*;

use crate::remote_status::RemoteStatus;

verus! {

/// The status field of a TeamCity build.
#[derive(Clone, Copy, Debug)]
pub struct TeamCityResponse {
    pub status: TeamCityBuildStatus,
}

#[derive(Clone, Copy, PartialEq, Eq, Structural, Debug)]
pub enum TeamCityBuildStatus {
    Success,
    Failure,
    Error,
}

/// A TeamCity answer maps one to one onto a status; no answer is Unknown.
pub open spec fn team_city_status_spec(response: Option<TeamCityResponse>) -> RemoteStatus {
    match response {
        Some(TeamCityResponse { status: TeamCityBuildStatus::Success }) => RemoteStatus::Passing,
        Some(TeamCityResponse { status: TeamCityBuildStatus::Failure }) => RemoteStatus::Failing,
        _ => RemoteStatus::Unknown,
    }
}

pub fn team_city_status(response: &Option<TeamCityResponse>) -> (r: RemoteStatus)
    ensures
        r == team_city_status_spec(*response),
{
    match response {
        Some(answer) => match answer.status {
            TeamCityBuildStatus::Success => RemoteStatus::Passing,
            TeamCityBuildStatus::Failure => RemoteStatus::Failing,
            TeamCityBuildStatus::Error => RemoteStatus::Unknown,
        },
        None => RemoteStatus::Unknown,
    }
}

} // verus!
