use vstd::prelude::*;

use crate::errors::UnityRetrievalError;
use crate::jenkins_integration::one_if;
use crate::remote_integration::RemoteIntegration;
use crate::remote_status::RemoteStatus;
use crate::scheduler::{next_interval_spec, next_poll_interval, RateWindow};
use crate::unity_cloud_response::{UnityBuild, UnityBuildStatus};

verus! {

/// The poll interval that no quota makes shorter, in milliseconds.
pub const UNITY_FLOOR_INTERVAL_MS: u64 = 10000;

/// The status that one target's answer gave, or `None` where it gave none.
pub open spec fn retrieved(r: Result<UnityBuildStatus, UnityRetrievalError>) -> Option<
    UnityBuildStatus,
> {
    match r {
        Ok(status) => Some(status),
        Err(_) => None,
    }
}

/// The status of the two targets together. Either one missing makes it
/// Unknown. Otherwise each counts as a success, a failure or something else:
/// more of the latter than of the former two is Unknown, then any failure is
/// Failing, then any success is Passing.
pub open spec fn two_platform_status(ios: Option<UnityBuildStatus>, android: Option<UnityBuildStatus>) -> RemoteStatus {
    match (ios, android) {
        (Some(a), Some(b)) => {
            let s = one_if(a == UnityBuildStatus::Success) + one_if(b == UnityBuildStatus::Success);
            let f = one_if(a == UnityBuildStatus::Failure) + one_if(b == UnityBuildStatus::Failure);
            let other = 2 - s - f;
            if other > s + f {
                RemoteStatus::Unknown
            } else if f > 0 {
                RemoteStatus::Failing
            } else if s > 0 {
                RemoteStatus::Passing
            } else {
                RemoteStatus::Unknown
            }
        },
        _ => RemoteStatus::Unknown,
    }
}

/// Two successes pass; a success and a failure, or two failures, fail; a
/// target whose status could not be had makes the status Unknown.
pub proof fn lemma_two_platform_rules(a: Option<UnityBuildStatus>, b: Option<UnityBuildStatus>)
    ensures
        two_platform_status(Some(UnityBuildStatus::Success), Some(UnityBuildStatus::Success))
            == RemoteStatus::Passing,
        two_platform_status(Some(UnityBuildStatus::Success), Some(UnityBuildStatus::Failure))
            == RemoteStatus::Failing,
        two_platform_status(Some(UnityBuildStatus::Failure), Some(UnityBuildStatus::Success))
            == RemoteStatus::Failing,
        two_platform_status(Some(UnityBuildStatus::Failure), Some(UnityBuildStatus::Failure))
            == RemoteStatus::Failing,
        two_platform_status(None, b) == RemoteStatus::Unknown,
        two_platform_status(a, None) == RemoteStatus::Unknown,
{
}

/// What one target's latest-build request gives: the first build's status, an
/// error where the answer held no build, or the failed request's message.
pub open spec fn platform_status_spec(
    response: Result<Seq<UnityBuild>, Seq<char>>,
    r: Result<UnityBuildStatus, UnityRetrievalError>,
) -> bool {
    match response {
        Err(message) => r matches Err(UnityRetrievalError::HttpError { http_error_message })
            && http_error_message@ == message,
        Ok(builds) => if builds.len() == 0 {
            r matches Err(UnityRetrievalError::NoBuildsReturned)
        } else {
            r == Ok::<UnityBuildStatus, UnityRetrievalError>(builds[0].build_status)
        },
    }
}

/// Settings of a Unity Cloud Build project and of the light that shows its
/// health, with the status of its last poll and when the next one is due.
pub struct UnityCloudIntegration {
    r: u16,
    g: u16,
    b: u16,
    api_token: String,
    base_url: String,
    last_status: RemoteStatus,
    next_poll_at_ms: u64,
}

/// The state of a `UnityCloudIntegration`, as plain values.
pub struct UnitySettings {
    pub red: u16,
    pub green: u16,
    pub blue: u16,
    pub api_token: Seq<char>,
    pub base_url: Seq<char>,
    pub last_status: RemoteStatus,
    pub next_poll_at_ms: u64,
}

impl View for UnityCloudIntegration {
    type V = UnitySettings;

    closed spec fn view(&self) -> UnitySettings {
        UnitySettings {
            red: self.r,
            green: self.g,
            blue: self.b,
            api_token: self.api_token@,
            base_url: self.base_url@,
            last_status: self.last_status,
            next_poll_at_ms: self.next_poll_at_ms,
        }
    }
}

/// The moment after `now_ms` by `delay_ms`, or the last one that a `u64` holds.
pub open spec fn later_by(now_ms: u64, delay_ms: nat) -> u64 {
    if now_ms + delay_ms <= u64::MAX {
        (now_ms + delay_ms) as u64
    } else {
        u64::MAX
    }
}

impl UnityCloudIntegration {
    /// A new project, due to be polled at once, whose status is Unknown so far.
    pub fn new(r: u16, g: u16, b: u16, api_token: &str, base_url: &str) -> (u: UnityCloudIntegration)
        ensures
            u@ == (UnitySettings {
                red: r,
                green: g,
                blue: b,
                api_token: api_token@,
                base_url: base_url@,
                last_status: RemoteStatus::Unknown,
                next_poll_at_ms: 0,
            }),
    {
        UnityCloudIntegration {
            r: r,
            g: g,
            b: b,
            api_token: String::from_str(api_token),
            base_url: String::from_str(base_url),
            last_status: RemoteStatus::Unknown,
            next_poll_at_ms: 0,
        }
    }

    pub fn api_token(&self) -> (r: &str)
        ensures
            r@ == self@.api_token,
    {
        self.api_token.as_str()
    }

    /// Where the latest iOS build is read.
    pub fn ios_url(&self) -> (r: String)
        ensures
            r@ == self@.base_url + "/ios-development/builds?per_page=1"@,
    {
        let mut url = self.base_url.clone();
        url.append("/ios-development/builds?per_page=1");
        url
    }

    /// Where the latest Android build is read.
    pub fn android_url(&self) -> (r: String)
        ensures
            r@ == self@.base_url + "/android-development/builds?per_page=1"@,
    {
        let mut url = self.base_url.clone();
        url.append("/android-development/builds?per_page=1");
        url
    }

    /// The status of one target, from the answer to its latest-build request
    /// or the message of the request's failure.
    pub fn get_platform_status(response: Result<Vec<UnityBuild>, String>) -> (r: Result<
        UnityBuildStatus,
        UnityRetrievalError,
    >)
        ensures
            platform_status_spec(
                match response {
                    Ok(v) => Ok(v@),
                    Err(m) => Err(m@),
                },
                r,
            ),
    {
        match response {
            Ok(builds) => {
                if builds.len() != 0 {
                    Ok(builds[0].build_status)
                } else {
                    Err(UnityRetrievalError::NoBuildsReturned)
                }
            },
            Err(message) => Err(UnityRetrievalError::HttpError { http_error_message: message }),
        }
    }

    /// The status of the two targets together.
    pub fn platforms_status(
        ios: &Result<UnityBuildStatus, UnityRetrievalError>,
        android: &Result<UnityBuildStatus, UnityRetrievalError>,
    ) -> (r: RemoteStatus)
        ensures
            r == two_platform_status(retrieved(*ios), retrieved(*android)),
    {
        match (ios, android) {
            (Ok(a), Ok(b)) => {
                let mut successes: u8 = 0;
                let mut failures: u8 = 0;
                if *a == UnityBuildStatus::Success {
                    successes = successes + 1;
                }
                if *b == UnityBuildStatus::Success {
                    successes = successes + 1;
                }
                if *a == UnityBuildStatus::Failure {
                    failures = failures + 1;
                }
                if *b == UnityBuildStatus::Failure {
                    failures = failures + 1;
                }
                let other: u8 = 2 - successes - failures;
                if other > successes + failures {
                    RemoteStatus::Unknown
                } else if failures > 0 {
                    RemoteStatus::Failing
                } else if successes > 0 {
                    RemoteStatus::Passing
                } else {
                    RemoteStatus::Unknown
                }
            },
            _ => RemoteStatus::Unknown,
        }
    }

    /// Whether a poll is due at `now_ms`.
    pub fn should_poll(&self, now_ms: u64) -> (r: bool)
        ensures
            r == (now_ms >= self@.next_poll_at_ms),
    {
        now_ms >= self.next_poll_at_ms
    }

    /// The status of the last poll.
    pub fn last_status(&self) -> (r: RemoteStatus)
        ensures
            r == self@.last_status,
    {
        self.last_status
    }

    /// When the next poll is due, in milliseconds since the epoch.
    pub fn next_poll_at_ms(&self) -> (r: u64)
        ensures
            r == self@.next_poll_at_ms,
    {
        self.next_poll_at_ms
    }

    /// The status at `now_ms`. Before the next poll is due it is the last one,
    /// and nothing changes. Otherwise it is what the two targets' answers give;
    /// it is kept, and the next poll is due after the delay that the reported
    /// quota allows.
    pub fn get_status(
        &mut self,
        now_ms: u64,
        ios: &Result<UnityBuildStatus, UnityRetrievalError>,
        android: &Result<UnityBuildStatus, UnityRetrievalError>,
        window: Option<RateWindow>,
    ) -> (r: RemoteStatus)
        ensures
            now_ms < old(self)@.next_poll_at_ms ==> r == old(self)@.last_status && final(self)@
                == old(self)@,
            now_ms >= old(self)@.next_poll_at_ms ==> {
                &&& r == two_platform_status(retrieved(*ios), retrieved(*android))
                &&& final(self)@ == (UnitySettings {
                    last_status: r,
                    next_poll_at_ms: later_by(
                        now_ms,
                        next_interval_spec(window, now_ms as nat, UNITY_FLOOR_INTERVAL_MS as nat),
                    ),
                    ..old(self)@
                })
            },
    {
        if now_ms < self.next_poll_at_ms {
            return self.last_status;
        }
        let status = Self::platforms_status(ios, android);
        let delay = next_poll_interval(window, now_ms, UNITY_FLOOR_INTERVAL_MS);
        self.last_status = status;
        self.next_poll_at_ms = now_ms.saturating_add(delay);
        status
    }
}

impl RemoteIntegration for UnityCloudIntegration {
    fn get_red_id(&self) -> (r: u16)
        ensures
            r == self@.red,
    {
        self.r
    }

    fn get_green_id(&self) -> (r: u16)
        ensures
            r == self@.green,
    {
        self.g
    }

    fn get_blue_id(&self) -> (r: u16)
        ensures
            r == self@.blue,
    {
        self.b
    }
}

} // verus!
