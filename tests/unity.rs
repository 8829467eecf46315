use build_status_light::errors::UnityRetrievalError;
use build_status_light::remote_integration::RemoteIntegration;
use build_status_light::remote_status::RemoteStatus;
use build_status_light::scheduler::RateWindow;
use build_status_light::unity_cloud_integration::{UnityCloudIntegration, UNITY_FLOOR_INTERVAL_MS};
use build_status_light::unity_cloud_response::{UnityBuild, UnityBuildStatus};

use UnityBuildStatus::{Canceled, Failure, Queued, Started, Success};

fn both(a: UnityBuildStatus, b: UnityBuildStatus) -> RemoteStatus {
    UnityCloudIntegration::platforms_status(&Ok(a), &Ok(b))
}

#[test]
fn two_platform_rules() {
    assert_eq!(both(Success, Success), RemoteStatus::Passing);
    assert_eq!(both(Success, Failure), RemoteStatus::Failing);
    assert_eq!(both(Failure, Success), RemoteStatus::Failing);
    assert_eq!(both(Failure, Failure), RemoteStatus::Failing);
}

#[test]
fn retrieval_error_is_unknown() {
    let missing = Err(UnityRetrievalError::NoBuildsReturned);
    let failed = Err(UnityRetrievalError::HttpError { http_error_message: "503".to_string() });
    assert_eq!(UnityCloudIntegration::platforms_status(&Ok(Success), &missing), RemoteStatus::Unknown);
    assert_eq!(UnityCloudIntegration::platforms_status(&failed, &Ok(Success)), RemoteStatus::Unknown);
    assert_eq!(UnityCloudIntegration::platforms_status(&failed, &missing), RemoteStatus::Unknown);
}

#[test]
fn other_statuses() {
    assert_eq!(both(Queued, Started), RemoteStatus::Unknown);
    assert_eq!(both(Canceled, UnityBuildStatus::Unknown), RemoteStatus::Unknown);
    assert_eq!(both(Success, Queued), RemoteStatus::Passing);
    assert_eq!(both(Failure, Canceled), RemoteStatus::Failing);
}

#[test]
fn platform_status_from_answer() {
    let builds = vec![UnityBuild { build_status: Failure }, UnityBuild { build_status: Success }];
    assert_eq!(UnityCloudIntegration::get_platform_status(Ok(builds)).unwrap(), Failure);
    assert!(matches!(
        UnityCloudIntegration::get_platform_status(Ok(vec![])),
        Err(UnityRetrievalError::NoBuildsReturned)
    ));
    match UnityCloudIntegration::get_platform_status(Err("timed out".to_string())) {
        Err(UnityRetrievalError::HttpError { http_error_message }) => {
            assert_eq!(http_error_message, "timed out")
        }
        other => panic!("unexpected {:?}", other),
    }
}

#[test]
fn unity_urls_and_settings() {
    let u = UnityCloudIntegration::new(5, 6, 13, "SECRET-REDACTED", "https://build/api/orgs/o/projects/p/buildtargets");
    assert_eq!(u.ios_url(), "https://build/api/orgs/o/projects/p/buildtargets/ios-development/builds?per_page=1");
    assert_eq!(
        u.android_url(),
        "https://build/api/orgs/o/projects/p/buildtargets/android-development/builds?per_page=1"
    );
    assert_eq!(u.api_token(), "SECRET-REDACTED");
    assert_eq!((u.get_red_id(), u.get_green_id(), u.get_blue_id()), (5, 6, 13));
    assert_eq!(u.last_status(), RemoteStatus::Unknown);
    assert_eq!(u.next_poll_at_ms(), 0);
}

#[test]
fn polls_are_spaced_by_the_quota() {
    let mut u = UnityCloudIntegration::new(1, 2, 3, "t", "http://u");
    let now = 1_000_000;
    assert!(u.should_poll(now));
    let window = Some(RateWindow { remaining: 10, reset_at_ms: now + 5000 });
    let status = u.get_status(now, &Ok(Success), &Ok(Success), window);
    assert_eq!(status, RemoteStatus::Passing);
    assert_eq!(u.last_status(), RemoteStatus::Passing);
    assert_eq!(u.next_poll_at_ms(), now + UNITY_FLOOR_INTERVAL_MS);
    assert!(!u.should_poll(now + 1));
    let cached = u.get_status(now + 1, &Ok(Failure), &Ok(Failure), None);
    assert_eq!(cached, RemoteStatus::Passing);
    assert_eq!(u.next_poll_at_ms(), now + UNITY_FLOOR_INTERVAL_MS);

    let later = now + UNITY_FLOOR_INTERVAL_MS;
    assert!(u.should_poll(later));
    let starved = Some(RateWindow { remaining: 2, reset_at_ms: later + 60_000 });
    let status = u.get_status(later, &Ok(Failure), &Ok(Success), starved);
    assert_eq!(status, RemoteStatus::Failing);
    assert_eq!(u.next_poll_at_ms(), later + 30_000);
}

#[test]
fn end_of_time_saturates() {
    let mut u = UnityCloudIntegration::new(1, 2, 3, "t", "http://u");
    u.get_status(u64::MAX - 5, &Ok(Success), &Ok(Success), None);
    assert_eq!(u.next_poll_at_ms(), u64::MAX);
}
