use build_status_light::jenkins_integration::JenkinsIntegration;
use build_status_light::jenkins_response::{JenkinsBuildResult, JenkinsBuildStatus};
use build_status_light::scheduler::{next_poll_interval, RateWindow};
use build_status_light::unity_cloud_integration::UnityCloudIntegration;
use build_status_light::unity_cloud_response::UnityBuildStatus;
use build_status_light::config_file::{channel_triple, Config};
use build_status_light::remote_status::RemoteStatus;
use build_status_light::team_city_response::{team_city_status, TeamCityBuildStatus, TeamCityResponse};

#[test]
fn team_city_mapping() {
    let answer = |status| Some(TeamCityResponse { status });
    assert_eq!(team_city_status(&answer(TeamCityBuildStatus::Success)), RemoteStatus::Passing);
    assert_eq!(team_city_status(&answer(TeamCityBuildStatus::Failure)), RemoteStatus::Failing);
    assert_eq!(team_city_status(&answer(TeamCityBuildStatus::Error)), RemoteStatus::Unknown);
    assert_eq!(team_city_status(&None), RemoteStatus::Unknown);
}

#[test]
fn channel_triples() {
    assert_eq!(channel_triple(&vec![17, 27, 22]), Some((17, 27, 22)));
    assert_eq!(channel_triple(&vec![17, 27, 22, 5]), Some((17, 27, 22)));
    assert_eq!(channel_triple(&vec![17, 27]), None);
    assert_eq!(channel_triple(&vec![]), None);
}

#[test]
fn config_channels() {
    let config = Config {
        allowed_failures: 3,
        jenkins_username: "u".to_string(),
        jenkins_password: "p".to_string(),
        jenkins_base_url: "http://ci".to_string(),
        jenkins_led_pins: vec![1, 2, 3],
        unity_cloud_api_token: "t".to_string(),
        unity_base_url: "http://u".to_string(),
        unity_led_pins: vec![4],
    };
    assert_eq!(config.jenkins_channels(), Some((1, 2, 3)));
    assert_eq!(config.unity_channels(), None);
}

#[test]
fn end_to_end_scenario() {
    let build = |s| Some(JenkinsBuildResult { building: false, build_result: Some(s) });
    let poll = Some(vec![
        build(JenkinsBuildStatus::Success),
        build(JenkinsBuildStatus::Success),
        build(JenkinsBuildStatus::Failure),
    ]);
    assert_eq!(JenkinsIntegration::get_status(&poll), RemoteStatus::Failing);

    let now = 50_000;
    let window = RateWindow { remaining: 10, reset_at_ms: now + 5000 };
    let mut unity = UnityCloudIntegration::new(1, 2, 3, "t", "http://u");
    let status = unity.get_status(now, &Ok(UnityBuildStatus::Success), &Ok(UnityBuildStatus::Success), Some(window));
    assert_eq!(status, RemoteStatus::Passing);
    assert_eq!(next_poll_interval(Some(window), now, 0), 500);
    assert_eq!(next_poll_interval(Some(window), now, 2000), 2000);
}
