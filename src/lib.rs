//! Build-health indicator library: turns the job results reported by build
//! services into one health status, and decides what a three-channel light
//! shows for it, how its animations hand over, how often a rate-limited
//! service is polled, and when a failing worker may be restarted.

pub mod remote_status;
pub mod remote_integration;
pub mod jenkins_response;
pub mod jenkins_integration;
pub mod errors;
pub mod unity_cloud_response;
pub mod scheduler;
pub mod unity_cloud_integration;
pub mod team_city_response;
pub mod coinbase_response;
pub mod config_file;
pub mod indicator;
pub mod supervisor;
pub mod worker;
