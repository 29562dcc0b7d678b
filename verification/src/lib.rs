//! Verified core of a browser-automation job service: the job lifecycle, the planning of
//! browser actions, cookie parsing, the storage layout of jobs and the HTTP decisions.
//!
//! Everything that awaits a browser, a database or the network stays outside: it hands this
//! library plain values and acts on what the library decides.

pub mod api_response;
pub mod auth;
pub mod error;
pub mod external;
pub mod http;
pub mod job;
pub mod job_action;
pub mod job_config;
pub mod job_status;
pub mod repository;
pub mod results;
pub mod run_job;
pub mod scraper;
pub mod text;
pub mod use_cases;
