//! Verified core of a small web front end for `yt-dlp`: the job lifecycle,
//! the text forms stored in the database, the progress events a client is
//! sent, the command line handed to `yt-dlp`, and the clean-up sweep.
pub mod text;
pub mod job_status;
pub mod submit;
pub mod config;
pub mod progress;
pub mod run_job;
pub mod reaper;
pub mod download;
pub mod job_run;
