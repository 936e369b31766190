//! Core of a small cavity-detection web service: the typed parameter model
//! of a job, the cross-field validator, the content tag that names a job,
//! the request shapes of the job-queue client, and the worker's planning of
//! a solver run.
pub mod frontend;
pub mod num;
pub mod params;
pub mod pdb;
pub mod queue;
pub mod tag;
pub mod validate;
pub mod worker;
