//! Build-status badges for a Hydra continuous-integration server.
//!
//! Given a server, a glob that selects jobsets and a glob that selects jobs,
//! this crate decides whether the most recent settled state of every selected
//! jobset is passing. It holds the decisions only: it names the URLs to
//! fetch, selects jobsets, reduces the builds of an evaluation to a status,
//! walks an evaluation history to a verdict and folds the verdicts into the
//! badge. The caller performs the fetches and hands the decoded records back.

pub mod aggregate;
pub mod fetched;
pub mod model;
pub mod pattern;
pub mod remote;
pub mod request;
pub mod resolver;
pub mod response;
pub mod text;
