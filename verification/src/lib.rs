//! A small IP "risk analysis" library: a placeholder scoring rule over an
//! input string, the request and response records around it, and the timing
//! of one analysis call.

pub mod analysis;
mod clock;
