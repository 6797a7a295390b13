//! Turns a newly written row into a one-shot task registered with a
//! scheduling service: normalises the row into a schedule request, builds the
//! service's create-schedule body, signs the HTTP request and classifies the
//! service's answer.

pub mod json;
pub mod request;
pub mod error;
pub mod signing;
pub mod dispatch;
