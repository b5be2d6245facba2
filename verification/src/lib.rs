//! A library for turning a plaintext secret payload into a Kubernetes
//! `Secret` manifest and translating the outcome of an external sealing
//! process into an HTTP-style response.
//!
//! The pipeline is linear: validate the request, build the manifest,
//! derive the paths of the staged artifacts, and translate the sealing
//! outcome into a response. All of the decisions stand here, verified;
//! the surrounding server performs the file writes and the process
//! invocation and feeds their results back in.

pub mod manifest;
pub mod pipeline;
pub mod validate;
