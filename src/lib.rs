//! Local deployment of a web-application archive onto a servlet container:
//! context-path normalisation, descriptor naming and emission, cleanup of
//! stale deployments, and the supervision of the server process.

pub mod paths;
pub mod error;
pub mod descriptor;
pub mod cleanup;
pub mod supervisor;
pub mod controller;
pub mod profiles;
