//! The helper surface of the control plane.

pub mod credentials;
pub mod document;
pub mod document_laws;
pub mod periphery;
pub mod permission;
pub mod text;
pub mod token;
