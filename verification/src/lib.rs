//! Core of a continuous local-to-remote file synchronization tool.
//!
//! The library turns raw filesystem notifications into synchronization
//! requests: it normalizes absolute paths against a workspace root, filters
//! ignored paths, classifies events into synchronization intents, bundles
//! file contents into a tar payload, and builds the request that a transport
//! delivers to the remote endpoint. It also plans the playbook endpoint
//! calls that scope a synchronization session.

pub mod archive;
pub mod cmd;
pub mod errors;
pub mod intent;
pub mod matcher;
pub mod paths;
pub mod playbooks;
pub mod request;
