//! Delete-protection filtering engine.
//!
//! The library holds the decision core of a file-system filter that keeps
//! designated processes from deleting files: a bounded, insertion-ordered
//! registry of protected name fragments, the allow/deny decision taken on
//! every delete-intent operation, the decoding of control payloads that
//! mutate the registry, and the ordered acquire/rollback sequence that the
//! driver runs at load and unload.  The surrounding kernel plumbing (device
//! objects, filter-manager registration, IRP completion) stays outside; it
//! hands these functions plain values and acts on the verdicts they return.

pub mod codec;
pub mod control;
pub mod engine;
pub mod lifecycle;
pub mod registry;
pub mod text_match;
