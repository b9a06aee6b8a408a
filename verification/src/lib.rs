//! Frame-tick core of an embedded 3D-scene front end.
//!
//! A host engine mounts a scene, asks its asset loader to stream in a single
//! tracked model, and calls into this crate once per rendered frame.  The
//! crate owns the two pieces of that loop with real state and failure
//! semantics:
//!
//! * [`monitor`] — a load-state observer that polls the loader's coarse
//!   status, counts failed observations against a fixed retry limit, and
//!   becomes permanently inert once a terminal outcome is known;
//! * [`rotation`] — a driver that advances the orientation of every marked
//!   scene entity in proportion to elapsed frame time, whether or not the
//!   load has finished;
//! * [`asset`] — the reference naming the one tracked asset, and the
//!   locator string the loader is queried with.
//!
//! The engine itself (scene graph, loader, scheduler) stays outside: each
//! frame the host hands in plain values — the loader's status answer, the
//! resolution outcome per marked entity, and the elapsed time — and takes
//! back the new state, the diagnostics to emit, and the new orientations.

pub mod asset;
pub mod monitor;
pub mod rotation;
