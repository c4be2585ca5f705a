//! Platform-independent core of an OpenSL ES audio backend: the decisions of the
//! recorder and player setup, the recording callback's ring-buffer bookkeeping,
//! stream identifiers and the phase of a test tone.
pub mod index;
pub mod wave;
pub mod stream;
pub mod format;
pub mod device;
pub mod sles;
pub mod event_loop;
