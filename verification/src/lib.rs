//! Backend logic of a terminal panel: command dispatch, working-directory
//! tracking, the session registry, and the reassembly and classification of
//! the output that a running command streams back.

pub mod classify;
pub mod executor;
pub mod output;
pub mod pattern;
pub mod reassemble;
pub mod registry;
pub mod stream;
pub mod text;
pub mod workdir;
