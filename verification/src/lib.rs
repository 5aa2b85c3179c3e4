//! A Dr.COM 802.1X / UDP heartbeat client for SCUT, reduced to its
//! deterministic core: settings resolution, address handling, the byte
//! codecs for MAC addresses and the decisions that drive the worker loops.
pub mod net;
pub mod util;
pub mod text;
pub mod settings;
pub mod source;
pub mod resolve;
pub mod cli;
pub mod supervisor;
pub mod shutdown;
pub mod service;
