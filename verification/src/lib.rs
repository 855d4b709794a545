//! RustWave API library: the verified decision logic behind the RustWave
//! HTTP service (error envelopes, the incoming-file queue, the handler
//! pipelines for the wave, radio-relay and ChanNet endpoints).

pub mod errors;
pub mod models;
pub mod state;
pub mod laws;
pub mod text;
pub mod paths;
pub mod upload;
pub mod relay;
pub mod chan;
pub mod wave;
pub mod cli;
