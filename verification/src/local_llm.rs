//! The inference server on this machine and the models it can run.

pub mod model;
