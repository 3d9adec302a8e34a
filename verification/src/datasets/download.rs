//! Datasets whose payload is retrieved from a remote source.

pub mod diabetes;
