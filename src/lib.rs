//! A client-side codec and request runtime for the CQL binary protocol, version 4.
pub mod batch;
pub mod column;
pub mod compression;
pub mod consistency;
pub mod decoder;
pub mod error;
pub mod frame;
pub mod murmur3;
pub mod reporter;
pub mod request;
pub mod response;
pub mod ring;
pub mod rows;
pub mod token;
pub mod wire;
pub mod worker;
