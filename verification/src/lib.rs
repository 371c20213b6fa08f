//! A verified model of a point-in-rectangle compute service: the filtering
//! query itself, the buffer layout of its upload/readback pipeline, the
//! sentinel-mask result assembler, and the worker/gateway protocol that
//! serializes callers onto one compute worker.

pub mod assemble;
pub mod codec;
pub mod filter;
pub mod gateway;
pub mod geometry;
pub mod pipeline;
pub mod worker;
