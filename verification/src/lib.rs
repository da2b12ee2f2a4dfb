//! A verified model of a fixed-topology video-capture processing graph.
//!
//! The crate builds a directed graph of stream-processing stages with a
//! single fan-out point, two bounded-buffer branches (an encode/mux branch
//! ending in a file sink and a raw-frame branch ending in a frame-delivery
//! sink), and drives the running graph's lifecycle from an ordered stream of
//! runtime events until a clean or error-triggered shutdown.

pub mod backpressure;
pub mod builder;
pub mod graph;
pub mod lifecycle;
pub mod probe;
pub mod target;
pub mod text;
