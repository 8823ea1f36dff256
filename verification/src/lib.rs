//! Core engine of a media remux/transcode tool: capability-driven stream
//! routing, container selection, pipeline assembly, an execution monitor with
//! crash-safe completion records, and the pure planning logic behind the
//! command-line front ends.

pub mod backend;
pub mod checkpoint;
pub mod compat;
pub mod discover;
pub mod doctor;
pub mod envcheck;
pub mod graph;
pub mod gstpipe;
pub mod job;
pub mod ladder;
pub mod monitor;
pub mod muxer;
pub mod packager;
pub mod probe;
pub mod qc;
pub mod remux;
pub mod route;
pub mod scan;
pub mod shell_escape;
mod sink;
pub mod strutil;
