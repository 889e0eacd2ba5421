//! Orchestration of double-buffered GPU compute passes over a terrain grid.
//!
//! A simulation session keeps two physical generations of every grid image and runs a chain
//! of compute kernels over them, each kernel reading one generation and writing the other.
//! This crate decides, tick by tick, which kernels are dispatched and against which of the
//! two binding sets; it does not touch the GPU. The caller reports how far the kernels have
//! compiled, asks for the dispatches of the tick, and issues them.
//!
//! - [`grid`]: the generations, the channel groups and the images that store them.
//! - [`kernel`]: the kernel registry with the compile status of every stage.
//! - [`binding`]: the two binding sets and what each binds.
//! - [`phase`]: the phases of the pipeline and how a tick advances them.
//! - [`dispatch`]: the dispatch sequence of a phase.
//! - [`tick`]: the session and its tick.
//! - [`dataflow`]: what a plan of dispatches does to the contents of the generations.

pub mod binding;
pub mod dataflow;
pub mod dispatch;
pub mod grid;
pub mod kernel;
pub mod phase;
pub mod tick;
