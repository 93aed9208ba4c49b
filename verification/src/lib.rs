//! A Kubernetes browser: the state of its window, the tables and detail
//! views it builds from cluster objects, and the decisions around each
//! cluster operation.
use vstd::prelude::*;

pub mod app;
pub mod k8s;
pub mod laws;
pub mod model;
pub mod sorting;
pub mod text;
pub mod ui;

verus! {

} // verus!
