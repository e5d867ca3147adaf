//! A level-triggered reconciliation core that needs no Kubernetes cluster.
//!
//! [`source`] turns anything that can list its world and stream changes to it into the
//! standard [`watcher::Event`] protocol. [`protocol`] is the mathematical account of that
//! machine, [`calls`] states what each call of it owes, and [`laws`] what holds of every run.
//! [`k8s`] holds the metadata types that such objects carry.
#![allow(unused_imports)]

pub mod calls;
pub mod k8s;
pub mod laws;
pub mod protocol;
pub mod source;
pub mod watcher;

pub use source::WatchSource;
