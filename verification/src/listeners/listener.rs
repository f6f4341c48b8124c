//! The two states of a listener under construction: without a sink, and
//! with one.

use std::sync::Arc;
use vstd::prelude::*;
use crate::adapters::Adapter;

verus! {

/// No sink has been attached yet.
#[derive(Default, Clone, Copy)]
pub struct NoAdapter;

/// A sink has been attached. The listener holds it shared.
#[derive(Default, Clone)]
pub struct SomeAdapter<T: Adapter>(pub Arc<T>);

} // verus!
