//! Marker types for the two rating scales.
use vstd::prelude::*;

verus! {

/// Marker type for the public (display) scale of Glicko-2 ratings. See [`RatingScale`].
///
/// Only the type matters; its single value carries no information.
#[derive(Eq, PartialEq, Ord, PartialOrd, Copy, Clone, Debug)]
pub enum Public {
    /// The public scale.
    Scale,
}

/// Marker type for the internal (computation) scale of Glicko-2 ratings. See [`RatingScale`].
///
/// Only the type matters; its single value carries no information.
#[derive(Eq, PartialEq, Ord, PartialOrd, Copy, Clone, Debug)]
pub enum Internal {
    /// The internal scale.
    Scale,
}

/// Marker trait for a rating scale.
///
/// All Glicko-2 calculations use the [`Internal`] scale; [`Public`] ratings are the ones to
/// display. The two are related by a fixed affine transform.
pub trait RatingScale: Eq + PartialEq + Ord + PartialOrd + Copy + Clone + core::fmt::Debug {}

impl RatingScale for Public {}

impl RatingScale for Internal {}

} // verus!
