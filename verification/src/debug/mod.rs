//! Helpers of the debug visualizations.
pub mod animation;
