//! Kneedle: locating the knees and elbows of a sampled curve.
//!
//! The decisions of the algorithm (which curves are accepted, which
//! neighbours a smoothing kernel reaches, how a column is reduced to its
//! extremes, which samples are strict local extrema of the difference curve,
//! and which of those the threshold rule confirms) are made here on binary64
//! values given by their bit patterns, compared by the standard's ordering.
pub mod order;
pub mod candidates;
pub mod confirm;
pub mod extremes;
pub mod shape;
pub mod smoothing;
