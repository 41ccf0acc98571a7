//! Checks on the shape of a curve before any transform runs.
use vstd::prelude::*;

verus! {

/// Why a curve was refused.
#[derive(Debug, Clone, Copy, PartialEq, Eq, Structural)]
pub enum CurveError {
    /// The curve has no point.
    EmptyInput,
    /// The first point has no component, or not the number required.
    InvalidDimension,
    /// A point has another number of components than the first.
    DimensionMismatch,
}

/// What the shape check decides for points with `lens[i]` components each,
/// where `required`, if given, is the number of components every point must
/// have: the common number of components, or the first error found.
pub open spec fn shape_outcome(lens: Seq<usize>, required: Option<usize>) -> Result<usize, CurveError> {
    if lens.len() == 0 {
        Err(CurveError::EmptyInput)
    } else if lens[0] == 0 || (required.is_some() && lens[0] != required.unwrap()) {
        Err(CurveError::InvalidDimension)
    } else if exists|i: int| 0 <= i < lens.len() && #[trigger] lens[i] != lens[0] {
        Err(CurveError::DimensionMismatch)
    } else {
        Ok(lens[0])
    }
}

/// Checks a curve whose points have `lens[i]` components each: it must have
/// a point, the first point must have at least one component (exactly
/// `required`, if given), and every point as many as the first.
pub fn check_shape(lens: &Vec<usize>, required: Option<usize>) -> (r: Result<usize, CurveError>)
    ensures
        r == shape_outcome(lens@, required),
{
    if lens.len() == 0 {
        return Err(CurveError::EmptyInput);
    }
    let first = lens[0];
    let refused = match required {
        Some(d) => first != d,
        None => false,
    };
    if first == 0 || refused {
        return Err(CurveError::InvalidDimension);
    }
    let mut i: usize = 0;
    while i < lens.len()
        invariant
            lens@.len() > 0,
            first == lens@[0],
            first != 0,
            required.is_some() ==> first == required.unwrap(),
            forall|j: int| 0 <= j < i ==> lens@[j] == first,
        decreases lens@.len() - i,
    {
        if lens[i] != first {
            assert(lens@[i as int] != lens@[0]);
            return Err(CurveError::DimensionMismatch);
        }
        i = i + 1;
    }
    Ok(first)
}

} // verus!
