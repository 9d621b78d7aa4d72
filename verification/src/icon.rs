use vstd::prelude::*;

use crate::errors::IconError;

verus! {

/// A resize instruction: the requested icon dimensions in pixels, read off the
/// request path (or defaulted). Validation makes it square and bounded.
#[derive(Clone, Copy, Debug, PartialEq, Eq, Structural)]
pub struct Icon {
    pub width: u32,
    pub height: u32,
}

/// What validation decides, as a mathematical function: the width bound is
/// checked first, then the height bound, then squareness, and the first
/// failing check names the error.
pub open spec fn spec_validate(icon: Icon) -> Result<(), IconError> {
    if icon.width < 1 || icon.width > 500 {
        Err(IconError::InvalidWidth)
    } else if icon.height < 1 || icon.height > 500 {
        Err(IconError::InvalidHeight)
    } else if icon.width != icon.height {
        Err(IconError::InvalidSize)
    } else {
        Ok(())
    }
}

impl Icon {
    /// Both dimensions lie in `[1, 500]` and are equal.
    pub open spec fn spec_valid(self) -> bool {
        &&& 1 <= self.width <= 500
        &&& 1 <= self.height <= 500
        &&& self.width == self.height
    }

    /// Gate an icon spec before any fetch or render work: passes it through
    /// unchanged exactly when both dimensions lie in `[1, 500]` and are equal,
    /// and otherwise reports the first failing check.
    pub fn validate(&self) -> (r: Result<(), IconError>)
        ensures
            r == spec_validate(*self),
            r is Ok <==> self.spec_valid(),
    {
        if self.width < 1 || self.width > 500 {
            return Err(IconError::InvalidWidth);
        }
        if self.height < 1 || self.height > 500 {
            return Err(IconError::InvalidHeight);
        }
        if self.width != self.height {
            return Err(IconError::InvalidSize);
        }
        Ok(())
    }
}

} // verus!
