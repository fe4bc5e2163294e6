//! Colors as the scene carries them.

use vstd::prelude::*;

verus! {

/// A color in the sRGB space with an alpha channel, one scalar per channel.
#[derive(Clone, Copy, Debug, PartialEq)]
pub struct Srgba<T> {
    pub red: T,
    pub green: T,
    pub blue: T,
    pub alpha: T,
}

impl<T> Srgba<T> {
    pub fn new(red: T, green: T, blue: T, alpha: T) -> (r: Self)
        ensures
            r == (Srgba { red, green, blue, alpha }),
    {
        Srgba { red, green, blue, alpha }
    }
}

impl<T: Default> Srgba<T> {
    /// Every channel is a default value of the scalar: transparent black for
    /// the primitive number types.
    pub open spec fn is_transparent(self) -> bool {
        crate::geometry::is_default(self.red) && crate::geometry::is_default(self.green)
            && crate::geometry::is_default(self.blue) && crate::geometry::is_default(self.alpha)
    }

    /// The color whose channels are all the scalar's default.
    pub fn transparent() -> (r: Self)
        ensures
            r.is_transparent(),
    {
        Srgba { red: T::default(), green: T::default(), blue: T::default(), alpha: T::default() }
    }
}

} // verus!
