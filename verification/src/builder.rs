//! Interface factory: an immutable builder that picks the logical display
//! geometry before a transport is bound to it.

use vstd::prelude::*;

verus! {

/// The logical display geometry, from the small fixed set the controller's
/// addressing registers can express.
#[derive(Clone, Copy, Debug, PartialEq, Eq, Structural)]
pub enum DisplaySize {
    /// 128 columns by 64 rows
    Display128x64,
    /// 128 columns by 32 rows
    Display128x32,
    /// 96 columns by 16 rows
    Display96x16,
}

/// The pixel dimensions of a geometry, columns then rows.
pub open spec fn size_dimensions(s: DisplaySize) -> (u8, u8) {
    match s {
        DisplaySize::Display128x64 => (128, 64),
        DisplaySize::Display128x32 => (128, 32),
        DisplaySize::Display96x16 => (96, 16),
    }
}

impl DisplaySize {
    /// The pixel dimensions of this geometry, columns then rows.
    pub fn dimensions(self) -> (r: (u8, u8))
        ensures
            r == size_dimensions(self),
    {
        match self {
            DisplaySize::Display128x64 => (128, 64),
            DisplaySize::Display128x32 => (128, 32),
            DisplaySize::Display96x16 => (96, 16),
        }
    }
}

/// Communication interface factory: an immutable value holding the chosen
/// geometry. Re-specializing with `with_size` returns a new builder; a
/// terminal connect step (owned by the transport-binding layer) consumes
/// it. Construction itself performs no I/O and cannot fail.
#[derive(Clone, Copy, Debug, PartialEq, Eq, Structural)]
pub struct Builder {
    display_size: DisplaySize,
}

impl Builder {
    /// The geometry this builder carries.
    pub closed spec fn spec_size(self) -> DisplaySize {
        self.display_size
    }

    /// The builder a fresh `new()` returns.
    pub closed spec fn spec_new() -> Builder {
        Builder { display_size: DisplaySize::Display128x64 }
    }

    /// The builder that `with_size` returns: the receiver with its geometry
    /// replaced.
    pub closed spec fn spec_with_size(self, display_size: DisplaySize) -> Builder {
        Builder { display_size }
    }

    /// A builder for the default geometry of 128 by 64 pixels.
    pub fn new() -> (r: Self)
        ensures
            r == Builder::spec_new(),
            r.spec_size() == DisplaySize::Display128x64,
    {
        Self { display_size: DisplaySize::Display128x64 }
    }

    /// A builder for the given geometry. The receiver is not mutated; the
    /// new builder differs from it only in the geometry, which is replaced,
    /// not combined.
    pub fn with_size(&self, display_size: DisplaySize) -> (r: Self)
        ensures
            r == self.spec_with_size(display_size),
            r.spec_size() == display_size,
    {
        Self { display_size }
    }

    /// The geometry this builder was given, for the transport-binding layer
    /// that consumes the builder.
    pub fn size(&self) -> (r: DisplaySize)
        ensures
            r == self.spec_size(),
    {
        self.display_size
    }
}

/// Replacement, not composition: re-specializing a builder by size
/// overwrites whatever size it carried, so only the last `with_size` in a
/// chain matters, whatever the chain started from.
pub proof fn lemma_with_size_replaces(b: Builder, s1: DisplaySize, s2: DisplaySize)
    ensures
        b.spec_with_size(s1).spec_with_size(s2) == b.spec_with_size(s2),
        Builder::spec_new().spec_with_size(s1).spec_with_size(s2)
            == Builder::spec_new().spec_with_size(s2),
{
}

} // verus!
