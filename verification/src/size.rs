use vstd::prelude::*;

verus! {

/// Terminal dimensions applied to the PTY master.
///
/// Rows and columns are caller-controlled; the pixel dimensions are not and
/// stay zero throughout a session.
#[derive(Clone, Copy, Debug, PartialEq, Eq, Structural)]
pub struct TermSize {
    pub rows: u16,
    pub cols: u16,
    pub pixel_width: u16,
    pub pixel_height: u16,
}

impl TermSize {
    /// The size a resize to `rows` by `cols` yields: pixel dimensions are
    /// not caller-controlled and default to zero.
    pub open spec fn from_dims_spec(rows: u16, cols: u16) -> TermSize {
        TermSize { rows, cols, pixel_width: 0, pixel_height: 0 }
    }

    /// Builds the size a resize to `rows` by `cols` applies.
    pub fn from_dims(rows: u16, cols: u16) -> (s: TermSize)
        ensures
            s == TermSize::from_dims_spec(rows, cols),
    {
        TermSize { rows, cols, pixel_width: 0, pixel_height: 0 }
    }

    /// The fixed startup size: 24 rows by 80 columns, zero pixel dimensions.
    pub open spec fn initial_spec() -> TermSize {
        TermSize { rows: 24, cols: 80, pixel_width: 0, pixel_height: 0 }
    }

    /// Builds the fixed startup size.
    pub fn initial() -> (s: TermSize)
        ensures
            s == TermSize::initial_spec(),
    {
        TermSize { rows: 24, cols: 80, pixel_width: 0, pixel_height: 0 }
    }
}

} // verus!
