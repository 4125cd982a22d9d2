//! The width budget that a render is given.

use vstd::prelude::*;

verus! {

/// How much room a render has.
///
/// `max_width` is the width of a line and `rem_width` what is left of the
/// current line. With no `max_width` nothing is limited and `rem_width` is not
/// looked at.
#[derive(Clone, Copy, Debug)]
pub struct WriteOpt {
    /// Maximum number of characters per line; `None` for lines of any length.
    pub max_width: Option<usize>,
    /// Number of characters that the current line can still take.
    pub rem_width: usize,
}

impl WriteOpt {
    /// Whether no width is limited.
    pub open spec fn is_unbounded(self) -> bool {
        self.max_width is None
    }

    /// Whether the current line has no more room than a whole line.
    pub open spec fn wf(self) -> bool {
        self.max_width matches Some(max) ==> self.rem_width <= max
    }

    /// Whether `width` more characters fit on the current line.
    pub open spec fn fits(self, width: nat) -> bool {
        self.is_unbounded() || width <= self.rem_width
    }

    /// Whether a line of `width` characters fits.
    pub open spec fn fits_line(self, width: nat) -> bool {
        match self.max_width {
            None => true,
            Some(max) => width <= max,
        }
    }

    /// The budget at the start of a line of which `reserve` characters are
    /// spoken for: what is left is the line less those, or nothing.
    pub open spec fn fresh_line(self, reserve: nat) -> WriteOpt {
        match self.max_width {
            None => self,
            Some(max) => WriteOpt {
                max_width: Some(max),
                rem_width: if reserve <= max {
                    (max - reserve) as usize
                } else {
                    0
                },
            },
        }
    }

    /// The budget that limits nothing.
    pub open spec fn spec_unbounded() -> WriteOpt {
        WriteOpt { max_width: None, rem_width: 0 }
    }

    /// A budget of lines of `max_width` characters, at the start of a line.
    pub fn new_width(max_width: usize) -> (opt: WriteOpt)
        ensures
            opt == (WriteOpt { max_width: Some(max_width), rem_width: max_width }),
            opt.wf(),
    {
        WriteOpt { max_width: Some(max_width), rem_width: max_width }
    }

    /// The budget that limits nothing.
    #[verifier::when_used_as_spec(spec_unbounded)]
    pub fn unbounded() -> (opt: WriteOpt)
        ensures
            opt == Self::spec_unbounded(),
            opt.is_unbounded(),
            opt.wf(),
    {
        WriteOpt { max_width: None, rem_width: 0 }
    }

    /// Tests whether `width` more characters fit on the current line.
    pub fn has_room(&self, width: usize) -> (fits: bool)
        ensures
            fits == self.fits(width as nat),
    {
        match self.max_width {
            None => true,
            Some(_) => width <= self.rem_width,
        }
    }

    /// Tests whether a line of `width` characters fits.
    pub fn has_line_room(&self, width: usize) -> (fits: bool)
        ensures
            fits == self.fits_line(width as nat),
    {
        match self.max_width {
            None => true,
            Some(max) => width <= max,
        }
    }

    /// Starts a line of which `reserve` characters are spoken for.
    pub fn next_line(&self, reserve: usize) -> (line: WriteOpt)
        ensures
            line == self.fresh_line(reserve as nat),
            line.wf(),
    {
        match self.max_width {
            None => *self,
            Some(max) => WriteOpt {
                max_width: Some(max),
                rem_width: if reserve <= max {
                    max - reserve
                } else {
                    0
                },
            },
        }
    }
}

} // verus!
