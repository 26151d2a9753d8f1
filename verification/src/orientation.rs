//! Per-image orientation: a rotation in quarter turns combined with an
//! optional horizontal flip. Composition adds rotations modulo a full turn
//! and XORs the flips.

use vstd::prelude::*;

verus! {

#[derive(Debug, Copy, Clone, PartialEq, Eq, Structural)]
pub enum Rotate {
    Rotate0,
    Rotate90,
    Rotate180,
    Rotate270,
}

#[derive(Debug, Copy, Clone, PartialEq, Eq, Structural)]
pub struct Orientation {
    pub rotate: Rotate,
    pub horizontal_flip: bool,
}

impl Rotate {
    /// Quarter turns as a number 0..4.
    pub open spec fn spec_quarters(self) -> int {
        match self {
            Rotate::Rotate0 => 0,
            Rotate::Rotate90 => 1,
            Rotate::Rotate180 => 2,
            Rotate::Rotate270 => 3,
        }
    }

    pub open spec fn spec_from_quarters(q: int) -> Rotate {
        if q == 0 {
            Rotate::Rotate0
        } else if q == 1 {
            Rotate::Rotate90
        } else if q == 2 {
            Rotate::Rotate180
        } else {
            Rotate::Rotate270
        }
    }

    /// Composition of two rotations: addition modulo four quarter turns.
    pub open spec fn spec_plus(self, rhs: Rotate) -> Rotate {
        Rotate::spec_from_quarters((self.spec_quarters() + rhs.spec_quarters()) % 4)
    }

    /// Rotate by `rhs` on top of `self`.
    pub fn plus(self, rhs: Rotate) -> (r: Rotate)
        ensures
            r == self.spec_plus(rhs),
    {
        match (self, rhs) {
            (Rotate::Rotate180, Rotate::Rotate180)
            | (Rotate::Rotate90, Rotate::Rotate270)
            | (Rotate::Rotate270, Rotate::Rotate90) => Rotate::Rotate0,

            (Rotate::Rotate0, Rotate::Rotate90)
            | (Rotate::Rotate180, Rotate::Rotate270)
            | (Rotate::Rotate270, Rotate::Rotate180) => Rotate::Rotate90,

            (Rotate::Rotate0, Rotate::Rotate180)
            | (Rotate::Rotate90, Rotate::Rotate90)
            | (Rotate::Rotate270, Rotate::Rotate270) => Rotate::Rotate180,

            (Rotate::Rotate0, Rotate::Rotate270)
            | (Rotate::Rotate90, Rotate::Rotate180)
            | (Rotate::Rotate180, Rotate::Rotate90) => Rotate::Rotate270,

            (_, Rotate::Rotate0) => self,
        }
    }
}

impl Default for Rotate {
    fn default() -> (r: Rotate)
        ensures
            r == Rotate::Rotate0,
    {
        Rotate::Rotate0
    }
}

impl Orientation {
    pub fn new(rotate: Rotate, horizontal_flip: bool) -> (r: Orientation)
        ensures
            r.rotate == rotate,
            r.horizontal_flip == horizontal_flip,
    {
        Orientation { rotate, horizontal_flip }
    }

    /// The identity orientation: no rotation, no flip.
    pub open spec fn spec_identity() -> Orientation {
        Orientation { rotate: Rotate::Rotate0, horizontal_flip: false }
    }

    pub fn identity() -> (r: Orientation)
        ensures
            r == Orientation::spec_identity(),
    {
        Orientation { rotate: Rotate::Rotate0, horizontal_flip: false }
    }

    /// Composition: rotations add modulo a full turn, flips XOR.
    pub open spec fn spec_plus(self, rhs: Orientation) -> Orientation {
        Orientation {
            rotate: self.rotate.spec_plus(rhs.rotate),
            horizontal_flip: self.horizontal_flip ^ rhs.horizontal_flip,
        }
    }

    /// Apply a further orientation change on top of this one.
    pub fn plus(self, rhs: Orientation) -> (r: Orientation)
        ensures
            r == self.spec_plus(rhs),
    {
        Orientation {
            rotate: self.rotate.plus(rhs.rotate),
            horizontal_flip: self.horizontal_flip ^ rhs.horizontal_flip,
        }
    }

    /// Map one of the eight EXIF orientation codes to an orientation;
    /// any other code carries no orientation.
    pub open spec fn spec_from_exif(value: u32) -> Option<Orientation> {
        if value == 1 {
            Some(Orientation { rotate: Rotate::Rotate0, horizontal_flip: false })
        } else if value == 2 {
            Some(Orientation { rotate: Rotate::Rotate0, horizontal_flip: true })
        } else if value == 3 {
            Some(Orientation { rotate: Rotate::Rotate180, horizontal_flip: false })
        } else if value == 4 {
            Some(Orientation { rotate: Rotate::Rotate180, horizontal_flip: true })
        } else if value == 5 {
            Some(Orientation { rotate: Rotate::Rotate270, horizontal_flip: true })
        } else if value == 6 {
            Some(Orientation { rotate: Rotate::Rotate90, horizontal_flip: false })
        } else if value == 7 {
            Some(Orientation { rotate: Rotate::Rotate90, horizontal_flip: true })
        } else if value == 8 {
            Some(Orientation { rotate: Rotate::Rotate270, horizontal_flip: false })
        } else {
            None
        }
    }

    pub fn from_exif(value: u32) -> (r: Option<Orientation>)
        ensures
            r == Orientation::spec_from_exif(value),
    {
        match value {
            1 => Some(Orientation::new(Rotate::Rotate0, false)),
            2 => Some(Orientation::new(Rotate::Rotate0, true)),
            3 => Some(Orientation::new(Rotate::Rotate180, false)),
            4 => Some(Orientation::new(Rotate::Rotate180, true)),
            5 => Some(Orientation::new(Rotate::Rotate270, true)),
            6 => Some(Orientation::new(Rotate::Rotate90, false)),
            7 => Some(Orientation::new(Rotate::Rotate90, true)),
            8 => Some(Orientation::new(Rotate::Rotate270, false)),
            _ => None,
        }
    }

    /// The orientation read from EXIF metadata, or the identity when the
    /// metadata is absent or carries no valid code.
    pub fn from_exif_or_default(value: Option<u32>) -> (r: Orientation)
        ensures
            match value {
                Some(v) => r == Orientation::spec_from_exif(v).unwrap_or(
                    Orientation::spec_identity(),
                ),
                None => r == Orientation::spec_identity(),
            },
    {
        match value {
            Some(v) => match Orientation::from_exif(v) {
                Some(o) => o,
                None => Orientation::identity(),
            },
            None => Orientation::identity(),
        }
    }
}

impl Default for Orientation {
    fn default() -> (r: Orientation)
        ensures
            r == Orientation::spec_identity(),
    {
        Orientation { rotate: Rotate::Rotate0, horizontal_flip: false }
    }
}

/// Composing orientations is associative.
pub proof fn lemma_orientation_assoc(a: Orientation, b: Orientation, c: Orientation)
    ensures
        a.spec_plus(b).spec_plus(c) == a.spec_plus(b.spec_plus(c)),
{
}

/// The identity orientation is neutral on the right and on the left.
pub proof fn lemma_orientation_identity(a: Orientation)
    ensures
        a.spec_plus(Orientation::spec_identity()) == a,
        Orientation::spec_identity().spec_plus(a) == a,
{
}

/// Four quarter turns in a row return to the starting orientation.
pub proof fn lemma_rotate_four_times(a: Orientation)
    ensures
        a.spec_plus(Orientation { rotate: Rotate::Rotate90, horizontal_flip: false })
            .spec_plus(Orientation { rotate: Rotate::Rotate90, horizontal_flip: false })
            .spec_plus(Orientation { rotate: Rotate::Rotate90, horizontal_flip: false })
            .spec_plus(Orientation { rotate: Rotate::Rotate90, horizontal_flip: false }) == a,
{
}

/// Two horizontal flips in a row return to the starting orientation.
pub proof fn lemma_flip_twice(a: Orientation)
    ensures
        a.spec_plus(Orientation { rotate: Rotate::Rotate0, horizontal_flip: true })
            .spec_plus(Orientation { rotate: Rotate::Rotate0, horizontal_flip: true }) == a,
{
}

} // verus!
