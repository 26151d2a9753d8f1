//! Unit-tagged numeric value types: distinct types for x- and y-axis
//! quantities so that widths, heights and the two axes cannot be mixed.
//! Arithmetic is exposed through checked operations only.

use vstd::prelude::*;

verus! {

/// An x-axis (width) quantity held in an `i32`.
#[derive(Debug, Copy, Clone, PartialEq, Eq, Structural)]
pub struct Xi32 {
    value: i32,
}

/// A y-axis (height) quantity held in an `i32`.
#[derive(Debug, Copy, Clone, PartialEq, Eq, Structural)]
pub struct Yi32 {
    value: i32,
}

/// An x-axis (width) quantity held in a `u32`.
#[derive(Debug, Copy, Clone, PartialEq, Eq, Structural)]
pub struct Xu32 {
    value: u32,
}

/// A y-axis (height) quantity held in a `u32`.
#[derive(Debug, Copy, Clone, PartialEq, Eq, Structural)]
pub struct Yu32 {
    value: u32,
}

/// Types with a zero element.
pub trait Zero: Sized {
    fn zero() -> Self;
}

impl Xi32 {
    pub closed spec fn spec_value(self) -> int {
        self.value as int
    }

    pub fn new(value: i32) -> (r: Xi32)
        ensures
            r.spec_value() == value,
    {
        Xi32 { value }
    }

    pub fn value(self) -> (r: i32)
        ensures
            r == self.spec_value(),
    {
        self.value
    }

    /// Checked addition within the axis; fails loudly on overflow.
    pub fn checked_add(self, rhs: Xi32) -> (r: Option<Xi32>)
        ensures
            match r {
                Some(v) => v.spec_value() == self.spec_value() + rhs.spec_value(),
                None => !(i32::MIN <= self.spec_value() + rhs.spec_value() <= i32::MAX),
            },
    {
        match self.value.checked_add(rhs.value) {
            Some(v) => Some(Xi32 { value: v }),
            None => None,
        }
    }

    /// Conversion to the unsigned x-axis type; fails loudly on negatives.
    pub fn to_unsigned(self) -> (r: Option<Xu32>)
        ensures
            match r {
                Some(v) => v.spec_value() == self.spec_value(),
                None => self.spec_value() < 0,
            },
    {
        if self.value >= 0 {
            Some(Xu32 { value: self.value as u32 })
        } else {
            None
        }
    }
}

impl Yi32 {
    pub closed spec fn spec_value(self) -> int {
        self.value as int
    }

    pub fn new(value: i32) -> (r: Yi32)
        ensures
            r.spec_value() == value,
    {
        Yi32 { value }
    }

    pub fn value(self) -> (r: i32)
        ensures
            r == self.spec_value(),
    {
        self.value
    }

    /// Checked addition within the axis; fails loudly on overflow.
    pub fn checked_add(self, rhs: Yi32) -> (r: Option<Yi32>)
        ensures
            match r {
                Some(v) => v.spec_value() == self.spec_value() + rhs.spec_value(),
                None => !(i32::MIN <= self.spec_value() + rhs.spec_value() <= i32::MAX),
            },
    {
        match self.value.checked_add(rhs.value) {
            Some(v) => Some(Yi32 { value: v }),
            None => None,
        }
    }

    /// Conversion to the unsigned y-axis type; fails loudly on negatives.
    pub fn to_unsigned(self) -> (r: Option<Yu32>)
        ensures
            match r {
                Some(v) => v.spec_value() == self.spec_value(),
                None => self.spec_value() < 0,
            },
    {
        if self.value >= 0 {
            Some(Yu32 { value: self.value as u32 })
        } else {
            None
        }
    }
}

impl Xu32 {
    pub closed spec fn spec_value(self) -> int {
        self.value as int
    }

    pub fn new(value: u32) -> (r: Xu32)
        ensures
            r.spec_value() == value,
    {
        Xu32 { value }
    }

    pub fn value(self) -> (r: u32)
        ensures
            r == self.spec_value(),
    {
        self.value
    }

    /// Checked addition within the axis; fails loudly on overflow.
    pub fn checked_add(self, rhs: Xu32) -> (r: Option<Xu32>)
        ensures
            match r {
                Some(v) => v.spec_value() == self.spec_value() + rhs.spec_value(),
                None => self.spec_value() + rhs.spec_value() > u32::MAX,
            },
    {
        match self.value.checked_add(rhs.value) {
            Some(v) => Some(Xu32 { value: v }),
            None => None,
        }
    }

    /// Checked subtraction within the axis; fails loudly on underflow.
    pub fn checked_sub(self, rhs: Xu32) -> (r: Option<Xu32>)
        ensures
            match r {
                Some(v) => v.spec_value() == self.spec_value() - rhs.spec_value(),
                None => self.spec_value() < rhs.spec_value(),
            },
    {
        match self.value.checked_sub(rhs.value) {
            Some(v) => Some(Xu32 { value: v }),
            None => None,
        }
    }

    /// Conversion to the signed x-axis type; fails loudly when too large.
    pub fn to_signed(self) -> (r: Option<Xi32>)
        ensures
            match r {
                Some(v) => v.spec_value() == self.spec_value(),
                None => self.spec_value() > i32::MAX,
            },
    {
        if self.value <= 0x7FFF_FFFF {
            Some(Xi32 { value: self.value as i32 })
        } else {
            None
        }
    }
}

impl Yu32 {
    pub closed spec fn spec_value(self) -> int {
        self.value as int
    }

    pub fn new(value: u32) -> (r: Yu32)
        ensures
            r.spec_value() == value,
    {
        Yu32 { value }
    }

    pub fn value(self) -> (r: u32)
        ensures
            r == self.spec_value(),
    {
        self.value
    }

    /// Checked addition within the axis; fails loudly on overflow.
    pub fn checked_add(self, rhs: Yu32) -> (r: Option<Yu32>)
        ensures
            match r {
                Some(v) => v.spec_value() == self.spec_value() + rhs.spec_value(),
                None => self.spec_value() + rhs.spec_value() > u32::MAX,
            },
    {
        match self.value.checked_add(rhs.value) {
            Some(v) => Some(Yu32 { value: v }),
            None => None,
        }
    }

    /// Checked subtraction within the axis; fails loudly on underflow.
    pub fn checked_sub(self, rhs: Yu32) -> (r: Option<Yu32>)
        ensures
            match r {
                Some(v) => v.spec_value() == self.spec_value() - rhs.spec_value(),
                None => self.spec_value() < rhs.spec_value(),
            },
    {
        match self.value.checked_sub(rhs.value) {
            Some(v) => Some(Yu32 { value: v }),
            None => None,
        }
    }

    /// Conversion to the signed y-axis type; fails loudly when too large.
    pub fn to_signed(self) -> (r: Option<Yi32>)
        ensures
            match r {
                Some(v) => v.spec_value() == self.spec_value(),
                None => self.spec_value() > i32::MAX,
            },
    {
        if self.value <= 0x7FFF_FFFF {
            Some(Yi32 { value: self.value as i32 })
        } else {
            None
        }
    }
}

impl Zero for Xi32 {
    fn zero() -> (r: Self)
        ensures
            r.spec_value() == 0,
    {
        Xi32 { value: 0 }
    }
}

impl Zero for Yi32 {
    fn zero() -> (r: Self)
        ensures
            r.spec_value() == 0,
    {
        Yi32 { value: 0 }
    }
}

impl Zero for Xu32 {
    fn zero() -> (r: Self)
        ensures
            r.spec_value() == 0,
    {
        Xu32 { value: 0 }
    }
}

impl Zero for Yu32 {
    fn zero() -> (r: Self)
        ensures
            r.spec_value() == 0,
    {
        Yu32 { value: 0 }
    }
}

/// A point with signed coordinates.
#[derive(Debug, Copy, Clone, PartialEq, Eq, Structural)]
pub struct PointI32 {
    pub x: Xi32,
    pub y: Yi32,
}

impl PointI32 {
    pub fn new(x: Xi32, y: Yi32) -> (r: PointI32)
        ensures
            r.x == x,
            r.y == y,
    {
        PointI32 { x, y }
    }

    /// Componentwise checked addition.
    pub fn checked_add(self, rhs: PointI32) -> (r: Option<PointI32>)
        ensures
            match r {
                Some(v) => v.x.spec_value() == self.x.spec_value() + rhs.x.spec_value()
                    && v.y.spec_value() == self.y.spec_value() + rhs.y.spec_value(),
                None => !(i32::MIN <= self.x.spec_value() + rhs.x.spec_value() <= i32::MAX)
                    || !(i32::MIN <= self.y.spec_value() + rhs.y.spec_value() <= i32::MAX),
            },
    {
        match (self.x.checked_add(rhs.x), self.y.checked_add(rhs.y)) {
            (Some(x), Some(y)) => Some(PointI32 { x, y }),
            _ => None,
        }
    }
}

impl Default for PointI32 {
    fn default() -> (r: PointI32)
        ensures
            r.x.spec_value() == 0,
            r.y.spec_value() == 0,
    {
        PointI32 { x: Xi32 { value: 0 }, y: Yi32 { value: 0 } }
    }
}

/// Image dimensions in pixels.
#[derive(Debug, Copy, Clone, PartialEq, Eq, Structural)]
pub struct DimensionsU32 {
    pub width: Xu32,
    pub height: Yu32,
}

impl DimensionsU32 {
    pub fn new(width: Xu32, height: Yu32) -> (r: DimensionsU32)
        ensures
            r.width == width,
            r.height == height,
    {
        DimensionsU32 { width, height }
    }

    /// The same area rotated by a quarter turn: width and height swap.
    pub fn rotate90(self) -> (r: DimensionsU32)
        ensures
            r.width.spec_value() == self.height.spec_value(),
            r.height.spec_value() == self.width.spec_value(),
    {
        DimensionsU32 {
            width: Xu32 { value: self.height.value },
            height: Yu32 { value: self.width.value },
        }
    }

    pub open spec fn spec_non_zero(self) -> bool {
        self.width.spec_value() > 0 && self.height.spec_value() > 0
    }

    pub fn non_zero(self) -> (r: bool)
        ensures
            r == self.spec_non_zero(),
    {
        self.width.value > 0 && self.height.value > 0
    }
}

} // verus!
