//! Plain unsigned integer vectors, laid out as the shader's `uvec` types.

use vstd::prelude::*;

verus! {

/// Two unsigned components.
#[derive(Clone, Copy, Debug, PartialEq, Eq, Structural)]
pub struct UVec2 {
    pub x: u32,
    pub y: u32,
}

/// Three unsigned components.
#[derive(Clone, Copy, Debug, PartialEq, Eq, Structural)]
pub struct UVec3 {
    pub x: u32,
    pub y: u32,
    pub z: u32,
}

/// Four unsigned components.
#[derive(Clone, Copy, Debug, PartialEq, Eq, Structural)]
pub struct UVec4 {
    pub x: u32,
    pub y: u32,
    pub z: u32,
    pub w: u32,
}

impl UVec2 {
    pub fn new(x: u32, y: u32) -> (v: UVec2)
        ensures
            v == (UVec2 { x, y }),
    {
        UVec2 { x, y }
    }
}

impl UVec3 {
    pub fn new(x: u32, y: u32, z: u32) -> (v: UVec3)
        ensures
            v == (UVec3 { x, y, z }),
    {
        UVec3 { x, y, z }
    }
}

impl UVec4 {
    pub fn new(x: u32, y: u32, z: u32, w: u32) -> (v: UVec4)
        ensures
            v == (UVec4 { x, y, z, w }),
    {
        UVec4 { x, y, z, w }
    }

    /// The component at position `c` (0 is `x`, 3 is `w`).
    pub open spec fn component(self, c: int) -> u32 {
        if c == 0 {
            self.x
        } else if c == 1 {
            self.y
        } else if c == 2 {
            self.z
        } else {
            self.w
        }
    }

    /// Reads the component at position `c`.
    pub fn get(&self, c: u32) -> (r: u32)
        requires
            c < 4,
        ensures
            r == self.component(c as int),
    {
        if c == 0 {
            self.x
        } else if c == 1 {
            self.y
        } else if c == 2 {
            self.z
        } else {
            self.w
        }
    }

    /// Drops the `w` component.
    pub fn truncate(&self) -> (r: UVec3)
        ensures
            r == (UVec3 { x: self.x, y: self.y, z: self.z }),
    {
        UVec3 { x: self.x, y: self.y, z: self.z }
    }
}

} // verus!
