use vstd::prelude::*;

verus! {

/// Number of light slots in the GPU-side uniform buffer.  The packer always
/// emits exactly this many records; lights beyond it are silently dropped.
pub const CAPACITY: usize = 10;

/// A scene light as the control behavior owns it.
///
/// Each scalar is stored as the exact 32-bit value that will later stand on
/// the wire.  The renderer reads those bits as IEEE-754 numbers; this library
/// never does arithmetic on them, so it carries them as opaque bit patterns.
#[derive(Clone, Copy, PartialEq, Eq, Debug)]
pub struct Light {
    pub position: [u32; 3],
    pub color: [u32; 3],
    pub brightness: u32,
}

/// The wire-facing projection of a [`Light`]: one 32-byte uniform-buffer
/// record.  Field order matches the consuming shader's layout: the
/// `position`+`enabled` group and the `color`+`brightness` group each fill
/// 16 bytes.
#[derive(Clone, Copy, PartialEq, Eq, Debug)]
pub struct RawLight {
    pub position: [u32; 3],
    pub enabled: i32,
    pub color: [u32; 3],
    pub brightness: u32,
}

/// The wire record a live light projects to: same scalars, `enabled = 1`.
pub open spec fn spec_raw_of(l: Light) -> RawLight {
    RawLight {
        position: l.position,
        enabled: 1,
        color: l.color,
        brightness: l.brightness,
    }
}

/// The record an empty slot holds: every field zero, `enabled = 0`.
pub open spec fn spec_zero_raw() -> RawLight {
    RawLight {
        position: [0u32, 0u32, 0u32],
        enabled: 0,
        color: [0u32, 0u32, 0u32],
        brightness: 0u32,
    }
}

impl Light {
    /// Projects this light to its wire record with the slot marked live.
    pub fn to_raw(&self) -> (r: RawLight)
        ensures
            r == spec_raw_of(*self),
    {
        RawLight {
            position: self.position,
            enabled: 1,
            color: self.color,
            brightness: self.brightness,
        }
    }
}

impl RawLight {
    /// The record written into every slot that holds no light.
    pub fn zero() -> (r: RawLight)
        ensures
            r == spec_zero_raw(),
    {
        RawLight {
            position: [0u32, 0u32, 0u32],
            enabled: 0,
            color: [0u32, 0u32, 0u32],
            brightness: 0u32,
        }
    }
}

} // verus!
