//! The light-control behavior: the per-frame routine that owns the light
//! list, resolves its two identity references, and decides what the frame
//! does.
//!
//! A tick has two phases.  The input phase: while the primary pointer button
//! is held, find the orientation holder by identity and narrow it to the
//! transform capability; the host then composes the incremental rotation (a
//! floating-point rotor product, outside this library) and writes the result
//! back through [`crate::lookup::set_rotation`].  The sync phase: find the
//! target material by identity, pack the light list, and hand the host one
//! write of the full wire image at offset 0 of the material's slot-0 buffer.
//! Every missed lookup degrades to skipping that phase for the frame.

use vstd::prelude::*;

use crate::light::CAPACITY;
use crate::light::Light;
use crate::lookup::BufferResource;
use crate::lookup::Capability;
use crate::lookup::ComponentId;
use crate::lookup::Material;
use crate::lookup::Rotor;
use crate::lookup::SiblingComponent;
use crate::lookup::find_material_buffer;
use crate::lookup::find_transform;
use crate::lookup::rotation_at;
use crate::lookup::spec_transform_target;
use crate::lookup::spec_write_target;
use crate::pack::pack_bytes;
use crate::pack::spec_packed_bytes;

verus! {

/// An engine-level side effect a behavior may request after its tick, such
/// as adding or removing an entity.  This behavior never requests any: its
/// tick always returns an empty action list.
#[derive(Clone, Copy, PartialEq, Eq, Structural, Debug)]
pub enum EngineAction {
    /// Ask the host to add an entity to the scene.
    SpawnEntity,
    /// Ask the host to remove an entity from the scene.
    DestroyEntity,
}

/// The input phase's finding: which sibling to rotate, and the orientation
/// it currently holds, for the host to compose the increment onto.
#[derive(Clone, Copy, PartialEq, Eq, Structural, Debug)]
pub struct RotationStep {
    /// Index of the orientation holder in the sibling collection.
    pub index: usize,
    /// The orientation that holder carries at the start of the tick.
    pub current: Rotor,
}

/// The sync phase's outcome: one full-buffer write for the command sink,
/// fire-and-forget.
#[derive(Clone, PartialEq, Eq, Debug)]
pub struct BufferWrite {
    /// The GPU-resident buffer to write.
    pub resource: BufferResource,
    /// Byte offset of the write; always 0, the buffer is rewritten whole.
    pub offset: u64,
    /// The packed wire image, `32 * CAPACITY` bytes.
    pub bytes: Vec<u8>,
}

/// Everything one tick decides: the optional rotation step, the optional
/// buffer write, and the (always empty) list of follow-up engine actions.
#[derive(Clone, PartialEq, Eq, Debug)]
pub struct TickPlan {
    /// `None` when the pointer button is up, no sibling matches the stored
    /// identity, or the first match is no transform.
    pub rotation: Option<RotationStep>,
    /// `None` when no material matches the stored identity or the first
    /// match holds no buffer in attachment slot 0.
    pub write: Option<BufferWrite>,
    /// Follow-up engine actions; this behavior requests none.
    pub actions: Vec<EngineAction>,
}

/// The sibling the input phase rotates this tick: the transform target, and
/// only while the primary pointer button is held.
pub open spec fn spec_rotation_target(
    held: bool,
    siblings: Seq<SiblingComponent>,
    id: ComponentId,
) -> Option<int> {
    if held {
        spec_transform_target(siblings, id)
    } else {
        None
    }
}

/// The light-control behavior: owns the scene's light list and two identity
/// references, one to the render material whose slot-0 buffer receives the
/// packed lights, one to the sibling whose orientation follows the pointer.
#[derive(Clone, PartialEq, Eq, Debug)]
pub struct LightManagerComponent {
    /// The lights this behavior owns; packed into the wire buffer each tick.
    pub lights: Vec<Light>,
    /// Identity of the render material to write the packed lights to.
    pub material: ComponentId,
    /// Identity of the sibling whose orientation the pointer drags.
    pub shaderball_transform: ComponentId,
}

impl LightManagerComponent {
    /// Decides one frame tick.
    ///
    /// The rotation step is `Some` exactly when the pointer button is held
    /// and the first sibling carrying the stored identity narrows to the
    /// transform capability; it then reports that sibling's index and
    /// current orientation.  The write is `Some` exactly when a material
    /// carries the stored material identity and its first attachment is a
    /// writable buffer; it then carries the full packed wire image of the
    /// light list, at offset 0.  The action list is always empty.  A missed
    /// lookup yields `None` for its phase, never an error.
    pub fn update_plan(
        &self,
        left_held: bool,
        siblings: &Vec<SiblingComponent>,
        materials: &Vec<Material>,
    ) -> (r: TickPlan)
        ensures
            match r.rotation {
                Some(step) => {
                    &&& spec_rotation_target(left_held, siblings@, self.shaderball_transform)
                        == Some(step.index as int)
                    &&& siblings@[step.index as int].capability == Capability::Transform(
                        step.current,
                    )
                },
                None => spec_rotation_target(
                    left_held,
                    siblings@,
                    self.shaderball_transform,
                ) is None,
            },
            match r.write {
                Some(w) => {
                    &&& spec_write_target(materials@, self.material) == Some(w.resource)
                    &&& w.offset == 0
                    &&& w.bytes@ == spec_packed_bytes(self.lights@)
                    &&& w.bytes@.len() == 32 * CAPACITY
                },
                None => spec_write_target(materials@, self.material) is None,
            },
            r.actions@.len() == 0,
    {
        let rotation: Option<RotationStep> = if left_held {
            match find_transform(siblings, self.shaderball_transform) {
                Some(i) => Some(
                    RotationStep { index: i, current: rotation_at(siblings, i) },
                ),
                None => None,
            }
        } else {
            None
        };
        let write: Option<BufferWrite> = match find_material_buffer(materials, self.material) {
            Some(resource) => Some(
                BufferWrite { resource, offset: 0, bytes: pack_bytes(&self.lights) },
            ),
            None => None,
        };
        TickPlan { rotation, write, actions: Vec::new() }
    }
}

} // verus!
