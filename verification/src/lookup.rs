//! Identity-based lookup of sibling scene objects, and the narrowing of a
//! found object to the capability a caller asks for.
//!
//! Objects are referenced through opaque identity tokens, never owned: the
//! referencing behavior resolves the token afresh every frame, and a missed
//! lookup (no such identity, or the object lacks the capability) is a normal
//! outcome that callers answer by skipping the dependent step, never an error.

use vstd::prelude::*;

verus! {

/// An opaque, comparable handle that names another scene object without
/// owning it.  Resolved by scanning a collection, afresh on every use,
/// because the host may reorder or replace the objects between frames.
#[derive(Clone, Copy, PartialEq, Eq, Structural, Debug)]
pub struct ComponentId(pub u64);

/// An orientation rotor: a scalar part and three bivector coefficients.
/// The four scalars are carried as 32-bit wire values; the rotor algebra
/// itself (exponential map, composition, renormalization) is the host's
/// floating-point business and never happens in this library.
#[derive(Clone, Copy, PartialEq, Eq, Structural, Debug)]
pub struct Rotor {
    pub scalar: u32,
    pub xy: u32,
    pub xz: u32,
    pub yz: u32,
}

/// What a sibling object can be narrowed to.  The one capability this
/// behavior ever asks for is the transform (an orientation holder); every
/// other kind of sibling narrows to nothing.
#[derive(Clone, Copy, PartialEq, Eq, Structural, Debug)]
pub enum Capability {
    /// The object holds an orientation that can be read and replaced.
    Transform(Rotor),
    /// The object offers no capability this behavior uses.
    Other,
}

/// One sibling object as this library sees it: its identity, and the
/// capability it narrows to.
#[derive(Clone, Copy, PartialEq, Eq, Structural, Debug)]
pub struct SiblingComponent {
    pub id: ComponentId,
    pub capability: Capability,
}

/// A handle standing for a GPU-resident buffer resource that a material owns.
#[derive(Clone, Copy, PartialEq, Eq, Structural, Debug)]
pub struct BufferResource(pub u64);

/// One slot of a material's ordered attachment list.
#[derive(Clone, Copy, PartialEq, Eq, Structural, Debug)]
pub enum ShaderAttachment {
    /// A writable buffer resource.
    Buffer(BufferResource),
    /// A texture binding; not writable through the command sink.
    Texture,
}

/// One render material as this library sees it: its identity and its ordered
/// attachment list, of which slot 0 is expected to be a writable buffer.
#[derive(Clone, PartialEq, Eq, Debug)]
pub struct Material {
    pub id: ComponentId,
    pub attachments: Vec<ShaderAttachment>,
}

/// Index of the first sibling at or after `from` whose identity equals `id`.
pub open spec fn spec_first_sibling_from(
    s: Seq<SiblingComponent>,
    id: ComponentId,
    from: int,
) -> Option<int>
    decreases s.len() - from when 0 <= from <= s.len()
{
    if from < 0 || from >= s.len() {
        None
    } else if s[from].id == id {
        Some(from)
    } else {
        spec_first_sibling_from(s, id, from + 1)
    }
}

/// Index of the first material at or after `from` whose identity equals `id`.
pub open spec fn spec_first_material_from(
    s: Seq<Material>,
    id: ComponentId,
    from: int,
) -> Option<int>
    decreases s.len() - from when 0 <= from <= s.len()
{
    if from < 0 || from >= s.len() {
        None
    } else if s[from].id == id {
        Some(from)
    } else {
        spec_first_material_from(s, id, from + 1)
    }
}

/// The object the input phase may rotate: the first sibling whose identity
/// matches, and only if that one narrows to the transform capability.  A
/// later sibling that both matches and narrows is never considered: the scan
/// stops at the first identity match.
pub open spec fn spec_transform_target(s: Seq<SiblingComponent>, id: ComponentId) -> Option<int> {
    match spec_first_sibling_from(s, id, 0) {
        None => None,
        Some(i) => if s[i].capability is Transform {
            Some(i)
        } else {
            None
        },
    }
}

/// The buffer attachment a material exposes in slot 0, if any.
pub open spec fn spec_buffer_at_slot_0(m: Material) -> Option<BufferResource> {
    if m.attachments@.len() > 0 {
        match m.attachments@[0] {
            ShaderAttachment::Buffer(b) => Some(b),
            ShaderAttachment::Texture => None,
        }
    } else {
        None
    }
}

/// The buffer the sync phase writes: slot-0 attachment of the first material
/// whose identity matches, when that attachment is a writable buffer.
pub open spec fn spec_write_target(mats: Seq<Material>, id: ComponentId) -> Option<BufferResource> {
    match spec_first_material_from(mats, id, 0) {
        None => None,
        Some(i) => spec_buffer_at_slot_0(mats[i]),
    }
}

/// Lookup no-op law: a collection in which no sibling carries the identity
/// yields no rotation target at all, whatever capabilities its members have.
pub proof fn lemma_sibling_miss_is_noop(s: Seq<SiblingComponent>, id: ComponentId)
    requires
        forall|k: int| 0 <= k < s.len() ==> s[k].id != id,
    ensures
        spec_transform_target(s, id) is None,
{
    lemma_sibling_miss_from(s, id, 0);
}

proof fn lemma_sibling_miss_from(s: Seq<SiblingComponent>, id: ComponentId, from: int)
    requires
        0 <= from <= s.len(),
        forall|k: int| from <= k < s.len() ==> s[k].id != id,
    ensures
        spec_first_sibling_from(s, id, from) is None,
    decreases s.len() - from,
{
    if from < s.len() {
        lemma_sibling_miss_from(s, id, from + 1);
    }
}

/// Lookup no-op law, material side: a collection in which no material
/// carries the identity yields no write target.
pub proof fn lemma_material_miss_is_noop(mats: Seq<Material>, id: ComponentId)
    requires
        forall|k: int| 0 <= k < mats.len() ==> mats[k].id != id,
    ensures
        spec_write_target(mats, id) is None,
{
    lemma_material_miss_from(mats, id, 0);
}

proof fn lemma_material_miss_from(mats: Seq<Material>, id: ComponentId, from: int)
    requires
        0 <= from <= mats.len(),
        forall|k: int| from <= k < mats.len() ==> mats[k].id != id,
    ensures
        spec_first_material_from(mats, id, from) is None,
    decreases mats.len() - from,
{
    if from < mats.len() {
        lemma_material_miss_from(mats, id, from + 1);
    }
}

/// Scans the sibling collection for the first object whose identity equals
/// `id` and narrows it to the transform capability.  Returns that object's
/// index, or `None` when no identity matches or the first match lacks the
/// capability; the caller answers `None` by skipping this frame's rotation.
pub fn find_transform(siblings: &Vec<SiblingComponent>, id: ComponentId) -> (r: Option<usize>)
    ensures
        match r {
            Some(i) => {
                &&& i < siblings@.len()
                &&& siblings@[i as int].id == id
                &&& siblings@[i as int].capability is Transform
                &&& spec_transform_target(siblings@, id) == Some(i as int)
            },
            None => spec_transform_target(siblings@, id) is None,
        },
{
    let mut i: usize = 0;
    while i < siblings.len()
        invariant
            i <= siblings@.len(),
            spec_first_sibling_from(siblings@, id, 0) == spec_first_sibling_from(
                siblings@,
                id,
                i as int,
            ),
        decreases siblings@.len() - i,
    {
        if siblings[i].id == id {
            assert(spec_first_sibling_from(siblings@, id, i as int) == Some(i as int));
            match siblings[i].capability {
                Capability::Transform(_) => {
                    return Some(i);
                },
                Capability::Other => {
                    return None;
                },
            }
        }
        i = i + 1;
    }
    None
}

/// Scans the material collection for the first material whose identity
/// equals `id` and reads its slot-0 attachment as a writable buffer.
/// Returns that buffer's handle, or `None` when no identity matches or the
/// first match holds no buffer in slot 0; the caller answers `None` by
/// skipping this frame's buffer write.
pub fn find_material_buffer(materials: &Vec<Material>, id: ComponentId) -> (r: Option<
    BufferResource,
>)
    ensures
        r == spec_write_target(materials@, id),
{
    let mut i: usize = 0;
    while i < materials.len()
        invariant
            i <= materials@.len(),
            spec_first_material_from(materials@, id, 0) == spec_first_material_from(
                materials@,
                id,
                i as int,
            ),
        decreases materials@.len() - i,
    {
        if materials[i].id == id {
            assert(spec_first_material_from(materials@, id, i as int) == Some(i as int));
            if materials[i].attachments.len() > 0 {
                match materials[i].attachments[0] {
                    ShaderAttachment::Buffer(b) => {
                        return Some(b);
                    },
                    ShaderAttachment::Texture => {
                        return None;
                    },
                }
            } else {
                return None;
            }
        }
        i = i + 1;
    }
    None
}

/// Reads the orientation of the sibling at `i`, which must hold the
/// transform capability.
pub fn rotation_at(siblings: &Vec<SiblingComponent>, i: usize) -> (r: Rotor)
    requires
        i < siblings@.len(),
        siblings@[i as int].capability is Transform,
    ensures
        siblings@[i as int].capability == Capability::Transform(r),
{
    match siblings[i].capability {
        Capability::Transform(rot) => rot,
        Capability::Other => {
            proof {
                assert(false);
            }
            Rotor { scalar: 0, xy: 0, xz: 0, yz: 0 }
        },
    }
}

/// Writes a new orientation into the sibling at `i`, which must hold the
/// transform capability; every other sibling, and this one's identity, are
/// left unchanged.
pub fn set_rotation(siblings: &mut Vec<SiblingComponent>, i: usize, rotor: Rotor)
    requires
        i < old(siblings)@.len(),
        old(siblings)@[i as int].capability is Transform,
    ensures
        final(siblings)@ == old(siblings)@.update(
            i as int,
            SiblingComponent {
                id: old(siblings)@[i as int].id,
                capability: Capability::Transform(rotor),
            },
        ),
{
    let id = siblings[i].id;
    siblings[i] = SiblingComponent { id, capability: Capability::Transform(rotor) };
}

} // verus!
