//! Buffer-sharing negotiation: whether rendering may use GPU-shared
//! (zero-copy) buffers, and with which format/modifier pairs, or must fall
//! back to a shared-memory pool.
//!
//! The host advertises its preferences as a format table plus tranches of
//! indices into it. Rendering is constrained to the intersection of what the
//! host advertises and what the local device supports for the required
//! format; an empty intersection, or failure to open the advertised device,
//! falls back to shared memory and is never fatal.

use vstd::prelude::*;

verus! {

/// The linear (untiled) layout modifier.
pub const DRM_MODIFIER_LINEAR: u64 = 0;

/// The sentinel modifier meaning "no explicit modifier negotiated".
pub const DRM_MODIFIER_INVALID: u64 = 0x00ff_ffff_ffff_ffff;

/// One row of the host's format table: a pixel format and a layout modifier.
#[derive(Copy, Clone, Debug, PartialEq, Eq, Structural)]
pub struct FormatEntry {
    pub format: u32,
    pub modifier: u64,
}

/// The modifiers usable for one format, drawn from the rows of the format
/// table that the host's tranches reference, in tranche order: the row must
/// name the required format, and only the linear layout qualifies when the
/// consumer needs linear. Out-of-table indices are skipped.
pub open spec fn spec_supported_modifiers(
    table: Seq<FormatEntry>,
    tranche: Seq<u16>,
    format: u32,
    needs_linear: bool,
) -> Seq<u64>
    decreases tranche.len(),
{
    if tranche.len() == 0 {
        Seq::empty()
    } else {
        let prefix = spec_supported_modifiers(table, tranche.drop_last(), format, needs_linear);
        let idx = tranche.last() as int;
        if idx < table.len() && table[idx].format == format && (!needs_linear || table[
            idx].modifier == DRM_MODIFIER_LINEAR) {
            prefix.push(table[idx].modifier)
        } else {
            prefix
        }
    }
}

/// Collects the modifiers the host accepts for one format.
pub fn supported_modifiers(
    table: &Vec<FormatEntry>,
    tranche: &Vec<u16>,
    format: u32,
    needs_linear: bool,
) -> (r: Vec<u64>)
    ensures
        r@ == spec_supported_modifiers(table@, tranche@, format, needs_linear),
{
    let mut out: Vec<u64> = Vec::new();
    let mut i: usize = 0;
    while i < tranche.len()
        invariant
            i <= tranche@.len(),
            out@ == spec_supported_modifiers(
                table@,
                tranche@.subrange(0, i as int),
                format,
                needs_linear,
            ),
        decreases tranche@.len() - i,
    {
        let idx = tranche[i] as usize;
        if idx < table.len() {
            let entry = table[idx];
            if entry.format == format && (!needs_linear || entry.modifier
                == DRM_MODIFIER_LINEAR) {
                out.push(entry.modifier);
            }
        }
        proof {
            assert(tranche@.subrange(0, i + 1 as int).drop_last() =~= tranche@.subrange(
                0,
                i as int,
            ));
            assert(tranche@.subrange(0, i + 1 as int).last() == tranche@[i as int]);
        }
        i = i + 1;
    }
    proof {
        assert(tranche@.subrange(0, tranche@.len() as int) =~= tranche@);
    }
    out
}

/// Whether every modifier of the list is the "no explicit modifier"
/// sentinel.
pub open spec fn spec_all_invalid(mods: Seq<u64>) -> bool {
    forall|i: int| 0 <= i < mods.len() ==> mods[i] == DRM_MODIFIER_INVALID
}

/// How a GPU-shared buffer would be allocated: with the negotiated modifier
/// list, unless the host offered nothing but the sentinel, in which case
/// allocation proceeds without explicit modifiers.
#[derive(Clone, Debug, PartialEq, Eq)]
pub struct GbmBufferPlan {
    pub use_modifiers: bool,
    pub modifiers: Vec<u64>,
    pub width: u32,
    pub height: u32,
    pub format: u32,
}

/// Decides whether and how a GPU-shared buffer can be allocated: an empty
/// modifier list means the host accepts no layout of this format, and the
/// caller must fall back to shared memory.
pub fn plan_gbm_buffer(modifiers: Vec<u64>, width: u32, height: u32, format: u32) -> (r: Option<
    GbmBufferPlan,
>)
    ensures
        modifiers@.len() == 0 <==> r is None,
        r matches Some(plan) ==> {
            &&& plan.modifiers@ == modifiers@
            &&& plan.use_modifiers == !spec_all_invalid(modifiers@)
            &&& plan.width == width
            &&& plan.height == height
            &&& plan.format == format
        },
{
    if modifiers.len() == 0 {
        return None;
    }
    let mut all_invalid = true;
    let mut i: usize = 0;
    while i < modifiers.len()
        invariant
            i <= modifiers@.len(),
            all_invalid == (forall|j: int|
                0 <= j < i ==> modifiers@[j] == DRM_MODIFIER_INVALID),
        decreases modifiers@.len() - i,
    {
        if modifiers[i] != DRM_MODIFIER_INVALID {
            all_invalid = false;
        }
        i = i + 1;
    }
    Some(GbmBufferPlan { use_modifiers: !all_invalid, modifiers, width, height, format })
}

/// One plane of a GPU-shared buffer, as exported from the allocator.
#[derive(Copy, Clone, Debug, PartialEq, Eq, Structural)]
pub struct Plane {
    pub fd: i32,
    pub plane_idx: u32,
    pub offset: u32,
    pub stride: u32,
}

/// What the allocator reports for one plane of a buffer object.
#[derive(Copy, Clone, Debug, PartialEq, Eq, Structural)]
pub struct PlaneInfo {
    pub fd: i32,
    pub offset: u32,
    pub stride: u32,
}

/// Builds the plane records handed to the host's buffer-import request:
/// one per reported plane, numbered in order, carrying the reported file
/// descriptor, offset and stride unchanged.
pub fn assemble_planes(infos: &Vec<PlaneInfo>) -> (r: Vec<Plane>)
    requires
        infos@.len() <= u32::MAX,
    ensures
        r@.len() == infos@.len(),
        forall|i: int|
            0 <= i < r@.len() ==> r@[i] == (Plane {
                fd: infos@[i].fd,
                plane_idx: i as u32,
                offset: infos@[i].offset,
                stride: infos@[i].stride,
            }),
{
    let mut out: Vec<Plane> = Vec::new();
    let mut i: usize = 0;
    while i < infos.len()
        invariant
            i <= infos@.len(),
            infos@.len() <= u32::MAX,
            out@.len() == i,
            forall|j: int|
                0 <= j < i ==> out@[j] == (Plane {
                    fd: infos@[j].fd,
                    plane_idx: j as u32,
                    offset: infos@[j].offset,
                    stride: infos@[j].stride,
                }),
        decreases infos@.len() - i,
    {
        let info = infos[i];
        out.push(
            Plane { fd: info.fd, plane_idx: i as u32, offset: info.offset, stride: info.stride },
        );
        i = i + 1;
    }
    out
}

/// A shared-memory buffer: the pool it lives in is sized exactly to hold
/// the surface at the given stride.
#[derive(Copy, Clone, Debug, PartialEq, Eq, Structural)]
pub struct Shmbuf {
    pub pool_size: u64,
    pub offset: i32,
    pub width: i32,
    pub height: i32,
    pub stride: i32,
    pub format: u32,
}

/// A GPU-shared buffer: its planes and the modifier they were allocated
/// with. The owning display connection stays with the caller.
#[derive(Clone, Debug, PartialEq, Eq)]
pub struct Dmabuf {
    pub width: i32,
    pub height: i32,
    pub planes: Vec<Plane>,
    pub format: u32,
    pub modifier: u64,
}

/// The backing of a host-visible buffer.
#[derive(Clone, Debug, PartialEq, Eq)]
pub enum BufferSource {
    Shm(Shmbuf),
    Dma(Dmabuf),
}

/// The product of two 32-bit counts stays within 64 bits.
proof fn lemma_u32_product_fits(a: int, b: int)
    by (nonlinear_arith)
    requires
        0 <= a < 0x1_0000_0000,
        0 <= b < 0x1_0000_0000,
    ensures
        0 <= a * b < 0x1_0000_0000_0000_0000,
{
}

impl From<Shmbuf> for BufferSource {
    fn from(buf: Shmbuf) -> (r: Self) {
        BufferSource::Shm(buf)
    }
}

impl vstd::std_specs::convert::FromSpecImpl<Shmbuf> for BufferSource {
    open spec fn obeys_from_spec() -> bool {
        true
    }

    open spec fn from_spec(buf: Shmbuf) -> Self {
        BufferSource::Shm(buf)
    }
}

impl From<Dmabuf> for BufferSource {
    fn from(buf: Dmabuf) -> (r: Self) {
        BufferSource::Dma(buf)
    }
}

impl vstd::std_specs::convert::FromSpecImpl<Dmabuf> for BufferSource {
    open spec fn obeys_from_spec() -> bool {
        true
    }

    open spec fn from_spec(buf: Dmabuf) -> Self {
        BufferSource::Dma(buf)
    }
}

/// A host-visible buffer assembled plane by plane, together with its
/// backing. This manual assembly exists as the documented historical
/// variant of the negotiator; the converged design hands buffer creation to
/// the GPU context itself, which keeps plane count, modifier and stride in
/// agreement by construction.
#[derive(Debug, PartialEq, Eq)]
pub struct WaylandGraphicsBackend {
    pub backing: BufferSource,
    pub buffer: u32,
    pub size: (u32, u32),
}

/// Computes the shared-memory buffer for a surface: a pool of exactly
/// `stride * height` bytes, with the buffer at offset zero.
pub fn plan_shm_buffer(format: u32, width: u32, height: u32, stride: u32) -> (r: Shmbuf)
    requires
        width <= i32::MAX,
        height <= i32::MAX,
        stride <= i32::MAX,
    ensures
        r == (Shmbuf {
            pool_size: (stride as u64 * height as u64) as u64,
            offset: 0,
            width: width as i32,
            height: height as i32,
            stride: stride as i32,
            format,
        }),
{
    proof {
        lemma_u32_product_fits(stride as int, height as int);
    }
    Shmbuf {
        pool_size: stride as u64 * height as u64,
        offset: 0,
        width: width as i32,
        height: height as i32,
        stride: stride as i32,
        format,
    }
}

/// The negotiated buffer-sharing capability: shared memory only, or
/// GPU-shared through a given device with an ordered list of acceptable
/// modifiers for the required format. Rendering never attempts a method
/// outside the negotiated one.
#[derive(Clone, Debug, PartialEq, Eq)]
pub enum BufferConstraints {
    Shm,
    Gbm { device: u64, format: u32, modifiers: Vec<u64> },
}

/// Deep equality of two negotiated capabilities.
pub open spec fn spec_same_constraints(a: BufferConstraints, b: BufferConstraints) -> bool {
    match (a, b) {
        (BufferConstraints::Shm, BufferConstraints::Shm) => true,
        (
            BufferConstraints::Gbm { device: da, format: fa, modifiers: ma },
            BufferConstraints::Gbm { device: db, format: fb, modifiers: mb },
        ) => da == db && fa == fb && ma@ == mb@,
        _ => false,
    }
}

/// Derives the buffer constraints from one round of host feedback.
pub fn derive_constraints(device_opened: Option<u64>, modifiers: Vec<u64>, format: u32) -> (r:
    BufferConstraints)
    ensures
        ({
            match device_opened {
                Some(device) => if modifiers@.len() > 0 {
                    r matches BufferConstraints::Gbm { device: d, format: f, modifiers: m } && d
                        == device && f == format && m@ == modifiers@
                } else {
                    r is Shm
                },
                None => r is Shm,
            }
        }),
{
    match device_opened {
        Some(device) => {
            if modifiers.len() > 0 {
                BufferConstraints::Gbm { device, format, modifiers }
            } else {
                BufferConstraints::Shm
            }
        },
        None => BufferConstraints::Shm,
    }
}

/// Compares a freshly derived capability against the current one.
#[verifier::loop_isolation(false)]
pub fn same_constraints(a: &BufferConstraints, b: &BufferConstraints) -> (r: bool)
    ensures
        r == spec_same_constraints(*a, *b),
{
    match (a, b) {
        (BufferConstraints::Shm, BufferConstraints::Shm) => true,
        (
            BufferConstraints::Gbm { device: da, format: fa, modifiers: ma },
            BufferConstraints::Gbm { device: db, format: fb, modifiers: mb },
        ) => {
            if *da != *db || *fa != *fb || ma.len() != mb.len() {
                return false;
            }
            let mut i: usize = 0;
            while i < ma.len()
                invariant
                    i <= ma@.len(),
                    ma@.len() == mb@.len(),
                    forall|j: int| 0 <= j < i ==> ma@[j] == mb@[j],
                decreases ma@.len() - i,
            {
                if ma[i] != mb[i] {
                    return false;
                }
                i = i + 1;
            }
            proof {
                assert(ma@ =~= mb@);
            }
            true
        },
        _ => false,
    }
}

/// Re-derives the constraints from host feedback: the new capability, and
/// whether host objects must be (re)allocated. Re-running the negotiation on
/// unchanged feedback allocates nothing.
pub fn renegotiate(
    device_opened: Option<u64>,
    modifiers: Vec<u64>,
    format: u32,
    current: Option<&BufferConstraints>,
) -> (r: (BufferConstraints, bool))
    ensures
        ({
            match device_opened {
                Some(device) => if modifiers@.len() > 0 {
                    r.0 matches BufferConstraints::Gbm { device: d, format: f, modifiers: m } && d
                        == device && f == format && m@ == modifiers@
                } else {
                    r.0 is Shm
                },
                None => r.0 is Shm,
            }
        }),
        r.1 == match current {
            Some(c) => !spec_same_constraints(*c, r.0),
            None => true,
        },
{
    let derived = derive_constraints(device_opened, modifiers, format);
    let realloc = match current {
        Some(c) => !same_constraints(c, &derived),
        None => true,
    };
    (derived, realloc)
}

/// Negotiation is idempotent: deriving the same capability from the same
/// feedback and comparing it against itself demands no new allocation.
pub proof fn lemma_same_constraints_reflexive(c: BufferConstraints)
    ensures
        spec_same_constraints(c, c),
{
}

} // verus!