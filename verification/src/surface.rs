//! Surface sizing: the window size value type and the clamping floor that
//! keeps the stored surface configuration away from degenerate dimensions.

use vstd::prelude::*;

verus! {

/// Smallest width or height ever stored in a surface configuration.
pub const MIN_WINDOW_SIZE: u32 = 50;

/// A window size in physical pixels.
#[derive(Clone, Copy, Debug, PartialEq, Eq, Structural)]
pub struct Size {
    pub width: u32,
    pub height: u32,
}

/// The size actually stored for a requested size: each dimension is raised
/// to the floor, never lowered.
pub open spec fn clamped_size(requested: Size) -> Size {
    Size {
        width: if requested.width < MIN_WINDOW_SIZE {
            MIN_WINDOW_SIZE
        } else {
            requested.width
        },
        height: if requested.height < MIN_WINDOW_SIZE {
            MIN_WINDOW_SIZE
        } else {
            requested.height
        },
    }
}

impl Size {
    /// Raise both dimensions to the floor.
    pub fn clamp_to_floor(self) -> (r: Size)
        ensures
            r == clamped_size(self),
            r.width >= MIN_WINDOW_SIZE,
            r.height >= MIN_WINDOW_SIZE,
    {
        Size {
            width: if self.width < MIN_WINDOW_SIZE {
                MIN_WINDOW_SIZE
            } else {
                self.width
            },
            height: if self.height < MIN_WINDOW_SIZE {
                MIN_WINDOW_SIZE
            } else {
                self.height
            },
        }
    }
}

/// Clamping is idempotent: a size already at or above the floor is kept.
pub proof fn lemma_clamp_idempotent(requested: Size)
    ensures
        clamped_size(clamped_size(requested)) == clamped_size(requested),
{
}

/// What the core reads of a presentable texture format: an identifying code
/// (assigned by the layer that owns the real format values) and whether the
/// format is sRGB-encoded.
#[derive(Clone, Copy, Debug, PartialEq, Eq, Structural)]
pub struct SurfaceFormat {
    pub code: u32,
    pub srgb: bool,
}

/// The first sRGB-capable format of a capability list, if any.
pub open spec fn first_srgb(formats: Seq<SurfaceFormat>) -> Option<SurfaceFormat>
    decreases formats.len(),
{
    if formats.len() == 0 {
        None
    } else if formats[0].srgb {
        Some(formats[0])
    } else {
        first_srgb(formats.drop_first())
    }
}

/// The format negotiated for the surface: the first sRGB-capable entry of the
/// capability list, or the first entry when none is sRGB-capable.
pub open spec fn chosen_format(formats: Seq<SurfaceFormat>) -> SurfaceFormat
    recommends
        formats.len() > 0,
{
    match first_srgb(formats) {
        Some(f) => f,
        None => formats[0],
    }
}

proof fn lemma_first_srgb_prefix(formats: Seq<SurfaceFormat>, i: int)
    requires
        0 <= i <= formats.len(),
        forall|j: int| 0 <= j < i ==> !formats[j].srgb,
    ensures
        first_srgb(formats) == first_srgb(formats.skip(i)),
    decreases i,
{
    if i > 0 {
        assert(formats.skip(i - 1).drop_first() =~= formats.skip(i));
        lemma_first_srgb_prefix(formats, i - 1);
    } else {
        assert(formats.skip(0) =~= formats);
    }
}

/// Pick the surface format: prefer an sRGB-capable entry, else take the first.
pub fn select_surface_format(formats: &Vec<SurfaceFormat>) -> (r: SurfaceFormat)
    requires
        formats@.len() > 0,
    ensures
        r == chosen_format(formats@),
        (exists|i: int| 0 <= i < formats@.len() && formats@[i].srgb) ==> r.srgb,
{
    let n = formats.len();
    let mut i: usize = 0;
    while i < n
        invariant
            n == formats@.len(),
            0 <= i <= n,
            forall|j: int| 0 <= j < i ==> !formats@[j].srgb,
        decreases n - i,
    {
        if formats[i].srgb {
            proof {
                lemma_first_srgb_prefix(formats@, i as int);
                assert(formats@.skip(i as int)[0] == formats@[i as int]);
            }
            return formats[i];
        }
        i = i + 1;
    }
    proof {
        lemma_first_srgb_prefix(formats@, n as int);
        assert(formats@.skip(n as int).len() == 0);
        assert(first_srgb(formats@) is None);
        if exists|k: int| 0 <= k < formats@.len() && formats@[k].srgb {
            let k = choose|k: int| 0 <= k < formats@.len() && formats@[k].srgb;
            assert(!formats@[k].srgb);
        }
    }
    formats[0]
}

/// The stored configuration of the presentable surface: negotiated format,
/// clamped dimensions, and the presentation mode chosen at startup.
#[derive(Clone, Copy, Debug, PartialEq, Eq, Structural)]
pub struct SurfaceConfig {
    pub format: SurfaceFormat,
    pub width: u32,
    pub height: u32,
    pub present_mode: u32,
}

} // verus!
