//! Depth targets: the depth-format images the renderer owns, in the
//! two modes the scene needs — the single-layer on-screen depth buffer
//! and the fixed-size six-layer shadow cube — together with their
//! sampling configuration.
//!
//! A target records its exact dimensions and sampling mode; the
//! platform layer allocates the GPU image from these fields. A
//! six-layer target exposes one single-layer render view per face for
//! writing, distinct from the combined array view used for sampling.

use vstd::prelude::*;

verus! {

/// Largest texture dimension the renderer accepts, the common device
/// limit for the hardware class it targets.
pub const DEPTH_MAX_DIM: u32 = 8192;

/// Edge length of each shadow cube face.
pub const SHADOW_MAP_SIZE: u32 = 2048;

/// Layer count of the shadow cube.
pub const SHADOW_MAP_LAYERS: u32 = 6;

/// Depth comparison functions the renderer uses: the strict test of
/// the opaque depth pass and the less-or-equal test of shadow
/// comparison sampling.
#[derive(Clone, Copy, Debug, PartialEq, Eq, Structural)]
pub enum CompareFunction {
    Less,
    LessEqual,
}

/// Texel filtering modes.
#[derive(Clone, Copy, Debug, PartialEq, Eq, Structural)]
pub enum FilterMode {
    Nearest,
    Linear,
}

/// Address modes for sampling outside the image.
#[derive(Clone, Copy, Debug, PartialEq, Eq, Structural)]
pub enum AddressMode {
    ClampToEdge,
    Repeat,
}

/// A sampler configuration, with the level-of-detail clamps in milli.
#[derive(Clone, Copy, Debug, PartialEq, Eq, Structural)]
pub struct SamplerDesc {
    pub address_mode: AddressMode,
    pub mag_filter: FilterMode,
    pub min_filter: FilterMode,
    pub mipmap_filter: FilterMode,
    pub compare: Option<CompareFunction>,
    pub lod_min_milli: i64,
    pub lod_max_milli: i64,
}

/// `s` is the sampler a depth target uses: edge-clamped, linear or
/// nearest according to `filter`, with the given comparison.
pub open spec fn is_depth_sampler(s: SamplerDesc, compare: Option<CompareFunction>, filter: bool) -> bool {
    &&& s.address_mode == AddressMode::ClampToEdge
    &&& s.mag_filter == (if filter { FilterMode::Linear } else { FilterMode::Nearest })
    &&& s.min_filter == (if filter { FilterMode::Linear } else { FilterMode::Nearest })
    &&& s.mipmap_filter == FilterMode::Nearest
    &&& s.compare == compare
    &&& s.lod_min_milli == 0
    &&& s.lod_max_milli == 100000
}

/// Builds the sampler configuration of a depth target.
pub fn create_sampler(compare: Option<CompareFunction>, filter: bool) -> (s: SamplerDesc)
    ensures
        is_depth_sampler(s, compare, filter),
{
    SamplerDesc {
        address_mode: AddressMode::ClampToEdge,
        mag_filter: if filter { FilterMode::Linear } else { FilterMode::Nearest },
        min_filter: if filter { FilterMode::Linear } else { FilterMode::Nearest },
        mipmap_filter: FilterMode::Nearest,
        compare,
        lod_min_milli: 0,
        lod_max_milli: 100000,
    }
}

/// A view into a depth target: the whole image, or one layer of a
/// layered image as a render attachment.
#[derive(Clone, Copy, Debug, PartialEq, Eq, Structural)]
pub enum DepthView {
    Full,
    Layer { face: u32 },
}

/// Why a depth target could not be created.
#[derive(Clone, Copy, Debug, PartialEq, Eq, Structural)]
pub enum DepthTargetError {
    ZeroSize,
    TooLarge,
    BadLayerCount,
}

/// The requested dimensions are acceptable for a depth target.
pub open spec fn spec_dims_valid(width: u32, height: u32, layers: u32) -> bool {
    &&& 0 < width <= DEPTH_MAX_DIM
    &&& 0 < height <= DEPTH_MAX_DIM
    &&& (layers == 1 || layers == SHADOW_MAP_LAYERS)
}

/// The error reported for unacceptable dimensions: a zero extent is
/// reported before an oversized extent, which is reported before a bad
/// layer count.
pub open spec fn spec_dims_error(width: u32, height: u32, layers: u32) -> DepthTargetError {
    if width == 0 || height == 0 {
        DepthTargetError::ZeroSize
    } else if width > DEPTH_MAX_DIM || height > DEPTH_MAX_DIM {
        DepthTargetError::TooLarge
    } else {
        DepthTargetError::BadLayerCount
    }
}

/// A depth-format render target and its sampler.
#[derive(Clone, Copy, Debug, PartialEq, Eq, Structural)]
pub struct DepthTarget {
    pub width: u32,
    pub height: u32,
    pub layers: u32,
    pub compare: Option<CompareFunction>,
    pub filterable: bool,
    pub sampler: SamplerDesc,
}

impl DepthTarget {
    /// Target invariant: acceptable dimensions and the matching
    /// sampler.
    pub open spec fn wf(self) -> bool {
        &&& spec_dims_valid(self.width, self.height, self.layers)
        &&& is_depth_sampler(self.sampler, self.compare, self.filterable)
    }

    /// Creates a depth target. Creation fails exactly on a zero or
    /// oversized extent or a layer count other than 1 or 6; the callers
    /// treat that as a fatal initialization error, since there is no
    /// fallback resolution policy.
    pub fn create(width: u32, height: u32, layers: u32, compare: Option<CompareFunction>, filterable: bool)
        -> (r: Result<DepthTarget, DepthTargetError>)
        ensures
            r is Ok <==> spec_dims_valid(width, height, layers),
            r matches Ok(t) ==> t.wf() && t.width == width && t.height == height
                && t.layers == layers && t.compare == compare && t.filterable == filterable,
            r matches Err(e) ==> e == spec_dims_error(width, height, layers),
    {
        if width == 0 || height == 0 {
            Err(DepthTargetError::ZeroSize)
        } else if width > DEPTH_MAX_DIM || height > DEPTH_MAX_DIM {
            Err(DepthTargetError::TooLarge)
        } else if layers != 1 && layers != SHADOW_MAP_LAYERS {
            Err(DepthTargetError::BadLayerCount)
        } else {
            Ok(DepthTarget {
                width,
                height,
                layers,
                compare,
                filterable,
                sampler: create_sampler(compare, filterable),
            })
        }
    }

    /// Adopts the new presentation size. Only the single-layer
    /// on-screen target resizes; the shadow cube is fixed-resolution.
    /// On an unacceptable extent the target is unchanged and the error
    /// is reported.
    pub fn resize(&mut self, width: u32, height: u32) -> (r: Result<(), DepthTargetError>)
        requires
            old(self).wf(),
            old(self).layers == 1,
        ensures
            final(self).wf(),
            r is Ok <==> spec_dims_valid(width, height, 1),
            r is Ok ==> is_resized(*final(self), *old(self), width, height),
            r is Err ==> *final(self) == *old(self),
            r matches Err(e) ==> e == spec_dims_error(width, height, 1),
    {
        if width == 0 || height == 0 {
            Err(DepthTargetError::ZeroSize)
        } else if width > DEPTH_MAX_DIM || height > DEPTH_MAX_DIM {
            Err(DepthTargetError::TooLarge)
        } else {
            self.width = width;
            self.height = height;
            Ok(())
        }
    }

    /// The render-attachment view of one layer of the shadow cube.
    pub fn face_view(&self, face: u32) -> (v: DepthView)
        requires
            self.layers == SHADOW_MAP_LAYERS,
            face < SHADOW_MAP_LAYERS,
        ensures
            v == (DepthView::Layer { face }),
    {
        DepthView::Layer { face }
    }

    /// The combined view used for sampling the whole target.
    pub fn sampling_view(&self) -> (v: DepthView)
        ensures
            v == DepthView::Full,
    {
        DepthView::Full
    }
}

/// `t1` is `t0` resized to the given extent: the dimensions changed,
/// everything else kept.
pub open spec fn is_resized(t1: DepthTarget, t0: DepthTarget, width: u32, height: u32) -> bool {
    t1 == (DepthTarget { width, height, ..t0 })
}

/// Resizing is a round trip: resizing from the original extent to any
/// other and back yields a target identical to the original.
pub proof fn lemma_resize_round_trip(t0: DepthTarget, t1: DepthTarget, t2: DepthTarget, w2: u32, h2: u32)
    requires
        is_resized(t1, t0, w2, h2),
        is_resized(t2, t1, t0.width, t0.height),
    ensures
        t2 == t0,
{
}

} // verus!
