//! Embedded-asset access and image payload conversion.
//!
//! The asset store itself is platform glue: the platform layer hands
//! the library a table of named text assets, and `load_string` is an
//! exact lookup in it. The pixel conversions mirror what the texture
//! uploader needs: three-channel images are widened to four channels,
//! since the GPU formats in use have no three-channel layout.

use vstd::prelude::*;

verus! {

use vstd::string::StringExecFns;

/// A table of named text assets with pairwise distinct names.
pub struct AssetTable {
    pub entries: Vec<(String, String)>,
}

impl AssetTable {
    /// Names are pairwise distinct, so a lookup has at most one match.
    pub open spec fn wf(self) -> bool {
        forall|i: int, j: int| 0 <= i < j < self.entries.len()
            ==> (#[trigger] self.entries@[i]).0@ != (#[trigger] self.entries@[j]).0@
    }

    /// Some entry carries this name.
    pub open spec fn spec_has(self, name: Seq<char>) -> bool {
        exists|i: int| 0 <= i < self.entries.len() && (#[trigger] self.entries@[i]).0@ == name
    }

    /// The content stored under this name.
    pub open spec fn spec_get(self, name: Seq<char>) -> Seq<char> {
        let i = choose|i: int| 0 <= i < self.entries.len() && (#[trigger] self.entries@[i]).0@ == name;
        self.entries@[i].1@
    }

    /// An empty table.
    pub fn new() -> (t: AssetTable)
        ensures
            t.wf(),
            t.entries@.len() == 0,
    {
        AssetTable { entries: Vec::new() }
    }

    /// Adds an asset; a name already present is refused.
    pub fn insert(&mut self, name: String, content: String) -> (ok: bool)
        requires
            old(self).wf(),
        ensures
            final(self).wf(),
            ok == !old(self).spec_has(name@),
            ok ==> final(self).entries@ == old(self).entries@.push((name, content)),
            !ok ==> final(self).entries@ == old(self).entries@,
    {
        let existing = lookup(&self.entries, &name);
        if existing.is_some() {
            false
        } else {
            self.entries.push((name, content));
            true
        }
    }
}

/// Finds the content stored under `key`, scanning in order.
fn lookup(entries: &Vec<(String, String)>, key: &String) -> (r: Option<String>)
    ensures
        r is Some <==> exists|i: int| 0 <= i < entries.len() && (#[trigger] entries@[i]).0@ == key@,
        r matches Some(v) ==> exists|i: int| 0 <= i < entries.len()
            && (#[trigger] entries@[i]).0@ == key@ && entries@[i].1@ == v@,
{
    let mut i: usize = 0;
    while i < entries.len()
        invariant
            i <= entries.len(),
            forall|j: int| 0 <= j < i ==> (#[trigger] entries@[j]).0@ != key@,
        decreases entries.len() - i,
    {
        if entries[i].0.eq(key) {
            return Some(entries[i].1.clone());
        }
        i = i + 1;
    }
    None
}

/// Retrieves a named text asset that may be absent.
pub fn try_load_string(assets: &AssetTable, file_name: &str) -> (r: Option<String>)
    requires
        assets.wf(),
    ensures
        r is Some <==> assets.spec_has(file_name@),
        r matches Some(v) ==> v@ == assets.spec_get(file_name@),
{
    let key: String = String::from_str(file_name);
    lookup(&assets.entries, &key)
}

/// Retrieves a named text asset. A missing required asset is a
/// startup error; callers first check with `try_load_string` or
/// otherwise know the name is present.
pub fn load_string(assets: &AssetTable, file_name: &str) -> (r: String)
    requires
        assets.wf(),
        assets.spec_has(file_name@),
    ensures
        r@ == assets.spec_get(file_name@),
{
    let r = try_load_string(assets, file_name);
    match r {
        Some(v) => v,
        None => {
            proof {
                assert(false);
            }
            String::new()
        }
    }
}

/// The pixel layouts an imported image arrives in.
#[derive(Clone, Copy, Debug, PartialEq, Eq, Structural)]
pub enum PixelFormat {
    R8,
    Rg8,
    Rgb8,
    Rgba8,
    R16,
    Rg16,
    Rgb16,
    Rgba16,
    Rgb32Float,
    Rgba32Float,
}

/// The GPU texture formats the uploader selects.
#[derive(Clone, Copy, Debug, PartialEq, Eq, Structural)]
pub enum TextureFormat {
    R8Unorm,
    Rg8Unorm,
    Rgba8Unorm,
    Rgba8UnormSrgb,
    R16Unorm,
    Rg16Unorm,
    Rgba16Unorm,
    Rgba32Float,
}

/// The GPU format chosen for an imported layout: three-channel
/// layouts map to the four-channel format their widened payload fits,
/// and an sRGB view exists only for the 8-bit color layouts.
pub open spec fn spec_texture_format(format: PixelFormat, srgb: bool) -> Option<TextureFormat> {
    if srgb {
        match format {
            PixelFormat::Rgb8 => Some(TextureFormat::Rgba8UnormSrgb),
            PixelFormat::Rgba8 => Some(TextureFormat::Rgba8UnormSrgb),
            _ => None,
        }
    } else {
        match format {
            PixelFormat::R8 => Some(TextureFormat::R8Unorm),
            PixelFormat::Rg8 => Some(TextureFormat::Rg8Unorm),
            PixelFormat::Rgb8 => Some(TextureFormat::Rgba8Unorm),
            PixelFormat::Rgba8 => Some(TextureFormat::Rgba8Unorm),
            PixelFormat::R16 => Some(TextureFormat::R16Unorm),
            PixelFormat::Rg16 => Some(TextureFormat::Rg16Unorm),
            PixelFormat::Rgb16 => Some(TextureFormat::Rgba16Unorm),
            PixelFormat::Rgba16 => Some(TextureFormat::Rgba16Unorm),
            PixelFormat::Rgb32Float => Some(TextureFormat::Rgba32Float),
            PixelFormat::Rgba32Float => Some(TextureFormat::Rgba32Float),
        }
    }
}

/// Selects the GPU format for an imported layout; `None` is the
/// unsupported-layout startup error.
pub fn gltf_image_format_to_wgpu(format: PixelFormat, srgb: bool) -> (r: Option<TextureFormat>)
    ensures
        r == spec_texture_format(format, srgb),
{
    if srgb {
        match format {
            PixelFormat::Rgb8 => Some(TextureFormat::Rgba8UnormSrgb),
            PixelFormat::Rgba8 => Some(TextureFormat::Rgba8UnormSrgb),
            _ => None,
        }
    } else {
        match format {
            PixelFormat::R8 => Some(TextureFormat::R8Unorm),
            PixelFormat::Rg8 => Some(TextureFormat::Rg8Unorm),
            PixelFormat::Rgb8 => Some(TextureFormat::Rgba8Unorm),
            PixelFormat::Rgba8 => Some(TextureFormat::Rgba8Unorm),
            PixelFormat::R16 => Some(TextureFormat::R16Unorm),
            PixelFormat::Rg16 => Some(TextureFormat::Rg16Unorm),
            PixelFormat::Rgb16 => Some(TextureFormat::Rgba16Unorm),
            PixelFormat::Rgba16 => Some(TextureFormat::Rgba16Unorm),
            PixelFormat::Rgb32Float => Some(TextureFormat::Rgba32Float),
            PixelFormat::Rgba32Float => Some(TextureFormat::Rgba32Float),
        }
    }
}

/// The upload stride, in bytes per pixel, of the payload handed to
/// the GPU — after the three-channel layouts are widened.
pub open spec fn spec_upload_stride(format: PixelFormat) -> u32 {
    match format {
        PixelFormat::R8 => 1u32,
        PixelFormat::Rg8 => 2u32,
        PixelFormat::Rgb8 => 4u32,
        PixelFormat::Rgba8 => 4u32,
        PixelFormat::R16 => 2u32,
        PixelFormat::Rg16 => 4u32,
        PixelFormat::Rgb16 => 8u32,
        PixelFormat::Rgba16 => 8u32,
        PixelFormat::Rgb32Float => 12u32,
        PixelFormat::Rgba32Float => 16u32,
    }
}

/// Computes the upload stride of an imported layout.
pub fn gltf_image_format_stride(format: PixelFormat) -> (r: u32)
    ensures
        r == spec_upload_stride(format),
{
    match format {
        PixelFormat::R8 => 1,
        PixelFormat::Rg8 => 2,
        PixelFormat::Rgb8 => 4,
        PixelFormat::Rgba8 => 4,
        PixelFormat::R16 => 2,
        PixelFormat::Rg16 => 4,
        PixelFormat::Rgb16 => 8,
        PixelFormat::Rgba16 => 8,
        PixelFormat::Rgb32Float => 12,
        PixelFormat::Rgba32Float => 16,
    }
}

/// The all-ones alpha bytes appended to each widened pixel.
pub open spec fn spec_alpha_bytes(alpha: int) -> Seq<u8>
    decreases alpha,
{
    if alpha <= 0 {
        Seq::empty()
    } else {
        spec_alpha_bytes(alpha - 1).push(255u8)
    }
}

/// Each full group of `payload` bytes extended with `alpha` opaque
/// alpha bytes; a trailing partial group is dropped.
pub open spec fn spec_widened(s: Seq<u8>, payload: int, alpha: int) -> Seq<u8>
    decreases s.len(),
{
    if s.len() < payload || payload < 1 {
        Seq::empty()
    } else {
        s.take(payload) + spec_alpha_bytes(alpha) + spec_widened(s.skip(payload), payload, alpha)
    }
}

/// The bytes uploaded for an imported payload: the two three-channel
/// layouts are widened to four channels — one alpha byte per 8-bit
/// pixel, two per 16-bit pixel — and every other layout is uploaded
/// unchanged.
pub open spec fn spec_upload_bytes(s: Seq<u8>, format: PixelFormat) -> Seq<u8> {
    match format {
        PixelFormat::Rgb8 => spec_widened(s, 3, 1),
        PixelFormat::Rgb16 => spec_widened(s, 6, 2),
        _ => s,
    }
}

/// Widens each group of `payload` bytes with `alpha` 255 bytes.
fn widen_groups(bytes: &Vec<u8>, payload: usize, alpha: usize) -> (r: Vec<u8>)
    requires
        1 <= payload <= 8,
        1 <= alpha <= 8,
        bytes@.len() + 16 <= usize::MAX,
    ensures
        r@ == spec_widened(bytes@, payload as int, alpha as int),
{
    let mut out: Vec<u8> = Vec::new();
    let mut i: usize = 0;
    proof {
        assert(bytes@.skip(0) =~= bytes@);
        assert(out@ + spec_widened(bytes@, payload as int, alpha as int)
            =~= spec_widened(bytes@, payload as int, alpha as int));
    }
    while i + payload <= bytes.len()
        invariant
            1 <= payload <= 8,
            1 <= alpha <= 8,
            i <= bytes.len(),
            bytes@.len() + 16 <= usize::MAX,
            spec_widened(bytes@, payload as int, alpha as int)
                == out@ + spec_widened(bytes@.skip(i as int), payload as int, alpha as int),
        decreases bytes.len() - i,
    {
        let ghost before = out@;
        proof {
            assert(before + bytes@.subrange(i as int, i as int) =~= before);
        }
        let mut j: usize = 0;
        while j < payload
            invariant
                j <= payload,
                payload <= 8,
                i + payload <= bytes.len(),
                out@ == before + bytes@.subrange(i as int, i + j as int),
            decreases payload - j,
        {
            proof {
                assert(bytes@.subrange(i as int, i + j + 1 as int)
                    =~= bytes@.subrange(i as int, i + j as int).push(bytes@[i + j as int]));
            }
            out.push(bytes[i + j]);
            j = j + 1;
        }
        let ghost chunk = out@;
        let mut k: usize = 0;
        while k < alpha
            invariant
                k <= alpha,
                out@ == chunk + spec_alpha_bytes(k as int),
            decreases alpha - k,
        {
            proof {
                assert(chunk + spec_alpha_bytes(k + 1 as int)
                    =~= (chunk + spec_alpha_bytes(k as int)).push(255u8));
            }
            out.push(255);
            k = k + 1;
        }
        proof {
            let p = payload as int;
            let a = alpha as int;
            let si = bytes@.skip(i as int);
            assert(si.len() >= p);
            assert(spec_widened(si, p, a)
                == si.take(p) + spec_alpha_bytes(a) + spec_widened(si.skip(p), p, a));
            assert(si.take(p) =~= bytes@.subrange(i as int, i + payload as int));
            assert(si.skip(p) =~= bytes@.skip(i + payload as int));
            assert(out@ =~= before + (si.take(p) + spec_alpha_bytes(a)));
            assert(out@ + spec_widened(bytes@.skip(i + payload as int), p, a)
                =~= before + spec_widened(si, p, a));
        }
        i = i + payload;
    }
    proof {
        assert(bytes@.skip(i as int).len() < payload);
        assert(out@ + spec_widened(bytes@.skip(i as int), payload as int, alpha as int) =~= out@);
    }
    out
}

/// Converts an imported payload to the bytes the GPU upload takes:
/// three-channel pixels gain an opaque alpha channel, all other
/// layouts pass through unchanged.
pub fn gltf_pixels_to_wgpu(bytes: Vec<u8>, format: PixelFormat) -> (r: Vec<u8>)
    requires
        bytes@.len() + 16 <= usize::MAX,
    ensures
        r@ == spec_upload_bytes(bytes@, format),
{
    match format {
        PixelFormat::Rgb8 => widen_groups(&bytes, 3, 1),
        PixelFormat::Rgb16 => widen_groups(&bytes, 6, 2),
        _ => bytes,
    }
}

} // verus!
