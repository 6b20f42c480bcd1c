//! Image helpers: the cached conversion of a raster image into a
//! texture handle, scale-parameter reading, pixel decoding, and the
//! effective render size.
//!
//! Scale components travel in thousandths, so a scale of one and a
//! half is the integer 1500 and every size computation stays exact.

use vstd::prelude::*;

use crate::errors::UnitError;
use crate::handles::release_model;
use crate::handles::HandleSlot;
use crate::handles::ObjectRegistry;
use crate::params::read_model;
use crate::params::BoundParameter;
use crate::scope::Scope;
use crate::values::ImageValue;
use crate::values::ObjectRef;
use crate::values::TaggedValue;
use crate::values::ValueModel;
use crate::values::ENGINE_VENDOR_TAG;
use crate::values::IMAGE_FLAG_PREMULTIPLIED_ALPHA;
use crate::values::TEXTURE_TYPE_TAG;

verus! {

/// Largest admissible scale component, in thousandths. This is the
/// machine limit, not a policy: it is the largest factor for which a
/// 32-bit source dimension times the scale is guaranteed to fit the
/// 64-bit size arithmetic ((2^32 - 1) * (2^32 + 1) == 2^64 - 1).
/// A negative component is rejected for the same reason: the engine's
/// render sizes are unsigned.
pub const MAX_SCALE_THOUSANDTHS: i64 = 4294967297;

/// A texture payload packs the resolution: width in the high half,
/// height in the low half.
pub open spec fn spec_pack_resolution(width: u32, height: u32) -> u64 {
    (width * 0x1_0000_0000 + height) as u64
}

/// Pack a resolution into a texture payload word.
pub fn pack_resolution(width: u32, height: u32) -> (r: u64)
    ensures
        r == spec_pack_resolution(width, height),
{
    (width as u64) * 0x1_0000_0000 + (height as u64)
}

/// Read a texture payload's resolution back.
pub fn unpack_resolution(payload: u64) -> (r: (u32, u32))
    ensures
        r.0 == payload / 0x1_0000_0000,
        r.1 == payload % 0x1_0000_0000,
        forall|w: u32, h: u32|
            payload == spec_pack_resolution(w, h) ==> r == (w, h),
{
    let w = payload / 0x1_0000_0000;
    let h = payload % 0x1_0000_0000;
    proof {
        assert forall|ww: u32, hh: u32| payload == spec_pack_resolution(ww, hh)
            implies (w as u32, h as u32) == (ww, hh) by {
            assert(payload / 0x1_0000_0000 == ww as u64) by (nonlinear_arith)
                requires payload == (ww as u64) * 0x1_0000_0000 + (hh as u64), hh < 0x1_0000_0000;
            assert(payload % 0x1_0000_0000 == hh as u64) by (nonlinear_arith)
                requires payload == (ww as u64) * 0x1_0000_0000 + (hh as u64), hh < 0x1_0000_0000;
        }
    }
    (w as u32, h as u32)
}

/// The effective render size of a source of the given dimensions under
/// a scale in thousandths.
pub open spec fn spec_effective_size(width: u32, height: u32, sx: i64, sy: i64) -> (u64, u64) {
    (
        ((width as int * sx) / 1000) as u64,
        ((height as int * sy) / 1000) as u64,
    )
}

/// Scale a source size by a scale in thousandths, exactly.
pub fn effective_size(width: u32, height: u32, sx: i64, sy: i64) -> (r: (u64, u64))
    requires
        0 <= sx <= MAX_SCALE_THOUSANDTHS,
        0 <= sy <= MAX_SCALE_THOUSANDTHS,
    ensures
        r == spec_effective_size(width, height, sx, sy),
{
    proof {
        assert(width as int * sx <= u32::MAX as int * MAX_SCALE_THOUSANDTHS) by (nonlinear_arith)
            requires 0 <= sx <= MAX_SCALE_THOUSANDTHS, width <= u32::MAX;
        assert(height as int * sy <= u32::MAX as int * MAX_SCALE_THOUSANDTHS) by (nonlinear_arith)
            requires 0 <= sy <= MAX_SCALE_THOUSANDTHS, height <= u32::MAX;
        assert(width as int * sx >= 0) by (nonlinear_arith)
            requires sx >= 0, width >= 0;
        assert(height as int * sy >= 0) by (nonlinear_arith)
            requires sy >= 0, height >= 0;
    }
    let w = (width as u64) * (sx as u64) / 1000;
    let h = (height as u64) * (sy as u64) / 1000;
    (w, h)
}

/// What a successful scale read yields: the two components of a
/// two-component numeric parameter value, both within range.
pub open spec fn scale_ok(m: ValueModel, sx: i64, sy: i64) -> bool {
    &&& m == ValueModel::Number2(sx, sy)
    &&& 0 <= sx <= MAX_SCALE_THOUSANDTHS
    &&& 0 <= sy <= MAX_SCALE_THOUSANDTHS
}

/// Read a scale parameter: a two-component number in thousandths. A
/// component outside the unsigned 64-bit size arithmetic — negative,
/// or beyond the machine limit above — and any other value shape are
/// parameter errors; an unreadable binding propagates its own error.
pub fn get_scale(scale: &BoundParameter, scope: &Scope) -> (r: Result<(i64, i64), UnitError>)
    requires
        scale.is_acquired(),
    ensures
        match r {
            Ok((sx, sy)) => read_model(scale.mode_m(), scope@) matches Ok(m) && scale_ok(
                m,
                sx,
                sy,
            ),
            Err(e) => match read_model(scale.mode_m(), scope@) {
                Ok(m) => e == UnitError::Parameter && !(exists|sx: i64, sy: i64|
                    scale_ok(m, sx, sy)),
                Err(re) => e == re,
            },
        },
{
    let v = match scale.read(scope) {
        Ok(v) => v,
        Err(e) => {
            return Err(e);
        },
    };
    match v {
        TaggedValue::Number2(sx, sy) => {
            if 0 <= sx && sx <= MAX_SCALE_THOUSANDTHS && 0 <= sy && sy <= MAX_SCALE_THOUSANDTHS {
                Ok((sx, sy))
            } else {
                Err(UnitError::Parameter)
            }
        },
        _ => Err(UnitError::Parameter),
    }
}

/// One packed pixel: the four channel bytes laid least significant
/// first — red, green, blue, alpha.
pub open spec fn spec_pack_rgba(r: u8, g: u8, b: u8, a: u8) -> u32 {
    r as u32 | (g as u32) << 8 | (b as u32) << 16 | (a as u32) << 24
}

/// Premultiply one color channel by the alpha byte.
pub open spec fn spec_premultiply(c: u8, a: u8) -> u8 {
    ((c as int * a as int) / 255) as u8
}

/// The packed pixel at index `i` of a four-channel buffer: taken
/// verbatim when the buffer is already premultiplied, otherwise the
/// color channels are premultiplied by the pixel's alpha.
pub open spec fn spec_pixel_at(data: Seq<u8>, premultiplied: bool, i: int) -> u32 {
    if premultiplied {
        spec_pack_rgba(data[4 * i], data[4 * i + 1], data[4 * i + 2], data[4 * i + 3])
    } else {
        spec_pack_rgba(
            spec_premultiply(data[4 * i], data[4 * i + 3]),
            spec_premultiply(data[4 * i + 1], data[4 * i + 3]),
            spec_premultiply(data[4 * i + 2], data[4 * i + 3]),
            data[4 * i + 3],
        )
    }
}

/// Whether an image's flags mark its pixel data premultiplied.
pub open spec fn spec_is_premultiplied(flags: u32) -> bool {
    flags & IMAGE_FLAG_PREMULTIPLIED_ALPHA == IMAGE_FLAG_PREMULTIPLIED_ALPHA
}

fn premultiply(c: u8, a: u8) -> (r: u8)
    ensures
        r == spec_premultiply(c, a),
{
    proof {
        assert(c as int * a as int <= 255 * 255) by (nonlinear_arith)
            requires c <= 255, a <= 255;
        assert(c as int * a as int >= 0) by (nonlinear_arith)
            requires c >= 0, a >= 0;
    }
    ((c as u32 * a as u32) / 255) as u8
}

/// Decode a four-channel image into packed pixels, premultiplying the
/// alpha when the source is not premultiplied already.
pub fn decode_pixels(image: &ImageValue) -> (r: Result<Vec<u32>, UnitError>)
    ensures
        image@.channels == 4 ==> (r matches Ok(pixels) && {
            &&& pixels@.len() == image@.data.len() / 4
            &&& forall|i: int|
                0 <= i < pixels@.len() ==> pixels@[i] == spec_pixel_at(
                    image@.data,
                    spec_is_premultiplied(image@.flags),
                    i,
                )
        }),
        image@.channels != 4 ==> r == Err::<Vec<u32>, UnitError>(UnitError::Parameter),
{
    if image.channels != 4 {
        return Err(UnitError::Parameter);
    }
    let premultiplied =
        image.flags & IMAGE_FLAG_PREMULTIPLIED_ALPHA == IMAGE_FLAG_PREMULTIPLIED_ALPHA;
    let data_len = image.data.len();
    let n = data_len / 4;
    proof {
        vstd::arithmetic::div_mod::lemma_fundamental_div_mod(data_len as int, 4);
    }
    let mut pixels: Vec<u32> = Vec::new();
    let mut i: usize = 0;
    while i < n
        invariant
            data_len == image.data@.len(),
            n == data_len / 4,
            4 * n <= data_len,
            i <= n,
            pixels@.len() == i,
            premultiplied == spec_is_premultiplied(image@.flags),
            forall|j: int|
                0 <= j < i ==> pixels@[j] == spec_pixel_at(image@.data, premultiplied, j),
        decreases n - i,
    {
        proof {
            assert(4 * i + 4 <= 4 * n) by (nonlinear_arith)
                requires i < n;
        }
        let r = image.data[4 * i];
        let g = image.data[4 * i + 1];
        let b = image.data[4 * i + 2];
        let a = image.data[4 * i + 3];
        let px = if premultiplied {
            pack_rgba(r, g, b, a)
        } else {
            pack_rgba(premultiply(r, a), premultiply(g, a), premultiply(b, a), a)
        };
        pixels.push(px);
        i = i + 1;
    }
    Ok(pixels)
}

fn pack_rgba(r: u8, g: u8, b: u8, a: u8) -> (res: u32)
    ensures
        res == spec_pack_rgba(r, g, b, a),
{
    r as u32 | (g as u32) << 8u32 | (b as u32) << 16u32 | (a as u32) << 24u32
}

/// The cached conversion of a raster image to a texture handle, keyed
/// by the identity of the source pixel buffer.
#[derive(Clone, Copy, Debug, PartialEq, Eq, Structural)]
pub struct CachedUIImage {
    /// The texture handle of the last conversion, if any.
    pub texture: Option<ObjectRef>,
    /// Identity of the source buffer the held texture was made from.
    pub prev_source: Option<u64>,
}

/// When a source identity is remembered, a texture is held for it.
pub open spec fn cache_wf(c: CachedUIImage) -> bool {
    c.prev_source is Some ==> c.texture is Some
}

/// What refreshing the cache against a source image does: a hit keeps
/// everything; a miss releases the previously held texture handle (if
/// any), wraps a fresh texture whose payload packs the image's
/// resolution, and remembers the new source identity.
pub open spec fn refresh_post(
    pre: CachedUIImage,
    reg_pre: ObjectRegistry,
    post: CachedUIImage,
    reg_post: ObjectRegistry,
    img: crate::values::ImageModel,
    r: Result<ObjectRef, UnitError>,
) -> bool {
    if pre.prev_source == Some(img.source_id) && pre.texture is Some {
        &&& post == pre
        &&& reg_post.slots@ == reg_pre.slots@
        &&& reg_post.destroyed@ == reg_pre.destroyed@
        &&& r == Ok::<ObjectRef, UnitError>(pre.texture->Some_0)
    } else {
        ({
            let (mid_slots, mid_destroyed) = match pre.texture {
                Some(t) => release_model(reg_pre.slots@, reg_pre.destroyed@, t),
                None => (reg_pre.slots@, reg_pre.destroyed@),
            };
            let fresh = ObjectRef {
                vendor_tag: ENGINE_VENDOR_TAG,
                type_tag: TEXTURE_TYPE_TAG,
                slot: mid_slots.len() as usize,
            };
            &&& reg_post.slots@ == mid_slots.push(
                Some(
                    HandleSlot {
                        refcount: 1,
                        vendor_tag: ENGINE_VENDOR_TAG,
                        type_tag: TEXTURE_TYPE_TAG,
                        payload: spec_pack_resolution(img.width, img.height),
                    },
                ),
            )
            &&& reg_post.destroyed@ == mid_destroyed
            &&& post.texture == Some(fresh)
            &&& post.prev_source == Some(img.source_id)
            &&& r == Ok::<ObjectRef, UnitError>(fresh)
        })
    }
}

impl CachedUIImage {
    pub fn new() -> (r: CachedUIImage)
        ensures
            r.texture is None,
            r.prev_source is None,
            cache_wf(r),
    {
        CachedUIImage { texture: None, prev_source: None }
    }

    /// Forget the remembered source identity, forcing the next refresh
    /// to convert again. The held handle stays until that refresh
    /// releases it.
    pub fn invalidate(&mut self)
        ensures
            final(self).prev_source is None,
            final(self).texture == old(self).texture,
            cache_wf(*final(self)),
    {
        self.prev_source = None;
    }

    /// Refresh the cache for `image`: reuse the held texture when the
    /// source buffer is unchanged, otherwise release it and convert
    /// anew.
    pub fn get_texture_from_image(
        &mut self,
        registry: &mut ObjectRegistry,
        image: &ImageValue,
    ) -> (r: Result<ObjectRef, UnitError>)
        requires
            cache_wf(*old(self)),
        ensures
            cache_wf(*final(self)),
            refresh_post(*old(self), *old(registry), *final(self), *final(registry), image@, r),
            r is Ok,
    {
        let hit = match self.prev_source {
            Some(s) => s == image.source_id,
            None => false,
        };
        if hit {
            match self.texture {
                Some(t) => {
                    return Ok(t);
                },
                None => {
                    proof {
                        assert(false);
                    }
                    return Err(UnitError::Lifecycle);
                },
            }
        }
        match self.texture {
            Some(t) => {
                registry.release_value(TaggedValue::Object(t));
            },
            None => {},
        }
        let payload = pack_resolution(image.width, image.height);
        let fresh_slot = registry.slots.len();
        let wrapped = registry.wrap(payload, ENGINE_VENDOR_TAG, TEXTURE_TYPE_TAG);
        let fresh = ObjectRef {
            vendor_tag: ENGINE_VENDOR_TAG,
            type_tag: TEXTURE_TYPE_TAG,
            slot: fresh_slot,
        };
        self.texture = Some(fresh);
        self.prev_source = Some(image.source_id);
        Ok(fresh)
    }
}

} // verus!
