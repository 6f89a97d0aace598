use crate::errors::PipelineError;
use crate::trusted::{
    base64_decode, base64_decoded, fresh_uuid, image_dims_of, image_dimensions, resize_to_png,
    resized_png_of,
};
use vstd::arithmetic::div_mod::{
    lemma_div_is_ordered, lemma_div_multiples_vanish, lemma_div_pos_is_pos,
    lemma_fundamental_div_mod, lemma_mod_division_less_than_divisor, lemma_multiply_divide_lt,
};
use vstd::math::{abs, max};
use vstd::prelude::*;
use vstd::slice::slice_to_vec;

verus! {

/// The fixed bounding box previews are resized into.
pub const PREVIEW_MAX_WIDTH: u32 = 512;

pub const PREVIEW_MAX_HEIGHT: u32 = 512;

/// The payload of a generated image: either the base64 text it was
/// delivered as, or decoded bytes.
#[derive(Debug)]
pub enum ImageData {
    Base64(String),
    Bytes(Vec<u8>),
}

/// The bytes an image payload decodes to: the bytes themselves, or the
/// base64 decoding of the text; None where the text is not valid base64.
pub open spec fn image_bytes_of(data: ImageData) -> Option<Seq<u8>> {
    match data {
        ImageData::Base64(s) => base64_decoded(s@),
        ImageData::Bytes(b) => Some(b@),
    }
}

/// n / d rounded to the nearest integer (halves rounded up), for d > 0.
pub open spec fn round_div(n: int, d: int) -> int {
    (2 * n + d) / (2 * d)
}

/// The largest size that fits within the box (bw, bh) while keeping the
/// aspect ratio of (w, h), each side rounded to the nearest integer and
/// clamped to at least 1.
pub open spec fn spec_fit(w: int, h: int, bw: int, bh: int) -> (int, int) {
    if bw * h <= bh * w {
        (bw, max(1, round_div(h * bw, w)))
    } else {
        (max(1, round_div(w * bh, h)), bh)
    }
}

/// Rounded division lands within the expected bound and within half a
/// denominator of the exact quotient.
proof fn lemma_round_div_props(n: int, d: int, b: int)
    requires
        0 <= n,
        1 <= d,
        1 <= b,
        n <= b * d,
    ensures
        0 <= round_div(n, d) <= b,
        2 * abs(n - round_div(n, d) * d) <= d,
        2 * n >= d ==> round_div(n, d) >= 1,
{
    let a = 2 * n + d;
    let q = a / (2 * d);
    lemma_div_pos_is_pos(a, 2 * d);
    assert(2 * n + d < (2 * d) * (b + 1)) by (nonlinear_arith)
        requires
            n <= b * d,
            1 <= d,
    ;
    lemma_multiply_divide_lt(a, 2 * d, b + 1);
    lemma_fundamental_div_mod(a, 2 * d);
    lemma_mod_division_less_than_divisor(a, 2 * d);
    let r = a % (2 * d);
    assert(2 * (n - q * d) == r - d) by (nonlinear_arith)
        requires
            a == (2 * d) * q + r,
            a == 2 * n + d,
    ;
    if 2 * n >= d {
        assert((2 * d) / (2 * d) == 1) by {
            lemma_div_multiples_vanish(1, 2 * d);
        }
        lemma_div_is_ordered(2 * d, a, 2 * d);
    }
}

/// The fitted size is within the box, each side is at least 1, and at
/// least one side meets its bound.
pub proof fn lemma_fit_bounds(w: int, h: int, bw: int, bh: int)
    requires
        1 <= w,
        1 <= h,
        1 <= bw,
        1 <= bh,
    ensures
        1 <= spec_fit(w, h, bw, bh).0 <= bw,
        1 <= spec_fit(w, h, bw, bh).1 <= bh,
        spec_fit(w, h, bw, bh).0 == bw || spec_fit(w, h, bw, bh).1 == bh,
{
    if bw * h <= bh * w {
        assert(0 <= h * bw && h * bw <= bh * w) by (nonlinear_arith)
            requires
                bw * h <= bh * w,
                1 <= h,
                1 <= bw,
        ;
        lemma_round_div_props(h * bw, w, bh);
    } else {
        assert(0 <= w * bh && w * bh <= bw * h) by (nonlinear_arith)
            requires
                bh * w < bw * h,
                1 <= w,
                1 <= bh,
        ;
        lemma_round_div_props(w * bh, h, bw);
    }
}

/// Aspect preservation: as long as neither scaled side rounds down to
/// zero, the fitted size keeps the aspect ratio of (w, h) up to rounding:
/// the cross products h * nw and w * nh differ by at most half of
/// max(w, h).
pub proof fn lemma_fit_aspect(w: int, h: int, bw: int, bh: int)
    requires
        1 <= w,
        1 <= h,
        1 <= bw,
        1 <= bh,
        bw * h <= bh * w ==> 2 * (h * bw) >= w,
        bh * w < bw * h ==> 2 * (w * bh) >= h,
    ensures
        2 * abs(h * spec_fit(w, h, bw, bh).0 - w * spec_fit(w, h, bw, bh).1) <= max(w, h),
{
    if bw * h <= bh * w {
        assert(0 <= h * bw && h * bw <= bh * w) by (nonlinear_arith)
            requires
                bw * h <= bh * w,
                1 <= h,
                1 <= bw,
        ;
        lemma_round_div_props(h * bw, w, bh);
        let q = round_div(h * bw, w);
        assert(h * bw - q * w == h * bw - w * q) by (nonlinear_arith);
    } else {
        assert(0 <= w * bh && w * bh <= bw * h) by (nonlinear_arith)
            requires
                bh * w < bw * h,
                1 <= w,
                1 <= bh,
        ;
        lemma_round_div_props(w * bh, h, bw);
        let q = round_div(w * bh, h);
        assert(abs(h * q - w * bh) == abs(w * bh - q * h)) by (nonlinear_arith);
    }
}

/// Computes spec_fit executably.
pub fn fit_within(w: u32, h: u32, bound_w: u32, bound_h: u32) -> (r: (u32, u32))
    requires
        1 <= w,
        1 <= h,
        1 <= bound_w,
        1 <= bound_h,
    ensures
        r.0 == spec_fit(w as int, h as int, bound_w as int, bound_h as int).0,
        r.1 == spec_fit(w as int, h as int, bound_w as int, bound_h as int).1,
{
    proof {
        lemma_fit_bounds(w as int, h as int, bound_w as int, bound_h as int);
    }
    let w_wide = w as u128;
    let h_wide = h as u128;
    let bw_wide = bound_w as u128;
    let bh_wide = bound_h as u128;
    proof {
        assert(bw_wide * h_wide < 0x1_0000_0000_0000_0000u128 && bh_wide * w_wide
            < 0x1_0000_0000_0000_0000u128 && h_wide * bw_wide < 0x1_0000_0000_0000_0000u128
            && w_wide * bh_wide < 0x1_0000_0000_0000_0000u128) by (nonlinear_arith)
            requires
                w_wide < 0x1_0000_0000,
                h_wide < 0x1_0000_0000,
                bw_wide < 0x1_0000_0000,
                bh_wide < 0x1_0000_0000,
        ;
    }
    if bw_wide * h_wide <= bh_wide * w_wide {
        let q = (2 * (h_wide * bw_wide) + w_wide) / (2 * w_wide);
        let nh = if q < 1 {
            1u128
        } else {
            q
        };
        (bound_w, nh as u32)
    } else {
        let q = (2 * (w_wide * bh_wide) + h_wide) / (2 * h_wide);
        let nw = if q < 1 {
            1u128
        } else {
            q
        };
        (nw as u32, bound_h)
    }
}

/// A generated image, identified by the text form of a fresh UUID. An
/// original image holds what generation delivered; a preview is derived
/// from an original by an aspect-preserving resize and never replaces it.
#[derive(Debug)]
pub struct Image {
    pub id: String,
    pub path: Option<String>,
    pub data: ImageData,
    pub is_preview: bool,
}

/// The dimensions a preview derived from the given payload will have:
/// the payload's dimensions fitted into the preview bounding box. None
/// where the payload does not decode to a readable image.
pub open spec fn preview_dims_of(data: ImageData) -> Option<(u32, u32)> {
    match image_bytes_of(data) {
        None => None,
        Some(b) => match image_dims_of(b) {
            None => None,
            Some(dims) => if 1 <= dims.0 && 1 <= dims.1 {
                Some(
                    (
                        spec_fit(
                            dims.0 as int,
                            dims.1 as int,
                            PREVIEW_MAX_WIDTH as int,
                            PREVIEW_MAX_HEIGHT as int,
                        ).0 as u32,
                        spec_fit(
                            dims.0 as int,
                            dims.1 as int,
                            PREVIEW_MAX_WIDTH as int,
                            PREVIEW_MAX_HEIGHT as int,
                        ).1 as u32,
                    ),
                )
            } else {
                None
            },
        },
    }
}

/// The bytes a preview derived from the given payload will hold. A
/// function of the payload alone: deriving a preview twice from the same
/// original yields the same bytes.
pub open spec fn preview_bytes_of(data: ImageData) -> Option<Seq<u8>> {
    match (image_bytes_of(data), preview_dims_of(data)) {
        (Some(b), Some(dims)) => resized_png_of(b, dims.0, dims.1),
        _ => None,
    }
}

/// What a preview looks like depends on the decoded bytes alone: payloads
/// that decode alike yield the same preview.
pub proof fn lemma_preview_depends_on_bytes_alone(a: ImageData, b: ImageData)
    requires
        image_bytes_of(a) == image_bytes_of(b),
    ensures
        preview_dims_of(a) == preview_dims_of(b),
        preview_bytes_of(a) == preview_bytes_of(b),
{
}

/// Any preview's dimensions fit within the preview bounding box, each side
/// at least 1, and at least one side meets its bound.
pub proof fn lemma_preview_dims_within_bounds(data: ImageData)
    requires
        preview_dims_of(data) is Some,
    ensures
        match preview_dims_of(data) {
            Some(d) => 1 <= d.0 <= PREVIEW_MAX_WIDTH && 1 <= d.1 <= PREVIEW_MAX_HEIGHT && (d.0
                == PREVIEW_MAX_WIDTH || d.1 == PREVIEW_MAX_HEIGHT),
            None => false,
        },
{
    let b = image_bytes_of(data).unwrap();
    let dims = image_dims_of(b).unwrap();
    lemma_fit_bounds(
        dims.0 as int,
        dims.1 as int,
        PREVIEW_MAX_WIDTH as int,
        PREVIEW_MAX_HEIGHT as int,
    );
}

impl Image {
    /// A fresh original image holding the given payload.
    pub fn default(data: ImageData) -> (r: Image)
        ensures
            r.data == data,
            !r.is_preview,
            r.path is None,
            r.id@.len() == 36,
    {
        Image { id: fresh_uuid(), path: None, data, is_preview: false }
    }

    /// A fresh original image holding a base64 payload.
    pub fn from_base64(base64: String) -> (r: Image)
        ensures
            r.data == ImageData::Base64(base64),
            !r.is_preview,
            r.path is None,
            r.id@.len() == 36,
    {
        Image::default(ImageData::Base64(base64))
    }

    /// The object name the image uploads under: the id with a ".png"
    /// suffix, and a distinguishing prefix for previews.
    pub fn file_name(&self) -> (r: String)
        ensures
            r@ == spec_file_name(self.id@, self.is_preview),
    {
        let mut s = String::new();
        if self.is_preview {
            s.append("preview_");
        }
        s.append(self.id.as_str());
        s.append(".png");
        proof {
            assert(s@ =~= spec_file_name(self.id@, self.is_preview));
        }
        s
    }

    /// The image's decoded bytes; decoding a malformed base64 payload
    /// fails.
    pub fn to_bytes(&self) -> (r: Result<Vec<u8>, PipelineError>)
        ensures
            r is Ok <==> image_bytes_of(self.data) is Some,
            r matches Ok(v) ==> image_bytes_of(self.data) == Some(v@),
            r is Err ==> r == Err::<Vec<u8>, PipelineError>(PipelineError::ImageDecode),
    {
        match &self.data {
            ImageData::Base64(s) => match base64_decode(s.as_str()) {
                Some(v) => Ok(v),
                None => Err(PipelineError::ImageDecode),
            },
            ImageData::Bytes(b) => Ok(slice_to_vec(b.as_slice())),
        }
    }

    /// Derives the preview: the payload decoded, resized into the preview
    /// bounding box with the aspect ratio kept, and re-encoded as PNG. The
    /// original is untouched; the preview keeps its id and is marked as a
    /// preview.
    pub fn to_preview(&self) -> (r: Result<Image, PipelineError>)
        ensures
            r is Ok <==> preview_bytes_of(self.data) is Some,
            r matches Ok(p) ==> p.id == self.id && p.is_preview && p.path is None && (
            p.data matches ImageData::Bytes(v) && preview_bytes_of(self.data) == Some(v@)
                && image_dims_of(v@) == preview_dims_of(self.data)),
            r is Err ==> r == Err::<Image, PipelineError>(PipelineError::ImageDecode),
    {
        let bytes = match self.to_bytes() {
            Ok(b) => b,
            Err(e) => {
                return Err(e);
            },
        };
        let dims = match image_dimensions(&bytes) {
            Some(d) => d,
            None => {
                return Err(PipelineError::ImageDecode);
            },
        };
        if dims.0 < 1 || dims.1 < 1 {
            return Err(PipelineError::ImageDecode);
        }
        proof {
            lemma_fit_bounds(
                dims.0 as int,
                dims.1 as int,
                PREVIEW_MAX_WIDTH as int,
                PREVIEW_MAX_HEIGHT as int,
            );
        }
        let fitted = fit_within(dims.0, dims.1, PREVIEW_MAX_WIDTH, PREVIEW_MAX_HEIGHT);
        match resize_to_png(&bytes, fitted.0, fitted.1) {
            Some(v) => Ok(
                Image { id: self.id.clone(), path: None, data: ImageData::Bytes(v), is_preview: true },
            ),
            None => Err(PipelineError::ImageDecode),
        }
    }
}

/// The object name an image uploads under.
pub open spec fn spec_file_name(id: Seq<char>, is_preview: bool) -> Seq<char> {
    if is_preview {
        "preview_"@ + id + ".png"@
    } else {
        id + ".png"@
    }
}

} // verus!
