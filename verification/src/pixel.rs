//! The pixelator: a nearest-neighbor downsample-then-upsample pass that
//! introduces visible square blocks of roughly the pixelation factor's size.
//!
//! The resampling itself is done by `fast_image_resize` with
//! `ResizeAlg::Nearest`. For that algorithm the output is a pure index-mapped
//! copy of source pixels — a function of the source bytes and the four
//! dimensions alone — so the result is named by [`resized`] and the pixelation
//! pass is specified as two applications of that name.

use vstd::prelude::*;

use core::num::NonZeroU32;
use fast_image_resize::{Image, PixelType, ResizeAlg, Resizer};

use crate::ColorType;

verus! {

/// The bytes produced by one nearest-neighbor resample of an `sw`-by-`sh`
/// image with `cc`-byte pixels to `dw` by `dh`.
pub uninterp spec fn resized(s: Seq<u8>, sw: nat, sh: nat, dw: nat, dh: nat, cc: nat) -> Seq<u8>;

/// The pixelation pass: downsample by the factor `p`, then upsample back to
/// the original dimensions, both nearest-neighbor.
pub open spec fn pixelated(s: Seq<u8>, w: nat, h: nat, cc: nat, p: nat) -> Seq<u8> {
    resized(resized(s, w, h, w / p, h / p, cc), w / p, h / p, w, h, cc)
}

/// Relies on `fast_image_resize`'s `Resizer::resize` with `ResizeAlg::Nearest`
/// over one-byte pixels: the resampler copies source pixels picked by a fixed
/// index mapping, so the output is a function of the source bytes and the
/// dimensions alone, and the destination buffer holds exactly `dw * dh`
/// pixels.
#[verifier::external_body]
fn resize_nearest_gray(buf: &Vec<u8>, sw: u32, sh: u32, dw: u32, dh: u32) -> (r: Vec<u8>)
    requires
        1 <= sw,
        1 <= sh,
        1 <= dw,
        1 <= dh,
        sw as nat * sh as nat <= u32::MAX as nat,
        dw as nat * dh as nat <= u32::MAX as nat,
        buf@.len() == sw as nat * sh as nat,
        dw as nat * dh as nat <= usize::MAX as nat,
    ensures
        r@ == resized(buf@, sw as nat, sh as nat, dw as nat, dh as nat, 1),
        r@.len() == dw as nat * dh as nat,
{
    let src = Image::from_vec_u8(
        NonZeroU32::new(sw).unwrap(),
        NonZeroU32::new(sh).unwrap(),
        buf.clone(),
        PixelType::U8,
    ).unwrap();
    let mut dst = Image::new(NonZeroU32::new(dw).unwrap(), NonZeroU32::new(dh).unwrap(), PixelType::U8);
    let mut resizer = Resizer::new(ResizeAlg::Nearest);
    resizer.resize(&src.view(), &mut dst.view_mut()).unwrap();
    dst.into_vec()
}

/// Relies on `fast_image_resize`'s `Resizer::resize` with `ResizeAlg::Nearest`
/// over three-byte pixels; see [`resize_nearest_gray`].
#[verifier::external_body]
fn resize_nearest_rgb(buf: &Vec<u8>, sw: u32, sh: u32, dw: u32, dh: u32) -> (r: Vec<u8>)
    requires
        1 <= sw,
        1 <= sh,
        1 <= dw,
        1 <= dh,
        sw as nat * sh as nat <= u32::MAX as nat,
        dw as nat * dh as nat <= u32::MAX as nat,
        buf@.len() == sw as nat * sh as nat * 3,
        dw as nat * dh as nat * 3 <= usize::MAX as nat,
    ensures
        r@ == resized(buf@, sw as nat, sh as nat, dw as nat, dh as nat, 3),
        r@.len() == dw as nat * dh as nat * 3,
{
    let src = Image::from_vec_u8(
        NonZeroU32::new(sw).unwrap(),
        NonZeroU32::new(sh).unwrap(),
        buf.clone(),
        PixelType::U8x3,
    ).unwrap();
    let mut dst = Image::new(
        NonZeroU32::new(dw).unwrap(),
        NonZeroU32::new(dh).unwrap(),
        PixelType::U8x3,
    );
    let mut resizer = Resizer::new(ResizeAlg::Nearest);
    resizer.resize(&src.view(), &mut dst.view_mut()).unwrap();
    dst.into_vec()
}

/// Relies on `fast_image_resize`'s `Resizer::resize` with `ResizeAlg::Nearest`
/// over four-byte pixels; see [`resize_nearest_gray`].
#[verifier::external_body]
fn resize_nearest_rgba(buf: &Vec<u8>, sw: u32, sh: u32, dw: u32, dh: u32) -> (r: Vec<u8>)
    requires
        1 <= sw,
        1 <= sh,
        1 <= dw,
        1 <= dh,
        sw as nat * sh as nat <= u32::MAX as nat,
        dw as nat * dh as nat <= u32::MAX as nat,
        buf@.len() == sw as nat * sh as nat * 4,
        dw as nat * dh as nat * 4 <= usize::MAX as nat,
    ensures
        r@ == resized(buf@, sw as nat, sh as nat, dw as nat, dh as nat, 4),
        r@.len() == dw as nat * dh as nat * 4,
{
    let src = Image::from_vec_u8(
        NonZeroU32::new(sw).unwrap(),
        NonZeroU32::new(sh).unwrap(),
        buf.clone(),
        PixelType::U8x4,
    ).unwrap();
    let mut dst = Image::new(
        NonZeroU32::new(dw).unwrap(),
        NonZeroU32::new(dh).unwrap(),
        PixelType::U8x4,
    );
    let mut resizer = Resizer::new(ResizeAlg::Nearest);
    resizer.resize(&src.view(), &mut dst.view_mut()).unwrap();
    dst.into_vec()
}

/// One nearest-neighbor resample of a supported color layout.
fn resize_color(buf: &Vec<u8>, sw: u32, sh: u32, dw: u32, dh: u32, color_type: ColorType) -> (r:
    Vec<u8>)
    requires
        color_type.supported(),
        1 <= sw,
        1 <= sh,
        1 <= dw,
        1 <= dh,
        sw as nat * sh as nat <= u32::MAX as nat,
        dw as nat * dh as nat <= u32::MAX as nat,
        buf@.len() == sw as nat * sh as nat * color_type.spec_channel_count(),
        dw as nat * dh as nat * color_type.spec_channel_count() <= usize::MAX as nat,
    ensures
        r@ == resized(
            buf@,
            sw as nat,
            sh as nat,
            dw as nat,
            dh as nat,
            color_type.spec_channel_count(),
        ),
        r@.len() == dw as nat * dh as nat * color_type.spec_channel_count(),
{
    match color_type {
        ColorType::Grayscale => resize_nearest_gray(buf, sw, sh, dw, dh),
        ColorType::Rgb => resize_nearest_rgb(buf, sw, sh, dw, dh),
        ColorType::Rgba => resize_nearest_rgba(buf, sw, sh, dw, dh),
        ColorType::Indexed => {
            proof {
                assert(false);
            }
            Vec::new()
        },
        ColorType::GrayscaleAlpha => {
            proof {
                assert(false);
            }
            Vec::new()
        },
    }
}

/// Runs the full pixelation pass on a supported image: downsample by the
/// pixelation factor, then upsample back, both nearest-neighbor. The output
/// has exactly as many bytes as the input.
pub(crate) fn pixelate(
    buf: &Vec<u8>,
    width: u32,
    height: u32,
    color_type: ColorType,
    pixelation: u8,
) -> (r: Vec<u8>)
    requires
        color_type.supported(),
        pixelation >= 2,
        width >= pixelation as u32,
        height >= pixelation as u32,
        width as nat * height as nat <= u32::MAX as nat,
        buf@.len() == width as nat * height as nat * color_type.spec_channel_count(),
    ensures
        r@ == pixelated(
            buf@,
            width as nat,
            height as nat,
            color_type.spec_channel_count(),
            pixelation as nat,
        ),
        r@.len() == buf@.len(),
{
    let total = buf.len();
    let p = pixelation as u32;
    let dw = width / p;
    let dh = height / p;
    proof {
        let wi = width as int;
        let hi = height as int;
        let pi = p as int;
        vstd::arithmetic::div_mod::lemma_fundamental_div_mod(wi, pi);
        vstd::arithmetic::div_mod::lemma_fundamental_div_mod(hi, pi);
        assert(1 <= wi / pi && wi / pi <= wi) by (nonlinear_arith)
            requires
                wi == pi * (wi / pi) + wi % pi,
                0 <= wi / pi,
                0 <= wi % pi < pi,
                2 <= pi <= wi,
        ;
        assert(1 <= hi / pi && hi / pi <= hi) by (nonlinear_arith)
            requires
                hi == pi * (hi / pi) + hi % pi,
                0 <= hi / pi,
                0 <= hi % pi < pi,
                2 <= pi <= hi,
        ;
        assert(dw >= 1 && dw <= width && dh >= 1 && dh <= height);
        assert(dw as int * dh as int <= wi * hi) by (nonlinear_arith)
            requires
                1 <= dw as int <= wi,
                1 <= dh as int <= hi,
        ;
        assert(dw as int * dh as int * color_type.spec_channel_count() <= wi * hi
            * color_type.spec_channel_count()) by (nonlinear_arith)
            requires
                dw as int * dh as int <= wi * hi,
                color_type.spec_channel_count() >= 1,
        ;
        assert(total as int == wi * hi * color_type.spec_channel_count());
    }
    let down = resize_color(buf, width, height, dw, dh, color_type);
    let up = resize_color(&down, dw, dh, width, height, color_type);
    up
}

} // verus!
