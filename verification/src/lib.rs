//! Deterministic, seeded corruption ("datamoshing") of decoded raster image
//! data: byte-level scrambling of scanline regions plus an optional blocky
//! pixelation pass.
//!
//! The caller supplies an already-decoded flat pixel buffer and its shape
//! description; [`MoshData::mosh`] clones the untouched original into the
//! working buffer, seeds a deterministic generator from the options, runs a
//! randomly drawn number of chunk mutations in place and finally pixelates.
//! Re-running with the same options reproduces the output byte for byte;
//! re-running with a new seed never compounds earlier mutations, because every
//! run starts from the original. Container parsing (PNG decode and encode) and
//! file I/O are collaborator concerns and stay outside this crate's core.

use vstd::prelude::*;

pub mod cli;
pub mod err;
pub mod fx;
pub mod pixel;
pub mod rng;

use crate::err::MoshError;
use crate::fx::{
    channel_shift_seq,
    reverse_seq,
    rotate_left_seq,
    swap_channels_seq,
    Mosh,
    MoshChunk,
    MoshLine,
};
use crate::rng::{
    bernoulli,
    bernoulli_next,
    bernoulli_value,
    rng_state,
    seeded_state,
    uniform,
    uniform_next,
    uniform_value,
};
use rand_chacha::ChaCha8Rng;

verus! {

/// Color layout of decoded pixel data, as the decoder reports it.
#[derive(Clone, Copy, Debug, PartialEq, Eq, Structural)]
pub enum ColorType {
    Grayscale,
    Rgb,
    Indexed,
    GrayscaleAlpha,
    Rgba,
}

impl ColorType {
    /// Number of channel bytes per pixel.
    pub open spec fn spec_channel_count(self) -> nat {
        match self {
            ColorType::Grayscale => 1,
            ColorType::Indexed => 1,
            ColorType::GrayscaleAlpha => 2,
            ColorType::Rgb => 3,
            ColorType::Rgba => 4,
        }
    }

    /// The engine processes grayscale, RGB and RGBA data; indexed-palette and
    /// grayscale-alpha images are rejected.
    pub open spec fn supported(self) -> bool {
        self is Grayscale || self is Rgb || self is Rgba
    }

    /// Number of channel bytes per pixel.
    pub fn channel_count(&self) -> (r: usize)
        ensures
            r == self.spec_channel_count(),
            1 <= r <= 4,
    {
        match self {
            ColorType::Grayscale => 1,
            ColorType::Indexed => 1,
            ColorType::GrayscaleAlpha => 2,
            ColorType::Rgb => 3,
            ColorType::Rgba => 4,
        }
    }
}

/// Bit depth of decoded pixel data. The engine mutates bytes, not samples, so
/// the depth is only carried through for the encoder.
#[derive(Clone, Copy, Debug, PartialEq, Eq, Structural)]
pub enum BitDepth {
    One,
    Two,
    Four,
    Eight,
    Sixteen,
}

/// Processing options.
///
/// Probabilities are expressed in parts per million of [`crate::rng::PROB_SCALE`]:
/// `0` never fires, `PROB_SCALE` always fires. Minimal `pixelation` value is
/// `1` (off).
pub struct MoshOptions {
    /// Minimal amount of chunks to process.
    pub min_rate: u16,
    /// Maximal amount of chunks to process.
    pub max_rate: u16,
    /// Pixelation's intensity.
    pub pixelation: u8,
    /// Chance of line shift, in parts per million.
    pub line_shift: u32,
    /// Chance of reverse, in parts per million.
    pub reverse: u32,
    /// Chance of flip, in parts per million.
    pub flip: u32,
    /// Chance of channel swap, in parts per million.
    pub channel_swap: u32,
    /// Chance of channel shift, in parts per million.
    pub channel_shift: u32,
    /// Random seed.
    pub seed: u64,
}

impl MoshOptions {
    /// Assigns a fresh random 64-bit seed, leaving every other option as it
    /// was.
    pub fn new_seed(&mut self)
        ensures
            final(self).min_rate == old(self).min_rate,
            final(self).max_rate == old(self).max_rate,
            final(self).pixelation == old(self).pixelation,
            final(self).line_shift == old(self).line_shift,
            final(self).reverse == old(self).reverse,
            final(self).flip == old(self).flip,
            final(self).channel_swap == old(self).channel_swap,
            final(self).channel_shift == old(self).channel_shift,
    {
        self.seed = crate::rng::fresh_seed();
    }
}

impl Default for MoshOptions {
    /// The reference defaults: rates `1..=7`, pixelation `10`, every mutation
    /// probability `0.3`, and a freshly drawn seed.
    fn default() -> (r: Self)
        ensures
            r.min_rate == 1,
            r.max_rate == 7,
            r.pixelation == 10,
            r.line_shift == 300000,
            r.reverse == 300000,
            r.flip == 300000,
            r.channel_swap == 300000,
            r.channel_shift == 300000,
    {
        MoshOptions {
            min_rate: 1,
            max_rate: 7,
            pixelation: 10,
            line_shift: 300000,
            reverse: 300000,
            flip: 300000,
            channel_swap: 300000,
            channel_shift: 300000,
            seed: crate::rng::fresh_seed(),
        }
    }
}

/// A decoded image: the shape description, the never-mutated original bytes
/// and the working buffer that [`MoshData::mosh`] rebuilds on every call.
pub struct MoshData {
    /// Working buffer: the mutated bytes after a successful `mosh`.
    pub buf: Vec<u8>,
    /// The decoded original; never mutated.
    pub image: Vec<u8>,
    /// Width in pixels.
    pub width: u32,
    /// Height in pixels (scanline count).
    pub height: u32,
    /// Color layout of the pixel data.
    pub color_type: ColorType,
    /// Bit depth, carried through for the encoder.
    pub bit_depth: BitDepth,
    /// Bytes per scanline.
    pub line_size: usize,
}

impl MoshData {
    /// Wraps an already-decoded pixel buffer and its shape description.
    pub fn new(
        image: Vec<u8>,
        width: u32,
        height: u32,
        color_type: ColorType,
        bit_depth: BitDepth,
        line_size: usize,
    ) -> (r: Self)
        ensures
            r.image == image,
            r.width == width,
            r.height == height,
            r.color_type == color_type,
            r.bit_depth == bit_depth,
            r.line_size == line_size,
    {
        MoshData { buf: Vec::new(), image, width, height, color_type, bit_depth, line_size }
    }

    /// Non-degenerate geometry: positive axes, and an original buffer of
    /// exactly `height` scanlines of `line_size` bytes.
    pub open spec fn geometry_ok(self) -> bool {
        &&& self.width >= 1
        &&& self.height >= 1
        &&& self.line_size >= 1
        &&& self.image@.len() == self.height as nat * self.line_size as nat
    }

    /// What the pixelation stage needs when it is enabled: a factor no larger
    /// than either axis, scanlines that are exactly `width` whole pixels, and
    /// dimensions the resampler can address.
    pub open spec fn pixelation_ok(self, o: MoshOptions) -> bool {
        o.pixelation > 1 ==> {
            &&& self.width as nat >= o.pixelation as nat
            &&& self.height as nat >= o.pixelation as nat
            &&& self.line_size as nat == self.width as nat * self.color_type.spec_channel_count()
            &&& self.width as nat * self.height as nat <= u32::MAX as nat
        }
    }

    /// The inputs on which `mosh` does its work and returns `Ok`.
    pub open spec fn accepts(self, o: MoshOptions) -> bool {
        self.color_type.supported() && self.geometry_ok() && self.pixelation_ok(o)
    }

    /// Processes the image: clones the untouched original into the working
    /// buffer, runs the drawn number of chunk-mosh iterations and finally the
    /// pixelation pass. The output is a function of the original bytes, the
    /// shape description and the options alone, so a seed reproduces it
    /// exactly; the drawn iteration count always lies within the normalized
    /// rate bounds.
    ///
    /// # Errors
    ///
    /// * [`MoshError::UnsupportedColorType`]: indexed-palette and
    ///   grayscale-alpha data is rejected, whatever the options say.
    /// * [`MoshError::InvalidParameters`]: degenerate geometry, or a
    ///   pixelation factor the image cannot accommodate.
    ///
    /// On an error the working buffer is left as it was.
    pub fn mosh(&mut self, options: &MoshOptions) -> (r: Result<(), MoshError>)
        ensures
            final(self).image == old(self).image,
            final(self).width == old(self).width,
            final(self).height == old(self).height,
            final(self).color_type == old(self).color_type,
            final(self).bit_depth == old(self).bit_depth,
            final(self).line_size == old(self).line_size,
            !old(self).color_type.supported() ==> r == Err::<(), MoshError>(
                MoshError::UnsupportedColorType,
            ),
            old(self).color_type.supported() && !(old(self).geometry_ok() && old(
                self,
            ).pixelation_ok(*options)) ==> r == Err::<(), MoshError>(MoshError::InvalidParameters),
            old(self).accepts(*options) ==> r == Ok::<(), MoshError>(()),
            r is Err ==> final(self).buf == old(self).buf,
            r is Ok ==> final(self).buf@ == mosh_output(*old(self), *options),
            r is Ok ==> final(self).buf@.len() == old(self).image@.len(),
            r is Ok ==> options.min_rate as u64 <= spec_rate(*options) <= effective_max_rate(
                *options,
            ) as u64,
    {
        match self.color_type {
            ColorType::GrayscaleAlpha | ColorType::Indexed => {
                return Err(MoshError::UnsupportedColorType);
            },
            _ => {},
        }
        let cc = self.color_type.channel_count();
        let len = self.image.len();
        let ok_geometry = self.width >= 1 && self.height >= 1 && self.line_size >= 1 && len
            / self.line_size == self.height as usize && len % self.line_size == 0;
        proof {
            if self.line_size >= 1 {
                let li = len as int;
                let lsi = self.line_size as int;
                let hi = self.height as int;
                vstd::arithmetic::div_mod::lemma_fundamental_div_mod(li, lsi);
                assert((li / lsi == hi && li % lsi == 0) <==> li == hi * lsi) by (nonlinear_arith)
                    requires
                        lsi >= 1,
                        li >= 0,
                        hi >= 0,
                        li == lsi * (li / lsi) + li % lsi,
                        0 <= li % lsi,
                        li % lsi < lsi,
                ;
            }
            assert(ok_geometry == self.geometry_ok());
        }
        let p = options.pixelation;
        let ok_pixelation = if p > 1 {
            proof {
                assert((self.width as int) * (self.height as int) <= 0xFFFFFFFF * 0xFFFFFFFF)
                    by (nonlinear_arith)
                    requires
                        0 <= self.width as int <= 0xFFFFFFFF,
                        0 <= self.height as int <= 0xFFFFFFFF,
                ;
                let lsi = self.line_size as int;
                let ci = cc as int;
                let wi = self.width as int;
                vstd::arithmetic::div_mod::lemma_fundamental_div_mod(lsi, ci);
                assert((lsi / ci == wi && lsi % ci == 0) <==> lsi == wi * ci) by (nonlinear_arith)
                    requires
                        ci >= 1,
                        lsi >= 0,
                        wi >= 0,
                        lsi == ci * (lsi / ci) + lsi % ci,
                        0 <= lsi % ci,
                        lsi % ci < ci,
                ;
            }
            self.width >= p as u32 && self.height >= p as u32 && self.line_size / cc
                == self.width as usize && self.line_size % cc == 0 && (self.width as u64) * (
            self.height as u64) <= u32::MAX as u64
        } else {
            true
        };
        assert(ok_pixelation == self.pixelation_ok(*options));
        if !(ok_geometry && ok_pixelation) {
            return Err(MoshError::InvalidParameters);
        }
        assert(self.geometry_ok() && self.pixelation_ok(*options));

        let ghost ls = self.line_size as nat;
        let ghost lc = self.image@.len() / ls;
        let ghost ccs = self.color_type.spec_channel_count();
        proof {
            assert(self.height as int * (ls as int) >= ls as int) by (nonlinear_arith)
                requires
                    self.height as int >= 1,
                    ls as int >= 1,
            ;
            assert(lc == self.height as nat) by (nonlinear_arith)
                requires
                    lc == (self.height as int * (ls as int)) / (ls as int),
                    ls as int >= 1,
            ;
        }
        self.buf = copy_range(&self.image, 0, len);
        assert(self.buf@ =~= self.image@);

        let mut rng = crate::rng::rng_from_seed(options.seed);
        let min_rate = options.min_rate;
        let max_rate = if options.max_rate < options.min_rate {
            options.min_rate
        } else {
            options.max_rate
        };
        let n = uniform(&mut rng, min_rate as u64, max_rate as u64);
        let ghost st1 = state_after_rate(*options);
        assert(n == spec_rate(*options) && rng_state(rng) == st1);

        let mut k: u64 = 0;
        while k < n
            invariant
                k <= n,
                ls == old(self).line_size as nat,
                ls >= 1,
                ccs == old(self).color_type.spec_channel_count(),
                lc == old(self).image@.len() / ls,
                self.buf@.len() == old(self).image@.len(),
                self.buf@.len() >= old(self).line_size,
                old(self).image@.len() >= old(self).line_size,
                self.buf@ == rounds_buf(old(self).image@, st1, lc, ls, ccs, *options, k as nat),
                rng_state(rng) == rounds_state(st1, lc, ls, ccs, *options, k as nat),
                self.image == old(self).image,
                self.width == old(self).width,
                self.height == old(self).height,
                self.color_type == old(self).color_type,
                self.bit_depth == old(self).bit_depth,
                self.line_size == old(self).line_size,
            decreases n - k,
        {
            self.chunkmosh(&mut rng, options);
            proof {
                assert(self.buf@ == rounds_buf(
                    old(self).image@,
                    st1,
                    lc,
                    ls,
                    ccs,
                    *options,
                    (k + 1) as nat,
                ));
            }
            k = k + 1;
        }

        if p > 1 {
            proof {
                assert(self.buf@.len() == self.width as nat * self.height as nat * ccs)
                    by (nonlinear_arith)
                    requires
                        self.buf@.len() == self.height as nat * (ls as nat),
                        ls as nat == self.width as nat * ccs,
                ;
            }
            let pixelated_buf = crate::pixel::pixelate(
                &self.buf,
                self.width,
                self.height,
                self.color_type,
                p,
            );
            self.buf = pixelated_buf;
        }
        Ok(())
    }

    /// One chunk-mosh iteration: draws a scanline range and the mutations to
    /// apply, then mutates the working buffer in place, exactly as
    /// [`chunk_apply`] describes over the drawn values.
    fn chunkmosh(&mut self, rng: &mut ChaCha8Rng, options: &MoshOptions)
        requires
            old(self).line_size >= 1,
            old(self).buf@.len() >= old(self).line_size,
        ensures
            ({
                let ls = old(self).line_size as nat;
                let cc = old(self).color_type.spec_channel_count();
                let lc = old(self).buf@.len() / ls;
                let d = chunk_draws(rng_state(*old(rng)), lc, ls, cc, *options);
                &&& final(self).buf@ == chunk_apply(old(self).buf@, ls, cc, d)
                &&& final(self).buf@.len() == old(self).buf@.len()
                &&& rng_state(*final(rng)) == d.end_state
            }),
            final(self).image == old(self).image,
            final(self).width == old(self).width,
            final(self).height == old(self).height,
            final(self).color_type == old(self).color_type,
            final(self).bit_depth == old(self).bit_depth,
            final(self).line_size == old(self).line_size,
    {
        let ghost orig = self.buf@;
        let total = self.buf.len();
        let line_size = self.line_size;
        let line_count = total / line_size;
        let channel_count = self.color_type.channel_count();
        let ghost ls = line_size as nat;
        let ghost cc = self.color_type.spec_channel_count();
        let ghost lc = orig.len() / ls;
        let ghost d = chunk_draws(rng_state(*rng), lc, ls, cc, *options);

        proof {
            vstd::arithmetic::div_mod::lemma_fundamental_div_mod(total as int, line_size as int);
            assert(line_count >= 1 && lc as int * ls as int <= total as int) by (nonlinear_arith)
                requires
                    total as int == ls as int * (line_count as int) + (total as int % (ls as int)),
                    0 <= total as int % (ls as int),
                    total as int % (ls as int) < ls as int,
                    line_count as int == total as int / ls as int,
                    lc == line_count as nat,
                    ls as int == line_size as int,
                    ls >= 1,
                    total >= line_size,
            ;
        }

        let first_line = uniform(rng, 0, (line_count - 1) as u64) as usize;
        let chunk_size = (uniform(rng, 0, (line_count - 1) as u64) / 2) as usize;
        let last_line = if chunk_size >= line_count - first_line {
            line_count
        } else {
            first_line + chunk_size
        };
        assert(first_line as nat == d.first_line && chunk_size as nat == d.chunk_size);
        assert(last_line as nat == chunk_last_line(d, lc));

        let reverse = bernoulli(rng, options.reverse);
        let flip = bernoulli(rng, options.flip);
        assert(reverse == d.reverse && flip == d.flip);

        let line_shift: Option<usize> = if bernoulli(rng, options.line_shift) {
            let amount = uniform(rng, 0, (line_size - 1) as u64) as usize;
            Some(amount)
        } else {
            None
        };
        assert(draw_amount(line_shift) == d.line_shift);

        let channel_shift: Option<(usize, usize)> = if bernoulli(rng, options.channel_shift) {
            let amount = (uniform(rng, 0, (line_size - 1) as u64) as usize) / channel_count;
            let channel = uniform(rng, 0, (channel_count - 1) as u64) as usize;
            Some((amount, channel))
        } else {
            None
        };
        assert(draw_pair(channel_shift) == d.channel_shift);

        let channel_swap: Option<(usize, usize)> = if bernoulli(rng, options.channel_swap) {
            let c1 = uniform(rng, 0, (channel_count - 1) as u64) as usize;
            let c2 = uniform(rng, 0, (channel_count - 1) as u64) as usize;
            Some((c1, c2))
        } else {
            None
        };
        assert(draw_pair(channel_swap) == d.channel_swap);
        assert(rng_state(*rng) == d.end_state);

        let mut line = first_line;
        while line < last_line
            invariant
                first_line <= line <= last_line,
                last_line <= line_count,
                line_count == lc,
                lc as int * ls as int <= total as int,
                line_size == old(self).line_size,
                ls == line_size as nat,
                ls >= 1,
                total == orig.len(),
                orig == old(self).buf@,
                lc == orig.len() / ls,
                channel_count == cc,
                cc == old(self).color_type.spec_channel_count(),
                1 <= channel_count <= 4,
                first_line as nat == d.first_line,
                last_line as nat == chunk_last_line(d, lc),
                draw_amount(line_shift) == d.line_shift,
                draw_pair(channel_shift) == d.channel_shift,
                draw_pair(channel_swap) == d.channel_swap,
                reverse == d.reverse,
                (match line_shift {
                    Some(a) => a < line_size,
                    None => true,
                }),
                (match channel_shift {
                    Some((a, c)) => c < channel_count,
                    None => true,
                }),
                rng_state(*rng) == d.end_state,
                self.buf@.len() == total,
                self.buf@ == moshed_lines(
                    orig,
                    ls,
                    first_line as nat,
                    (line - first_line) as nat,
                    d.channel_shift,
                    d.line_shift,
                    d.reverse,
                    cc,
                ),
                self.image == old(self).image,
                self.width == old(self).width,
                self.height == old(self).height,
                self.color_type == old(self).color_type,
                self.bit_depth == old(self).bit_depth,
                self.line_size == old(self).line_size,
            decreases last_line - line,
        {
            proof {
                assert(line as int * ls as int + ls as int <= lc as int * ls as int)
                    by (nonlinear_arith)
                    requires
                        line as int + 1 <= lc as int,
                        ls >= 1,
                ;
            }
            let start = line * line_size;
            let end = start + line_size;
            let mut lbuf = copy_range(&self.buf, start, end);
            let ghost before = self.buf@;
            let ghost line0 = lbuf@;
            if let Some((amount, channel)) = channel_shift {
                let op = MoshLine::ChannelShift(amount, channel, channel_count);
                op.glitch(&mut lbuf);
            }
            if let Some(amount) = line_shift {
                let op = MoshLine::Shift(amount);
                op.glitch(&mut lbuf);
            }
            if reverse {
                let op = MoshLine::Reverse;
                op.glitch(&mut lbuf);
            }
            assert(lbuf@ == line_transform(line0, d.channel_shift, d.line_shift, d.reverse, cc));
            write_range(&mut self.buf, start, &lbuf);
            proof {
                let k = (line - first_line + 1) as nat;
                assert(self.buf@ == moshed_lines(
                    orig,
                    ls,
                    first_line as nat,
                    k,
                    d.channel_shift,
                    d.line_shift,
                    d.reverse,
                    cc,
                )) by {
                    assert((first_line as nat + k - 1) * ls == start as nat);
                    assert(line0 == before.subrange(start as int, start as int + ls as int));
                }
            }
            line = line + 1;
        }

        proof {
            assert(first_line as int * ls as int <= last_line as int * ls as int
                && last_line as int * ls as int <= lc as int * ls as int) by (nonlinear_arith)
                requires
                    first_line as int <= last_line as int,
                    last_line as int <= lc as int,
                    ls >= 1,
            ;
        }
        let cstart = first_line * line_size;
        let cend = last_line * line_size;
        let mut cbuf = copy_range(&self.buf, cstart, cend);
        let ghost lined = self.buf@;
        let ghost region0 = cbuf@;
        if let Some((c1, c2)) = channel_swap {
            let op = MoshChunk::ChannelSwap(c1, c2, channel_count);
            op.glitch(&mut cbuf);
        }
        if flip {
            let op = MoshChunk::Flip;
            op.glitch(&mut cbuf);
        }
        write_range(&mut self.buf, cstart, &cbuf);
        proof {
            assert(lined == moshed_lines(
                orig,
                ls,
                d.first_line,
                (chunk_last_line(d, lc) - d.first_line) as nat,
                d.channel_shift,
                d.line_shift,
                d.reverse,
                cc,
            ));
            assert(region0 == lined.subrange(
                (d.first_line * ls) as int,
                (chunk_last_line(d, lc) * ls) as int,
            ));
            assert(self.buf@ == chunk_transform(
                lined,
                ls,
                d.first_line,
                chunk_last_line(d, lc),
                d.channel_swap,
                d.flip,
                cc,
            ));
            assert(self.buf@ == chunk_apply(orig, ls, cc, d));
        }
    }
}

/// Everything one chunk-mosh iteration draws from the generator, in the fixed
/// order the engine draws it, together with the generator state it leaves
/// behind. The fixed draw order is what makes output reproducible from a seed.
pub ghost struct ChunkDraws {
    /// First scanline of the chunk.
    pub first_line: nat,
    /// Number of scanlines the chunk would like to cover.
    pub chunk_size: nat,
    /// Whether each line of the chunk is reversed.
    pub reverse: bool,
    /// Whether the whole chunk is reversed at the end.
    pub flip: bool,
    /// Rotation amount of the per-line shift, if drawn.
    pub line_shift: Option<nat>,
    /// Amount and channel of the per-line channel shift, if drawn.
    pub channel_shift: Option<(nat, nat)>,
    /// The two channels of the chunk-wide swap, if drawn.
    pub channel_swap: Option<(nat, nat)>,
    /// Generator state after all draws of this iteration.
    pub end_state: int,
}

/// The draws of one chunk-mosh iteration started in generator state `st`, on
/// an image of `lc` scanlines of `ls` bytes with `cc`-byte pixels. Draw order
/// is fixed: chunk position and size; the reverse and flip coins; then the
/// line-shift, channel-shift and channel-swap coins, each followed by its
/// parameters only when it fired.
pub open spec fn chunk_draws(st: int, lc: nat, ls: nat, cc: nat, o: MoshOptions) -> ChunkDraws {
    let first_line = uniform_value(st, 0, (lc - 1) as u64) as nat;
    let s1 = uniform_next(st, 0, (lc - 1) as u64);
    let chunk_size = (uniform_value(s1, 0, (lc - 1) as u64) / 2) as nat;
    let s2 = uniform_next(s1, 0, (lc - 1) as u64);
    let reverse = bernoulli_value(s2, o.reverse);
    let s3 = bernoulli_next(s2, o.reverse);
    let flip = bernoulli_value(s3, o.flip);
    let s4 = bernoulli_next(s3, o.flip);
    let ls_fired = bernoulli_value(s4, o.line_shift);
    let s5 = bernoulli_next(s4, o.line_shift);
    let line_shift = if ls_fired {
        Some(uniform_value(s5, 0, (ls - 1) as u64) as nat)
    } else {
        None
    };
    let s6 = if ls_fired {
        uniform_next(s5, 0, (ls - 1) as u64)
    } else {
        s5
    };
    let cs_fired = bernoulli_value(s6, o.channel_shift);
    let s7 = bernoulli_next(s6, o.channel_shift);
    let channel_shift = if cs_fired {
        let amount = (uniform_value(s7, 0, (ls - 1) as u64) as nat) / cc;
        let s7a = uniform_next(s7, 0, (ls - 1) as u64);
        let channel = uniform_value(s7a, 0, (cc - 1) as u64) as nat;
        Some((amount, channel))
    } else {
        None
    };
    let s8 = if cs_fired {
        uniform_next(uniform_next(s7, 0, (ls - 1) as u64), 0, (cc - 1) as u64)
    } else {
        s7
    };
    let sw_fired = bernoulli_value(s8, o.channel_swap);
    let s9 = bernoulli_next(s8, o.channel_swap);
    let channel_swap = if sw_fired {
        let c1 = uniform_value(s9, 0, (cc - 1) as u64) as nat;
        let s9a = uniform_next(s9, 0, (cc - 1) as u64);
        let c2 = uniform_value(s9a, 0, (cc - 1) as u64) as nat;
        Some((c1, c2))
    } else {
        None
    };
    let s10 = if sw_fired {
        uniform_next(uniform_next(s9, 0, (cc - 1) as u64), 0, (cc - 1) as u64)
    } else {
        s9
    };
    ChunkDraws {
        first_line,
        chunk_size,
        reverse,
        flip,
        line_shift,
        channel_shift,
        channel_swap,
        end_state: s10,
    }
}

/// `s` with the bytes from `start` on replaced by `mid`.
pub open spec fn splice(s: Seq<u8>, start: nat, mid: Seq<u8>) -> Seq<u8> {
    s.take(start as int) + mid + s.skip(start as int + mid.len() as int)
}

/// One scanline after its per-line mutations, applied in the fixed order
/// channel shift, then line shift, then reverse.
pub open spec fn line_transform(
    line: Seq<u8>,
    channel_shift: Option<(nat, nat)>,
    line_shift: Option<nat>,
    reverse: bool,
    cc: nat,
) -> Seq<u8> {
    let a = match channel_shift {
        Some((amount, channel)) => channel_shift_seq(line, amount, channel, cc),
        None => line,
    };
    let b = match line_shift {
        Some(amount) => rotate_left_seq(a, amount),
        None => a,
    };
    if reverse {
        reverse_seq(b)
    } else {
        b
    }
}

/// The buffer after the per-line mutations of the first `k` lines of the
/// chunk starting at line `from`, applied line by line in increasing order.
pub open spec fn moshed_lines(
    buf: Seq<u8>,
    ls: nat,
    from: nat,
    k: nat,
    channel_shift: Option<(nat, nat)>,
    line_shift: Option<nat>,
    reverse: bool,
    cc: nat,
) -> Seq<u8>
    decreases k,
{
    if k == 0 {
        buf
    } else {
        let prev = moshed_lines(buf, ls, from, (k - 1) as nat, channel_shift, line_shift, reverse, cc);
        let start = (from + k - 1) * ls;
        let line = prev.subrange(start as int, start as int + ls as int);
        splice(prev, start as nat, line_transform(line, channel_shift, line_shift, reverse, cc))
    }
}

/// The buffer after the chunk-wide mutations of `[first*ls, last*ls)`: channel
/// swap first, then flip.
pub open spec fn chunk_transform(
    buf: Seq<u8>,
    ls: nat,
    first: nat,
    last: nat,
    channel_swap: Option<(nat, nat)>,
    flip: bool,
    cc: nat,
) -> Seq<u8> {
    let region = buf.subrange((first * ls) as int, (last * ls) as int);
    let a = match channel_swap {
        Some((c1, c2)) => swap_channels_seq(region, c1, c2, cc),
        None => region,
    };
    let b = if flip {
        reverse_seq(a)
    } else {
        a
    };
    splice(buf, (first * ls) as nat, b)
}

/// Last scanline (exclusive) of the chunk: the drawn extent, clipped to the
/// image.
pub open spec fn chunk_last_line(d: ChunkDraws, lc: nat) -> nat {
    if d.first_line + d.chunk_size >= lc {
        lc
    } else {
        d.first_line + d.chunk_size
    }
}

/// The buffer after one whole chunk-mosh iteration with the given draws.
pub open spec fn chunk_apply(buf: Seq<u8>, ls: nat, cc: nat, d: ChunkDraws) -> Seq<u8> {
    let lc = buf.len() / ls;
    let first = d.first_line;
    let last = chunk_last_line(d, lc);
    let lined = moshed_lines(
        buf,
        ls,
        first,
        (last - first) as nat,
        d.channel_shift,
        d.line_shift,
        d.reverse,
        cc,
    );
    chunk_transform(lined, ls, first, last, d.channel_swap, d.flip, cc)
}

/// Generator state after `n` chunk-mosh iterations from state `st`.
pub open spec fn rounds_state(st: int, lc: nat, ls: nat, cc: nat, o: MoshOptions, n: nat) -> int
    decreases n,
{
    if n == 0 {
        st
    } else {
        chunk_draws(rounds_state(st, lc, ls, cc, o, (n - 1) as nat), lc, ls, cc, o).end_state
    }
}

/// The buffer after `n` chunk-mosh iterations from state `st`.
pub open spec fn rounds_buf(
    buf: Seq<u8>,
    st: int,
    lc: nat,
    ls: nat,
    cc: nat,
    o: MoshOptions,
    n: nat,
) -> Seq<u8>
    decreases n,
{
    if n == 0 {
        buf
    } else {
        chunk_apply(
            rounds_buf(buf, st, lc, ls, cc, o, (n - 1) as nat),
            ls,
            cc,
            chunk_draws(rounds_state(st, lc, ls, cc, o, (n - 1) as nat), lc, ls, cc, o),
        )
    }
}

/// Normalized upper rate: the engine never runs fewer iterations than
/// `min_rate`, so an upper rate below it is raised to it.
pub open spec fn effective_max_rate(o: MoshOptions) -> u16 {
    if o.max_rate < o.min_rate {
        o.min_rate
    } else {
        o.max_rate
    }
}

/// The number of chunk-mosh iterations drawn for these options: the first
/// uniform draw of the freshly seeded generator, over the normalized rate
/// range.
pub open spec fn spec_rate(o: MoshOptions) -> u64 {
    uniform_value(seeded_state(o.seed), o.min_rate as u64, effective_max_rate(o) as u64)
}

/// Generator state after the rate draw.
pub open spec fn state_after_rate(o: MoshOptions) -> int {
    uniform_next(seeded_state(o.seed), o.min_rate as u64, effective_max_rate(o) as u64)
}

/// The working buffer a successful mosh leaves behind: the original bytes
/// after `spec_rate` chunk iterations and, if enabled, the pixelation pass.
pub open spec fn mosh_output(d: MoshData, o: MoshOptions) -> Seq<u8> {
    let ls = d.line_size as nat;
    let cc = d.color_type.spec_channel_count();
    let lc = d.image@.len() / ls;
    let chunked = rounds_buf(
        d.image@,
        state_after_rate(o),
        lc,
        ls,
        cc,
        o,
        spec_rate(o) as nat,
    );
    if o.pixelation > 1 {
        crate::pixel::pixelated(chunked, d.width as nat, d.height as nat, cc, o.pixelation as nat)
    } else {
        chunked
    }
}

/// The options of the `k`-th run of a batch: the same options with the seed
/// stepped forward by `k`.
pub open spec fn batch_options(o: MoshOptions, k: nat) -> MoshOptions {
    MoshOptions { seed: (o.seed + k) as u64, ..o }
}

/// Determinism: the moshed bytes are a function of the original bytes, the
/// shape description and the options (the seed among them) alone. Two images that
/// agree on those produce byte-identical output, on any platform and in any
/// process, whatever their working buffers held before the run.
pub proof fn lemma_mosh_deterministic(a: MoshData, b: MoshData, o: MoshOptions)
    requires
        a.image@ == b.image@,
        a.width == b.width,
        a.height == b.height,
        a.color_type == b.color_type,
        a.line_size == b.line_size,
    ensures
        mosh_output(a, o) == mosh_output(b, o),
{
}

/// Non-cumulativeness: a run never compounds earlier mutations. `mosh` leaves
/// the original bytes and the shape description untouched (its own contract
/// says so), so an engine that has already moshed — whatever its working
/// buffer holds — produces for the next options exactly what a fresh engine
/// over the same original would.
pub proof fn lemma_mosh_not_cumulative(fresh: MoshData, used: MoshData, o: MoshOptions)
    requires
        used.image@ == fresh.image@,
        used.width == fresh.width,
        used.height == fresh.height,
        used.color_type == fresh.color_type,
        used.line_size == fresh.line_size,
    ensures
        mosh_output(used, o) == mosh_output(fresh, o),
{
}

/// Pixelation boundary: a pixelation factor of 0 or 1 leaves the pixel data
/// untouched by the pixelation stage — the output is the chunk-moshed bytes
/// alone.
pub proof fn lemma_pixelation_off(d: MoshData, o: MoshOptions)
    requires
        o.pixelation <= 1,
    ensures
        mosh_output(d, o) == rounds_buf(
            d.image@,
            state_after_rate(o),
            d.image@.len() / d.line_size as nat,
            d.line_size as nat,
            d.color_type.spec_channel_count(),
            o,
            spec_rate(o) as nat,
        ),
{
}

/// View of an optional drawn pair as the model stores it.
pub open spec fn draw_pair(o: Option<(usize, usize)>) -> Option<(nat, nat)> {
    match o {
        Some((a, b)) => Some((a as nat, b as nat)),
        None => None,
    }
}

/// View of an optional drawn amount as the model stores it.
pub open spec fn draw_amount(o: Option<usize>) -> Option<nat> {
    match o {
        Some(a) => Some(a as nat),
        None => None,
    }
}

/// Copies `buf[start..end]` into a fresh vector.
pub(crate) fn copy_range(buf: &Vec<u8>, start: usize, end: usize) -> (r: Vec<u8>)
    requires
        start <= end <= buf@.len(),
    ensures
        r@ == buf@.subrange(start as int, end as int),
{
    let mut r: Vec<u8> = Vec::new();
    let mut i = start;
    while i < end
        invariant
            start <= i <= end <= buf@.len(),
            r@.len() == i - start,
            forall|j: int| 0 <= j < r@.len() ==> r@[j] == buf@[start + j],
        decreases end - i,
    {
        let b = buf[i];
        r.push(b);
        i = i + 1;
    }
    assert(r@ =~= buf@.subrange(start as int, end as int));
    r
}

/// Writes `v` back over `buf[start..start + v.len()]`.
fn write_range(buf: &mut Vec<u8>, start: usize, v: &Vec<u8>)
    requires
        start + v@.len() <= old(buf)@.len(),
    ensures
        final(buf)@ == splice(old(buf)@, start as nat, v@),
        final(buf)@.len() == old(buf)@.len(),
{
    let ghost s = buf@;
    let total = buf.len();
    let n = v.len();
    let mut i: usize = 0;
    while i < n
        invariant
            i <= n,
            n == v@.len(),
            start + n <= s.len(),
            s.len() == total,
            buf@.len() == s.len(),
            forall|j: int| 0 <= j < i ==> buf@[start + j] == v@[j],
            forall|j: int| 0 <= j < s.len() && !(start <= j < start + i) ==> buf@[j] == s[j],
        decreases n - i,
    {
        let b = v[i];
        buf.set(start + i, b);
        i = i + 1;
    }
    assert(buf@ =~= splice(s, start as nat, v@));
}

impl Default for MoshData {
    /// A one-pixel RGBA placeholder image.
    fn default() -> (r: Self)
        ensures
            r.buf@ =~= seq![0u8],
            r.image@ =~= seq![0u8],
            r.width == 1,
            r.height == 1,
            r.color_type is Rgba,
            r.bit_depth is Eight,
            r.line_size == 1,
    {
        MoshData {
            buf: vec![0u8],
            image: vec![0u8],
            width: 1,
            height: 1,
            color_type: ColorType::Rgba,
            bit_depth: BitDepth::Eight,
            line_size: 1,
        }
    }
}

} // verus!
