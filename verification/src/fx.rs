//! Effects: the stateless byte-transform primitives of the mosh engine.
//!
//! Chunk-level mutations operate on a multi-line byte range; line-level
//! mutations operate on a single scanline. Every primitive is pure given its
//! parameters: the exact output bytes are stated by the spec functions below.

use vstd::prelude::*;

verus! {

/// The bytes of `s` reversed.
pub open spec fn reverse_seq(s: Seq<u8>) -> Seq<u8> {
    Seq::new(s.len(), |j: int| s[s.len() - 1 - j])
}

/// The bytes of `s` rotated left by `amt` positions (circular).
pub open spec fn rotate_left_seq(s: Seq<u8>, amt: nat) -> Seq<u8> {
    Seq::new(s.len(), |j: int| s[(j + amt) % (s.len() as int)])
}

/// `s` with the first `k` pixels' channels `c1` and `c2` exchanged, where a
/// pixel is `cc` consecutive bytes. Trailing bytes that do not form a whole
/// pixel are untouched.
pub open spec fn swap_channels_upto(s: Seq<u8>, c1: nat, c2: nat, cc: nat, k: nat) -> Seq<u8> {
    Seq::new(
        s.len(),
        |j: int|
            if j / (cc as int) < k && (j % (cc as int) == c1 || j % (cc as int) == c2) {
                if j % (cc as int) == c1 {
                    s[(j / (cc as int)) * (cc as int) + c2]
                } else {
                    s[(j / (cc as int)) * (cc as int) + c1]
                }
            } else {
                s[j]
            },
    )
}

/// Channel swap over every whole pixel of `s`.
pub open spec fn swap_channels_seq(s: Seq<u8>, c1: nat, c2: nat, cc: nat) -> Seq<u8> {
    swap_channels_upto(s, c1, c2, cc, s.len() / cc)
}

/// Destination byte offset of channel-shift step `i`.
pub open spec fn channel_shift_dst(len: nat, i: nat, ch: nat, cc: nat) -> int {
    ((i * cc + ch) as int) % (len as int)
}

/// Source byte offset of channel-shift step `i`.
pub open spec fn channel_shift_src(len: nat, i: nat, amt: nat, ch: nat, cc: nat) -> int {
    ((i * cc + ch + (ch + 1) * amt) as int) % (len as int)
}

/// The first `k` steps of the channel shift, applied in order: step `i` sets
/// the byte at `(i*cc + ch) % len` to the byte currently at
/// `(i*cc + ch + (ch+1)*amt) % len`. The modulo wraps across channel
/// boundaries by design, producing channel bleed.
pub open spec fn channel_shift_upto(s: Seq<u8>, amt: nat, ch: nat, cc: nat, k: nat) -> Seq<u8>
    decreases k,
{
    if k == 0 {
        s
    } else {
        let p = channel_shift_upto(s, amt, ch, cc, (k - 1) as nat);
        if s.len() == 0 {
            p
        } else {
            p.update(
                channel_shift_dst(s.len(), (k - 1) as nat, ch, cc),
                p[channel_shift_src(s.len(), (k - 1) as nat, amt, ch, cc)],
            )
        }
    }
}

/// Channel shift over every whole pixel of `s`.
pub open spec fn channel_shift_seq(s: Seq<u8>, amt: nat, ch: nat, cc: nat) -> Seq<u8> {
    channel_shift_upto(s, amt, ch, cc, s.len() / cc)
}

/// A byte mutation with an exactly specified effect.
pub trait Mosh {
    /// The inputs on which the mutation is defined.
    spec fn wf(&self, len: nat) -> bool;

    /// The bytes after the mutation.
    spec fn spec_glitch(&self, s: Seq<u8>) -> Seq<u8>;

    /// Mutates the provided bytes in place.
    fn glitch(&self, value: &mut Vec<u8>)
        requires
            self.wf(old(value)@.len()),
        ensures
            final(value)@ == self.spec_glitch(old(value)@),
            final(value)@.len() == old(value)@.len(),
    ;
}

/// Chunk mutations: they act on a whole multi-line byte range.
pub enum MoshChunk {
    /// `ChannelSwap(c1, c2, channel_count)`: for every pixel, exchange the
    /// bytes of channels `c1` and `c2`.
    ChannelSwap(usize, usize, usize),
    /// Reverse the full byte order of the chunk (not pixel-aware).
    Flip,
}

/// Line mutations: they act on a single scanline within a chunk.
pub enum MoshLine {
    /// `ChannelShift(amount, channel, channel_count)`: per pixel, pull a byte
    /// from `(channel+1) * amount` positions further along the line, with
    /// wraparound.
    ChannelShift(usize, usize, usize),
    /// Left-rotate the line's bytes (circular, byte-level).
    Shift(usize),
    /// Reverse the full byte order of the line.
    Reverse,
}

impl Mosh for MoshChunk {
    open spec fn wf(&self, len: nat) -> bool {
        match self {
            MoshChunk::ChannelSwap(c1, c2, cc) => *cc >= 1 && *c1 < *cc && *c2 < *cc,
            MoshChunk::Flip => true,
        }
    }

    open spec fn spec_glitch(&self, s: Seq<u8>) -> Seq<u8> {
        match self {
            MoshChunk::ChannelSwap(c1, c2, cc) => swap_channels_seq(
                s,
                *c1 as nat,
                *c2 as nat,
                *cc as nat,
            ),
            MoshChunk::Flip => reverse_seq(s),
        }
    }

    fn glitch(&self, value: &mut Vec<u8>) {
        match self {
            MoshChunk::ChannelSwap(c1, c2, cc) => swap_channels_vec(value, *c1, *c2, *cc),
            MoshChunk::Flip => reverse_vec(value),
        }
    }
}

impl Mosh for MoshLine {
    open spec fn wf(&self, len: nat) -> bool {
        match self {
            MoshLine::ChannelShift(amt, ch, cc) => *cc >= 1 && *ch < *cc,
            MoshLine::Shift(amt) => *amt <= len,
            MoshLine::Reverse => true,
        }
    }

    open spec fn spec_glitch(&self, s: Seq<u8>) -> Seq<u8> {
        match self {
            MoshLine::ChannelShift(amt, ch, cc) => channel_shift_seq(
                s,
                *amt as nat,
                *ch as nat,
                *cc as nat,
            ),
            MoshLine::Shift(amt) => rotate_left_seq(s, *amt as nat),
            MoshLine::Reverse => reverse_seq(s),
        }
    }

    fn glitch(&self, value: &mut Vec<u8>) {
        match self {
            MoshLine::ChannelShift(amt, ch, cc) => channel_shift_vec(value, *amt, *ch, *cc),
            MoshLine::Shift(amt) => rotate_left_vec(value, *amt),
            MoshLine::Reverse => reverse_vec(value),
        }
    }
}

/// Reverses the byte order of `v` in place.
fn reverse_vec(v: &mut Vec<u8>)
    ensures
        final(v)@ == reverse_seq(old(v)@),
        final(v)@.len() == old(v)@.len(),
{
    let ghost s = v@;
    let len = v.len();
    let mut i: usize = 0;
    while i < len / 2
        invariant
            len == s.len(),
            v@.len() == s.len(),
            i <= len / 2,
            forall|j: int|
                0 <= j < len && (j < i || j >= len - i) ==> v@[j] == s[len - 1 - j],
            forall|j: int| i <= j < len - i ==> v@[j] == s[j],
        decreases len / 2 - i,
    {
        let a = v[i];
        let b = v[len - 1 - i];
        v.set(i, b);
        v.set(len - 1 - i, a);
        i = i + 1;
    }
    assert(v@ =~= reverse_seq(s));
}

/// Rotates the bytes of `v` left by `amount` positions, in place.
fn rotate_left_vec(v: &mut Vec<u8>, amount: usize)
    requires
        amount <= old(v)@.len(),
    ensures
        final(v)@ == rotate_left_seq(old(v)@, amount as nat),
        final(v)@.len() == old(v)@.len(),
{
    let ghost s = v@;
    let len = v.len();
    if len == 0 {
        assert(v@ =~= rotate_left_seq(s, amount as nat));
        return ;
    }
    let k: usize = if amount == len {
        0
    } else {
        amount
    };
    let mut out: Vec<u8> = Vec::new();
    let mut i: usize = 0;
    while i < len
        invariant
            len == s.len(),
            v@ == s,
            k < len,
            i <= len,
            out@.len() == i,
            forall|j: int| 0 <= j < i ==> out@[j] == s[(j + k) % (len as int)],
        decreases len - i,
    {
        let idx = if i < len - k {
            i + k
        } else {
            i - (len - k)
        };
        assert(idx == (i + k) % (len as int)) by {
            if i < len - k {
                assert((i + k) % (len as int) == i + k) by {
                    vstd::arithmetic::div_mod::lemma_small_mod((i + k) as nat, len as nat);
                }
            } else {
                assert((i + k) - len < len);
                assert((i + k) % (len as int) == (i + k) - len) by {
                    vstd::arithmetic::div_mod::lemma_mod_sub_multiples_vanish(
                        (i + k) as int,
                        len as int,
                    );
                    vstd::arithmetic::div_mod::lemma_small_mod(
                        ((i + k) - len) as nat,
                        len as nat,
                    );
                }
            }
        }
        let b = v[idx];
        out.push(b);
        i = i + 1;
    }
    *v = out;
    assert forall|j: int| 0 <= j < len implies v@[j] == s[(j + amount) % (len as int)] by {
        if amount == len {
            vstd::arithmetic::div_mod::lemma_mod_add_multiples_vanish(j, len as int);
            vstd::arithmetic::div_mod::lemma_small_mod(j as nat, len as nat);
        }
    }
    assert(v@ =~= rotate_left_seq(s, amount as nat));
}

/// Exchanges channels `c1` and `c2` of every whole pixel of `v`, in place.
fn swap_channels_vec(v: &mut Vec<u8>, c1: usize, c2: usize, cc: usize)
    requires
        cc >= 1,
        c1 < cc,
        c2 < cc,
    ensures
        final(v)@ == swap_channels_seq(old(v)@, c1 as nat, c2 as nat, cc as nat),
        final(v)@.len() == old(v)@.len(),
{
    let ghost s = v@;
    let len = v.len();
    let pixels = len / cc;
    let mut i: usize = 0;
    while i < pixels
        invariant
            len == s.len(),
            v@.len() == s.len(),
            cc >= 1,
            c1 < cc,
            c2 < cc,
            pixels == len as int / cc as int,
            i <= pixels,
            v@ == swap_channels_upto(s, c1 as nat, c2 as nat, cc as nat, i as nat),
        decreases pixels - i,
    {
        assert(i * cc + cc <= len) by (nonlinear_arith)
            requires
                i < pixels,
                pixels == len as int / cc as int,
                cc >= 1,
        ;
        let i1 = i * cc + c1;
        let i2 = i * cc + c2;
        let a = v[i1];
        let b = v[i2];
        v.set(i1, b);
        v.set(i2, a);
        proof {
            let ci = cc as int;
            let ii = i as int;
            let d1 = c1 as int;
            let d2 = c2 as int;
            let prev = swap_channels_upto(s, c1 as nat, c2 as nat, cc as nat, i as nat);
            assert((ii * ci + d1) / ci == ii && (ii * ci + d1) % ci == d1) by (nonlinear_arith)
                requires
                    ci >= 1,
                    0 <= ii,
                    0 <= d1 < ci,
            ;
            assert((ii * ci + d2) / ci == ii && (ii * ci + d2) % ci == d2) by (nonlinear_arith)
                requires
                    ci >= 1,
                    0 <= ii,
                    0 <= d2 < ci,
            ;
            assert forall|j: int| 0 <= j < len implies v@[j] == swap_channels_upto(
                s,
                c1 as nat,
                c2 as nat,
                cc as nat,
                (i + 1) as nat,
            )[j] by {
                vstd::arithmetic::div_mod::lemma_fundamental_div_mod(j, ci);
                assert(j == ci * (j / ci) + j % ci);
                let t = swap_channels_upto(s, c1 as nat, c2 as nat, cc as nat, (i + 1) as nat);
                if j == i2 {
                    assert(v@[j] == prev[ii * ci + d1]);
                    assert(prev[ii * ci + d1] == s[ii * ci + d1]);
                    assert(t[j] == s[ii * ci + d1]);
                } else if j == i1 {
                    assert(v@[j] == prev[ii * ci + d2]);
                    assert(prev[ii * ci + d2] == s[ii * ci + d2]);
                    assert(t[j] == s[ii * ci + d2]);
                } else {
                    assert(v@[j] == prev[j]);
                    if j / ci == ii && (j % ci == d1 || j % ci == d2) {
                        assert(j == ii * ci + (j % ci)) by (nonlinear_arith)
                            requires
                                j == ci * (j / ci) + j % ci,
                                j / ci == ii,
                        ;
                        assert(false);
                    }
                    assert(t[j] == prev[j]);
                }
            }
            assert(v@ =~= swap_channels_upto(s, c1 as nat, c2 as nat, cc as nat, (i + 1) as nat));
        }
        i = i + 1;
    }
    assert(v@ =~= swap_channels_seq(s, c1 as nat, c2 as nat, cc as nat));
}

/// One channel-shift assignment per whole pixel of `v`, performed in order.
fn channel_shift_vec(v: &mut Vec<u8>, amt: usize, ch: usize, cc: usize)
    requires
        cc >= 1,
        ch < cc,
    ensures
        final(v)@ == channel_shift_seq(old(v)@, amt as nat, ch as nat, cc as nat),
        final(v)@.len() == old(v)@.len(),
{
    let ghost s = v@;
    let len = v.len();
    let pixels = len / cc;
    let mut i: usize = 0;
    while i < pixels
        invariant
            len == s.len(),
            v@.len() == s.len(),
            cc >= 1,
            ch < cc,
            pixels == len as int / cc as int,
            i <= pixels,
            v@ == channel_shift_upto(s, amt as nat, ch as nat, cc as nat, i as nat),
        decreases pixels - i,
    {
        proof {
            let li = len as int;
            let ii = i as int;
            let ci = cc as int;
            vstd::arithmetic::div_mod::lemma_fundamental_div_mod(li, ci);
            assert(ii * ci + ci <= li) by (nonlinear_arith)
                requires
                    ii < li / ci,
                    ci >= 1,
                    li == ci * (li / ci) + li % ci,
                    li % ci >= 0,
            ;
            assert((ch as int + 1) * (amt as int) <= 0x10000000000000000 * 0xFFFFFFFFFFFFFFFF)
                by (nonlinear_arith)
                requires
                    0 <= ch as int <= 0xFFFFFFFFFFFFFFFF,
                    0 <= amt as int <= 0xFFFFFFFFFFFFFFFF,
            ;
        }
        let l128 = len as u128;
        let dst128 = ((i as u128) * (cc as u128) + (ch as u128)) % l128;
        let src128 = ((i as u128) * (cc as u128) + (ch as u128) + ((ch as u128) + 1) * (amt
            as u128)) % l128;
        let dst = dst128 as usize;
        let src = src128 as usize;
        assert(dst == channel_shift_dst(len as nat, i as nat, ch as nat, cc as nat));
        assert(src == channel_shift_src(len as nat, i as nat, amt as nat, ch as nat, cc as nat));
        let b = v[src];
        v.set(dst, b);
        proof {
            assert(v@ =~= channel_shift_upto(s, amt as nat, ch as nat, cc as nat, (i + 1) as nat));
        }
        i = i + 1;
    }
}

/// A channel swap between a channel and itself leaves the bytes unchanged.
pub proof fn lemma_swap_same_channel(s: Seq<u8>, c: nat, cc: nat)
    requires
        cc >= 1,
    ensures
        swap_channels_seq(s, c, c, cc) == s,
{
    assert forall|j: int| 0 <= j < s.len() implies swap_channels_seq(s, c, c, cc)[j] == s[j] by {
        vstd::arithmetic::div_mod::lemma_fundamental_div_mod(j, cc as int);
        assert(j == (cc as int) * (j / (cc as int)) + j % (cc as int));
        assert((j / (cc as int)) * (cc as int) == (cc as int) * (j / (cc as int)))
            by (nonlinear_arith);
    }
    assert(swap_channels_seq(s, c, c, cc) =~= s);
}

} // verus!
