//! The computing core of the command line front end: output naming and the
//! batch loop. Reading the input file, parsing arguments and writing the
//! outputs stay with the caller; this module turns one decoded image and a
//! batch size into the named, moshed buffers, stepping the seed between runs.

use vstd::prelude::*;

use vstd::string::StringExecFns;

use crate::err::MoshError;
use crate::{batch_options, copy_range, mosh_output, MoshData, MoshOptions};

verus! {

/// The decimal digit character for `d`.
pub open spec fn spec_digit(d: nat) -> char {
    if d == 0 {
        '0'
    } else if d == 1 {
        '1'
    } else if d == 2 {
        '2'
    } else if d == 3 {
        '3'
    } else if d == 4 {
        '4'
    } else if d == 5 {
        '5'
    } else if d == 6 {
        '6'
    } else if d == 7 {
        '7'
    } else if d == 8 {
        '8'
    } else {
        '9'
    }
}

/// The name of one output file: `<output>-<index padded to 3 digits>.png` in
/// batch mode, plain `<output>.png` otherwise.
pub open spec fn spec_filename(output: Seq<char>, index: u8, batch: u8) -> Seq<char> {
    if batch > 1 {
        output + "-"@ + seq![
            spec_digit(index as nat / 100),
            spec_digit((index as nat / 10) % 10),
            spec_digit(index as nat % 10),
        ] + ".png"@
    } else {
        output + ".png"@
    }
}

/// One decimal digit as a string slice.
fn digit_str(d: u8) -> (r: &'static str)
    requires
        d < 10,
    ensures
        r@ == seq![spec_digit(d as nat)],
{
    match d {
        0 => {
            proof {
                reveal_strlit("0");
            }
            "0"
        },
        1 => {
            proof {
                reveal_strlit("1");
            }
            "1"
        },
        2 => {
            proof {
                reveal_strlit("2");
            }
            "2"
        },
        3 => {
            proof {
                reveal_strlit("3");
            }
            "3"
        },
        4 => {
            proof {
                reveal_strlit("4");
            }
            "4"
        },
        5 => {
            proof {
                reveal_strlit("5");
            }
            "5"
        },
        6 => {
            proof {
                reveal_strlit("6");
            }
            "6"
        },
        7 => {
            proof {
                reveal_strlit("7");
            }
            "7"
        },
        8 => {
            proof {
                reveal_strlit("8");
            }
            "8"
        },
        _ => {
            proof {
                reveal_strlit("9");
            }
            "9"
        },
    }
}

/// Builds the file name of the output with the given one-based index.
pub fn filename(output: &str, index: u8, batch: u8) -> (r: String)
    ensures
        r@ == spec_filename(output@, index, batch),
{
    let mut s = String::from_str(output);
    if batch > 1 {
        s.append("-");
        s.append(digit_str(index / 100));
        s.append(digit_str((index / 10) % 10));
        s.append(digit_str(index % 10));
    }
    s.append(".png");
    proof {
        assert(s@ =~= spec_filename(output@, index, batch));
    }
    s
}

/// Runs the batch: moshes the image once per output, stepping the seed by one
/// between runs, and returns each output's file name with its bytes. Fails
/// fast with the engine's error when the image or the options are rejected.
pub fn start(core: &mut MoshData, options: &mut MoshOptions, output: &str, batch: u8) -> (r:
    Result<Vec<(String, Vec<u8>)>, MoshError>)
    requires
        old(options).seed as int + batch as int <= u64::MAX as int,
    ensures
        final(core).image == old(core).image,
        final(core).width == old(core).width,
        final(core).height == old(core).height,
        final(core).color_type == old(core).color_type,
        final(core).bit_depth == old(core).bit_depth,
        final(core).line_size == old(core).line_size,
        final(options).min_rate == old(options).min_rate,
        final(options).max_rate == old(options).max_rate,
        final(options).pixelation == old(options).pixelation,
        final(options).line_shift == old(options).line_shift,
        final(options).reverse == old(options).reverse,
        final(options).flip == old(options).flip,
        final(options).channel_swap == old(options).channel_swap,
        final(options).channel_shift == old(options).channel_shift,
        batch == 0 || old(core).accepts(*old(options)) ==> r is Ok,
        match r {
            Ok(items) => {
                &&& items@.len() == batch as nat
                &&& forall|i: int|
                    0 <= i < batch as int ==> (#[trigger] items@[i]).0@ == spec_filename(
                        output@,
                        (i + 1) as u8,
                        batch,
                    )
                &&& forall|i: int|
                    0 <= i < batch as int ==> (#[trigger] items@[i]).1@ == mosh_output(
                        *old(core),
                        batch_options(*old(options), i as nat),
                    )
                &&& final(options).seed == old(options).seed + batch
            },
            Err(e) => {
                &&& batch >= 1
                &&& !old(core).accepts(*old(options))
                &&& (!old(core).color_type.supported() ==> e == MoshError::UnsupportedColorType)
                &&& (old(core).color_type.supported() ==> e == MoshError::InvalidParameters)
            },
        },
{
    let mut items: Vec<(String, Vec<u8>)> = Vec::new();
    let mut index: u8 = 0;
    while index < batch
        invariant
            index <= batch,
            old(options).seed as int + batch as int <= u64::MAX as int,
            options.seed == old(options).seed + index,
            options.min_rate == old(options).min_rate,
            options.max_rate == old(options).max_rate,
            options.pixelation == old(options).pixelation,
            options.line_shift == old(options).line_shift,
            options.reverse == old(options).reverse,
            options.flip == old(options).flip,
            options.channel_swap == old(options).channel_swap,
            options.channel_shift == old(options).channel_shift,
            core.image == old(core).image,
            core.width == old(core).width,
            core.height == old(core).height,
            core.color_type == old(core).color_type,
            core.bit_depth == old(core).bit_depth,
            core.line_size == old(core).line_size,
            items@.len() == index as nat,
            forall|i: int|
                0 <= i < index as int ==> (#[trigger] items@[i]).0@ == spec_filename(
                    output@,
                    (i + 1) as u8,
                    batch,
                ),
            forall|i: int|
                0 <= i < index as int ==> (#[trigger] items@[i]).1@ == mosh_output(
                    *old(core),
                    batch_options(*old(options), i as nat),
                ),
            index > 0 ==> old(core).accepts(*old(options)),
        decreases batch - index,
    {
        let ghost core_before = *core;
        let ghost options_now = *options;
        let outcome = core.mosh(options);
        proof {
            assert(core_before.accepts(options_now) == old(core).accepts(*old(options)));
        }
        match outcome {
            Ok(()) => {},
            Err(e) => {
                return Err(e);
            },
        }
        proof {
            assert(options_now == batch_options(*old(options), index as nat));
            crate::lemma_mosh_deterministic(core_before, *old(core), options_now);
        }
        let name = filename(output, index + 1, batch);
        let buf_len = core.buf.len();
        let data = copy_range(&core.buf, 0, buf_len);
        proof {
            assert(data@ =~= core.buf@);
        }
        items.push((name, data));
        options.seed = options.seed + 1;
        index = index + 1;
    }
    Ok(items)
}

} // verus!
