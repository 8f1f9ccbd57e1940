use pixelmosh::fx::{Mosh, MoshChunk, MoshLine};

#[test]
fn flip_reverses_chunk() {
    let mut chunk = vec![1u8, 2, 3, 4, 5];
    MoshChunk::Flip.glitch(&mut chunk);
    assert_eq!(chunk, vec![5u8, 4, 3, 2, 1]);
}

#[test]
fn reverse_reverses_line() {
    let mut line = vec![1u8, 2, 3];
    MoshLine::Reverse.glitch(&mut line);
    assert_eq!(line, vec![3u8, 2, 1]);
}

#[test]
fn shift_rotates_left() {
    let mut line = vec![1u8, 2, 3, 4, 5];
    MoshLine::Shift(2).glitch(&mut line);
    assert_eq!(line, vec![3u8, 4, 5, 1, 2]);
}

#[test]
fn shift_by_zero_keeps_line() {
    let mut line = vec![9u8, 8, 7];
    MoshLine::Shift(0).glitch(&mut line);
    assert_eq!(line, vec![9u8, 8, 7]);
}

#[test]
fn shift_by_length_keeps_line() {
    let mut line = vec![9u8, 8, 7];
    MoshLine::Shift(3).glitch(&mut line);
    assert_eq!(line, vec![9u8, 8, 7]);
}

#[test]
fn channel_swap_exchanges_channels() {
    let mut chunk = vec![1u8, 2, 3, 4, 5, 6];
    MoshChunk::ChannelSwap(0, 2, 3).glitch(&mut chunk);
    assert_eq!(chunk, vec![3u8, 2, 1, 6, 5, 4]);
}

#[test]
fn channel_swap_ignores_trailing_bytes() {
    let mut chunk = vec![1u8, 2, 3, 4, 5, 6, 7, 8];
    MoshChunk::ChannelSwap(0, 1, 3).glitch(&mut chunk);
    assert_eq!(chunk, vec![2u8, 1, 3, 5, 4, 6, 7, 8]);
}

#[test]
fn channel_swap_same_channel_is_noop() {
    // The `c1 == c2` draw: swapping a channel with itself must leave the
    // bytes untouched.
    let original = vec![10u8, 20, 30, 40, 50, 60];
    let mut chunk = original.clone();
    MoshChunk::ChannelSwap(1, 1, 3).glitch(&mut chunk);
    assert_eq!(chunk, original);
}

#[test]
fn channel_shift_pulls_bytes_in_order() {
    // Assignment semantics, performed pixel by pixel: with channel 0, count 3
    // and amount 1 on six bytes, step 0 sets byte 0 to byte 1, step 1 sets
    // byte 3 to byte 4.
    let mut line = vec![0u8, 1, 2, 3, 4, 5];
    MoshLine::ChannelShift(1, 0, 3).glitch(&mut line);
    assert_eq!(line, vec![1u8, 1, 2, 4, 4, 5]);
}

#[test]
fn channel_shift_wraps_across_line_end() {
    // With channel 1, count 2 and amount 2 on four bytes the source offset of
    // the second pixel wraps past the end of the line: step 0 sets byte 1 to
    // byte (1 + 2*2) % 4 = 1 (no change), step 1 sets byte 3 to byte
    // (3 + 4) % 4 = 3 (no change).
    let mut line = vec![7u8, 6, 5, 4];
    MoshLine::ChannelShift(2, 1, 2).glitch(&mut line);
    assert_eq!(line, vec![7u8, 6, 5, 4]);
}

#[test]
fn channel_shift_reads_updated_bytes() {
    // Later steps read bytes already written by earlier steps: with channel 0,
    // count 1 and amount 1 every byte is set to its right neighbour as it is
    // at that moment, so the second byte's new value comes from the already
    // updated third byte only when the order is sequential. Expected result
    // computed by hand: [1,2,3,1] from [0,1,2,3]... step 0: b0 = b1 = 1;
    // step 1: b1 = b2 = 2; step 2: b2 = b3 = 3; step 3: b3 = b0 (wrapped) = 1.
    let mut line = vec![0u8, 1, 2, 3];
    MoshLine::ChannelShift(1, 0, 1).glitch(&mut line);
    assert_eq!(line, vec![1u8, 2, 3, 1]);
}
