use pixelmosh::cli::{filename, start};
use pixelmosh::err::MoshError;
use pixelmosh::{BitDepth, ColorType, MoshData, MoshOptions};

fn quiet_options(seed: u64) -> MoshOptions {
    MoshOptions {
        min_rate: 1,
        max_rate: 3,
        pixelation: 1,
        line_shift: 500_000,
        reverse: 500_000,
        flip: 500_000,
        channel_swap: 500_000,
        channel_shift: 500_000,
        seed,
    }
}

fn rgb_3x3() -> MoshData {
    let image: Vec<u8> = (0u8..27).collect();
    MoshData::new(image, 3, 3, ColorType::Rgb, BitDepth::Eight, 9)
}

#[test]
fn filename_single() {
    assert_eq!(filename("moshed", 1, 1), "moshed.png");
}

#[test]
fn filename_batch_padded() {
    assert_eq!(filename("moshed-test", 2, 3), "moshed-test-002.png");
    assert_eq!(filename("out", 10, 200), "out-010.png");
    assert_eq!(filename("out", 255, 255), "out-255.png");
}

#[test]
fn batch() {
    let mut core = rgb_3x3();
    let mut options = quiet_options(1_309_999);
    let items = start(&mut core, &mut options, "moshed-test", 3).unwrap();
    assert_eq!(items.len(), 3);
    assert_eq!(items[0].0, "moshed-test-001.png");
    assert_eq!(items[1].0, "moshed-test-002.png");
    assert_eq!(items[2].0, "moshed-test-003.png");
    assert_eq!(options.seed, 1_310_002);

    // Each batch entry equals one plain run with the stepped seed.
    for (offset, item) in items.iter().enumerate() {
        let mut fresh = rgb_3x3();
        fresh.mosh(&quiet_options(1_309_999 + offset as u64)).unwrap();
        assert_eq!(item.1, fresh.buf);
    }
}

#[test]
fn single() {
    let mut core = rgb_3x3();
    let mut options = quiet_options(77);
    let items = start(&mut core, &mut options, "test", 1).unwrap();
    assert_eq!(items.len(), 1);
    assert_eq!(items[0].0, "test.png");

    let mut fresh = rgb_3x3();
    fresh.mosh(&quiet_options(77)).unwrap();
    assert_eq!(items[0].1, fresh.buf);
}

#[test]
fn batch_rejects_unsupported_image() {
    let mut core = rgb_3x3();
    core.color_type = ColorType::Indexed;
    let mut options = quiet_options(5);
    assert!(matches!(
        start(&mut core, &mut options, "out", 2),
        Err(MoshError::UnsupportedColorType)
    ));
}

#[test]
fn empty_batch() {
    let mut core = rgb_3x3();
    let mut options = quiet_options(5);
    let items = start(&mut core, &mut options, "out", 0).unwrap();
    assert!(items.is_empty());
}
