use kms_present::locator::{device_path, FIRST_CARD, LAST_CARD};
use kms_present::present::{plane_commit, to_fixed_16_16, PlaneCommit, ScreenRect, SourceRect};

#[test]
fn scan_covers_cards_0_to_255() {
    assert_eq!(FIRST_CARD, 0);
    assert_eq!(LAST_CARD, 255);
}

#[test]
fn device_path_appends_the_number() {
    assert_eq!(device_path(0), "/dev/dri/card0");
    assert_eq!(device_path(7), "/dev/dri/card7");
    assert_eq!(device_path(10), "/dev/dri/card10");
    assert_eq!(device_path(99), "/dev/dri/card99");
    assert_eq!(device_path(100), "/dev/dri/card100");
    assert_eq!(device_path(255), "/dev/dri/card255");
    assert_eq!(device_path(u32::MAX), "/dev/dri/card4294967295");
}

#[test]
fn device_path_agrees_with_formatting() {
    for index in 0..=300u32 {
        assert_eq!(device_path(index), format!("/dev/dri/card{index}"));
    }
}

#[test]
fn fixed_point_shifts_by_sixteen_bits() {
    assert_eq!(to_fixed_16_16(0), 0);
    assert_eq!(to_fixed_16_16(1), 65536);
    assert_eq!(to_fixed_16_16(1920), 125829120);
    assert_eq!(to_fixed_16_16(1080), 70778880);
    assert_eq!(to_fixed_16_16(65535), 0xFFFF_0000);
}

#[test]
fn fixed_point_drops_what_does_not_fit() {
    assert_eq!(to_fixed_16_16(65536), 0);
    assert_eq!(to_fixed_16_16(65537), 65536);
    assert_eq!(to_fixed_16_16(u32::MAX), 0xFFFF_0000);
}

#[test]
fn fixed_point_has_no_fraction() {
    for pixels in [0u32, 1, 2, 640, 4096, 65535, 65536, 1 << 20, u32::MAX] {
        assert_eq!(to_fixed_16_16(pixels) & 0xFFFF, 0);
    }
}

#[test]
fn commit_covers_the_whole_buffer_at_the_origin() {
    let commit = plane_commit(31, 41, 77, 1920, 1080);
    assert_eq!(
        commit,
        PlaneCommit {
            plane: 31,
            crtc: 41,
            framebuffer: 77,
            flags: 0,
            dest: ScreenRect { x: 0, y: 0, width: 1920, height: 1080 },
            source: SourceRect { x: 0, y: 0, width: 1920 << 16, height: 1080 << 16 },
        }
    );
}

#[test]
fn commit_of_an_empty_buffer_is_empty() {
    let commit = plane_commit(1, 2, 3, 0, 0);
    assert_eq!(commit.dest, ScreenRect { x: 0, y: 0, width: 0, height: 0 });
    assert_eq!(commit.source, SourceRect { x: 0, y: 0, width: 0, height: 0 });
    assert_eq!(commit.flags, 0);
}
