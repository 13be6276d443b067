use kms_present::blit::{check_layout, write_pixels};
use kms_present::picture::Picture;

fn solid(width: u32, height: u32, rgba: [u8; 4]) -> Picture {
    let mut samples = Vec::new();
    for _ in 0..(width as usize * height as usize) {
        samples.extend_from_slice(&rgba);
    }
    Picture::from_raw(width, height, samples).expect("the samples cover the picture")
}

fn numbered(width: u32, height: u32) -> Picture {
    let count = width as usize * height as usize * 4;
    let samples: Vec<u8> = (0..count).map(|i| (i % 251) as u8 + 1).collect();
    Picture::from_raw(width, height, samples).expect("the samples cover the picture")
}

#[test]
fn picture_reports_its_dimensions() {
    let picture = solid(3, 2, [1, 2, 3, 4]);
    assert_eq!(picture.dimensions(), (3, 2));
}

#[test]
fn picture_needs_all_its_samples() {
    assert!(Picture::from_raw(2, 2, vec![0; 15]).is_none());
    assert!(Picture::from_raw(2, 2, vec![0; 16]).is_some());
    assert!(Picture::from_raw(u32::MAX, u32::MAX, vec![0; 16]).is_none());
}

#[test]
fn picture_may_have_spare_samples() {
    let picture = Picture::from_raw(1, 1, vec![9, 8, 7, 6, 5, 4]).expect("six samples hold a pixel");
    assert_eq!(picture.dimensions(), (1, 1));
    let mut mapping = vec![0u8; 4];
    write_pixels(&picture, 1, 1, 4, &mut mapping);
    assert_eq!(mapping, vec![7, 8, 9, 6]);
}

#[test]
fn empty_picture_writes_nothing() {
    let picture = Picture::from_raw(0, 0, Vec::new()).expect("no pixel needs no sample");
    let mut mapping = vec![0x55u8; 32];
    write_pixels(&picture, 2, 2, 16, &mut mapping);
    assert_eq!(mapping, vec![0x55u8; 32]);
    let flat = Picture::from_raw(4, 0, Vec::new()).expect("no row needs no sample");
    assert_eq!(flat.dimensions(), (4, 0));
    write_pixels(&flat, 2, 2, 16, &mut mapping);
    assert_eq!(mapping, vec![0x55u8; 32]);
}

#[test]
fn one_pixel_is_stored_blue_green_red_alpha() {
    let picture = Picture::from_raw(1, 1, vec![0x11, 0x22, 0x33, 0x44]).unwrap();
    let mut mapping = vec![0u8; 4];
    write_pixels(&picture, 1, 1, 4, &mut mapping);
    assert_eq!(mapping, vec![0x33, 0x22, 0x11, 0x44]);
}

#[test]
fn opaque_red_fills_every_row() {
    let (width, height, pitch) = (5u32, 4u32, 32usize);
    let picture = solid(width, height, [255, 0, 0, 255]);
    let mut mapping = vec![0xAAu8; pitch * height as usize + 7];
    write_pixels(&picture, width, height, pitch as u32, &mut mapping);
    for y in 0..height as usize {
        assert_eq!(&mapping[y * pitch..y * pitch + 4], &[0, 0, 255, 255]);
        for x in 0..width as usize {
            assert_eq!(&mapping[y * pitch + 4 * x..y * pitch + 4 * x + 4], &[0, 0, 255, 255]);
        }
        for offset in y * pitch + 4 * width as usize..(y + 1) * pitch {
            assert_eq!(mapping[offset], 0xAA);
        }
    }
    for offset in pitch * height as usize..mapping.len() {
        assert_eq!(mapping[offset], 0xAA);
    }
}

#[test]
fn cells_lie_at_four_x_plus_pitch_y() {
    let picture = numbered(3, 3);
    let pitch = 20usize;
    let mut mapping = vec![0u8; pitch * 3];
    write_pixels(&picture, 3, 3, pitch as u32, &mut mapping);
    // pixel (2, 1) is the sixth pixel: its samples are numbered 21 to 24
    let offset = 2 * 4 + 1 * pitch;
    assert_eq!(offset, 28);
    assert_eq!(&mapping[28..32], &[23, 22, 21, 24]);
    // pixel (0, 2) is the seventh pixel: its samples are numbered 25 to 28
    assert_eq!(&mapping[40..44], &[27, 26, 25, 28]);
    // the padding of the first row
    assert_eq!(&mapping[12..20], &[0u8; 8]);
}

#[test]
fn columns_beyond_the_buffer_are_skipped() {
    let picture = numbered(4, 2);
    let pitch = 8usize;
    let mut mapping = vec![0u8; pitch * 2];
    write_pixels(&picture, 2, 2, pitch as u32, &mut mapping);
    // row 0 holds pixels 0 and 1, row 1 holds pixels 4 and 5
    assert_eq!(mapping, vec![3, 2, 1, 4, 7, 6, 5, 8, 19, 18, 17, 20, 23, 22, 21, 24]);
}

#[test]
fn what_clipped_columns_hold_does_not_matter() {
    let mut samples: Vec<u8> = (1..=32).collect();
    let one = Picture::from_raw(4, 2, samples.clone()).unwrap();
    for x in 2..4 {
        for y in 0..2 {
            for k in 0..4 {
                samples[4 * (y * 4 + x) + k] = 0xEE;
            }
        }
    }
    let other = Picture::from_raw(4, 2, samples).unwrap();
    let mut first = vec![0u8; 24];
    let mut second = vec![0u8; 24];
    write_pixels(&one, 2, 2, 12, &mut first);
    write_pixels(&other, 2, 2, 12, &mut second);
    assert_eq!(first, second);
}

#[test]
fn rows_beyond_the_buffer_are_not_written() {
    let picture = numbered(2, 5);
    let pitch = 8usize;
    let mut mapping = vec![0xCCu8; pitch * 5];
    write_pixels(&picture, 2, 2, pitch as u32, &mut mapping);
    assert_eq!(&mapping[..16], &[3, 2, 1, 4, 7, 6, 5, 8, 11, 10, 9, 12, 15, 14, 13, 16]);
    assert_eq!(&mapping[16..], &[0xCCu8; 24]);
}

#[test]
fn smaller_picture_leaves_the_rest_of_the_buffer() {
    let picture = numbered(1, 1);
    let mut mapping = vec![0x77u8; 32];
    write_pixels(&picture, 2, 2, 16, &mut mapping);
    assert_eq!(&mapping[..4], &[3, 2, 1, 4]);
    assert_eq!(&mapping[4..], &[0x77u8; 28]);
}

#[test]
fn buffer_without_cells_takes_nothing() {
    let picture = numbered(2, 2);
    let mut mapping = vec![0x10u8; 16];
    write_pixels(&picture, 0, 2, 8, &mut mapping);
    assert_eq!(mapping, vec![0x10u8; 16]);
    write_pixels(&picture, 2, 0, 8, &mut mapping);
    assert_eq!(mapping, vec![0x10u8; 16]);
    let mut nothing: Vec<u8> = Vec::new();
    write_pixels(&picture, 0, 0, 0, &mut nothing);
    assert!(nothing.is_empty());
}

#[test]
fn layout_needs_wide_rows_and_a_long_mapping() {
    assert!(check_layout(2, 2, 8, 16));
    assert!(check_layout(2, 2, 12, 24));
    assert!(check_layout(2, 2, 12, 100));
    assert!(!check_layout(2, 2, 7, 16));
    assert!(!check_layout(2, 2, 8, 15));
    assert!(check_layout(0, 0, 0, 0));
    assert!(check_layout(0, 5, 0, 0));
    assert!(!check_layout(1, 0, 3, 0));
    assert!(check_layout(u32::MAX, 0, u32::MAX, 0) == false);
    assert!(!check_layout(1, u32::MAX, u32::MAX, 1 << 40));
}
