use kms_present::format::{supports_argb8888, ARGB8888, BITS_PER_PIXEL};
use kms_present::model::{ConnectorInfo, ConnectorState, PlaneInfo};

#[test]
fn argb8888_is_the_fourcc_ar24() {
    assert_eq!(ARGB8888, 875713089);
    assert_eq!(ARGB8888.to_le_bytes(), [b'A', b'R', b'2', b'4']);
    assert_eq!(ARGB8888, drm::buffer::DrmFourcc::Argb8888 as u32);
    assert_eq!(BITS_PER_PIXEL, 32);
}

#[test]
fn format_list_with_argb8888_is_supported() {
    assert!(supports_argb8888(&[ARGB8888]));
    assert!(supports_argb8888(&[0x34325258, 0x36314752, ARGB8888]));
    assert!(supports_argb8888(&[ARGB8888, ARGB8888]));
}

#[test]
fn format_list_without_argb8888_is_rejected() {
    assert!(!supports_argb8888(&[]));
    // XRGB8888, RGB565 and ABGR8888
    assert!(!supports_argb8888(&[0x34325258, 0x36314752, 0x34324241]));
    assert!(!supports_argb8888(&[ARGB8888 + 1, ARGB8888 - 1, 0]));
}

#[test]
fn plane_is_free_for_a_possible_crtc_only() {
    let plane = PlaneInfo { handle: 31, crtc: None, possible_crtcs: vec![40, 41], formats: vec![] };
    assert!(plane.is_free_for(40));
    assert!(plane.is_free_for(41));
    assert!(!plane.is_free_for(42));
    let nowhere = PlaneInfo { handle: 31, crtc: None, possible_crtcs: vec![], formats: vec![] };
    assert!(!nowhere.is_free_for(40));
}

#[test]
fn claimed_plane_is_not_free() {
    let plane = PlaneInfo {
        handle: 31,
        crtc: Some(40),
        possible_crtcs: vec![40, 41],
        formats: vec![ARGB8888],
    };
    assert!(!plane.is_free_for(40));
    assert!(!plane.is_free_for(41));
    assert!(plane.supports_argb8888());
}

#[test]
fn plane_support_follows_its_format_list() {
    let with = PlaneInfo { handle: 1, crtc: None, possible_crtcs: vec![], formats: vec![7, ARGB8888] };
    let without = PlaneInfo { handle: 1, crtc: None, possible_crtcs: vec![], formats: vec![7, 8] };
    assert!(with.supports_argb8888());
    assert!(!without.supports_argb8888());
}

#[test]
fn only_the_connected_state_counts_as_connected() {
    let mut connector =
        ConnectorInfo { handle: 5, state: ConnectorState::Connected, current_encoder: None };
    assert!(connector.is_connected());
    connector.state = ConnectorState::Disconnected;
    assert!(!connector.is_connected());
    connector.state = ConnectorState::Unknown;
    assert!(!connector.is_connected());
}
