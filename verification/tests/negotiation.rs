use std::cell::RefCell;

use wayvek::{negotiate, WayvekError, DRM_FORMAT_MODIFIER_INVALID};

const XRGB: u32 = 0x3432_5258;
const ARGB: u32 = 0x3432_5241;

#[test]
fn the_first_shared_tiled_pair_wins() {
    let advertised = vec![(XRGB, vec![0, 7, 9]), (ARGB, vec![5, 9])];
    let chosen = negotiate(&advertised, |fourcc| {
        if fourcc == XRGB {
            vec![9, 0]
        } else {
            vec![5]
        }
    });
    assert_eq!(chosen, Ok((XRGB, 9)));
}

#[test]
fn the_order_is_the_compositors() {
    let advertised = vec![(XRGB, vec![4, 3])];
    assert_eq!(negotiate(&advertised, |_| vec![3, 4]), Ok((XRGB, 4)));
}

#[test]
fn a_tiled_pair_further_down_beats_a_linear_one() {
    let advertised = vec![(XRGB, vec![0]), (ARGB, vec![0, 3])];
    assert_eq!(negotiate(&advertised, |_| vec![0, 3]), Ok((ARGB, 3)));
}

#[test]
fn the_invalid_modifier_is_not_tiled() {
    assert_eq!(DRM_FORMAT_MODIFIER_INVALID, (1u64 << 56) - 1);
    let advertised = vec![(XRGB, vec![DRM_FORMAT_MODIFIER_INVALID]), (ARGB, vec![3])];
    let device = |_| vec![DRM_FORMAT_MODIFIER_INVALID, 3];
    assert_eq!(negotiate(&advertised, device), Ok((ARGB, 3)));
}

#[test]
fn linear_or_invalid_is_the_fallback() {
    let linear = vec![(XRGB, vec![0, 7])];
    assert_eq!(negotiate(&linear, |_| vec![0]), Ok((XRGB, 0)));
    let invalid = vec![(XRGB, vec![7]), (ARGB, vec![DRM_FORMAT_MODIFIER_INVALID, 0])];
    assert_eq!(
        negotiate(&invalid, |_| vec![0, DRM_FORMAT_MODIFIER_INVALID]),
        Ok((ARGB, DRM_FORMAT_MODIFIER_INVALID))
    );
}

#[test]
fn nothing_shared_is_an_error() {
    let advertised = vec![(XRGB, vec![0, 7])];
    assert_eq!(
        negotiate(&advertised, |_| vec![8]),
        Err(WayvekError::NoNegotiatedFormat)
    );
    assert_eq!(
        negotiate(&advertised, |_| Vec::new()),
        Err(WayvekError::NoNegotiatedFormat)
    );
    assert_eq!(
        negotiate(&[], |_| vec![8]),
        Err(WayvekError::NoNegotiatedFormat)
    );
}

#[test]
fn a_pass_asks_about_each_format_until_it_settles() {
    let asked = RefCell::new(Vec::new());
    let advertised = vec![(XRGB, vec![0]), (ARGB, vec![0])];
    let chosen = negotiate(&advertised, |fourcc| {
        asked.borrow_mut().push(fourcc);
        vec![0]
    });
    assert_eq!(chosen, Ok((XRGB, 0)));
    assert_eq!(*asked.borrow(), vec![XRGB, ARGB, XRGB]);
}
