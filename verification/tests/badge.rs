//! Where the Windows mode badge goes.

use lib::badge::{anchor, badge_label, badge_layout};
use lib::layout::ScreenRect;

fn work() -> ScreenRect {
    ScreenRect { left: 0, top: 0, right: 1920, bottom: 1040 }
}

#[test]
fn below_the_caret_at_normal_dpi() {
    let caret = ScreenRect { left: 300, top: 400, right: 302, bottom: 420 };
    assert_eq!(anchor(96, Some(caret), (0, 0), work(), (40, 30), 8), (300, 424));
}

#[test]
fn gaps_scale_with_dpi() {
    let caret = ScreenRect { left: 300, top: 400, right: 302, bottom: 420 };
    assert_eq!(anchor(144, Some(caret), (0, 0), work(), (40, 30), 8), (300, 426));
    assert_eq!(anchor(10, Some(caret), (0, 0), work(), (40, 30), 8), (300, 421));
}

#[test]
fn above_the_caret_when_there_is_no_room_below() {
    let caret = ScreenRect { left: 300, top: 990, right: 302, bottom: 1010 };
    assert_eq!(anchor(96, Some(caret), (0, 0), work(), (40, 30), 8), (300, 956));
}

#[test]
fn by_the_mouse_without_a_caret_and_inside_the_work_area() {
    assert_eq!(anchor(96, None, (500, 600), work(), (40, 30), 8), (512, 612));
    assert_eq!(anchor(96, None, (1910, 1030), work(), (40, 30), 8), (1872, 1002));
    assert_eq!(anchor(96, None, (-50, -50), work(), (40, 30), 8), (8, 8));
}

#[test]
fn a_work_area_smaller_than_the_badge_keeps_the_top_left() {
    let tiny = ScreenRect { left: 100, top: 100, right: 120, bottom: 110 };
    assert_eq!(anchor(96, None, (500, 600), tiny, (40, 30), 8), (108, 108));
}

#[test]
fn the_label_names_the_mode() {
    assert_eq!(badge_label(true), "英");
    assert_eq!(badge_label(false), "中");
}

#[test]
fn the_window_surrounds_the_text_with_padding_and_shadow() {
    let layout = badge_layout((16, 20), 6, 10, (300, 424)).unwrap();
    assert_eq!(layout.content, (28, 26));
    assert_eq!(layout.win_pos, (290, 414));
    assert_eq!(layout.win_size, (48, 46));
    assert_eq!(layout.text_pos, (16, 13));
    assert!(badge_layout((0, 0), 0, 10, (0, 0)).is_none());
    assert!(badge_layout((-3, 5), 1, 0, (0, 0)).is_none());
}
