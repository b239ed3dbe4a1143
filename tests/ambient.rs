use mb2_wukong_expansion::ambient::{Error, NUM_LEDS};
use mb2_wukong_expansion::{WuKongAmbient, RGB8};

#[test]
fn starts_all_off() {
    let a = WuKongAmbient::new();
    assert_eq!(a.colors(), [RGB8::new(0, 0, 0); NUM_LEDS]);
}

#[test]
fn set_color_changes_one_led() {
    let mut a = WuKongAmbient::new();
    let c = RGB8::new(10, 64, 64);
    assert_eq!(a.set_color(3, c), Ok(()));
    assert_eq!(a.colors(), [RGB8::default(), RGB8::default(), RGB8::default(), c]);
    let d = RGB8 { r: 1, g: 2, b: 3 };
    assert_eq!(a.set_color(0, d), Ok(()));
    assert_eq!(a.colors(), [d, RGB8::default(), RGB8::default(), c]);
}

#[test]
fn set_color_bad_index() {
    let mut a = WuKongAmbient::new();
    assert_eq!(a.set_color(4, RGB8::new(1, 1, 1)), Err(Error::IndexError(4)));
    assert_eq!(a.colors(), [RGB8::default(); 4]);
}
