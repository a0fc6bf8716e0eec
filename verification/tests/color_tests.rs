use tetris_core::color::Name;
use tetris_core::color::Rgb;

#[test]
fn test_rgb_round_trip() {
    let rgb = Rgb::from_array([1, 2, 3]);
    assert_eq!(rgb.to_array(), [1, 2, 3]);
    assert_eq!(rgb.r, 1);
    assert_eq!(rgb.g, 2);
    assert_eq!(rgb.b, 3);
}

#[test]
fn test_color_values() {
    assert_eq!(Rgb::from(Name::Blue).to_array(), [0, 0, 255]);
    assert_eq!(Rgb::from(Name::Cyan).to_array(), [0, 255, 255]);
    assert_eq!(Rgb::from(Name::Green).to_array(), [0, 255, 0]);
    assert_eq!(Rgb::from(Name::Orange).to_array(), [255, 127, 0]);
    assert_eq!(Rgb::from(Name::Purple).to_array(), [255, 0, 255]);
    assert_eq!(Rgb::from(Name::Red).to_array(), [255, 0, 0]);
    assert_eq!(Rgb::from(Name::Yellow).to_array(), [255, 255, 0]);
}

#[test]
fn test_default_color() {
    assert_eq!(Name::default(), Name::Green);
}
