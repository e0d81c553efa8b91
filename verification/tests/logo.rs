use car_simulation::{parse_svg, render_rgba, rgba_to_argb};

const RED_SQUARE: &str = "<svg xmlns=\"http://www.w3.org/2000/svg\" width=\"4\" height=\"4\">\
<rect x=\"0\" y=\"0\" width=\"4\" height=\"4\" fill=\"#ff0000\"/></svg>";

const HALF_BLUE: &str = "<svg xmlns=\"http://www.w3.org/2000/svg\" width=\"2\" height=\"2\">\
<rect x=\"0\" y=\"0\" width=\"1\" height=\"2\" fill=\"#0000ff\"/></svg>";

#[test]
fn invalid_svg_does_not_parse() {
    assert!(parse_svg(b"not an svg").is_none());
    assert!(parse_svg(&[0xff, 0xfe, 0x00]).is_none());
}

#[test]
fn renders_opaque_red_square() {
    let tree = parse_svg(RED_SQUARE.as_bytes()).unwrap();
    let rgba = render_rgba(&tree, 4, 4).unwrap();
    assert_eq!(rgba.len(), 64);
    assert!(rgba.chunks(4).all(|c| c == [0xff, 0x00, 0x00, 0xff]));
    let pixels = rgba_to_argb(&rgba);
    assert_eq!(pixels.len(), 16);
    assert!(pixels.iter().all(|&p| p == 0xffff0000));
}

#[test]
fn scaled_render_has_requested_size() {
    let tree = parse_svg(RED_SQUARE.as_bytes()).unwrap();
    let rgba = render_rgba(&tree, 8, 8).unwrap();
    assert_eq!(rgba.len(), 256);
    assert_eq!(rgba_to_argb(&rgba)[27], 0xffff0000);
}

#[test]
fn uncovered_pixels_stay_transparent() {
    let tree = parse_svg(HALF_BLUE.as_bytes()).unwrap();
    let pixels = rgba_to_argb(&render_rgba(&tree, 2, 2).unwrap());
    assert_eq!(pixels, vec![0xff0000ff, 0x00000000, 0xff0000ff, 0x00000000]);
}

#[test]
fn empty_raster_gives_none() {
    let tree = parse_svg(RED_SQUARE.as_bytes()).unwrap();
    assert!(render_rgba(&tree, 0, 4).is_none());
    assert!(render_rgba(&tree, 4, 0).is_none());
}

#[test]
fn too_wide_raster_gives_none() {
    let tree = parse_svg(RED_SQUARE.as_bytes()).unwrap();
    assert!(render_rgba(&tree, 0x2000_0000, 1).is_none());
}

#[test]
fn raster_of_other_aspect_still_renders() {
    let tree = parse_svg(RED_SQUARE.as_bytes()).unwrap();
    let rgba = render_rgba(&tree, 3, 7).unwrap();
    assert_eq!(rgba.len(), 4 * 3 * 7);
}
