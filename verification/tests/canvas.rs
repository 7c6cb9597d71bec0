use raytracer::canvas::Canvas;
use raytracer::canvas::Colour;
use raytracer::canvas::COLOUR_SCALE;
use raytracer::maths::MathsError;

const HALF: i64 = COLOUR_SCALE / 2;

#[test]
fn colour() {
    // channels in tenths of full intensity: 0.7, 1.1, 0.2 and 0.1, 0.1, 0.7
    let tenth: i64 = COLOUR_SCALE / 10;
    let c1 = Colour::new(7 * tenth, 11 * tenth, 2 * tenth);
    let c2 = Colour::new(tenth, tenth, 7 * tenth);

    assert_eq!(c1.add(c2), Colour::new(8 * tenth, 12 * tenth, 9 * tenth));
    assert_eq!(c1.sub(c2), Colour::new(6 * tenth, 10 * tenth, -5 * tenth));
    assert_eq!(c1.scale(HALF), Colour::new(35 * tenth / 10, 55 * tenth / 10, tenth));
    // the Hadamard product: 0.07, 0.11, 0.14
    assert_eq!(c1.mul(c2), Colour::new(7 * tenth / 10, 11 * tenth / 10, 14 * tenth / 10));
}

#[test]
fn hadamard_truncates_toward_zero() {
    // 3 * 3 channel units give 9 / COLOUR_SCALE, which truncates to zero
    let tiny = Colour::new(3, 3, -3);
    let got = tiny.mul(tiny);
    assert_eq!(got, Colour::new(0, 0, 0));
}

#[test]
fn canvas() {
    let mut c = Canvas::new(640, 480);
    assert_eq!(c.write_pixel(55, 190, Colour::new(COLOUR_SCALE, HALF, HALF)), Ok(()));
    assert_eq!(c.pixel_at(55, 190), Ok(Colour::new(COLOUR_SCALE, HALF, HALF)));
    assert_eq!(c.pixel_at(54, 190), Ok(Colour::new(0, 0, 0)));
    assert_eq!(c.pixel_at(639, 479), Ok(Colour::new(0, 0, 0)));
}

#[test]
fn canvas_rejects_out_of_range_coordinates() {
    let mut c = Canvas::new(8, 4);
    assert_eq!(c.pixel_at(8, 0), Err(MathsError::IndexOutOfRange));
    assert_eq!(c.pixel_at(0, 4), Err(MathsError::IndexOutOfRange));
    assert_eq!(c.write_pixel(8, 0, Colour::new(0, 0, 0)), Err(MathsError::IndexOutOfRange));
    assert_eq!(c.pixel_at(7, 3), Ok(Colour::new(0, 0, 0)));
}

#[test]
fn rgba_packing() {
    // full red, no green, half blue: bytes 255, 0 and 127 (truncated)
    let c = Colour::new(COLOUR_SCALE, 0, HALF);
    let expected: u32 = 255 * 0x100 + 0 * 0x10000 + 127 * 0x1000000 + 255;
    assert_eq!(c.to_rgba(), expected);

    let black = Colour::new(0, 0, 0);
    assert_eq!(black.to_rgba(), 255);

    let white = Colour::new(COLOUR_SCALE, COLOUR_SCALE, COLOUR_SCALE);
    assert_eq!(white.to_rgba(), 0xFFFFFFFF);
}

#[test]
fn representable_checks_every_channel() {
    let mut c = Canvas::new(3, 2);
    assert!(c.pixels_representable());
    assert_eq!(c.write_pixel(1, 1, Colour::new(-5, 0, 0)), Ok(()));
    assert!(!c.pixels_representable());
    assert_eq!(c.write_pixel(1, 1, Colour::new(COLOUR_SCALE, 0, 0)), Ok(()));
    assert!(c.pixels_representable());
    assert_eq!(c.write_pixel(1, 0, Colour::new(0, COLOUR_SCALE + 1, 0)), Ok(()));
    assert!(!c.pixels_representable());
}

#[test]
fn bmp_row_padding() {
    assert_eq!(Canvas::new(2, 1).bmp_padding(), 2);
    assert_eq!(Canvas::new(4, 1).bmp_padding(), 0);
    assert_eq!(Canvas::new(5, 1).bmp_padding(), 1);
    assert_eq!(Canvas::new(640, 1).bmp_padding(), 0);
    assert_eq!(Canvas::new(2, 3).bmp_size(), 24);
    assert_eq!(Canvas::new(640, 480).bmp_size(), 640 * 3 * 480);
}

#[test]
fn bmp_bytes_are_exact() {
    let mut c = Canvas::new(2, 2);
    let red = Colour::new(COLOUR_SCALE, 0, 0);
    let green = Colour::new(0, COLOUR_SCALE, 0);
    let blue = Colour::new(0, 0, COLOUR_SCALE);
    let white = Colour::new(COLOUR_SCALE, COLOUR_SCALE, COLOUR_SCALE);
    assert_eq!(c.write_pixel(0, 0, red), Ok(()));
    assert_eq!(c.write_pixel(1, 0, green), Ok(()));
    assert_eq!(c.write_pixel(0, 1, blue), Ok(()));
    assert_eq!(c.write_pixel(1, 1, white), Ok(()));
    assert!(c.pixels_representable());

    let bytes = c.to_bmp();
    // 54 header bytes, then two rows of 6 pixel bytes and 2 padding bytes
    assert_eq!(bytes.len(), 70);
    // bitmap file header
    assert_eq!(&bytes[0..2], &[0x42, 0x4D]);
    assert_eq!(&bytes[2..6], &[70, 0, 0, 0]);
    assert_eq!(&bytes[6..10], &[0, 0, 0, 0]);
    assert_eq!(&bytes[10..14], &[54, 0, 0, 0]);
    // DIB header
    assert_eq!(&bytes[14..18], &[40, 0, 0, 0]);
    assert_eq!(&bytes[18..22], &[2, 0, 0, 0]);
    assert_eq!(&bytes[22..26], &[2, 0, 0, 0]);
    assert_eq!(&bytes[26..28], &[1, 0]);
    assert_eq!(&bytes[28..30], &[24, 0]);
    assert_eq!(&bytes[30..34], &[0, 0, 0, 0]);
    assert_eq!(&bytes[34..38], &[16, 0, 0, 0]);
    // 2835 pixels per metre is 0x0B13
    assert_eq!(&bytes[38..42], &[0x13, 0x0B, 0, 0]);
    assert_eq!(&bytes[42..46], &[0x13, 0x0B, 0, 0]);
    assert_eq!(&bytes[46..54], &[0, 0, 0, 0, 0, 0, 0, 0]);
    // rows in iteration order, pixels as blue, green, red
    assert_eq!(&bytes[54..57], &[0, 0, 255]);
    assert_eq!(&bytes[57..60], &[0, 255, 0]);
    assert_eq!(&bytes[60..62], &[0, 0]);
    assert_eq!(&bytes[62..65], &[255, 0, 0]);
    assert_eq!(&bytes[65..68], &[255, 255, 255]);
    assert_eq!(&bytes[68..70], &[0, 0]);
}

#[test]
fn bmp_channels_truncate() {
    // half intensity packs to 127, never rounded to 128
    let mut c = Canvas::new(1, 1);
    assert_eq!(c.write_pixel(0, 0, Colour::new(HALF, 0, COLOUR_SCALE)), Ok(()));
    let bytes = c.to_bmp();
    assert_eq!(bytes.len(), 54 + 4);
    assert_eq!(&bytes[54..57], &[255, 0, 127]);
}
