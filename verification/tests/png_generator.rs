use enchantron_core::model::ISize;
use enchantron_core::png_generator::PngGenerator;

const SIGNATURE: [u8; 8] = [137, 80, 78, 71, 13, 10, 26, 10];

#[test]
fn png_rgb_is_appended_to_target() {
    let size = ISize::new(16, 8);
    let data: Vec<u8> = (0..size.area() * 3).map(|i| (i % 251) as u8).collect();
    let mut target = vec![1u8, 2, 3];
    PngGenerator::get_png(&data, &size, &mut target);
    assert_eq!(&[1u8, 2, 3], &target[..3]);
    assert_eq!(&SIGNATURE, &target[3..11]);
    assert_eq!(b"IHDR", &target[15..19]);
    assert_eq!(&[0, 0, 0, 16, 0, 0, 0, 8, 8, 2], &target[19..29]);
    assert_eq!(b"IEND", &target[target.len() - 8..target.len() - 4]);
}

#[test]
fn png_indexed_carries_its_palette() {
    let size = ISize::new(128, 128);
    let palette = vec![0x34u8, 0xdd, 0x9a, 0xff, 0, 0];
    let mut data = vec![0u8; size.area()];
    for col in 0..128 {
        for row in 0..128 {
            data[row * 128 + col] = if col % 2 == row % 2 { 1 } else { 0 };
        }
    }
    let mut target = Vec::new();
    PngGenerator::get_png_indexed(&data, palette.clone(), &size, &mut target);
    assert_eq!(&SIGNATURE, &target[..8]);
    assert_eq!(&[0, 0, 0, 128, 0, 0, 0, 128, 8, 3], &target[16..26]);
    assert_eq!(b"PLTE", &target[37..41]);
    assert_eq!(&palette[..], &target[41..47]);
    assert_eq!(b"IEND", &target[target.len() - 8..target.len() - 4]);
}
