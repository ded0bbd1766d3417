use eldenring::arxan::{get_arxan_code_restoration_rvas, rvas_from_matches};

fn put_u16(image: &mut [u8], at: usize, v: u16) {
    image[at..at + 2].copy_from_slice(&v.to_le_bytes());
}

fn put_u32(image: &mut [u8], at: usize, v: u32) {
    image[at..at + 4].copy_from_slice(&v.to_le_bytes());
}

/// A PE32+ image as laid out in memory: headers, no sections, code at 0x200..0x300.
fn image_with_code(code: &[(usize, &[u8])]) -> Vec<u8> {
    let mut image = vec![0u8; 0x1000];
    image[0] = b'M';
    image[1] = b'Z';
    put_u32(&mut image, 0x3c, 0x40);
    image[0x40..0x44].copy_from_slice(b"PE\0\0");
    put_u16(&mut image, 0x44, 0x8664);
    put_u16(&mut image, 0x46, 0);
    put_u16(&mut image, 0x54, 0xf0);
    put_u16(&mut image, 0x58, 0x20b);
    put_u32(&mut image, 0x5c, 0x100);
    put_u32(&mut image, 0x6c, 0x200);
    put_u32(&mut image, 0x78, 0x1000);
    put_u32(&mut image, 0x7c, 0x200);
    put_u32(&mut image, 0x90, 0x1000);
    put_u32(&mut image, 0x94, 0x200);
    put_u32(&mut image, 0xc4, 16);
    for (at, bytes) in code {
        image[*at..*at + bytes.len()].copy_from_slice(bytes);
    }
    image
}

const CHECK_HEAD: [u8; 18] =
    [0xB9, 1, 2, 3, 4, 0xE8, 1, 2, 3, 4, 0xF3, 0x0F, 0x11, 0x05, 1, 2, 3, 4];
const CHECK_TAIL: [u8; 9] = [0x72, 0x10, 0x48, 0x8D, 1, 2, 3, 4, 5];

#[test]
fn restoration_jumps_are_found_in_the_code() {
    let filler = [0x90u8; 5];
    let mut second = Vec::new();
    second.extend_from_slice(&CHECK_HEAD);
    second.extend_from_slice(&filler);
    second.extend_from_slice(&CHECK_TAIL);
    let mut first = Vec::new();
    first.extend_from_slice(&CHECK_HEAD);
    first.extend_from_slice(&CHECK_TAIL);
    let image = image_with_code(&[(0x200, &first), (0x280, &second)]);
    assert_eq!(get_arxan_code_restoration_rvas(&image), Some(vec![0x212, 0x297]));
}

#[test]
fn checks_outside_the_code_are_not_found() {
    let mut check = Vec::new();
    check.extend_from_slice(&CHECK_HEAD);
    check.extend_from_slice(&CHECK_TAIL);
    let image = image_with_code(&[(0x400, &check)]);
    assert_eq!(get_arxan_code_restoration_rvas(&image), Some(vec![]));
}

#[test]
fn a_buffer_that_is_no_pe_image_gives_nothing() {
    assert_eq!(get_arxan_code_restoration_rvas(&[0u8; 0x400]), None);
    assert_eq!(get_arxan_code_restoration_rvas(&[]), None);
}

#[test]
fn rvas_are_the_second_captures() {
    assert_eq!(rvas_from_matches(&vec![(1, 2), (3, 4), (5, 6)]), vec![2, 4, 6]);
    assert!(rvas_from_matches(&vec![]).is_empty());
}

#[test]
fn code_ranges_outside_the_image_give_nothing() {
    let mut image = image_with_code(&[]);
    // BaseOfCode past the end of the image
    put_u32(&mut image, 0x6c, 0x2000);
    assert!(!eldenring::arxan::check_code_range(&image));
    assert_eq!(get_arxan_code_restoration_rvas(&image), None);
    // BaseOfCode + SizeOfCode wraps around
    put_u32(&mut image, 0x6c, 0x200);
    put_u32(&mut image, 0x5c, 0xFFFF_FF00);
    assert!(!eldenring::arxan::check_code_range(&image));
    assert_eq!(get_arxan_code_restoration_rvas(&image), None);
    put_u32(&mut image, 0x5c, 0x100);
    assert!(eldenring::arxan::check_code_range(&image));
}
