use chippy::emu::iter::ByteCodeIter;
use chippy::parser::binary::to_asm;

#[test]
fn bin_to_asm() {
    let program = vec![
        0x00, 0xE0, 0x00, 0xEE, 0x02, 0x46, 0x12, 0x46, 0x23, 0x57, 0x32, 0xDE, 0x42, 0xDE,
        0x52, 0x10, 0x62, 0x18, 0x70, 0xE3, 0x81, 0x20, 0x81, 0x21, 0x81, 0x22, 0x81, 0x23,
        0x81, 0x24, 0x81, 0x25, 0x81, 0x26, 0x81, 0x27, 0x81, 0x2E, 0x93, 0xE0, 0xA1, 0x23,
        0xB1, 0x23, 0xC1, 0x23, 0xD1, 0x23, 0xE1, 0x9E, 0xE1, 0xA1, 0xF1, 0x07, 0xF1, 0x0A,
        0xF1, 0x15, 0xF1, 0x18, 0xF1, 0x1E, 0xF1, 0x29, 0xF1, 0x33, 0xF1, 0x55, 0xF1, 0x65,
        0xF1, 0x69,
    ];
    let actual = "cls\nret\nsys 0x246\njp 0x246\ncall 0x357\nse v2, 0xDE\nsne v2, 0xDE\nse v2, v1\nld v2, 0x18\nadd v0, 0xE3\nld v1, v2\nor v1, v2\nand v1, v2\nxor v1, v2\nadd v1, v2\nsub v1, v2\nshr v1\nsubn v1, v2\nshl v1\nsne v3, vE\nld i, 0x123\njp v0, 0x123\nrnd v1, 0x23\ndrw v1, v2, 0x3\nskp v1\nsknp v1\nld v1, dt\nld v1, k\nld dt, v1\nld st, v1\nadd i, v1\nld f, v1\nld b, v1\nld [i], v1\nld v1, [i]\nraw 0xF169";
    let result = to_asm(&program);
    assert_eq!(result, actual);
}

#[test]
fn bin_iterator() {
    let program = vec![0x12, 0x23, 0x34, 0x45, 0x56, 0x67];
    let mut iter = ByteCodeIter::new(&program);
    assert_eq!(Some(0x1223), iter.next());
    assert_eq!(Some(0x3445), iter.next());
    assert_eq!(Some(0x5667), iter.next());
    assert_eq!(None, iter.next());
}


