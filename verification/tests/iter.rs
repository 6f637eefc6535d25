use chippy::emu::iter::ByteCodeIter;

#[test]
fn bytecode_iter_success() {
    let program = vec![0x12, 0x23, 0x34, 0x45, 0x56, 0x67];
    let mut iter = ByteCodeIter::new(&program);
    assert_eq!(Some(0x1223), iter.next());
    assert_eq!(Some(0x3445), iter.next());
    assert_eq!(Some(0x5667), iter.next());
    assert_eq!(None, iter.next());
}

