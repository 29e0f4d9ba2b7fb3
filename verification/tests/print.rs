use battery_tester::print::Print;
use tinyvec::ArrayVec;

#[test]
fn fixed_text() {
    assert_eq!(Print::Static("program started...").as_bytes(), b"program started...");
    assert_eq!(Print::Static("").as_bytes(), b"");
    assert_eq!(Print::Static("a\tb").as_bytes(), &[97u8, 9, 98]);
}

#[test]
fn inline_text() {
    let mut inline: ArrayVec<[u8; 128]> = ArrayVec::new();
    assert_eq!(Print::Dyn(inline).as_bytes(), b"");
    inline.extend_from_slice(b"new cutoff voltage (millivolts): 11000");
    assert_eq!(Print::Dyn(inline).as_bytes(), b"new cutoff voltage (millivolts): 11000");
    let mut full: ArrayVec<[u8; 128]> = ArrayVec::new();
    for i in 0..128u8 {
        full.push(i);
    }
    let expected: Vec<u8> = (0..128u8).collect();
    assert_eq!(Print::Dyn(full).as_bytes(), &expected[..]);
}

#[test]
fn text_on_the_heap() {
    let long = vec![b'x'; 300].into_boxed_slice();
    assert_eq!(Print::Aloc(long.clone()).as_bytes(), &long[..]);
    assert_eq!(Print::Aloc(Vec::new().into_boxed_slice()).as_bytes(), b"");
}

#[test]
fn shutdown_is_a_line_feed() {
    assert_eq!(Print::Shutdown.as_bytes(), b"\n");
    assert_eq!(Print::Shutdown, Print::Shutdown);
}
