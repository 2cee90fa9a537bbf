use etch::text::is_whitespace;

#[test]
fn whitespace_is_the_unicode_white_space_set() {
    for n in 0u32..=0x10FFFF {
        if let Some(c) = char::from_u32(n) {
            assert_eq!(is_whitespace(c), c.is_whitespace(), "U+{:04X}", n);
        }
    }
}
