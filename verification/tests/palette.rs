use isodec::pal::{palette, Error};
use isodec::source::Source;

#[test]
fn all_zero_bytes_give_256_black_entries() {
    let mut source = Source::new(vec![0u8; 768]);
    let p = palette(&mut source).expect("768 bytes must decode");
    assert_eq!(p.colors.len(), 256);
    for entry in &p.colors {
        let pixel = entry.expect("every entry of a zero table is present");
        assert_eq!((pixel.red.value, pixel.green.value, pixel.blue.value), (0, 0, 0));
        assert_eq!((pixel.red.start, pixel.red.end), (0, 64));
    }
}

#[test]
fn one_out_of_range_channel_blanks_only_its_entry() {
    for channel in 0..3 {
        let mut bytes = vec![0u8; 768];
        bytes[3 * 10 + channel] = 64;
        let mut source = Source::new(bytes);
        let p = palette(&mut source).expect("a 768-byte table must decode");
        assert!(p.colors[10].is_none());
        for (k, entry) in p.colors.iter().enumerate() {
            if k != 10 {
                assert!(entry.is_some());
            }
        }
    }
}

#[test]
fn channel_63_is_the_highest_valid_value() {
    let mut bytes = vec![0u8; 768];
    bytes[0] = 63;
    bytes[1] = 63;
    bytes[2] = 63;
    let mut source = Source::new(bytes);
    let p = palette(&mut source).expect("valid table");
    let pixel = p.colors[0].expect("channels of 63 stay present");
    assert_eq!((pixel.red.value, pixel.green.value, pixel.blue.value), (63, 63, 63));
}

#[test]
fn short_palette_is_a_read_failure() {
    for len in [0usize, 1, 3, 767] {
        let mut source = Source::new(vec![0u8; len]);
        assert_eq!(palette(&mut source), Err(Error::Read));
    }
}

#[test]
fn palette_parsing_is_idempotent() {
    let mut bytes = vec![0u8; 768];
    bytes[5] = 70;
    bytes[300] = 33;
    let p1 = palette(&mut Source::new(bytes.clone())).expect("valid table");
    let p2 = palette(&mut Source::new(bytes)).expect("valid table");
    assert_eq!(p1, p2);
}

#[test]
fn trailing_bytes_beyond_the_table_are_ignored() {
    let mut bytes = vec![0u8; 800];
    bytes[768] = 0xFF;
    let mut source = Source::new(bytes);
    let p = palette(&mut source).expect("valid table");
    assert!(p.colors[255].is_some());
}
