use rex_axum_sdk::der::{nesting_within, read_header, ItemHeader, MAX_NESTING};

/// `depth` sequences, each the only content of the one before.
fn nested(depth: usize) -> Vec<u8> {
    let mut der: Vec<u8> = Vec::new();
    for _ in 0..depth {
        let mut next: Vec<u8> = vec![0x30];
        if der.len() < 0x80 {
            next.push(der.len() as u8);
        } else if der.len() < 0x100 {
            next.extend([0x81, der.len() as u8]);
        } else {
            next.extend([0x82, (der.len() >> 8) as u8, der.len() as u8]);
        }
        next.extend(der.iter());
        der = next;
    }
    der
}

#[test]
fn header_gives_content_and_nesting() {
    let der = [0x30, 0x03, 0x02, 0x01, 0x05];
    assert!(matches!(read_header(&der, 0), ItemHeader::Item { nests: true, start: 2, len: 3 }));
    assert!(matches!(read_header(&der, 2), ItemHeader::Item { nests: false, start: 4, len: 1 }));
    assert!(matches!(read_header(&der, 4), ItemHeader::Stop));
    assert!(matches!(read_header(&der, 3), ItemHeader::Stop));
}

#[test]
fn header_tells_which_tags_nest() {
    for tag in [0x30, 0x31, 0x10, 0x11, 0xa0, 0xa3, 0x60, 0xe5, 0xb0] {
        assert!(matches!(read_header(&[tag, 0x00], 0), ItemHeader::Item { nests: true, .. }));
    }
    for tag in [0x02, 0x03, 0x04, 0x05, 0x06, 0x0c, 0x13, 0x17, 0x24, 0x80, 0x82, 0x45, 0xc1] {
        assert!(matches!(read_header(&[tag, 0x00], 0), ItemHeader::Item { nests: false, .. }));
    }
}

#[test]
fn header_reads_long_lengths() {
    let mut der = vec![0x04, 0x82, 0x01, 0x00];
    der.extend(vec![0u8; 256]);
    assert!(matches!(read_header(&der, 0), ItemHeader::Item { nests: false, start: 4, len: 256 }));
    der.pop();
    assert!(matches!(read_header(&der, 0), ItemHeader::Stop));
    let der = [0x04, 0x81, 0x02, 0xaa, 0xbb];
    assert!(matches!(read_header(&der, 0), ItemHeader::Item { start: 3, len: 2, .. }));
    let der = [0x04, 0x83, 0x00, 0x00, 0x01, 0xaa];
    assert!(matches!(read_header(&der, 0), ItemHeader::Item { start: 5, len: 1, .. }));
    let der = [0x04, 0x84, 0x00, 0x00, 0x00, 0x02, 0xaa, 0xbb];
    assert!(matches!(read_header(&der, 0), ItemHeader::Item { start: 6, len: 2, .. }));
    let der = [0x04, 0x84, 0x01, 0x00, 0x00, 0x00, 0xaa];
    assert!(matches!(read_header(&der, 0), ItemHeader::Stop));
    let der = [0x04, 0x80, 0xaa];
    assert!(matches!(read_header(&der, 0), ItemHeader::Item { start: 2, len: 0, .. }));
    assert!(matches!(read_header(&[0x04, 0x82, 0x01], 0), ItemHeader::Stop));
}

#[test]
fn header_refuses_forms_that_no_key_uses() {
    assert!(matches!(read_header(&[0x1f, 0x10, 0x00], 0), ItemHeader::Refused));
    assert!(matches!(read_header(&[0xbf, 0x10, 0x00], 0), ItemHeader::Refused));
    assert!(matches!(read_header(&[0x30, 0x85, 0, 0, 0, 0, 0], 0), ItemHeader::Refused));
    assert!(matches!(read_header(&[0x30, 0xff], 0), ItemHeader::Refused));
    assert!(matches!(read_header(&[0x30], 0), ItemHeader::Stop));
    assert!(matches!(read_header(&[0x1f], 0), ItemHeader::Stop));
}

#[test]
fn nesting_is_counted_below_the_outermost() {
    assert!(nesting_within(&[], 0));
    assert!(nesting_within(&[0x02, 0x01, 0x05], 0));
    assert!(!nesting_within(&nested(1), 0));
    assert!(nesting_within(&nested(1), 1));
    assert!(nesting_within(&nested(2), 2));
    assert!(!nesting_within(&nested(3), 2));
    assert_eq!(MAX_NESTING, 16);
    assert!(nesting_within(&nested(16), MAX_NESTING));
    assert!(!nesting_within(&nested(17), MAX_NESTING));
    assert!(!nesting_within(&nested(5000), MAX_NESTING));
}

#[test]
fn nesting_is_looked_for_in_every_item() {
    // Two shallow items, then one that is nested twice.
    let mut der = vec![0x02, 0x01, 0x05, 0x30, 0x00];
    der.extend(nested(2));
    assert!(nesting_within(&der, 2));
    assert!(!nesting_within(&der, 1));
    // A set in an explicit tag in a sequence.
    let der = [0x30, 0x04, 0xa0, 0x02, 0x31, 0x00];
    assert!(nesting_within(&der, 3));
    assert!(!nesting_within(&der, 2));
    // The contents of a string are not looked into.
    let mut der = vec![0x04, 0x82, 0x01, 0x00];
    der.extend(vec![0x30; 256]);
    assert!(nesting_within(&der, 0));
    // A refused header anywhere refuses the whole.
    assert!(!nesting_within(&[0x30, 0x03, 0x1f, 0x01, 0x00], 4));
    assert!(!nesting_within(&[0x02, 0x01, 0x05, 0x30, 0x89], 4));
    // What cannot be read to its end ends the walk.
    assert!(nesting_within(&[0x30, 0x05, 0x30, 0x00], 0));
}
