use volsnap::text::{decode_to_nul, decode_utf16_lossy, REPLACEMENT_CHARACTER};

fn utf16(s: &str) -> Vec<u16> {
    s.encode_utf16().collect()
}

#[test]
fn ascii_text_decodes_unchanged() {
    let units = utf16("C:\\");
    assert_eq!(decode_utf16_lossy(&units), "C:\\");
}

#[test]
fn empty_buffer_decodes_to_empty_string() {
    let units: Vec<u16> = Vec::new();
    assert_eq!(decode_utf16_lossy(&units), "");
}

#[test]
fn surrogate_pair_decodes_to_one_character() {
    // U+1D11E (musical symbol G clef) is encoded as the pair D834 DD1E.
    let units = vec![0xD834u16, 0xDD1E];
    assert_eq!(decode_utf16_lossy(&units), "\u{1D11E}");
}

#[test]
fn lone_high_surrogate_becomes_replacement() {
    let units = vec![0xD800u16, 0x58];
    assert_eq!(
        decode_utf16_lossy(&units),
        format!("{}X", REPLACEMENT_CHARACTER)
    );
}

#[test]
fn lone_high_surrogate_at_end_becomes_replacement() {
    let units = vec![0x58u16, 0xD800];
    assert_eq!(
        decode_utf16_lossy(&units),
        format!("X{}", REPLACEMENT_CHARACTER)
    );
}

#[test]
fn lone_low_surrogate_becomes_replacement() {
    let units = vec![0xDC00u16];
    assert_eq!(decode_utf16_lossy(&units), format!("{}", REPLACEMENT_CHARACTER));
}

#[test]
fn high_surrogate_followed_by_high_surrogate_keeps_scanning() {
    // The first high surrogate is unpaired; the second one pairs with the
    // trailing low surrogate.
    let units = vec![0xD834u16, 0xD834, 0xDD1E];
    assert_eq!(
        decode_utf16_lossy(&units),
        format!("{}\u{1D11E}", REPLACEMENT_CHARACTER)
    );
}

#[test]
fn bmp_text_round_trips() {
    let text = "Données système";
    let units = utf16(text);
    assert_eq!(decode_utf16_lossy(&units), text);
}

#[test]
fn decode_to_nul_stops_at_first_zero() {
    let mut units = utf16("NTFS");
    units.push(0);
    units.extend(utf16("garbage"));
    assert_eq!(decode_to_nul(&units), "NTFS");
}

#[test]
fn decode_to_nul_takes_whole_buffer_without_zero() {
    let units = utf16("FAT32");
    assert_eq!(decode_to_nul(&units), "FAT32");
}

#[test]
fn decode_to_nul_of_leading_zero_is_empty() {
    let units = vec![0u16, 0x41, 0x42];
    assert_eq!(decode_to_nul(&units), "");
}
