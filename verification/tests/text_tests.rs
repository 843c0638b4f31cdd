use pokerus::text::{decode_units, encode_units, TERMINATOR};

/// A width-8 name field with a known code-unit sequence and terminator
/// padding decodes to the trimmed text, and re-encoding reproduces the
/// original padded field.
#[test]
fn fixed_width_name_round_trip() {
    // 'R' = 0x013C, 'E' = 0x012F, 'D' = 0x012E in the character table.
    let field: Vec<u16> = vec![
        0x013C, 0x012F, 0x012E, TERMINATOR, TERMINATOR, TERMINATOR, TERMINATOR, TERMINATOR,
    ];
    let text = decode_units(&field);
    assert_eq!(text, "RED");
    let re_encoded = encode_units(&text, 8);
    assert_eq!(re_encoded, field);
}

/// Digits, letters and the space all map through the table.
#[test]
fn character_table_coverage() {
    let text = "Az 09";
    let field = encode_units(text, 8);
    assert_eq!(
        field,
        vec![0x012B, 0x015E, 0x01DE, 0x0121, 0x012A, TERMINATOR, TERMINATOR, TERMINATOR]
    );
    assert_eq!(decode_units(&field), text);
}

/// An unmapped code unit decodes to the placeholder instead of failing.
#[test]
fn unmapped_unit_is_placeholder() {
    let field: Vec<u16> = vec![0x0005, 0x013C, TERMINATOR, TERMINATOR];
    assert_eq!(decode_units(&field), "?R");
}

/// Everything from the first terminator on is trimmed, and a field with no
/// terminator decodes whole.
#[test]
fn terminator_trimming() {
    let field: Vec<u16> = vec![0x012B, TERMINATOR, 0x012C, 0x012D];
    assert_eq!(decode_units(&field), "A");
    let full: Vec<u16> = vec![0x012B, 0x012C, 0x012D];
    assert_eq!(decode_units(&full), "ABC");
    let empty: Vec<u16> = vec![TERMINATOR, TERMINATOR];
    assert_eq!(decode_units(&empty), "");
}

/// Encoding drops characters beyond the field width.
#[test]
fn encode_truncates_to_width() {
    let field = encode_units("ABCDE", 3);
    assert_eq!(field, vec![0x012B, 0x012C, 0x012D]);
}
