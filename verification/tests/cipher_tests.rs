use pokerus::cipher::{decrypt_pokemon_blob, encrypt_pokemon_blob, keystream, quarter_of};

/// The first keystream word for seed 0 is the upper 16 bits of the generator
/// state after one step from 0, i.e. of 0x0000_6073.
#[test]
fn keystream_first_word_seed_zero() {
    let ks = keystream(0, 1);
    assert_eq!(ks.len(), 1);
    assert_eq!(ks[0], 0x0000);
}

/// The keystream agrees with a direct computation of the generator.
#[test]
fn keystream_matches_generator() {
    let seed: u16 = 0xBEEF;
    let ks = keystream(seed, 8);
    let mut state: u32 = seed as u32;
    for i in 0..8 {
        state = state.wrapping_mul(0x41C6_4E6D).wrapping_add(0x0000_6073);
        assert_eq!(ks[i], (state >> 16) as u16);
    }
}

fn sample_blob(len: usize, pv: u32, checksum: u16) -> Vec<u8> {
    let mut blob = vec![0u8; len];
    blob[0..4].copy_from_slice(&pv.to_le_bytes());
    blob[6..8].copy_from_slice(&checksum.to_le_bytes());
    for i in 8..len {
        blob[i] = (i * 7 + 3) as u8;
    }
    blob
}

/// Encrypting a known 136-byte plaintext and running the cipher on the
/// result reproduces the plaintext exactly.
#[test]
fn round_trip_box_blob() {
    let plain = sample_blob(136, 0x1234_5678, 0xBEEF);
    let encrypted = encrypt_pokemon_blob(&plain);
    assert_eq!(encrypted.len(), 136);
    assert_ne!(encrypted, plain);
    let decrypted = decrypt_pokemon_blob(&encrypted);
    assert_eq!(decrypted, plain);
}

/// The same round trip holds for a 236-byte party blob, whose battle-stat
/// appendage is carried unpermuted.
#[test]
fn round_trip_party_blob() {
    let plain = sample_blob(236, 0xFFFF_FFFF, 0x0001);
    let encrypted = encrypt_pokemon_blob(&plain);
    assert_eq!(encrypted.len(), 236);
    let decrypted = decrypt_pokemon_blob(&encrypted);
    assert_eq!(decrypted, plain);
}

/// The round trip holds whatever the identity value, so whichever shuffle
/// row is selected.
#[test]
fn round_trip_every_shift() {
    for shift in 0u32..32 {
        let pv = shift << 13;
        let plain = sample_blob(136, pv, 0x0C0C);
        let decrypted = decrypt_pokemon_blob(&encrypt_pokemon_blob(&plain));
        assert_eq!(decrypted, plain, "round trip failed for shift {}", shift);
    }
}

/// The cipher keeps the 8 header bytes verbatim.
#[test]
fn header_preserved() {
    let plain = sample_blob(136, 0xA1B2_C3D4, 0x5E6F);
    let encrypted = encrypt_pokemon_blob(&plain);
    assert_eq!(&encrypted[0..8], &plain[0..8]);
    let decrypted = decrypt_pokemon_blob(&encrypted);
    assert_eq!(&decrypted[0..8], &plain[0..8]);
}

/// For every shift value the emitted quarter order is a permutation of
/// {0, 1, 2, 3}.
#[test]
fn shuffle_rows_are_permutations() {
    for shift in 0u32..32 {
        let mut row = [
            quarter_of(shift, 0),
            quarter_of(shift, 1),
            quarter_of(shift, 2),
            quarter_of(shift, 3),
        ];
        row.sort();
        assert_eq!(row, [0, 1, 2, 3], "row {} is not a permutation", shift);
    }
}

/// Rows 24 to 31 of the shuffle table repeat rows 0 to 7.
#[test]
fn shuffle_rows_duplicate_tail() {
    for shift in 24u32..32 {
        for k in 0..4 {
            assert_eq!(quarter_of(shift, k), quarter_of(shift - 24, k));
        }
    }
}

/// A spot check of the table against its stored data.
#[test]
fn shuffle_row_values() {
    assert_eq!(
        [quarter_of(0, 0), quarter_of(0, 1), quarter_of(0, 2), quarter_of(0, 3)],
        [0, 1, 2, 3]
    );
    assert_eq!(
        [quarter_of(9, 0), quarter_of(9, 1), quarter_of(9, 2), quarter_of(9, 3)],
        [3, 0, 1, 2]
    );
    assert_eq!(
        [quarter_of(23, 0), quarter_of(23, 1), quarter_of(23, 2), quarter_of(23, 3)],
        [3, 2, 1, 0]
    );
}
