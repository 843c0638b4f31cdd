use pokerus::cipher::encrypt_pokemon_blob;
use pokerus::decode::{parse_creature, read_save, read_save_diamond_pearl, Options};
use pokerus::model::{Gender, Item, Species, Trainer};
use pokerus::text::encode_units;
use pokerus::DecodeError;

/// An options value must decompose into the documented sub-fields by the
/// specified masks and shifts.
#[test]
fn options_bitfield_decomposition() {
    let opts = Options::from_raw(0b0_0101_01_1_1_01_0011);
    assert_eq!(opts.frame, 0b0101);
    assert_eq!(opts.button_mode, 0b01);
    assert_eq!(opts.battle_scene, 1);
    assert_eq!(opts.battle_style, 1);
    assert_eq!(opts.sound_mode, 0b01);
    assert_eq!(opts.text_speed, 0b0011);
}

#[test]
fn options_bitfield_zero_and_full() {
    let opts = Options::from_raw(0);
    assert_eq!(
        (opts.frame, opts.button_mode, opts.battle_scene, opts.battle_style, opts.sound_mode,
        opts.text_speed),
        (0, 0, 0, 0, 0, 0)
    );
    let opts = Options::from_raw(0xFFFF);
    assert_eq!(
        (opts.frame, opts.button_mode, opts.battle_scene, opts.battle_style, opts.sound_mode,
        opts.text_speed),
        (0b1111, 0b11, 1, 1, 0b11, 0b1111)
    );
}

fn put16(img: &mut [u8], at: usize, v: u16) {
    img[at..at + 2].copy_from_slice(&v.to_le_bytes());
}

fn put32(img: &mut [u8], at: usize, v: u32) {
    img[at..at + 4].copy_from_slice(&v.to_le_bytes());
}

fn put64(img: &mut [u8], at: usize, v: i64) {
    img[at..at + 8].copy_from_slice(&v.to_le_bytes());
}

fn put_units(img: &mut [u8], at: usize, units: &[u16]) {
    for (i, u) in units.iter().enumerate() {
        put16(img, at + 2 * i, *u);
    }
}

/// A decrypted record body with the given species, held item and
/// original-trainer ids, named `name`.
fn plain_record(len: usize, checksum: u16, species: u16, held: u16, otid: u16, otsid: u16,
                name: &str) -> Vec<u8> {
    let mut blob = vec![0u8; len];
    put16(&mut blob, 6, checksum);
    put16(&mut blob, 8, species);
    put16(&mut blob, 10, held);
    put16(&mut blob, 12, otid);
    put16(&mut blob, 14, otsid);
    put_units(&mut blob, 0x48, &encode_units(name, 20));
    blob
}

/// A blob whose decrypted species field equals zero produces no creature.
#[test]
fn empty_slot_is_skipped() {
    let trainer = Trainer::new("GOLD".to_string(), 123, Some(456), Gender::Male);
    let dec = plain_record(136, 0, 0, 0, 123, 456, "PIPLUP");
    assert!(parse_creature(&dec, 123, 456, &trainer).is_none());
}

/// A creature whose stored original-trainer ids both equal the current
/// save's ids is attributed to the trainer; any mismatch leaves it unset.
#[test]
fn ownership_attribution() {
    let trainer = Trainer::new("GOLD".to_string(), 123, Some(456), Gender::Male);

    let dec = plain_record(136, 0, 393, 0, 123, 456, "PIPLUP");
    let pkmn = parse_creature(&dec, 123, 456, &trainer).unwrap();
    assert_eq!(pkmn.trainer().as_ref().map(|t| t.id()), Some(123));

    let dec = plain_record(136, 0, 393, 0, 999, 456, "PIPLUP");
    let pkmn = parse_creature(&dec, 123, 456, &trainer).unwrap();
    assert!(pkmn.trainer().is_none());

    let dec = plain_record(136, 0, 393, 0, 123, 457, "PIPLUP");
    let pkmn = parse_creature(&dec, 123, 456, &trainer).unwrap();
    assert!(pkmn.trainer().is_none());
}

#[test]
fn parsed_creature_fields() {
    let trainer = Trainer::new("GOLD".to_string(), 123, Some(456), Gender::Male);
    let dec = plain_record(236, 0x1111, 393, 17, 123, 456, "PIPLUP");
    let pkmn = parse_creature(&dec, 123, 456, &trainer).unwrap();
    assert_eq!(pkmn.species(), Species(393));
    assert_eq!(pkmn.held_item(), Item(17));
    assert_eq!(pkmn.ot_id(), 123);
    assert_eq!(pkmn.ot_secret_id(), 456);
    assert_eq!(pkmn.name().as_str(), "PIPLUP");
    assert_eq!(pkmn.experience(), 0);
    assert_eq!(pkmn.friendship(), 0);
}

// Offsets of the later-revision layout, as its schema states them.
const PT_LEN: usize = 127218;
const PT_PARTY: usize = 0xA0;
const PT_BAG: usize = 0x630;
const PT_BOX_DATA: usize = 0xCF2C + 4;
const PT_BOX_NAMES: usize = PT_BOX_DATA + 18 * 30 * 136;
const PT_BOX_WALLS: usize = PT_BOX_NAMES + 18 * 40;

/// A synthetic later-revision image: trainer GOLD (id 123 / 456, female),
/// one party creature of species 393 owned by her, one boxed creature of
/// species 42 owned by someone else, a couple of bag entries, and box 0
/// named and wallpapered.
fn synthetic_platinum_image() -> Vec<u8> {
    let mut img = vec![0u8; PT_LEN];

    put64(&mut img, 0x34, 1_500_000_000);
    put64(&mut img, 0x3C, 1_600_000_000);
    put16(&mut img, 0x64, 0b0_0101_01_1_1_01_0011);

    put_units(&mut img, 0x68, &encode_units("GOLD", 8));
    put16(&mut img, 0x78, 123);
    put16(&mut img, 0x7A, 456);
    put32(&mut img, 0x7C, 99_999);
    img[0x80] = 1;
    img[0x81] = 2;
    img[0x82] = 0b1010_1010;

    // Every slot starts as an encrypted empty record (species zero).
    let empty_party = encrypt_pokemon_blob(&vec![0u8; 236]);
    for slot in 0..6 {
        img[PT_PARTY + slot * 236..PT_PARTY + (slot + 1) * 236].copy_from_slice(&empty_party);
    }
    let empty_box = encrypt_pokemon_blob(&vec![0u8; 136]);
    for slot in 0..18 * 30 {
        img[PT_BOX_DATA + slot * 136..PT_BOX_DATA + (slot + 1) * 136].copy_from_slice(&empty_box);
    }

    // Party slot 0: species 393, owned by the save's trainer.
    let party_member = encrypt_pokemon_blob(&plain_record(236, 0xABCD, 393, 17, 123, 456,
        "PIPLUP"));
    img[PT_PARTY..PT_PARTY + 236].copy_from_slice(&party_member);

    // Box 0 slot 2: species 42, original trainer elsewhere.
    let boxed = encrypt_pokemon_blob(&plain_record(136, 0x0101, 42, 0, 999, 456, "STRAY"));
    img[PT_BOX_DATA + 2 * 136..PT_BOX_DATA + 3 * 136].copy_from_slice(&boxed);

    // Bag: two entries of item 1, one of item 9.
    put16(&mut img, PT_BAG, 1);
    put16(&mut img, PT_BAG + 2, 5);
    put16(&mut img, PT_BAG + 4, 1);
    put16(&mut img, PT_BAG + 6, 7);
    put16(&mut img, PT_BAG + 8, 9);
    put16(&mut img, PT_BAG + 10, 3);

    put_units(&mut img, PT_BOX_NAMES, &encode_units("HOME", 20));
    img[PT_BOX_WALLS] = 7;

    img
}

/// End-to-end: the synthetic image decodes to a save whose party holds
/// exactly the one non-empty creature, attributed to the trainer, with five
/// fewer entries than the fixed slot count.
#[test]
fn end_to_end_platinum() {
    let save = read_save(synthetic_platinum_image()).unwrap();

    assert_eq!(save.save_started.epoch_seconds(), 1_500_000_000);
    assert_eq!(save.hall_of_fame_entered.epoch_seconds(), 1_600_000_000);
    assert_eq!(save.locale.0, 2);
    assert_eq!(save.badges.0, 0b1010_1010);

    let trainer = save.base.trainer();
    assert_eq!(trainer.name().as_str(), "GOLD");
    assert_eq!(trainer.id(), 123);
    assert_eq!(trainer.secret_id(), Some(456));
    assert!(matches!(trainer.gender(), Gender::Female));
    assert_eq!(save.base.money(), 99_999);

    assert_eq!(save.base.party.len(), 1);
    let pkmn = &save.base.party[0];
    assert_eq!(pkmn.species(), Species(393));
    assert_eq!(pkmn.name().as_str(), "PIPLUP");
    assert_eq!(pkmn.held_item(), Item(17));
    assert_eq!(pkmn.trainer().as_ref().map(|t| t.id()), Some(123));

    assert_eq!(save.base.get_item(Item(1)), Some(&12));
    assert_eq!(save.base.get_item(Item(9)), Some(&3));
    assert!(save.base.has_item(Item(0)));
    assert_eq!(save.base.get_item(Item(0)), Some(&0));

    assert_eq!(save.base.boxes.len(), 18);
    let box0 = save.base.get_box(0);
    let stray = box0.get_pkmn(2).unwrap();
    assert_eq!(stray.species(), Species(42));
    assert_eq!(stray.name().as_str(), "STRAY");
    assert!(stray.trainer().is_none());
    assert!(box0.get_pkmn(0).is_none());
    assert!(box0.get_pkmn(1).is_none());
    let box1 = save.base.get_box(1);
    assert!(box1.get_pkmn(2).is_none());
}

#[test]
fn box_names_decoded() {
    let save = read_save(synthetic_platinum_image()).unwrap();
    let first = save.base.boxes.into_iter().next().unwrap();
    assert_eq!(first.name(), "HOME");
}

#[test]
fn box_wallpaper_decoded() {
    let save = read_save(synthetic_platinum_image()).unwrap();
    let mut boxes = save.base.boxes.into_iter();
    let first = boxes.next().unwrap();
    let second = boxes.next().unwrap();
    assert_eq!(first.wallpaper(), 7);
    assert_eq!(second.wallpaper(), 0);
}

/// An image too short for the layout fails with the read error, whole.
#[test]
fn truncated_image_is_io_error() {
    assert!(matches!(read_save(vec![0u8; 100]), Err(DecodeError::Io)));
    let mut img = synthetic_platinum_image();
    img.truncate(PT_LEN - 1);
    assert!(matches!(read_save(img), Err(DecodeError::Io)));
}

/// A gender byte outside its closed set fails with the field error.
#[test]
fn undefined_gender_is_invalid_field() {
    let mut img = synthetic_platinum_image();
    img[0x80] = 5;
    assert!(matches!(read_save(img), Err(DecodeError::InvalidField)));
}

/// The gender check comes before the later blocks are read: an image long
/// enough for the trainer block but short of the box block reports the
/// undefined gender, not the read failure; one too short to reach the gender
/// byte reports the read failure.
#[test]
fn error_precedence() {
    let mut img = vec![0u8; 0x1000];
    img[0x80] = 7;
    assert!(matches!(read_save(img), Err(DecodeError::InvalidField)));

    let img = vec![7u8; 0x50];
    assert!(matches!(read_save(img), Err(DecodeError::Io)));
}

// Offsets of the earlier-revision layout.
const DP_LEN: usize = 127158;
const DP_PARTY: usize = 0x64;
const DP_BOX_DATA: usize = 0xCEF0 + 4;

/// The earlier two-game layout decodes through the same driver under its own
/// schema: 32-bit timestamps and shifted offsets.
#[test]
fn end_to_end_diamond_pearl() {
    let mut img = vec![0u8; DP_LEN];
    put32(&mut img, 0x00, 1_200_000_000);
    put32(&mut img, 0x04, 1_300_000_000);
    put_units(&mut img, 0x2C, &encode_units("DAWN", 8));
    put16(&mut img, 0x2C + 16, 77);
    put16(&mut img, 0x2C + 18, 88);
    put32(&mut img, 0x2C + 20, 1234);
    img[0x2C + 24] = 0;

    let empty_party = encrypt_pokemon_blob(&vec![0u8; 236]);
    for slot in 0..6 {
        img[DP_PARTY + slot * 236..DP_PARTY + (slot + 1) * 236].copy_from_slice(&empty_party);
    }
    let empty_box = encrypt_pokemon_blob(&vec![0u8; 136]);
    for slot in 0..18 * 30 {
        img[DP_BOX_DATA + slot * 136..DP_BOX_DATA + (slot + 1) * 136].copy_from_slice(&empty_box);
    }
    let member = encrypt_pokemon_blob(&plain_record(236, 0x2222, 7, 0, 77, 88, "SQUIRT"));
    img[DP_PARTY..DP_PARTY + 236].copy_from_slice(&member);

    let save = read_save_diamond_pearl(img).unwrap();
    assert_eq!(save.save_started.epoch_seconds(), 1_200_000_000);
    assert_eq!(save.hall_of_fame_entered.epoch_seconds(), 1_300_000_000);
    let trainer = save.base.trainer();
    assert_eq!(trainer.name().as_str(), "DAWN");
    assert!(matches!(trainer.gender(), Gender::Male));
    assert_eq!(save.base.money(), 1234);
    assert_eq!(save.base.party.len(), 1);
    assert_eq!(save.base.party[0].species(), Species(7));
    assert_eq!(save.base.party[0].trainer().as_ref().map(|t| t.id()), Some(77));
}
