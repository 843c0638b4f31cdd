use pokerus::model::{Box, Gender, Item, Pokemon, SaveFile, Species, Trainer};
use pokerus::time::Timestamp;

fn sample_trainer() -> Trainer {
    Trainer::new("Trainer".to_string(), 123, Some(456), Gender::Female)
}

#[test]
fn trainer_fields() {
    let t = sample_trainer();
    assert_eq!(t.name().as_str(), "Trainer");
    assert_eq!(t.id(), 123);
    assert_eq!(t.secret_id(), Some(456));
    assert!(matches!(t.gender(), Gender::Female));
}

#[test]
fn pokemon_new_defaults() {
    let pkmn = Pokemon::new(Species::from(393));
    assert_eq!(pkmn.species(), Species(393));
    assert_eq!(pkmn.name().as_str(), "");
    assert!(pkmn.trainer().is_none());
    assert_eq!(pkmn.held_item(), Item(0));
    assert_eq!(pkmn.experience(), 0);
    assert_eq!(pkmn.friendship(), 0);
}

#[test]
fn pokemon_setters() {
    let mut pkmn = Pokemon::new(Species::from(393));
    pkmn.set_name("PIPLUP".to_string());
    pkmn.set_held_item(Item::from(17));
    pkmn.set_original_trainer(123, 456);
    pkmn.set_trainer(sample_trainer());
    assert_eq!(pkmn.name().as_str(), "PIPLUP");
    assert_eq!(pkmn.held_item(), Item(17));
    assert_eq!(pkmn.ot_id(), 123);
    assert_eq!(pkmn.ot_secret_id(), 456);
    assert_eq!(pkmn.trainer().as_ref().map(|t| t.id()), Some(123));
}

/// Setting a quantity overwrites; adding accumulates; an absent item is
/// initialized rather than erroring.
#[test]
fn inventory_set_and_add() {
    let mut save_file = SaveFile::new(sample_trainer(), 0);
    let master_ball = Item::from(1);

    assert!(!save_file.has_item(master_ball));
    assert_eq!(save_file.get_item(master_ball), None);

    save_file.add_item(master_ball, 10);
    assert_eq!(save_file.get_item(master_ball), Some(&10));

    save_file.add_item(master_ball, 100);
    assert_eq!(save_file.get_item(master_ball), Some(&110));

    save_file.set_item(master_ball, 7);
    assert_eq!(save_file.get_item(master_ball), Some(&7));
    assert!(save_file.has_item(master_ball));
}

#[test]
fn box_slots_are_sparse() {
    let mut pkmn_box = Box::new(30);
    assert!(pkmn_box.get_pkmn(0).is_none());
    assert!(pkmn_box.get_pkmn(29).is_none());
    assert!(pkmn_box.get_pkmn(30).is_none());

    pkmn_box.set_pkmn(3, Pokemon::new(Species::from(42)));
    assert_eq!(pkmn_box.get_pkmn(3).map(|p| p.species()), Some(Species(42)));
    assert!(pkmn_box.get_pkmn(2).is_none());
    assert!(pkmn_box.get_pkmn(4).is_none());
}

#[test]
fn box_name_and_wallpaper() {
    let mut pkmn_box = Box::new(30);
    pkmn_box.set_name("HOME".to_string());
    pkmn_box.set_wallpaper(9);
    let slots = {
        let mut b2 = Box::new(30);
        b2.set_pkmn(0, Pokemon::new(Species::from(1)));
        b2.pkmn()
    };
    assert_eq!(slots.len(), 30);
    assert!(slots[0].is_some());
    assert!(slots[1].is_none());
    assert_eq!(pkmn_box.wallpaper(), 9);
}

#[test]
fn box_name_consumes() {
    let mut pkmn_box = Box::new(30);
    pkmn_box.set_name("HOME".to_string());
    assert_eq!(pkmn_box.name(), "HOME");
}

#[test]
fn save_file_boxes_access() {
    let mut save_file = SaveFile::new(sample_trainer(), 5);
    assert_eq!(save_file.money(), 5);
    assert_eq!(save_file.trainer().id(), 123);
    let mut b = Box::new(30);
    b.set_wallpaper(4);
    save_file.boxes.push(b);
    assert_eq!(save_file.get_box(0).get_pkmn(0).is_none(), true);
    assert_eq!(save_file.boxes.len(), 1);
}

/// The epoch origin and a documented value both convert to the expected
/// calendar date; a wildly out-of-range count converts to nothing.
#[test]
fn timestamp_civil_conversion() {
    let civil = Timestamp(0).civil().unwrap();
    assert_eq!(
        (civil.year, civil.month, civil.day, civil.hour, civil.minute, civil.second),
        (1970, 1, 1, 0, 0, 0)
    );
    let civil = Timestamp(1_431_648_000).civil().unwrap();
    assert_eq!(
        (civil.year, civil.month, civil.day, civil.hour, civil.minute, civil.second),
        (2015, 5, 15, 0, 0, 0)
    );
    assert_eq!(Timestamp(0).epoch_seconds(), 0);
    assert!(Timestamp(i64::MAX).civil().is_none());
}
