//! The in-memory save model: trainer, creature, storage box, inventory and
//! the assembled save file.

use vstd::prelude::*;
use std::collections::HashMap;
use crate::time::Timestamp;

verus! {

broadcast use vstd::std_specs::hash::group_hash_axioms;

/// A species identifier as stored in a record: a raw value wrapped in a
/// closed tag with a total, panic-free conversion. A value of zero denotes
/// an empty slot.
#[derive(Clone, Copy, Debug, PartialEq, Eq, Structural)]
pub struct Species(pub u16);

impl From<u16> for Species {
    fn from(v: u16) -> (r: Species) {
        Species(v)
    }
}

impl vstd::std_specs::convert::FromSpecImpl<u16> for Species {
    open spec fn obeys_from_spec() -> bool {
        true
    }

    open spec fn from_spec(v: u16) -> Species {
        Species(v)
    }
}

/// An item identifier, wrapped like [`Species`].
#[derive(Clone, Copy, Debug, PartialEq, Eq, Structural)]
pub struct Item(pub u16);

impl From<u16> for Item {
    fn from(v: u16) -> (r: Item) {
        Item(v)
    }
}

impl vstd::std_specs::convert::FromSpecImpl<u16> for Item {
    open spec fn obeys_from_spec() -> bool {
        true
    }

    open spec fn from_spec(v: u16) -> Item {
        Item(v)
    }
}

/// The region/language tag stored as a single byte of the player block.
#[derive(Clone, Copy, Debug, PartialEq, Eq, Structural)]
pub struct Locale(pub u8);

impl From<u8> for Locale {
    fn from(v: u8) -> (r: Locale) {
        Locale(v)
    }
}

impl vstd::std_specs::convert::FromSpecImpl<u8> for Locale {
    open spec fn obeys_from_spec() -> bool {
        true
    }

    open spec fn from_spec(v: u8) -> Locale {
        Locale(v)
    }
}

/// The bitmask of earned badges, stored as a single byte.
#[derive(Clone, Copy, Debug, PartialEq, Eq, Structural)]
pub struct Badges(pub u8);

impl From<u8> for Badges {
    fn from(v: u8) -> (r: Badges) {
        Badges(v)
    }
}

impl vstd::std_specs::convert::FromSpecImpl<u8> for Badges {
    open spec fn obeys_from_spec() -> bool {
        true
    }

    open spec fn from_spec(v: u8) -> Badges {
        Badges(v)
    }
}

/// A trainer's gender: the save stores it as a byte whose only defined
/// values are 0 (male) and 1 (female).
#[derive(Clone, Copy, Debug, PartialEq, Eq, Structural)]
pub enum Gender {
    Male,
    Female,
}

/// The mathematical value of a [`Trainer`].
#[verifier::ext_equal]
pub ghost struct TrainerView {
    pub name: Seq<char>,
    pub id: u16,
    pub secret_id: Option<u16>,
    pub gender: Gender,
}

/// A trainer.
///
/// Depending on the context, not all the information of a trainer can be
/// recovered from a save file, so the secret id is optional.
#[derive(Debug)]
pub struct Trainer {
    name: String,
    id: u16,
    secret_id: Option<u16>,
    gender: Gender,
}

impl View for Trainer {
    type V = TrainerView;

    closed spec fn view(&self) -> TrainerView {
        TrainerView {
            name: self.name@,
            id: self.id,
            secret_id: self.secret_id,
            gender: self.gender,
        }
    }
}

impl Clone for Trainer {
    fn clone(&self) -> (r: Trainer)
        ensures
            r@ == self@,
    {
        Trainer {
            name: self.name.clone(),
            id: self.id,
            secret_id: self.secret_id,
            gender: self.gender,
        }
    }
}

impl Trainer {
    /// Builds a trainer from its fields.
    pub fn new(name: String, id: u16, secret_id: Option<u16>, gender: Gender) -> (t: Trainer)
        ensures
            t@.name == name@,
            t@.id == id,
            t@.secret_id == secret_id,
            t@.gender == gender,
    {
        Trainer { name, id, secret_id, gender }
    }

    /// The trainer's display name.
    pub fn name(&self) -> (r: &String)
        ensures
            r@ == self@.name,
    {
        &self.name
    }

    /// The trainer's public id.
    pub fn id(&self) -> (r: u16)
        ensures
            r == self@.id,
    {
        self.id
    }

    /// The trainer's secret id, when the reading context recovered it.
    pub fn secret_id(&self) -> (r: Option<u16>)
        ensures
            r == self@.secret_id,
    {
        self.secret_id
    }

    /// The trainer's gender.
    pub fn gender(&self) -> (r: Gender)
        ensures
            r == self@.gender,
    {
        self.gender
    }
}

/// The mathematical value of a [`Pokemon`].
#[verifier::ext_equal]
pub ghost struct PokemonView {
    pub name: Seq<char>,
    pub species: Species,
    pub held_item: Item,
    pub ot_id: u16,
    pub ot_secret_id: u16,
    pub trainer: Option<TrainerView>,
    pub experience: u32,
    pub friendship: u8,
}

/// The value of an optional creature slot.
pub open spec fn view_opt_pokemon(o: Option<Pokemon>) -> Option<PokemonView> {
    match o {
        Some(p) => Some(p@),
        None => None,
    }
}

/// A generic, non-generation-specific creature record.
///
/// The owning-trainer field is set only when the original-trainer id and
/// secret id stored in the record both match the current save's trainer.
#[derive(Debug)]
pub struct Pokemon {
    name: String,
    species: Species,
    held_item: Item,
    ot_id: u16,
    ot_secret_id: u16,
    trainer: Option<Trainer>,
    experience: u32,
    friendship: u8,
}

impl View for Pokemon {
    type V = PokemonView;

    closed spec fn view(&self) -> PokemonView {
        PokemonView {
            name: self.name@,
            species: self.species,
            held_item: self.held_item,
            ot_id: self.ot_id,
            ot_secret_id: self.ot_secret_id,
            trainer: match self.trainer {
                Some(t) => Some(t@),
                None => None,
            },
            experience: self.experience,
            friendship: self.friendship,
        }
    }
}

impl Pokemon {
    /// A fresh creature of the given species: no name, no owner, no held
    /// item, zero experience and friendship.
    pub fn new(species: Species) -> (p: Pokemon)
        ensures
            p@.name == Seq::<char>::empty(),
            p@.species == species,
            p@.held_item == Item(0),
            p@.ot_id == 0,
            p@.ot_secret_id == 0,
            p@.trainer is None,
            p@.experience == 0,
            p@.friendship == 0,
    {
        let p = Pokemon {
            name: String::new(),
            species,
            held_item: Item(0),
            ot_id: 0,
            ot_secret_id: 0,
            trainer: None,
            experience: 0,
            friendship: 0,
        };
        proof {
            assert(p@.name =~= Seq::<char>::empty());
        }
        p
    }

    /// Marks the creature as owned by `trainer`.
    pub fn set_trainer(&mut self, trainer: Trainer)
        ensures
            final(self)@ == (PokemonView { trainer: Some(trainer@), ..old(self)@ }),
    {
        self.trainer = Some(trainer);
    }

    /// Replaces the creature's display name.
    pub fn set_name(&mut self, name: String)
        ensures
            final(self)@ == (PokemonView { name: name@, ..old(self)@ }),
    {
        self.name = name;
    }

    /// Replaces the held-item identifier.
    pub fn set_held_item(&mut self, item: Item)
        ensures
            final(self)@ == (PokemonView { held_item: item, ..old(self)@ }),
    {
        self.held_item = item;
    }

    /// Records the original-trainer id pair stored in the record.
    pub fn set_original_trainer(&mut self, id: u16, secret_id: u16)
        ensures
            final(self)@ == (PokemonView { ot_id: id, ot_secret_id: secret_id, ..old(self)@ }),
    {
        self.ot_id = id;
        self.ot_secret_id = secret_id;
    }

    /// The creature's display name.
    pub fn name(&self) -> (r: &String)
        ensures
            r@ == self@.name,
    {
        &self.name
    }

    /// The creature's species tag.
    pub fn species(&self) -> (r: Species)
        ensures
            r == self@.species,
    {
        self.species
    }

    /// The creature's held-item tag.
    pub fn held_item(&self) -> (r: Item)
        ensures
            r == self@.held_item,
    {
        self.held_item
    }

    /// The original-trainer id stored in the record.
    pub fn ot_id(&self) -> (r: u16)
        ensures
            r == self@.ot_id,
    {
        self.ot_id
    }

    /// The original-trainer secret id stored in the record.
    pub fn ot_secret_id(&self) -> (r: u16)
        ensures
            r == self@.ot_secret_id,
    {
        self.ot_secret_id
    }

    /// The owning trainer, present only when the record's original-trainer
    /// ids matched the current save's trainer.
    pub fn trainer(&self) -> (r: &Option<Trainer>)
        ensures
            r is Some <==> self@.trainer is Some,
            r matches Some(t) ==> self@.trainer == Some(t@),
    {
        &self.trainer
    }

    /// The creature's experience points.
    pub fn experience(&self) -> (r: u32)
        ensures
            r == self@.experience,
    {
        self.experience
    }

    /// The creature's friendship value.
    pub fn friendship(&self) -> (r: u8)
        ensures
            r == self@.friendship,
    {
        self.friendship
    }
}

/// The mathematical value of a [`Box`]: a fixed-length sequence of optional
/// slots, where an absent creature is a hole, not a placeholder.
#[verifier::ext_equal]
pub ghost struct BoxView {
    pub name: Seq<char>,
    pub slots: Seq<Option<PokemonView>>,
    pub wallpaper: u8,
}

/// A storage box: a fixed-capacity sparse mapping from slot index to
/// creature, with a display name and a wallpaper identifier.
///
/// The slot count is fixed at construction and never resized.
#[derive(Debug)]
pub struct Box {
    name: String,
    slots: Vec<Option<Pokemon>>,
    wallpaper: u8,
}

impl View for Box {
    type V = BoxView;

    closed spec fn view(&self) -> BoxView {
        BoxView {
            name: self.name@,
            slots: self.slots@.map_values(|s: Option<Pokemon>| view_opt_pokemon(s)),
            wallpaper: self.wallpaper,
        }
    }
}

impl Box {
    /// An empty box of `box_size` slots, all holes.
    pub fn new(box_size: usize) -> (b: Box)
        ensures
            b@.name == Seq::<char>::empty(),
            b@.slots.len() == box_size,
            forall|i: int| 0 <= i < box_size ==> b@.slots[i] is None,
            b@.wallpaper == 0,
    {
        let mut slots: Vec<Option<Pokemon>> = Vec::new();
        let mut i: usize = 0;
        while i < box_size
            invariant
                i <= box_size,
                slots@.len() == i,
                forall|j: int| 0 <= j < i ==> slots@[j] is None,
            decreases box_size - i,
        {
            slots.push(None);
            i = i + 1;
        }
        let b = Box { name: String::new(), slots, wallpaper: 0 };
        proof {
            assert(b@.name =~= Seq::<char>::empty());
            assert(b@.slots.len() == box_size);
        }
        b
    }

    /// Puts a creature into slot `index`, replacing whatever was there.
    pub fn set_pkmn(&mut self, index: usize, pokemon: Pokemon)
        requires
            index < old(self)@.slots.len(),
        ensures
            final(self)@.slots == old(self)@.slots.update(index as int, Some(pokemon@)),
            final(self)@.name == old(self)@.name,
            final(self)@.wallpaper == old(self)@.wallpaper,
    {
        self.slots[index] = Some(pokemon);
        proof {
            assert(final(self)@.slots =~= old(self)@.slots.update(index as int, Some(pokemon@)));
        }
    }

    /// The creature in slot `index`, or nothing for a hole or an index
    /// beyond the box's capacity.
    pub fn get_pkmn(&self, index: usize) -> (r: Option<&Pokemon>)
        ensures
            r is Some <==> index < self@.slots.len() && self@.slots[index as int] is Some,
            r matches Some(p) ==> self@.slots[index as int] == Some(p@),
    {
        if index < self.slots.len() {
            match &self.slots[index] {
                Some(p) => Some(p),
                None => None,
            }
        } else {
            None
        }
    }

    /// Replaces the box's display name.
    pub fn set_name(&mut self, name: String)
        ensures
            final(self)@ == (BoxView { name: name@, ..old(self)@ }),
    {
        self.name = name;
    }

    /// The box's display name.
    pub fn name(self) -> (r: String)
        ensures
            r@ == self@.name,
    {
        self.name
    }

    /// The box's slots, holes included.
    pub fn pkmn(self) -> (r: Vec<Option<Pokemon>>)
        ensures
            self@.slots == r@.map_values(|s: Option<Pokemon>| view_opt_pokemon(s)),
    {
        self.slots
    }

    /// Replaces the box's wallpaper identifier.
    pub fn set_wallpaper(&mut self, wallpaper: u8)
        ensures
            final(self)@ == (BoxView { wallpaper: wallpaper, ..old(self)@ }),
    {
        self.wallpaper = wallpaper;
    }

    /// The box's wallpaper identifier.
    pub fn wallpaper(self) -> (r: u8)
        ensures
            r == self@.wallpaper,
    {
        self.wallpaper
    }
}

/// The quantity an inventory holds of an item id; ids not present in the
/// mapping imply quantity zero.
pub open spec fn bag_qty(inv: Map<u16, u16>, id: u16) -> u16 {
    if inv.contains_key(id) {
        inv[id]
    } else {
        0
    }
}

/// The mathematical value of a [`SaveFile`].
#[verifier::ext_equal]
pub ghost struct SaveFileView {
    pub trainer: TrainerView,
    pub money: u32,
    pub party: Seq<PokemonView>,
    pub inventory: Map<u16, u16>,
    pub boxes: Seq<BoxView>,
}

/// A generic, non-generation-specific save file: the trainer, their money,
/// the ordered party, the inventory and the storage boxes.
#[derive(Debug)]
pub struct SaveFile {
    trainer: Trainer,
    money: u32,
    /// The ordered party, empty slots omitted; never more than six.
    pub party: Vec<Pokemon>,
    inventory: HashMap<u16, u16>,
    /// The storage boxes in image order.
    pub boxes: Vec<Box>,
}

impl View for SaveFile {
    type V = SaveFileView;

    closed spec fn view(&self) -> SaveFileView {
        SaveFileView {
            trainer: self.trainer@,
            money: self.money,
            party: self.party@.map_values(|p: Pokemon| p@),
            inventory: self.inventory@,
            boxes: self.boxes@.map_values(|b: Box| b@),
        }
    }
}

impl SaveFile {
    /// A save file for `trainer` holding `money`, with an empty party, an
    /// empty inventory and no boxes.
    pub fn new(trainer: Trainer, money: u32) -> (s: SaveFile)
        ensures
            s@.trainer == trainer@,
            s@.money == money,
            s@.party == Seq::<PokemonView>::empty(),
            s@.inventory == Map::<u16, u16>::empty(),
            s@.boxes == Seq::<BoxView>::empty(),
    {
        let s = SaveFile {
            trainer,
            money,
            party: Vec::new(),
            inventory: HashMap::new(),
            boxes: Vec::new(),
        };
        proof {
            assert(s@.party =~= Seq::<PokemonView>::empty());
            assert(s@.boxes =~= Seq::<BoxView>::empty());
        }
        s
    }

    /// The save's trainer.
    pub fn trainer(&self) -> (r: &Trainer)
        ensures
            r@ == self@.trainer,
    {
        &self.trainer
    }

    /// The trainer's money.
    pub fn money(&self) -> (r: u32)
        ensures
            r == self@.money,
    {
        self.money
    }

    /// Sets the quantity of `item` in the save's inventory, initializing the
    /// entry if the item was absent.
    pub fn set_item(&mut self, item: Item, qty: u16)
        ensures
            final(self)@ == (SaveFileView {
                inventory: old(self)@.inventory.insert(item.0, qty),
                ..old(self)@
            }),
    {
        self.inventory.insert(item.0, qty);
    }

    /// Adds `qty` of `item` to the save's inventory, initializing the entry
    /// if the item was absent rather than erroring.
    pub fn add_item(&mut self, item: Item, qty: u16)
        requires
            bag_qty(old(self)@.inventory, item.0) + qty <= u16::MAX,
        ensures
            final(self)@ == (SaveFileView {
                inventory: old(self)@.inventory.insert(
                    item.0,
                    (bag_qty(old(self)@.inventory, item.0) + qty) as u16,
                ),
                ..old(self)@
            }),
    {
        let qty = match self.inventory.get(&item.0) {
            Some(old_qty) => qty + *old_qty,
            None => qty,
        };
        self.inventory.insert(item.0, qty);
    }

    /// The quantity of `item` in the inventory, or nothing for an item that
    /// was never added.
    pub fn get_item(&self, item: Item) -> (r: Option<&u16>)
        ensures
            r is Some <==> self@.inventory.contains_key(item.0),
            r matches Some(q) ==> *q == self@.inventory[item.0],
    {
        self.inventory.get(&item.0)
    }

    /// Whether the inventory has an entry for `item`.
    pub fn has_item(&self, item: Item) -> (r: bool)
        ensures
            r == self@.inventory.contains_key(item.0),
    {
        self.inventory.contains_key(&item.0)
    }

    /// Appends a creature to the ordered party.
    pub fn push_party(&mut self, pokemon: Pokemon)
        ensures
            final(self)@ == (SaveFileView {
                party: old(self)@.party.push(pokemon@),
                ..old(self)@
            }),
    {
        let ghost before = self.party@;
        self.party.push(pokemon);
        proof {
            assert(self@.party =~= before.map_values(|p: Pokemon| p@).push(
                self.party@[before.len() as int]@,
            ));
        }
    }

    /// Appends a box after the ones already decoded.
    pub fn push_box(&mut self, b: Box)
        ensures
            final(self)@ == (SaveFileView { boxes: old(self)@.boxes.push(b@), ..old(self)@ }),
    {
        let ghost before = self.boxes@;
        self.boxes.push(b);
        proof {
            assert(self@.boxes =~= before.map_values(|x: Box| x@).push(
                self.boxes@[before.len() as int]@,
            ));
        }
    }

    /// Replaces the save's storage boxes with fully decoded ones.
    pub fn set_boxes(&mut self, boxes: Vec<Box>)
        ensures
            final(self)@ == (SaveFileView {
                boxes: boxes@.map_values(|b: Box| b@),
                ..old(self)@
            }),
    {
        self.boxes = boxes;
    }

    /// The box at `box_index` in image order.
    pub fn get_box(&self, box_index: usize) -> (r: &Box)
        requires
            box_index < self@.boxes.len(),
        ensures
            r@ == self@.boxes[box_index as int],
    {
        &self.boxes[box_index]
    }
}

/// The mathematical value of a [`GenSave`].
#[verifier::ext_equal]
pub ghost struct GenSaveView {
    pub save_started: i64,
    pub hall_of_fame_entered: i64,
    pub base: SaveFileView,
    pub locale: Locale,
    pub badges: Badges,
}

/// The version-tagged wrapper a decode produces: the embedded save file plus
/// the save-start and hall-of-fame timestamps, the locale and the badge
/// bitmask.
#[derive(Debug)]
pub struct GenSave {
    /// When the save was started.
    pub save_started: Timestamp,
    /// When the hall of fame was first entered.
    pub hall_of_fame_entered: Timestamp,
    /// The decoded save file.
    pub base: SaveFile,
    /// The save's region/language tag.
    pub locale: Locale,
    /// The badge bitmask.
    pub badges: Badges,
}

impl View for GenSave {
    type V = GenSaveView;

    open spec fn view(&self) -> GenSaveView {
        GenSaveView {
            save_started: self.save_started.0,
            hall_of_fame_entered: self.hall_of_fame_entered.0,
            base: self.base@,
            locale: self.locale,
            badges: self.badges,
        }
    }
}

} // verus!
