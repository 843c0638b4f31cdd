//! The decode driver: walks a layout schema over a save image, reading
//! scalar fields through the primitive reader, decrypting each creature blob
//! and assembling the in-memory model.
//!
//! The whole decode either succeeds or fails atomically: the first seek or
//! read beyond the image bounds aborts it with [`DecodeError::Io`], and an
//! undefined gender code aborts it with [`DecodeError::InvalidField`]. No
//! partial result is ever returned.

use vstd::prelude::*;
use crate::DecodeError;
use crate::cipher::{decrypt_pokemon_blob, is_blob_len, spec_decrypt};
use crate::model::{
    Badges, BoxView, Gender, GenSave, GenSaveView, Item, Locale, Pokemon, PokemonView, SaveFile,
    SaveFileView, Species, Trainer, TrainerView, bag_qty, view_opt_pokemon,
};
use crate::model;
use crate::reader::{Reader, le16_at, le32_at, read_le16, units_at};
use crate::schema::{BOX_SLOTS, PARTY_SLOTS, Schema, TimeWidth};
use crate::text;
use crate::time::Timestamp;

verus! {

/// The sub-fields of the 16-bit options word, each already shifted down to
/// its own range.
#[derive(Clone, Copy, Debug, PartialEq, Eq, Structural)]
pub struct Options {
    /// The menu frame style, bits 10–13.
    pub frame: u16,
    /// The button mode, bits 8–9.
    pub button_mode: u16,
    /// The battle-scene flag, bit 7.
    pub battle_scene: u16,
    /// The battle-style flag, bit 6.
    pub battle_style: u16,
    /// The sound mode, bits 4–5.
    pub sound_mode: u16,
    /// The text speed, bits 0–3.
    pub text_speed: u16,
}

impl Options {
    /// Decomposes the stored options word by the documented masks and
    /// shifts.
    pub fn from_raw(options: u16) -> (r: Options)
        ensures
            r.frame == (options & 0b0_1111_00_0_0_00_0000) >> 10,
            r.button_mode == (options & 0b0_0000_11_0_0_00_0000) >> 8,
            r.battle_scene == (options & 0b0_0000_00_1_0_00_0000) >> 7,
            r.battle_style == (options & 0b0_0000_00_0_1_00_0000) >> 6,
            r.sound_mode == (options & 0b0_0000_00_0_0_11_0000) >> 4,
            r.text_speed == options & 0b0_0000_00_0_0_00_1111,
    {
        Options {
            frame: (options & 0b0_1111_00_0_0_00_0000) >> 10,
            button_mode: (options & 0b0_0000_11_0_0_00_0000) >> 8,
            battle_scene: (options & 0b0_0000_00_1_0_00_0000) >> 7,
            battle_style: (options & 0b0_0000_00_0_1_00_0000) >> 6,
            sound_mode: (options & 0b0_0000_00_0_0_11_0000) >> 4,
            text_speed: options & 0b0_0000_00_0_0_00_1111,
        }
    }
}

/// The byte width of one stored timestamp.
pub open spec fn time_width_bytes(w: TimeWidth) -> int {
    match w {
        TimeWidth::Seconds32 => 4,
        TimeWidth::Seconds64 => 8,
    }
}

/// The timestamp stored at offset `at`: a 64-bit second count read whole, or
/// a 32-bit one zero-extended.
pub open spec fn stamp_at(s: Seq<u8>, at: int, w: TimeWidth) -> i64 {
    match w {
        TimeWidth::Seconds32 => le32_at(s, at) as i64,
        TimeWidth::Seconds64 => crate::reader::le_i64_at(s, at),
    }
}

/// The raw gender byte of the image under a schema.
pub open spec fn spec_gender_raw(img: Seq<u8>, s: Schema) -> u8 {
    img[s.gender_at()]
}

/// Whether the stored gender byte lies in its closed set {0, 1}.
pub open spec fn spec_gender_ok(img: Seq<u8>, s: Schema) -> bool {
    spec_gender_raw(img, s) == 0 || spec_gender_raw(img, s) == 1
}

/// The trainer the image stores under a schema.
pub open spec fn spec_trainer(img: Seq<u8>, s: Schema) -> TrainerView {
    TrainerView {
        name: text::decoded(units_at(img, s.trainer_at as int, 8)),
        id: le16_at(img, s.trainer_at + 16),
        secret_id: Some(le16_at(img, s.trainer_at + 18)),
        gender: if spec_gender_raw(img, s) == 0 {
            Gender::Male
        } else {
            Gender::Female
        },
    }
}

/// The creature a decrypted blob holds: nothing when its species field is
/// zero (an empty slot is skipped, not zero-filled), else the parsed record,
/// owned by `tr` exactly when both stored original-trainer ids match the
/// current save's.
pub open spec fn spec_creature(dec: Seq<u8>, tid: u16, sid: u16, tr: TrainerView) -> Option<
    PokemonView,
> {
    if le16_at(dec, 8) == 0 {
        None
    } else {
        Some(
            PokemonView {
                name: text::decoded(units_at(dec, 0x48, 20)),
                species: Species(le16_at(dec, 8)),
                held_item: Item(le16_at(dec, 10)),
                ot_id: le16_at(dec, 12),
                ot_secret_id: le16_at(dec, 14),
                trainer: if le16_at(dec, 12) == tid && le16_at(dec, 14) == sid {
                    Some(tr)
                } else {
                    None
                },
                experience: 0,
                friendship: 0,
            },
        )
    }
}

/// The creature decoded from the `size`-byte encrypted slot at offset `at`.
pub open spec fn spec_slot(
    img: Seq<u8>,
    at: int,
    size: int,
    tid: u16,
    sid: u16,
    tr: TrainerView,
) -> Option<PokemonView> {
    spec_creature(spec_decrypt(img.subrange(at, at + size)), tid, sid, tr)
}

/// The party decoded from the first `k` party slots, in slot order, empty
/// slots omitted.
pub open spec fn spec_party(
    img: Seq<u8>,
    at: int,
    k: int,
    tid: u16,
    sid: u16,
    tr: TrainerView,
) -> Seq<PokemonView>
    decreases k,
{
    if k <= 0 {
        Seq::empty()
    } else {
        let rest = spec_party(img, at, k - 1, tid, sid, tr);
        match spec_slot(img, at + (k - 1) * 236, 236, tid, sid, tr) {
            Some(p) => rest.push(p),
            None => rest,
        }
    }
}

/// The 30 slots of the box whose blob data begins at `at`, holes kept.
pub open spec fn spec_box_slots(img: Seq<u8>, at: int, tid: u16, sid: u16, tr: TrainerView) -> Seq<
    Option<PokemonView>,
> {
    Seq::new(BOX_SLOTS as nat, |j: int| spec_slot(img, at + j * 136, 136, tid, sid, tr))
}

/// The `i`-th storage box the image stores under a schema.
pub open spec fn spec_box(img: Seq<u8>, s: Schema, i: int) -> BoxView {
    let tr = spec_trainer(img, s);
    BoxView {
        name: text::decoded(units_at(img, s.box_names_at() + i * 40, 20)),
        slots: spec_box_slots(
            img,
            s.box_data_at() + i * (BOX_SLOTS * 136),
            tr.id,
            le16_at(img, s.trainer_at + 18),
            tr,
        ),
        wallpaper: img[s.box_walls_at() + i],
    }
}

/// One item pair folded into the inventory: quantities of one id accumulate
/// modulo 2^16, and an absent id counts as zero.
pub open spec fn bag_insert(m: Map<u16, u16>, id: u16, qty: u16) -> Map<u16, u16> {
    m.insert(id, ((bag_qty(m, id) + qty) % 0x1_0000) as u16)
}

/// The inventory accumulated from the first `k` id/quantity pairs at `at`.
pub open spec fn spec_bag(img: Seq<u8>, at: int, k: int) -> Map<u16, u16>
    decreases k,
{
    if k <= 0 {
        Map::empty()
    } else {
        bag_insert(
            spec_bag(img, at, k - 1),
            le16_at(img, at + 4 * (k - 1)),
            le16_at(img, at + 4 * (k - 1) + 2),
        )
    }
}

/// Everything a successful decode of `img` under schema `s` returns.
pub open spec fn spec_gen_save(img: Seq<u8>, s: Schema) -> GenSaveView {
    let tr = spec_trainer(img, s);
    GenSaveView {
        save_started: stamp_at(img, s.start_date_at as int, s.time_width),
        hall_of_fame_entered: stamp_at(img, s.hof_at(), s.time_width),
        base: SaveFileView {
            trainer: tr,
            money: le32_at(img, s.trainer_at + 20),
            party: spec_party(
                img,
                s.party_at as int,
                PARTY_SLOTS as int,
                tr.id,
                le16_at(img, s.trainer_at + 18),
                tr,
            ),
            inventory: spec_bag(img, s.bag_at as int, s.bag_entries as int),
            boxes: Seq::new(s.box_count as nat, |i: int| spec_box(img, s, i)),
        },
        locale: Locale(img[s.trainer_at + 25]),
        badges: Badges(img[s.trainer_at + 26]),
    }
}

/// Reads one timestamp of the schema's width, zero-extending a 32-bit one.
fn read_stamp(rd: &mut Reader, width: TimeWidth) -> (r: Result<i64, DecodeError>)
    requires
        old(rd).wf(),
    ensures
        final(rd).wf(),
        final(rd).data() == old(rd).data(),
        old(rd).pos() + time_width_bytes(width) <= old(rd).data().len() ==> (r == Ok::<
            i64,
            DecodeError,
        >(stamp_at(old(rd).data(), old(rd).pos(), width)) && final(rd).pos() == old(rd).pos()
            + time_width_bytes(width)),
        old(rd).pos() + time_width_bytes(width) > old(rd).data().len() ==> (r == Err::<
            i64,
            DecodeError,
        >(DecodeError::Io) && final(rd).pos() == old(rd).pos()),
{
    match width {
        TimeWidth::Seconds32 => {
            match rd.read_u32() {
                Ok(v) => Ok(v as i64),
                Err(e) => Err(e),
            }
        },
        TimeWidth::Seconds64 => rd.read_i64(),
    }
}

/// Parses one decrypted record into a creature.
///
/// A record whose species field is zero denotes an empty slot: nothing is
/// returned and no further field of it is read. Otherwise the creature
/// carries the decoded name, species, held item and original-trainer ids,
/// and is attributed to `trainer` exactly when both stored ids equal the
/// current save's `trainer_id` and `trainer_secret_id` — that comparison is
/// the only ownership rule.
pub fn parse_creature(
    dec: &Vec<u8>,
    trainer_id: u16,
    trainer_secret_id: u16,
    trainer: &Trainer,
) -> (r: Option<Pokemon>)
    requires
        is_blob_len(dec@.len() as int),
    ensures
        r is None <==> le16_at(dec@, 8) == 0,
        view_opt_pokemon(r) == spec_creature(dec@, trainer_id, trainer_secret_id, trainer@),
{
    let species_raw = read_le16(dec, 8);
    if species_raw == 0 {
        return None;
    }
    let held_item = read_le16(dec, 10);
    let original_trainer_id = read_le16(dec, 12);
    let original_secret_id = read_le16(dec, 14);
    let mut pkmn = Pokemon::new(Species::from(species_raw));
    pkmn.set_held_item(Item::from(held_item));
    pkmn.set_original_trainer(original_trainer_id, original_secret_id);
    let mut units: Vec<u16> = Vec::new();
    let mut j: usize = 0;
    while j < 20
        invariant
            j <= 20,
            is_blob_len(dec@.len() as int),
            units@.len() == j,
            forall|i: int| 0 <= i < j ==> units@[i] == le16_at(dec@, 0x48 + 2 * i),
        decreases 20 - j,
    {
        units.push(read_le16(dec, 0x48 + 2 * j));
        j = j + 1;
    }
    proof {
        assert(units@ =~= units_at(dec@, 0x48, 20));
    }
    let pokemon_name = text::decode_units(&units);
    pkmn.set_name(pokemon_name);
    if original_trainer_id == trainer_id && original_secret_id == trainer_secret_id {
        pkmn.set_trainer(trainer.clone());
    }
    proof {
        assert(pkmn@ =~= spec_creature(dec@, trainer_id, trainer_secret_id, trainer@)->Some_0);
    }
    Some(pkmn)
}
/// Reads the six party slots, decrypting each blob and appending every
/// non-empty creature to the party in slot order.
#[verifier::loop_isolation(false)]
fn read_party_block(
    rd: &mut Reader,
    base: &mut SaveFile,
    schema: &Schema,
    trainer: &Trainer,
    trainer_id: u16,
    trainer_secret_id: u16,
) -> (r: Result<(), DecodeError>)
    requires
        schema.wf(),
        old(rd).wf(),
        old(base)@.party == Seq::<PokemonView>::empty(),
    ensures
        final(rd).wf(),
        final(rd).data() == old(rd).data(),
        r is Ok <==> old(rd).data().len() >= schema.party_at + PARTY_SLOTS * 236,
        r is Ok ==> final(rd).pos() == schema.party_at + PARTY_SLOTS * 236 && final(base)@
            == (SaveFileView {
            party: spec_party(
                old(rd).data(),
                schema.party_at as int,
                PARTY_SLOTS as int,
                trainer_id,
                trainer_secret_id,
                trainer@,
            ),
            ..old(base)@
        }),
        r is Err ==> r == Err::<(), DecodeError>(DecodeError::Io),
{
    let ghost img = old(rd).data();
    let ghost s = *schema;
    rd.seek_abs(schema.party_at)?;
    let mut slot: usize = 0;
    while slot < PARTY_SLOTS
        invariant
            slot <= PARTY_SLOTS,
            rd.wf(),
            rd.data() == img,
            rd.pos() == s.party_at + slot * 236,
            base@ == (SaveFileView {
                party: spec_party(
                    img,
                    s.party_at as int,
                    slot as int,
                    trainer_id,
                    trainer_secret_id,
                    trainer@,
                ),
                ..old(base)@
            }),
        decreases PARTY_SLOTS - slot,
    {
        let buf = rd.read_bytes(236)?;
        let decrypted_blob = decrypt_pokemon_blob(&buf);
        match parse_creature(&decrypted_blob, trainer_id, trainer_secret_id, &trainer) {
            Some(pkmn) => base.push_party(pkmn),
            None => (),
        }
        slot = slot + 1;
        proof {
            assert(base@.party =~= spec_party(
                img,
                s.party_at as int,
                slot as int,
                trainer_id,
                trainer_secret_id,
                trainer@,
            ));
        }
    }
    Ok(())
}

/// Reads the item block: sequential id/quantity pairs, quantities of one id
/// accumulating modulo 2^16.
#[verifier::loop_isolation(false)]
fn read_bag_block(rd: &mut Reader, base: &mut SaveFile, schema: &Schema) -> (r: Result<
    (),
    DecodeError,
>)
    requires
        schema.wf(),
        old(rd).wf(),
        old(base)@.inventory == Map::<u16, u16>::empty(),
    ensures
        final(rd).wf(),
        final(rd).data() == old(rd).data(),
        r is Ok <==> old(rd).data().len() >= schema.bag_at + 4 * schema.bag_entries,
        r is Ok ==> final(rd).pos() == schema.bag_at + 4 * schema.bag_entries && final(base)@
            == (SaveFileView {
            inventory: spec_bag(
                old(rd).data(),
                schema.bag_at as int,
                schema.bag_entries as int,
            ),
            ..old(base)@
        }),
        r is Err ==> r == Err::<(), DecodeError>(DecodeError::Io),
{
    let ghost img = old(rd).data();
    let ghost s = *schema;
    rd.seek_abs(schema.bag_at)?;
    let mut it: usize = 0;
    while it < schema.bag_entries
        invariant
            it <= s.bag_entries,
            rd.wf(),
            rd.data() == img,
            rd.pos() == s.bag_at + 4 * it,
            base@ == (SaveFileView {
                inventory: spec_bag(img, s.bag_at as int, it as int),
                ..old(base)@
            }),
        decreases s.bag_entries - it,
    {
        let item_id = rd.read_u16()?;
        let qty = rd.read_u16()?;
        let prev: u16 = match base.get_item(Item(item_id)) {
            Some(q) => *q,
            None => 0,
        };
        let sum: u32 = prev as u32 + qty as u32;
        base.set_item(Item::from(item_id), (sum % 0x1_0000) as u16);
        it = it + 1;
        proof {
            assert(base@.inventory =~= spec_bag(img, s.bag_at as int, it as int));
        }
    }
    Ok(())
}

/// Reads every box's 30 encrypted slots, leaving names and wallpapers at
/// their defaults for the later passes.
#[verifier::loop_isolation(false)]
fn read_box_data(
    rd: &mut Reader,
    schema: &Schema,
    trainer: &Trainer,
    trainer_id: u16,
    trainer_secret_id: u16,
) -> (r: Result<Vec<model::Box>, DecodeError>)
    requires
        schema.wf(),
        old(rd).wf(),
    ensures
        final(rd).wf(),
        final(rd).data() == old(rd).data(),
        r is Ok <==> old(rd).data().len() >= schema.box_names_at(),
        r matches Ok(boxes) ==> final(rd).pos() == schema.box_names_at() && boxes@.len()
            == schema.box_count && (forall|ii: int|
            0 <= ii < schema.box_count ==> (#[trigger] boxes@[ii])@.slots == spec_box_slots(
                old(rd).data(),
                schema.box_data_at() + ii * (BOX_SLOTS * 136),
                trainer_id,
                trainer_secret_id,
                trainer@,
            ) && boxes@[ii]@.name == Seq::<char>::empty() && boxes@[ii]@.wallpaper == 0),
        r is Err ==> r == Err::<Vec<model::Box>, DecodeError>(DecodeError::Io),
{
    let ghost img = old(rd).data();
    let ghost s = *schema;
    rd.seek_abs(schema.box_block_at)?;
    let _current_box = rd.read_u32()?;
    let mut boxes: Vec<model::Box> = Vec::new();
    let mut bi: usize = 0;
    while bi < schema.box_count
        invariant
            bi <= s.box_count,
            rd.wf(),
            rd.data() == img,
            rd.pos() == s.box_data_at() + bi * (BOX_SLOTS * 136),
            boxes@.len() == bi,
            forall|ii: int|
                0 <= ii < bi ==> (#[trigger] boxes@[ii])@.slots == spec_box_slots(
                    img,
                    s.box_data_at() + ii * (BOX_SLOTS * 136),
                    trainer_id,
                    trainer_secret_id,
                    trainer@,
                ) && boxes@[ii]@.name == Seq::<char>::empty() && boxes@[ii]@.wallpaper == 0,
        decreases s.box_count - bi,
    {
        let mut pkmn_box = model::Box::new(BOX_SLOTS);
        let mut j: usize = 0;
        while j < BOX_SLOTS
            invariant
                j <= BOX_SLOTS,
                bi < s.box_count,
                rd.wf(),
                rd.data() == img,
                rd.pos() == s.box_data_at() + bi * (BOX_SLOTS * 136) + j * 136,
                pkmn_box@.name == Seq::<char>::empty(),
                pkmn_box@.wallpaper == 0,
                pkmn_box@.slots.len() == BOX_SLOTS,
                forall|jj: int|
                    0 <= jj < j ==> pkmn_box@.slots[jj] == spec_slot(
                        img,
                        s.box_data_at() + bi * (BOX_SLOTS * 136) + jj * 136,
                        136,
                        trainer_id,
                        trainer_secret_id,
                        trainer@,
                    ),
                forall|jj: int| j <= jj < BOX_SLOTS ==> pkmn_box@.slots[jj] is None,
            decreases BOX_SLOTS - j,
        {
            let buf = rd.read_bytes(136)?;
            let decrypted_blob = decrypt_pokemon_blob(&buf);
            match parse_creature(&decrypted_blob, trainer_id, trainer_secret_id, &trainer) {
                Some(pkmn) => pkmn_box.set_pkmn(j, pkmn),
                None => (),
            }
            j = j + 1;
        }
        proof {
            assert(pkmn_box@.slots =~= spec_box_slots(
                img,
                s.box_data_at() + bi * (BOX_SLOTS * 136),
                trainer_id,
                trainer_secret_id,
                trainer@,
            ));
        }
        boxes.push(pkmn_box);
        bi = bi + 1;
    }
    Ok(boxes)
}

/// Reads the per-box name fields that follow the box slot data.
#[verifier::loop_isolation(false)]
fn read_box_names(rd: &mut Reader, boxes: &mut Vec<model::Box>, schema: &Schema) -> (r: Result<
    (),
    DecodeError,
>)
    requires
        schema.wf(),
        old(rd).wf(),
        old(rd).pos() == schema.box_names_at(),
        old(boxes)@.len() == schema.box_count,
    ensures
        final(rd).wf(),
        final(rd).data() == old(rd).data(),
        r is Ok <==> old(rd).data().len() >= schema.box_walls_at(),
        r is Ok ==> final(rd).pos() == schema.box_walls_at() && final(boxes)@.len()
            == schema.box_count && (forall|ii: int|
            0 <= ii < schema.box_count ==> (#[trigger] final(boxes)@[ii])@ == (BoxView {
                name: text::decoded(
                    units_at(old(rd).data(), schema.box_names_at() + ii * 40, 20),
                ),
                ..old(boxes)@[ii]@
            })),
        r is Err ==> r == Err::<(), DecodeError>(DecodeError::Io),
{
    let ghost img = old(rd).data();
    let ghost s = *schema;
    let mut ni: usize = 0;
    while ni < schema.box_count
        invariant
            ni <= s.box_count,
            rd.wf(),
            rd.data() == img,
            rd.pos() == s.box_names_at() + ni * 40,
            boxes@.len() == s.box_count,
            forall|ii: int|
                0 <= ii < ni ==> (#[trigger] boxes@[ii])@ == (BoxView {
                    name: text::decoded(units_at(img, s.box_names_at() + ii * 40, 20)),
                    ..old(boxes)@[ii]@
                }),
            forall|ii: int| ni <= ii < s.box_count ==> boxes@[ii] == old(boxes)@[ii],
        decreases s.box_count - ni,
    {
        let nm = rd.read_string(20)?;
        let current_box = &mut boxes[ni];
        current_box.set_name(nm);
        ni = ni + 1;
    }
    Ok(())
}

/// Reads the per-box wallpaper bytes that follow the box names.
#[verifier::loop_isolation(false)]
fn read_box_wallpapers(rd: &mut Reader, boxes: &mut Vec<model::Box>, schema: &Schema) -> (r: Result<
    (),
    DecodeError,
>)
    requires
        schema.wf(),
        old(rd).wf(),
        old(rd).pos() == schema.box_walls_at(),
        old(boxes)@.len() == schema.box_count,
    ensures
        final(rd).wf(),
        final(rd).data() == old(rd).data(),
        r is Ok <==> old(rd).data().len() >= schema.required_len(),
        r is Ok ==> final(rd).pos() == schema.required_len() && final(boxes)@.len()
            == schema.box_count && (forall|ii: int|
            0 <= ii < schema.box_count ==> (#[trigger] final(boxes)@[ii])@ == (BoxView {
                wallpaper: old(rd).data()[schema.box_walls_at() + ii],
                ..old(boxes)@[ii]@
            })),
        r is Err ==> r == Err::<(), DecodeError>(DecodeError::Io),
{
    let ghost img = old(rd).data();
    let ghost s = *schema;
    let mut wi: usize = 0;
    while wi < schema.box_count
        invariant
            wi <= s.box_count,
            rd.wf(),
            rd.data() == img,
            rd.pos() == s.box_walls_at() + wi,
            boxes@.len() == s.box_count,
            forall|ii: int|
                0 <= ii < wi ==> (#[trigger] boxes@[ii])@ == (BoxView {
                    wallpaper: img[s.box_walls_at() + ii],
                    ..old(boxes)@[ii]@
                }),
            forall|ii: int| wi <= ii < s.box_count ==> boxes@[ii] == old(boxes)@[ii],
        decreases s.box_count - wi,
    {
        let wp = rd.read_u8()?;
        let current_box = &mut boxes[wi];
        current_box.set_wallpaper(wp);
        wi = wi + 1;
    }
    Ok(())
}

/// Decodes a whole save image under a layout schema.
///
/// Returns `Ok` exactly when the image is long enough for every block the
/// schema names and the stored gender byte lies in its closed set; an image
/// too short fails with `Io` at the first out-of-bounds access, and an
/// undefined gender code fails with `InvalidField`. On success the returned
/// save is exactly what [`spec_gen_save`] says the image stores.
#[verifier::rlimit(100)]
pub fn read_save_with_schema(image: Vec<u8>, schema: &Schema) -> (r: Result<GenSave, DecodeError>)
    requires
        schema.wf(),
    ensures
        r is Ok <==> image@.len() >= schema.required_len() && spec_gender_ok(image@, *schema),
        r matches Ok(g) ==> g@ == spec_gen_save(image@, *schema),
        r == Err::<GenSave, DecodeError>(DecodeError::InvalidField) <==> image@.len()
            >= schema.gender_end() && !spec_gender_ok(image@, *schema),
        r == Err::<GenSave, DecodeError>(DecodeError::Io) <==> image@.len() < schema.gender_end()
            || (spec_gender_ok(image@, *schema) && image@.len() < schema.required_len()),
{
    let ghost img = image@;
    let ghost s = *schema;
    let mut rd = Reader::new(image);

    // PLAYER BLOCK: timestamps, options, trainer identity
    rd.seek_abs(schema.start_date_at)?;
    let start_date = read_stamp(&mut rd, schema.time_width)?;
    let hof_date = read_stamp(&mut rd, schema.time_width)?;

    rd.seek_abs(schema.options_at)?;
    let options_raw = rd.read_u16()?;
    let _opts = Options::from_raw(options_raw);

    rd.seek_abs(schema.trainer_at)?;
    let trainer_name = rd.read_string(8)?;
    let trainer_id = rd.read_u16()?;
    let trainer_secret_id = rd.read_u16()?;
    let trainer_money = rd.read_u32()?;
    let gender_raw = rd.read_u8()?;
    let trainer_gender = if gender_raw == 0 {
        Gender::Male
    } else if gender_raw == 1 {
        Gender::Female
    } else {
        return Err(DecodeError::InvalidField);
    };
    let locale = Locale::from(rd.read_u8()?);
    let badges = Badges::from(rd.read_u8()?);

    let trainer = Trainer::new(trainer_name, trainer_id, Some(trainer_secret_id), trainer_gender);
    proof {
        assert(trainer@ =~= spec_trainer(img, s));
        assert(img.len() >= s.trainer_at + 27);
    }
    let mut base = SaveFile::new(trainer.clone(), trainer_money);

    // PARTY BLOCK: six fixed-size slots, empty species skipped
    read_party_block(&mut rd, &mut base, schema, &trainer, trainer_id, trainer_secret_id)?;

    // BAG BLOCK: sequential id/quantity pairs, accumulated modulo 2^16
    read_bag_block(&mut rd, &mut base, schema)?;

    // BOX BLOCK: slot data for every box, then the names, then the
    // wallpapers
    let mut boxes = read_box_data(&mut rd, schema, &trainer, trainer_id, trainer_secret_id)?;
    read_box_names(&mut rd, &mut boxes, schema)?;
    read_box_wallpapers(&mut rd, &mut boxes, schema)?;

    base.set_boxes(boxes);

    let g = GenSave {
        save_started: Timestamp(start_date),
        hall_of_fame_entered: Timestamp(hof_date),
        base,
        locale,
        badges,
    };
    proof {
        assert(g@.base.boxes =~= spec_gen_save(img, s).base.boxes) by {
            assert forall|i: int| 0 <= i < s.box_count implies g@.base.boxes[i] =~= spec_box(
                img,
                s,
                i,
            ) by {}
        }
        assert(g@.base =~= spec_gen_save(img, s).base);
        assert(g@ =~= spec_gen_save(img, s));
    }
    Ok(g)
}

/// Decodes a save image of the later single-game revision.
pub fn read_save(image: Vec<u8>) -> (r: Result<GenSave, DecodeError>)
    ensures
        ({
            let s = Schema::platinum_spec();
            &&& r is Ok <==> image@.len() >= s.required_len() && spec_gender_ok(image@, s)
            &&& r matches Ok(g) ==> g@ == spec_gen_save(image@, s)
            &&& r == Err::<GenSave, DecodeError>(DecodeError::InvalidField) <==> image@.len()
                >= s.gender_end() && !spec_gender_ok(image@, s)
            &&& r == Err::<GenSave, DecodeError>(DecodeError::Io) <==> image@.len()
                < s.gender_end() || (spec_gender_ok(image@, s) && image@.len() < s.required_len())
        }),
{
    let schema = Schema::platinum();
    read_save_with_schema(image, &schema)
}

/// Decodes a save image of the earlier two-game pairing.
pub fn read_save_diamond_pearl(image: Vec<u8>) -> (r: Result<GenSave, DecodeError>)
    ensures
        ({
            let s = Schema::diamond_pearl_spec();
            &&& r is Ok <==> image@.len() >= s.required_len() && spec_gender_ok(image@, s)
            &&& r matches Ok(g) ==> g@ == spec_gen_save(image@, s)
            &&& r == Err::<GenSave, DecodeError>(DecodeError::InvalidField) <==> image@.len()
                >= s.gender_end() && !spec_gender_ok(image@, s)
            &&& r == Err::<GenSave, DecodeError>(DecodeError::Io) <==> image@.len()
                < s.gender_end() || (spec_gender_ok(image@, s) && image@.len() < s.required_len())
        }),
{
    let schema = Schema::diamond_pearl();
    read_save_with_schema(image, &schema)
}

} // verus!
