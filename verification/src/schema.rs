//! The layout schema: a per-save-version table of absolute byte offsets and
//! sizes describing where the trainer, party, item and box sections live in
//! the image.
//!
//! The schema is data, not logic: the decode routine is parameterized by a
//! schema value, and a new save version means a new table, not new control
//! flow. Two concrete schemas are provided: the earlier two-game pairing,
//! whose player block begins at the start of the file and whose timestamps
//! are 32 bits wide, and the later single-game revision, where a system/meta
//! preamble shifts every offset and the timestamps are 64 bits wide.

use vstd::prelude::*;

verus! {

/// Number of slots in the party block.
pub const PARTY_SLOTS: usize = 6;

/// Number of slots in every storage box.
pub const BOX_SLOTS: usize = 30;

/// The width of the stored timestamps, which differs by save version.
#[derive(Clone, Copy, Debug, PartialEq, Eq, Structural)]
pub enum TimeWidth {
    /// Timestamps are stored as 32-bit second counts.
    Seconds32,
    /// Timestamps are stored as 64-bit second counts.
    Seconds64,
}

/// The absolute offsets and counts of one save version's layout.
///
/// All multi-byte fields are little-endian. The trainer block is contiguous
/// from `trainer_at`: an 8-unit name field, then the public id, the secret
/// id, the money, and one byte each of gender, locale and badges. The party
/// block holds six 236-byte blobs; the item block holds `bag_entries`
/// id/quantity pairs of 4 bytes; the box block holds one 32-bit word, then
/// `box_count` × 30 blobs of 136 bytes, then `box_count` 20-unit name
/// fields, then `box_count` wallpaper bytes.
#[derive(Clone, Copy, Debug, PartialEq, Eq, Structural)]
pub struct Schema {
    /// Where the save-start timestamp lies; the hall-of-fame timestamp
    /// follows it immediately.
    pub start_date_at: usize,
    /// How wide the two timestamps are.
    pub time_width: TimeWidth,
    /// Where the 16-bit options bitfield lies.
    pub options_at: usize,
    /// Where the trainer block begins.
    pub trainer_at: usize,
    /// Where the six party blobs begin.
    pub party_at: usize,
    /// Where the item id/quantity pairs begin.
    pub bag_at: usize,
    /// How many id/quantity pairs the item block holds.
    pub bag_entries: usize,
    /// Where the box block begins.
    pub box_block_at: usize,
    /// How many storage boxes the save holds.
    pub box_count: usize,
}

impl Schema {
    /// The byte width of one stored timestamp.
    pub open spec fn time_bytes(self) -> int {
        match self.time_width {
            TimeWidth::Seconds32 => 4,
            TimeWidth::Seconds64 => 8,
        }
    }

    /// Where the hall-of-fame timestamp lies.
    pub open spec fn hof_at(self) -> int {
        self.start_date_at + self.time_bytes()
    }

    /// Where the trainer's gender byte lies: past the 16-byte name field,
    /// the two ids and the money.
    pub open spec fn gender_at(self) -> int {
        self.trainer_at + 24
    }

    /// The least image length on which the gender byte can be read.
    pub open spec fn gender_end(self) -> int {
        self.gender_at() + 1
    }

    /// Where the box slot data begins, past the box block's leading word.
    pub open spec fn box_data_at(self) -> int {
        self.box_block_at + 4
    }

    /// Where the box name fields begin.
    pub open spec fn box_names_at(self) -> int {
        self.box_data_at() + self.box_count * (BOX_SLOTS * 136)
    }

    /// Where the box wallpaper bytes begin.
    pub open spec fn box_walls_at(self) -> int {
        self.box_names_at() + self.box_count * 40
    }

    /// The least image length this schema can be decoded from.
    pub open spec fn required_len(self) -> int {
        self.box_walls_at() + self.box_count
    }

    /// The blocks lie in offset order, with room for each, and the whole
    /// layout stays far inside the address space.
    pub open spec fn wf(self) -> bool {
        &&& self.start_date_at + 2 * self.time_bytes() <= self.options_at
        &&& self.options_at + 2 <= self.trainer_at
        &&& self.trainer_at + 27 <= self.party_at
        &&& self.party_at + PARTY_SLOTS * 236 <= self.bag_at
        &&& self.bag_at + 4 * self.bag_entries <= self.box_block_at
        &&& 1 <= self.box_count
        &&& self.required_len() <= 0x1000_0000
    }

    /// The value [`Schema::platinum`] returns.
    pub open spec fn platinum_spec() -> Schema {
        Schema {
            start_date_at: 0x34,
            time_width: TimeWidth::Seconds64,
            options_at: 0x64,
            trainer_at: 0x68,
            party_at: 0xA0,
            bag_at: 0x630,
            bag_entries: 459,
            box_block_at: 0xCF2C,
            box_count: 18,
        }
    }

    /// The value [`Schema::diamond_pearl`] returns.
    pub open spec fn diamond_pearl_spec() -> Schema {
        Schema {
            start_date_at: 0x00,
            time_width: TimeWidth::Seconds32,
            options_at: 0x28,
            trainer_at: 0x2C,
            party_at: 0x64,
            bag_at: 0x5F4,
            bag_entries: 459,
            box_block_at: 0xCEF0,
            box_count: 18,
        }
    }

    /// The layout of the later single-game revision: a system/meta preamble
    /// of 52 bytes precedes the player block, and timestamps are 64 bits.
    pub fn platinum() -> (s: Schema)
        ensures
            s == Schema::platinum_spec(),
            s.wf(),
    {
        Schema {
            start_date_at: 0x34,
            time_width: TimeWidth::Seconds64,
            options_at: 0x64,
            trainer_at: 0x68,
            party_at: 0xA0,
            bag_at: 0x630,
            bag_entries: 459,
            box_block_at: 0xCF2C,
            box_count: 18,
        }
    }

    /// The layout of the earlier two-game pairing: the player block begins
    /// at the start of the file and timestamps are 32 bits, which shifts
    /// every later block down by 60 bytes.
    pub fn diamond_pearl() -> (s: Schema)
        ensures
            s == Schema::diamond_pearl_spec(),
            s.wf(),
    {
        Schema {
            start_date_at: 0x00,
            time_width: TimeWidth::Seconds32,
            options_at: 0x28,
            trainer_at: 0x2C,
            party_at: 0x64,
            bag_at: 0x5F4,
            bag_entries: 459,
            box_block_at: 0xCEF0,
            box_count: 18,
        }
    }
}

} // verus!
