//! The baked classification table: one palette index for each of the
//! 16,777,216 colours, so that classifying a pixel is a single lookup.

use crate::palette::{is_nearest, lemma_nearest_index, nearest_index, Palette, FIRST_SELECTABLE};
use crate::util::{colour_key, colour_of_key, lemma_key_round_trip, Colour};
use rayon::iter::{IntoParallelRefIterator, ParallelIterator};
use vstd::prelude::*;

verus! {

/// Number of entries in a classification table, one per 24-bit colour.
pub const TABLE_SIZE: usize = 0x100_0000;

/// Every entry of `table` names a selectable palette entry.
pub open spec fn selectable_only(table: Seq<u8>) -> bool {
    forall|k: int| 0 <= k < table.len() ==> #[trigger] table[k] >= FIRST_SELECTABLE
}

/// `table` holds, at the key of every colour, the palette entry nearest to
/// that colour.
pub open spec fn bakes(table: Seq<u8>, palette: Seq<Colour>) -> bool {
    &&& table.len() == TABLE_SIZE
    &&& forall|key: int|
        0 <= key < TABLE_SIZE ==> is_nearest(palette, colour_of_key(key), #[trigger] table[key] as int)
}

/// The palette indices of `pixels` under `table`, in the same order.
pub open spec fn quantized(table: Seq<u8>, pixels: Seq<Colour>) -> Seq<u8> {
    Seq::new(pixels.len(), |i: int| table[colour_key(pixels[i])])
}

/// A baked table answers exactly as the exhaustive search does, for every
/// colour, ties included.
pub proof fn lemma_table_matches_search(table: Seq<u8>, palette: Seq<Colour>, c: Colour)
    requires
        bakes(table, palette),
    ensures
        is_nearest(palette, c, table[colour_key(c)] as int),
        table[colour_key(c)] as int == nearest_index(palette, c),
        table[colour_key(c)] >= FIRST_SELECTABLE,
{
    lemma_key_round_trip(c);
    let key = colour_key(c);
    lemma_nearest_index(palette, c, table[key] as int);
}

/// A baked table never names a reserved palette entry.
pub proof fn lemma_baked_is_selectable(table: Seq<u8>, palette: Seq<Colour>)
    requires
        bakes(table, palette),
    ensures
        selectable_only(table),
{
}

/// A dense lookup table from 24-bit colour key to palette index.
pub struct ColourTable {
    entries: Vec<u8>,
}

impl View for ColourTable {
    type V = Seq<u8>;

    closed spec fn view(&self) -> Seq<u8> {
        self.entries@
    }
}

impl ColourTable {
    #[verifier::type_invariant]
    closed spec fn wf(self) -> bool {
        &&& self.entries@.len() == TABLE_SIZE
        &&& selectable_only(self.entries@)
    }

    /// Computes the table for `palette` by running the exhaustive search
    /// once for every colour.
    pub fn bake(palette: &Palette) -> (table: ColourTable)
        ensures
            bakes(table@, palette@),
    {
        let mut entries: Vec<u8> = Vec::with_capacity(TABLE_SIZE);
        let mut key: u32 = 0;
        while key < 0x100_0000
            invariant
                key <= 0x100_0000,
                entries@.len() == key,
                forall|k: int|
                    0 <= k < key ==> is_nearest(
                        palette@,
                        colour_of_key(k),
                        #[trigger] entries@[k] as int,
                    ),
            decreases 0x100_0000 - key,
        {
            let idx: u8 = palette.nearest(Colour::from_key(key));
            entries.push(idx);
            key += 1;
        }
        proof {
            lemma_baked_is_selectable(entries@, palette@);
        }
        ColourTable { entries }
    }

    /// Adopts a table computed earlier. `None` when `bytes` is not a full
    /// table or names a reserved palette entry.
    pub fn from_bytes(bytes: Vec<u8>) -> (table: Option<ColourTable>)
        ensures
            table is Some <==> bytes@.len() == TABLE_SIZE && selectable_only(bytes@),
            table matches Some(t) ==> t@ == bytes@,
    {
        if bytes.len() != TABLE_SIZE {
            return None;
        }
        let mut k: usize = 0;
        while k < TABLE_SIZE
            invariant
                k <= TABLE_SIZE,
                bytes@.len() == TABLE_SIZE,
                forall|j: int| 0 <= j < k ==> #[trigger] bytes@[j] >= FIRST_SELECTABLE,
            decreases TABLE_SIZE - k,
        {
            if bytes[k] < FIRST_SELECTABLE {
                return None;
            }
            k += 1;
        }
        Some(ColourTable { entries: bytes })
    }

    /// The table's entries in key order, for storing it.
    pub fn as_bytes(&self) -> (bytes: &Vec<u8>)
        ensures
            bytes@ == self@,
            bytes@.len() == TABLE_SIZE,
            selectable_only(bytes@),
    {
        proof {
            use_type_invariant(self);
        }
        &self.entries
    }

    /// Whether this table is the one that `palette` bakes to.
    pub fn agrees_with(&self, palette: &Palette) -> (same: bool)
        ensures
            same == bakes(self@, palette@),
    {
        proof {
            use_type_invariant(self);
        }
        let mut key: u32 = 0;
        while key < 0x100_0000
            invariant
                key <= 0x100_0000,
                self.entries@.len() == TABLE_SIZE,
                forall|k: int|
                    0 <= k < key ==> is_nearest(
                        palette@,
                        colour_of_key(k),
                        #[trigger] self.entries@[k] as int,
                    ),
            decreases 0x100_0000 - key,
        {
            let c = Colour::from_key(key);
            let idx: u8 = palette.nearest(c);
            if self.entries[key as usize] != idx {
                proof {
                    if bakes(self@, palette@) {
                        lemma_nearest_index(palette@, c, self.entries@[key as int] as int);
                    }
                }
                return false;
            }
            key += 1;
        }
        true
    }

    /// The palette index of `c`: a single lookup at the colour's key.
    pub fn classify(&self, c: Colour) -> (idx: u8)
        ensures
            idx == self@[colour_key(c)],
            idx >= FIRST_SELECTABLE,
    {
        proof {
            use_type_invariant(self);
        }
        self.entries[c.as_usize()]
    }

    /// Classifies every pixel of a frame, keeping the pixels' order.
    pub fn quantize(&self, pixels: &Vec<Colour>) -> (indices: Vec<u8>)
        ensures
            indices@ == quantized(self@, pixels@),
            selectable_only(indices@),
    {
        proof {
            use_type_invariant(self);
        }
        let indices = classify_each(self, pixels);
        assert forall|i: int| 0 <= i < indices@.len() implies #[trigger] indices@[i]
            >= FIRST_SELECTABLE by {
            lemma_key_round_trip(pixels@[i]);
        }
        indices
    }
}

/// Runs `ColourTable::classify` on every pixel through rayon's parallel
/// iterator (`par_iter`, `map`, `collect`). Trusted: collecting into a `Vec`
/// yields one result per pixel, in the pixels' order, each being what
/// `classify` returns for that pixel.
#[verifier::external_body]
fn classify_each(table: &ColourTable, pixels: &Vec<Colour>) -> (indices: Vec<u8>)
    ensures
        indices@.len() == pixels@.len(),
        forall|i: int|
            0 <= i < pixels@.len() ==> #[trigger] indices@[i] == table@[colour_key(pixels@[i])],
{
    pixels.par_iter().map(|pixel| table.classify(*pixel)).collect()
}

} // verus!
