//! The fixed 256-entry palette and the nearest-colour rule that maps any
//! colour to one of its selectable entries.

use crate::util::Colour;
use vstd::prelude::*;

verus! {

/// Number of entries in a palette.
pub const PALETTE_SIZE: usize = 256;

/// Entries below this index are reserved and never chosen.
pub const FIRST_SELECTABLE: u8 = 4;

/// Squared Euclidean distance between two colours in RGB space.
pub open spec fn distance_squared(a: Colour, b: Colour) -> int {
    (a.r - b.r) * (a.r - b.r) + (a.g - b.g) * (a.g - b.g) + (a.b - b.b) * (a.b - b.b)
}

/// `i` is the entry that `c` is classified as: a selectable entry at the
/// least distance from `c`, and the first such entry.
pub open spec fn is_nearest(palette: Seq<Colour>, c: Colour, i: int) -> bool {
    &&& FIRST_SELECTABLE <= i < palette.len()
    &&& forall|j: int|
        FIRST_SELECTABLE <= j < i ==> distance_squared(#[trigger] palette[j], c)
            > distance_squared(palette[i], c)
    &&& forall|j: int|
        i <= j < palette.len() ==> distance_squared(#[trigger] palette[j], c)
            >= distance_squared(palette[i], c)
}

/// The index that `c` is classified as under `palette`.
pub open spec fn nearest_index(palette: Seq<Colour>, c: Colour) -> int {
    choose|i: int| is_nearest(palette, c, i)
}

/// At most one entry is the nearest one.
pub proof fn lemma_nearest_unique(palette: Seq<Colour>, c: Colour, i: int, j: int)
    requires
        is_nearest(palette, c, i),
        is_nearest(palette, c, j),
    ensures
        i == j,
{
    // Of two distinct nearest entries the earlier would be strictly farther
    // than the later, which in turn is at least as far as the earlier.
    if i < j {
        assert(distance_squared(palette[i], c) > distance_squared(palette[j], c));
    } else if j < i {
        assert(distance_squared(palette[j], c) > distance_squared(palette[i], c));
    }
}

/// Whoever satisfies `is_nearest` is the `nearest_index`.
pub proof fn lemma_nearest_index(palette: Seq<Colour>, c: Colour, i: int)
    requires
        is_nearest(palette, c, i),
    ensures
        nearest_index(palette, c) == i,
{
    lemma_nearest_unique(palette, c, i, nearest_index(palette, c));
}

/// Squared distance between two colours; at most `3 * 255 * 255`.
pub fn colour_distance(a: Colour, b: Colour) -> (d: u32)
    ensures
        d == distance_squared(a, b),
        d <= 195075,
{
    let dr: u32 = channel_gap(a.r, b.r);
    let dg: u32 = channel_gap(a.g, b.g);
    let db: u32 = channel_gap(a.b, b.b);
    dr + dg + db
}

/// The square of the difference of two channel values.
fn channel_gap(x: u8, y: u8) -> (sq: u32)
    ensures
        sq == (x - y) * (x - y),
        sq <= 65025,
{
    let d: u32 = if x >= y {
        (x - y) as u32
    } else {
        (y - x) as u32
    };
    assert(d * d == (x - y) * (x - y) && d * d <= 65025) by (nonlinear_arith)
        requires
            d == x - y || d == y - x,
            0 <= d <= 255,
    ;
    d * d
}

/// An ordered list of exactly 256 reference colours. Entries 0 to 3 are
/// reserved; classification only ever selects entries 4 to 255.
pub struct Palette {
    colours: Vec<Colour>,
}

impl View for Palette {
    type V = Seq<Colour>;

    closed spec fn view(&self) -> Seq<Colour> {
        self.colours@
    }
}

impl Palette {
    #[verifier::type_invariant]
    closed spec fn wf(self) -> bool {
        self.colours@.len() == PALETTE_SIZE
    }

    /// Builds a palette from its entries; `None` unless there are exactly 256.
    pub fn new(colours: Vec<Colour>) -> (p: Option<Palette>)
        ensures
            p is Some <==> colours@.len() == PALETTE_SIZE,
            p matches Some(q) ==> q@ == colours@,
    {
        if colours.len() == PALETTE_SIZE {
            Some(Palette { colours })
        } else {
            None
        }
    }

    /// The palette's entries, in order.
    pub fn colours(&self) -> (colours: &Vec<Colour>)
        ensures
            colours@ == self@,
            colours@.len() == PALETTE_SIZE,
    {
        proof {
            use_type_invariant(self);
        }
        &self.colours
    }

    /// The reference colour stored at `index`.
    pub fn colour(&self, index: u8) -> (c: Colour)
        ensures
            c == self@[index as int],
    {
        proof {
            use_type_invariant(self);
        }
        self.colours[index as usize]
    }

    /// Exhaustive nearest-colour search over the selectable entries; ties go
    /// to the lowest index.
    pub fn nearest(&self, c: Colour) -> (idx: u8)
        ensures
            is_nearest(self@, c, idx as int),
            idx as int == nearest_index(self@, c),
            idx >= FIRST_SELECTABLE,
    {
        proof {
            use_type_invariant(self);
        }
        let mut best: usize = FIRST_SELECTABLE as usize;
        let mut best_distance: u32 = colour_distance(self.colours[best], c);
        let mut j: usize = best + 1;
        while j < PALETTE_SIZE
            invariant
                self.colours@.len() == PALETTE_SIZE,
                FIRST_SELECTABLE <= best < j <= PALETTE_SIZE,
                best_distance == distance_squared(self.colours@[best as int], c),
                forall|k: int|
                    FIRST_SELECTABLE <= k < best ==> distance_squared(
                        #[trigger] self.colours@[k],
                        c,
                    ) > best_distance,
                forall|k: int|
                    best <= k < j ==> distance_squared(#[trigger] self.colours@[k], c)
                        >= best_distance,
            decreases PALETTE_SIZE - j,
        {
            let candidate = self.colours[j];
            let red: u32 = channel_gap(candidate.r, c.r);
            if red < best_distance {
                let d: u32 = red + channel_gap(candidate.g, c.g) + channel_gap(candidate.b, c.b);
                if d < best_distance {
                    best = j;
                    best_distance = d;
                }
            } else {
                // The red channel alone already rules the candidate out.
                assert(distance_squared(candidate, c) >= red) by (nonlinear_arith)
                    requires
                        red == (candidate.r - c.r) * (candidate.r - c.r),
                ;
            }
            j += 1;
        }
        proof {
            lemma_nearest_index(self@, c, best as int);
        }
        best as u8
    }
}

} // verus!
