//! Grid coordinates and the device's key numbers.
//!
//! Two pad layouts number their keys differently. The side-column layout
//! counts in decades, one per row, and starts each row at 1. The full-pad
//! layout starts at a base key and advances by the row width plus one per row.
//! They are separate codecs; a [`DeviceProfile`] picks one when it is built.

use vstd::prelude::*;
use vstd::arithmetic::div_mod::lemma_fundamental_div_mod_converse;

verus! {

/// Key of column `x`, row `y` in the side-column layout.
pub open spec fn side_column_key(x: int, y: int) -> int {
    y * 10 + 1 + x
}

/// Column and row of `key` in the side-column layout.
pub open spec fn side_column_coord(key: int) -> (int, int) {
    (key % 10 - 1, key / 10)
}

/// Key of column `x`, row `y` in the full-pad layout that starts at `base`.
pub open spec fn full_pad_key(base: int, width: int, x: int, y: int) -> int {
    base + x + y + y * width
}

/// Column and row of `key` in the full-pad layout that starts at `base`.
pub open spec fn full_pad_coord(base: int, width: int, key: int) -> (int, int) {
    ((key - base) % (width + 1), (key - base) / (width + 1))
}

/// Side-column key of a cell.
pub fn coord_to_key(x: u8, y: u8) -> (key: u8)
    requires
        side_column_key(x as int, y as int) <= u8::MAX,
    ensures
        key as int == side_column_key(x as int, y as int),
        x < 9 ==> key % 10 != 0 && side_column_coord(key as int) == (x as int, y as int),
{
    proof {
        if x < 9 {
            lemma_side_column_round_trip(x as int, y as int);
        }
    }
    (y * 10) + 1 + x
}

/// Cell of a side-column key. Keys that end in 0 lie left of column 0 and
/// belong to no cell.
pub fn key_to_coord(key: u8) -> (coord: (u8, u8))
    requires
        key % 10 != 0,
    ensures
        (coord.0 as int, coord.1 as int) == side_column_coord(key as int),
{
    ((key % 10) - 1, key / 10)
}

/// Decoding a side-column key undoes encoding, for every column below 9.
pub proof fn lemma_side_column_round_trip(x: int, y: int)
    requires
        0 <= x < 9,
        0 <= y,
    ensures
        side_column_coord(side_column_key(x, y)) == (x, y),
        side_column_key(x, y) % 10 != 0,
{
    lemma_fundamental_div_mod_converse(side_column_key(x, y), 10, y, x + 1);
}

/// Encoding a side-column cell undoes decoding, for every key of a cell.
pub proof fn lemma_side_column_key_of_coord(key: int)
    requires
        0 <= key,
        key % 10 != 0,
    ensures
        side_column_key(side_column_coord(key).0, side_column_coord(key).1) == key,
        0 <= side_column_coord(key).0 < 9,
        0 <= side_column_coord(key).1,
{
}

/// Full-pad key of a cell.
pub fn full_pad_coord_to_key(base: u8, width: u8, x: u8, y: u8) -> (key: u8)
    requires
        full_pad_key(base as int, width as int, x as int, y as int) <= u8::MAX,
    ensures
        key as int == full_pad_key(base as int, width as int, x as int, y as int),
        x <= width ==> base <= key && full_pad_coord(base as int, width as int, key as int) == (
            x as int,
            y as int,
        ),
{
    proof {
        if x <= width {
            lemma_full_pad_round_trip(base as int, width as int, x as int, y as int);
        }
    }
    let wide: u32 = base as u32 + x as u32 + y as u32 + y as u32 * width as u32;
    wide as u8
}

/// Cell of a full-pad key: takes one row's stride off the key's distance from
/// the base until what is left is a column, and counts the rows taken.
pub fn full_pad_key_to_coord(base: u8, width: u8, key: u8) -> (coord: (u8, u8))
    requires
        base <= key,
    ensures
        (coord.0 as int, coord.1 as int) == full_pad_coord(
            base as int,
            width as int,
            key as int,
        ),
{
    let stride: u16 = width as u16 + 1;
    let mut rest: u16 = (key - base) as u16;
    let mut rows: u16 = 0;
    while rest > width as u16
        invariant
            stride == width + 1,
            rest + rows * stride == key - base,
            rows <= key - base,
        decreases rest,
    {
        assert((rows + 1) * stride == rows * stride + stride) by (nonlinear_arith);
        assert(rows * stride >= rows) by (nonlinear_arith)
            requires
                stride >= 1,
                rows >= 0,
        ;
        rest -= stride;
        rows += 1;
    }
    proof {
        lemma_fundamental_div_mod_converse(
            key as int - base as int,
            stride as int,
            rows as int,
            rest as int,
        );
    }
    (rest as u8, rows as u8)
}

/// Decoding a full-pad key undoes encoding, for every column up to the width.
pub proof fn lemma_full_pad_round_trip(base: int, width: int, x: int, y: int)
    requires
        0 <= width,
        0 <= x <= width,
        0 <= y,
    ensures
        full_pad_coord(base, width, full_pad_key(base, width, x, y)) == (x, y),
        full_pad_key(base, width, x, y) >= base,
{
    assert(y * (width + 1) == y + y * width) by (nonlinear_arith);
    assert(y * (width + 1) >= 0) by (nonlinear_arith)
        requires
            y >= 0,
            width >= 0,
    ;
    lemma_fundamental_div_mod_converse(
        full_pad_key(base, width, x, y) - base,
        width + 1,
        y,
        x,
    );
}

/// Encoding a full-pad cell undoes decoding, for every key from the base on.
pub proof fn lemma_full_pad_key_of_coord(base: int, width: int, key: int)
    requires
        0 <= width,
        base <= key,
    ensures
        full_pad_key(
            base,
            width,
            full_pad_coord(base, width, key).0,
            full_pad_coord(base, width, key).1,
        ) == key,
        0 <= full_pad_coord(base, width, key).0 <= width,
        0 <= full_pad_coord(base, width, key).1,
{
    let d = key - base;
    let n = width + 1;
    vstd::arithmetic::div_mod::lemma_fundamental_div_mod(d, n);
    vstd::arithmetic::div_mod::lemma_mod_bound(d, n);
    vstd::arithmetic::div_mod::lemma_div_pos_is_pos(d, n);
    assert((d / n) * n == (d / n) + (d / n) * width) by (nonlinear_arith)
        requires
            n == width + 1,
    ;
    assert(n * (d / n) == (d / n) * n) by (nonlinear_arith);
}

/// How a pad numbers its keys.
#[derive(Debug, Clone, Copy, PartialEq, Eq, Structural)]
pub enum Numbering {
    /// From `base` on, a row's width plus one further per row.
    FullPad { base: u8 },
    /// In decades, one per row, each row from 1 on.
    SideColumn,
}

/// A pad's grid and its numbering, fixed when the pad is set up.
#[derive(Debug, Clone, Copy, PartialEq, Eq, Structural)]
pub struct DeviceProfile {
    pub width: u8,
    pub height: u8,
    pub numbering: Numbering,
}

impl DeviceProfile {
    /// Whether column `x`, row `y` is a cell of the grid.
    pub open spec fn in_grid(self, x: int, y: int) -> bool {
        0 <= x < self.width && 0 <= y < self.height
    }

    /// Key of a cell in this pad's numbering.
    pub open spec fn key_of(self, x: int, y: int) -> int {
        match self.numbering {
            Numbering::FullPad { base } => full_pad_key(base as int, self.width as int, x, y),
            Numbering::SideColumn => side_column_key(x, y),
        }
    }

    /// Column and row that a key decodes to in this pad's numbering.
    pub open spec fn coord_of(self, key: int) -> (int, int) {
        match self.numbering {
            Numbering::FullPad { base } => full_pad_coord(base as int, self.width as int, key),
            Numbering::SideColumn => side_column_coord(key),
        }
    }

    /// Whether `key` is the key of a cell of the grid.
    pub open spec fn is_key(self, key: int) -> bool {
        exists|x: int, y: int| self.in_grid(x, y) && self.key_of(x, y) == key
    }

    /// The key of the last cell of the last row, the largest of the grid.
    pub open spec fn last_key(self) -> int {
        self.key_of(self.width - 1, self.height - 1)
    }

    /// Whether the profile can be used: the key of every cell fits a byte,
    /// and a side-column grid has at most the nine columns of a decade.
    pub open spec fn wf(self) -> bool {
        &&& self.numbering == Numbering::SideColumn ==> self.width <= 9
        &&& self.width > 0 && self.height > 0 ==> self.last_key() <= u8::MAX
    }

    /// A profile, if the grid fits the numbering.
    pub fn new(width: u8, height: u8, numbering: Numbering) -> (made: Option<DeviceProfile>)
        ensures
            made is Some <==> (DeviceProfile { width, height, numbering }).wf(),
            made matches Some(p) ==> p == (DeviceProfile { width, height, numbering }),
    {
        let profile = DeviceProfile { width, height, numbering };
        if width == 0 || height == 0 {
            return match numbering {
                Numbering::SideColumn => if width <= 9 {
                    Some(profile)
                } else {
                    None
                },
                Numbering::FullPad { base: _ } => Some(profile),
            };
        }
        let last_x: u32 = (width - 1) as u32;
        let last_y: u32 = (height - 1) as u32;
        assert(last_y * width <= 255 * 255) by (nonlinear_arith)
            requires
                0 <= last_y <= 255,
                0 <= width <= 255,
        ;
        let last: u32 = match numbering {
            Numbering::FullPad { base } => base as u32 + last_x + last_y + last_y * width as u32,
            Numbering::SideColumn => {
                if width > 9 {
                    return None;
                }
                last_y * 10 + 1 + last_x
            },
        };
        if last <= 255 {
            Some(profile)
        } else {
            None
        }
    }

    /// Key of the cell at column `x`, row `y`.
    pub fn to_device_key(&self, x: u8, y: u8) -> (key: u8)
        requires
            self.wf(),
            self.in_grid(x as int, y as int),
        ensures
            key as int == self.key_of(x as int, y as int),
            self.is_key(key as int),
            self.coord_of(key as int) == (x as int, y as int),
    {
        proof {
            self.lemma_keys_fit(x as int, y as int);
            self.lemma_round_trip(x as int, y as int);
        }
        match self.numbering {
            Numbering::FullPad { base } => full_pad_coord_to_key(base, self.width, x, y),
            Numbering::SideColumn => coord_to_key(x, y),
        }
    }

    /// Cell of a key of the grid.
    pub fn to_grid_coordinate(&self, key: u8) -> (coord: (u8, u8))
        requires
            self.wf(),
            self.is_key(key as int),
        ensures
            (coord.0 as int, coord.1 as int) == self.coord_of(key as int),
            self.in_grid(coord.0 as int, coord.1 as int),
            self.key_of(coord.0 as int, coord.1 as int) == key,
    {
        proof {
            let (x, y) = choose|x: int, y: int| self.in_grid(x, y) && self.key_of(x, y) == key;
            self.lemma_round_trip(x, y);
        }
        match self.numbering {
            Numbering::FullPad { base } => full_pad_key_to_coord(base, self.width, key),
            Numbering::SideColumn => key_to_coord(key),
        }
    }

    /// Cell of a key, or `None` for a key of no cell of the grid.
    pub fn locate(&self, key: u8) -> (coord: Option<(u8, u8)>)
        requires
            self.wf(),
        ensures
            coord is Some <==> self.is_key(key as int),
            coord matches Some(c) ==> (c.0 as int, c.1 as int) == self.coord_of(key as int),
    {
        let decodable: bool = match self.numbering {
            Numbering::FullPad { base } => base <= key,
            Numbering::SideColumn => key % 10 != 0,
        };
        if !decodable {
            proof {
                assert forall|x: int, y: int| self.in_grid(x, y) implies self.key_of(x, y)
                    != key by {
                    self.lemma_round_trip(x, y);
                }
            }
            return None;
        }
        let (x, y) = match self.numbering {
            Numbering::FullPad { base } => full_pad_key_to_coord(base, self.width, key),
            Numbering::SideColumn => key_to_coord(key),
        };
        if x < self.width && y < self.height {
            proof {
                match self.numbering {
                    Numbering::FullPad { base } => lemma_full_pad_key_of_coord(
                        base as int,
                        self.width as int,
                        key as int,
                    ),
                    Numbering::SideColumn => lemma_side_column_key_of_coord(key as int),
                }
                assert(self.in_grid(x as int, y as int) && self.key_of(x as int, y as int) == key);
            }
            Some((x, y))
        } else {
            proof {
                assert forall|cx: int, cy: int| self.in_grid(cx, cy) implies self.key_of(cx, cy)
                    != key by {
                    self.lemma_round_trip(cx, cy);
                }
            }
            None
        }
    }

    /// No cell of a usable grid has a key beyond the last cell's.
    pub proof fn lemma_keys_fit(self, x: int, y: int)
        requires
            self.wf(),
            self.in_grid(x, y),
        ensures
            0 <= self.key_of(x, y) <= self.last_key() <= u8::MAX,
    {
        let w = self.width as int;
        let h = self.height as int;
        assert(y * w <= (h - 1) * w) by (nonlinear_arith)
            requires
                0 <= y <= h - 1,
                0 <= w,
        ;
        assert(0 <= y * w) by (nonlinear_arith)
            requires
                0 <= y,
                0 <= w,
        ;
    }

    /// Decoding undoes encoding on every cell of a usable grid, in either
    /// numbering: the key of a cell decodes to that cell and to no other.
    pub proof fn lemma_round_trip(self, x: int, y: int)
        requires
            self.wf(),
            self.in_grid(x, y),
        ensures
            self.coord_of(self.key_of(x, y)) == (x, y),
            self.is_key(self.key_of(x, y)),
            self.numbering == Numbering::SideColumn ==> self.key_of(x, y) % 10 != 0,
            self.numbering matches Numbering::FullPad { base } ==> self.key_of(x, y) >= base,
    {
        match self.numbering {
            Numbering::FullPad { base } => {
                lemma_full_pad_round_trip(base as int, self.width as int, x, y);
            },
            Numbering::SideColumn => {
                lemma_side_column_round_trip(x, y);
            },
        }
    }

    /// Two cells of a usable grid with one key are one cell.
    pub proof fn lemma_keys_differ(self, x1: int, y1: int, x2: int, y2: int)
        requires
            self.wf(),
            self.in_grid(x1, y1),
            self.in_grid(x2, y2),
            self.key_of(x1, y1) == self.key_of(x2, y2),
        ensures
            x1 == x2,
            y1 == y2,
    {
        self.lemma_round_trip(x1, y1);
        self.lemma_round_trip(x2, y2);
    }
}

} // verus!
