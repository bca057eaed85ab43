//! Three hand-picked tables of twenty colors each, one per hue family.

use vstd::prelude::*;
use crate::color::{from_rgb, rgb, Color};

verus! {

/// The number of colors in each table.
pub const PALETTE_SIZE: usize = 20;

/// The hue family that a table belongs to.
#[derive(Clone, Copy, Debug, PartialEq, Eq, Structural)]
pub enum PaletteFamily {
    Blue,
    Green,
    Orange,
}

/// The blue table, in the order in which its colors are numbered.
pub open spec fn blue_palette() -> Seq<Color> {
    seq![
        rgb(0, 0, 255),
        rgb(135, 206, 235),
        rgb(137, 207, 240),
        rgb(70, 130, 180),
        rgb(86, 160, 211),
        rgb(0, 97, 112),
        rgb(115, 194, 251),
        rgb(0, 0, 128),
        rgb(15, 82, 186),
        rgb(0, 49, 81),
        rgb(176, 224, 230),
        rgb(125, 249, 255),
        rgb(54, 117, 136),
        rgb(153, 255, 255),
        rgb(91, 146, 229),
        rgb(73, 151, 208),
        rgb(84, 90, 167),
        rgb(76, 81, 109),
        rgb(93, 138, 168),
        rgb(15, 77, 146),
    ]
}

/// The green table, in the order in which its colors are numbered.
pub open spec fn green_palette() -> Seq<Color> {
    seq![
        rgb(0, 255, 0),
        rgb(34, 139, 34),
        rgb(46, 139, 87),
        rgb(128, 128, 0),
        rgb(152, 251, 152),
        rgb(76, 187, 23),
        rgb(0, 128, 128),
        rgb(0, 168, 107),
        rgb(80, 200, 120),
        rgb(120, 134, 107),
        rgb(152, 255, 152),
        rgb(41, 171, 135),
        rgb(79, 121, 66),
        rgb(1, 121, 111),
        rgb(53, 94, 59),
        rgb(109, 157, 85),
        rgb(188, 184, 138),
        rgb(107, 142, 35),
        rgb(0, 158, 96),
        rgb(80, 200, 120),
    ]
}

/// The orange table, in the order in which its colors are numbered.
pub open spec fn orange_palette() -> Seq<Color> {
    seq![
        rgb(255, 165, 0),
        rgb(255, 117, 24),
        rgb(255, 127, 80),
        rgb(240, 128, 0),
        rgb(255, 191, 0),
        rgb(251, 206, 177),
        rgb(204, 85, 0),
        rgb(255, 229, 180),
        rgb(255, 95, 31),
        rgb(242, 140, 40),
        rgb(253, 94, 83),
        rgb(255, 204, 102),
        rgb(237, 145, 33),
        rgb(255, 99, 71),
        rgb(250, 128, 114),
        rgb(255, 99, 71),
        rgb(255, 194, 77),
        rgb(255, 88, 0),
        rgb(234, 142, 68),
        rgb(245, 134, 52),
    ]
}

/// The table of a family.
pub open spec fn palette(family: PaletteFamily) -> Seq<Color> {
    match family {
        PaletteFamily::Blue => blue_palette(),
        PaletteFamily::Green => green_palette(),
        PaletteFamily::Orange => orange_palette(),
    }
}

/// Every table holds `PALETTE_SIZE` colors.
pub proof fn lemma_palette_len(family: PaletteFamily)
    ensures
        palette(family).len() == PALETTE_SIZE,
{
}

/// Whether two positions of a table hold one color: the green table holds
/// its emerald twice, and the orange table holds one red-orange twice.
pub open spec fn repeated(family: PaletteFamily, x: int, y: int) -> bool {
    match family {
        PaletteFamily::Blue => false,
        PaletteFamily::Green => (x == 8 && y == 19) || (x == 19 && y == 8),
        PaletteFamily::Orange => (x == 13 && y == 15) || (x == 15 && y == 13),
    }
}

/// Two different positions of a table hold different colors, but for the one
/// color that the green table repeats and the one that the orange table
/// repeats.
pub proof fn lemma_positions_differ(family: PaletteFamily, x: int, y: int)
    requires
        0 <= x < PALETTE_SIZE,
        0 <= y < PALETTE_SIZE,
        x != y,
        !repeated(family, x, y),
    ensures
        palette(family)[x] != palette(family)[y],
{
    match family {
        PaletteFamily::Blue => lemma_blue_differ(x, y),
        PaletteFamily::Green => lemma_green_differ(x, y),
        PaletteFamily::Orange => lemma_orange_differ(x, y),
    }
}

proof fn lemma_blue_differ(x: int, y: int)
    requires
        0 <= x < PALETTE_SIZE,
        0 <= y < PALETTE_SIZE,
        x != y,
    ensures
        blue_palette()[x] != blue_palette()[y],
{
}

proof fn lemma_green_differ(x: int, y: int)
    requires
        0 <= x < PALETTE_SIZE,
        0 <= y < PALETTE_SIZE,
        x != y,
        !repeated(PaletteFamily::Green, x, y),
    ensures
        green_palette()[x] != green_palette()[y],
{
}

proof fn lemma_orange_differ(x: int, y: int)
    requires
        0 <= x < PALETTE_SIZE,
        0 <= y < PALETTE_SIZE,
        x != y,
        !repeated(PaletteFamily::Orange, x, y),
    ensures
        orange_palette()[x] != orange_palette()[y],
{
}

/// Two fixtures whose colors start at different offsets give different
/// colors to the processes with the same number, as far as both colors lie in
/// the table and are not the one color that the table repeats.
pub proof fn lemma_offsets_differ(family: PaletteFamily, first: int, second: int, i: int)
    requires
        0 <= first,
        0 <= second,
        0 <= i,
        first != second,
        first + i < PALETTE_SIZE,
        second + i < PALETTE_SIZE,
        !repeated(family, first + i, second + i),
    ensures
        palette(family)[first + i] != palette(family)[second + i],
{
    lemma_positions_differ(family, first + i, second + i);
}

fn blue_table() -> (table: Vec<Color>)
    ensures
        table@ == blue_palette(),
{
    let table = vec![
        from_rgb(0, 0, 255),  // True Blue.
        from_rgb(135, 206, 235),  // Sky Blue.
        from_rgb(137, 207, 240),  // Baby Blue.
        from_rgb(70, 130, 180),  // Steel Blue.
        from_rgb(86, 160, 211),  // Carolina Blue.
        from_rgb(0, 97, 112),  // Turkish Blue.
        from_rgb(115, 194, 251),  // Maya Blue.
        from_rgb(0, 0, 128),  // Navy Blue.
        from_rgb(15, 82, 186),  // Sapphire.
        from_rgb(0, 49, 81),  // Prussian Blue.
        from_rgb(176, 224, 230),  // Powder Blue.
        from_rgb(125, 249, 255),  // Electric Blue.
        from_rgb(54, 117, 136),  // Teal Blue.
        from_rgb(153, 255, 255),  // Ice Blue.
        from_rgb(91, 146, 229),  // Horizon Blue.
        from_rgb(73, 151, 208),  // Celestial Blue.
        from_rgb(84, 90, 167),  // Liberty Blue.
        from_rgb(76, 81, 109),  // Independence Blue.
        from_rgb(93, 138, 168),  // Air Force Blue.
        from_rgb(15, 77, 146),  // Yale Blue.
    ];
    assert(table@ =~= blue_palette());
    table
}

fn green_table() -> (table: Vec<Color>)
    ensures
        table@ == green_palette(),
{
    let table = vec![
        from_rgb(0, 255, 0),  // Lime Green.
        from_rgb(34, 139, 34),  // Forest Green.
        from_rgb(46, 139, 87),  // Sea Green.
        from_rgb(128, 128, 0),  // Olive Green.
        from_rgb(152, 251, 152),  // Mint Green.
        from_rgb(76, 187, 23),  // Kelly Green.
        from_rgb(0, 128, 128),  // Teal Green.
        from_rgb(0, 168, 107),  // Jade Green.
        from_rgb(80, 200, 120),  // Emerald Green.
        from_rgb(120, 134, 107),  // Sage Green.
        from_rgb(152, 255, 152),  // Mint Green.
        from_rgb(41, 171, 135),  // Jungle Green.
        from_rgb(79, 121, 66),  // Fern Green.
        from_rgb(1, 121, 111),  // Pine Green.
        from_rgb(53, 94, 59),  // Hunter Green.
        from_rgb(109, 157, 85),  // Juniper Green.
        from_rgb(188, 184, 138),  // Sage Green.
        from_rgb(107, 142, 35),  // Olive Drab Green.
        from_rgb(0, 158, 96),  // Shamrock Green.
        from_rgb(80, 200, 120),  // Emerald Green.
    ];
    assert(table@ =~= green_palette());
    table
}

fn orange_table() -> (table: Vec<Color>)
    ensures
        table@ == orange_palette(),
{
    let table = vec![
        from_rgb(255, 165, 0),  // Bright Orange.
        from_rgb(255, 117, 24),  // Pumpkin Orange.
        from_rgb(255, 127, 80),  // Coral.
        from_rgb(240, 128, 0),  // Tangerine.
        from_rgb(255, 191, 0),  // Amber.
        from_rgb(251, 206, 177),  // Apricot.
        from_rgb(204, 85, 0),  // Burnt Orange.
        from_rgb(255, 229, 180),  // Peach.
        from_rgb(255, 95, 31),  // Neon Orange.
        from_rgb(242, 140, 40),  // Cadmium Orange.
        from_rgb(253, 94, 83),  // Sunset Orange.
        from_rgb(255, 204, 102),  // Cantaloupe Orange.
        from_rgb(237, 145, 33),  // Carrot Orange.
        from_rgb(255, 99, 71),  // Fire Orange.
        from_rgb(250, 128, 114),  // Salmon Orange.
        from_rgb(255, 99, 71),  // Tomato Orange.
        from_rgb(255, 194, 77),  // Honey Orange.
        from_rgb(255, 88, 0),  // Tiger Orange.
        from_rgb(234, 142, 68),  // Cinnamon Orange.
        from_rgb(245, 134, 52),  // Chili Orange.
    ];
    assert(table@ =~= orange_palette());
    table
}

/// The blue with the given number.
pub fn blue_no(n: usize) -> (c: Color)
    requires
        n < PALETTE_SIZE,
    ensures
        c == blue_palette()[n as int],
{
    let table = blue_table();
    table[n]
}

/// The green with the given number.
pub fn green_no(n: usize) -> (c: Color)
    requires
        n < PALETTE_SIZE,
    ensures
        c == green_palette()[n as int],
{
    let table = green_table();
    table[n]
}

/// The orange with the given number.
pub fn orange_no(n: usize) -> (c: Color)
    requires
        n < PALETTE_SIZE,
    ensures
        c == orange_palette()[n as int],
{
    let table = orange_table();
    table[n]
}

/// The color with the given number in the table of `family`.
pub fn color_no(family: PaletteFamily, n: usize) -> (c: Color)
    requires
        n < PALETTE_SIZE,
    ensures
        c == palette(family)[n as int],
{
    match family {
        PaletteFamily::Blue => blue_no(n),
        PaletteFamily::Green => green_no(n),
        PaletteFamily::Orange => orange_no(n),
    }
}

/// The color at `index` in the table of `family`, or `None` where the table
/// has no such position.
pub fn lookup(family: PaletteFamily, index: usize) -> (found: Option<Color>)
    ensures
        index < PALETTE_SIZE ==> found == Some(palette(family)[index as int]),
        index >= PALETTE_SIZE ==> found is None,
{
    if index < PALETTE_SIZE {
        Some(color_no(family, index))
    } else {
        None
    }
}

} // verus!
