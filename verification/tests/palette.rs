use resmoke_colors::color::{from_rgb, Color};
use resmoke_colors::palette::{
    blue_no, color_no, green_no, lookup, orange_no, PaletteFamily, PALETTE_SIZE,
};

fn rgb(r: u8, g: u8, b: u8) -> Color {
    Color::TrueColor { r, g, b }
}

#[test]
fn from_rgb_makes_a_true_color() {
    assert_eq!(from_rgb(1, 2, 3), Color::TrueColor { r: 1, g: 2, b: 3 });
    assert_ne!(from_rgb(1, 2, 3), from_rgb(3, 2, 1));
}

#[test]
fn blue_table_holds_the_documented_colors() {
    let expected = [
        (0, 0, 255),
        (135, 206, 235),
        (137, 207, 240),
        (70, 130, 180),
        (86, 160, 211),
        (0, 97, 112),
        (115, 194, 251),
        (0, 0, 128),
        (15, 82, 186),
        (0, 49, 81),
        (176, 224, 230),
        (125, 249, 255),
        (54, 117, 136),
        (153, 255, 255),
        (91, 146, 229),
        (73, 151, 208),
        (84, 90, 167),
        (76, 81, 109),
        (93, 138, 168),
        (15, 77, 146),
    ];
    for (n, (r, g, b)) in expected.iter().enumerate() {
        assert_eq!(blue_no(n), rgb(*r, *g, *b), "blue {}", n);
    }
}

#[test]
fn green_table_holds_the_documented_colors() {
    let expected = [
        (0, 255, 0),
        (34, 139, 34),
        (46, 139, 87),
        (128, 128, 0),
        (152, 251, 152),
        (76, 187, 23),
        (0, 128, 128),
        (0, 168, 107),
        (80, 200, 120),
        (120, 134, 107),
        (152, 255, 152),
        (41, 171, 135),
        (79, 121, 66),
        (1, 121, 111),
        (53, 94, 59),
        (109, 157, 85),
        (188, 184, 138),
        (107, 142, 35),
        (0, 158, 96),
        (80, 200, 120),
    ];
    for (n, (r, g, b)) in expected.iter().enumerate() {
        assert_eq!(green_no(n), rgb(*r, *g, *b), "green {}", n);
    }
}

#[test]
fn orange_table_holds_the_documented_colors() {
    let expected = [
        (255, 165, 0),
        (255, 117, 24),
        (255, 127, 80),
        (240, 128, 0),
        (255, 191, 0),
        (251, 206, 177),
        (204, 85, 0),
        (255, 229, 180),
        (255, 95, 31),
        (242, 140, 40),
        (253, 94, 83),
        (255, 204, 102),
        (237, 145, 33),
        (255, 99, 71),
        (250, 128, 114),
        (255, 99, 71),
        (255, 194, 77),
        (255, 88, 0),
        (234, 142, 68),
        (245, 134, 52),
    ];
    for (n, (r, g, b)) in expected.iter().enumerate() {
        assert_eq!(orange_no(n), rgb(*r, *g, *b), "orange {}", n);
    }
}

#[test]
fn lookup_within_the_table_finds_the_color_at_that_position() {
    assert_eq!(lookup(PaletteFamily::Blue, 0), Some(rgb(0, 0, 255)));
    assert_eq!(lookup(PaletteFamily::Blue, 19), Some(rgb(15, 77, 146)));
    assert_eq!(lookup(PaletteFamily::Green, 7), Some(rgb(0, 168, 107)));
    assert_eq!(lookup(PaletteFamily::Orange, 12), Some(rgb(237, 145, 33)));
    for n in 0..PALETTE_SIZE {
        assert_eq!(lookup(PaletteFamily::Blue, n), Some(blue_no(n)));
        assert_eq!(lookup(PaletteFamily::Green, n), Some(green_no(n)));
        assert_eq!(lookup(PaletteFamily::Orange, n), Some(orange_no(n)));
        assert_eq!(color_no(PaletteFamily::Orange, n), orange_no(n));
    }
}

#[test]
fn lookup_beyond_the_table_finds_nothing() {
    assert_eq!(PALETTE_SIZE, 20);
    for family in [PaletteFamily::Blue, PaletteFamily::Green, PaletteFamily::Orange] {
        assert_eq!(lookup(family, 20), None);
        assert_eq!(lookup(family, 21), None);
        assert_eq!(lookup(family, usize::MAX), None);
    }
}

#[test]
fn offsets_of_the_two_job_slots_never_share_a_color() {
    for family in [PaletteFamily::Blue, PaletteFamily::Green, PaletteFamily::Orange] {
        for i in 0..10 {
            assert_ne!(color_no(family, i), color_no(family, 10 + i));
        }
    }
}

#[test]
fn each_table_repeats_at_most_one_color() {
    for family in [PaletteFamily::Blue, PaletteFamily::Green, PaletteFamily::Orange] {
        for x in 0..PALETTE_SIZE {
            for y in 0..PALETTE_SIZE {
                let repeated = match family {
                    PaletteFamily::Blue => false,
                    PaletteFamily::Green => (x, y) == (8, 19) || (x, y) == (19, 8),
                    PaletteFamily::Orange => (x, y) == (13, 15) || (x, y) == (15, 13),
                };
                if x != y && !repeated {
                    assert_ne!(color_no(family, x), color_no(family, y));
                }
                if repeated {
                    assert_eq!(color_no(family, x), color_no(family, y));
                }
            }
        }
    }
}
