use mcvideo::extractor::pixels_from_rgb24;
use mcvideo::palette::{colour_distance, Palette, FIRST_SELECTABLE, PALETTE_SIZE};
use mcvideo::util::Colour;

fn rgb(r: u8, g: u8, b: u8) -> Colour {
    Colour { r, g, b }
}

/// A palette of greys, entry `i` being `(i, i, i)`.
fn greys() -> Vec<Colour> {
    (0..=255u8).map(|i| rgb(i, i, i)).collect()
}

#[test]
fn from_slice_reads_red_green_blue() {
    let c = Colour::from_slice(&[10, 20, 30, 40]);
    assert_eq!(c, rgb(10, 20, 30));
}

#[test]
fn as_usize_packs_red_high_blue_low() {
    assert_eq!(rgb(1, 2, 3).as_usize(), 0x01_02_03);
    assert_eq!(rgb(0, 0, 0).as_usize(), 0);
    assert_eq!(rgb(255, 255, 255).as_usize(), 0xff_ff_ff);
    assert_eq!(rgb(255, 0, 0).as_usize(), 0xff_00_00);
    assert_eq!(rgb(0, 0, 255).as_usize(), 255);
}

#[test]
fn from_key_inverts_as_usize() {
    for key in [0u32, 1, 255, 256, 65535, 65536, 0x12_34_56, 0xff_ff_ff] {
        let c = Colour::from_key(key);
        assert_eq!(c.as_usize(), key as usize);
    }
    assert_eq!(Colour::from_key(0x12_34_56), rgb(0x12, 0x34, 0x56));
}

#[test]
fn rgb24_buffer_becomes_pixels_in_order() {
    let pixels = pixels_from_rgb24(&[1, 2, 3, 4, 5, 6, 7, 8, 9]);
    assert_eq!(pixels, vec![rgb(1, 2, 3), rgb(4, 5, 6), rgb(7, 8, 9)]);
    assert_eq!(pixels_from_rgb24(&[]), Vec::<Colour>::new());
}

#[test]
fn distance_is_squared_euclidean() {
    assert_eq!(colour_distance(rgb(0, 0, 0), rgb(255, 255, 255)), 195075);
    assert_eq!(colour_distance(rgb(255, 255, 255), rgb(0, 0, 0)), 195075);
    assert_eq!(colour_distance(rgb(10, 20, 30), rgb(13, 16, 30)), 9 + 16);
    assert_eq!(colour_distance(rgb(7, 7, 7), rgb(7, 7, 7)), 0);
}

#[test]
fn palette_needs_exactly_256_entries() {
    assert_eq!(PALETTE_SIZE, 256);
    assert!(Palette::new(greys()).is_some());
    let mut short = greys();
    short.pop();
    assert!(Palette::new(short).is_none());
    let mut long = greys();
    long.push(rgb(0, 0, 0));
    assert!(Palette::new(long).is_none());
    assert!(Palette::new(Vec::new()).is_none());
}

#[test]
fn palette_keeps_its_entries() {
    let palette = Palette::new(greys()).unwrap();
    assert_eq!(palette.colour(0), rgb(0, 0, 0));
    assert_eq!(palette.colour(200), rgb(200, 200, 200));
    assert_eq!(palette.colours(), &greys());
}

#[test]
fn nearest_picks_the_closest_entry() {
    let palette = Palette::new(greys()).unwrap();
    assert_eq!(palette.nearest(rgb(100, 100, 100)), 100);
    assert_eq!(palette.nearest(rgb(100, 101, 102)), 101);
    assert_eq!(palette.nearest(rgb(255, 255, 255)), 255);
    assert_eq!(palette.nearest(rgb(255, 0, 0)), 85);
}

#[test]
fn nearest_never_returns_a_reserved_entry() {
    assert_eq!(FIRST_SELECTABLE, 4);
    let palette = Palette::new(greys()).unwrap();
    // Entries 0 to 3 are exact or closer matches, yet entry 4 is chosen.
    assert_eq!(palette.nearest(rgb(0, 0, 0)), 4);
    assert_eq!(palette.nearest(rgb(1, 1, 1)), 4);
    assert_eq!(palette.nearest(rgb(3, 3, 3)), 4);
    for key in (0..0x100_0000u32).step_by(4099) {
        assert!(palette.nearest(Colour::from_key(key)) >= 4);
    }
}

#[test]
fn nearest_breaks_ties_towards_the_lowest_index() {
    let mut colours = greys();
    colours[40] = rgb(9, 9, 9);
    colours[9] = rgb(200, 0, 0);
    colours[77] = rgb(200, 0, 0);
    colours[250] = rgb(200, 0, 0);
    let palette = Palette::new(colours).unwrap();
    assert_eq!(palette.nearest(rgb(200, 0, 0)), 9);
    assert_eq!(palette.nearest(rgb(201, 1, 0)), 9);
    // Equidistant from entries 100 and 102 once 101 is gone.
    let mut colours = greys();
    colours[101] = rgb(0, 0, 0);
    let palette = Palette::new(colours).unwrap();
    assert_eq!(palette.nearest(rgb(101, 101, 101)), 100);
}

#[test]
fn nearest_matches_an_independent_search() {
    let colours: Vec<Colour> = (0..256u32)
        .map(|i| rgb((i * 37 % 256) as u8, (i * 91 % 256) as u8, (i * 151 % 256) as u8))
        .collect();
    let palette = Palette::new(colours.clone()).unwrap();
    for key in (0..0x100_0000u32).step_by(7919) {
        let c = Colour::from_key(key);
        let mut best = 4usize;
        let mut best_d = i64::MAX;
        for (i, p) in colours.iter().enumerate().skip(4) {
            let d = (p.r as i64 - c.r as i64).pow(2)
                + (p.g as i64 - c.g as i64).pow(2)
                + (p.b as i64 - c.b as i64).pow(2);
            if d < best_d {
                best = i;
                best_d = d;
            }
        }
        assert_eq!(palette.nearest(c) as usize, best);
    }
}
