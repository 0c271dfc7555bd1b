use chord_svg::geometry::lowest_fret;
use chord_svg::geometry::physical_string;
use chord_svg::geometry::show_nut;
use chord_svg::svg::svg_draw_min_fret;
use chord_svg::svg::svg_draw_title;
use chord_svg::text::u64_to_string;
use chord_svg::types::Chord;
use chord_svg::types::Hand;
use chord_svg::types::Mode;
use chord_svg::utils::get_filename;
use chord_svg::utils::get_palette;

#[test]
fn lowest_fret_is_minimum_positive() {
    assert_eq!(lowest_fret(&vec![-1, 0, 2, 2, 2, 0]), 2);
    assert_eq!(lowest_fret(&vec![-1, 3, 2, 0, 1, 0]), 1);
    assert_eq!(lowest_fret(&vec![3, 5, 5, 5, 3, 3]), 3);
    assert_eq!(lowest_fret(&vec![-1, 0, 0, 0, 0, 0]), 0);
    assert_eq!(lowest_fret(&vec![]), 0);
}

#[test]
fn show_nut_follows_the_rule() {
    // open string with a window starting below fret 3
    let a = vec![-1, 0, 2, 2, 2, 0];
    assert!(show_nut(&a, lowest_fret(&a)));
    // no open string, no fret 1, window starts at 3
    let b = vec![-1, 3, 5, 5, 5, 3];
    assert!(!show_nut(&b, lowest_fret(&b)));
    // fret 1 present
    let c = vec![-1, 3, 2, 0, 1, 0];
    assert!(show_nut(&c, lowest_fret(&c)));
    // open string but window starts at fret 4: too far from the nut
    let d = vec![-1, 0, 4, 4, 4, -1];
    assert!(!show_nut(&d, lowest_fret(&d)));
}

#[test]
fn physical_string_mirrors_for_left_hand() {
    assert_eq!(physical_string(Hand::Right, 0), 0);
    assert_eq!(physical_string(Hand::Right, 5), 5);
    assert_eq!(physical_string(Hand::Left, 0), 5);
    assert_eq!(physical_string(Hand::Left, 5), 0);
    assert_eq!(physical_string(Hand::Left, 2), 3);
}

#[test]
fn min_fret_marker_visibility() {
    let p = get_palette(Mode::Light);
    assert_eq!(
        svg_draw_min_fret(3, false, &p),
        "<text x=\"2\" y=\"44\" fill=\"#222222\">3</text>"
    );
    assert!(!svg_draw_min_fret(3, true, &p).is_empty());
    assert!(!svg_draw_min_fret(2, false, &p).is_empty());
    assert!(svg_draw_min_fret(2, true, &p).is_empty());
    assert!(svg_draw_min_fret(1, false, &p).is_empty());
    assert!(svg_draw_min_fret(0, true, &p).is_empty());
}

#[test]
fn palette_lookup() {
    let light = get_palette(Mode::Light);
    assert_eq!(light.fg, "#222222");
    assert_eq!(light.bg, "#FFFFFF");
    let dark = get_palette(Mode::Dark);
    assert_eq!(dark.fg, "#FAF5EF");
    assert_eq!(dark.bg, "#1E1E2E");
}

#[test]
fn decimal_rendering() {
    assert_eq!(u64_to_string(0), "0");
    assert_eq!(u64_to_string(7), "7");
    assert_eq!(u64_to_string(30), "30");
    assert_eq!(u64_to_string(230), "230");
    assert_eq!(u64_to_string(18446744073709551615), "18446744073709551615");
}

#[test]
fn title_substitutes_accidental_glyphs() {
    let chord = Chord {
        frets: vec![0, 0, 0, 0, 0, 0],
        title: Some(String::from("C")),
        suffix: Some(String::from("#5b9")),
        ..Default::default()
    };
    let p = get_palette(Mode::Light);
    let title = svg_draw_title(&chord, &p);
    assert!(title.contains("C\u{266F}5\u{266D}9"));
    assert!(title.starts_with("<text"));
}

#[test]
fn title_empty_when_nothing_given() {
    let chord = Chord {
        frets: vec![0, 0, 0, 0, 0, 0],
        ..Default::default()
    };
    let p = get_palette(Mode::Light);
    assert_eq!(svg_draw_title(&chord, &p), "");
}

#[test]
fn filename_hash_is_content_addressed() {
    let make = |mode: Mode| Chord {
        frets: vec![-1, 3, 2, 0, 1, 0],
        title: Some(String::from("C")),
        suffix: Some(String::from("maj")),
        mode,
        ..Default::default()
    };
    let a = get_filename(&make(Mode::Light));
    let b = get_filename(&make(Mode::Light));
    assert_eq!(a, b);
    let c = get_filename(&make(Mode::Dark));
    assert_ne!(a, c);
}
