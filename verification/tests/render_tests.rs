use chord_svg::render::generate_svg;
use chord_svg::render::RenderError;
use chord_svg::types::Chord;
use chord_svg::types::Hand;
use chord_svg::types::Mode;

#[test]
fn generates_svg_for_barre3_major() {
    let shape = [-1, 0, 2, 2, 2, 0];
    let fret = 3;
    let frets: Vec<i32> = shape
        .iter()
        .map(|&f| {
            if f < 0 {
                -1 // preserve mute
            } else if f == 0 {
                fret // open string moves onto the barre fret
            } else {
                fret + f
            }
        })
        .collect();
    let barre_fret = fret;

    let title = String::from("C");
    let suffix = String::from("maj");
    let chord = Chord {
        frets,
        title: Some(title),
        suffix: Some(suffix),
        mode: Mode::Light,
        barres: Some(vec![barre_fret]),
        use_background: true,
        ..Default::default()
    };

    let svg = generate_svg(chord).unwrap();

    // Basic checks
    assert!(svg.contains("<svg"));
    assert!(svg.contains("circle"));
    assert!(svg.contains("C"));
}

#[test]
fn generates_svg_for_c_open() {
    let shape = [-1, 3, 2, 0, 1, 0]; // Standard C major open shape
    let frets: Vec<i32> = shape.iter().map(|&f| if f < 0 { -1 } else { f }).collect();

    let title = String::from("C");
    let suffix = String::from("maj");

    let chord = Chord {
        frets,
        title: Some(title),
        suffix: Some(suffix),
        mode: Mode::Light,
        use_background: true,
        barres: None,
        ..Default::default()
    };

    let svg = generate_svg(chord).unwrap();

    // Sanity checks
    assert!(svg.contains("<svg"));
    assert!(svg.contains("circle")); // At least some fretted notes
    assert!(svg.contains("C"));
    assert!(svg.contains(">0<")); // Open string labels
}

fn plain_chord(frets: Vec<i32>, barres: Option<Vec<i32>>) -> Chord {
    Chord {
        frets,
        barres,
        ..Default::default()
    }
}

#[test]
fn scenario_open_a_shape() {
    // frets [-1,0,2,2,2,0], no barre: muted string 0, open strings 1 and 5,
    // note markers at row 1 for strings 2-4, nut shown, no min-fret label.
    let svg = generate_svg(plain_chord(vec![-1, 0, 2, 2, 2, 0], None)).unwrap();
    assert!(svg.contains("<text x=\"30\" y=\"20\" text-anchor=\"middle\" fill=\"#222222\">x</text>"));
    assert!(svg.contains("<text x=\"70\" y=\"20\" text-anchor=\"middle\" fill=\"#222222\">0</text>"));
    assert!(svg.contains("<text x=\"230\" y=\"20\" text-anchor=\"middle\" fill=\"#222222\">0</text>"));
    // lowest fret is 2, so the fretted strings sit on row 1 (cy = 50)
    assert!(svg.contains("<circle cx=\"110\" cy=\"50\" r=\"12\" fill=\"#222222\" />"));
    assert!(svg.contains("<circle cx=\"150\" cy=\"50\" r=\"12\" fill=\"#222222\" />"));
    assert!(svg.contains("<circle cx=\"190\" cy=\"50\" r=\"12\" fill=\"#222222\" />"));
    // the nut is drawn thick and round
    assert!(svg.contains("stroke-width=\"9\""));
    assert!(svg.contains("stroke-linecap=\"round\""));
    // no floating-position label
    assert!(!svg.contains(">2</text>"));
}

#[test]
fn scenario_barre_at_three() {
    // The open-A shape moved up by a barre at fret 3: lowest fret 3, no nut,
    // a "3" position label, open markers suppressed, a bar over strings 1-5.
    let svg = generate_svg(plain_chord(vec![-1, 3, 5, 5, 5, 3], Some(vec![3]))).unwrap();
    assert!(!svg.contains("stroke-width=\"9\""));
    assert!(svg.contains("stroke-linecap=\"butt\""));
    assert!(svg.contains(">3</text>"));
    assert!(!svg.contains(">0</text>"));
    // bar from physical string 1 to 5 at row 1
    assert!(svg.contains("<rect x=\"58\" y=\"38\" width=\"184\" height=\"24\" rx=\"12\" fill=\"#222222\" />"));
}

#[test]
fn scenario_c_major_open() {
    // frets [-1,3,2,0,1,0], no barre: lowest fret 1 so the nut is shown, no
    // position label, one muted marker, open markers on strings 3 and 5.
    let svg = generate_svg(plain_chord(vec![-1, 3, 2, 0, 1, 0], None)).unwrap();
    assert!(svg.contains("stroke-width=\"9\""));
    assert!(!svg.contains(">1</text>"));
    assert_eq!(svg.matches(">x</text>").count(), 1);
    assert_eq!(svg.matches(">0</text>").count(), 2);
    assert!(svg.contains("<text x=\"150\" y=\"20\" text-anchor=\"middle\" fill=\"#222222\">0</text>"));
    assert!(svg.contains("<text x=\"230\" y=\"20\" text-anchor=\"middle\" fill=\"#222222\">0</text>"));
}

#[test]
fn left_hand_mirrors_strings() {
    let chord = Chord {
        frets: vec![-1, 0, 2, 2, 2, 0],
        hand: Hand::Left,
        ..Default::default()
    };
    let svg = generate_svg(chord).unwrap();
    // logical string 0 is muted; mirrored it sits at physical string 5 (x = 230)
    assert!(svg.contains("<text x=\"230\" y=\"20\" text-anchor=\"middle\" fill=\"#222222\">x</text>"));
}

#[test]
fn rendering_twice_is_byte_identical() {
    let make = || Chord {
        frets: vec![-1, 3, 5, 5, 5, 3],
        title: Some(String::from("C")),
        suffix: Some(String::from("maj")),
        mode: Mode::Dark,
        barres: Some(vec![3]),
        use_background: true,
        hand: Hand::Right,
    };
    let a = generate_svg(make()).unwrap();
    let b = generate_svg(make()).unwrap();
    assert_eq!(a, b);
}

#[test]
fn no_slot_is_left_unsubstituted() {
    let svg = generate_svg(plain_chord(vec![-1, 0, 2, 2, 2, 0], None)).unwrap();
    assert!(!svg.contains("{{"));
    assert!(!svg.contains("}}"));
}

#[test]
fn background_is_gated() {
    let with_bg = generate_svg(Chord {
        frets: vec![0, 0, 0, 0, 0, 0],
        use_background: true,
        ..Default::default()
    })
    .unwrap();
    let without_bg = generate_svg(Chord {
        frets: vec![0, 0, 0, 0, 0, 0],
        use_background: false,
        ..Default::default()
    })
    .unwrap();
    assert!(with_bg.contains("<rect width=\"100%\" height=\"100%\" fill=\"#FFFFFF\" />"));
    assert!(!without_bg.contains("<rect width=\"100%\""));
}

#[test]
fn dark_theme_swaps_palette() {
    let svg = generate_svg(Chord {
        frets: vec![0, 0, 0, 0, 0, 0],
        mode: Mode::Dark,
        use_background: true,
        ..Default::default()
    })
    .unwrap();
    assert!(svg.contains("#FAF5EF"));
    assert!(svg.contains("<rect width=\"100%\" height=\"100%\" fill=\"#1E1E2E\" />"));
}

#[test]
fn wrong_string_count_is_rejected() {
    let r = generate_svg(plain_chord(vec![0, 0, 0, 0, 0], None));
    assert_eq!(r.unwrap_err(), RenderError::InvalidInput);
}

#[test]
fn fret_below_minus_one_is_rejected() {
    let r = generate_svg(plain_chord(vec![0, -2, 0, 0, 0, 0], None));
    assert_eq!(r.unwrap_err(), RenderError::InvalidInput);
}

#[test]
fn empty_barre_list_is_rejected() {
    let r = generate_svg(plain_chord(vec![0, 0, 0, 0, 0, 0], Some(vec![])));
    assert_eq!(r.unwrap_err(), RenderError::InvalidInput);
}

#[test]
fn barre_below_fret_one_is_rejected() {
    let r = generate_svg(plain_chord(vec![0, 0, 0, 0, 0, 0], Some(vec![0])));
    assert_eq!(r.unwrap_err(), RenderError::InvalidInput);
}

#[test]
fn barre_covering_no_string_draws_no_bar() {
    let svg = generate_svg(plain_chord(vec![-1, 1, 1, 1, 1, 1], Some(vec![7]))).unwrap();
    assert!(!svg.contains("<rect x="));
}

#[test]
fn barre_above_the_window_is_not_drawn() {
    // every string is fretted at 5, so the window starts at 5; a barre at
    // fret 2 lies above the window and is not drawn
    let svg = generate_svg(plain_chord(vec![5, 5, 5, 5, 5, 5], Some(vec![2]))).unwrap();
    assert!(!svg.contains("<rect x="));
}

#[test]
fn all_muted_chord_renders() {
    let svg = generate_svg(plain_chord(vec![-1, -1, -1, -1, -1, -1], None)).unwrap();
    assert_eq!(svg.matches(">x</text>").count(), 6);
    assert!(!svg.contains("<circle"));
    assert!(!svg.contains("<rect x="));
}

#[test]
fn huge_fret_values_render() {
    let svg = generate_svg(plain_chord(vec![-1, -1, -1, -1, -1, i32::MAX], None)).unwrap();
    // the single fretted string sits on row 1 of a window floating at i32::MAX
    assert!(svg.contains("<circle cx=\"230\" cy=\"50\" r=\"12\" fill=\"#222222\" />"));
    assert!(svg.contains(">2147483647</text>"));
}
