//! The layout orchestrator: validates a chord, computes the shared geometry,
//! runs every fragment generator, and hands the named slots to the template
//! renderer.

use vstd::prelude::*;

verus! {

use vstd::string::StringExecFns;

use crate::geometry::lowest_fret;
use crate::geometry::physical_string;
use crate::geometry::show_nut;
use crate::geometry::lemma_lowest_fret_is_min;
use crate::geometry::spec_lowest_fret;
use crate::geometry::spec_phys;
use crate::geometry::spec_show_nut;
use crate::svg::frag_barres;
use crate::svg::frag_bg;
use crate::svg::frag_min_fret;
use crate::svg::frag_muted;
use crate::svg::frag_note;
use crate::svg::frag_open;
use crate::svg::frag_title;
use crate::svg::svg_draw_barres;
use crate::svg::svg_draw_bg;
use crate::svg::svg_draw_min_fret;
use crate::svg::svg_draw_muted_string;
use crate::svg::svg_draw_note;
use crate::svg::svg_draw_open_string;
use crate::svg::svg_draw_title;
use crate::svg::MARGIN;
use crate::text::dec_str;
use crate::text::u64_to_string;
use crate::tpl::chord_template;
use crate::tpl::ctx_insert;
use crate::tpl::ctx_new;
use crate::tpl::ctx_model;
use crate::tpl::one_off_render;
use crate::tpl::empty_slots;
use crate::tpl::spec_one_off;
use crate::tpl::spec_template;
use crate::types::Chord;
use crate::types::Hand;
use crate::types::STRING_COUNT;
use crate::utils::get_palette;
use crate::utils::opt_frets_view;
use crate::utils::opt_string_view;
use crate::utils::palette_bg;
use crate::utils::palette_fg;

/// Why a render failed.
#[derive(Clone, Copy, PartialEq, Eq, Structural, Debug)]
pub enum RenderError {
    /// The chord is malformed: wrong number of strings, a fret value below
    /// `-1`, or a barre list that is empty or starts below fret `1`.
    InvalidInput,
    /// The template renderer rejected the slot map or the skeleton.
    Template,
}

/// A well-formed chord: one fret value per string, every value in
/// `{-1, 0} ∪ ℤ+`, and — when a barre list is given — at least one entry,
/// the first at fret `1` or higher (only the first entry is drawn).
pub open spec fn chord_valid(c: Chord) -> bool {
    &&& c.frets@.len() == STRING_COUNT
    &&& (forall|i: int| 0 <= i < c.frets@.len() ==> c.frets@[i] >= -1)
    &&& match opt_frets_view(c.barres) {
        Option::None => true,
        Option::Some(bs) => bs.len() >= 1 && bs[0] >= 1,
    }
}

/// All muted-string markers, in string order.
pub open spec fn muted_frags(frets: Seq<i32>, hand: Hand, fg: Seq<char>) -> Seq<char>
    decreases frets.len(),
{
    if frets.len() == 0 {
        Seq::<char>::empty()
    } else {
        muted_frags(frets.drop_last(), hand, fg) + if frets.last() == -1 {
            frag_muted(spec_phys(hand, frets.len() - 1), fg)
        } else {
            Seq::<char>::empty()
        }
    }
}

/// All open-string markers, in string order.
pub open spec fn open_frags(frets: Seq<i32>, hand: Hand, fg: Seq<char>) -> Seq<char>
    decreases frets.len(),
{
    if frets.len() == 0 {
        Seq::<char>::empty()
    } else {
        open_frags(frets.drop_last(), hand, fg) + if frets.last() == 0 {
            frag_open(spec_phys(hand, frets.len() - 1), fg)
        } else {
            Seq::<char>::empty()
        }
    }
}

/// All note markers, in string order.
pub open spec fn notes_frags(frets: Seq<i32>, hand: Hand, lowest: int, fg: Seq<char>) -> Seq<char>
    decreases frets.len(),
{
    if frets.len() == 0 {
        Seq::<char>::empty()
    } else {
        notes_frags(frets.drop_last(), hand, lowest, fg) + if frets.last() > 0 {
            frag_note(spec_phys(hand, frets.len() - 1), frets.last() as int, lowest, fg)
        } else {
            Seq::<char>::empty()
        }
    }
}

/// The named slots handed to the template renderer, as a function of the
/// chord alone. Open markers are bound to the empty fragment whenever a
/// barre is present, however many strings read fret `0`.
pub open spec fn spec_slots(c: Chord) -> Map<Seq<char>, Seq<char>> {
    let fg = palette_fg(c.mode);
    let lowest = spec_lowest_fret(c.frets@);
    let nut = spec_show_nut(c.frets@);
    empty_slots().insert(
        "title"@,
        frag_title(opt_string_view(c.title), opt_string_view(c.suffix), fg),
    ).insert("padding"@, dec_str(MARGIN as nat)).insert(
        "nutWidth"@,
        dec_str(
            if nut {
                9
            } else {
                2
            },
        ),
    ).insert(
        "nutShape"@,
        if nut {
            "round"@
        } else {
            "butt"@
        },
    ).insert("notes"@, notes_frags(c.frets@, c.hand, lowest, fg)).insert(
        "minFret"@,
        frag_min_fret(lowest, nut, fg),
    ).insert("muted"@, muted_frags(c.frets@, c.hand, fg)).insert(
        "open"@,
        if c.barres is Some {
            Seq::<char>::empty()
        } else {
            open_frags(c.frets@, c.hand, fg)
        },
    ).insert("foreground"@, fg).insert(
        "background"@,
        frag_bg(c.use_background, palette_bg(c.mode)),
    ).insert(
        "barres"@,
        match opt_frets_view(c.barres) {
            Option::Some(bs) => frag_barres(c.frets@, bs[0] as int, lowest, c.hand, fg),
            Option::None => Seq::<char>::empty(),
        },
    )
}

/// What a render returns, as a function of the chord alone: a malformed
/// chord is rejected before any layout, and otherwise the result is the
/// template renderer's output on the computed slots.
pub open spec fn spec_render(c: Chord) -> Result<Seq<char>, RenderError> {
    if !chord_valid(c) {
        Result::Err(RenderError::InvalidInput)
    } else {
        match spec_one_off(spec_template(), spec_slots(c)) {
            Result::Ok(s) => Result::Ok(s),
            Result::Err(_) => Result::Err(RenderError::Template),
        }
    }
}

/// Renders a chord to a complete SVG document: the primary operation.
pub fn generate_svg(chord: Chord) -> (r: Result<String, RenderError>)
    ensures
        (r is Ok) == (spec_render(chord) is Ok),
        r matches Ok(s) ==> s@ == spec_render(chord)->Ok_0,
        r matches Err(e) ==> e == spec_render(chord)->Err_0,
{
    // Validation: reject malformed input before any layout happens.
    if chord.frets.len() != STRING_COUNT {
        return Result::Err(RenderError::InvalidInput);
    }
    let mut i: usize = 0;
    while i < chord.frets.len()
        invariant
            0 <= i <= chord.frets@.len(),
            forall|j: int| 0 <= j < i ==> chord.frets@[j] >= -1,
        decreases chord.frets@.len() - i,
    {
        if chord.frets[i] < -1 {
            return Result::Err(RenderError::InvalidInput);
        }
        i = i + 1;
    }
    match &chord.barres {
        Option::Some(bs) => {
            if bs.len() == 0 || bs[0] < 1 {
                return Result::Err(RenderError::InvalidInput);
            }
        },
        Option::None => (),
    }
    assert(chord_valid(chord));

    let palette = get_palette(chord.mode);
    let lowest = lowest_fret(&chord.frets);
    proof {
        lemma_lowest_fret_is_min(chord.frets@);
    }
    let nut = show_nut(&chord.frets, lowest);

    let mut muted = String::new();
    let mut i: usize = 0;
    while i < chord.frets.len()
        invariant
            chord.frets@.len() == STRING_COUNT,
            0 <= i <= chord.frets@.len(),
            palette.fg@ == palette_fg(chord.mode),
            muted@ == muted_frags(chord.frets@.take(i as int), chord.hand, palette_fg(chord.mode)),
        decreases chord.frets@.len() - i,
    {
        proof {
            assert(chord.frets@.take(i + 1).drop_last() =~= chord.frets@.take(i as int));
            assert(chord.frets@.take(i + 1).last() == chord.frets@[i as int]);
        }
        if chord.frets[i] == -1 {
            let p = physical_string(chord.hand, i);
            let frag = svg_draw_muted_string(p, &palette);
            muted.append(frag.as_str());
        }
        proof {
            assert(muted@ =~= muted_frags(
                chord.frets@.take(i + 1),
                chord.hand,
                palette_fg(chord.mode),
            ));
        }
        i = i + 1;
    }
    proof {
        assert(chord.frets@.take(chord.frets@.len() as int) =~= chord.frets@);
    }

    let show_open = chord.barres.is_none();
    let mut open = String::new();
    if show_open {
        let mut i: usize = 0;
        while i < chord.frets.len()
            invariant
                chord.frets@.len() == STRING_COUNT,
                0 <= i <= chord.frets@.len(),
                palette.fg@ == palette_fg(chord.mode),
                open@ == open_frags(
                    chord.frets@.take(i as int),
                    chord.hand,
                    palette_fg(chord.mode),
                ),
            decreases chord.frets@.len() - i,
        {
            proof {
                assert(chord.frets@.take(i + 1).drop_last() =~= chord.frets@.take(i as int));
                assert(chord.frets@.take(i + 1).last() == chord.frets@[i as int]);
            }
            if chord.frets[i] == 0 {
                let p = physical_string(chord.hand, i);
                let frag = svg_draw_open_string(p, &palette);
                open.append(frag.as_str());
            }
            proof {
                assert(open@ =~= open_frags(
                    chord.frets@.take(i + 1),
                    chord.hand,
                    palette_fg(chord.mode),
                ));
            }
            i = i + 1;
        }
        proof {
            assert(chord.frets@.take(chord.frets@.len() as int) =~= chord.frets@);
        }
    }

    let mut notes = String::new();
    let mut i: usize = 0;
    while i < chord.frets.len()
        invariant
            chord.frets@.len() == STRING_COUNT,
            0 <= i <= chord.frets@.len(),
            palette.fg@ == palette_fg(chord.mode),
            lowest == spec_lowest_fret(chord.frets@),
            forall|j: int|
                0 <= j < chord.frets@.len() && chord.frets@[j] > 0 ==> 0 < lowest
                    <= #[trigger] chord.frets@[j],
            notes@ == notes_frags(
                chord.frets@.take(i as int),
                chord.hand,
                lowest as int,
                palette_fg(chord.mode),
            ),
        decreases chord.frets@.len() - i,
    {
        proof {
            assert(chord.frets@.take(i + 1).drop_last() =~= chord.frets@.take(i as int));
            assert(chord.frets@.take(i + 1).last() == chord.frets@[i as int]);
        }
        let f = chord.frets[i];
        if f > 0 {
            let p = physical_string(chord.hand, i);
            let frag = svg_draw_note(f, p, lowest, &palette);
            notes.append(frag.as_str());
        }
        proof {
            assert(notes@ =~= notes_frags(
                chord.frets@.take(i + 1),
                chord.hand,
                lowest as int,
                palette_fg(chord.mode),
            ));
        }
        i = i + 1;
    }
    proof {
        assert(chord.frets@.take(chord.frets@.len() as int) =~= chord.frets@);
    }

    let min_fret_marker = svg_draw_min_fret(lowest, nut, &palette);
    let chord_title = svg_draw_title(&chord, &palette);
    let background = svg_draw_bg(chord.use_background, &palette);
    let barres = match &chord.barres {
        Option::Some(bs) => svg_draw_barres(bs[0], &chord.frets, lowest, chord.hand, &palette),
        Option::None => String::new(),
    };

    let nut_width = u64_to_string(
        if nut {
            9
        } else {
            2
        },
    );
    let nut_shape = if nut {
        String::from_str("round")
    } else {
        String::from_str("butt")
    };
    let padding = u64_to_string(MARGIN);

    let mut ctx = ctx_new();
    ctx_insert(&mut ctx, "title", &chord_title);
    ctx_insert(&mut ctx, "padding", &padding);
    ctx_insert(&mut ctx, "nutWidth", &nut_width);
    ctx_insert(&mut ctx, "nutShape", &nut_shape);
    ctx_insert(&mut ctx, "notes", &notes);
    ctx_insert(&mut ctx, "minFret", &min_fret_marker);
    ctx_insert(&mut ctx, "muted", &muted);
    ctx_insert(&mut ctx, "open", &open);
    ctx_insert(&mut ctx, "foreground", &palette.fg);
    ctx_insert(&mut ctx, "background", &background);
    ctx_insert(&mut ctx, "barres", &barres);
    proof {
        assert(ctx_model(ctx) == spec_slots(chord));
    }

    let template = chord_template();
    match one_off_render(template, &ctx) {
        Result::Ok(document) => Result::Ok(document),
        Result::Err(_) => Result::Err(RenderError::Template),
    }
}

} // verus!
