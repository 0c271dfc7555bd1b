//! The boundary to the tera template engine: the fixed SVG skeleton and the
//! trusted declarations for building a substitution context and rendering it.
//!
//! The skeleton uses plain `{{ slot }}` substitutions only — no template
//! functions, filters, loops or conditionals — so what `Tera::one_off` makes
//! of it depends on the slot map alone.

use vstd::prelude::*;

verus! {

#[verifier::external_type_specification]
#[verifier::external_body]
pub struct ExContext(tera::Context);

#[verifier::external_type_specification]
#[verifier::external_body]
pub struct ExTeraError(tera::Error);

/// A slot map with no bindings.
pub open spec fn empty_slots() -> Map<Seq<char>, Seq<char>> {
    Map::empty()
}

/// What a substitution context holds: the map from slot name to the exact
/// text that is substituted for that slot.
pub uninterp spec fn ctx_model(c: tera::Context) -> Map<Seq<char>, Seq<char>>;

/// What `Tera::one_off` produces, with autoescaping off, for this crate's
/// fixed skeleton and a given slot map: either the finished document or a
/// template failure. Named rather than spelled out; the trusted items below
/// say how it is reached.
pub uninterp spec fn spec_one_off(template: Seq<char>, slots: Map<Seq<char>, Seq<char>>) -> Result<
    Seq<char>,
    (),
>;

/// The fixed document skeleton with its named substitution slots.
pub open spec fn spec_template() -> Seq<char> {
    "<svg xmlns=\"http://www.w3.org/2000/svg\" width=\"260\" height=\"300\" viewBox=\"0 0 260 300\">\n{{ background }}\n<g transform=\"translate(0, {{ padding }})\">\n<g stroke=\"{{ foreground }}\" stroke-width=\"2\">\n<line x1=\"30\" y1=\"30\" x2=\"230\" y2=\"30\" stroke-width=\"{{ nutWidth }}\" stroke-linecap=\"{{ nutShape }}\" />\n<line x1=\"30\" y1=\"70\" x2=\"230\" y2=\"70\" />\n<line x1=\"30\" y1=\"110\" x2=\"230\" y2=\"110\" />\n<line x1=\"30\" y1=\"150\" x2=\"230\" y2=\"150\" />\n<line x1=\"30\" y1=\"190\" x2=\"230\" y2=\"190\" />\n<line x1=\"30\" y1=\"30\" x2=\"30\" y2=\"190\" />\n<line x1=\"70\" y1=\"30\" x2=\"70\" y2=\"190\" />\n<line x1=\"110\" y1=\"30\" x2=\"110\" y2=\"190\" />\n<line x1=\"150\" y1=\"30\" x2=\"150\" y2=\"190\" />\n<line x1=\"190\" y1=\"30\" x2=\"190\" y2=\"190\" />\n<line x1=\"230\" y1=\"30\" x2=\"230\" y2=\"190\" />\n</g>\n{{ minFret }}\n{{ muted }}\n{{ open }}\n{{ notes }}\n{{ barres }}\n</g>\n{{ title }}\n</svg>\n"@
}

/// The skeleton as an executable string.
pub fn chord_template() -> (t: &'static str)
    ensures
        t@ == spec_template(),
{
    "<svg xmlns=\"http://www.w3.org/2000/svg\" width=\"260\" height=\"300\" viewBox=\"0 0 260 300\">\n{{ background }}\n<g transform=\"translate(0, {{ padding }})\">\n<g stroke=\"{{ foreground }}\" stroke-width=\"2\">\n<line x1=\"30\" y1=\"30\" x2=\"230\" y2=\"30\" stroke-width=\"{{ nutWidth }}\" stroke-linecap=\"{{ nutShape }}\" />\n<line x1=\"30\" y1=\"70\" x2=\"230\" y2=\"70\" />\n<line x1=\"30\" y1=\"110\" x2=\"230\" y2=\"110\" />\n<line x1=\"30\" y1=\"150\" x2=\"230\" y2=\"150\" />\n<line x1=\"30\" y1=\"190\" x2=\"230\" y2=\"190\" />\n<line x1=\"30\" y1=\"30\" x2=\"30\" y2=\"190\" />\n<line x1=\"70\" y1=\"30\" x2=\"70\" y2=\"190\" />\n<line x1=\"110\" y1=\"30\" x2=\"110\" y2=\"190\" />\n<line x1=\"150\" y1=\"30\" x2=\"150\" y2=\"190\" />\n<line x1=\"190\" y1=\"30\" x2=\"190\" y2=\"190\" />\n<line x1=\"230\" y1=\"30\" x2=\"230\" y2=\"190\" />\n</g>\n{{ minFret }}\n{{ muted }}\n{{ open }}\n{{ notes }}\n{{ barres }}\n</g>\n{{ title }}\n</svg>\n"
}

/// Relies on `tera::Context::new`: creates a context with no bindings.
#[verifier::external_body]
pub(crate) fn ctx_new() -> (ctx: tera::Context)
    ensures
        ctx_model(ctx) == empty_slots(),
{
    tera::Context::new()
}

/// Relies on `tera::Context::insert`: binds slot `key` to the given string,
/// overwriting any earlier binding. A string value is stored as itself and,
/// with autoescaping off, substitutes as its own text; serialising a
/// `String` cannot fail, so this call cannot panic.
#[verifier::external_body]
pub(crate) fn ctx_insert(ctx: &mut tera::Context, key: &'static str, value: &String)
    ensures
        ctx_model(*final(ctx)) == ctx_model(*old(ctx)).insert(key@, value@),
{
    ctx.insert(key, value);
}

/// Relies on `Tera::one_off`: parses the template and renders it against the
/// context, with autoescaping off. For this crate's fixed skeleton — plain
/// `{{ slot }}` substitutions, no template functions or filters — both the
/// produced document and whether rendering succeeds are functions of the
/// slot map alone.
#[verifier::external_body]
pub(crate) fn one_off_render(template: &str, ctx: &tera::Context) -> (r: Result<
    String,
    tera::Error,
>)
    requires
        template@ == spec_template(),
    ensures
        (r is Ok) == (spec_one_off(template@, ctx_model(*ctx)) is Ok),
        r matches Ok(s) ==> s@ == spec_one_off(template@, ctx_model(*ctx))->Ok_0,
{
    tera::Tera::one_off(template, ctx, false)
}

} // verus!
