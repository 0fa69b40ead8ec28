//! The C header text generated from a list of glue parameters: a block of
//! identifier definitions and a block of primitive initializers.

use vstd::prelude::*;

use crate::decimal::{decimal, decimal_string};
use crate::gluepars::{models, GluePar, GlueParKind, GlueParModel};

verus! {

/// What `str::to_lowercase` returns for the characters `s`.
pub uninterp spec fn lower_of(s: Seq<char>) -> Seq<char>;

/// Relies on `str::to_lowercase`: the lowercase form of a string, which
/// depends on its characters alone.
#[verifier::external_body]
fn lowercase(s: &str) -> (r: String)
    ensures
        r@ == lower_of(s@),
{
    s.to_lowercase()
}

/// `s` with every underscore removed and all other characters kept in order.
pub open spec fn without_separators(s: Seq<char>) -> Seq<char> {
    s.filter(|c: char| c != '_')
}

/// Relies on `str::replace`: replacing every match of the pattern `"_"` with
/// the empty string removes each underscore and keeps the other characters in
/// order.
#[verifier::external_body]
fn strip_separators(s: &str) -> (r: String)
    ensures
        r@ == without_separators(s@),
{
    s.replace("_", "")
}

/// The views of a sequence of strings.
pub open spec fn views(keys: Seq<String>) -> Seq<Seq<char>> {
    keys.map_values(|k: String| k@)
}

/// The identifier keys of parameters: their names in lowercase.
pub open spec fn keys_of(pars: Seq<GlueParModel>) -> Seq<Seq<char>> {
    pars.map_values(|p: GlueParModel| lower_of(p.name))
}

/// The line that gives the parameter with key `key` the identifier `index`.
pub open spec fn identifier_line(key: Seq<char>, index: nat) -> Seq<char> {
    "#define GLUE_PAR__"@ + key + " "@ + decimal(index) + "\n"@
}

/// The identifier lines of `keys`: the one at position `i` assigns `i`.
pub open spec fn identifier_lines(keys: Seq<Seq<char>>) -> Seq<Seq<char>> {
    Seq::new(keys.len(), |i: int| identifier_line(keys[i], i as nat))
}

/// The line that gives the number of parameters.
pub open spec fn count_line(count: nat) -> Seq<char> {
    "#define GLUE_PARS "@ + decimal(count) + "\n\n"@
}

/// The identifier block for the parameters with keys `keys`, in order.
pub open spec fn stanza_text(keys: Seq<Seq<char>>) -> Seq<char> {
    "/* Glue (\"skip\") parameters */\n\n"@ + identifier_lines(keys).flatten() + count_line(
        keys.len(),
    )
}

/// The initialization routine the engine calls for a parameter of kind `kind`.
pub open spec fn kind_tag(kind: GlueParKind) -> Seq<char> {
    match kind {
        GlueParKind::Regular => "ASSIGN_GLUE"@,
        GlueParKind::Math => "ASSIGN_MU_GLUE"@,
    }
}

/// The initializer record of a parameter, whose identifier key is `key`.
pub open spec fn primitive_line(par: GlueParModel, key: Seq<char>) -> Seq<char> {
    "    { \""@ + without_separators(par.name) + "\", "@ + kind_tag(par.kind)
        + ", GLUE_BASE + GLUE_PAR__"@ + key + ", xf_prim_init_none }, \\\n"@
}

/// The initializer records of `pars`, the one at position `i` with key `keys[i]`.
pub open spec fn primitive_lines(pars: Seq<GlueParModel>, keys: Seq<Seq<char>>) -> Seq<
    Seq<char>,
>
    recommends
        pars.len() == keys.len(),
{
    Seq::new(pars.len(), |i: int| primitive_line(pars[i], keys[i]))
}

proof fn lemma_flatten_push(lines: Seq<Seq<char>>, line: Seq<char>)
    ensures
        lines.push(line).flatten() == lines.flatten() + line,
{
    lines.lemma_flatten_and_flatten_alt_are_equivalent();
    lines.push(line).lemma_flatten_and_flatten_alt_are_equivalent();
    assert(lines.push(line).drop_last() =~= lines);
}

/// The tag of the initialization routine for a parameter of kind `kind`.
pub fn glue_command(kind: GlueParKind) -> (r: &'static str)
    ensures
        r@ == kind_tag(kind),
{
    match kind {
        GlueParKind::Regular => "ASSIGN_GLUE",
        GlueParKind::Math => "ASSIGN_MU_GLUE",
    }
}

/// The identifier keys of `pars`: their names in lowercase.
pub fn identifier_keys(pars: &[GluePar]) -> (r: Vec<String>)
    ensures
        r@.len() == pars@.len(),
        views(r@) == keys_of(models(pars@)),
{
    let mut r: Vec<String> = Vec::new();
    let mut i: usize = 0;
    while i < pars.len()
        invariant
            i <= pars.len(),
            r@.len() == i,
            views(r@) == keys_of(models(pars@)).take(i as int),
        decreases pars.len() - i,
    {
        let key = lowercase(pars[i].name());
        assert(models(pars@)[i as int] == pars@[i as int]@);
        r.push(key);
        assert(views(r@) =~= keys_of(models(pars@)).take(i + 1));
        i += 1;
    }
    assert(keys_of(models(pars@)).take(pars.len() as int) =~= keys_of(models(pars@)));
    r
}

/// The identifier block for parameters whose identifier keys are `keys`, in
/// order: each key is given its position, then the count is given.
pub fn c_header_stanza_for_keys(keys: &Vec<String>) -> (r: String)
    ensures
        r@ == stanza_text(views(keys@)),
{
    let ghost ks = views(keys@);
    let mut out = String::from_str("/* Glue (\"skip\") parameters */\n\n");
    let mut i: usize = 0;
    while i < keys.len()
        invariant
            i <= keys.len(),
            ks == views(keys@),
            out@ == "/* Glue (\"skip\") parameters */\n\n"@ + identifier_lines(ks).take(
                i as int,
            ).flatten(),
        decreases keys.len() - i,
    {
        out.append("#define GLUE_PAR__");
        out.append(keys[i].as_str());
        out.append(" ");
        let index = decimal_string(i);
        out.append(index.as_str());
        out.append("\n");
        proof {
            let lines = identifier_lines(ks);
            assert(lines.take(i + 1) =~= lines.take(i as int).push(lines[i as int]));
            lemma_flatten_push(lines.take(i as int), lines[i as int]);
            assert(out@ =~= "/* Glue (\"skip\") parameters */\n\n"@ + lines.take(i + 1).flatten());
        }
        i += 1;
    }
    assert(identifier_lines(ks).take(keys.len() as int) =~= identifier_lines(ks));
    out.append("#define GLUE_PARS ");
    let count = decimal_string(keys.len());
    out.append(count.as_str());
    out.append("\n\n");
    assert(out@ =~= stanza_text(ks));
    out
}

/// The initializer block for `pars`, where `keys[i]` is the identifier key of
/// `pars[i]`.
pub fn c_header_primitives_for_keys(pars: &[GluePar], keys: &Vec<String>) -> (r: String)
    requires
        pars.len() == keys.len(),
    ensures
        r@ == primitive_lines(models(pars@), views(keys@)).flatten(),
{
    let ghost lines = primitive_lines(models(pars@), views(keys@));
    let mut out = String::new();
    let mut i: usize = 0;
    while i < pars.len()
        invariant
            i <= pars.len(),
            pars.len() == keys.len(),
            lines == primitive_lines(models(pars@), views(keys@)),
            out@ == lines.take(i as int).flatten(),
        decreases pars.len() - i,
    {
        let par = pars[i];
        let label = strip_separators(par.name());
        out.append("    { \"");
        out.append(label.as_str());
        out.append("\", ");
        out.append(glue_command(par.kind()));
        out.append(", GLUE_BASE + GLUE_PAR__");
        out.append(keys[i].as_str());
        out.append(", xf_prim_init_none }, \\\n");
        proof {
            assert(lines.take(i + 1) =~= lines.take(i as int).push(lines[i as int]));
            lemma_flatten_push(lines.take(i as int), lines[i as int]);
            assert(out@ =~= lines.take(i + 1).flatten());
        }
        i += 1;
    }
    assert(lines.take(pars.len() as int) =~= lines);
    out
}

/// Emit C header information for the glue parameters: the identifier block.
pub fn emit_c_header_stanza(pars: &[GluePar]) -> (r: String)
    ensures
        r@ == stanza_text(keys_of(models(pars@))),
{
    let keys = identifier_keys(pars);
    c_header_stanza_for_keys(&keys)
}

/// Emit initializers for glue parameter primitives in the C header.
pub fn emit_c_header_primitives(pars: &[GluePar]) -> (r: String)
    ensures
        r@ == primitive_lines(models(pars@), keys_of(models(pars@))).flatten(),
{
    let keys = identifier_keys(pars);
    c_header_primitives_for_keys(pars, &keys)
}

/// Identifiers are positional: in both blocks the parameter at position `i`
/// is referred to by the same key, and the identifier block assigns it exactly
/// `i`, whatever its name or kind.
pub proof fn lemma_identifiers_positional(pars: Seq<GlueParModel>, i: int)
    requires
        0 <= i < pars.len(),
    ensures
        identifier_lines(keys_of(pars)).len() == pars.len(),
        identifier_lines(keys_of(pars))[i] == identifier_line(lower_of(pars[i].name), i as nat),
        primitive_lines(pars, keys_of(pars)).len() == pars.len(),
        primitive_lines(pars, keys_of(pars))[i] == primitive_line(pars[i], lower_of(pars[i].name)),
{
}

/// The identifier block ends with the count line, which gives the number of
/// parameters in the input.
pub proof fn lemma_count_line_is_length(keys: Seq<Seq<char>>)
    ensures
        stanza_text(keys).len() >= count_line(keys.len()).len(),
        stanza_text(keys).subrange(
            stanza_text(keys).len() - count_line(keys.len()).len(),
            stanza_text(keys).len() as int,
        ) == count_line(keys.len()),
{
    let head = "/* Glue (\"skip\") parameters */\n\n"@ + identifier_lines(keys).flatten();
    let text = stanza_text(keys);
    assert(text == head + count_line(keys.len()));
    assert(text.subrange(head.len() as int, text.len() as int) =~= count_line(keys.len()));
}

/// The two kinds are told apart: a regular and a math parameter get different
/// initialization routines.
pub proof fn lemma_kind_tags_distinct()
    ensures
        kind_tag(GlueParKind::Regular) != kind_tag(GlueParKind::Math),
{
    reveal_strlit("ASSIGN_GLUE");
    reveal_strlit("ASSIGN_MU_GLUE");
    assert(kind_tag(GlueParKind::Regular).len() != kind_tag(GlueParKind::Math).len());
}

/// Emission is deterministic: inputs with the same parameters in the same
/// order give the same identifier block and the same initializer block.
pub proof fn lemma_emission_deterministic(a: Seq<GluePar>, b: Seq<GluePar>)
    requires
        models(a) == models(b),
    ensures
        stanza_text(keys_of(models(a))) == stanza_text(keys_of(models(b))),
        primitive_lines(models(a), keys_of(models(a))).flatten() == primitive_lines(
            models(b),
            keys_of(models(b)),
        ).flatten(),
{
}

} // verus!
