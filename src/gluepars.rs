//! Glue parameters defined by the engine.

use vstd::prelude::*;

use crate::FormatVersion;

verus! {

/// Different kinds of glue parameters.
#[derive(Clone, Copy, Debug, PartialEq, Eq, Structural)]
pub enum GlueParKind {
    /// A regular glue parameter.
    Regular,
    /// A math glue parameter.
    Math,
}

/// Information about a glue parameter.
#[derive(Clone, Copy, Debug)]
pub struct GluePar {
    /// The name of the parameter.
    name: &'static str,
    /// The kind of the parameter.
    kind: GlueParKind,
    /// The first format version in which the parameter was introduced.
    since: FormatVersion,
}

/// What a glue parameter stands for: its name as characters, its kind and the
/// version that introduced it.
pub struct GlueParModel {
    pub name: Seq<char>,
    pub kind: GlueParKind,
    pub since: FormatVersion,
}

impl View for GluePar {
    type V = GlueParModel;

    closed spec fn view(&self) -> GlueParModel {
        GlueParModel { name: self.name@, kind: self.kind, since: self.since }
    }
}

impl GluePar {
    /// The name of the parameter.
    pub fn name(&self) -> (r: &'static str)
        ensures
            r@ == self@.name,
    {
        self.name
    }

    /// The kind of the parameter.
    pub fn kind(&self) -> (r: GlueParKind)
        ensures
            r == self@.kind,
    {
        self.kind
    }

    /// The first format version in which the parameter was introduced.
    pub fn since(&self) -> (r: FormatVersion)
        ensures
            r == self@.since,
    {
        self.since
    }
}

/// The registry: every glue parameter the engine knows, in declaration order.
/// The position of a parameter in a query's result is the identifier the
/// engine assigns it, so entries are only ever appended.
pub open spec fn registry() -> Seq<GlueParModel> {
    seq![
        GlueParModel { name: "line_skip"@, kind: GlueParKind::Regular, since: 0 },
        GlueParModel { name: "baseline_skip"@, kind: GlueParKind::Regular, since: 0 },
        GlueParModel { name: "par_skip"@, kind: GlueParKind::Regular, since: 0 },
        GlueParModel { name: "above_display_skip"@, kind: GlueParKind::Regular, since: 0 },
        GlueParModel { name: "below_display_skip"@, kind: GlueParKind::Regular, since: 0 },
        GlueParModel { name: "above_display_short_skip"@, kind: GlueParKind::Regular, since: 0 },
        GlueParModel { name: "below_display_short_skip"@, kind: GlueParKind::Regular, since: 0 },
        GlueParModel { name: "left_skip"@, kind: GlueParKind::Regular, since: 0 },
        GlueParModel { name: "right_skip"@, kind: GlueParKind::Regular, since: 0 },
        GlueParModel { name: "top_skip"@, kind: GlueParKind::Regular, since: 0 },
        GlueParModel { name: "split_top_skip"@, kind: GlueParKind::Regular, since: 0 },
        GlueParModel { name: "tab_skip"@, kind: GlueParKind::Regular, since: 0 },
        GlueParModel { name: "space_skip"@, kind: GlueParKind::Regular, since: 0 },
        GlueParModel { name: "xspace_skip"@, kind: GlueParKind::Regular, since: 0 },
        GlueParModel { name: "par_fill_skip"@, kind: GlueParKind::Regular, since: 0 },
        GlueParModel { name: "XeTeX_linebreak_skip"@, kind: GlueParKind::Regular, since: 0 },
        GlueParModel { name: "thin_mu_skip"@, kind: GlueParKind::Math, since: 0 },
        GlueParModel { name: "med_mu_skip"@, kind: GlueParKind::Math, since: 0 },
        GlueParModel { name: "thick_mu_skip"@, kind: GlueParKind::Math, since: 0 },
    ]
}

/// The parameters of `pars` that exist in format version `version`, in their
/// original order.
pub open spec fn visible_at(pars: Seq<GlueParModel>, version: FormatVersion) -> Seq<
    GlueParModel,
> {
    pars.filter(|p: GlueParModel| p.since <= version)
}

/// The models of a sequence of parameters.
pub open spec fn models(pars: Seq<GluePar>) -> Seq<GlueParModel> {
    pars.map_values(|p: GluePar| p@)
}

fn glue_pars() -> (r: Vec<GluePar>)
    ensures
        models(r@) == registry(),
{
    let r = vec![
        GluePar { name: "line_skip", kind: GlueParKind::Regular, since: 0 },
        GluePar { name: "baseline_skip", kind: GlueParKind::Regular, since: 0 },
        GluePar { name: "par_skip", kind: GlueParKind::Regular, since: 0 },
        GluePar { name: "above_display_skip", kind: GlueParKind::Regular, since: 0 },
        GluePar { name: "below_display_skip", kind: GlueParKind::Regular, since: 0 },
        GluePar { name: "above_display_short_skip", kind: GlueParKind::Regular, since: 0 },
        GluePar { name: "below_display_short_skip", kind: GlueParKind::Regular, since: 0 },
        GluePar { name: "left_skip", kind: GlueParKind::Regular, since: 0 },
        GluePar { name: "right_skip", kind: GlueParKind::Regular, since: 0 },
        GluePar { name: "top_skip", kind: GlueParKind::Regular, since: 0 },
        GluePar { name: "split_top_skip", kind: GlueParKind::Regular, since: 0 },
        GluePar { name: "tab_skip", kind: GlueParKind::Regular, since: 0 },
        GluePar { name: "space_skip", kind: GlueParKind::Regular, since: 0 },
        GluePar { name: "xspace_skip", kind: GlueParKind::Regular, since: 0 },
        GluePar { name: "par_fill_skip", kind: GlueParKind::Regular, since: 0 },
        GluePar { name: "XeTeX_linebreak_skip", kind: GlueParKind::Regular, since: 0 },
        GluePar { name: "thin_mu_skip", kind: GlueParKind::Math, since: 0 },
        GluePar { name: "med_mu_skip", kind: GlueParKind::Math, since: 0 },
        GluePar { name: "thick_mu_skip", kind: GlueParKind::Math, since: 0 },
    ];
    assert(models(r@) =~= registry());
    r
}

/// Get information about the glue parameters used in the latest engine format.
pub fn get_latest_gluepars() -> (r: Vec<GluePar>)
    ensures
        models(r@) == registry(),
{
    glue_pars()
}

/// Get information about the glue parameters used in a specific engine format
/// version.
pub fn get_gluepars_for_version(version: FormatVersion) -> (r: Vec<GluePar>)
    ensures
        models(r@) == visible_at(registry(), version),
{
    let all = glue_pars();
    let mut r: Vec<GluePar> = Vec::new();
    let mut i: usize = 0;
    while i < all.len()
        invariant
            i <= all.len(),
            models(all@) == registry(),
            models(r@) == visible_at(models(all@).take(i as int), version),
        decreases all.len() - i,
    {
        let p = all[i];
        proof {
            let prefix = models(all@).take(i as int);
            assert(models(all@).take(i + 1) =~= prefix.push(p@));
            lemma_visible_push(prefix, p@, version);
        }
        if p.since <= version {
            let ghost before = r@;
            r.push(p);
            assert(models(r@) =~= models(before).push(p@));
        }
        i += 1;
    }
    assert(models(all@).take(all.len() as int) =~= models(all@));
    r
}

proof fn lemma_visible_push(pars: Seq<GlueParModel>, p: GlueParModel, version: FormatVersion)
    ensures
        visible_at(pars.push(p), version) == if p.since <= version {
            visible_at(pars, version).push(p)
        } else {
            visible_at(pars, version)
        },
{
    pars.lemma_filter_push(p, |q: GlueParModel| q.since <= version);
}

proof fn lemma_visible_within(pars: Seq<GlueParModel>, v1: FormatVersion, v2: FormatVersion)
    requires
        v1 <= v2,
    ensures
        visible_at(pars, v1) == visible_at(visible_at(pars, v2), v1),
    decreases pars.len(),
{
    if pars.len() > 0 {
        let init = pars.drop_last();
        let p = pars.last();
        assert(pars == init.push(p));
        lemma_visible_within(init, v1, v2);
        lemma_visible_push(init, p, v1);
        lemma_visible_push(init, p, v2);
        if p.since <= v2 {
            lemma_visible_push(visible_at(init, v2), p, v1);
        }
    } else {
        assert(visible_at(pars, v2) == pars) by {
            reveal(Seq::filter);
        }
    }
}

proof fn lemma_visible_all(pars: Seq<GlueParModel>, version: FormatVersion)
    requires
        forall|i: int| 0 <= i < pars.len() ==> #[trigger] pars[i].since <= version,
    ensures
        visible_at(pars, version) == pars,
    decreases pars.len(),
{
    if pars.len() > 0 {
        let init = pars.drop_last();
        assert(pars == init.push(pars.last()));
        assert(forall|i: int| 0 <= i < init.len() ==> #[trigger] init[i] == pars[i]);
        lemma_visible_all(init, version);
        lemma_visible_push(init, pars.last(), version);
    } else {
        reveal(Seq::filter);
    }
}

/// Queries are monotonic: the parameters of an older version are exactly the
/// parameters of a newer version that the older one already had, in the same
/// order. In particular each of them appears in the newer result.
pub proof fn lemma_for_version_monotonic(v1: FormatVersion, v2: FormatVersion)
    requires
        v1 <= v2,
    ensures
        visible_at(registry(), v1) == visible_at(visible_at(registry(), v2), v1),
        forall|p: GlueParModel| #[trigger]
            visible_at(registry(), v1).contains(p) ==> visible_at(registry(), v2).contains(p),
{
    lemma_visible_within(registry(), v1, v2);
    assert forall|p: GlueParModel| #[trigger]
        visible_at(registry(), v1).contains(p) implies visible_at(registry(), v2).contains(p) by {
        let q = |x: GlueParModel| x.since <= v1;
        visible_at(registry(), v2).lemma_filter_contains_rev(q, p);
    }
}

/// Every parameter of the registry was introduced at the baseline version 0,
/// so a query for that version returns the whole registry in declaration order.
pub proof fn lemma_baseline_is_registry()
    ensures
        forall|i: int| 0 <= i < registry().len() ==> #[trigger] registry()[i].since == 0,
        visible_at(registry(), 0) == registry(),
{
    lemma_visible_all(registry(), 0);
}

/// The latest parameters are those of any version at or above the newest
/// version that introduced a parameter.
pub proof fn lemma_latest_is_newest_version(version: FormatVersion)
    requires
        forall|i: int| 0 <= i < registry().len() ==> #[trigger] registry()[i].since <= version,
    ensures
        visible_at(registry(), version) == registry(),
{
    lemma_visible_all(registry(), version);
}

/// The registry holds nineteen parameters; the last three are math glue and
/// all the others regular glue.
pub proof fn lemma_registry_kinds()
    ensures
        registry().len() == 19,
        forall|i: int|
            0 <= i < registry().len() ==> (#[trigger] registry()[i].kind == GlueParKind::Math
                <==> 16 <= i),
{
}

} // verus!
