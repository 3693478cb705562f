//! The selection-resolution engine.
//!
//! An [`OptionSelection`] keeps the user's partial selections across the
//! three dependent dimensions of a catalog entry — release, edition and
//! architecture — and, for each dimension, the candidate set that is
//! valid given the selections of the other two. Selecting a value in
//! one dimension recomputes the candidate sets of the other two; a
//! previously selected value that is absent from its freshly
//! recomputed candidate set is cleared, so a selection never dangles.
//! Once release and architecture are chosen (and an edition where one
//! exists), the selection can be committed to a [`ResolvedConfig`].

use vstd::prelude::*;
use vstd::pervasive::unreached;
use crate::arch::Arch;
use crate::catalog::{OsEntry, ReleaseConfig, ReleaseConfigView};
use crate::dedup::{dedup_first, lemma_dedup_first_contains, unique_arches, unique_strings};
use crate::name::{default_vm_name, spec_default_vm_name};
use crate::text::{contains_char, opt_string_clone, opt_string_eq, string_in};

verus! {

/// Whether a configuration agrees with a release selection; no
/// selection admits every configuration.
pub open spec fn release_ok(c: ReleaseConfigView, sel: Option<Seq<char>>) -> bool {
    match sel {
        Some(r) => c.release == r,
        None => true,
    }
}

/// Whether a configuration agrees with an edition selection; a selected
/// edition only admits configurations carrying exactly that edition.
pub open spec fn edition_ok(c: ReleaseConfigView, sel: Option<Seq<char>>) -> bool {
    match sel {
        Some(e) => c.edition == Some(e),
        None => true,
    }
}

/// Whether a configuration agrees with an architecture selection.
pub open spec fn arch_ok(c: ReleaseConfigView, sel: Option<Arch>) -> bool {
    match sel {
        Some(a) => c.arch == a,
        None => true,
    }
}

/// Releases of the configurations that agree with the edition and
/// architecture selections, in catalog order, duplicates included.
pub open spec fn releases_matching(
    cfgs: Seq<ReleaseConfigView>,
    ed_sel: Option<Seq<char>>,
    ar_sel: Option<Arch>,
) -> Seq<Seq<char>>
    decreases cfgs.len(),
{
    if cfgs.len() == 0 {
        Seq::empty()
    } else {
        let rest = releases_matching(cfgs.drop_last(), ed_sel, ar_sel);
        let c = cfgs.last();
        if edition_ok(c, ed_sel) && arch_ok(c, ar_sel) {
            rest.push(c.release)
        } else {
            rest
        }
    }
}

/// Editions of the configurations that agree with the release and
/// architecture selections, in catalog order, duplicates included;
/// configurations without an edition contribute nothing.
pub open spec fn editions_matching(
    cfgs: Seq<ReleaseConfigView>,
    rel_sel: Option<Seq<char>>,
    ar_sel: Option<Arch>,
) -> Seq<Seq<char>>
    decreases cfgs.len(),
{
    if cfgs.len() == 0 {
        Seq::empty()
    } else {
        let rest = editions_matching(cfgs.drop_last(), rel_sel, ar_sel);
        let c = cfgs.last();
        if release_ok(c, rel_sel) && arch_ok(c, ar_sel) {
            match c.edition {
                Some(e) => rest.push(e),
                None => rest,
            }
        } else {
            rest
        }
    }
}

/// Architectures of the configurations that agree with the release and
/// edition selections, in catalog order, duplicates included.
pub open spec fn arches_matching(
    cfgs: Seq<ReleaseConfigView>,
    rel_sel: Option<Seq<char>>,
    ed_sel: Option<Seq<char>>,
) -> Seq<Arch>
    decreases cfgs.len(),
{
    if cfgs.len() == 0 {
        Seq::empty()
    } else {
        let rest = arches_matching(cfgs.drop_last(), rel_sel, ed_sel);
        let c = cfgs.last();
        if release_ok(c, rel_sel) && edition_ok(c, ed_sel) {
            rest.push(c.arch)
        } else {
            rest
        }
    }
}

/// The candidate releases: matching releases, de-duplicated preserving
/// first-seen order.
pub open spec fn candidate_releases(
    cfgs: Seq<ReleaseConfigView>,
    ed_sel: Option<Seq<char>>,
    ar_sel: Option<Arch>,
) -> Seq<Seq<char>> {
    dedup_first(releases_matching(cfgs, ed_sel, ar_sel))
}

/// The candidate editions: matching editions, de-duplicated preserving
/// first-seen order.
pub open spec fn candidate_editions(
    cfgs: Seq<ReleaseConfigView>,
    rel_sel: Option<Seq<char>>,
    ar_sel: Option<Arch>,
) -> Seq<Seq<char>> {
    dedup_first(editions_matching(cfgs, rel_sel, ar_sel))
}

/// The candidate architectures: matching architectures, de-duplicated
/// preserving first-seen order.
pub open spec fn candidate_arches(
    cfgs: Seq<ReleaseConfigView>,
    rel_sel: Option<Seq<char>>,
    ed_sel: Option<Seq<char>>,
) -> Seq<Arch> {
    dedup_first(arches_matching(cfgs, rel_sel, ed_sel))
}

/// Every candidate release is the release of some configuration that
/// agrees with the current edition and architecture selections: the
/// candidate set is a subset of the catalog's projection onto the
/// release dimension, filtered by the other two selections.
pub proof fn lemma_candidate_releases_sound(
    cfgs: Seq<ReleaseConfigView>,
    ed_sel: Option<Seq<char>>,
    ar_sel: Option<Arch>,
)
    ensures
        forall|r: Seq<char>|
            candidate_releases(cfgs, ed_sel, ar_sel).contains(r) ==> exists|i: int|
                0 <= i < cfgs.len() && cfgs[i].release == r && edition_ok(cfgs[i], ed_sel)
                    && arch_ok(cfgs[i], ar_sel),
{
    assert forall|r: Seq<char>|
        candidate_releases(cfgs, ed_sel, ar_sel).contains(r) implies exists|i: int|
        0 <= i < cfgs.len() && cfgs[i].release == r && edition_ok(cfgs[i], ed_sel) && arch_ok(
            cfgs[i],
            ar_sel,
        ) by {
        lemma_dedup_first_contains(releases_matching(cfgs, ed_sel, ar_sel), r);
        lemma_releases_matching_sound(cfgs, ed_sel, ar_sel, r);
    }
}

proof fn lemma_releases_matching_sound(
    cfgs: Seq<ReleaseConfigView>,
    ed_sel: Option<Seq<char>>,
    ar_sel: Option<Arch>,
    r: Seq<char>,
)
    requires
        releases_matching(cfgs, ed_sel, ar_sel).contains(r),
    ensures
        exists|i: int|
            0 <= i < cfgs.len() && cfgs[i].release == r && edition_ok(cfgs[i], ed_sel) && arch_ok(
                cfgs[i],
                ar_sel,
            ),
    decreases cfgs.len(),
{
    let c = cfgs.last();
    let rest = releases_matching(cfgs.drop_last(), ed_sel, ar_sel);
    if edition_ok(c, ed_sel) && arch_ok(c, ar_sel) && c.release == r {
        assert(cfgs[cfgs.len() - 1] == c);
    } else {
        assert(rest.contains(r)) by {
            let s = releases_matching(cfgs, ed_sel, ar_sel);
            let i = choose|i: int| 0 <= i < s.len() && s[i] == r;
            if edition_ok(c, ed_sel) && arch_ok(c, ar_sel) {
                assert(i < rest.len());
                assert(rest[i] == r);
            }
        }
        lemma_releases_matching_sound(cfgs.drop_last(), ed_sel, ar_sel, r);
        let i = choose|i: int|
            0 <= i < cfgs.drop_last().len() && cfgs.drop_last()[i].release == r && edition_ok(
                cfgs.drop_last()[i],
                ed_sel,
            ) && arch_ok(cfgs.drop_last()[i], ar_sel);
        assert(cfgs[i] == cfgs.drop_last()[i]);
    }
}

/// Every candidate edition is the edition of some configuration that
/// agrees with the current release and architecture selections.
pub proof fn lemma_candidate_editions_sound(
    cfgs: Seq<ReleaseConfigView>,
    rel_sel: Option<Seq<char>>,
    ar_sel: Option<Arch>,
)
    ensures
        forall|e: Seq<char>|
            candidate_editions(cfgs, rel_sel, ar_sel).contains(e) ==> exists|i: int|
                0 <= i < cfgs.len() && cfgs[i].edition == Some(e) && release_ok(cfgs[i], rel_sel)
                    && arch_ok(cfgs[i], ar_sel),
{
    assert forall|e: Seq<char>|
        candidate_editions(cfgs, rel_sel, ar_sel).contains(e) implies exists|i: int|
        0 <= i < cfgs.len() && cfgs[i].edition == Some(e) && release_ok(cfgs[i], rel_sel)
            && arch_ok(cfgs[i], ar_sel) by {
        lemma_dedup_first_contains(editions_matching(cfgs, rel_sel, ar_sel), e);
        lemma_editions_matching_sound(cfgs, rel_sel, ar_sel, e);
    }
}

proof fn lemma_editions_matching_sound(
    cfgs: Seq<ReleaseConfigView>,
    rel_sel: Option<Seq<char>>,
    ar_sel: Option<Arch>,
    e: Seq<char>,
)
    requires
        editions_matching(cfgs, rel_sel, ar_sel).contains(e),
    ensures
        exists|i: int|
            0 <= i < cfgs.len() && cfgs[i].edition == Some(e) && release_ok(cfgs[i], rel_sel)
                && arch_ok(cfgs[i], ar_sel),
    decreases cfgs.len(),
{
    let c = cfgs.last();
    let rest = editions_matching(cfgs.drop_last(), rel_sel, ar_sel);
    if release_ok(c, rel_sel) && arch_ok(c, ar_sel) && c.edition == Some(e) {
        assert(cfgs[cfgs.len() - 1] == c);
    } else {
        assert(rest.contains(e)) by {
            let s = editions_matching(cfgs, rel_sel, ar_sel);
            let i = choose|i: int| 0 <= i < s.len() && s[i] == e;
            if release_ok(c, rel_sel) && arch_ok(c, ar_sel) && c.edition is Some {
                assert(i < rest.len());
                assert(rest[i] == e);
            }
        }
        lemma_editions_matching_sound(cfgs.drop_last(), rel_sel, ar_sel, e);
        let i = choose|i: int|
            0 <= i < cfgs.drop_last().len() && cfgs.drop_last()[i].edition == Some(e) && release_ok(
                cfgs.drop_last()[i],
                rel_sel,
            ) && arch_ok(cfgs.drop_last()[i], ar_sel);
        assert(cfgs[i] == cfgs.drop_last()[i]);
    }
}

/// Every candidate architecture belongs to some configuration that
/// agrees with the current release and edition selections.
pub proof fn lemma_candidate_arches_sound(
    cfgs: Seq<ReleaseConfigView>,
    rel_sel: Option<Seq<char>>,
    ed_sel: Option<Seq<char>>,
)
    ensures
        forall|a: Arch|
            candidate_arches(cfgs, rel_sel, ed_sel).contains(a) ==> exists|i: int|
                0 <= i < cfgs.len() && cfgs[i].arch == a && release_ok(cfgs[i], rel_sel)
                    && edition_ok(cfgs[i], ed_sel),
{
    assert forall|a: Arch|
        candidate_arches(cfgs, rel_sel, ed_sel).contains(a) implies exists|i: int|
        0 <= i < cfgs.len() && cfgs[i].arch == a && release_ok(cfgs[i], rel_sel) && edition_ok(
            cfgs[i],
            ed_sel,
        ) by {
        lemma_dedup_first_contains(arches_matching(cfgs, rel_sel, ed_sel), a);
        lemma_arches_matching_sound(cfgs, rel_sel, ed_sel, a);
    }
}

proof fn lemma_arches_matching_sound(
    cfgs: Seq<ReleaseConfigView>,
    rel_sel: Option<Seq<char>>,
    ed_sel: Option<Seq<char>>,
    a: Arch,
)
    requires
        arches_matching(cfgs, rel_sel, ed_sel).contains(a),
    ensures
        exists|i: int|
            0 <= i < cfgs.len() && cfgs[i].arch == a && release_ok(cfgs[i], rel_sel) && edition_ok(
                cfgs[i],
                ed_sel,
            ),
    decreases cfgs.len(),
{
    let c = cfgs.last();
    let rest = arches_matching(cfgs.drop_last(), rel_sel, ed_sel);
    if release_ok(c, rel_sel) && edition_ok(c, ed_sel) && c.arch == a {
        assert(cfgs[cfgs.len() - 1] == c);
    } else {
        assert(rest.contains(a)) by {
            let s = arches_matching(cfgs, rel_sel, ed_sel);
            let i = choose|i: int| 0 <= i < s.len() && s[i] == a;
            if release_ok(c, rel_sel) && edition_ok(c, ed_sel) {
                assert(i < rest.len());
                assert(rest[i] == a);
            }
        }
        lemma_arches_matching_sound(cfgs.drop_last(), rel_sel, ed_sel, a);
        let i = choose|i: int|
            0 <= i < cfgs.drop_last().len() && cfgs.drop_last()[i].arch == a && release_ok(
                cfgs.drop_last()[i],
                rel_sel,
            ) && edition_ok(cfgs.drop_last()[i], ed_sel);
        assert(cfgs[i] == cfgs.drop_last()[i]);
    }
}

fn release_ok_exec(c: &ReleaseConfig, sel: &Option<String>) -> (r: bool)
    ensures
        r == release_ok(c.deep_view(), sel.deep_view()),
{
    match sel {
        Some(s) => c.release.eq(s),
        None => true,
    }
}

fn edition_ok_exec(c: &ReleaseConfig, sel: &Option<String>) -> (r: bool)
    ensures
        r == edition_ok(c.deep_view(), sel.deep_view()),
{
    match sel {
        Some(s) => match &c.edition {
            Some(e) => e.eq(s),
            None => false,
        },
        None => true,
    }
}

fn arch_ok_exec(c: &ReleaseConfig, sel: &Option<Arch>) -> (r: bool)
    ensures
        r == arch_ok(c.deep_view(), *sel),
{
    match sel {
        Some(a) => c.arch == *a,
        None => true,
    }
}

fn matching_releases(
    cfgs: &Vec<ReleaseConfig>,
    ed_sel: &Option<String>,
    ar_sel: &Option<Arch>,
) -> (r: Vec<String>)
    ensures
        r.deep_view() == releases_matching(cfgs.deep_view(), ed_sel.deep_view(), *ar_sel),
{
    let mut out: Vec<String> = Vec::new();
    let mut i: usize = 0;
    while i < cfgs.len()
        invariant
            i <= cfgs.len(),
            out.deep_view() == releases_matching(
                cfgs.deep_view().take(i as int),
                ed_sel.deep_view(),
                *ar_sel,
            ),
        decreases cfgs.len() - i,
    {
        let ghost prev = out.deep_view();
        let c = &cfgs[i];
        if edition_ok_exec(c, ed_sel) && arch_ok_exec(c, ar_sel) {
            out.push(c.release.clone());
            proof {
                assert(out.deep_view() =~= prev.push(c.release@));
            }
        }
        proof {
            assert(cfgs.deep_view().take(i + 1).drop_last() =~= cfgs.deep_view().take(i as int));
            assert(cfgs.deep_view().take(i + 1).last() == cfgs.deep_view()[i as int]);
        }
        i += 1;
    }
    proof {
        assert(cfgs.deep_view().take(cfgs.len() as int) =~= cfgs.deep_view());
    }
    out
}

fn matching_editions(
    cfgs: &Vec<ReleaseConfig>,
    rel_sel: &Option<String>,
    ar_sel: &Option<Arch>,
) -> (r: Vec<String>)
    ensures
        r.deep_view() == editions_matching(cfgs.deep_view(), rel_sel.deep_view(), *ar_sel),
{
    let mut out: Vec<String> = Vec::new();
    let mut i: usize = 0;
    while i < cfgs.len()
        invariant
            i <= cfgs.len(),
            out.deep_view() == editions_matching(
                cfgs.deep_view().take(i as int),
                rel_sel.deep_view(),
                *ar_sel,
            ),
        decreases cfgs.len() - i,
    {
        let ghost prev = out.deep_view();
        let c = &cfgs[i];
        if release_ok_exec(c, rel_sel) && arch_ok_exec(c, ar_sel) {
            match &c.edition {
                Some(e) => {
                    out.push(e.clone());
                    proof {
                        assert(out.deep_view() =~= prev.push(e@));
                    }
                },
                None => {},
            }
        }
        proof {
            assert(cfgs.deep_view().take(i + 1).drop_last() =~= cfgs.deep_view().take(i as int));
            assert(cfgs.deep_view().take(i + 1).last() == cfgs.deep_view()[i as int]);
        }
        i += 1;
    }
    proof {
        assert(cfgs.deep_view().take(cfgs.len() as int) =~= cfgs.deep_view());
    }
    out
}

fn matching_arches(
    cfgs: &Vec<ReleaseConfig>,
    rel_sel: &Option<String>,
    ed_sel: &Option<String>,
) -> (r: Vec<Arch>)
    ensures
        r@ == arches_matching(cfgs.deep_view(), rel_sel.deep_view(), ed_sel.deep_view()),
{
    let mut out: Vec<Arch> = Vec::new();
    let mut i: usize = 0;
    while i < cfgs.len()
        invariant
            i <= cfgs.len(),
            out@ == arches_matching(
                cfgs.deep_view().take(i as int),
                rel_sel.deep_view(),
                ed_sel.deep_view(),
            ),
        decreases cfgs.len() - i,
    {
        let c = &cfgs[i];
        if release_ok_exec(c, rel_sel) && edition_ok_exec(c, ed_sel) {
            out.push(c.arch);
        }
        proof {
            assert(cfgs.deep_view().take(i + 1).drop_last() =~= cfgs.deep_view().take(i as int));
            assert(cfgs.deep_view().take(i + 1).last() == cfgs.deep_view()[i as int]);
        }
        i += 1;
    }
    proof {
        assert(cfgs.deep_view().take(cfgs.len() as int) =~= cfgs.deep_view());
    }
    out
}

/// What remains of a selection once its dimension's candidate set has
/// been recomputed: the value is kept exactly when the new candidate
/// set still holds it.
pub open spec fn retained<A>(sel: Option<A>, values: Seq<A>) -> Option<A> {
    match sel {
        Some(v) => if values.contains(v) {
            Some(v)
        } else {
            None
        },
        None => None,
    }
}

/// One dimension's state: the candidate values, in order, and the
/// current selection, which must be one of the candidates.
#[derive(Debug)]
pub struct StringChoice {
    pub values: Vec<String>,
    pub selected: Option<String>,
}

impl StringChoice {
    /// The selection, when present, is one of the candidate values.
    pub open spec fn wf(self) -> bool {
        match self.selected.deep_view() {
            Some(s) => self.values.deep_view().contains(s),
            None => true,
        }
    }

    /// A dimension with no candidates and no selection.
    pub fn new_empty() -> (r: Self)
        ensures
            r.values.deep_view() == Seq::<Seq<char>>::empty(),
            r.selected is None,
            r.wf(),
    {
        let r = StringChoice { values: Vec::new(), selected: None };
        proof {
            assert(r.values.deep_view() =~= Seq::<Seq<char>>::empty());
        }
        r
    }

    /// Stores a selection; the caller selects among the candidates.
    pub fn select(&mut self, value: String)
        requires
            old(self).values.deep_view().contains(value@),
        ensures
            final(self).values == old(self).values,
            final(self).selected == Some(value),
            final(self).wf(),
    {
        self.selected = Some(value);
    }

    /// Replaces the candidate values; a selection absent from the new
    /// candidates is cleared.
    pub fn set_values(&mut self, values: Vec<String>)
        ensures
            final(self).values == values,
            final(self).selected.deep_view() == retained(
                old(self).selected.deep_view(),
                values.deep_view(),
            ),
            final(self).wf(),
    {
        let keep = match &self.selected {
            Some(s) => string_in(&values, s),
            None => false,
        };
        if !keep {
            self.selected = None;
        }
        self.values = values;
    }

    /// Whether the dimension offers no candidate at all.
    pub fn is_empty(&self) -> (r: bool)
        ensures
            r == (self.values.deep_view().len() == 0),
    {
        self.values.len() == 0
    }
}

/// Whether the sequence of architectures holds the given one.
pub fn arch_in(v: &Vec<Arch>, a: Arch) -> (r: bool)
    ensures
        r == v@.contains(a),
{
    let mut i: usize = 0;
    while i < v.len()
        invariant
            i <= v.len(),
            forall|j: int| 0 <= j < i ==> v@[j] != a,
        decreases v.len() - i,
    {
        if v[i] == a {
            return true;
        }
        i += 1;
    }
    false
}

/// The architecture dimension's state: candidate architectures, in
/// order, and the current selection.
#[derive(Debug)]
pub struct ArchChoice {
    pub values: Vec<Arch>,
    pub selected: Option<Arch>,
}

impl ArchChoice {
    /// The selection, when present, is one of the candidate values.
    pub open spec fn wf(self) -> bool {
        match self.selected {
            Some(a) => self.values@.contains(a),
            None => true,
        }
    }

    /// A dimension with no candidates and no selection.
    pub fn new_empty() -> (r: Self)
        ensures
            r.values@ == Seq::<Arch>::empty(),
            r.selected is None,
            r.wf(),
    {
        let r = ArchChoice { values: Vec::new(), selected: None };
        proof {
            assert(r.values@ =~= Seq::<Arch>::empty());
        }
        r
    }

    /// Stores a selection; the caller selects among the candidates.
    pub fn select(&mut self, value: Arch)
        requires
            old(self).values@.contains(value),
        ensures
            final(self).values == old(self).values,
            final(self).selected == Some(value),
            final(self).wf(),
    {
        self.selected = Some(value);
    }

    /// Replaces the candidate values; a selection absent from the new
    /// candidates is cleared.
    pub fn set_values(&mut self, values: Vec<Arch>)
        ensures
            final(self).values == values,
            final(self).selected == retained(old(self).selected, values@),
            final(self).wf(),
    {
        let keep = match &self.selected {
            Some(a) => arch_in(&values, *a),
            None => false,
        };
        if !keep {
            self.selected = None;
        }
        self.values = values;
    }

    /// Whether the dimension offers no candidate at all.
    pub fn is_empty(&self) -> (r: bool)
        ensures
            r == (self.values@.len() == 0),
    {
        self.values.len() == 0
    }
}

/// A retained selection never dangles: whatever `retained` keeps is a
/// member of the freshly recomputed candidate set.
pub proof fn lemma_retained_consistent<A>(sel: Option<A>, values: Seq<A>)
    ensures
        retained(sel, values) is Some ==> values.contains(retained(sel, values)->0),
{
}

/// The errors a selection commit can produce.
#[derive(Clone, Copy, Debug, PartialEq, Eq, Structural)]
pub enum ConfigurationError {
    /// Release, edition and architecture together match no
    /// configuration of the catalog entry.
    NoMatchingConfig,
    /// Two transfers of one session would write the same destination
    /// file.
    DuplicateDestination,
}

impl ConfigurationError {
    /// The display string of the error.
    pub open spec fn spec_message(self) -> Seq<char> {
        match self {
            ConfigurationError::NoMatchingConfig => "no configuration matches the selected release, edition and architecture"@,
            ConfigurationError::DuplicateDestination => "two transfers target the same destination file"@,
        }
    }

    /// The display string of the error.
    pub fn message(&self) -> (r: String)
        ensures
            r@ == self.spec_message(),
    {
        match self {
            ConfigurationError::NoMatchingConfig => "no configuration matches the selected release, edition and architecture".to_owned(),
            ConfigurationError::DuplicateDestination => "two transfers target the same destination file".to_owned(),
        }
    }
}

/// The committed outcome of a selection: one OS identifier, exactly one
/// matching configuration, the destination directory, the chosen name
/// and the resource choices. Constructed once; immutable thereafter.
#[derive(Debug)]
pub struct ResolvedConfig {
    pub os: String,
    pub config: ReleaseConfig,
    pub directory: String,
    pub vm_name: String,
    pub cpu_cores: usize,
    pub ram_bytes: u64,
}

/// Mathematical image of a [`ResolvedConfig`].
pub struct ResolvedConfigView {
    pub os: Seq<char>,
    pub config: ReleaseConfigView,
    pub directory: Seq<char>,
    pub vm_name: Seq<char>,
    pub cpu_cores: usize,
    pub ram_bytes: u64,
}

impl DeepView for ResolvedConfig {
    type V = ResolvedConfigView;

    open spec fn deep_view(&self) -> ResolvedConfigView {
        (ResolvedConfigView {
            os: self.os.deep_view(),
            config: self.config.deep_view(),
            directory: self.directory.deep_view(),
            vm_name: self.vm_name.deep_view(),
            cpu_cores: self.cpu_cores,
            ram_bytes: self.ram_bytes,
        })
    }
}

impl ResolvedConfig {
    /// A copy whose contents equal this configuration's.
    pub fn duplicate(&self) -> (r: ResolvedConfig)
        ensures
            r.deep_view() == self.deep_view(),
    {
        ResolvedConfig {
            os: self.os.clone(),
            config: self.config.duplicate(),
            directory: self.directory.clone(),
            vm_name: self.vm_name.clone(),
            cpu_cores: self.cpu_cores,
            ram_bytes: self.ram_bytes,
        }
    }
}

/// Whether a configuration agrees with all three committed selections
/// at once; the edition must be exactly the selected one, absence
/// included.
pub open spec fn cfg_matches_all(
    c: ReleaseConfigView,
    rel: Seq<char>,
    ed: Option<Seq<char>>,
    a: Arch,
) -> bool {
    c.release == rel && c.edition == ed && c.arch == a
}

/// The partial selections of one catalog entry, with the candidate set
/// of every dimension and the derived default name.
#[derive(Debug)]
pub struct OptionSelection {
    pub selected_os: OsEntry,
    pub release_list: StringChoice,
    pub edition_list: StringChoice,
    pub arch_list: ArchChoice,
    pub cpu_cores: usize,
    pub ram_bytes: u64,
    pub vm_name: Option<String>,
    pub default_vm_name: Option<String>,
    pub directory: String,
}

/// The fields a selection change never touches.
pub open spec fn same_statics(a: OptionSelection, b: OptionSelection) -> bool {
    &&& a.selected_os == b.selected_os
    &&& a.cpu_cores == b.cpu_cores
    &&& a.ram_bytes == b.ram_bytes
    &&& a.vm_name == b.vm_name
    &&& a.directory == b.directory
}

/// What holds after a release is selected: the release is stored, the
/// other two candidate sets are recomputed in order — editions against
/// the new release and the old architecture selection, architectures
/// against the new release and the possibly cleared edition selection —
/// dangling selections are cleared, and the default name is re-derived.
pub open spec fn release_selected_post(
    pre: OptionSelection,
    post: OptionSelection,
    release: Seq<char>,
) -> bool {
    &&& same_statics(post, pre)
    &&& post.release_list.values == pre.release_list.values
    &&& post.release_list.selected.deep_view() == Some(release)
    &&& post.edition_list.values.deep_view() == candidate_editions(
        pre.cfgs(),
        Some(release),
        pre.ar_sel(),
    )
    &&& post.edition_list.selected.deep_view() == retained(
        pre.ed_sel(),
        post.edition_list.values.deep_view(),
    )
    &&& post.arch_list.values@ == candidate_arches(pre.cfgs(), Some(release), post.ed_sel())
    &&& post.arch_list.selected == retained(pre.ar_sel(), post.arch_list.values@)
    &&& post.default_vm_name.deep_view() == post.derived_default_name()
    &&& post.wf()
}

/// What holds after an edition is selected; symmetric to
/// [`release_selected_post`], recomputing releases first and
/// architectures second.
pub open spec fn edition_selected_post(
    pre: OptionSelection,
    post: OptionSelection,
    edition: Seq<char>,
) -> bool {
    &&& same_statics(post, pre)
    &&& post.edition_list.values == pre.edition_list.values
    &&& post.edition_list.selected.deep_view() == Some(edition)
    &&& post.release_list.values.deep_view() == candidate_releases(
        pre.cfgs(),
        Some(edition),
        pre.ar_sel(),
    )
    &&& post.release_list.selected.deep_view() == retained(
        pre.rel_sel(),
        post.release_list.values.deep_view(),
    )
    &&& post.arch_list.values@ == candidate_arches(pre.cfgs(), post.rel_sel(), Some(edition))
    &&& post.arch_list.selected == retained(pre.ar_sel(), post.arch_list.values@)
    &&& post.default_vm_name.deep_view() == post.derived_default_name()
    &&& post.wf()
}

/// What holds after an architecture is selected; symmetric to
/// [`release_selected_post`], recomputing releases first and editions
/// second.
pub open spec fn arch_selected_post(pre: OptionSelection, post: OptionSelection, a: Arch) -> bool {
    &&& same_statics(post, pre)
    &&& post.arch_list.values == pre.arch_list.values
    &&& post.arch_list.selected == Some(a)
    &&& post.release_list.values.deep_view() == candidate_releases(
        pre.cfgs(),
        pre.ed_sel(),
        Some(a),
    )
    &&& post.release_list.selected.deep_view() == retained(
        pre.rel_sel(),
        post.release_list.values.deep_view(),
    )
    &&& post.edition_list.values.deep_view() == candidate_editions(
        pre.cfgs(),
        post.rel_sel(),
        Some(a),
    )
    &&& post.edition_list.selected.deep_view() == retained(
        pre.ed_sel(),
        post.edition_list.values.deep_view(),
    )
    &&& post.default_vm_name.deep_view() == post.derived_default_name()
    &&& post.wf()
}

/// What a fresh selection looks like: every candidate set is the
/// unfiltered projection of the entry's configurations, nothing is
/// selected, no name is set or derived, and the resource choices and
/// destination directory are the given seeds.
pub open spec fn fresh_selection(
    r: OptionSelection,
    selected_os: OsEntry,
    default_vm_dir: String,
    cpu_cores: usize,
    ram_bytes: u64,
) -> bool {
    &&& r.selected_os == selected_os
    &&& r.release_list.values.deep_view() == candidate_releases(
        selected_os.releases.deep_view(),
        None,
        None,
    )
    &&& r.edition_list.values.deep_view() == candidate_editions(
        selected_os.releases.deep_view(),
        None,
        None,
    )
    &&& r.arch_list.values@ == candidate_arches(selected_os.releases.deep_view(), None, None)
    &&& r.release_list.selected is None
    &&& r.edition_list.selected is None
    &&& r.arch_list.selected is None
    &&& r.cpu_cores == cpu_cores
    &&& r.ram_bytes == ram_bytes
    &&& r.directory == default_vm_dir
    &&& r.vm_name is None
    &&& r.default_vm_name is None
    &&& r.wf()
}

impl OptionSelection {
    /// The catalog configurations of the selected OS.
    pub open spec fn cfgs(self) -> Seq<ReleaseConfigView> {
        self.selected_os.releases.deep_view()
    }

    /// The current release selection's contents.
    pub open spec fn rel_sel(self) -> Option<Seq<char>> {
        self.release_list.selected.deep_view()
    }

    /// The current edition selection's contents.
    pub open spec fn ed_sel(self) -> Option<Seq<char>> {
        self.edition_list.selected.deep_view()
    }

    /// The current architecture selection.
    pub open spec fn ar_sel(self) -> Option<Arch> {
        self.arch_list.selected
    }

    /// The default name a fully specified selection derives: present
    /// exactly when release and architecture are selected and an
    /// edition is selected or none exists for the current candidates.
    pub open spec fn derived_default_name(self) -> Option<Seq<char>> {
        match (self.rel_sel(), self.ar_sel()) {
            (Some(r), Some(a)) => if self.ed_sel() is Some || self.edition_list.values.deep_view().len() == 0 {
                Some(spec_default_vm_name(self.selected_os.name@, r, self.ed_sel(), a))
            } else {
                None
            },
            _ => None,
        }
    }

    /// Selections never dangle and the derived default name is exactly
    /// what the current selections warrant.
    pub open spec fn wf(self) -> bool {
        &&& self.release_list.wf()
        &&& self.edition_list.wf()
        &&& self.arch_list.wf()
        &&& self.default_vm_name.deep_view() == self.derived_default_name()
    }

    /// A fresh selection for one catalog entry: every candidate set is
    /// the unfiltered projection of the entry's configurations, nothing
    /// is selected, and the resource choices and destination directory
    /// are seeded from the arguments.
    pub fn new(selected_os: OsEntry, default_vm_dir: String, cpu_cores: usize, ram_bytes: u64) -> (r:
        OptionSelection)
        ensures
            fresh_selection(r, selected_os, default_vm_dir, cpu_cores, ram_bytes),
    {
        let mut r = OptionSelection {
            selected_os,
            release_list: StringChoice::new_empty(),
            edition_list: StringChoice::new_empty(),
            arch_list: ArchChoice::new_empty(),
            cpu_cores,
            ram_bytes,
            vm_name: None,
            default_vm_name: None,
            directory: default_vm_dir,
        };
        r.refresh_releases();
        r.refresh_editions();
        r.refresh_architectures();
        r
    }

    /// Recomputes the release candidates from the current edition and
    /// architecture selections; a dangling release selection is
    /// cleared.
    pub fn refresh_releases(&mut self)
        ensures
            same_statics(*final(self), *old(self)),
            final(self).edition_list == old(self).edition_list,
            final(self).arch_list == old(self).arch_list,
            final(self).default_vm_name == old(self).default_vm_name,
            final(self).release_list.values.deep_view() == candidate_releases(
                old(self).cfgs(),
                old(self).ed_sel(),
                old(self).ar_sel(),
            ),
            final(self).release_list.selected.deep_view() == retained(
                old(self).rel_sel(),
                final(self).release_list.values.deep_view(),
            ),
            final(self).release_list.wf(),
    {
        let raw = matching_releases(
            &self.selected_os.releases,
            &self.edition_list.selected,
            &self.arch_list.selected,
        );
        let vals = unique_strings(raw);
        self.release_list.set_values(vals);
    }

    /// Recomputes the edition candidates from the current release and
    /// architecture selections; a dangling edition selection is
    /// cleared.
    pub fn refresh_editions(&mut self)
        ensures
            same_statics(*final(self), *old(self)),
            final(self).release_list == old(self).release_list,
            final(self).arch_list == old(self).arch_list,
            final(self).default_vm_name == old(self).default_vm_name,
            final(self).edition_list.values.deep_view() == candidate_editions(
                old(self).cfgs(),
                old(self).rel_sel(),
                old(self).ar_sel(),
            ),
            final(self).edition_list.selected.deep_view() == retained(
                old(self).ed_sel(),
                final(self).edition_list.values.deep_view(),
            ),
            final(self).edition_list.wf(),
    {
        let raw = matching_editions(
            &self.selected_os.releases,
            &self.release_list.selected,
            &self.arch_list.selected,
        );
        let vals = unique_strings(raw);
        self.edition_list.set_values(vals);
    }

    /// Recomputes the architecture candidates from the current release
    /// and edition selections; a dangling architecture selection is
    /// cleared.
    pub fn refresh_architectures(&mut self)
        ensures
            same_statics(*final(self), *old(self)),
            final(self).release_list == old(self).release_list,
            final(self).edition_list == old(self).edition_list,
            final(self).default_vm_name == old(self).default_vm_name,
            final(self).arch_list.values@ == candidate_arches(
                old(self).cfgs(),
                old(self).rel_sel(),
                old(self).ed_sel(),
            ),
            final(self).arch_list.selected == retained(
                old(self).ar_sel(),
                final(self).arch_list.values@,
            ),
            final(self).arch_list.wf(),
    {
        let raw = matching_arches(
            &self.selected_os.releases,
            &self.release_list.selected,
            &self.edition_list.selected,
        );
        let vals = unique_arches(raw);
        self.arch_list.set_values(vals);
    }

    /// Re-derives the default name from the current selections; see
    /// [`OptionSelection::derived_default_name`].
    pub fn set_default_vm_name(&mut self)
        ensures
            same_statics(*final(self), *old(self)),
            final(self).release_list == old(self).release_list,
            final(self).edition_list == old(self).edition_list,
            final(self).arch_list == old(self).arch_list,
            final(self).default_vm_name.deep_view() == final(self).derived_default_name(),
    {
        let name: Option<String> = match (&self.release_list.selected, &self.arch_list.selected) {
            (Some(rel), Some(ar)) => {
                if self.edition_list.selected.is_some() || self.edition_list.is_empty() {
                    let ed: Option<&str> = match &self.edition_list.selected {
                        Some(e) => Some(e.as_str()),
                        None => None,
                    };
                    Some(default_vm_name(self.selected_os.name.as_str(), rel.as_str(), ed, *ar))
                } else {
                    None
                }
            },
            _ => None,
        };
        self.default_vm_name = name;
    }

    /// Selects a release among the current candidates; see
    /// [`release_selected_post`].
    pub fn select_release(&mut self, release: String)
        requires
            old(self).release_list.values.deep_view().contains(release@),
        ensures
            release_selected_post(*old(self), *final(self), release@),
    {
        self.release_list.select(release);
        self.refresh_editions();
        self.refresh_architectures();
        self.set_default_vm_name();
    }

    /// Selects an edition among the current candidates; see
    /// [`edition_selected_post`].
    pub fn select_edition(&mut self, edition: String)
        requires
            old(self).edition_list.values.deep_view().contains(edition@),
        ensures
            edition_selected_post(*old(self), *final(self), edition@),
    {
        self.edition_list.select(edition);
        self.refresh_releases();
        self.refresh_architectures();
        self.set_default_vm_name();
    }

    /// Selects an architecture among the current candidates; see
    /// [`arch_selected_post`].
    pub fn select_arch(&mut self, arch: Arch)
        requires
            old(self).arch_list.values@.contains(arch),
        ensures
            arch_selected_post(*old(self), *final(self), arch),
    {
        self.arch_list.select(arch);
        self.refresh_releases();
        self.refresh_editions();
        self.set_default_vm_name();
    }

    /// Pre-selects an architecture — the machine's own, at session
    /// start — when it is among the current candidates, and changes no
    /// selection otherwise. Unlike [`OptionSelection::select_arch`]
    /// this recomputes no candidate set: the other dimensions keep
    /// their full candidate lists until the user selects something.
    pub fn try_select_arch(&mut self, arch: Arch)
        ensures
            same_statics(*final(self), *old(self)),
            final(self).release_list == old(self).release_list,
            final(self).edition_list == old(self).edition_list,
            final(self).arch_list.values == old(self).arch_list.values,
            final(self).arch_list.selected == (if old(self).arch_list.values@.contains(arch) {
                Some(arch)
            } else {
                old(self).arch_list.selected
            }),
            final(self).default_vm_name.deep_view() == final(self).derived_default_name(),
            old(self).arch_list.wf() ==> final(self).arch_list.wf(),
    {
        if arch_in(&self.arch_list.values, arch) {
            self.arch_list.selected = Some(arch);
        }
        self.set_default_vm_name();
    }

    /// Whether the presentation boundary may commit under this name:
    /// the name is non-empty, holds no path separator, and the
    /// selection is fully specified (a default name exists). The
    /// filesystem conditions — the destination directory exists and
    /// holds no entry of this name — belong to the caller at the
    /// boundary.
    pub open spec fn spec_can_go_next(self, vm_name: Seq<char>) -> bool {
        vm_name.len() > 0 && !vm_name.contains('/') && self.default_vm_name is Some
    }

    /// See [`OptionSelection::spec_can_go_next`].
    pub fn can_go_next(&self, vm_name: &str) -> (r: bool)
        ensures
            r == self.spec_can_go_next(vm_name@),
    {
        !vm_name.is_empty() && !contains_char(vm_name, '/') && self.default_vm_name.is_some()
    }

    /// The name the session will use: the user-supplied name when one
    /// is set, else the derived default name.
    pub fn effective_vm_name(&self) -> (r: Option<String>)
        ensures
            r.deep_view() == (if self.vm_name is Some {
                self.vm_name.deep_view()
            } else {
                self.default_vm_name.deep_view()
            }),
    {
        match &self.vm_name {
            Some(n) => Some(n.clone()),
            None => opt_string_clone(&self.default_vm_name),
        }
    }

    /// Commits the selection: returns the first configuration that
    /// matches release, edition and architecture together, packaged
    /// with the session's name, directory and resource choices — or
    /// `NoMatchingConfig` exactly when no configuration matches all
    /// three.
    pub fn resolve(&self, vm_name: &str) -> (result: Result<ResolvedConfig, ConfigurationError>)
        requires
            self.release_list.selected is Some,
            self.arch_list.selected is Some,
        ensures
            (match result {
                Ok(rc) => {
                    &&& exists|i: int|
                        #![auto]
                        0 <= i < self.cfgs().len() && cfg_matches_all(
                            self.cfgs()[i],
                            self.rel_sel()->0,
                            self.ed_sel(),
                            self.ar_sel()->0,
                        ) && rc.config.deep_view() == self.cfgs()[i] && (forall|j: int|
                            0 <= j < i ==> !cfg_matches_all(
                                self.cfgs()[j],
                                self.rel_sel()->0,
                                self.ed_sel(),
                                self.ar_sel()->0,
                            ))
                    &&& rc.os@ == self.selected_os.name@
                    &&& rc.directory@ == self.directory@
                    &&& rc.vm_name@ == vm_name@
                    &&& rc.cpu_cores == self.cpu_cores
                    &&& rc.ram_bytes == self.ram_bytes
                },
                Err(e) => {
                    &&& e == ConfigurationError::NoMatchingConfig
                    &&& forall|i: int|
                        0 <= i < self.cfgs().len() ==> !cfg_matches_all(
                            self.cfgs()[i],
                            self.rel_sel()->0,
                            self.ed_sel(),
                            self.ar_sel()->0,
                        )
                },
            }),
    {
        let rel: &String = match &self.release_list.selected {
            Some(r) => r,
            None => unreached(),
        };
        let ar: Arch = match &self.arch_list.selected {
            Some(a) => *a,
            None => unreached(),
        };
        let n = self.selected_os.releases.len();
        let mut i: usize = 0;
        while i < n
            invariant
                i <= n,
                n == self.cfgs().len(),
                self.rel_sel() == Some(rel@),
                self.ar_sel() == Some(ar),
                forall|j: int|
                    0 <= j < i ==> !cfg_matches_all(
                        self.cfgs()[j],
                        rel@,
                        self.ed_sel(),
                        ar,
                    ),
            decreases n - i,
        {
            let c = &self.selected_os.releases[i];
            if c.release.eq(rel) && opt_string_eq(&c.edition, &self.edition_list.selected) && c.arch
                == ar {
                proof {
                    assert(cfg_matches_all(self.cfgs()[i as int], rel@, self.ed_sel(), ar));
                }
                return Ok(
                    ResolvedConfig {
                        os: self.selected_os.name.clone(),
                        config: c.duplicate(),
                        directory: self.directory.clone(),
                        vm_name: vm_name.to_owned(),
                        cpu_cores: self.cpu_cores,
                        ram_bytes: self.ram_bytes,
                    },
                );
            }
            proof {
                assert(!cfg_matches_all(self.cfgs()[i as int], rel@, self.ed_sel(), ar));
            }
            i += 1;
        }
        Err(ConfigurationError::NoMatchingConfig)
    }
}

/// A selection-stage message: what the presentation boundary reports
/// the user did.
#[derive(Clone, Debug)]
pub enum Message {
    SelectedRelease(String),
    SelectedEdition(String),
    SelectedArch(Arch),
    SetRAM(u64),
    SetCPUCores(usize),
    SelectVMDir,
    SelectedVMDir(String),
    SelectedVMName(String),
    FinalizeVMName,
}

/// What the caller must do after a selection-stage update.
#[derive(Clone, Copy, Debug, PartialEq, Eq, Structural)]
pub enum Action {
    /// Nothing to do.
    Idle,
    /// Open the directory chooser and report the choice back.
    PickDirectory,
}

/// How one selection-stage message transforms the selection: selecting
/// stores the value and recomputes the dependent candidate sets; the
/// other messages set exactly their one field, and finalizing the name
/// clears an empty user-supplied name.
pub open spec fn options_update_post(
    pre: OptionSelection,
    post: OptionSelection,
    msg: Message,
) -> bool {
    match msg {
        Message::SelectedRelease(r) => release_selected_post(pre, post, r@),
        Message::SelectedEdition(e) => edition_selected_post(pre, post, e@),
        Message::SelectedArch(a) => arch_selected_post(pre, post, a),
        Message::SetRAM(rb) => post == (OptionSelection { ram_bytes: rb, ..pre }),
        Message::SetCPUCores(c) => post == (OptionSelection { cpu_cores: c, ..pre }),
        Message::SelectVMDir => post == pre,
        Message::SelectedVMDir(d) => post == (OptionSelection { directory: d, ..pre }),
        Message::SelectedVMName(n) => post == (OptionSelection { vm_name: Some(n), ..pre }),
        Message::FinalizeVMName => post == (OptionSelection {
            vm_name: (if pre.vm_name.deep_view() matches Some(s) && s.len() == 0 {
                None
            } else {
                pre.vm_name
            }),
            ..pre
        }),
    }
}

/// What the caller must do after a selection-stage message: open the
/// directory chooser when asked for, nothing otherwise.
pub open spec fn options_update_action(msg: Message) -> Action {
    match msg {
        Message::SelectVMDir => Action::PickDirectory,
        _ => Action::Idle,
    }
}

impl OptionSelection {
    /// Which messages the presentation boundary may send: a selection
    /// message must name one of the dimension's current candidates.
    pub open spec fn msg_allowed(self, msg: Message) -> bool {
        match msg {
            Message::SelectedRelease(r) => self.release_list.values.deep_view().contains(r@),
            Message::SelectedEdition(e) => self.edition_list.values.deep_view().contains(e@),
            Message::SelectedArch(a) => self.arch_list.values@.contains(a),
            _ => true,
        }
    }

    /// Folds one selection-stage message into the state and says what
    /// the caller must do next.
    pub fn update(&mut self, msg: Message) -> (act: Action)
        requires
            old(self).msg_allowed(msg),
        ensures
            options_update_post(*old(self), *final(self), msg),
            act == options_update_action(msg),
    {
        match msg {
            Message::SelectedRelease(r) => {
                self.select_release(r);
                Action::Idle
            },
            Message::SelectedEdition(e) => {
                self.select_edition(e);
                Action::Idle
            },
            Message::SelectedArch(a) => {
                self.select_arch(a);
                Action::Idle
            },
            Message::SetRAM(rb) => {
                self.ram_bytes = rb;
                Action::Idle
            },
            Message::SetCPUCores(c) => {
                self.cpu_cores = c;
                Action::Idle
            },
            Message::SelectVMDir => Action::PickDirectory,
            Message::SelectedVMDir(d) => {
                self.directory = d;
                Action::Idle
            },
            Message::SelectedVMName(n) => {
                self.vm_name = Some(n);
                Action::Idle
            },
            Message::FinalizeVMName => {
                let clear = match &self.vm_name {
                    Some(n) => n.as_str().is_empty(),
                    None => false,
                };
                if clear {
                    self.vm_name = None;
                }
                Action::Idle
            },
        }
    }
}

} // verus!
