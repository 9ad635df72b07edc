use crate::text_range::TextRange;
use fxhash::FxHashMap;
use std::sync::Arc;
use std::time::Instant;
use vstd::prelude::*;

verus! {

/// `fxhash::FxHasher`, the hasher of the maps of findings. Nothing is
/// stated of it.
#[verifier::external_type_specification]
#[verifier::external_body]
pub struct ExFxHasher(fxhash::FxHasher);

/// `std::time::Instant`, a moment of a clock that never runs backwards.
/// Nothing is stated of it.
#[verifier::external_type_specification]
#[verifier::external_body]
pub struct ExInstant(std::time::Instant);

/// `std::hash::BuildHasherDefault`, which makes a map's hashers. Nothing is
/// stated of it.
#[verifier::external_type_specification]
#[verifier::external_body]
#[verifier::reject_recursive_types(H)]
pub struct ExBuildHasherDefault<H>(std::hash::BuildHasherDefault<H>);

/// One finding of the type checker, as the child process reports it.
#[derive(Debug, PartialEq, Eq, Clone)]
pub struct EqwalizerDiagnostic {
    pub range: TextRange,
    pub message: String,
    pub uri: String,
    pub code: String,
    pub expression: Option<String>,
    pub explanation: Option<String>,
}

/// What a finding holds, as mathematical values.
pub struct DiagnosticView {
    pub range: (nat, nat),
    pub message: Seq<char>,
    pub uri: Seq<char>,
    pub code: Seq<char>,
    pub expression: Option<Seq<char>>,
    pub explanation: Option<Seq<char>>,
}

impl View for EqwalizerDiagnostic {
    type V = DiagnosticView;

    open spec fn view(&self) -> DiagnosticView {
        DiagnosticView {
            range: self.range@,
            message: self.message@,
            uri: self.uri@,
            code: self.code@,
            expression: self.expression.deep_view(),
            explanation: self.explanation.deep_view(),
        }
    }
}

impl DeepView for EqwalizerDiagnostic {
    type V = DiagnosticView;

    open spec fn deep_view(&self) -> DiagnosticView {
        self.view()
    }
}

/// The bounds of a range as the wire states them, where the start lies
/// behind the end.
#[derive(Debug, Clone, Copy, PartialEq, Eq, Structural)]
pub struct InvertedRange {
    pub start: u32,
    pub end: u32,
}

/// The range that the wire states by its two bounds. A start behind the end
/// violates the protocol.
pub fn deserialize_text_range(start: u32, end: u32) -> (r: Result<TextRange, InvertedRange>)
    ensures
        r is Ok <==> start <= end,
        r matches Ok(range) ==> range@ == (start as nat, end as nat),
        r matches Err(e) ==> e == (InvertedRange { start, end }),
{
    match TextRange::checked(start, end) {
        Some(range) => Ok(range),
        None => Err(InvertedRange { start, end }),
    }
}

/// The findings of a run, module by module.
pub type DiagnosticsMap = FxHashMap<String, Vec<EqwalizerDiagnostic>>;

/// The findings of a run as a mathematical map from module names to lists.
pub type Findings = Map<Seq<char>, Seq<DiagnosticView>>;

/// The entries that a map of findings holds: for each module name in it, by
/// its text, the list stored under that name.
pub uninterp spec fn map_entries(m: DiagnosticsMap) -> Findings;

/// A list of entries as mathematical values: module names with their lists.
pub type Pairs = Seq<(Seq<char>, Seq<DiagnosticView>)>;

/// `pairs` lists the entries of `entries`, each exactly once, in some order.
pub open spec fn lists_entries(pairs: Pairs, entries: Findings) -> bool {
    &&& forall|i: int|
        0 <= i < pairs.len() ==> entries.contains_pair((#[trigger] pairs[i]).0, pairs[i].1)
    &&& forall|k: Seq<char>| #[trigger]
        entries.contains_key(k) ==> exists|i: int|
            0 <= i < pairs.len() && (#[trigger] pairs[i]).0 == k
    &&& forall|i: int, j: int|
        0 <= i < j < pairs.len() ==> (#[trigger] pairs[i]).0 != (#[trigger] pairs[j]).0
}

/// `entries` after the first `n` of `pairs` were inserted into it, one after
/// the other: a later pair replaces an earlier one of the same module.
pub open spec fn inserted(entries: Findings, pairs: Pairs, n: nat) -> Findings
    decreases n,
{
    if n == 0 || n > pairs.len() {
        entries
    } else {
        inserted(entries, pairs, (n - 1) as nat).insert(pairs[n - 1].0, pairs[n - 1].1)
    }
}

/// `FxHashMap::default`: a map that holds no entry.
#[verifier::external_body]
fn empty_map() -> (m: DiagnosticsMap)
    ensures
        map_entries(m) == (Map::<Seq<char>, Seq<DiagnosticView>>::empty()),
{
    FxHashMap::default()
}

/// `HashMap::insert`: afterwards `key` leads to `value`, whether or not the
/// map held the key before; every other entry stays as it was.
#[verifier::external_body]
fn map_insert(m: &mut DiagnosticsMap, key: String, value: Vec<EqwalizerDiagnostic>)
    ensures
        map_entries(*final(m)) == map_entries(*old(m)).insert(key@, value.deep_view()),
{
    m.insert(key, value);
}

/// `HashMap::iter`: visits every entry once, in an order that is not
/// specified. Each entry is handed out as a copy.
#[verifier::external_body]
fn map_pairs(m: &DiagnosticsMap) -> (pairs: Vec<(String, Vec<EqwalizerDiagnostic>)>)
    ensures
        lists_entries(pairs.deep_view(), map_entries(*m)),
{
    m.iter().map(|(k, v)| (k.clone(), v.clone())).collect()
}

/// Inserts the pairs into `dst`, one after the other.
pub fn insert_pairs(dst: &mut DiagnosticsMap, pairs: Vec<(String, Vec<EqwalizerDiagnostic>)>)
    ensures
        map_entries(*final(dst)) == inserted(
            map_entries(*old(dst)),
            pairs.deep_view(),
            pairs.len() as nat,
        ),
{
    let ghost all = pairs.deep_view();
    let ghost base = map_entries(*dst);
    for pair in it: pairs
        invariant
            it.seq().len() == all.len(),
            forall|i: int| 0 <= i < all.len() ==> (#[trigger] it.seq()[i]).deep_view() == all[i],
            map_entries(*dst) == inserted(base, all, it.index() as nat),
    {
        let (key, value) = pair;
        map_insert(dst, key, value);
    }
}

/// The map that holds the pairs, inserted one after the other.
pub fn from_pairs(pairs: Vec<(String, Vec<EqwalizerDiagnostic>)>) -> (m: DiagnosticsMap)
    ensures
        map_entries(m) == inserted(Map::empty(), pairs.deep_view(), pairs.len() as nat),
{
    let mut m = empty_map();
    insert_pairs(&mut m, pairs);
    m
}

/// The modules of the pairs from index `from` up to index `to`.
pub open spec fn keys_between(pairs: Pairs, from: int, to: int) -> Set<Seq<char>> {
    Set::new(|k: Seq<char>| exists|i: int| from <= i < to && (#[trigger] pairs[i]).0 == k)
}

/// Inserting a list of a map's entries, in whatever order it has them, gives
/// the entries in the list so far the values of that map and leaves the rest
/// as it was.
pub proof fn lemma_inserted_entries(base: Findings, pairs: Pairs, added: Findings, n: nat)
    requires
        lists_entries(pairs, added),
        n <= pairs.len(),
    ensures
        inserted(base, pairs, n) == base.union_prefer_right(
            added.restrict(keys_between(pairs, 0, n as int)),
        ),
    decreases n,
{
    if n == 0 {
        assert(base =~= base.union_prefer_right(added.restrict(keys_between(pairs, 0, 0))));
    } else {
        lemma_inserted_entries(base, pairs, added, (n - 1) as nat);
        let k = pairs[n - 1].0;
        let v = pairs[n - 1].1;
        assert(added.contains_pair(k, v));
        assert(keys_between(pairs, 0, n as int) =~= keys_between(pairs, 0, n - 1).insert(k));
        assert(inserted(base, pairs, n) =~= base.union_prefer_right(
            added.restrict(keys_between(pairs, 0, n as int)),
        ));
    }
}

/// A map of findings taken apart into its entries and put together again
/// holds the entries that it held, whatever the order in which they came out.
pub proof fn lemma_pairs_round_trip(entries: Findings, pairs: Pairs)
    requires
        lists_entries(pairs, entries),
    ensures
        inserted(Map::empty(), pairs, pairs.len()) == entries,
{
    lemma_inserted_entries(Map::empty(), pairs, entries, pairs.len());
    assert forall|k: Seq<char>| entries.contains_key(k) implies keys_between(
        pairs,
        0,
        pairs.len() as int,
    ).contains(k) by {
        let i = choose|i: int| 0 <= i < pairs.len() && (#[trigger] pairs[i]).0 == k;
        assert(0 <= i < pairs.len() && pairs[i].0 == k);
    }
    assert(Map::<Seq<char>, Seq<DiagnosticView>>::empty().union_prefer_right(
        entries.restrict(keys_between(pairs, 0, pairs.len() as int)),
    ) =~= entries);
}

/// Inserts a copy of every entry of `src` into `dst`. An entry of `src`
/// replaces one that `dst` holds under the same module name.
pub fn extend_map(dst: &mut DiagnosticsMap, src: &DiagnosticsMap)
    ensures
        map_entries(*final(dst)) == map_entries(*old(dst)).union_prefer_right(map_entries(*src)),
{
    let pairs = map_pairs(src);
    proof {
        let all = pairs.deep_view();
        let added = map_entries(*src);
        lemma_inserted_entries(map_entries(*dst), all, added, all.len());
        assert forall|k: Seq<char>| added.contains_key(k) implies keys_between(
            all,
            0,
            all.len() as int,
        ).contains(k) by {
            let i = choose|i: int| 0 <= i < all.len() && (#[trigger] all[i]).0 == k;
            assert(0 <= i < all.len() && all[i].0 == k);
        }
        assert(added.restrict(keys_between(all, 0, all.len() as int)) =~= added);
    }
    insert_pairs(dst, pairs);
}

/// The outcome of a type-checking run.
#[derive(Debug, PartialEq, Eq, Clone)]
pub enum EqwalizerDiagnostics {
    /// The findings, by module.
    Diagnostics(DiagnosticsMap),
    /// The child could not be served because this module does not parse.
    NoAst { module: String },
    /// Any other condition that ended the run.
    Error(String),
}

/// An outcome as mathematical values.
pub enum DiagnosticsView {
    Diagnostics(Findings),
    NoAst { module: Seq<char> },
    Error(Seq<char>),
}

impl DiagnosticsView {
    /// The outcome of two runs taken together: a failure absorbs what comes
    /// after it, and of two sets of findings the later one wins wherever both
    /// speak of the same module.
    pub open spec fn combine(self, other: DiagnosticsView) -> DiagnosticsView {
        match self {
            DiagnosticsView::Diagnostics(left) => match other {
                DiagnosticsView::Diagnostics(right) => DiagnosticsView::Diagnostics(
                    left.union_prefer_right(right),
                ),
                _ => other,
            },
            _ => self,
        }
    }

    /// The outcome that holds no finding.
    pub open spec fn empty() -> DiagnosticsView {
        DiagnosticsView::Diagnostics(Map::empty())
    }
}

impl View for EqwalizerDiagnostics {
    type V = DiagnosticsView;

    open spec fn view(&self) -> DiagnosticsView {
        match self {
            EqwalizerDiagnostics::Diagnostics(m) => DiagnosticsView::Diagnostics(map_entries(*m)),
            EqwalizerDiagnostics::NoAst { module } => DiagnosticsView::NoAst { module: module@ },
            EqwalizerDiagnostics::Error(message) => DiagnosticsView::Error(message@),
        }
    }
}

impl DeepView for EqwalizerDiagnostics {
    type V = DiagnosticsView;

    open spec fn deep_view(&self) -> DiagnosticsView {
        self.view()
    }
}

impl Default for EqwalizerDiagnostics {
    /// The outcome that holds no finding.
    fn default() -> (r: EqwalizerDiagnostics)
        ensures
            r@ == DiagnosticsView::empty(),
    {
        EqwalizerDiagnostics::Diagnostics(empty_map())
    }
}

impl EqwalizerDiagnostics {
    /// Merges a later outcome into this one.
    pub fn combine(self, other: &EqwalizerDiagnostics) -> (r: EqwalizerDiagnostics)
        ensures
            r@ == self@.combine(other@),
    {
        match self {
            EqwalizerDiagnostics::NoAst { module } => EqwalizerDiagnostics::NoAst { module },
            EqwalizerDiagnostics::Error(message) => EqwalizerDiagnostics::Error(message),
            EqwalizerDiagnostics::Diagnostics(mut diags) => match other {
                EqwalizerDiagnostics::Diagnostics(other_diags) => {
                    extend_map(&mut diags, other_diags);
                    EqwalizerDiagnostics::Diagnostics(diags)
                },
                EqwalizerDiagnostics::Error(message) => EqwalizerDiagnostics::Error(
                    message.clone(),
                ),
                EqwalizerDiagnostics::NoAst { module } => EqwalizerDiagnostics::NoAst {
                    module: module.clone(),
                },
            },
        }
    }

    /// The outcome of a run that a failed step ended: the step's message.
    pub fn error(message: String) -> (r: EqwalizerDiagnostics)
        ensures
            r@ == DiagnosticsView::Error(message@),
    {
        EqwalizerDiagnostics::Error(message)
    }
}

/// `Instant::now`: the moment of the call. Nothing is known of it.
#[verifier::external_body]
fn now() -> Instant {
    Instant::now()
}

/// The outcome of a module's loop together with the moment at which it was
/// taken. The moment makes two equal outcomes of successive runs differ, so
/// that an engine which compares results records each of them as new.
pub fn module_diagnostics(outcome: EqwalizerDiagnostics) -> (r: (Arc<EqwalizerDiagnostics>, Instant))
    ensures
        r.0@ == outcome@,
{
    let timestamp = now();
    (Arc::new(outcome), timestamp)
}

/// A failure absorbs whatever is merged into it.
pub proof fn lemma_combine_error_absorbs(message: Seq<char>, other: DiagnosticsView)
    ensures
        DiagnosticsView::Error(message).combine(other) == DiagnosticsView::Error(message),
{
}

/// A module that does not parse absorbs whatever is merged into it.
pub proof fn lemma_combine_no_ast_absorbs(module: Seq<char>, other: DiagnosticsView)
    ensures
        (DiagnosticsView::NoAst { module }).combine(other) == (DiagnosticsView::NoAst { module }),
{
}

/// Merging into the outcome without findings gives the other outcome.
pub proof fn lemma_combine_left_identity(other: DiagnosticsView)
    ensures
        DiagnosticsView::empty().combine(other) == other,
{
    if let DiagnosticsView::Diagnostics(right) = other {
        assert(Map::<Seq<char>, Seq<DiagnosticView>>::empty().union_prefer_right(right) =~= right);
    }
}

/// Merging the outcome without findings into an outcome changes nothing.
pub proof fn lemma_combine_right_identity(a: DiagnosticsView)
    ensures
        a.combine(DiagnosticsView::empty()) == a,
{
    if let DiagnosticsView::Diagnostics(left) = a {
        assert(left.union_prefer_right(Map::<Seq<char>, Seq<DiagnosticView>>::empty()) =~= left);
    }
}

/// Merging is associative.
pub proof fn lemma_combine_associative(a: DiagnosticsView, b: DiagnosticsView, c: DiagnosticsView)
    ensures
        a.combine(b).combine(c) == a.combine(b.combine(c)),
{
    if let DiagnosticsView::Diagnostics(x) = a {
        if let DiagnosticsView::Diagnostics(y) = b {
            if let DiagnosticsView::Diagnostics(z) = c {
                assert(x.union_prefer_right(y).union_prefer_right(z) =~= x.union_prefer_right(
                    y.union_prefer_right(z),
                ));
            }
        }
    }
}

/// Of two sets of findings the later one decides each module that both hold,
/// and every module of either is kept.
pub proof fn lemma_combine_later_wins(left: Findings, right: Findings, module: Seq<char>)
    ensures
        DiagnosticsView::Diagnostics(left).combine(DiagnosticsView::Diagnostics(right))
            matches DiagnosticsView::Diagnostics(merged) && {
            &&& merged.contains_key(module) <==> left.contains_key(module) || right.contains_key(
                module,
            )
            &&& right.contains_key(module) ==> merged[module] == right[module]
            &&& left.contains_key(module) && !right.contains_key(module) ==> merged[module]
                == left[module]
        },
{
}

} // verus!
