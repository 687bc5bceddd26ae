//! The generated mapping: one canonical string per variant, the check that
//! the mapping is bijective, and the two routines the emitted code stands
//! for — variant to canonical string, and canonical string back to variant.
use vstd::prelude::*;
use vstd::string::StringExecFns;

use crate::casing::{apply_style, spec_apply_style, str_eq};
use crate::decl::{
    deep_result, DeError, DeErrorV, GenError, GenErrorV, NamingStyle, Variant, VariantV,
};
use crate::style::{effective_style, get_naming_style, spec_effective_style, spec_naming_style};

verus! {

/// One entry of the generated mapping: a variant identifier and the canonical
/// string it serializes to.
pub struct GeneratedPair {
    pub variant: String,
    pub canonical: String,
}

/// The mathematical value of a [`GeneratedPair`].
pub struct GeneratedPairV {
    pub variant: Seq<char>,
    pub canonical: Seq<char>,
}

impl View for GeneratedPair {
    type V = GeneratedPairV;

    open spec fn view(&self) -> GeneratedPairV {
        GeneratedPairV { variant: self.variant@, canonical: self.canonical@ }
    }
}

impl DeepView for GeneratedPair {
    type V = GeneratedPairV;

    open spec fn deep_view(&self) -> GeneratedPairV {
        self@
    }
}

/// The canonical string of one variant: its own style, when it declares a
/// recognized one, wins over the type-level style.
pub open spec fn spec_format_variant(v: VariantV, ns: NamingStyle) -> Result<Seq<char>, GenErrorV> {
    match spec_naming_style(v.attrs) {
        Ok(vs) => Ok(spec_apply_style(v.name, spec_effective_style(vs, ns))),
        Err(e) => Err(e),
    }
}

pub fn format_variant(v: &Variant, ns: NamingStyle) -> (r: Result<String, GenError>)
    ensures
        deep_result(r) == spec_format_variant(v.deep_view(), ns),
{
    let vstyle = match get_naming_style(&v.attrs) {
        Ok(s) => s,
        Err(e) => return Err(e),
    };
    let st = effective_style(vstyle, ns);
    Ok(apply_style(v.name.as_str(), st))
}

/// The full generated mapping, in declaration order; the first variant whose
/// own annotations are faulty aborts generation.
pub open spec fn spec_pairs(vs: Seq<VariantV>, ns: NamingStyle) -> Result<
    Seq<GeneratedPairV>,
    GenErrorV,
>
    decreases vs.len(),
{
    if vs.len() == 0 {
        Ok(Seq::empty())
    } else {
        match spec_format_variant(vs[0], ns) {
            Err(e) => Err(e),
            Ok(c) => match spec_pairs(vs.drop_first(), ns) {
                Err(e) => Err(e),
                Ok(rest) => Ok(seq![GeneratedPairV { variant: vs[0].name, canonical: c }] + rest),
            },
        }
    }
}

fn create_pairs_from(variants: &Vec<Variant>, ns: NamingStyle, i: usize) -> (r: Result<
    Vec<GeneratedPair>,
    GenError,
>)
    requires
        i <= variants@.len(),
    ensures
        deep_result(r) == spec_pairs(variants.deep_view().skip(i as int), ns),
    decreases variants@.len() - i,
{
    let n = variants.len();
    if i == n {
        let out: Vec<GeneratedPair> = Vec::new();
        proof {
            assert(variants.deep_view().skip(i as int) =~= Seq::<VariantV>::empty());
            assert(out.deep_view() =~= Seq::<GeneratedPairV>::empty());
        }
        Ok(out)
    } else {
        proof {
            assert(variants.deep_view().skip(i as int)[0] == variants.deep_view()[i as int]);
            assert(variants.deep_view().skip(i as int).drop_first() =~= variants.deep_view().skip(
                i as int + 1,
            ));
        }
        let c = match format_variant(&variants[i], ns) {
            Ok(c) => c,
            Err(e) => return Err(e),
        };
        let mut rest = match create_pairs_from(variants, ns, i + 1) {
            Ok(r) => r,
            Err(e) => return Err(e),
        };
        let ghost pre = rest.deep_view();
        let p = GeneratedPair { variant: variants[i].name.clone(), canonical: c };
        let ghost pv = p.deep_view();
        rest.insert(0, p);
        proof {
            assert(rest.deep_view() =~= seq![pv] + pre);
            assert(pv == (GeneratedPairV {
                variant: variants.deep_view().skip(i as int)[0].name,
                canonical: c@,
            }));
        }
        Ok(rest)
    }
}

pub fn create_pairs(variants: &Vec<Variant>, ns: NamingStyle) -> (r: Result<
    Vec<GeneratedPair>,
    GenError,
>)
    ensures
        deep_result(r) == spec_pairs(variants.deep_view(), ns),
{
    proof {
        assert(variants.deep_view().skip(0) =~= variants.deep_view());
    }
    create_pairs_from(variants, ns, 0)
}

/// A successful mapping has one entry per variant, in order: the variant's
/// name next to its canonical string.
pub proof fn lemma_pairs_ok(vs: Seq<VariantV>, ns: NamingStyle)
    requires
        (spec_pairs(vs, ns) is Ok),
    ensures
        (spec_pairs(vs, ns)->Ok_0).len() == vs.len(),
        forall|i: int| 0 <= i < vs.len() ==> (#[trigger] spec_format_variant(vs[i], ns) is Ok),
        forall|i: int|
            0 <= i < vs.len() ==> (#[trigger] (spec_pairs(vs, ns)->Ok_0)[i]) == (GeneratedPairV {
                variant: vs[i].name,
                canonical: spec_format_variant(vs[i], ns)->Ok_0,
            }),
    decreases vs.len(),
{
    if vs.len() == 0 {
    } else {
        lemma_pairs_ok(vs.drop_first(), ns);
        assert forall|i: int| 0 <= i < vs.len() implies (#[trigger] spec_format_variant(vs[i], ns)
            is Ok) by {
            if i > 0 {
                assert(vs.drop_first()[i - 1] == vs[i]);
            }
        }
        assert forall|i: int| 0 <= i < vs.len() implies (#[trigger] (spec_pairs(vs, ns)->Ok_0)[i])
            == (GeneratedPairV {
            variant: vs[i].name,
            canonical: spec_format_variant(vs[i], ns)->Ok_0,
        }) by {
            if i > 0 {
                assert(vs.drop_first()[i - 1] == vs[i]);
                assert((spec_pairs(vs, ns)->Ok_0)[i] == (spec_pairs(vs.drop_first(), ns)->Ok_0)[i
                    - 1]);
            }
        }
    }
}

/// There is a variant before position `j` with the same canonical string.
pub open spec fn spec_dup_before(ps: Seq<GeneratedPairV>, j: int) -> bool {
    exists|i: int| 0 <= i < j && ps[i].canonical == ps[j].canonical
}

/// No two entries share a canonical string.
pub open spec fn spec_distinct(ps: Seq<GeneratedPairV>) -> bool {
    forall|i: int, j: int| 0 <= i < j < ps.len() ==> ps[i].canonical != ps[j].canonical
}

/// The first canonical string that repeats an earlier one, scanning from `j`.
pub open spec fn spec_first_dup_from(ps: Seq<GeneratedPairV>, j: int) -> Option<Seq<char>>
    decreases ps.len() - j,
{
    if j < 0 || j >= ps.len() {
        None
    } else if spec_dup_before(ps, j) {
        Some(ps[j].canonical)
    } else {
        spec_first_dup_from(ps, j + 1)
    }
}

/// The first canonical string of the mapping that repeats an earlier one.
pub open spec fn spec_first_dup(ps: Seq<GeneratedPairV>) -> Option<Seq<char>> {
    spec_first_dup_from(ps, 0)
}

proof fn lemma_first_dup_none(ps: Seq<GeneratedPairV>, j: int)
    requires
        0 <= j <= ps.len(),
    ensures
        (spec_first_dup_from(ps, j) is None) <==> (forall|j2: int|
            j <= j2 < ps.len() ==> !spec_dup_before(ps, j2)),
    decreases ps.len() - j,
{
    if j < ps.len() {
        lemma_first_dup_none(ps, j + 1);
    }
}

/// The duplicate scan finds nothing exactly when the mapping is bijective.
pub proof fn lemma_distinct_iff_no_dup(ps: Seq<GeneratedPairV>)
    ensures
        spec_distinct(ps) <==> (spec_first_dup(ps) is None),
{
    lemma_first_dup_none(ps, 0);
    if spec_distinct(ps) {
        assert forall|j2: int| 0 <= j2 < ps.len() implies !spec_dup_before(ps, j2) by {
            assert(forall|i: int| 0 <= i < j2 ==> ps[i].canonical != ps[j2].canonical);
        }
    }
    if forall|j2: int| 0 <= j2 < ps.len() ==> !spec_dup_before(ps, j2) {
        assert forall|i: int, j: int| 0 <= i < j < ps.len() implies ps[i].canonical
            != ps[j].canonical by {
            assert(!spec_dup_before(ps, j));
        }
    }
}

/// Rejects a mapping in which two variants share a canonical string; the
/// reported duplicate is the first canonical string that repeats an earlier
/// one.
pub fn check_bijective(pairs: &Vec<GeneratedPair>) -> (r: Result<(), GenError>)
    ensures
        r is Ok <==> spec_distinct(pairs.deep_view()),
        match r {
            Ok(_) => spec_first_dup(pairs.deep_view()) is None,
            Err(e) => spec_first_dup(pairs.deep_view()) matches Some(v) && e.deep_view()
                == GenErrorV::DuplicateName(v),
        },
{
    let ghost ps = pairs.deep_view();
    let n = pairs.len();
    let mut j: usize = 0;
    while j < n
        invariant
            0 <= j <= n,
            n == pairs@.len(),
            ps == pairs.deep_view(),
            forall|j2: int| 0 <= j2 < j ==> !spec_dup_before(ps, j2),
            spec_first_dup_from(ps, 0) == spec_first_dup_from(ps, j as int),
        decreases n - j,
    {
        let mut i: usize = 0;
        while i < j
            invariant
                0 <= i <= j < n,
                n == pairs@.len(),
                ps == pairs.deep_view(),
                forall|j2: int| 0 <= j2 < j ==> !spec_dup_before(ps, j2),
                spec_first_dup_from(ps, 0) == spec_first_dup_from(ps, j as int),
                forall|i2: int| 0 <= i2 < i ==> ps[i2].canonical != ps[j as int].canonical,
            decreases j - i,
        {
            if str_eq(pairs[i].canonical.as_str(), pairs[j].canonical.as_str()) {
                proof {
                    assert(ps[i as int].canonical == ps[j as int].canonical);
                    assert(spec_dup_before(ps, j as int));
                    assert(spec_first_dup(ps) == Some(ps[j as int].canonical));
                    assert(!spec_distinct(ps));
                }
                return Err(GenError::DuplicateName(pairs[j].canonical.clone()));
            }
            i += 1;
        }
        proof {
            assert(!spec_dup_before(ps, j as int));
            assert(spec_first_dup_from(ps, j as int) == spec_first_dup_from(ps, j as int + 1));
        }
        j += 1;
    }
    proof {
        assert(spec_first_dup_from(ps, n as int) is None);
        lemma_distinct_iff_no_dup(ps);
    }
    Ok(())
}

/// Bijectivity law: in a mapping that passed the duplicate check, two
/// distinct variants never serialize to the same canonical string.
pub proof fn lemma_serialize_injective(ps: Seq<GeneratedPairV>, i: int, j: int)
    requires
        spec_distinct(ps),
        0 <= i < ps.len(),
        0 <= j < ps.len(),
        i != j,
    ensures
        ps[i].canonical != ps[j].canonical,
{
}

/// What the generated deserialization routine returns: the first entry, from
/// position `j` on, whose canonical string equals the input, and the
/// unrecognized-value error when none does.
pub open spec fn spec_find(ps: Seq<GeneratedPairV>, input: Seq<char>, j: int) -> Result<
    int,
    DeErrorV,
>
    decreases ps.len() - j,
{
    if j < 0 || j >= ps.len() {
        Err(DeErrorV::Unrecognized(input))
    } else if ps[j].canonical == input {
        Ok(j)
    } else {
        spec_find(ps, input, j + 1)
    }
}

/// The generated deserialization routine over the whole mapping.
pub open spec fn spec_deserialize(ps: Seq<GeneratedPairV>, input: Seq<char>) -> Result<
    int,
    DeErrorV,
> {
    spec_find(ps, input, 0)
}

/// The generated serialization routine: a variant — here, its position in
/// the mapping — always has exactly one canonical string.
pub fn serialize_variant(pairs: &Vec<GeneratedPair>, i: usize) -> (out: String)
    requires
        i < pairs@.len(),
    ensures
        out@ == pairs.deep_view()[i as int].canonical,
{
    pairs[i].canonical.clone()
}

/// The generated deserialization routine: the variant whose canonical string
/// exactly equals the input, or the unrecognized-value error carrying the
/// input.
pub fn deserialize_variant(pairs: &Vec<GeneratedPair>, input: &str) -> (r: Result<usize, DeError>)
    ensures
        match r {
            Ok(i) => i < pairs@.len() && spec_deserialize(pairs.deep_view(), input@) == Ok::<
                int,
                DeErrorV,
            >(i as int),
            Err(e) => spec_deserialize(pairs.deep_view(), input@) == Err::<int, DeErrorV>(
                e.deep_view(),
            ),
        },
{
    let ghost ps = pairs.deep_view();
    let n = pairs.len();
    let mut j: usize = 0;
    while j < n
        invariant
            0 <= j <= n,
            n == pairs@.len(),
            ps == pairs.deep_view(),
            spec_find(ps, input@, 0) == spec_find(ps, input@, j as int),
        decreases n - j,
    {
        if str_eq(pairs[j].canonical.as_str(), input) {
            return Ok(j);
        }
        proof {
            assert(spec_find(ps, input@, j as int) == spec_find(ps, input@, j as int + 1));
        }
        j += 1;
    }
    Err(DeError::Unrecognized(String::from_str(input)))
}

proof fn lemma_find_hits(ps: Seq<GeneratedPairV>, i: int, j: int)
    requires
        0 <= j <= i < ps.len(),
        forall|k: int| j <= k < i ==> ps[k].canonical != ps[i].canonical,
    ensures
        spec_find(ps, ps[i].canonical, j) == Ok::<int, DeErrorV>(i),
    decreases i - j,
{
    if j < i {
        lemma_find_hits(ps, i, j + 1);
    }
}

/// Round-trip law: in a bijective mapping, deserializing the canonical
/// string of any variant yields that variant back.
pub proof fn lemma_round_trip(ps: Seq<GeneratedPairV>, i: int)
    requires
        spec_distinct(ps),
        0 <= i < ps.len(),
    ensures
        spec_deserialize(ps, ps[i].canonical) == Ok::<int, DeErrorV>(i),
{
    lemma_find_hits(ps, i, 0);
}

proof fn lemma_find_misses(ps: Seq<GeneratedPairV>, input: Seq<char>, j: int)
    requires
        0 <= j <= ps.len(),
        forall|k: int| 0 <= k < ps.len() ==> ps[k].canonical != input,
    ensures
        spec_find(ps, input, j) == Err::<int, DeErrorV>(DeErrorV::Unrecognized(input)),
    decreases ps.len() - j,
{
    if j < ps.len() {
        lemma_find_misses(ps, input, j + 1);
    }
}

/// Unrecognized-input law: an input that equals no canonical string always
/// deserializes to the unrecognized-value error carrying that input, and
/// never to a variant.
pub proof fn lemma_unrecognized(ps: Seq<GeneratedPairV>, input: Seq<char>)
    requires
        forall|k: int| 0 <= k < ps.len() ==> ps[k].canonical != input,
    ensures
        spec_deserialize(ps, input) == Err::<int, DeErrorV>(DeErrorV::Unrecognized(input)),
{
    lemma_find_misses(ps, input, 0);
}

/// Precedence law: a variant that declares a recognized style of its own is
/// immune to the type-level style — its canonical string is the transform
/// under its own style alone, whatever the type declares.
pub proof fn lemma_variant_override(v: VariantV, ts1: NamingStyle, ts2: NamingStyle)
    requires
        spec_naming_style(v.attrs) matches Ok(s) && !(s is Unchanged),
    ensures
        spec_format_variant(v, ts1) == spec_format_variant(v, ts2),
        spec_format_variant(v, ts1) == Ok::<Seq<char>, GenErrorV>(
            spec_apply_style(v.name, spec_naming_style(v.attrs)->Ok_0),
        ),
{
}

/// Default-identity law: a variant without annotations of its own, in a type
/// that declares no style, keeps its declared spelling exactly.
pub proof fn lemma_default_identity(v: VariantV)
    requires
        v.attrs.len() == 0,
    ensures
        spec_format_variant(v, NamingStyle::Unchanged) == Ok::<Seq<char>, GenErrorV>(v.name),
{
}

} // verus!
