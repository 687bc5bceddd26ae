//! Rendering of the generated mapping as source text: one serialization impl
//! and one deserialization impl, each with one arm per variant.
use vstd::prelude::*;
use vstd::string::StringExecFns;

use crate::decl::{deep_result, GenError, GenErrorV, NamingStyle, Variant, VariantV};
use crate::pairs::{create_pairs, spec_pairs, GeneratedPair, GeneratedPairV};

verus! {

/// The source text of one serialization arm.
pub open spec fn spec_ser_arm(p: GeneratedPairV) -> Seq<char> {
    "Self::"@ + p.variant + " => { serializer.serialize_str(\""@ + p.canonical + "\") }"@
}

fn ser_arm(p: &GeneratedPair) -> (out: String)
    ensures
        out@ == spec_ser_arm(p.deep_view()),
{
    let mut out = String::from_str("Self::");
    out.append(p.variant.as_str());
    out.append(" => { serializer.serialize_str(\"");
    out.append(p.canonical.as_str());
    out.append("\") }");
    out
}

/// The source text of one deserialization arm.
pub open spec fn spec_de_arm(p: GeneratedPairV) -> Seq<char> {
    "\""@ + p.canonical + "\" => Ok(Self::"@ + p.variant + ")"@
}

fn de_arm(p: &GeneratedPair) -> (out: String)
    ensures
        out@ == spec_de_arm(p.deep_view()),
{
    let mut out = String::from_str("\"");
    out.append(p.canonical.as_str());
    out.append("\" => Ok(Self::");
    out.append(p.variant.as_str());
    out.append(")");
    out
}

/// The source texts of the serialization arms, one per variant.
pub open spec fn spec_ser_arms(vs: Seq<VariantV>, ns: NamingStyle) -> Result<
    Seq<Seq<char>>,
    GenErrorV,
> {
    match spec_pairs(vs, ns) {
        Ok(ps) => Ok(Seq::new(ps.len(), |i: int| spec_ser_arm(ps[i]))),
        Err(e) => Err(e),
    }
}

/// The source texts of the deserialization arms, one per variant.
pub open spec fn spec_de_arms(vs: Seq<VariantV>, ns: NamingStyle) -> Result<
    Seq<Seq<char>>,
    GenErrorV,
> {
    match spec_pairs(vs, ns) {
        Ok(ps) => Ok(Seq::new(ps.len(), |i: int| spec_de_arm(ps[i]))),
        Err(e) => Err(e),
    }
}

fn ser_arm_texts(pairs: &Vec<GeneratedPair>) -> (out: Vec<String>)
    ensures
        out.deep_view().len() == pairs.deep_view().len(),
        forall|i: int|
            0 <= i < pairs.deep_view().len() ==> out.deep_view()[i] == spec_ser_arm(
                #[trigger] pairs.deep_view()[i],
            ),
{
    let mut out: Vec<String> = Vec::new();
    let mut i: usize = 0;
    while i < pairs.len()
        invariant
            i <= pairs@.len(),
            out@.len() == i,
            forall|j: int|
                0 <= j < i ==> out.deep_view()[j] == spec_ser_arm(#[trigger] pairs.deep_view()[j]),
        decreases pairs@.len() - i,
    {
        let ghost pre = out.deep_view();
        out.push(ser_arm(&pairs[i]));
        proof {
            assert forall|j: int| 0 <= j < i + 1 implies out.deep_view()[j] == spec_ser_arm(
                pairs.deep_view()[j],
            ) by {
                if j < i {
                    assert(out.deep_view()[j] == pre[j]);
                } else {
                    assert(out.deep_view()[j] == out@[i as int]@);
                }
            }
        }
        i += 1;
    }
    out
}

fn de_arm_texts(pairs: &Vec<GeneratedPair>) -> (out: Vec<String>)
    ensures
        out.deep_view().len() == pairs.deep_view().len(),
        forall|i: int|
            0 <= i < pairs.deep_view().len() ==> out.deep_view()[i] == spec_de_arm(
                #[trigger] pairs.deep_view()[i],
            ),
{
    let mut out: Vec<String> = Vec::new();
    let mut i: usize = 0;
    while i < pairs.len()
        invariant
            i <= pairs@.len(),
            out@.len() == i,
            forall|j: int|
                0 <= j < i ==> out.deep_view()[j] == spec_de_arm(#[trigger] pairs.deep_view()[j]),
        decreases pairs@.len() - i,
    {
        let ghost pre = out.deep_view();
        out.push(de_arm(&pairs[i]));
        proof {
            assert forall|j: int| 0 <= j < i + 1 implies out.deep_view()[j] == spec_de_arm(
                pairs.deep_view()[j],
            ) by {
                if j < i {
                    assert(out.deep_view()[j] == pre[j]);
                } else {
                    assert(out.deep_view()[j] == out@[i as int]@);
                }
            }
        }
        i += 1;
    }
    out
}

pub fn create_ser_arms(variants: &Vec<Variant>, n: NamingStyle) -> (r: Result<Vec<String>, GenError>)
    ensures
        deep_result(r) == spec_ser_arms(variants.deep_view(), n),
{
    let pairs = match create_pairs(variants, n) {
        Ok(p) => p,
        Err(e) => return Err(e),
    };
    let out = ser_arm_texts(&pairs);
    proof {
        let ps = spec_pairs(variants.deep_view(), n)->Ok_0;
        assert(out.deep_view() =~= Seq::new(ps.len(), |i: int| spec_ser_arm(ps[i])));
    }
    Ok(out)
}

pub fn create_de_arms(variants: &Vec<Variant>, n: NamingStyle) -> (r: Result<Vec<String>, GenError>)
    ensures
        deep_result(r) == spec_de_arms(variants.deep_view(), n),
{
    let pairs = match create_pairs(variants, n) {
        Ok(p) => p,
        Err(e) => return Err(e),
    };
    let out = de_arm_texts(&pairs);
    proof {
        let ps = spec_pairs(variants.deep_view(), n)->Ok_0;
        assert(out.deep_view() =~= Seq::new(ps.len(), |i: int| spec_de_arm(ps[i])));
    }
    Ok(out)
}

/// The parts joined in order, with the separator between consecutive parts.
pub open spec fn spec_join(parts: Seq<Seq<char>>, sep: Seq<char>) -> Seq<char>
    decreases parts.len(),
{
    if parts.len() == 0 {
        Seq::empty()
    } else if parts.len() == 1 {
        parts[0]
    } else {
        spec_join(parts.drop_last(), sep) + sep + parts.last()
    }
}

fn join(parts: &Vec<String>, sep: &str) -> (out: String)
    ensures
        out@ == spec_join(parts.deep_view(), sep@),
{
    let mut out = String::new();
    let n = parts.len();
    let mut i: usize = 0;
    proof {
        assert(out@ =~= spec_join(parts.deep_view().take(0), sep@));
    }
    while i < n
        invariant
            0 <= i <= n,
            n == parts@.len(),
            out@ == spec_join(parts.deep_view().take(i as int), sep@),
        decreases n - i,
    {
        if i > 0 {
            out.append(sep);
        }
        out.append(parts[i].as_str());
        proof {
            assert(parts.deep_view().take(i as int + 1).drop_last() =~= parts.deep_view().take(
                i as int,
            ));
            assert(parts.deep_view().take(i as int + 1).last() == parts.deep_view()[i as int]);
            assert(out@ =~= spec_join(parts.deep_view().take(i as int + 1), sep@));
        }
        i += 1;
    }
    proof {
        assert(parts.deep_view().take(n as int) =~= parts.deep_view());
    }
    out
}

/// The catch-all arm of the generated deserialization routine: unrecognized
/// input becomes a reported error carrying the value.
pub open spec fn spec_de_catch_arm() -> Seq<char> {
    "value => Err(serde::de::Error::unknown_variant(value, &[]))"@
}

/// The source text of the serialization impl for a type named `name` with
/// mapping `ps`.
pub open spec fn spec_ser_impl_text(name: Seq<char>, ps: Seq<GeneratedPairV>) -> Seq<char> {
    "impl serde::Serialize for "@ + name
        + " {\n    fn serialize<S>(&self, serializer: S) -> Result<S::Ok, S::Error>\n    where\n        S: serde::Serializer,\n    {\n        match self {\n            "@
        + spec_join(Seq::new(ps.len(), |i: int| spec_ser_arm(ps[i])), ",\n            "@)
        + "\n        }\n    }\n}\n"@
}

/// The source text of the deserialization impl for a type named `name` with
/// mapping `ps`.
pub open spec fn spec_de_impl_text(name: Seq<char>, ps: Seq<GeneratedPairV>) -> Seq<char> {
    "impl<'de> serde::Deserialize<'de> for "@ + name
        + " {\n    fn deserialize<D>(deserializer: D) -> Result<Self, D::Error>\n    where\n        D: serde::Deserializer<'de>,\n    {\n        match <&str>::deserialize(deserializer)? {\n            "@
        + spec_join(
        Seq::new(ps.len(), |i: int| spec_de_arm(ps[i])).push(spec_de_catch_arm()),
        ",\n            "@,
    ) + "\n        }\n    }\n}\n"@
}

pub fn ser_impl_text(name: &str, pairs: &Vec<GeneratedPair>) -> (out: String)
    ensures
        out@ == spec_ser_impl_text(name@, pairs.deep_view()),
{
    let parts = ser_arm_texts(pairs);
    proof {
        let ps = pairs.deep_view();
        assert(parts.deep_view() =~= Seq::new(ps.len(), |i: int| spec_ser_arm(ps[i])));
    }
    let joined = join(&parts, ",\n            ");
    let mut out = String::from_str("impl serde::Serialize for ");
    out.append(name);
    out.append(
        " {\n    fn serialize<S>(&self, serializer: S) -> Result<S::Ok, S::Error>\n    where\n        S: serde::Serializer,\n    {\n        match self {\n            ",
    );
    out.append(joined.as_str());
    out.append("\n        }\n    }\n}\n");
    out
}

pub fn de_impl_text(name: &str, pairs: &Vec<GeneratedPair>) -> (out: String)
    ensures
        out@ == spec_de_impl_text(name@, pairs.deep_view()),
{
    let mut parts = de_arm_texts(pairs);
    parts.push(String::from_str("value => Err(serde::de::Error::unknown_variant(value, &[]))"));
    proof {
        let ps = pairs.deep_view();
        assert(parts.deep_view() =~= Seq::new(ps.len(), |i: int| spec_de_arm(ps[i])).push(
            spec_de_catch_arm(),
        ));
    }
    let joined = join(&parts, ",\n            ");
    let mut out = String::from_str("impl<'de> serde::Deserialize<'de> for ");
    out.append(name);
    out.append(
        " {\n    fn deserialize<D>(deserializer: D) -> Result<Self, D::Error>\n    where\n        D: serde::Deserializer<'de>,\n    {\n        match <&str>::deserialize(deserializer)? {\n            ",
    );
    out.append(joined.as_str());
    out.append("\n        }\n    }\n}\n");
    out
}

} // verus!
