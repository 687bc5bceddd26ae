//! A code generator for string serialization and deserialization of
//! unit-variant enumerations, with a two-level choice of naming convention:
//! a type-wide annotation sets the default, and a variant's own annotation
//! overrides it. Generation validates the declaration, resolves the styles,
//! computes one canonical string per variant, rejects any duplicate, and
//! renders the two impls as source text.
use vstd::prelude::*;

pub mod casing;
pub mod decl;
pub mod emit;
pub mod pairs;
pub mod style;
pub mod validate;

use crate::decl::{
    deep_result, DeErrorV, GenError, GenErrorV, NamingStyle, TypeDecl, TypeDeclV,
};
use crate::emit::{de_impl_text, ser_impl_text, spec_de_impl_text, spec_ser_impl_text};
use crate::pairs::{
    check_bijective, create_pairs, lemma_default_identity, lemma_distinct_iff_no_dup,
    lemma_pairs_ok, lemma_round_trip, spec_deserialize, spec_distinct, spec_first_dup, spec_pairs,
    GeneratedPair, GeneratedPairV,
};
use crate::style::{get_naming_style, spec_naming_style};
use crate::validate::{get_enum_from_input, spec_validate};

verus! {

/// The whole generation pipeline up to the mapping: eligibility, type-level
/// style, one canonical string per variant, and the bijectivity check.
pub open spec fn spec_generate_pairs(d: TypeDeclV) -> Result<Seq<GeneratedPairV>, GenErrorV> {
    match spec_validate(d) {
        Err(e) => Err(e),
        Ok(vs) => match spec_naming_style(d.attrs) {
            Err(e) => Err(e),
            Ok(ts) => match spec_pairs(vs, ts) {
                Err(e) => Err(e),
                Ok(ps) => match spec_first_dup(ps) {
                    Some(v) => Err(GenErrorV::DuplicateName(v)),
                    None => Ok(ps),
                },
            },
        },
    }
}

/// Validates the declaration and computes the full variant-to-canonical
/// mapping, refusing a mapping in which two variants collide.
pub fn generate_pairs(target: &TypeDecl) -> (r: Result<Vec<GeneratedPair>, GenError>)
    ensures
        deep_result(r) == spec_generate_pairs(target.deep_view()),
{
    let variants = match get_enum_from_input(target) {
        Ok(v) => v,
        Err(e) => return Err(e),
    };
    let style = match get_naming_style(&target.attrs) {
        Ok(s) => s,
        Err(e) => return Err(e),
    };
    let pairs = match create_pairs(&variants, style) {
        Ok(p) => p,
        Err(e) => return Err(e),
    };
    match check_bijective(&pairs) {
        Ok(_) => Ok(pairs),
        Err(e) => Err(e),
    }
}

/// What serialization generation produces for a declaration: the source text
/// of the serialization impl, or the first error of the pipeline.
pub open spec fn spec_serialize_enum(d: TypeDeclV) -> Result<Seq<char>, GenErrorV> {
    match spec_generate_pairs(d) {
        Ok(ps) => Ok(spec_ser_impl_text(d.name, ps)),
        Err(e) => Err(e),
    }
}

/// What deserialization generation produces for a declaration: the source
/// text of the deserialization impl, or the first error of the pipeline.
pub open spec fn spec_deserialize_enum(d: TypeDeclV) -> Result<Seq<char>, GenErrorV> {
    match spec_generate_pairs(d) {
        Ok(ps) => Ok(spec_de_impl_text(d.name, ps)),
        Err(e) => Err(e),
    }
}

/// Generates the serialization impl for an eligible declaration: one arm per
/// variant, mapping it to its canonical string.
pub fn serialize_enum(target: &TypeDecl) -> (r: Result<String, GenError>)
    ensures
        deep_result(r) == spec_serialize_enum(target.deep_view()),
{
    let pairs = match generate_pairs(target) {
        Ok(p) => p,
        Err(e) => return Err(e),
    };
    Ok(ser_impl_text(target.name.as_str(), &pairs))
}

/// Generates the deserialization impl for an eligible declaration: one arm
/// per canonical string, mapping it back to its variant, plus a catch-all
/// arm that reports unrecognized input.
pub fn deserialize_enum(target: &TypeDecl) -> (r: Result<String, GenError>)
    ensures
        deep_result(r) == spec_deserialize_enum(target.deep_view()),
{
    let pairs = match generate_pairs(target) {
        Ok(p) => p,
        Err(e) => return Err(e),
    };
    Ok(de_impl_text(target.name.as_str(), &pairs))
}

/// Bijectivity law, at the pipeline level: a mapping that generation accepts
/// never sends two variants to the same canonical string.
pub proof fn lemma_generated_distinct(d: TypeDeclV)
    requires
        (spec_generate_pairs(d) is Ok),
    ensures
        spec_distinct(spec_generate_pairs(d)->Ok_0),
{
    lemma_distinct_iff_no_dup(spec_generate_pairs(d)->Ok_0);
}

/// Round-trip law, at the pipeline level: for every variant of a declaration
/// that generation accepts, deserializing its canonical string yields that
/// variant back.
pub proof fn lemma_generated_round_trip(d: TypeDeclV, i: int)
    requires
        (spec_generate_pairs(d) is Ok),
        0 <= i < (spec_generate_pairs(d)->Ok_0).len(),
    ensures
        spec_deserialize(spec_generate_pairs(d)->Ok_0, (spec_generate_pairs(d)->Ok_0)[i].canonical)
            == Ok::<int, DeErrorV>(i),
{
    lemma_generated_distinct(d);
    lemma_round_trip(spec_generate_pairs(d)->Ok_0, i);
}

/// Default-identity law, at the pipeline level: in a declaration whose type
/// carries no annotations, a variant that carries none of its own serializes
/// to its declared spelling, exactly.
pub proof fn lemma_generated_default_identity(d: TypeDeclV, i: int)
    requires
        d.attrs.len() == 0,
        (spec_generate_pairs(d) is Ok),
        spec_validate(d) matches Ok(vs) && 0 <= i < vs.len() && vs[i].attrs.len() == 0,
    ensures
        (spec_generate_pairs(d)->Ok_0)[i].canonical == (spec_validate(d)->Ok_0)[i].name,
{
    let vs = spec_validate(d)->Ok_0;
    assert(spec_naming_style(d.attrs) == Ok::<NamingStyle, GenErrorV>(NamingStyle::Unchanged));
    lemma_default_identity(vs[i]);
    lemma_pairs_ok(vs, NamingStyle::Unchanged);
}

} // verus!
