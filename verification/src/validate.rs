//! Eligibility of a declaration for generation: it must be an enumeration,
//! declare no generic parameters, and carry only unit variants.
use vstd::prelude::*;

use crate::decl::{
    deep_result, FieldsKind, GenError, GenErrorV, TypeData, TypeDataV, TypeDecl, TypeDeclV,
    Variant, VariantV,
};

verus! {

/// Every variant is a unit variant.
pub open spec fn spec_all_unit(vs: Seq<VariantV>) -> bool {
    forall|i: int| 0 <= i < vs.len() ==> (#[trigger] vs[i].fields) is Unit
}

/// Eligibility of a declaration. A generic parameter is rejected first, then
/// a non-enum body, then any variant that carries fields. On success the
/// ordered variant list is handed out for the later stages.
pub open spec fn spec_validate(d: TypeDeclV) -> Result<Seq<VariantV>, GenErrorV> {
    if d.generics != 0 {
        Err(GenErrorV::HasGenerics)
    } else {
        match d.data {
            TypeDataV::Enum(vs) => if spec_all_unit(vs) {
                Ok(vs)
            } else {
                Err(GenErrorV::NonUnitVariant)
            },
            _ => Err(GenErrorV::NotAnEnum),
        }
    }
}

fn clone_variants(vs: &Vec<Variant>) -> (out: Vec<Variant>)
    ensures
        out.deep_view() == vs.deep_view(),
{
    let mut out: Vec<Variant> = Vec::new();
    let mut i: usize = 0;
    while i < vs.len()
        invariant
            i <= vs@.len(),
            out@.len() == i,
            forall|j: int| 0 <= j < i ==> out.deep_view()[j] == #[trigger] vs.deep_view()[j],
        decreases vs@.len() - i,
    {
        let ghost pre = out.deep_view();
        out.push(vs[i].clone());
        proof {
            assert forall|j: int| 0 <= j < i + 1 implies out.deep_view()[j]
                == vs.deep_view()[j] by {
                if j < i {
                    assert(out.deep_view()[j] == pre[j]);
                } else {
                    assert(out.deep_view()[j] == out@[i as int].deep_view());
                }
            }
        }
        i += 1;
    }
    proof {
        assert(out.deep_view() =~= vs.deep_view());
    }
    out
}

pub fn get_enum_from_input(target: &TypeDecl) -> (r: Result<Vec<Variant>, GenError>)
    ensures
        deep_result(r) == spec_validate(target.deep_view()),
{
    if target.generics != 0 {
        return Err(GenError::HasGenerics);
    }
    match &target.data {
        TypeData::Enum(vs) => {
            let n = vs.len();
            let mut i: usize = 0;
            while i < n
                invariant
                    0 <= i <= n,
                    n == vs@.len(),
                    target.deep_view().generics == 0,
                    target.deep_view().data == TypeDataV::Enum(vs.deep_view()),
                    forall|j: int| 0 <= j < i ==> (#[trigger] vs.deep_view()[j].fields) is Unit,
                decreases n - i,
            {
                match vs[i].fields {
                    FieldsKind::Unit => {},
                    _ => {
                        proof {
                            assert(vs.deep_view()[i as int].fields == vs@[i as int].fields);
                            assert(!spec_all_unit(vs.deep_view()));
                            assert(target.deep_view().data == TypeDataV::Enum(vs.deep_view()));
                            assert(spec_validate(target.deep_view()) == Err::<Seq<VariantV>, GenErrorV>(
                                GenErrorV::NonUnitVariant,
                            ));
                        }
                        return Err(GenError::NonUnitVariant);
                    },
                }
                proof {
                    assert(vs.deep_view()[i as int].fields == vs@[i as int].fields);
                }
                i += 1;
            }
            Ok(clone_variants(vs))
        },
        TypeData::Struct => Err(GenError::NotAnEnum),
        TypeData::Union => Err(GenError::NotAnEnum),
    }
}

} // verus!
