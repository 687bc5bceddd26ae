//! Resolution of the naming style from a list of annotations, and the
//! two-level precedence between a variant's own style and the type's style.
use vstd::prelude::*;

use crate::casing::str_eq;
use crate::decl::{deep_result, Annotation, AnnotationV, GenError, GenErrorV, NamingStyle};

verus! {

/// The annotation keys that select a naming style.
pub open spec fn spec_style_key(k: Seq<char>) -> bool {
    k == "rename"@ || k == "rename_all"@
}

/// The style named by an annotation value; any unrecognized value is a fatal
/// configuration error carrying that value.
pub open spec fn spec_style_value(v: Seq<char>) -> Result<NamingStyle, GenErrorV> {
    if v == "snake_case"@ {
        Ok(NamingStyle::SnakeCase)
    } else if v == "camelCase"@ {
        Ok(NamingStyle::CamelCase)
    } else {
        Err(GenErrorV::UnsupportedStyle(v))
    }
}

/// Scans annotations in declaration order; the first one whose key selects a
/// style decides. No such annotation means no transformation.
pub open spec fn spec_naming_style(attrs: Seq<AnnotationV>) -> Result<NamingStyle, GenErrorV>
    decreases attrs.len(),
{
    if attrs.len() == 0 {
        Ok(NamingStyle::Unchanged)
    } else if spec_style_key(attrs[0].key) {
        spec_style_value(attrs[0].value)
    } else {
        spec_naming_style(attrs.drop_first())
    }
}

pub fn get_naming_style(attrs: &Vec<Annotation>) -> (r: Result<NamingStyle, GenError>)
    ensures
        deep_result(r) == spec_naming_style(attrs.deep_view()),
{
    let n = attrs.len();
    let mut i: usize = 0;
    proof {
        assert(attrs.deep_view().skip(0) =~= attrs.deep_view());
    }
    while i < n
        invariant
            0 <= i <= n,
            n == attrs@.len(),
            spec_naming_style(attrs.deep_view()) == spec_naming_style(
                attrs.deep_view().skip(i as int),
            ),
        decreases n - i,
    {
        let a = &attrs[i];
        proof {
            assert(attrs.deep_view().skip(i as int)[0] == attrs.deep_view()[i as int]);
        }
        if str_eq(a.key.as_str(), "rename") || str_eq(a.key.as_str(), "rename_all") {
            if str_eq(a.value.as_str(), "snake_case") {
                return Ok(NamingStyle::SnakeCase);
            } else if str_eq(a.value.as_str(), "camelCase") {
                return Ok(NamingStyle::CamelCase);
            } else {
                return Err(GenError::UnsupportedStyle(a.value.clone()));
            }
        }
        proof {
            assert(attrs.deep_view().skip(i as int).drop_first() =~= attrs.deep_view().skip(
                i as int + 1,
            ));
        }
        i += 1;
    }
    proof {
        assert(attrs.deep_view().skip(n as int) =~= Seq::<AnnotationV>::empty());
    }
    Ok(NamingStyle::Unchanged)
}

/// The style that governs one variant: the variant's own style wins, and
/// `Unchanged` at the variant level means "fall back to the type-wide style".
pub open spec fn spec_effective_style(
    variant_style: NamingStyle,
    type_style: NamingStyle,
) -> NamingStyle {
    if variant_style is Unchanged {
        type_style
    } else {
        variant_style
    }
}

pub fn effective_style(variant_style: NamingStyle, type_style: NamingStyle) -> (r: NamingStyle)
    ensures
        r == spec_effective_style(variant_style, type_style),
{
    match variant_style {
        NamingStyle::Unchanged => type_style,
        _ => variant_style,
    }
}

} // verus!
