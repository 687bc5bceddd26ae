//! The declarative schema that generation works on: a type declaration with
//! its variants and scoped key/value annotations, the naming styles, and the
//! errors that generation and deserialization can report.
use vstd::prelude::*;
use vstd::string::StringExecFns;

verus! {

/// A naming convention that can be applied to a variant identifier.
///
/// `Unchanged` means that the identifier is kept exactly as declared; at the
/// variant level it also means "no own style: fall back to the type's style".
#[derive(Clone, Copy, Debug, PartialEq, Eq, Structural)]
pub enum NamingStyle {
    SnakeCase,
    CamelCase,
    Unchanged,
}

impl View for NamingStyle {
    type V = NamingStyle;

    open spec fn view(&self) -> NamingStyle {
        *self
    }
}

impl DeepView for NamingStyle {
    type V = NamingStyle;

    open spec fn deep_view(&self) -> NamingStyle {
        *self
    }
}

/// A key/value annotation such as `rename_all = "snake_case"`, scoped either
/// to the whole type declaration or to a single variant.
pub struct Annotation {
    pub key: String,
    pub value: String,
}

/// The mathematical value of an [`Annotation`].
pub struct AnnotationV {
    pub key: Seq<char>,
    pub value: Seq<char>,
}

impl View for Annotation {
    type V = AnnotationV;

    open spec fn view(&self) -> AnnotationV {
        AnnotationV { key: self.key@, value: self.value@ }
    }
}

impl DeepView for Annotation {
    type V = AnnotationV;

    open spec fn deep_view(&self) -> AnnotationV {
        self@
    }
}

impl Clone for Annotation {
    fn clone(&self) -> (res: Self)
        ensures
            res == *self,
    {
        Annotation { key: self.key.clone(), value: self.value.clone() }
    }
}

/// The shape of a variant's payload. Only `Unit` is eligible for generation.
#[derive(Clone, Copy, Debug, PartialEq, Eq, Structural)]
pub enum FieldsKind {
    Unit,
    Named,
    Unnamed,
}

/// One declared enum variant: its identifier, its own annotations, and the
/// shape of its payload.
pub struct Variant {
    pub name: String,
    pub attrs: Vec<Annotation>,
    pub fields: FieldsKind,
}

/// The mathematical value of a [`Variant`].
pub struct VariantV {
    pub name: Seq<char>,
    pub attrs: Seq<AnnotationV>,
    pub fields: FieldsKind,
}

impl View for Variant {
    type V = VariantV;

    open spec fn view(&self) -> VariantV {
        VariantV { name: self.name@, attrs: self.attrs.deep_view(), fields: self.fields }
    }
}

impl DeepView for Variant {
    type V = VariantV;

    open spec fn deep_view(&self) -> VariantV {
        self@
    }
}

impl Clone for Variant {
    fn clone(&self) -> (res: Self)
        ensures
            res.deep_view() == self.deep_view(),
    {
        let mut attrs: Vec<Annotation> = Vec::new();
        let mut i: usize = 0;
        while i < self.attrs.len()
            invariant
                i <= self.attrs@.len(),
                attrs@.len() == i,
                forall|j: int| 0 <= j < i ==> attrs.deep_view()[j] == #[trigger] self.attrs.deep_view()[j],
            decreases self.attrs@.len() - i,
        {
            let ghost pre = attrs.deep_view();
            attrs.push(self.attrs[i].clone());
            proof {
                assert forall|j: int| 0 <= j < i + 1 implies attrs.deep_view()[j]
                    == self.attrs.deep_view()[j] by {
                    if j < i {
                        assert(attrs.deep_view()[j] == pre[j]);
                    } else {
                        assert(attrs.deep_view()[j] == attrs@[i as int].deep_view());
                    }
                }
            }
            i += 1;
        }
        proof {
            assert(attrs.deep_view() =~= self.attrs.deep_view());
        }
        Variant { name: self.name.clone(), attrs, fields: self.fields }
    }
}

/// The body of a type declaration: an enumeration carries its variants, the
/// other shapes only need to be told apart to be rejected.
pub enum TypeData {
    Enum(Vec<Variant>),
    Struct,
    Union,
}

/// The mathematical value of a [`TypeData`].
pub enum TypeDataV {
    Enum(Seq<VariantV>),
    Struct,
    Union,
}

impl View for TypeData {
    type V = TypeDataV;

    open spec fn view(&self) -> TypeDataV {
        match self {
            TypeData::Enum(vs) => TypeDataV::Enum(vs.deep_view()),
            TypeData::Struct => TypeDataV::Struct,
            TypeData::Union => TypeDataV::Union,
        }
    }
}

impl DeepView for TypeData {
    type V = TypeDataV;

    open spec fn deep_view(&self) -> TypeDataV {
        self@
    }
}

/// A whole type declaration: its identifier, how many generic parameters it
/// declares (any at all make it ineligible), its type-level annotations, and
/// its body.
pub struct TypeDecl {
    pub name: String,
    pub generics: usize,
    pub attrs: Vec<Annotation>,
    pub data: TypeData,
}

/// The mathematical value of a [`TypeDecl`].
pub struct TypeDeclV {
    pub name: Seq<char>,
    pub generics: usize,
    pub attrs: Seq<AnnotationV>,
    pub data: TypeDataV,
}

impl View for TypeDecl {
    type V = TypeDeclV;

    open spec fn view(&self) -> TypeDeclV {
        TypeDeclV {
            name: self.name@,
            generics: self.generics,
            attrs: self.attrs.deep_view(),
            data: self.data.deep_view(),
        }
    }
}

impl DeepView for TypeDecl {
    type V = TypeDeclV;

    open spec fn deep_view(&self) -> TypeDeclV {
        self@
    }
}

/// A generation-time failure. Every one of these aborts generation for the
/// declaration at hand.
#[derive(Debug)]
pub enum GenError {
    /// The declaration is not an enumeration.
    NotAnEnum,
    /// The declaration has at least one generic parameter.
    HasGenerics,
    /// Some variant carries fields, named or positional.
    NonUnitVariant,
    /// A naming annotation holds a value that names no known style.
    UnsupportedStyle(String),
    /// Two variants would map to the same canonical string.
    DuplicateName(String),
}

/// The mathematical value of a [`GenError`].
pub enum GenErrorV {
    NotAnEnum,
    HasGenerics,
    NonUnitVariant,
    UnsupportedStyle(Seq<char>),
    DuplicateName(Seq<char>),
}

impl View for GenError {
    type V = GenErrorV;

    open spec fn view(&self) -> GenErrorV {
        match self {
            GenError::NotAnEnum => GenErrorV::NotAnEnum,
            GenError::HasGenerics => GenErrorV::HasGenerics,
            GenError::NonUnitVariant => GenErrorV::NonUnitVariant,
            GenError::UnsupportedStyle(v) => GenErrorV::UnsupportedStyle(v@),
            GenError::DuplicateName(v) => GenErrorV::DuplicateName(v@),
        }
    }
}

impl DeepView for GenError {
    type V = GenErrorV;

    open spec fn deep_view(&self) -> GenErrorV {
        self@
    }
}

/// The diagnostic text of each generation-time failure.
pub open spec fn spec_message(e: GenErrorV) -> Seq<char> {
    match e {
        GenErrorV::NotAnEnum => "derivation target must be an enum"@,
        GenErrorV::HasGenerics => "derivation target cannot have any generics parameters"@,
        GenErrorV::NonUnitVariant => "every variant must be a unit variant"@,
        GenErrorV::UnsupportedStyle(v) => "unsupported style `"@ + v
            + "`; available: `snake_case`, `camelCase`"@,
        GenErrorV::DuplicateName(v) => "duplicate canonical name `"@ + v + "`"@,
    }
}

impl GenError {
    /// Renders the failure for a diagnostic; an unsupported style names the
    /// offending value and lists the supported ones.
    pub fn message(&self) -> (out: String)
        ensures
            out@ == spec_message(self@),
    {
        match self {
            GenError::NotAnEnum => String::from_str("derivation target must be an enum"),
            GenError::HasGenerics => String::from_str(
                "derivation target cannot have any generics parameters",
            ),
            GenError::NonUnitVariant => String::from_str("every variant must be a unit variant"),
            GenError::UnsupportedStyle(v) => {
                let mut out = String::from_str("unsupported style `");
                out.append(v.as_str());
                out.append("`; available: `snake_case`, `camelCase`");
                out
            },
            GenError::DuplicateName(v) => {
                let mut out = String::from_str("duplicate canonical name `");
                out.append(v.as_str());
                out.append("`");
                out
            },
        }
    }
}

/// A failure of the generated deserialization routine: the input string
/// matched no canonical name. It carries the unrecognized value.
#[derive(Debug)]
pub enum DeError {
    Unrecognized(String),
}

/// The mathematical value of a [`DeError`].
pub enum DeErrorV {
    Unrecognized(Seq<char>),
}

impl View for DeError {
    type V = DeErrorV;

    open spec fn view(&self) -> DeErrorV {
        match self {
            DeError::Unrecognized(v) => DeErrorV::Unrecognized(v@),
        }
    }
}

impl DeepView for DeError {
    type V = DeErrorV;

    open spec fn deep_view(&self) -> DeErrorV {
        self@
    }
}

/// Maps a result to the mathematical values of both of its sides.
pub open spec fn deep_result<T: DeepView, E: DeepView>(r: Result<T, E>) -> Result<T::V, E::V> {
    match r {
        Ok(t) => Ok(t.deep_view()),
        Err(e) => Err(e.deep_view()),
    }
}

} // verus!
