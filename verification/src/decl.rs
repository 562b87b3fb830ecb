//! The declaration of an enum, as far as dispatch reads it.

use vstd::prelude::*;

verus! {

/// One field of a variant: its name, where the variant names its fields, and
/// the tokens of its declared type.
#[derive(Debug, PartialEq, Eq)]
pub struct Field {
    pub name: Option<String>,
    pub ty: String,
}

pub struct FieldView {
    pub name: Option<Seq<char>>,
    pub ty: Seq<char>,
}

/// The view of a name that may be missing.
pub open spec fn name_view(name: Option<String>) -> Option<Seq<char>> {
    match name {
        Some(n) => Some(n@),
        None => None,
    }
}

impl View for Field {
    type V = FieldView;

    open spec fn view(&self) -> FieldView {
        FieldView { name: name_view(self.name), ty: self.ty@ }
    }
}

impl Field {
    /// A copy of the field's name.
    pub fn name_copy(&self) -> (name: Option<String>)
        ensures
            name_view(name) == self@.name,
    {
        match &self.name {
            Some(n) => Some(n.clone()),
            None => None,
        }
    }
}

/// The views of a list of fields, in order.
pub open spec fn field_views(fields: Seq<Field>) -> Seq<FieldView> {
    fields.map_values(|f: Field| f@)
}

/// The fields of a variant as they were written: in braces, in parentheses,
/// or not at all.
#[derive(Debug, PartialEq, Eq)]
pub enum Fields {
    Named(Vec<Field>),
    Unnamed(Vec<Field>),
    Unit,
}

pub enum FieldsView {
    Named(Seq<FieldView>),
    Unnamed(Seq<FieldView>),
    Unit,
}

impl View for Fields {
    type V = FieldsView;

    open spec fn view(&self) -> FieldsView {
        match self {
            Fields::Named(v) => FieldsView::Named(field_views(v@)),
            Fields::Unnamed(v) => FieldsView::Unnamed(field_views(v@)),
            Fields::Unit => FieldsView::Unit,
        }
    }
}

/// The structural kind of a variant's fields.
#[derive(Clone, Copy, Debug, PartialEq, Eq, Structural)]
pub enum FieldShape {
    Named,
    Positional,
    Empty,
}

/// Why a variant has no first field.
#[derive(Clone, Copy, Debug, PartialEq, Eq, Structural)]
pub enum StructuralError {
    /// The variant is written without a field list.
    UnitVariant,
    /// The variant's field list holds no field.
    NoFields,
}

/// The part of a variant that a structural error points at.
#[derive(Clone, Copy, Debug, PartialEq, Eq, Structural)]
pub enum Anchor {
    Variant,
    FieldList,
}

impl FieldsView {
    /// The fields in declaration order, whatever the delimiters.
    pub open spec fn list(self) -> Seq<FieldView> {
        match self {
            FieldsView::Named(v) => v,
            FieldsView::Unnamed(v) => v,
            FieldsView::Unit => Seq::empty(),
        }
    }

    pub open spec fn shape(self) -> FieldShape {
        match self {
            FieldsView::Named(v) => if v.len() > 0 {
                FieldShape::Named
            } else {
                FieldShape::Empty
            },
            FieldsView::Unnamed(v) => if v.len() > 0 {
                FieldShape::Positional
            } else {
                FieldShape::Empty
            },
            FieldsView::Unit => FieldShape::Empty,
        }
    }

    /// The first declared field, or the reason there is none.
    pub open spec fn first(self) -> Result<FieldView, StructuralError> {
        match self {
            FieldsView::Unit => Err(StructuralError::UnitVariant),
            _ => if self.list().len() > 0 {
                Ok(self.list()[0])
            } else {
                Err(StructuralError::NoFields)
            },
        }
    }
}

impl StructuralError {
    pub open spec fn anchor_spec(self) -> Anchor {
        match self {
            StructuralError::UnitVariant => Anchor::Variant,
            StructuralError::NoFields => Anchor::FieldList,
        }
    }

    pub open spec fn message_spec(self) -> Seq<char> {
        match self {
            StructuralError::UnitVariant => "Unit variants are not supported"@,
            StructuralError::NoFields => "Enum variants must have at least one field"@,
        }
    }

    /// Where the error is reported: at the whole variant when it has no field
    /// list, at the field list when that list is empty.
    pub fn anchor(&self) -> (a: Anchor)
        ensures
            a == self.anchor_spec(),
    {
        match self {
            StructuralError::UnitVariant => Anchor::Variant,
            StructuralError::NoFields => Anchor::FieldList,
        }
    }

    /// The text of the error.
    pub fn message(&self) -> (m: String)
        ensures
            m@ == self.message_spec(),
    {
        match self {
            StructuralError::UnitVariant => "Unit variants are not supported".to_owned(),
            StructuralError::NoFields => "Enum variants must have at least one field".to_owned(),
        }
    }
}

/// One alternative of the enum.
#[derive(Debug, PartialEq, Eq)]
pub struct Variant {
    pub name: String,
    pub fields: Fields,
}

pub struct VariantView {
    pub name: Seq<char>,
    pub fields: FieldsView,
}

impl View for Variant {
    type V = VariantView;

    open spec fn view(&self) -> VariantView {
        VariantView { name: self.name@, fields: self.fields@ }
    }
}

pub open spec fn variant_views(variants: Seq<Variant>) -> Seq<VariantView> {
    variants.map_values(|v: Variant| v@)
}

impl Variant {
    /// The shape of this variant's fields.
    pub fn shape(&self) -> (s: FieldShape)
        ensures
            s == self@.fields.shape(),
    {
        match &self.fields {
            Fields::Named(v) => if v.len() > 0 {
                FieldShape::Named
            } else {
                FieldShape::Empty
            },
            Fields::Unnamed(v) => if v.len() > 0 {
                FieldShape::Positional
            } else {
                FieldShape::Empty
            },
            Fields::Unit => FieldShape::Empty,
        }
    }
}

/// The first field of `variant`, the only one that generated code touches.
///
/// A variant without a field list is refused as a unit variant, one with an
/// empty field list as having no fields.
pub fn first_field(variant: &Variant) -> (r: Result<&Field, StructuralError>)
    ensures
        match r {
            Ok(f) => variant@.fields.first() == Ok::<FieldView, StructuralError>(f@),
            Err(e) => variant@.fields.first() == Err::<FieldView, StructuralError>(e),
        },
{
    match &variant.fields {
        Fields::Named(v) => {
            if v.len() > 0 {
                Ok(&v[0])
            } else {
                Err(StructuralError::NoFields)
            }
        },
        Fields::Unnamed(v) => {
            if v.len() > 0 {
                Ok(&v[0])
            } else {
                Err(StructuralError::NoFields)
            }
        },
        Fields::Unit => Err(StructuralError::UnitVariant),
    }
}

/// A structural error together with the variant it is about, counted from
/// zero in declaration order.
#[derive(Clone, Copy, Debug, PartialEq, Eq, Structural)]
pub struct Diagnostic {
    pub variant: usize,
    pub error: StructuralError,
}

pub struct DiagnosticView {
    pub variant: int,
    pub error: StructuralError,
}

impl View for Diagnostic {
    type V = DiagnosticView;

    open spec fn view(&self) -> DiagnosticView {
        DiagnosticView { variant: self.variant as int, error: self.error }
    }
}

/// The generic parameters of the enum, split the way an `impl` header needs
/// them: the parameters with their bounds, the bare parameter names, and the
/// `where` clause. Each is a run of tokens, empty where the enum has none.
#[derive(Debug, PartialEq, Eq)]
pub struct Generics {
    pub impl_generics: String,
    pub ty_generics: String,
    pub where_clause: String,
}

pub struct GenericsView {
    pub impl_generics: Seq<char>,
    pub ty_generics: Seq<char>,
    pub where_clause: Seq<char>,
}

impl View for Generics {
    type V = GenericsView;

    open spec fn view(&self) -> GenericsView {
        GenericsView {
            impl_generics: self.impl_generics@,
            ty_generics: self.ty_generics@,
            where_clause: self.where_clause@,
        }
    }
}

impl Generics {
    /// A copy of the generics.
    pub fn duplicate(&self) -> (copy: Generics)
        ensures
            copy@ == self@,
    {
        Generics {
            impl_generics: self.impl_generics.clone(),
            ty_generics: self.ty_generics.clone(),
            where_clause: self.where_clause.clone(),
        }
    }
}

/// An enum declaration: its name, its generics and its variants in order.
#[derive(Debug, PartialEq, Eq)]
pub struct EnumDecl {
    pub name: String,
    pub generics: Generics,
    pub variants: Vec<Variant>,
}

pub struct EnumDeclView {
    pub name: Seq<char>,
    pub generics: GenericsView,
    pub variants: Seq<VariantView>,
}

impl View for EnumDecl {
    type V = EnumDeclView;

    open spec fn view(&self) -> EnumDeclView {
        EnumDeclView {
            name: self.name@,
            generics: self.generics@,
            variants: variant_views(self.variants@),
        }
    }
}

/// The first variant, in declaration order, that has no first field, with the
/// reason; `None` when every variant has one.
pub open spec fn first_failure(variants: Seq<VariantView>) -> Option<DiagnosticView>
    decreases variants.len(),
{
    if variants.len() == 0 {
        None
    } else {
        match first_failure(variants.drop_last()) {
            Some(d) => Some(d),
            None => match variants.last().fields.first() {
                Ok(_) => None,
                Err(e) => Some(DiagnosticView { variant: variants.len() - 1, error: e }),
            },
        }
    }
}

/// A failure found in a prefix of the variants is the failure of the whole
/// list.
pub proof fn lemma_first_failure_prefix(variants: Seq<VariantView>, k: int)
    requires
        0 <= k <= variants.len(),
        first_failure(variants.take(k)) is Some,
    ensures
        first_failure(variants) == first_failure(variants.take(k)),
    decreases variants.len() - k,
{
    if k < variants.len() {
        assert(variants.take(k + 1).drop_last() =~= variants.take(k));
        lemma_first_failure_prefix(variants, k + 1);
    } else {
        assert(variants.take(k) =~= variants);
    }
}

/// `first_failure` is `None` exactly when every variant has a first field,
/// and otherwise names the least variant that has none.
pub proof fn lemma_first_failure_least(variants: Seq<VariantView>)
    ensures
        match first_failure(variants) {
            None => forall|i: int|
                0 <= i < variants.len() ==> (#[trigger] variants[i]).fields.first() is Ok,
            Some(d) => {
                &&& 0 <= d.variant < variants.len()
                &&& variants[d.variant].fields.first() == Err::<FieldView, StructuralError>(
                    d.error,
                )
                &&& forall|i: int|
                    0 <= i < d.variant ==> (#[trigger] variants[i]).fields.first() is Ok
            },
        },
    decreases variants.len(),
{
    if variants.len() > 0 {
        let init = variants.drop_last();
        lemma_first_failure_least(init);
        assert(forall|i: int| 0 <= i < init.len() ==> init[i] == variants[i]);
    }
}

} // verus!
