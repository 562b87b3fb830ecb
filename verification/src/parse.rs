//! From source text to the declaration of an enum.

use vstd::prelude::*;
use crate::decl::{field_views, variant_views, EnumDecl, EnumDeclView, Field, Fields, Variant};
use crate::syntax::{
    enum_generics, enum_model, enum_name, error_message, error_position, error_text, field_at,
    field_count, parse_item_enum, parsed_enum, variant_count, variant_fields_kind, variant_name,
    FieldsKind,
};

verus! {

/// Text that does not parse: the parser's message, and the line and column
/// at which it gave up, as far as the parser knows them.
#[derive(Debug, PartialEq, Eq)]
pub struct SyntaxError {
    pub message: String,
    pub line: usize,
    pub column: usize,
}

/// A syntax error without its position, which contracts say nothing of.
pub struct SyntaxErrorView {
    pub message: Seq<char>,
}

impl View for SyntaxError {
    type V = SyntaxErrorView;

    open spec fn view(&self) -> SyntaxErrorView {
        SyntaxErrorView { message: self.message@ }
    }
}

pub(crate) fn lower_error(error: &syn::Error) -> (r: SyntaxError)
    ensures
        r@ == (SyntaxErrorView { message: error_message(*error) }),
{
    let (line, column) = error_position(error);
    SyntaxError { message: error_text(error), line, column }
}

/// The enum that the text `src` declares, or why it declares none.
pub open spec fn enum_of(src: Seq<char>) -> Result<EnumDeclView, SyntaxErrorView> {
    match parsed_enum(src) {
        Ok(decl) => Ok(decl),
        Err(message) => Err(SyntaxErrorView { message }),
    }
}

fn lower_fields(item: &syn::ItemEnum, index: usize) -> (fields: Fields)
    requires
        index < enum_model(*item).variants.len(),
    ensures
        fields@ == enum_model(*item).variants[index as int].fields,
{
    let ghost model = enum_model(*item).variants[index as int].fields;
    let kind = variant_fields_kind(item, index);
    let n = field_count(item, index);
    let mut list: Vec<Field> = Vec::new();
    let mut j: usize = 0;
    while j < n
        invariant
            j <= n,
            index < enum_model(*item).variants.len(),
            model == enum_model(*item).variants[index as int].fields,
            n == model.list().len(),
            list.len() == j,
            forall|k: int| 0 <= k < j ==> (#[trigger] list[k])@ == model.list()[k],
        decreases n - j,
    {
        list.push(field_at(item, index, j));
        j = j + 1;
    }
    assert(field_views(list@) =~= model.list());
    match kind {
        FieldsKind::Named => Fields::Named(list),
        FieldsKind::Unnamed => Fields::Unnamed(list),
        FieldsKind::Unit => Fields::Unit,
    }
}

/// Reads the whole of a parsed enum into the library's own declaration.
pub(crate) fn lower_enum(item: &syn::ItemEnum) -> (decl: EnumDecl)
    ensures
        decl@ == enum_model(*item),
{
    let n = variant_count(item);
    let mut variants: Vec<Variant> = Vec::new();
    let mut i: usize = 0;
    while i < n
        invariant
            i <= n,
            n == enum_model(*item).variants.len(),
            variants.len() == i,
            forall|k: int|
                0 <= k < i ==> (#[trigger] variants[k])@ == enum_model(*item).variants[k],
        decreases n - i,
    {
        variants.push(Variant { name: variant_name(item, i), fields: lower_fields(item, i) });
        i = i + 1;
    }
    assert(variant_views(variants@) =~= enum_model(*item).variants);
    EnumDecl { name: enum_name(item), generics: enum_generics(item), variants }
}

/// Parses `src` as the declaration of an enum.
///
/// The text is handed to `syn` as it is; what comes back is the enum that
/// `syn` found in it, or `syn`'s error.
pub fn parse_enum(src: &str) -> (r: Result<EnumDecl, SyntaxError>)
    ensures
        match r {
            Ok(decl) => enum_of(src@) == Ok::<EnumDeclView, SyntaxErrorView>(decl@),
            Err(e) => enum_of(src@) == Err::<EnumDeclView, SyntaxErrorView>(e@),
        },
{
    match parse_item_enum(src) {
        Ok(item) => Ok(lower_enum(&item)),
        Err(e) => Err(lower_error(&e)),
    }
}

} // verus!
