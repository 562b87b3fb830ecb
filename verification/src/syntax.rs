//! The outside crates that this library calls, and what it takes on trust
//! about them: `proc-macro2` lexes, `syn` parses and prints, `heck` converts
//! case.
//!
//! Nothing in this file is proved. Each function here makes one call and
//! converts what comes back; its contract restates what the outside function
//! does. Where that takes pages to say, the result only gets a name: a spec
//! function without a body, of which nothing is known but that the same
//! arguments give the same result. A parsed value stays a value of its
//! outside type; what it holds is likewise a name, which the accessors speak
//! of and from which verified code builds the library's own description.

use vstd::prelude::*;
use crate::decl::{EnumDeclView, Field, FieldsView, Generics};
use crate::signature::{MethodSigView, Param};

verus! {

/// `proc_macro2::TokenStream`: a run of token trees. Nothing is seen of it
/// but through the functions below.
#[verifier::external_type_specification]
#[verifier::external_body]
pub struct ExTokenStream(proc_macro2::TokenStream);

/// `syn::Error`: what a parse that fails hands back.
#[verifier::external_type_specification]
#[verifier::external_body]
pub struct ExSynError(syn::Error);

/// `syn::ItemEnum`: a parsed enum declaration.
#[verifier::external_type_specification]
#[verifier::external_body]
pub struct ExItemEnum(syn::ItemEnum);

/// `syn::Signature`: a parsed function signature.
#[verifier::external_type_specification]
#[verifier::external_body]
pub struct ExSignature(syn::Signature);

/// `syn::Path`: a parsed path.
#[verifier::external_type_specification]
#[verifier::external_body]
pub struct ExPath(syn::Path);

/// The kind of a token tree; a group is told apart by its delimiters.
#[derive(Clone, Copy, Debug, PartialEq, Eq, Structural)]
pub enum TokenKind {
    Ident,
    Punct,
    Literal,
    Parenthesized,
    Braced,
    Bracketed,
    Undelimited,
}

/// One token tree of a stream: its kind and its text.
#[derive(Debug, PartialEq, Eq)]
pub struct Token {
    pub kind: TokenKind,
    pub text: String,
}

pub struct TokenView {
    pub kind: TokenKind,
    pub text: Seq<char>,
}

impl View for Token {
    type V = TokenView;

    open spec fn view(&self) -> TokenView {
        TokenView { kind: self.kind, text: self.text@ }
    }
}

/// How a variant's fields are delimited.
#[derive(Clone, Copy, Debug, PartialEq, Eq, Structural)]
pub enum FieldsKind {
    Named,
    Unnamed,
    Unit,
}

pub open spec fn fields_kind(fields: FieldsView) -> FieldsKind {
    match fields {
        FieldsView::Named(_) => FieldsKind::Named,
        FieldsView::Unnamed(_) => FieldsKind::Unnamed,
        FieldsView::Unit => FieldsKind::Unit,
    }
}

/// The last segment of a path and the path's tokens.
pub struct PathView {
    pub text: Seq<char>,
    pub target: Option<Seq<char>>,
}

// ---------------------------------------------------------------- heck

/// The snake case of `name` as `heck` computes it: the words of `name` in
/// lower case with one underscore between each two.
pub uninterp spec fn snake_case(name: Seq<char>) -> Seq<char>;

/// Calls `heck::ToSnakeCase::to_snake_case` on `name`. The result depends on
/// `name` alone.
#[verifier::external_body]
pub(crate) fn to_snake_case(name: &str) -> (r: String)
    ensures
        r@ == snake_case(name@),
{
    heck::ToSnakeCase::to_snake_case(name)
}

// ---------------------------------------------------------------- tokens

/// What lexing the text `src` gives: its token stream, or the message of the
/// lexer's error as `syn` reports it.
pub uninterp spec fn lexed(src: Seq<char>) -> Result<proc_macro2::TokenStream, Seq<char>>;

/// The token trees at the top level of a stream, in order.
pub uninterp spec fn stream_tokens(stream: proc_macro2::TokenStream) -> Seq<TokenView>;

/// Calls `proc_macro2::TokenStream::from_str` on `src` and turns a lexer
/// error into a `syn::Error` with `syn`'s own `From` impl, as
/// `syn::parse_str` does. The tokens depend on `src` alone; the positions
/// that they carry are their places in `src`, and no contract reads them.
#[verifier::external_body]
pub(crate) fn tokenize(src: &str) -> (r: Result<proc_macro2::TokenStream, syn::Error>)
    ensures
        match r {
            Ok(stream) => lexed(src@) == Ok::<proc_macro2::TokenStream, Seq<char>>(stream),
            Err(e) => lexed(src@) == Err::<proc_macro2::TokenStream, Seq<char>>(error_message(e)),
        },
{
    src.parse::<proc_macro2::TokenStream>().map_err(syn::Error::from)
}

/// Counts the token trees that iterating over `stream` yields.
#[verifier::external_body]
pub(crate) fn stream_len(stream: &proc_macro2::TokenStream) -> (n: usize)
    ensures
        n == stream_tokens(*stream).len(),
{
    stream.clone().into_iter().count()
}

/// Hands out the token tree at `index`: which variant of
/// `proc_macro2::TokenTree` it is, for a group which `Delimiter` it has, and
/// what its `Display` impl prints.
#[verifier::external_body]
pub(crate) fn stream_token(stream: &proc_macro2::TokenStream, index: usize) -> (t: Token)
    requires
        index < stream_tokens(*stream).len(),
    ensures
        t@ == stream_tokens(*stream)[index as int],
{
    let tree = stream.clone().into_iter().nth(index).unwrap();
    let kind = match &tree {
        proc_macro2::TokenTree::Ident(_) => TokenKind::Ident,
        proc_macro2::TokenTree::Punct(_) => TokenKind::Punct,
        proc_macro2::TokenTree::Literal(_) => TokenKind::Literal,
        proc_macro2::TokenTree::Group(g) => match g.delimiter() {
            proc_macro2::Delimiter::Parenthesis => TokenKind::Parenthesized,
            proc_macro2::Delimiter::Brace => TokenKind::Braced,
            proc_macro2::Delimiter::Bracket => TokenKind::Bracketed,
            proc_macro2::Delimiter::None => TokenKind::Undelimited,
        },
    };
    Token { kind, text: tree.to_string() }
}

// ---------------------------------------------------------------- errors

/// The message of an error of `syn`: what its `Display` impl prints.
pub uninterp spec fn error_message(error: syn::Error) -> Seq<char>;

/// Calls `to_string` on the error, which prints its first message.
#[verifier::external_body]
pub(crate) fn error_text(error: &syn::Error) -> (m: String)
    ensures
        m@ == error_message(*error),
{
    error.to_string()
}

/// Calls `span().start()` on the error and hands out line and column. What
/// they are depends on where the process runs, so nothing is said of them.
#[verifier::external_body]
pub(crate) fn error_position(error: &syn::Error) -> (position: (usize, usize))
{
    let start = error.span().start();
    (start.line, start.column)
}

// ---------------------------------------------------------------- enums

/// What `syn` parses the text `src` to, as the declaration of an enum: what
/// the enum holds, or the message of the error.
pub uninterp spec fn parsed_enum(src: Seq<char>) -> Result<EnumDeclView, Seq<char>>;

/// What a parsed enum holds: its name, its generics split for an `impl`
/// header, and its variants with their fields.
pub uninterp spec fn enum_model(item: syn::ItemEnum) -> EnumDeclView;

/// Calls `syn::parse_str::<syn::ItemEnum>` on `src`. The result depends on
/// `src` alone.
#[verifier::external_body]
pub(crate) fn parse_item_enum(src: &str) -> (r: Result<syn::ItemEnum, syn::Error>)
    ensures
        match r {
            Ok(item) => parsed_enum(src@) == Ok::<EnumDeclView, Seq<char>>(enum_model(item)),
            Err(e) => parsed_enum(src@) == Err::<EnumDeclView, Seq<char>>(error_message(e)),
        },
{
    syn::parse_str::<syn::ItemEnum>(src)
}

/// Prints the enum's `ident`.
#[verifier::external_body]
pub(crate) fn enum_name(item: &syn::ItemEnum) -> (name: String)
    ensures
        name@ == enum_model(*item).name,
{
    item.ident.to_string()
}

/// Calls `split_for_impl` on the enum's generics and prints the three parts.
#[verifier::external_body]
pub(crate) fn enum_generics(item: &syn::ItemEnum) -> (generics: Generics)
    ensures
        generics@ == enum_model(*item).generics,
{
    let (impl_generics, ty_generics, where_clause) = item.generics.split_for_impl();
    Generics {
        impl_generics: quote::ToTokens::to_token_stream(&impl_generics).to_string(),
        ty_generics: quote::ToTokens::to_token_stream(&ty_generics).to_string(),
        where_clause: quote::ToTokens::to_token_stream(&where_clause).to_string(),
    }
}

/// The length of the enum's `variants`.
#[verifier::external_body]
pub(crate) fn variant_count(item: &syn::ItemEnum) -> (n: usize)
    ensures
        n == enum_model(*item).variants.len(),
{
    item.variants.len()
}

/// Prints the `ident` of the variant at `index`.
#[verifier::external_body]
pub(crate) fn variant_name(item: &syn::ItemEnum, index: usize) -> (name: String)
    requires
        index < enum_model(*item).variants.len(),
    ensures
        name@ == enum_model(*item).variants[index as int].name,
{
    item.variants[index].ident.to_string()
}

/// Tells which variant of `syn::Fields` the variant at `index` holds.
#[verifier::external_body]
pub(crate) fn variant_fields_kind(item: &syn::ItemEnum, index: usize) -> (kind: FieldsKind)
    requires
        index < enum_model(*item).variants.len(),
    ensures
        kind == fields_kind(enum_model(*item).variants[index as int].fields),
{
    match &item.variants[index].fields {
        syn::Fields::Named(_) => FieldsKind::Named,
        syn::Fields::Unnamed(_) => FieldsKind::Unnamed,
        syn::Fields::Unit => FieldsKind::Unit,
    }
}

/// Calls `syn::Fields::len` on the fields of the variant at `index`: the
/// number of fields, none for a unit variant.
#[verifier::external_body]
pub(crate) fn field_count(item: &syn::ItemEnum, index: usize) -> (n: usize)
    requires
        index < enum_model(*item).variants.len(),
    ensures
        n == enum_model(*item).variants[index as int].fields.list().len(),
{
    item.variants[index].fields.len()
}

/// Hands out the field at `position` of the variant at `index`: its `ident`
/// printed, if it has one, and its `ty` printed.
#[verifier::external_body]
pub(crate) fn field_at(item: &syn::ItemEnum, index: usize, position: usize) -> (field: Field)
    requires
        index < enum_model(*item).variants.len(),
        position < enum_model(*item).variants[index as int].fields.list().len(),
    ensures
        field@ == enum_model(*item).variants[index as int].fields.list()[position as int],
{
    let field = item.variants[index].fields.iter().nth(position).unwrap();
    Field {
        name: field.ident.as_ref().map(|ident| ident.to_string()),
        ty: quote::ToTokens::to_token_stream(&field.ty).to_string(),
    }
}

// ---------------------------------------------------------------- signatures

/// What `syn` parses, from the token tree at `start` of `stream` on, as a
/// visibility: its tokens, none for the inherited one, and the number of
/// token trees that are left behind it; or the message of the error.
pub uninterp spec fn parsed_visibility(stream: proc_macro2::TokenStream, start: nat) -> Result<
    (Seq<char>, usize),
    Seq<char>,
>;

/// What `syn` parses, from the token tree at `start` of `stream` on, as a
/// signature: what it holds and the number of token trees that are left
/// behind it; or the message of the error.
pub uninterp spec fn parsed_signature(stream: proc_macro2::TokenStream, start: nat) -> Result<
    (MethodSigView, usize),
    Seq<char>,
>;

/// What a parsed signature holds. A signature has no visibility of its own:
/// no accessor speaks of the field `vis`, and whoever reads a signature sets
/// it from the visibility that was parsed before.
pub uninterp spec fn signature_model(sig: syn::Signature) -> MethodSigView;

/// Collects the token trees of `stream` from `start` on and has `syn` parse
/// a `Visibility`, then the rest as a token stream. The visibility is
/// printed, the token trees of the rest are counted. The result depends on
/// the arguments alone.
#[verifier::external_body]
pub(crate) fn parse_visibility(stream: &proc_macro2::TokenStream, start: usize) -> (r: Result<
    (String, usize),
    syn::Error,
>)
    ensures
        match r {
            Ok((vis, left)) => parsed_visibility(*stream, start as nat) == Ok::<
                (Seq<char>, usize),
                Seq<char>,
            >((vis@, left)),
            Err(e) => parsed_visibility(*stream, start as nat) == Err::<
                (Seq<char>, usize),
                Seq<char>,
            >(error_message(e)),
        },
{
    let tail: proc_macro2::TokenStream = stream.clone().into_iter().skip(start).collect();
    syn::parse::Parser::parse2(
        |input: syn::parse::ParseStream| {
            let vis = input.parse::<syn::Visibility>()?;
            let rest = input.parse::<proc_macro2::TokenStream>()?;
            Ok((quote::ToTokens::to_token_stream(&vis).to_string(), rest.into_iter().count()))
        },
        tail,
    )
}

/// Collects the token trees of `stream` from `start` on and has `syn` parse
/// a `Signature`, then the rest as a token stream, of which the token trees
/// are counted. The result depends on the arguments alone.
#[verifier::external_body]
pub(crate) fn parse_signature(stream: &proc_macro2::TokenStream, start: usize) -> (r: Result<
    (syn::Signature, usize),
    syn::Error,
>)
    ensures
        match r {
            Ok((sig, left)) => parsed_signature(*stream, start as nat) == Ok::<
                (MethodSigView, usize),
                Seq<char>,
            >((signature_model(sig), left)),
            Err(e) => parsed_signature(*stream, start as nat) == Err::<
                (MethodSigView, usize),
                Seq<char>,
            >(error_message(e)),
        },
{
    let tail: proc_macro2::TokenStream = stream.clone().into_iter().skip(start).collect();
    syn::parse::Parser::parse2(
        |input: syn::parse::ParseStream| {
            let sig = input.parse::<syn::Signature>()?;
            let rest = input.parse::<proc_macro2::TokenStream>()?;
            Ok((sig, rest.into_iter().count()))
        },
        tail,
    )
}

/// Prints what stands before `fn`: `constness`, `asyncness`, `unsafety` and
/// `abi`, in this order.
#[verifier::external_body]
pub(crate) fn signature_qualifiers(sig: &syn::Signature) -> (text: String)
    ensures
        text@ == signature_model(*sig).qualifiers,
{
    let mut tokens = proc_macro2::TokenStream::new();
    quote::ToTokens::to_tokens(&sig.constness, &mut tokens);
    quote::ToTokens::to_tokens(&sig.asyncness, &mut tokens);
    quote::ToTokens::to_tokens(&sig.unsafety, &mut tokens);
    quote::ToTokens::to_tokens(&sig.abi, &mut tokens);
    tokens.to_string()
}

/// Prints the signature's `ident`.
#[verifier::external_body]
pub(crate) fn signature_name(sig: &syn::Signature) -> (name: String)
    ensures
        name@ == signature_model(*sig).name,
{
    sig.ident.to_string()
}

/// Prints the signature's `generics`, which leaves the `where` clause out.
#[verifier::external_body]
pub(crate) fn signature_generics(sig: &syn::Signature) -> (text: String)
    ensures
        text@ == signature_model(*sig).generics,
{
    quote::ToTokens::to_token_stream(&sig.generics).to_string()
}

/// The length of the signature's `inputs`.
#[verifier::external_body]
pub(crate) fn param_count(sig: &syn::Signature) -> (n: usize)
    ensures
        n == signature_model(*sig).params.len(),
{
    sig.inputs.len()
}

/// Hands out the input at `index`: which variant of `syn::FnArg` it is, the
/// whole of it printed, and for a typed one its `pat` printed.
#[verifier::external_body]
pub(crate) fn param_at(sig: &syn::Signature, index: usize) -> (param: Param)
    requires
        index < signature_model(*sig).params.len(),
    ensures
        param@ == signature_model(*sig).params[index as int],
{
    match &sig.inputs[index] {
        syn::FnArg::Receiver(receiver) => Param::Receiver {
            text: quote::ToTokens::to_token_stream(receiver).to_string(),
        },
        syn::FnArg::Typed(typed) => Param::Typed {
            text: quote::ToTokens::to_token_stream(typed).to_string(),
            pattern: quote::ToTokens::to_token_stream(&typed.pat).to_string(),
        },
    }
}

/// Prints the signature's `variadic`.
#[verifier::external_body]
pub(crate) fn signature_variadic(sig: &syn::Signature) -> (text: String)
    ensures
        text@ == signature_model(*sig).variadic,
{
    quote::ToTokens::to_token_stream(&sig.variadic).to_string()
}

/// Prints the signature's `output`: the arrow and the return type.
#[verifier::external_body]
pub(crate) fn signature_output(sig: &syn::Signature) -> (text: String)
    ensures
        text@ == signature_model(*sig).output,
{
    quote::ToTokens::to_token_stream(&sig.output).to_string()
}

/// Prints the `where_clause` of the signature's generics.
#[verifier::external_body]
pub(crate) fn signature_where_clause(sig: &syn::Signature) -> (text: String)
    ensures
        text@ == signature_model(*sig).where_clause,
{
    quote::ToTokens::to_token_stream(&sig.generics.where_clause).to_string()
}

// ---------------------------------------------------------------- paths

/// What `syn` parses the text `src` to, as paths with commas between them:
/// what each path holds, or the message of the error.
pub uninterp spec fn parsed_paths(src: Seq<char>) -> Result<Seq<PathView>, Seq<char>>;

/// What a parsed path holds: its tokens and the identifier of its last
/// segment.
pub uninterp spec fn path_model(path: syn::Path) -> PathView;

/// What each of the paths holds, in order.
pub open spec fn path_models(paths: Seq<syn::Path>) -> Seq<PathView> {
    paths.map_values(|p: syn::Path| path_model(p))
}

/// Calls `Punctuated::<Path, Comma>::parse_terminated` on `src`, through
/// `syn::parse::Parser::parse_str`, and collects the paths. The result
/// depends on `src` alone.
#[verifier::external_body]
pub(crate) fn parse_path_list(src: &str) -> (r: Result<Vec<syn::Path>, syn::Error>)
    ensures
        match r {
            Ok(paths) => parsed_paths(src@) == Ok::<Seq<PathView>, Seq<char>>(path_models(paths@)),
            Err(e) => parsed_paths(src@) == Err::<Seq<PathView>, Seq<char>>(error_message(e)),
        },
{
    syn::parse::Parser::parse_str(
        syn::punctuated::Punctuated::<syn::Path, syn::token::Comma>::parse_terminated,
        src,
    ).map(|paths| paths.into_iter().collect())
}

/// Prints the path.
#[verifier::external_body]
pub(crate) fn path_tokens(path: &syn::Path) -> (text: String)
    ensures
        text@ == path_model(*path).text,
{
    quote::ToTokens::to_token_stream(path).to_string()
}

/// Prints the `ident` of the path's last segment, if the path has a segment.
#[verifier::external_body]
pub(crate) fn path_target(path: &syn::Path) -> (target: Option<String>)
    ensures
        match target {
            Some(t) => path_model(*path).target == Some(t@),
            None => path_model(*path).target is None,
        },
{
    path.segments.last().map(|segment| segment.ident.to_string())
}

} // verus!
