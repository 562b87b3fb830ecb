//! Forwarding methods: for each requested signature, a method of the enum
//! that calls the function of that name on the active variant's first field.

use vstd::prelude::*;
use crate::decl::{
    first_failure, first_field, lemma_first_failure_prefix, Diagnostic, DiagnosticView, EnumDecl,
    EnumDeclView, VariantView,
};
use crate::expansion::{diagnostic_views, failures, successes, Expansion, ExpansionView};
use crate::generated::{method_views, Arm, ArmBody, ArmBodyView, ArmView, Method, MethodView};
use crate::parse::{enum_of, lower_error, parse_enum, SyntaxError, SyntaxErrorView};
use crate::signature::{method_sig_views, MethodSig, MethodSigView, Param};
use crate::syntax::{
    lexed, param_at, param_count, parse_signature, parse_visibility, parsed_signature,
    parsed_visibility, signature_generics, signature_model, signature_name, signature_output,
    signature_qualifiers, signature_variadic, signature_where_clause, stream_len, stream_token,
    stream_tokens, tokenize, TokenKind, TokenView,
};

verus! {

/// The arm that forwards the call for one variant: it binds the variant's
/// first field and calls the function `sig.name` of that field's declared
/// type, the bound field standing in for the receiver.
pub open spec fn forwarding_arm(sig: MethodSigView, variant: VariantView) -> ArmView
    recommends
        variant.fields.first() is Ok,
{
    let first = variant.fields.first()->Ok_0;
    ArmView {
        variant: variant.name,
        field: first.name,
        body: ArmBodyView::Call { qualifier: first.ty, function: sig.name, args: sig.call_args() },
    }
}

/// One forwarding arm for each variant, in declaration order.
pub open spec fn forwarding_arms(sig: MethodSigView, variants: Seq<VariantView>) -> Seq<ArmView> {
    variants.map_values(|v: VariantView| forwarding_arm(sig, v))
}

/// The method generated for `sig` on the enum `decl`, or the first variant
/// that has no field to forward to.
pub open spec fn forwarding_method(sig: MethodSigView, decl: EnumDeclView) -> Result<
    MethodView,
    DiagnosticView,
> {
    match first_failure(decl.variants) {
        Some(d) => Err(d),
        None => Ok(
            MethodView {
                signature: sig.with_receiver(),
                arms: forwarding_arms(sig, decl.variants),
            },
        ),
    }
}

/// Builds the method that forwards `sig` to the first field of every variant
/// of `decl`.
///
/// The method keeps the signature and its visibility; a signature without a
/// receiver gets `&self` in front, and the forwarded call then passes no
/// instance. The match has one arm for each variant and no catch-all. If a
/// variant has no field, nothing is built and the first such variant is
/// reported.
pub fn make_method(sig: MethodSig, decl: &EnumDecl) -> (r: Result<Method, Diagnostic>)
    ensures
        match r {
            Ok(m) => forwarding_method(sig@, decl@) == Ok::<MethodView, DiagnosticView>(m@),
            Err(d) => forwarding_method(sig@, decl@) == Err::<MethodView, DiagnosticView>(d@),
        },
{
    let mut sig = sig;
    let ghost asked = sig@;
    let n = decl.variants.len();
    let mut arms: Vec<Arm> = Vec::new();
    let mut i: usize = 0;
    assert(decl@.variants.take(0) =~= Seq::<VariantView>::empty());
    while i < n
        invariant
            i <= n,
            n == decl.variants.len(),
            sig@ == asked,
            arms.len() == i,
            first_failure(decl@.variants.take(i as int)) is None,
            forall|j: int|
                0 <= j < i ==> (#[trigger] arms[j])@ == forwarding_arm(asked, decl@.variants[j]),
        decreases n - i,
    {
        let variant = &decl.variants[i];
        proof {
            let next = decl@.variants.take(i + 1);
            assert(next.drop_last() =~= decl@.variants.take(i as int));
            assert(next.last() == variant@);
        }
        match first_field(variant) {
            Ok(first) => {
                arms.push(
                    Arm {
                        variant: variant.name.clone(),
                        field: first.name_copy(),
                        body: ArmBody::Call {
                            qualifier: first.ty.clone(),
                            function: sig.name.clone(),
                            args: sig.call_args(),
                        },
                    },
                );
            },
            Err(error) => {
                proof {
                    lemma_first_failure_prefix(decl@.variants, i + 1);
                }
                return Err(Diagnostic { variant: i, error });
            },
        }
        i = i + 1;
    }
    assert(decl@.variants.take(n as int) =~= decl@.variants);
    if !sig.has_receiver() {
        sig.params.insert(0, Param::Receiver { text: "&self".to_owned() });
        assert(sig@.params =~= asked.with_receiver().params);
    }
    let method = Method { signature: sig, arms };
    assert(method@.arms =~= forwarding_arms(asked, decl@.variants));
    Ok(method)
}

/// Whether a token behind a signature is a body to pass over: a semicolon or
/// a block in braces.
pub open spec fn is_body(token: TokenView) -> bool {
    ||| token.kind == TokenKind::Punct && token.text == ";"@
    ||| token.kind == TokenKind::Braced
}

/// The error for a parse that leaves more tokens than it was given, as it
/// can where the parser steps into a group without delimiters.
pub open spec fn stalled() -> SyntaxErrorView {
    SyntaxErrorView { message: "unexpected token"@ }
}

/// Where an entry ends whose signature leaves `left` tokens behind it:
/// behind the signature, or behind the body that follows it.
pub open spec fn entry_end(tokens: Seq<TokenView>, left: int) -> int
    recommends
        0 <= left <= tokens.len(),
{
    let next = tokens.len() - left;
    if next < tokens.len() && is_body(tokens[next]) {
        next + 1
    } else {
        next
    }
}

/// The entry that starts at the token `start` of `stream`: a visibility,
/// which may be empty, and behind it a signature, which is not. With the
/// signature comes the number of tokens that are left behind it.
pub open spec fn entry_at(stream: proc_macro2::TokenStream, start: nat) -> Result<
    (MethodSigView, usize),
    SyntaxErrorView,
> {
    let len = stream_tokens(stream).len();
    match parsed_visibility(stream, start) {
        Err(message) => Err(SyntaxErrorView { message }),
        Ok((vis, left)) => if left > len - start {
            Err(stalled())
        } else {
            match parsed_signature(stream, (len - left) as nat) {
                Err(message) => Err(SyntaxErrorView { message }),
                Ok((sig, behind)) => if behind >= left {
                    Err(stalled())
                } else {
                    Ok((MethodSigView { vis, ..sig }, behind))
                },
            }
        },
    }
}

/// The signatures that the tokens of `stream` hold from `start` on: entry
/// after entry until the tokens are used up, each a visibility and a
/// signature with an optional body, nothing between them.
pub open spec fn entries_from(stream: proc_macro2::TokenStream, start: nat) -> Result<
    Seq<MethodSigView>,
    SyntaxErrorView,
>
    decreases stream_tokens(stream).len() - start,
{
    let tokens = stream_tokens(stream);
    if start >= tokens.len() {
        Ok(Seq::empty())
    } else {
        match entry_at(stream, start) {
            Err(e) => Err(e),
            Ok((sig, left)) => match entries_from(stream, entry_end(tokens, left as int) as nat) {
                Ok(rest) => Ok(seq![sig] + rest),
                Err(e) => Err(e),
            },
        }
    }
}

/// The signatures that the text `args` lists, or the first syntax error.
pub open spec fn methods_of(args: Seq<char>) -> Result<Seq<MethodSigView>, SyntaxErrorView> {
    match lexed(args) {
        Err(message) => Err(SyntaxErrorView { message }),
        Ok(stream) => entries_from(stream, 0),
    }
}

/// `found` in front of what `rest` holds, an error staying what it is.
pub open spec fn after(
    found: Seq<MethodSigView>,
    rest: Result<Seq<MethodSigView>, SyntaxErrorView>,
) -> Result<Seq<MethodSigView>, SyntaxErrorView> {
    match rest {
        Ok(more) => Ok(found + more),
        Err(e) => Err(e),
    }
}

fn lower_signature(vis: String, sig: &syn::Signature) -> (r: MethodSig)
    ensures
        r@ == (MethodSigView { vis: vis@, ..signature_model(*sig) }),
{
    let n = param_count(sig);
    let mut params: Vec<Param> = Vec::new();
    let mut i: usize = 0;
    while i < n
        invariant
            i <= n,
            n == signature_model(*sig).params.len(),
            params.len() == i,
            forall|k: int|
                0 <= k < i ==> (#[trigger] params[k])@ == signature_model(*sig).params[k],
        decreases n - i,
    {
        params.push(param_at(sig, i));
        i = i + 1;
    }
    let r = MethodSig {
        vis,
        qualifiers: signature_qualifiers(sig),
        name: signature_name(sig),
        generics: signature_generics(sig),
        params,
        variadic: signature_variadic(sig),
        output: signature_output(sig),
        where_clause: signature_where_clause(sig),
    };
    assert(r@.params =~= signature_model(*sig).params);
    r
}

/// Parses the entry that starts at the token `start`.
fn parse_entry(stream: &proc_macro2::TokenStream, start: usize) -> (r: Result<
    (MethodSig, usize),
    SyntaxError,
>)
    requires
        start <= stream_tokens(*stream).len() <= usize::MAX,
    ensures
        match r {
            Ok((sig, left)) => entry_at(*stream, start as nat) == Ok::<
                (MethodSigView, usize),
                SyntaxErrorView,
            >((sig@, left)),
            Err(e) => entry_at(*stream, start as nat) == Err::<
                (MethodSigView, usize),
                SyntaxErrorView,
            >(e@),
        },
        r matches Ok((_, left)) ==> left < stream_tokens(*stream).len() - start,
{
    let len = stream_len(stream);
    let (vis, left) = match parse_visibility(stream, start) {
        Ok(found) => found,
        Err(e) => {
            return Err(lower_error(&e));
        },
    };
    if left > len - start {
        return Err(stalled_error());
    }
    let (sig, behind) = match parse_signature(stream, len - left) {
        Ok(found) => found,
        Err(e) => {
            return Err(lower_error(&e));
        },
    };
    if behind >= left {
        return Err(stalled_error());
    }
    Ok((lower_signature(vis, &sig), behind))
}

fn stalled_error() -> (e: SyntaxError)
    ensures
        e@ == stalled(),
{
    SyntaxError { message: "unexpected token".to_owned(), line: 0, column: 0 }
}

fn is_body_token(stream: &proc_macro2::TokenStream, index: usize) -> (b: bool)
    requires
        index < stream_tokens(*stream).len(),
    ensures
        b == is_body(stream_tokens(*stream)[index as int]),
{
    let token = stream_token(stream, index);
    match token.kind {
        TokenKind::Braced => true,
        TokenKind::Punct => token.text == ";".to_owned(),
        _ => false,
    }
}

/// The signatures that a forwarding method is asked for, in the order in
/// which they were written.
#[derive(Debug, PartialEq, Eq)]
pub struct Methods(pub Vec<MethodSig>);

impl View for Methods {
    type V = Seq<MethodSigView>;

    open spec fn view(&self) -> Seq<MethodSigView> {
        method_sig_views(self.0@)
    }
}

impl Methods {
    /// Parses `args` as a list of signatures.
    ///
    /// An entry is a visibility, which may be empty, and a function
    /// signature; a semicolon or a block behind the signature is passed
    /// over. Entries follow each other with nothing between them. The order
    /// of the list is kept. The first entry that does not parse ends the
    /// parse with its error.
    pub fn parse(args: &str) -> (r: Result<Methods, SyntaxError>)
        ensures
            match r {
                Ok(methods) => methods_of(args@) == Ok::<Seq<MethodSigView>, SyntaxErrorView>(
                    methods@,
                ),
                Err(e) => methods_of(args@) == Err::<Seq<MethodSigView>, SyntaxErrorView>(e@),
            },
    {
        let stream = match tokenize(args) {
            Ok(stream) => stream,
            Err(e) => {
                return Err(lower_error(&e));
            },
        };
        let len = stream_len(&stream);
        let mut found: Vec<MethodSig> = Vec::new();
        let mut start: usize = 0;
        proof {
            if let Ok(all) = entries_from(stream, 0) {
                assert(method_sig_views(found@) + all =~= all);
            }
        }
        while start < len
            invariant
                start <= len,
                len == stream_tokens(stream).len(),
                methods_of(args@) == entries_from(stream, 0),
                entries_from(stream, 0) == after(
                    method_sig_views(found@),
                    entries_from(stream, start as nat),
                ),
            decreases len - start,
        {
            let ghost done = method_sig_views(found@);
            let ghost tokens = stream_tokens(stream);
            let (sig, left) = match parse_entry(&stream, start) {
                Ok(entry) => entry,
                Err(e) => {
                    return Err(e);
                },
            };
            let mut next = len - left;
            if next < len && is_body_token(&stream, next) {
                next = next + 1;
            }
            assert(next == entry_end(tokens, left as int));
            proof {
                match entries_from(stream, next as nat) {
                    Ok(rest) => {
                        assert(done + (seq![sig@] + rest) =~= done.push(sig@) + rest);
                    },
                    Err(_) => {},
                }
            }
            let ghost entry = sig@;
            found.push(sig);
            assert(method_sig_views(found@) =~= done.push(entry));
            start = next;
        }
        assert(method_sig_views(found@) + Seq::<MethodSigView>::empty() =~= method_sig_views(
            found@,
        ));
        Ok(Methods(found))
    }
}

/// What each of the signatures gives on the enum `decl`, in order.
pub open spec fn forwarding_results(sigs: Seq<MethodSigView>, decl: EnumDeclView) -> Seq<
    Result<MethodView, DiagnosticView>,
> {
    sigs.map_values(|sig: MethodSigView| forwarding_method(sig, decl))
}

/// The expansion for the signatures `sigs` on the enum `decl`, whose text is
/// `item`: a method for each signature that gives one, a diagnostic for each
/// that gives none, both in the order of the signatures.
pub open spec fn forwarding_expansion(
    item: Seq<char>,
    sigs: Seq<MethodSigView>,
    decl: EnumDeclView,
) -> ExpansionView {
    let results = forwarding_results(sigs, decl);
    ExpansionView {
        item,
        name: decl.name,
        generics: decl.generics,
        methods: successes(results),
        diagnostics: failures(results),
    }
}

/// Builds a forwarding method for each of `methods` on the enum `decl`.
///
/// A signature that fails adds its diagnostic and no method, and does not
/// keep the others from being built. `item` is the text of the enum, which
/// the expansion emits unchanged.
pub fn expand_methods(item: &str, methods: &Methods, decl: &EnumDecl) -> (x: Expansion)
    ensures
        x@ == forwarding_expansion(item@, methods@, decl@),
{
    let ghost results = forwarding_results(methods@, decl@);
    let n = methods.0.len();
    let mut built: Vec<Method> = Vec::new();
    let mut diagnostics: Vec<Diagnostic> = Vec::new();
    let mut i: usize = 0;
    assert(results.take(0) =~= Seq::<Result<MethodView, DiagnosticView>>::empty());
    assert(method_views(built@) =~= Seq::<MethodView>::empty());
    assert(diagnostic_views(diagnostics@) =~= Seq::<DiagnosticView>::empty());
    while i < n
        invariant
            i <= n,
            n == methods.0.len(),
            results == forwarding_results(methods@, decl@),
            method_views(built@) == successes(results.take(i as int)),
            diagnostic_views(diagnostics@) == failures(results.take(i as int)),
        decreases n - i,
    {
        let ghost methods_before = method_views(built@);
        let ghost diagnostics_before = diagnostic_views(diagnostics@);
        proof {
            let next = results.take(i + 1);
            assert(next.drop_last() =~= results.take(i as int));
            assert(next.last() == forwarding_method(methods.0[i as int]@, decl@));
        }
        match make_method(methods.0[i].duplicate(), decl) {
            Ok(method) => {
                built.push(method);
                assert(method_views(built@) =~= methods_before.push(method@));
            },
            Err(diagnostic) => {
                diagnostics.push(diagnostic);
                assert(diagnostic_views(diagnostics@) =~= diagnostics_before.push(diagnostic@));
            },
        }
        i = i + 1;
    }
    assert(results.take(n as int) =~= results);
    Expansion {
        item: item.to_owned(),
        name: decl.name.clone(),
        generics: decl.generics.duplicate(),
        methods: built,
        diagnostics,
    }
}

/// The expansion for the signature list `args` on the enum declared by
/// `input`. Text that does not parse gives a syntax error and nothing else;
/// the list is read before the enum.
pub open spec fn with_methods_of(args: Seq<char>, input: Seq<char>) -> Result<
    ExpansionView,
    SyntaxErrorView,
> {
    match methods_of(args) {
        Err(e) => Err(e),
        Ok(sigs) => match enum_of(input) {
            Err(e) => Err(e),
            Ok(decl) => Ok(forwarding_expansion(input, sigs, decl)),
        },
    }
}

/// Expands the attribute: `args` is the list of signatures, `input` the enum
/// it stands on.
///
/// Both are parsed, then a forwarding method is built for each signature.
/// The result holds the enum unchanged, the methods that could be built and
/// a diagnostic for each signature that failed.
pub fn with_methods_impl(args: &str, input: &str) -> (r: Result<Expansion, SyntaxError>)
    ensures
        match r {
            Ok(x) => with_methods_of(args@, input@) == Ok::<ExpansionView, SyntaxErrorView>(x@),
            Err(e) => with_methods_of(args@, input@) == Err::<ExpansionView, SyntaxErrorView>(e@),
        },
{
    let methods = match Methods::parse(args) {
        Ok(methods) => methods,
        Err(e) => {
            return Err(e);
        },
    };
    let decl = match parse_enum(input) {
        Ok(decl) => decl,
        Err(e) => {
            return Err(e);
        },
    };
    Ok(expand_methods(input, &methods, &decl))
}

} // verus!
