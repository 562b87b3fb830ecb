//! What one expansion emits: the enum as it was given, one `impl` block with
//! the generated methods, and a diagnostic for each request that failed.

use vstd::prelude::*;
use crate::decl::{Diagnostic, DiagnosticView, Generics, GenericsView};
use crate::generated::{method_views, Method, MethodView};
use crate::text::{join, push_joined, push_trailing, string_views, trailing};

verus! {

/// The values of the results that are `Ok`, in order.
pub open spec fn successes<T, E>(results: Seq<Result<T, E>>) -> Seq<T>
    decreases results.len(),
{
    if results.len() == 0 {
        Seq::empty()
    } else {
        let init = successes(results.drop_last());
        match results.last() {
            Ok(t) => init.push(t),
            Err(_) => init,
        }
    }
}

/// The errors of the results that are `Err`, in order.
pub open spec fn failures<T, E>(results: Seq<Result<T, E>>) -> Seq<E>
    decreases results.len(),
{
    if results.len() == 0 {
        Seq::empty()
    } else {
        let init = failures(results.drop_last());
        match results.last() {
            Ok(_) => init,
            Err(e) => init.push(e),
        }
    }
}

pub open spec fn diagnostic_views(diagnostics: Seq<Diagnostic>) -> Seq<DiagnosticView> {
    diagnostics.map_values(|d: Diagnostic| d@)
}

/// The outcome of one expansion. `item` is the text of the enum as it was
/// given; `name` and `generics` head the `impl` block that holds `methods`;
/// each of `diagnostics` stands for one request that produced no method.
#[derive(Debug, PartialEq, Eq)]
pub struct Expansion {
    pub item: String,
    pub name: String,
    pub generics: Generics,
    pub methods: Vec<Method>,
    pub diagnostics: Vec<Diagnostic>,
}

pub struct ExpansionView {
    pub item: Seq<char>,
    pub name: Seq<char>,
    pub generics: GenericsView,
    pub methods: Seq<MethodView>,
    pub diagnostics: Seq<DiagnosticView>,
}

impl View for Expansion {
    type V = ExpansionView;

    open spec fn view(&self) -> ExpansionView {
        ExpansionView {
            item: self.item@,
            name: self.name@,
            generics: self.generics@,
            methods: method_views(self.methods@),
            diagnostics: diagnostic_views(self.diagnostics@),
        }
    }
}

impl ExpansionView {
    pub open spec fn method_texts(self) -> Seq<Seq<char>> {
        self.methods.map_values(|m: MethodView| m.text())
    }

    /// The `impl` block: the enum's generics and bounds in its header, the
    /// methods in order in its body.
    pub open spec fn block_text(self) -> Seq<char> {
        "impl"@ + trailing(self.generics.impl_generics) + " "@ + self.name + trailing(
            self.generics.ty_generics,
        ) + trailing(self.generics.where_clause) + " { "@ + join(self.method_texts(), " "@)
            + " }"@
    }

    /// The source text that is emitted: the enum unchanged, then the block.
    pub open spec fn code(self) -> Seq<char> {
        self.item + " "@ + self.block_text()
    }
}

impl Expansion {
    /// The `impl` block with the generated methods.
    pub fn block(&self) -> (out: String)
        ensures
            out@ == self@.block_text(),
    {
        let n = self.methods.len();
        let mut texts: Vec<String> = Vec::new();
        let mut i: usize = 0;
        while i < n
            invariant
                i <= n,
                n == self.methods.len(),
                texts.len() == i,
                forall|j: int| 0 <= j < i ==> (#[trigger] texts[j])@ == self@.methods[j].text(),
            decreases n - i,
        {
            texts.push(self.methods[i].render());
            i = i + 1;
        }
        assert(string_views(texts@) =~= self@.method_texts());
        let mut out = "impl".to_owned();
        push_trailing(&mut out, self.generics.impl_generics.as_str());
        out.append(" ");
        out.append(self.name.as_str());
        push_trailing(&mut out, self.generics.ty_generics.as_str());
        push_trailing(&mut out, self.generics.where_clause.as_str());
        out.append(" { ");
        push_joined(&mut out, &texts, " ");
        out.append(" }");
        assert(out@ =~= self@.block_text());
        out
    }

    /// The source text that is emitted: the enum unchanged, then the block.
    pub fn code(&self) -> (out: String)
        ensures
            out@ == self@.code(),
    {
        let mut out = self.item.clone();
        out.append(" ");
        out.append(self.block().as_str());
        out
    }
}

} // verus!
