//! Method signatures: what is asked for, and what a generated method carries.

use vstd::prelude::*;
use crate::text::{join, leading, push_joined, push_leading, push_trailing, string_views, trailing};

verus! {

/// One parameter of a signature. `text` holds the tokens of the whole
/// parameter, `pattern` those in front of the colon of a typed one.
#[derive(Debug, PartialEq, Eq)]
pub enum Param {
    Receiver { text: String },
    Typed { text: String, pattern: String },
}

pub enum ParamView {
    Receiver { text: Seq<char> },
    Typed { text: Seq<char>, pattern: Seq<char> },
}

impl View for Param {
    type V = ParamView;

    open spec fn view(&self) -> ParamView {
        match self {
            Param::Receiver { text } => ParamView::Receiver { text: text@ },
            Param::Typed { text, pattern } => ParamView::Typed { text: text@, pattern: pattern@ },
        }
    }
}

pub open spec fn param_views(params: Seq<Param>) -> Seq<ParamView> {
    params.map_values(|p: Param| p@)
}

/// The name that every generated match arm gives to the first field.
pub open spec fn binding() -> Seq<char> {
    "__first"@
}

/// The receiver that a generated method gets when the signature has none.
pub open spec fn borrowed_receiver() -> ParamView {
    ParamView::Receiver { text: "&self"@ }
}

impl ParamView {
    /// The parameter as it stands in a signature.
    pub open spec fn text(self) -> Seq<char> {
        match self {
            ParamView::Receiver { text } => text,
            ParamView::Typed { text, .. } => text,
        }
    }

    /// What a forwarded call passes for this parameter: the bound first field
    /// in place of a receiver, the parameter's own pattern otherwise.
    pub open spec fn call_arg(self) -> Seq<char> {
        match self {
            ParamView::Receiver { .. } => binding(),
            ParamView::Typed { pattern, .. } => pattern,
        }
    }
}

/// A signature with its visibility. Every field but `params` is a run of
/// tokens, empty where the signature has nothing in that place:
/// `qualifiers` stands before `fn`, `generics` is the angle-bracketed list
/// behind the name, `variadic` closes the parameter list, `output` is the
/// arrow with the return type.
#[derive(Debug, PartialEq, Eq)]
pub struct MethodSig {
    pub vis: String,
    pub qualifiers: String,
    pub name: String,
    pub generics: String,
    pub params: Vec<Param>,
    pub variadic: String,
    pub output: String,
    pub where_clause: String,
}

pub struct MethodSigView {
    pub vis: Seq<char>,
    pub qualifiers: Seq<char>,
    pub name: Seq<char>,
    pub generics: Seq<char>,
    pub params: Seq<ParamView>,
    pub variadic: Seq<char>,
    pub output: Seq<char>,
    pub where_clause: Seq<char>,
}

impl View for MethodSig {
    type V = MethodSigView;

    open spec fn view(&self) -> MethodSigView {
        MethodSigView {
            vis: self.vis@,
            qualifiers: self.qualifiers@,
            name: self.name@,
            generics: self.generics@,
            params: param_views(self.params@),
            variadic: self.variadic@,
            output: self.output@,
            where_clause: self.where_clause@,
        }
    }
}

pub open spec fn method_sig_views(sigs: Seq<MethodSig>) -> Seq<MethodSigView> {
    sigs.map_values(|s: MethodSig| s@)
}

impl MethodSigView {
    /// Whether one of the parameters is a receiver.
    pub open spec fn has_receiver(self) -> bool {
        exists|i: int| 0 <= i < self.params.len() && (#[trigger] self.params[i]) is Receiver
    }

    /// The signature of the method that is generated for this one: the same,
    /// with a borrowed receiver put in front where it has no receiver.
    pub open spec fn with_receiver(self) -> MethodSigView {
        if self.has_receiver() {
            self
        } else {
            MethodSigView { params: seq![borrowed_receiver()] + self.params, ..self }
        }
    }

    /// The arguments of the forwarded call, one for each parameter.
    pub open spec fn call_args(self) -> Seq<Seq<char>> {
        self.params.map_values(|p: ParamView| p.call_arg())
    }

    /// What stands between the parentheses: the parameters, then the variadic
    /// marker if there is one.
    pub open spec fn param_list(self) -> Seq<Seq<char>> {
        let texts = self.params.map_values(|p: ParamView| p.text());
        if self.variadic.len() == 0 {
            texts
        } else {
            texts.push(self.variadic)
        }
    }

    /// The signature as source text.
    pub open spec fn text(self) -> Seq<char> {
        leading(self.vis) + leading(self.qualifiers) + "fn "@ + self.name + trailing(self.generics)
            + " ("@ + join(self.param_list(), ", "@) + ")"@ + trailing(self.output) + trailing(
            self.where_clause,
        )
    }
}

impl Param {
    /// A copy of the parameter.
    pub fn duplicate(&self) -> (copy: Param)
        ensures
            copy@ == self@,
    {
        match self {
            Param::Receiver { text } => Param::Receiver { text: text.clone() },
            Param::Typed { text, pattern } => Param::Typed {
                text: text.clone(),
                pattern: pattern.clone(),
            },
        }
    }

    /// Whether the parameter is a receiver.
    pub fn is_receiver(&self) -> (b: bool)
        ensures
            b == (self@ is Receiver),
    {
        match self {
            Param::Receiver { .. } => true,
            Param::Typed { .. } => false,
        }
    }

    /// The parameter as it stands in a signature.
    pub fn text(&self) -> (t: String)
        ensures
            t@ == self@.text(),
    {
        match self {
            Param::Receiver { text } => text.clone(),
            Param::Typed { text, .. } => text.clone(),
        }
    }

    /// What a forwarded call passes for this parameter.
    pub fn call_arg(&self) -> (a: String)
        ensures
            a@ == self@.call_arg(),
    {
        match self {
            Param::Receiver { .. } => "__first".to_owned(),
            Param::Typed { pattern, .. } => pattern.clone(),
        }
    }
}

impl MethodSig {
    /// A copy of the signature.
    pub fn duplicate(&self) -> (copy: MethodSig)
        ensures
            copy@ == self@,
    {
        let n = self.params.len();
        let mut params: Vec<Param> = Vec::new();
        let mut i: usize = 0;
        while i < n
            invariant
                i <= n,
                n == self.params.len(),
                params.len() == i,
                forall|j: int| 0 <= j < i ==> (#[trigger] params[j])@ == self@.params[j],
            decreases n - i,
        {
            params.push(self.params[i].duplicate());
            i = i + 1;
        }
        let copy = MethodSig {
            vis: self.vis.clone(),
            qualifiers: self.qualifiers.clone(),
            name: self.name.clone(),
            generics: self.generics.clone(),
            params,
            variadic: self.variadic.clone(),
            output: self.output.clone(),
            where_clause: self.where_clause.clone(),
        };
        assert(copy@.params =~= self@.params);
        copy
    }

    /// Whether one of the parameters is a receiver.
    pub fn has_receiver(&self) -> (b: bool)
        ensures
            b == self@.has_receiver(),
    {
        let n = self.params.len();
        let mut i: usize = 0;
        while i < n
            invariant
                i <= n,
                n == self.params.len(),
                forall|j: int| 0 <= j < i ==> !((#[trigger] self@.params[j]) is Receiver),
            decreases n - i,
        {
            if self.params[i].is_receiver() {
                assert(self@.params[i as int] is Receiver);
                return true;
            }
            i = i + 1;
        }
        false
    }

    /// The arguments of the forwarded call, one for each parameter.
    pub fn call_args(&self) -> (args: Vec<String>)
        ensures
            string_views(args@) == self@.call_args(),
    {
        let n = self.params.len();
        let mut args: Vec<String> = Vec::new();
        let mut i: usize = 0;
        while i < n
            invariant
                i <= n,
                n == self.params.len(),
                args.len() == i,
                forall|j: int| 0 <= j < i ==> (#[trigger] args[j])@ == self@.params[j].call_arg(),
            decreases n - i,
        {
            args.push(self.params[i].call_arg());
            i = i + 1;
        }
        assert(string_views(args@) =~= self@.call_args());
        args
    }

    /// What stands between the parentheses.
    pub fn param_list(&self) -> (list: Vec<String>)
        ensures
            string_views(list@) == self@.param_list(),
    {
        let n = self.params.len();
        let mut list: Vec<String> = Vec::new();
        let mut i: usize = 0;
        while i < n
            invariant
                i <= n,
                n == self.params.len(),
                list.len() == i,
                forall|j: int| 0 <= j < i ==> (#[trigger] list[j])@ == self@.params[j].text(),
            decreases n - i,
        {
            list.push(self.params[i].text());
            i = i + 1;
        }
        if !self.variadic.as_str().is_empty() {
            list.push(self.variadic.clone());
        }
        assert(string_views(list@) =~= self@.param_list());
        list
    }

    /// The signature as source text.
    pub fn render(&self) -> (out: String)
        ensures
            out@ == self@.text(),
    {
        let mut out = String::new();
        push_leading(&mut out, self.vis.as_str());
        push_leading(&mut out, self.qualifiers.as_str());
        out.append("fn ");
        out.append(self.name.as_str());
        push_trailing(&mut out, self.generics.as_str());
        out.append(" (");
        let list = self.param_list();
        push_joined(&mut out, &list, ", ");
        out.append(")");
        push_trailing(&mut out, self.output.as_str());
        push_trailing(&mut out, self.where_clause.as_str());
        assert(out@ =~= self@.text());
        out
    }
}

} // verus!
