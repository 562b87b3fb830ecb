//! Generated methods: a signature and one match arm for each variant.

use vstd::prelude::*;
use crate::decl::name_view;
use crate::signature::{binding, MethodSig, MethodSigView};
use crate::text::{join, push_joined, string_views};

verus! {

/// What a match arm evaluates to, once the first field is bound.
#[derive(Debug, PartialEq, Eq)]
pub enum ArmBody {
    /// A call of `function`, qualified by the type `qualifier`.
    Call { qualifier: String, function: String, args: Vec<String> },
    /// The bound first field, coerced to the type that the method returns.
    Upcast,
    /// The bound first field moved into a box, the box coerced likewise.
    BoxedUpcast,
}

pub enum ArmBodyView {
    Call { qualifier: Seq<char>, function: Seq<char>, args: Seq<Seq<char>> },
    Upcast,
    BoxedUpcast,
}

impl View for ArmBody {
    type V = ArmBodyView;

    open spec fn view(&self) -> ArmBodyView {
        match self {
            ArmBody::Call { qualifier, function, args } => ArmBodyView::Call {
                qualifier: qualifier@,
                function: function@,
                args: string_views(args@),
            },
            ArmBody::Upcast => ArmBodyView::Upcast,
            ArmBody::BoxedUpcast => ArmBodyView::BoxedUpcast,
        }
    }
}

/// One match arm. Its pattern names `variant` and binds that variant's first
/// field, by the name `field` where there is one and by position otherwise;
/// every other field is left out of the pattern.
#[derive(Debug, PartialEq, Eq)]
pub struct Arm {
    pub variant: String,
    pub field: Option<String>,
    pub body: ArmBody,
}

pub struct ArmView {
    pub variant: Seq<char>,
    pub field: Option<Seq<char>>,
    pub body: ArmBodyView,
}

impl View for Arm {
    type V = ArmView;

    open spec fn view(&self) -> ArmView {
        ArmView { variant: self.variant@, field: name_view(self.field), body: self.body@ }
    }
}

pub open spec fn arm_views(arms: Seq<Arm>) -> Seq<ArmView> {
    arms.map_values(|a: Arm| a@)
}

/// A method of the enum whose body is one `match self` over `arms`.
#[derive(Debug, PartialEq, Eq)]
pub struct Method {
    pub signature: MethodSig,
    pub arms: Vec<Arm>,
}

pub struct MethodView {
    pub signature: MethodSigView,
    pub arms: Seq<ArmView>,
}

impl View for Method {
    type V = MethodView;

    open spec fn view(&self) -> MethodView {
        MethodView { signature: self.signature@, arms: arm_views(self.arms@) }
    }
}

pub open spec fn method_views(methods: Seq<Method>) -> Seq<MethodView> {
    methods.map_values(|m: Method| m@)
}

impl ArmBodyView {
    pub open spec fn text(self) -> Seq<char> {
        match self {
            ArmBodyView::Call { qualifier, function, args } => "< "@ + qualifier + " > :: "@
                + function + " ("@ + join(args, ", "@) + ")"@,
            ArmBodyView::Upcast => binding() + " as _"@,
            ArmBodyView::BoxedUpcast => "Box :: new ("@ + binding() + ") as _"@,
        }
    }
}

impl ArmView {
    pub open spec fn pattern_text(self) -> Seq<char> {
        match self.field {
            Some(f) => "Self :: "@ + self.variant + " { "@ + f + " : "@ + binding() + ", .. }"@,
            None => "Self :: "@ + self.variant + " ("@ + binding() + ", ..)"@,
        }
    }

    pub open spec fn text(self) -> Seq<char> {
        self.pattern_text() + " => "@ + self.body.text()
    }
}

/// The index of the arm that a value of the variant `name` takes: the first
/// one, from `start` on, whose pattern names that variant.
pub open spec fn select_from(arms: Seq<ArmView>, name: Seq<char>, start: int) -> Option<int>
    decreases arms.len() - start,
{
    if start < 0 || start >= arms.len() {
        None
    } else if arms[start].variant == name {
        Some(start)
    } else {
        select_from(arms, name, start + 1)
    }
}

impl MethodView {
    pub open spec fn arm_texts(self) -> Seq<Seq<char>> {
        self.arms.map_values(|a: ArmView| a.text())
    }

    /// The method as source text.
    pub open spec fn text(self) -> Seq<char> {
        self.signature.text() + " { match self { "@ + join(self.arm_texts(), ", "@) + " } }"@
    }

    /// The arm that runs when the method is called on a value of the variant
    /// `name`, if any arm matches it.
    pub open spec fn select(self, name: Seq<char>) -> Option<int> {
        select_from(self.arms, name, 0)
    }
}

impl ArmBody {
    pub fn render(&self) -> (out: String)
        ensures
            out@ == self@.text(),
    {
        match self {
            ArmBody::Call { qualifier, function, args } => {
                let mut out = "< ".to_owned();
                out.append(qualifier.as_str());
                out.append(" > :: ");
                out.append(function.as_str());
                out.append(" (");
                push_joined(&mut out, args, ", ");
                out.append(")");
                assert(out@ =~= self@.text());
                out
            },
            ArmBody::Upcast => {
                let mut out = "__first".to_owned();
                out.append(" as _");
                out
            },
            ArmBody::BoxedUpcast => {
                let mut out = "Box :: new (".to_owned();
                out.append("__first");
                out.append(") as _");
                out
            },
        }
    }
}

impl Arm {
    pub fn render(&self) -> (out: String)
        ensures
            out@ == self@.text(),
    {
        let mut out = "Self :: ".to_owned();
        out.append(self.variant.as_str());
        match &self.field {
            Some(f) => {
                out.append(" { ");
                out.append(f.as_str());
                out.append(" : ");
                out.append("__first");
                out.append(", .. }");
            },
            None => {
                out.append(" (");
                out.append("__first");
                out.append(", ..)");
            },
        }
        assert(out@ =~= self@.pattern_text());
        out.append(" => ");
        let body = self.body.render();
        out.append(body.as_str());
        out
    }
}

impl Method {
    /// The method as source text.
    pub fn render(&self) -> (out: String)
        ensures
            out@ == self@.text(),
    {
        let n = self.arms.len();
        let mut texts: Vec<String> = Vec::new();
        let mut i: usize = 0;
        while i < n
            invariant
                i <= n,
                n == self.arms.len(),
                texts.len() == i,
                forall|j: int| 0 <= j < i ==> (#[trigger] texts[j])@ == self@.arms[j].text(),
            decreases n - i,
        {
            texts.push(self.arms[i].render());
            i = i + 1;
        }
        assert(string_views(texts@) =~= self@.arm_texts());
        let mut out = self.signature.render();
        out.append(" { match self { ");
        push_joined(&mut out, &texts, ", ");
        out.append(" } }");
        out
    }
}

} // verus!
