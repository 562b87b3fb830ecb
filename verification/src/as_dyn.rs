//! Trait-object projections: for each trait, three methods of the enum that
//! hand out the active variant's first field as `dyn Trait`, borrowed,
//! mutably borrowed, or boxed.

use vstd::prelude::*;
use crate::decl::{
    first_failure, first_field, lemma_first_failure_prefix, Diagnostic, DiagnosticView, EnumDecl,
    EnumDeclView, VariantView,
};
use crate::expansion::{diagnostic_views, failures, successes, Expansion, ExpansionView};
use crate::generated::{
    arm_views, method_views, Arm, ArmBody, ArmBodyView, ArmView, Method, MethodView,
};
use crate::signature::{MethodSig, MethodSigView, Param, ParamView};
use crate::parse::{enum_of, lower_error, parse_enum, SyntaxError, SyntaxErrorView};
use crate::syntax::{
    parse_path_list, parsed_paths, path_model, path_models, path_target, path_tokens, snake_case,
    to_snake_case, PathView,
};

verus! {

/// A path that names a trait. `text` holds the tokens of the whole path,
/// `target` the identifier of its last segment.
#[derive(Debug, PartialEq, Eq)]
pub struct CapabilityPath {
    pub text: String,
    pub target: String,
}

pub struct CapabilityPathView {
    pub text: Seq<char>,
    pub target: Seq<char>,
}

impl View for CapabilityPath {
    type V = CapabilityPathView;

    open spec fn view(&self) -> CapabilityPathView {
        CapabilityPathView { text: self.text@, target: self.target@ }
    }
}

pub open spec fn capability_path_views(paths: Seq<CapabilityPath>) -> Seq<CapabilityPathView> {
    paths.map_values(|p: CapabilityPath| p@)
}

/// The three ways in which the first field is handed out.
#[derive(Clone, Copy, Debug, PartialEq, Eq, Structural)]
pub enum Projection {
    Borrow,
    BorrowMut,
    Owned,
}

impl Projection {
    /// The name of the projection's method for a trait whose name has the
    /// snake case `fragment`.
    pub open spec fn name_spec(self, fragment: Seq<char>) -> Seq<char> {
        match self {
            Projection::Borrow => "as_dyn_"@ + fragment,
            Projection::BorrowMut => "as_dyn_"@ + fragment + "_mut"@,
            Projection::Owned => "into_dyn_"@ + fragment,
        }
    }

    pub open spec fn receiver_spec(self) -> Seq<char> {
        match self {
            Projection::Borrow => "&self"@,
            Projection::BorrowMut => "&mut self"@,
            Projection::Owned => "self"@,
        }
    }

    /// The arrow and the type of the handle to the trait `path`.
    pub open spec fn output_spec(self, path: Seq<char>) -> Seq<char> {
        match self {
            Projection::Borrow => "-> & dyn "@ + path,
            Projection::BorrowMut => "-> & mut dyn "@ + path,
            Projection::Owned => "-> Box < dyn "@ + path + " >"@,
        }
    }

    /// What each arm does with the bound first field: the borrowing
    /// projections coerce it as it is, the owning one boxes it first.
    pub open spec fn body_spec(self) -> ArmBodyView {
        match self {
            Projection::Owned => ArmBodyView::BoxedUpcast,
            _ => ArmBodyView::Upcast,
        }
    }

    pub open spec fn signature_spec(self, path: Seq<char>, fragment: Seq<char>) -> MethodSigView {
        MethodSigView {
            vis: Seq::empty(),
            qualifiers: Seq::empty(),
            name: self.name_spec(fragment),
            generics: Seq::empty(),
            params: seq![ParamView::Receiver { text: self.receiver_spec() }],
            variadic: Seq::empty(),
            output: self.output_spec(path),
            where_clause: Seq::empty(),
        }
    }

    /// The method's name.
    pub fn name(&self, fragment: &str) -> (name: String)
        ensures
            name@ == self.name_spec(fragment@),
    {
        match self {
            Projection::Borrow => {
                let mut name = "as_dyn_".to_owned();
                name.append(fragment);
                name
            },
            Projection::BorrowMut => {
                let mut name = "as_dyn_".to_owned();
                name.append(fragment);
                name.append("_mut");
                name
            },
            Projection::Owned => {
                let mut name = "into_dyn_".to_owned();
                name.append(fragment);
                name
            },
        }
    }

    /// The method's signature.
    pub fn signature(&self, path: &str, fragment: &str) -> (sig: MethodSig)
        ensures
            sig@ == self.signature_spec(path@, fragment@),
    {
        let (receiver, output) = match self {
            Projection::Borrow => {
                let mut output = "-> & dyn ".to_owned();
                output.append(path);
                ("&self".to_owned(), output)
            },
            Projection::BorrowMut => {
                let mut output = "-> & mut dyn ".to_owned();
                output.append(path);
                ("&mut self".to_owned(), output)
            },
            Projection::Owned => {
                let mut output = "-> Box < dyn ".to_owned();
                output.append(path);
                output.append(" >");
                ("self".to_owned(), output)
            },
        };
        let mut params: Vec<Param> = Vec::new();
        params.push(Param::Receiver { text: receiver });
        let sig = MethodSig {
            vis: String::new(),
            qualifiers: String::new(),
            name: self.name(fragment),
            generics: String::new(),
            params,
            variadic: String::new(),
            output,
            where_clause: String::new(),
        };
        assert(sig@.params =~= self.signature_spec(path@, fragment@).params);
        sig
    }
}

/// The arm that hands out the first field of one variant.
pub open spec fn projection_arm(variant: VariantView, body: ArmBodyView) -> ArmView
    recommends
        variant.fields.first() is Ok,
{
    ArmView { variant: variant.name, field: variant.fields.first()->Ok_0.name, body }
}

/// One projection arm for each variant, in declaration order.
pub open spec fn projection_arms(variants: Seq<VariantView>, body: ArmBodyView) -> Seq<ArmView> {
    variants.map_values(|v: VariantView| projection_arm(v, body))
}

/// The method of one projection to the trait `path`, on an enum whose
/// variants all have a first field.
pub open spec fn projection_method(
    projection: Projection,
    path: Seq<char>,
    fragment: Seq<char>,
    variants: Seq<VariantView>,
) -> MethodView {
    MethodView {
        signature: projection.signature_spec(path, fragment),
        arms: projection_arms(variants, projection.body_spec()),
    }
}

/// The three methods generated for one trait.
#[derive(Debug, PartialEq, Eq)]
pub struct Projections {
    pub borrow: Method,
    pub borrow_mut: Method,
    pub owned: Method,
}

pub struct ProjectionsView {
    pub borrow: MethodView,
    pub borrow_mut: MethodView,
    pub owned: MethodView,
}

impl View for Projections {
    type V = ProjectionsView;

    open spec fn view(&self) -> ProjectionsView {
        ProjectionsView {
            borrow: self.borrow@,
            borrow_mut: self.borrow_mut@,
            owned: self.owned@,
        }
    }
}

/// The projections to the trait `path` whose method names are built on
/// `fragment`, or the first variant that has no field to hand out.
pub open spec fn projections(path: Seq<char>, fragment: Seq<char>, decl: EnumDeclView) -> Result<
    ProjectionsView,
    DiagnosticView,
> {
    match first_failure(decl.variants) {
        Some(d) => Err(d),
        None => Ok(
            ProjectionsView {
                borrow: projection_method(Projection::Borrow, path, fragment, decl.variants),
                borrow_mut: projection_method(Projection::BorrowMut, path, fragment, decl.variants),
                owned: projection_method(Projection::Owned, path, fragment, decl.variants),
            },
        ),
    }
}

/// Builds the arms of the borrowing projections and those of the owning one:
/// for each variant an arm that binds its first field and coerces it, the
/// owning arm after moving it into a box. If a variant has no field, nothing
/// is built and the first such variant is reported.
pub fn make_arms(decl: &EnumDecl) -> (r: Result<(Vec<Arm>, Vec<Arm>), Diagnostic>)
    ensures
        match r {
            Ok((as_arms, into_arms)) => {
                &&& first_failure(decl@.variants) is None
                &&& arm_views(as_arms@) == projection_arms(
                    decl@.variants,
                    ArmBodyView::Upcast,
                )
                &&& arm_views(into_arms@) == projection_arms(
                    decl@.variants,
                    ArmBodyView::BoxedUpcast,
                )
            },
            Err(d) => first_failure(decl@.variants) == Some(d@),
        },
{
    let n = decl.variants.len();
    let mut as_arms: Vec<Arm> = Vec::new();
    let mut into_arms: Vec<Arm> = Vec::new();
    let mut i: usize = 0;
    assert(decl@.variants.take(0) =~= Seq::<VariantView>::empty());
    while i < n
        invariant
            i <= n,
            n == decl.variants.len(),
            as_arms.len() == i,
            into_arms.len() == i,
            first_failure(decl@.variants.take(i as int)) is None,
            forall|j: int|
                0 <= j < i ==> (#[trigger] as_arms[j])@ == projection_arm(
                    decl@.variants[j],
                    ArmBodyView::Upcast,
                ),
            forall|j: int|
                0 <= j < i ==> (#[trigger] into_arms[j])@ == projection_arm(
                    decl@.variants[j],
                    ArmBodyView::BoxedUpcast,
                ),
        decreases n - i,
    {
        let variant = &decl.variants[i];
        proof {
            let next = decl@.variants.take(i + 1);
            assert(next.drop_last() =~= decl@.variants.take(i as int));
            assert(next.last() == variant@);
        }
        match first_field(variant) {
            Ok(first) => {
                as_arms.push(
                    Arm {
                        variant: variant.name.clone(),
                        field: first.name_copy(),
                        body: ArmBody::Upcast,
                    },
                );
                into_arms.push(
                    Arm {
                        variant: variant.name.clone(),
                        field: first.name_copy(),
                        body: ArmBody::BoxedUpcast,
                    },
                );
            },
            Err(error) => {
                proof {
                    lemma_first_failure_prefix(decl@.variants, i + 1);
                }
                return Err(Diagnostic { variant: i, error });
            },
        }
        i = i + 1;
    }
    assert(decl@.variants.take(n as int) =~= decl@.variants);
    assert(arm_views(as_arms@) =~= projection_arms(
        decl@.variants,
        ArmBodyView::Upcast,
    ));
    assert(arm_views(into_arms@) =~= projection_arms(
        decl@.variants,
        ArmBodyView::BoxedUpcast,
    ));
    Ok((as_arms, into_arms))
}

/// Builds the three projections to the trait `path`, their names made of
/// `fragment`: `as_dyn_<fragment>`, `as_dyn_<fragment>_mut` and
/// `into_dyn_<fragment>`.
pub fn make_projections(path: &str, fragment: &str, decl: &EnumDecl) -> (r: Result<
    Projections,
    Diagnostic,
>)
    ensures
        match r {
            Ok(p) => projections(path@, fragment@, decl@) == Ok::<ProjectionsView, DiagnosticView>(
                p@,
            ),
            Err(d) => projections(path@, fragment@, decl@) == Err::<
                ProjectionsView,
                DiagnosticView,
            >(d@),
        },
{
    let (as_arms, into_arms) = match make_arms(decl) {
        Ok(arms) => arms,
        Err(d) => {
            return Err(d);
        },
    };
    let mut_arms = match make_arms(decl) {
        Ok((arms, _)) => arms,
        Err(d) => {
            return Err(d);
        },
    };
    Ok(
        Projections {
            borrow: Method {
                signature: Projection::Borrow.signature(path, fragment),
                arms: as_arms,
            },
            borrow_mut: Method {
                signature: Projection::BorrowMut.signature(path, fragment),
                arms: mut_arms,
            },
            owned: Method {
                signature: Projection::Owned.signature(path, fragment),
                arms: into_arms,
            },
        },
    )
}

/// Builds the three projections to the trait named by `path`. The method
/// names are made of the snake case of the path's last segment.
pub fn make_impl(path: &CapabilityPath, decl: &EnumDecl) -> (r: Result<Projections, Diagnostic>)
    ensures
        match r {
            Ok(p) => projections(path@.text, snake_case(path@.target), decl@) == Ok::<
                ProjectionsView,
                DiagnosticView,
            >(p@),
            Err(d) => projections(path@.text, snake_case(path@.target), decl@) == Err::<
                ProjectionsView,
                DiagnosticView,
            >(d@),
        },
{
    let fragment = to_snake_case(path.target.as_str());
    make_projections(path.text.as_str(), fragment.as_str(), decl)
}

/// The error for a path without a segment.
pub open spec fn empty_path() -> SyntaxErrorView {
    SyntaxErrorView { message: "empty path"@ }
}

/// The trait path that one parsed path stands for. A path without a segment
/// names no trait.
pub open spec fn path_of(path: PathView) -> Result<CapabilityPathView, SyntaxErrorView> {
    match path.target {
        Some(target) => Ok(CapabilityPathView { text: path.text, target }),
        None => Err(empty_path()),
    }
}

/// The trait paths that the parsed paths stand for, in order, or the error
/// of the first one that stands for none.
pub open spec fn lowered_paths(paths: Seq<PathView>) -> Result<
    Seq<CapabilityPathView>,
    SyntaxErrorView,
>
    decreases paths.len(),
{
    if paths.len() == 0 {
        Ok(Seq::empty())
    } else {
        match lowered_paths(paths.drop_last()) {
            Err(e) => Err(e),
            Ok(init) => match path_of(paths.last()) {
                Ok(p) => Ok(init.push(p)),
                Err(e) => Err(e),
            },
        }
    }
}

/// An error among the first paths is the error of the whole list.
proof fn lemma_lowered_paths_prefix(paths: Seq<PathView>, k: int)
    requires
        0 <= k <= paths.len(),
        lowered_paths(paths.take(k)) is Err,
    ensures
        lowered_paths(paths) == lowered_paths(paths.take(k)),
    decreases paths.len() - k,
{
    if k < paths.len() {
        assert(paths.take(k + 1).drop_last() =~= paths.take(k));
        lemma_lowered_paths_prefix(paths, k + 1);
    } else {
        assert(paths.take(k) =~= paths);
    }
}

/// The trait paths that the text `args` lists, or its syntax error.
pub open spec fn paths_of(args: Seq<char>) -> Result<Seq<CapabilityPathView>, SyntaxErrorView> {
    match parsed_paths(args) {
        Err(message) => Err(SyntaxErrorView { message }),
        Ok(paths) => lowered_paths(paths),
    }
}

fn lower_path(path: &syn::Path) -> (r: Result<CapabilityPath, SyntaxError>)
    ensures
        match r {
            Ok(p) => path_of(path_model(*path)) == Ok::<CapabilityPathView, SyntaxErrorView>(p@),
            Err(e) => path_of(path_model(*path)) == Err::<CapabilityPathView, SyntaxErrorView>(
                e@,
            ),
        },
{
    match path_target(path) {
        Some(target) => Ok(CapabilityPath { text: path_tokens(path), target }),
        None => Err(SyntaxError { message: "empty path".to_owned(), line: 0, column: 0 }),
    }
}

/// The traits that projections are asked for, in the order in which they
/// were written.
#[derive(Debug, PartialEq, Eq)]
pub struct Paths(pub Vec<CapabilityPath>);

impl View for Paths {
    type V = Seq<CapabilityPathView>;

    open spec fn view(&self) -> Seq<CapabilityPathView> {
        capability_path_views(self.0@)
    }
}

impl Paths {
    /// Parses `args` as paths with commas between them; a comma may follow
    /// the last one. The order of the list is kept.
    pub fn parse(args: &str) -> (r: Result<Paths, SyntaxError>)
        ensures
            match r {
                Ok(paths) => paths_of(args@) == Ok::<Seq<CapabilityPathView>, SyntaxErrorView>(
                    paths@,
                ),
                Err(e) => paths_of(args@) == Err::<Seq<CapabilityPathView>, SyntaxErrorView>(e@),
            },
    {
        let parsed = match parse_path_list(args) {
            Ok(parsed) => parsed,
            Err(e) => {
                return Err(lower_error(&e));
            },
        };
        let n = parsed.len();
        let mut paths: Vec<CapabilityPath> = Vec::new();
        let mut i: usize = 0;
        let ghost models = path_models(parsed@);
        assert(models.take(0) =~= Seq::<PathView>::empty());
        assert(capability_path_views(paths@) =~= Seq::<CapabilityPathView>::empty());
        while i < n
            invariant
                i <= n,
                n == parsed.len(),
                models == path_models(parsed@),
                paths_of(args@) == lowered_paths(models),
                lowered_paths(models.take(i as int)) == Ok::<
                    Seq<CapabilityPathView>,
                    SyntaxErrorView,
                >(capability_path_views(paths@)),
            decreases n - i,
        {
            let ghost done = capability_path_views(paths@);
            proof {
                let next = models.take(i + 1);
                assert(next.drop_last() =~= models.take(i as int));
                assert(next.last() == path_model(parsed[i as int]));
            }
            match lower_path(&parsed[i]) {
                Ok(path) => {
                    paths.push(path);
                    assert(capability_path_views(paths@) =~= done.push(path@));
                },
                Err(e) => {
                    proof {
                        lemma_lowered_paths_prefix(models, i + 1);
                    }
                    return Err(e);
                },
            }
            i = i + 1;
        }
        assert(models.take(n as int) =~= models);
        Ok(Paths(paths))
    }
}

/// What each of the paths gives on the enum `decl`, in order.
pub open spec fn projection_results(paths: Seq<CapabilityPathView>, decl: EnumDeclView) -> Seq<
    Result<ProjectionsView, DiagnosticView>,
> {
    paths.map_values(|p: CapabilityPathView| projections(p.text, snake_case(p.target), decl))
}

/// The methods of all the projections in one list: for each trait the
/// borrowing, the mutably borrowing and the owning one.
pub open spec fn flattened(all: Seq<ProjectionsView>) -> Seq<MethodView>
    decreases all.len(),
{
    if all.len() == 0 {
        Seq::empty()
    } else {
        flattened(all.drop_last()).push(all.last().borrow).push(all.last().borrow_mut).push(
            all.last().owned,
        )
    }
}

/// The expansion for the traits `paths` on the enum `decl`, whose text is
/// `item`: three methods for each trait that gives them, a diagnostic for
/// each that gives none, both in the order of the traits.
pub open spec fn projection_expansion(
    item: Seq<char>,
    paths: Seq<CapabilityPathView>,
    decl: EnumDeclView,
) -> ExpansionView {
    let results = projection_results(paths, decl);
    ExpansionView {
        item,
        name: decl.name,
        generics: decl.generics,
        methods: flattened(successes(results)),
        diagnostics: failures(results),
    }
}

/// Builds the three projections to each of `paths` on the enum `decl`.
///
/// A trait that fails adds its diagnostic and no method, and does not keep
/// the others from being built. `item` is the text of the enum, which the
/// expansion emits unchanged.
pub fn expand_projections(item: &str, paths: &Paths, decl: &EnumDecl) -> (x: Expansion)
    ensures
        x@ == projection_expansion(item@, paths@, decl@),
{
    let ghost results = projection_results(paths@, decl@);
    let n = paths.0.len();
    let mut built: Vec<Method> = Vec::new();
    let mut diagnostics: Vec<Diagnostic> = Vec::new();
    let mut i: usize = 0;
    assert(results.take(0) =~= Seq::<Result<ProjectionsView, DiagnosticView>>::empty());
    assert(method_views(built@) =~= Seq::<MethodView>::empty());
    assert(diagnostic_views(diagnostics@) =~= Seq::<DiagnosticView>::empty());
    while i < n
        invariant
            i <= n,
            n == paths.0.len(),
            results == projection_results(paths@, decl@),
            method_views(built@) == flattened(successes(results.take(i as int))),
            diagnostic_views(diagnostics@) == failures(results.take(i as int)),
        decreases n - i,
    {
        let ghost methods_before = method_views(built@);
        let ghost diagnostics_before = diagnostic_views(diagnostics@);
        let ghost done = successes(results.take(i as int));
        proof {
            let next = results.take(i + 1);
            assert(next.drop_last() =~= results.take(i as int));
            assert(next.last() == projections(
                paths.0[i as int]@.text,
                snake_case(paths.0[i as int]@.target),
                decl@,
            ));
        }
        match make_impl(&paths.0[i], decl) {
            Ok(p) => {
                let ghost view = p@;
                let Projections { borrow, borrow_mut, owned } = p;
                built.push(borrow);
                built.push(borrow_mut);
                built.push(owned);
                proof {
                    assert(done.push(view).drop_last() =~= done);
                    assert(method_views(built@) =~= methods_before.push(view.borrow).push(
                        view.borrow_mut,
                    ).push(view.owned));
                }
            },
            Err(diagnostic) => {
                diagnostics.push(diagnostic);
                assert(diagnostic_views(diagnostics@) =~= diagnostics_before.push(diagnostic@));
            },
        }
        i = i + 1;
    }
    assert(results.take(n as int) =~= results);
    Expansion {
        item: item.to_owned(),
        name: decl.name.clone(),
        generics: decl.generics.duplicate(),
        methods: built,
        diagnostics,
    }
}

/// The expansion for the trait list `args` on the enum declared by `input`.
/// Text that does not parse gives a syntax error and nothing else; the list
/// is read before the enum.
pub open spec fn as_dyn_of(args: Seq<char>, input: Seq<char>) -> Result<
    ExpansionView,
    SyntaxErrorView,
> {
    match paths_of(args) {
        Err(e) => Err(e),
        Ok(paths) => match enum_of(input) {
            Err(e) => Err(e),
            Ok(decl) => Ok(projection_expansion(input, paths, decl)),
        },
    }
}

/// Expands the attribute: `args` is the list of traits, `input` the enum it
/// stands on.
///
/// Both are parsed, then the three projections are built for each trait.
/// The result holds the enum unchanged, the methods that could be built and
/// a diagnostic for each trait that failed.
pub fn as_dyn_impl(args: &str, input: &str) -> (r: Result<Expansion, SyntaxError>)
    ensures
        match r {
            Ok(x) => as_dyn_of(args@, input@) == Ok::<ExpansionView, SyntaxErrorView>(x@),
            Err(e) => as_dyn_of(args@, input@) == Err::<ExpansionView, SyntaxErrorView>(e@),
        },
{
    let paths = match Paths::parse(args) {
        Ok(paths) => paths,
        Err(e) => {
            return Err(e);
        },
    };
    let decl = match parse_enum(input) {
        Ok(decl) => decl,
        Err(e) => {
            return Err(e);
        },
    };
    Ok(expand_projections(input, &paths, &decl))
}

} // verus!
