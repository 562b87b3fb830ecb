//! What holds of every expansion, stated over the models of the generators.

use vstd::prelude::*;
use crate::as_dyn::{
    flattened, projection_arm, projection_expansion, projection_results, projections,
    CapabilityPathView, ProjectionsView,
};
use crate::decl::{
    first_failure, lemma_first_failure_least, DiagnosticView, EnumDeclView, FieldShape, FieldView,
    FieldsView, StructuralError, VariantView,
};
use crate::expansion::{failures, successes};
use crate::generated::{select_from, ArmBodyView, ArmView, MethodView};
use crate::signature::{binding, borrowed_receiver, MethodSigView, ParamView};
use crate::syntax::snake_case;
use crate::with_methods::{forwarding_expansion, forwarding_method, forwarding_results};

verus! {

/// Every variant has a first field.
pub open spec fn all_have_fields(variants: Seq<VariantView>) -> bool {
    forall|i: int| 0 <= i < variants.len() ==> (#[trigger] variants[i]).fields.first() is Ok
}

/// No two variants have the same name, as the language asks of an enum.
pub open spec fn distinct_names(variants: Seq<VariantView>) -> bool {
    forall|i: int, j: int|
        0 <= i < j < variants.len() ==> (#[trigger] variants[i]).name != (
        #[trigger] variants[j]).name
}

/// The position, among `fields`, of the field that a pattern binds: the
/// first field of the name `field` where the pattern goes by name, from
/// `start` on; the first of all where it goes by position.
pub open spec fn bound_position(field: Option<Seq<char>>, fields: Seq<FieldView>, start: int)
    -> Option<int>
    decreases fields.len() - start,
{
    if start < 0 || start >= fields.len() {
        None
    } else {
        match field {
            None => Some(start),
            Some(name) => if fields[start].name == Some(name) {
                Some(start)
            } else {
                bound_position(field, fields, start + 1)
            },
        }
    }
}

/// A value of the enum, as far as dispatch looks into it: which variant is
/// active, and what each field of that variant holds.
pub struct EnumValue<V> {
    pub variant: int,
    pub fields: Seq<V>,
}

impl<V> EnumValue<V> {
    /// Whether the value is one of the enum `decl`.
    pub open spec fn fits(self, decl: EnumDeclView) -> bool {
        &&& 0 <= self.variant < decl.variants.len()
        &&& self.fields.len() == decl.variants[self.variant].fields.list().len()
    }

    /// The value after `x` was written to the field at `position`.
    pub open spec fn written(self, position: int, x: V) -> EnumValue<V> {
        EnumValue { variant: self.variant, fields: self.fields.update(position, x) }
    }
}

/// The field of `value` that `method` reaches: the one that the arm taken
/// for `value` binds, by its position among the fields of the active
/// variant.
pub open spec fn reached<V>(method: MethodView, decl: EnumDeclView, value: EnumValue<V>)
    -> Option<int> {
    if 0 <= value.variant < decl.variants.len() {
        let variant = decl.variants[value.variant];
        match method.select(variant.name) {
            Some(arm) => bound_position(method.arms[arm].field, variant.fields.list(), 0),
            None => None,
        }
    } else {
        None
    }
}

/// A variant has a first field exactly when its shape is not empty.
pub proof fn lemma_first_field_iff_shape(fields: FieldsView)
    ensures
        fields.first() is Err <==> fields.shape() == FieldShape::Empty,
        fields.first() matches Err(e) ==> (e == StructuralError::UnitVariant <==> fields
            is Unit),
{
}

/// Where the arms are one for each variant, in order, and the names are
/// distinct, a value of the variant at `k` takes the arm at `k`.
proof fn lemma_select(arms: Seq<ArmView>, variants: Seq<VariantView>, k: int, start: int)
    requires
        arms.len() == variants.len(),
        forall|i: int| 0 <= i < arms.len() ==> (#[trigger] arms[i]).variant == variants[i].name,
        distinct_names(variants),
        0 <= start <= k < variants.len(),
    ensures
        select_from(arms, variants[k].name, start) == Some(k),
    decreases k - start,
{
    if start < k {
        assert(arms[start].variant == variants[start].name);
        assert(variants[start].name != variants[k].name);
        lemma_select(arms, variants, k, start + 1);
    } else {
        assert(arms[k].variant == variants[k].name);
    }
}

/// Results that are all `Ok` have their values as successes and no failure.
proof fn lemma_all_ok<T, E>(results: Seq<Result<T, E>>)
    requires
        forall|i: int| 0 <= i < results.len() ==> (#[trigger] results[i]) is Ok,
    ensures
        successes(results).len() == results.len(),
        forall|i: int|
            0 <= i < results.len() ==> Ok::<T, E>(#[trigger] successes(results)[i]) == results[i],
        failures(results).len() == 0,
    decreases results.len(),
{
    if results.len() > 0 {
        let init = results.drop_last();
        assert(forall|i: int| 0 <= i < init.len() ==> init[i] == results[i]);
        lemma_all_ok(init);
        assert(results.last() is Ok);
    }
}

/// Results that are all `Err` have their errors as failures and no success.
proof fn lemma_all_err<T, E>(results: Seq<Result<T, E>>)
    requires
        forall|i: int| 0 <= i < results.len() ==> (#[trigger] results[i]) is Err,
    ensures
        failures(results).len() == results.len(),
        forall|i: int|
            0 <= i < results.len() ==> Err::<T, E>(#[trigger] failures(results)[i]) == results[i],
        successes(results).len() == 0,
    decreases results.len(),
{
    if results.len() > 0 {
        let init = results.drop_last();
        assert(forall|i: int| 0 <= i < init.len() ==> init[i] == results[i]);
        lemma_all_err(init);
        assert(results.last() is Err);
    }
}

/// Forwarding reaches the first field of the active variant.
///
/// On an enum whose variants all have a field, every signature gives a
/// method. Called on a value, the method takes the arm of the value's
/// variant; that arm binds the variant's first field, by its name where it
/// has one and by position otherwise, and its whole body is one call: of the
/// function that the signature names, on the declared type of that field,
/// with the bound field where the signature has its receiver and the other
/// parameters as they are. What the method returns is what that call
/// returns.
pub proof fn law_forwarding_dispatch<V>(
    sig: MethodSigView,
    decl: EnumDeclView,
    value: EnumValue<V>,
)
    requires
        all_have_fields(decl.variants),
        distinct_names(decl.variants),
        value.fits(decl),
    ensures
        forwarding_method(sig, decl) is Ok,
        ({
            let method = forwarding_method(sig, decl)->Ok_0;
            let k = value.variant;
            let first = decl.variants[k].fields.first()->Ok_0;
            &&& method.arms.len() == decl.variants.len()
            &&& method.select(decl.variants[k].name) == Some(k)
            &&& reached(method, decl, value) == Some(0int)
            &&& first == decl.variants[k].fields.list()[0]
            &&& method.arms[k].field == first.name
            &&& method.arms[k].body == ArmBodyView::Call {
                qualifier: first.ty,
                function: sig.name,
                args: sig.call_args(),
            }
            &&& sig.call_args().len() == sig.params.len()
            &&& forall|j: int|
                0 <= j < sig.params.len() ==> (#[trigger] sig.call_args()[j])
                    == sig.params[j].call_arg()
            &&& forall|j: int|
                0 <= j < sig.params.len() && (#[trigger] sig.params[j]) is Receiver
                    ==> sig.call_args()[j] == binding()
        }),
{
    lemma_first_failure_least(decl.variants);
    let method = forwarding_method(sig, decl)->Ok_0;
    lemma_select(method.arms, decl.variants, value.variant, 0);
    assert(decl.variants[value.variant].fields.first() is Ok);
}

/// A method is callable on a value whatever the signature: the generated
/// signature has a receiver. Where the requested one has none, the generated
/// one is the requested one behind `&self`, and the forwarded call passes
/// the requested parameters and nothing of the value.
pub proof fn law_generated_receiver(sig: MethodSigView, decl: EnumDeclView)
    requires
        all_have_fields(decl.variants),
    ensures
        forwarding_method(sig, decl) is Ok,
        forwarding_method(sig, decl)->Ok_0.signature.has_receiver(),
        forwarding_method(sig, decl)->Ok_0.signature.name == sig.name,
        forwarding_method(sig, decl)->Ok_0.signature.vis == sig.vis,
        forwarding_method(sig, decl)->Ok_0.signature.output == sig.output,
        sig.has_receiver() ==> forwarding_method(sig, decl)->Ok_0.signature == sig,
        !sig.has_receiver() ==> {
            &&& forwarding_method(sig, decl)->Ok_0.signature.params == seq![borrowed_receiver()]
                + sig.params
            &&& forall|j: int|
                0 <= j < sig.params.len() ==> (#[trigger] sig.params[j]) is Typed
                    && sig.call_args()[j] == sig.params[j]->pattern
        },
{
    lemma_first_failure_least(decl.variants);
    let generated = forwarding_method(sig, decl)->Ok_0.signature;
    if !sig.has_receiver() {
        assert(generated.params[0] is Receiver);
        assert forall|j: int| 0 <= j < sig.params.len() implies (#[trigger] sig.params[j])
            is Typed by {
            if sig.params[j] is Receiver {
                assert(sig.has_receiver());
            }
        }
    }
}

/// Projections reach the first field of the active variant.
///
/// On an enum whose variants all have a field, every trait gives its three
/// methods. Called on a value, each takes the arm of the value's variant,
/// which binds the variant's first field. The borrowing ones hand out that
/// very field, coerced to the trait; the owning one moves it into a box
/// first. Each returns the handle to the trait that was asked for, so a
/// call through the handle is a call on the first field.
pub proof fn law_projection_dispatch<V>(
    path: CapabilityPathView,
    decl: EnumDeclView,
    value: EnumValue<V>,
)
    requires
        all_have_fields(decl.variants),
        distinct_names(decl.variants),
        value.fits(decl),
    ensures
        projections(path.text, snake_case(path.target), decl) is Ok,
        ({
            let p = projections(path.text, snake_case(path.target), decl)->Ok_0;
            let k = value.variant;
            let name = decl.variants[k].name;
            let first = decl.variants[k].fields.first()->Ok_0;
            &&& p.borrow.select(name) == Some(k)
            &&& p.borrow_mut.select(name) == Some(k)
            &&& p.owned.select(name) == Some(k)
            &&& reached(p.borrow, decl, value) == Some(0int)
            &&& reached(p.borrow_mut, decl, value) == Some(0int)
            &&& reached(p.owned, decl, value) == Some(0int)
            &&& first == decl.variants[k].fields.list()[0]
            &&& p.borrow.arms[k] == projection_arm(decl.variants[k], ArmBodyView::Upcast)
            &&& p.borrow_mut.arms[k] == projection_arm(decl.variants[k], ArmBodyView::Upcast)
            &&& p.owned.arms[k] == projection_arm(decl.variants[k], ArmBodyView::BoxedUpcast)
            &&& projection_arm(decl.variants[k], ArmBodyView::Upcast).field == first.name
            &&& projection_arm(decl.variants[k], ArmBodyView::Upcast).variant == name
            &&& p.borrow.signature.output == "-> & dyn "@ + path.text
            &&& p.borrow_mut.signature.output == "-> & mut dyn "@ + path.text
            &&& p.owned.signature.output == "-> Box < dyn "@ + path.text + " >"@
            &&& p.borrow.signature.params == seq![ParamView::Receiver { text: "&self"@ }]
            &&& p.borrow_mut.signature.params == seq![ParamView::Receiver { text: "&mut self"@ }]
            &&& p.owned.signature.params == seq![ParamView::Receiver { text: "self"@ }]
        }),
{
    lemma_first_failure_least(decl.variants);
    let p = projections(path.text, snake_case(path.target), decl)->Ok_0;
    let k = value.variant;
    lemma_select(p.borrow.arms, decl.variants, k, 0);
    lemma_select(p.borrow_mut.arms, decl.variants, k, 0);
    lemma_select(p.owned.arms, decl.variants, k, 0);
    assert(decl.variants[k].fields.first() is Ok);
}

/// A write through the mutable handle shows through the borrowed one.
///
/// The two borrowing projections have the same arms: for a value of any
/// variant both bind the first field of that value and hand it out as it
/// is, without a copy and without a call in between. So after `x` was
/// written to the field that the mutable projection reaches, the field that
/// the borrowing projection reaches holds `x`.
pub proof fn law_write_shows_through<V>(
    path: CapabilityPathView,
    decl: EnumDeclView,
    value: EnumValue<V>,
    x: V,
)
    requires
        all_have_fields(decl.variants),
        distinct_names(decl.variants),
        value.fits(decl),
    ensures
        projections(path.text, snake_case(path.target), decl) is Ok,
        ({
            let p = projections(path.text, snake_case(path.target), decl)->Ok_0;
            let after = value.written(0, x);
            &&& p.borrow.arms == p.borrow_mut.arms
            &&& forall|i: int|
                0 <= i < p.borrow.arms.len() ==> (#[trigger] p.borrow.arms[i]).body
                    == ArmBodyView::Upcast
            &&& reached(p.borrow_mut, decl, value) == Some(0int)
            &&& after.fits(decl)
            &&& reached(p.borrow, decl, after) == Some(0int)
            &&& reached(p.owned, decl, after) == Some(0int)
            &&& after.fields[0] == x
        }),
{
    lemma_first_failure_least(decl.variants);
    let p = projections(path.text, snake_case(path.target), decl)->Ok_0;
    let k = value.variant;
    lemma_select(p.borrow.arms, decl.variants, k, 0);
    lemma_select(p.borrow_mut.arms, decl.variants, k, 0);
    lemma_select(p.owned.arms, decl.variants, k, 0);
    assert(decl.variants[k].fields.first() is Ok);
}

/// A variant without a field is refused, never passed over.
///
/// If the variant at `k` has the empty shape, no signature and no trait
/// gives a method on the enum. Each gives the same diagnostic instead: it
/// names the first variant of the empty shape, which is `k` or stands before
/// it, and says whether that variant lacks a field list or has an empty one.
pub proof fn law_empty_variant_refused(
    sig: MethodSigView,
    path: CapabilityPathView,
    decl: EnumDeclView,
    k: int,
)
    requires
        0 <= k < decl.variants.len(),
        decl.variants[k].fields.shape() == FieldShape::Empty,
    ensures
        forwarding_method(sig, decl) is Err,
        projections(path.text, snake_case(path.target), decl) is Err,
        forwarding_method(sig, decl)->Err_0 == projections(
            path.text,
            snake_case(path.target),
            decl,
        )->Err_0,
        ({
            let d = forwarding_method(sig, decl)->Err_0;
            &&& 0 <= d.variant <= k
            &&& decl.variants[d.variant].fields.shape() == FieldShape::Empty
            &&& forall|i: int|
                0 <= i < d.variant ==> (#[trigger] decl.variants[i]).fields.shape()
                    != FieldShape::Empty
            &&& d.error == StructuralError::UnitVariant <==> decl.variants[d.variant].fields
                is Unit
            &&& d.error == StructuralError::NoFields <==> !(decl.variants[d.variant].fields
                is Unit)
        }),
{
    lemma_first_failure_least(decl.variants);
    lemma_first_field_iff_shape(decl.variants[k].fields);
    let d = first_failure(decl.variants)->Some_0;
    lemma_first_field_iff_shape(decl.variants[d.variant].fields);
    assert forall|i: int| 0 <= i < d.variant implies (#[trigger] decl.variants[i]).fields.shape()
        != FieldShape::Empty by {
        lemma_first_field_iff_shape(decl.variants[i].fields);
    }
    if d.variant > k {
        assert(decl.variants[k].fields.first() is Ok);
    }
}

/// One variant without a field fails every request of an expansion, each
/// with a diagnostic of its own, and leaves the block without a method.
pub proof fn law_failures_are_collected(
    item: Seq<char>,
    sigs: Seq<MethodSigView>,
    paths: Seq<CapabilityPathView>,
    decl: EnumDeclView,
    k: int,
)
    requires
        0 <= k < decl.variants.len(),
        decl.variants[k].fields.shape() == FieldShape::Empty,
    ensures
        forwarding_expansion(item, sigs, decl).methods.len() == 0,
        forwarding_expansion(item, sigs, decl).diagnostics.len() == sigs.len(),
        projection_expansion(item, paths, decl).methods.len() == 0,
        projection_expansion(item, paths, decl).diagnostics.len() == paths.len(),
        forall|i: int|
            0 <= i < sigs.len() ==> Some(
                #[trigger] forwarding_expansion(item, sigs, decl).diagnostics[i],
            ) == first_failure(decl.variants),
        forall|i: int|
            0 <= i < paths.len() ==> Some(
                #[trigger] projection_expansion(item, paths, decl).diagnostics[i],
            ) == first_failure(decl.variants),
        forwarding_expansion(item, sigs, decl).item == item,
        projection_expansion(item, paths, decl).item == item,
{
    lemma_first_failure_least(decl.variants);
    lemma_first_field_iff_shape(decl.variants[k].fields);
    let forwarded = forwarding_results(sigs, decl);
    lemma_all_err(forwarded);
    let projected = projection_results(paths, decl);
    lemma_all_err(projected);
    assert(successes(projected) =~= Seq::<ProjectionsView>::empty());
}

/// On an enum whose variants all have a field nothing fails, and the
/// methods stand in the block in the order of the requests: one for each
/// signature, three for each trait.
pub proof fn law_methods_keep_order(
    item: Seq<char>,
    sigs: Seq<MethodSigView>,
    paths: Seq<CapabilityPathView>,
    decl: EnumDeclView,
)
    requires
        all_have_fields(decl.variants),
    ensures
        forwarding_expansion(item, sigs, decl).diagnostics.len() == 0,
        forwarding_expansion(item, sigs, decl).methods.len() == sigs.len(),
        forall|i: int|
            0 <= i < sigs.len() ==> Ok::<MethodView, DiagnosticView>(
                #[trigger] forwarding_expansion(item, sigs, decl).methods[i],
            ) == forwarding_method(sigs[i], decl),
        projection_expansion(item, paths, decl).diagnostics.len() == 0,
        projection_expansion(item, paths, decl).methods.len() == 3 * paths.len(),
        forall|i: int|
            #![trigger paths[i]]
            0 <= i < paths.len() ==> {
                let p = projections(paths[i].text, snake_case(paths[i].target), decl)->Ok_0;
                let methods = projection_expansion(item, paths, decl).methods;
                &&& methods[3 * i] == p.borrow
                &&& methods[3 * i + 1] == p.borrow_mut
                &&& methods[3 * i + 2] == p.owned
            },
{
    lemma_first_failure_least(decl.variants);
    let forwarded = forwarding_results(sigs, decl);
    lemma_all_ok(forwarded);
    let projected = projection_results(paths, decl);
    lemma_all_ok(projected);
    lemma_flattened(successes(projected));
    assert forall|i: int| #![trigger paths[i]] 0 <= i < paths.len() implies ({
        let p = projections(paths[i].text, snake_case(paths[i].target), decl)->Ok_0;
        let methods = projection_expansion(item, paths, decl).methods;
        &&& methods[3 * i] == p.borrow
        &&& methods[3 * i + 1] == p.borrow_mut
        &&& methods[3 * i + 2] == p.owned
    }) by {
        assert(Ok::<ProjectionsView, DiagnosticView>(successes(projected)[i]) == projected[i]);
        assert(flattened(successes(projected))[3 * i] == successes(projected)[i].borrow);
    }
}

/// The flattened list holds three methods for each trait, at three times the
/// trait's index.
proof fn lemma_flattened(all: Seq<ProjectionsView>)
    ensures
        flattened(all).len() == 3 * all.len(),
        forall|i: int|
            #![trigger all[i]]
            0 <= i < all.len() ==> {
                &&& flattened(all)[3 * i] == all[i].borrow
                &&& flattened(all)[3 * i + 1] == all[i].borrow_mut
                &&& flattened(all)[3 * i + 2] == all[i].owned
            },
    decreases all.len(),
{
    if all.len() > 0 {
        let init = all.drop_last();
        lemma_flattened(init);
        assert forall|i: int| #![trigger all[i]] 0 <= i < all.len() implies ({
            &&& flattened(all)[3 * i] == all[i].borrow
            &&& flattened(all)[3 * i + 1] == all[i].borrow_mut
            &&& flattened(all)[3 * i + 2] == all[i].owned
        }) by {
            if i < init.len() {
                assert(init[i] == all[i]);
            }
        }
    }
}

/// The names of the generated methods depend on the last segment alone.
///
/// Two paths with the same last segment give the same three names, whatever
/// stands before the segment and whatever the enum; the names are
/// `as_dyn_`, `as_dyn_` … `_mut` and `into_dyn_` around the snake case of
/// the segment.
pub proof fn law_names_follow_last_segment(
    a: CapabilityPathView,
    b: CapabilityPathView,
    first: EnumDeclView,
    second: EnumDeclView,
)
    requires
        a.target == b.target,
        all_have_fields(first.variants),
        all_have_fields(second.variants),
    ensures
        projections(a.text, snake_case(a.target), first) is Ok,
        projections(b.text, snake_case(b.target), second) is Ok,
        ({
            let p = projections(a.text, snake_case(a.target), first)->Ok_0;
            let q = projections(b.text, snake_case(b.target), second)->Ok_0;
            &&& p.borrow.signature.name == q.borrow.signature.name
            &&& p.borrow_mut.signature.name == q.borrow_mut.signature.name
            &&& p.owned.signature.name == q.owned.signature.name
            &&& p.borrow.signature.name == "as_dyn_"@ + snake_case(a.target)
            &&& p.borrow_mut.signature.name == "as_dyn_"@ + snake_case(a.target) + "_mut"@
            &&& p.owned.signature.name == "into_dyn_"@ + snake_case(a.target)
        }),
{
    lemma_first_failure_least(first.variants);
    lemma_first_failure_least(second.variants);
}

} // verus!
