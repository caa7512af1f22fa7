//! Injection: given a callable's effective directive, produces the body
//! that actually runs.
//!
//! `Suppress` returns the original body unchanged — no guard, no cost,
//! no metric ever.  `Emit` prepends a single guard construction; the
//! original statements follow, unchanged and in order, as the remainder
//! of the same scope.  Injection never alters the original body's
//! semantics, return value, or error propagation: it only wraps.

use vstd::prelude::*;

use crate::declaration::Body;
use crate::declaration::Declaration;
use crate::declaration::DeclarationView;
use crate::declaration::FreeCallable;
use crate::declaration::GuardCall;
use crate::declaration::GuardCallView;
use crate::declaration::InstrumentedCallable;
use crate::declaration::InstrumentedCallableView;
use crate::declaration::InstrumentedCollection;
use crate::declaration::InstrumentedCollectionView;
use crate::declaration::InstrumentedDeclaration;
use crate::declaration::InstrumentedDeclarationView;
use crate::declaration::Method;
use crate::declaration::MethodCollection;
use crate::declaration::MethodCollectionView;
use crate::declaration::MethodView;
use crate::declaration::Stmt;
use crate::declaration::StmtView;
use crate::declaration::instrumented_view;
use crate::declaration::methods_view;
use crate::directive::ConstBinding;
use crate::directive::ConstBindingView;
use crate::directive::Directive;
use crate::directive::DirectiveView;
use crate::directive::EffectiveDirective;
use crate::directive::EffectiveDirectiveView;
use crate::directive::ResolutionError;
use crate::directive::env_view;
use crate::directive::opt_directive_view;
use crate::resolver::resolve_method;
use crate::resolver::resolve_standalone_directive;
use crate::resolver::spec_resolve_collection;
use crate::resolver::spec_resolve_member;
use crate::resolver::spec_resolve_standalone;

verus! {

/// The body produced by injection: unchanged under `Suppress`, and
/// under `Emit` the guard construction followed by the original body.
pub open spec fn spec_inject(
    effective: EffectiveDirectiveView,
    callable_name: Seq<char>,
    body: Seq<StmtView>,
) -> Seq<StmtView> {
    match effective {
        EffectiveDirectiveView::Suppress => body,
        EffectiveDirectiveView::Emit { metric_name, owner_type_name } => seq![
            StmtView::Guard(GuardCallView { metric_name, owner_type_name, callable_name }),
        ] + body,
    }
}

/// How many statements of a body construct a measurement guard.
pub open spec fn guard_count(body: Seq<StmtView>) -> nat
    decreases body.len(),
{
    if body.len() == 0 {
        0
    } else {
        (if body[0] is Guard {
            1nat
        } else {
            0nat
        }) + guard_count(body.skip(1))
    }
}

/// The instrumented form of a standalone callable's body.
pub open spec fn spec_instrument_standalone(
    env: Seq<ConstBindingView>,
    name: Seq<char>,
    own_directive: Option<DirectiveView>,
    body: Seq<StmtView>,
) -> Result<InstrumentedCallableView, ResolutionError> {
    match spec_resolve_standalone(env, own_directive) {
        Err(e) => Err(e),
        Ok(eff) => Ok(InstrumentedCallableView { name, body: spec_inject(eff, name, body) }),
    }
}

/// The instrumented form of one method within its collection.
pub open spec fn spec_instrument_method(
    env: Seq<ConstBindingView>,
    owner_type_name: Seq<char>,
    collection_directive: Option<DirectiveView>,
    method: MethodView,
) -> Result<InstrumentedCallableView, ResolutionError> {
    match spec_resolve_member(env, owner_type_name, collection_directive, method.own_directive) {
        Err(e) => Err(e),
        Ok(eff) => Ok(
            InstrumentedCallableView {
                name: method.name,
                body: spec_inject(eff, method.name, method.body),
            },
        ),
    }
}

/// The instrumented members of a collection, in member order, stopping
/// at the first member that fails to resolve.
pub open spec fn spec_instrument_members(
    env: Seq<ConstBindingView>,
    owner_type_name: Seq<char>,
    collection_directive: Option<DirectiveView>,
    members: Seq<MethodView>,
) -> Result<Seq<InstrumentedCallableView>, ResolutionError>
    decreases members.len(),
{
    if members.len() == 0 {
        Ok(Seq::empty())
    } else {
        match spec_instrument_members(env, owner_type_name, collection_directive,
            members.drop_last()) {
            Err(e) => Err(e),
            Ok(done) => match spec_instrument_method(env, owner_type_name, collection_directive,
                members.last()) {
                Err(e) => Err(e),
                Ok(m) => Ok(done.push(m)),
            },
        }
    }
}

/// The instrumented form of a whole collection: the opt-out check, then
/// every member in order.  No code is produced for a collection that
/// fails validation.
pub open spec fn spec_instrument_collection(
    env: Seq<ConstBindingView>,
    collection: MethodCollectionView,
) -> Result<InstrumentedCollectionView, ResolutionError> {
    if collection.collection_directive == Some(DirectiveView::Disabled) {
        Err(ResolutionError::DisableNotAllowedOnCollection)
    } else {
        match spec_instrument_members(
            env,
            collection.owner_type_name,
            collection.collection_directive,
            collection.members,
        ) {
            Err(e) => Err(e),
            Ok(members) => Ok(
                InstrumentedCollectionView {
                    owner_type_name: collection.owner_type_name,
                    members,
                },
            ),
        }
    }
}

/// The instrumented form of one declaration.
pub open spec fn spec_process_declaration(
    env: Seq<ConstBindingView>,
    declaration: DeclarationView,
) -> Result<InstrumentedDeclarationView, ResolutionError> {
    match declaration {
        DeclarationView::Free(c) => match spec_instrument_standalone(
            env,
            c.name,
            c.own_directive,
            c.body,
        ) {
            Err(e) => Err(e),
            Ok(ic) => Ok(InstrumentedDeclarationView::Free(ic)),
        },
        DeclarationView::Collection(c) => match spec_instrument_collection(env, c) {
            Err(e) => Err(e),
            Ok(ic) => Ok(InstrumentedDeclarationView::Collection(ic)),
        },
    }
}

/// The view of the outcome of instrumenting one callable.
pub open spec fn instrumented_callable_res_view(
    r: &Result<InstrumentedCallable, ResolutionError>,
) -> Result<InstrumentedCallableView, ResolutionError> {
    match r {
        Ok(c) => Ok(c@),
        Err(e) => Err(*e),
    }
}

/// The view of the outcome of instrumenting one collection.
pub open spec fn instrumented_collection_res_view(
    r: &Result<InstrumentedCollection, ResolutionError>,
) -> Result<InstrumentedCollectionView, ResolutionError> {
    match r {
        Ok(c) => Ok(c@),
        Err(e) => Err(*e),
    }
}

/// The view of the outcome of processing one declaration.
pub open spec fn instrumented_declaration_res_view(
    r: &Result<InstrumentedDeclaration, ResolutionError>,
) -> Result<InstrumentedDeclarationView, ResolutionError> {
    match r {
        Ok(d) => Ok(d@),
        Err(e) => Err(*e),
    }
}

/// Wraps a body according to an already-resolved effective directive.
/// Under `Suppress` the body comes back untouched; under `Emit` a
/// single guard construction is prepended and every original statement
/// follows unchanged.
pub fn inject(effective: &EffectiveDirective, callable_name: &String, original_body: Body) -> (r:
    Body)
    ensures
        r@ == spec_inject(effective@, callable_name@, original_body@),
{
    match effective {
        EffectiveDirective::Suppress => original_body,
        EffectiveDirective::Emit { metric_name, owner_type_name } => {
            let guard = GuardCall {
                metric_name: metric_name.clone(),
                owner_type_name: match owner_type_name {
                    Some(o) => Some(o.clone()),
                    None => None,
                },
                callable_name: callable_name.clone(),
            };
            let mut body = original_body;
            let mut stmts: Vec<Stmt> = Vec::new();
            stmts.push(Stmt::Guard(guard));
            stmts.append(&mut body.stmts);
            let r = Body { stmts };
            proof {
                assert(r@ =~= spec_inject(effective@, callable_name@, original_body@));
            }
            r
        },
    }
}

/// Instruments a free callable: resolves its directive, then wraps its
/// body.
pub fn instrument_free_callable(callable: FreeCallable, env: &Vec<ConstBinding>) -> (r: Result<
    InstrumentedCallable,
    ResolutionError,
>)
    ensures
        instrumented_callable_res_view(&r) == spec_instrument_standalone(
            env_view(env),
            callable@.name,
            callable@.own_directive,
            callable@.body,
        ),
{
    let effective = match resolve_standalone_directive(&callable.own_directive, env) {
        Ok(e) => e,
        Err(e) => {
            return Err(e);
        },
    };
    let FreeCallable { name, own_directive: _, body } = callable;
    let body = inject(&effective, &name, body);
    Ok(InstrumentedCallable { name, body })
}

/// Instruments one method within its collection: resolves it against
/// the collection context, then wraps its body.
pub fn instrument_method(
    method: Method,
    owner_type_name: &String,
    collection_directive: &Option<Directive>,
    env: &Vec<ConstBinding>,
) -> (r: Result<InstrumentedCallable, ResolutionError>)
    ensures
        instrumented_callable_res_view(&r) == spec_instrument_method(
            env_view(env),
            owner_type_name@,
            opt_directive_view(collection_directive),
            method@,
        ),
{
    let effective = match resolve_method(&method, owner_type_name, collection_directive, env) {
        Ok(e) => e,
        Err(e) => {
            return Err(e);
        },
    };
    let Method { name, own_directive: _, body } = method;
    let body = inject(&effective, &name, body);
    Ok(InstrumentedCallable { name, body })
}

/// An error of a member at position `k` aborts instrumentation of the
/// whole member sequence with that error, provided every member before
/// `k` instrumented.
proof fn lemma_instrument_members_error(
    env: Seq<ConstBindingView>,
    owner_type_name: Seq<char>,
    collection_directive: Option<DirectiveView>,
    members: Seq<MethodView>,
    k: int,
    e: ResolutionError,
)
    requires
        0 <= k < members.len(),
        spec_instrument_members(env, owner_type_name, collection_directive, members.take(k)) is Ok,
        spec_instrument_method(env, owner_type_name, collection_directive, members[k]) == Err::<
            InstrumentedCallableView,
            ResolutionError,
        >(e),
    ensures
        spec_instrument_members(env, owner_type_name, collection_directive, members) == Err::<
            Seq<InstrumentedCallableView>,
            ResolutionError,
        >(e),
    decreases members.len(),
{
    if k == members.len() - 1 {
        assert(members.drop_last() =~= members.take(k));
    } else {
        assert(members.drop_last().take(k) =~= members.take(k));
        lemma_instrument_members_error(
            env,
            owner_type_name,
            collection_directive,
            members.drop_last(),
            k,
            e,
        );
    }
}

/// Instruments a whole collection: rejects an explicit opt-out on the
/// collection itself before touching any member, then instruments every
/// member in order.  On any failure no instrumented collection is
/// produced at all.
pub fn instrument_collection(collection: MethodCollection, env: &Vec<ConstBinding>) -> (r: Result<
    InstrumentedCollection,
    ResolutionError,
>)
    ensures
        instrumented_collection_res_view(&r) == spec_instrument_collection(
            env_view(env),
            collection@,
        ),
{
    let ghost cv = collection@;
    if let Some(Directive::Disabled) = &collection.collection_directive {
        return Err(ResolutionError::DisableNotAllowedOnCollection);
    }
    let MethodCollection { owner_type_name, collection_directive, members } = collection;
    let mut remaining = members;
    let mut done: Vec<InstrumentedCallable> = Vec::new();
    proof {
        assert(cv.members.take(0) =~= Seq::<MethodView>::empty());
        assert(instrumented_view(done@) =~= Seq::<InstrumentedCallableView>::empty());
        assert(methods_view(remaining@) =~= cv.members.skip(0));
    }
    while remaining.len() > 0
        invariant
            cv == collection@,
            opt_directive_view(&collection_directive) != Some(DirectiveView::Disabled),
            cv.collection_directive == opt_directive_view(&collection_directive),
            cv.owner_type_name == owner_type_name@,
            done@.len() + remaining@.len() == cv.members.len(),
            methods_view(remaining@) =~= cv.members.skip(done@.len() as int),
            spec_instrument_members(
                env_view(env),
                owner_type_name@,
                opt_directive_view(&collection_directive),
                cv.members.take(done@.len() as int),
            ) == Ok::<_, ResolutionError>(instrumented_view(done@)),
        decreases remaining.len(),
    {
        let ghost k = done@.len() as int;
        let ghost prev = done@;
        let ghost before = remaining@;
        let m = remaining.remove(0);
        proof {
            assert(m@ == methods_view(before)[0]);
            assert(m@ == cv.members[k]);
            assert(remaining@ =~= before.skip(1));
            assert forall|j: int| 0 <= j < remaining@.len() implies methods_view(remaining@)[j]
                == cv.members.skip(k + 1)[j] by {
                assert(methods_view(remaining@)[j] == remaining@[j]@);
                assert(remaining@[j] == before[j + 1]);
                assert(methods_view(before)[j + 1] == before[j + 1]@);
                assert(methods_view(before)[j + 1] == cv.members.skip(k)[j + 1]);
            }
            assert(methods_view(remaining@) =~= cv.members.skip(k + 1));
        }
        match instrument_method(m, &owner_type_name, &collection_directive, env) {
            Ok(ic) => {
                done.push(ic);
                proof {
                    assert(cv.members.take(k + 1).drop_last() =~= cv.members.take(k));
                    assert(cv.members.take(k + 1).last() == cv.members[k]);
                    assert(instrumented_view(done@) =~= instrumented_view(prev).push(ic@));
                }
            },
            Err(e) => {
                proof {
                    lemma_instrument_members_error(
                        env_view(env),
                        owner_type_name@,
                        opt_directive_view(&collection_directive),
                        cv.members,
                        k,
                        e,
                    );
                }
                return Err(e);
            },
        }
    }
    proof {
        assert(cv.members.take(done@.len() as int) =~= cv.members);
    }
    Ok(InstrumentedCollection { owner_type_name, members: done })
}

/// Processes one annotated declaration: validation, resolution, and
/// injection in a single pass.  On any failure no instrumented code is
/// produced for the declaration at all.
pub fn process_declaration(declaration: Declaration, env: &Vec<ConstBinding>) -> (r: Result<
    InstrumentedDeclaration,
    ResolutionError,
>)
    ensures
        instrumented_declaration_res_view(&r) == spec_process_declaration(
            env_view(env),
            declaration@,
        ),
{
    match declaration {
        Declaration::Free(callable) => match instrument_free_callable(callable, env) {
            Ok(ic) => Ok(InstrumentedDeclaration::Free(ic)),
            Err(e) => Err(e),
        },
        Declaration::Collection(collection) => match instrument_collection(collection, env) {
            Ok(ic) => Ok(InstrumentedDeclaration::Collection(ic)),
            Err(e) => Err(e),
        },
    }
}

/// Law: exactly-once injection.  Under an `Emit` directive the wrapped
/// body begins with exactly the guard construction carrying the
/// resolved metric name, owner tag, and callable name, followed by every
/// original statement unchanged and in order; a body that constructed no
/// guard before constructs exactly one after.
pub proof fn lemma_emit_injects_exactly_one_guard(
    effective: EffectiveDirectiveView,
    callable_name: Seq<char>,
    body: Seq<StmtView>,
)
    requires
        effective matches EffectiveDirectiveView::Emit { .. },
    ensures
        ({
            let wrapped = spec_inject(effective, callable_name, body);
            &&& wrapped.len() == body.len() + 1
            &&& wrapped[0] == StmtView::Guard(
                GuardCallView {
                    metric_name: effective->metric_name,
                    owner_type_name: effective->owner_type_name,
                    callable_name,
                },
            )
            &&& wrapped.skip(1) == body
            &&& guard_count(wrapped) == guard_count(body) + 1
            &&& (guard_count(body) == 0 ==> guard_count(wrapped) == 1)
        }),
{
    let wrapped = spec_inject(effective, callable_name, body);
    assert(wrapped.skip(1) =~= body);
}

/// Law: suppression at injection.  Under `Suppress` the body comes back
/// unchanged — statement for statement — and in particular no guard is
/// introduced, so no metric is ever emitted for the callable.
pub proof fn lemma_suppress_injects_nothing(callable_name: Seq<char>, body: Seq<StmtView>)
    ensures
        spec_inject(EffectiveDirectiveView::Suppress, callable_name, body) == body,
        guard_count(spec_inject(EffectiveDirectiveView::Suppress, callable_name, body))
            == guard_count(body),
{
}

/// Law: a collection opt-out is rejected.  A collection whose own
/// directive is the explicit opt-out fails declaration processing
/// before any member is looked at, and no instrumented code is produced
/// for it.
pub proof fn lemma_disabled_collection_rejected(
    env: Seq<ConstBindingView>,
    collection: MethodCollectionView,
)
    requires
        collection.collection_directive == Some(DirectiveView::Disabled),
    ensures
        spec_instrument_collection(env, collection) == Err::<
            InstrumentedCollectionView,
            ResolutionError,
        >(ResolutionError::DisableNotAllowedOnCollection),
        spec_resolve_collection(env, collection) == Err::<
            Seq<EffectiveDirectiveView>,
            ResolutionError,
        >(ResolutionError::DisableNotAllowedOnCollection),
{
}

/// Law: one guard per instrumented callable.  For a method whose
/// original body constructs no guard, instrumentation yields exactly
/// one guard construction — the resolved one, first in the body — when
/// the method's effective directive emits, the body unchanged when it
/// suppresses, and no code at all when resolution fails.
pub proof fn lemma_method_instrumentation_cases(
    env: Seq<ConstBindingView>,
    owner_type_name: Seq<char>,
    collection_directive: Option<DirectiveView>,
    method: MethodView,
)
    requires
        guard_count(method.body) == 0,
    ensures
        ({
            let resolved = spec_resolve_member(
                env,
                owner_type_name,
                collection_directive,
                method.own_directive,
            );
            let instrumented = spec_instrument_method(
                env,
                owner_type_name,
                collection_directive,
                method,
            );
            match (resolved, instrumented) {
                (Ok(EffectiveDirectiveView::Suppress), Ok(ic)) => ic.body == method.body
                    && guard_count(ic.body) == 0,
                (Ok(EffectiveDirectiveView::Emit { metric_name, owner_type_name: tag }), Ok(ic)) => {
                    &&& guard_count(ic.body) == 1
                    &&& ic.body.len() == method.body.len() + 1
                    &&& ic.body[0] == StmtView::Guard(
                        GuardCallView {
                            metric_name,
                            owner_type_name: tag,
                            callable_name: method.name,
                        },
                    )
                    &&& ic.body.skip(1) == method.body
                },
                (Err(e1), Err(e2)) => e1 == e2,
                _ => false,
            }
        }),
{
    let resolved = spec_resolve_member(
        env,
        owner_type_name,
        collection_directive,
        method.own_directive,
    );
    match resolved {
        Ok(eff) => match eff {
            EffectiveDirectiveView::Emit { .. } => {
                lemma_emit_injects_exactly_one_guard(eff, method.name, method.body);
            },
            EffectiveDirectiveView::Suppress => {},
        },
        Err(_) => {},
    }
}

/// Law: one guard per instrumented standalone callable, the counterpart
/// of the method case for callables resolved outside any collection.
pub proof fn lemma_standalone_instrumentation_cases(
    env: Seq<ConstBindingView>,
    name: Seq<char>,
    own_directive: Option<DirectiveView>,
    body: Seq<StmtView>,
)
    requires
        guard_count(body) == 0,
    ensures
        ({
            let resolved = spec_resolve_standalone(env, own_directive);
            let instrumented = spec_instrument_standalone(env, name, own_directive, body);
            match (resolved, instrumented) {
                (Ok(EffectiveDirectiveView::Suppress), Ok(ic)) => ic.body == body && guard_count(
                    ic.body,
                ) == 0,
                (Ok(EffectiveDirectiveView::Emit { metric_name, owner_type_name: tag }), Ok(ic)) => {
                    &&& guard_count(ic.body) == 1
                    &&& tag is None
                    &&& ic.body.len() == body.len() + 1
                    &&& ic.body[0] == StmtView::Guard(
                        GuardCallView { metric_name, owner_type_name: tag, callable_name: name },
                    )
                    &&& ic.body.skip(1) == body
                },
                (Err(e1), Err(e2)) => e1 == e2,
                _ => false,
            }
        }),
{
    let resolved = spec_resolve_standalone(env, own_directive);
    match resolved {
        Ok(eff) => match eff {
            EffectiveDirectiveView::Emit { .. } => {
                lemma_emit_injects_exactly_one_guard(eff, name, body);
            },
            EffectiveDirectiveView::Suppress => {},
        },
        Err(_) => {},
    }
}

} // verus!
