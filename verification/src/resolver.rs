//! Directive resolution: computes the effective directive of every
//! annotated callable, reconciling a callable's own directive with the
//! one on its enclosing collection.
//!
//! The rules, in order:
//! 1. an explicit opt-out on a whole collection is rejected, once per
//!    collection, before any member is resolved;
//! 2. a standalone callable emits exactly when it carries a `Named`
//!    directive, and never carries an owner-type tag;
//! 3. a method carrying its own directive is resolved exactly as a
//!    standalone callable — per-callable directives take total
//!    precedence and discard the collection context, including the owner
//!    type's name; a method without one inherits the collection's
//!    directive and, when that directive emits, is tagged with the owner
//!    type's name.

use vstd::prelude::*;

use crate::declaration::Method;
use crate::declaration::MethodCollection;
use crate::declaration::MethodView;
use crate::declaration::methods_view;
use crate::directive::ConstBinding;
use crate::directive::ConstBindingView;
use crate::directive::Directive;
use crate::directive::DirectiveView;
use crate::directive::EffectiveDirective;
use crate::directive::EffectiveDirectiveView;
use crate::directive::NameExpr;
use crate::directive::NameExprView;
use crate::directive::ResolutionError;
use crate::directive::effective_directives_view;
use crate::directive::env_view;
use crate::directive::opt_directive_view;
use crate::directive::opt_string_view;
use crate::directive::resolution_view;

verus! {

/// The value bound to `symbol` by the first binding for it in the
/// table, if any.
pub open spec fn lookup_symbol(env: Seq<ConstBindingView>, symbol: Seq<char>) -> Option<Seq<char>>
    decreases env.len(),
{
    if env.len() == 0 {
        None
    } else if env[0].symbol == symbol {
        Some(env[0].value)
    } else {
        lookup_symbol(env.skip(1), symbol)
    }
}

/// The metric name denoted by a name expression: a literal is used
/// verbatim, a symbol is folded to the constant it is bound to, and an
/// unbound symbol denotes no name at all.
pub open spec fn spec_resolve_name(env: Seq<ConstBindingView>, name: NameExprView) -> Option<
    Seq<char>,
> {
    match name {
        NameExprView::Literal(s) => Some(s),
        NameExprView::Symbol(s) => lookup_symbol(env, s),
    }
}

/// The effective directive of a callable resolved on its own, with no
/// collection in sight: no directive and an explicit opt-out both
/// suppress; a named directive emits under the resolved name and never
/// carries an owner-type tag.
pub open spec fn spec_resolve_standalone(
    env: Seq<ConstBindingView>,
    own_directive: Option<DirectiveView>,
) -> Result<EffectiveDirectiveView, ResolutionError> {
    match own_directive {
        None => Ok(EffectiveDirectiveView::Suppress),
        Some(DirectiveView::Disabled) => Ok(EffectiveDirectiveView::Suppress),
        Some(DirectiveView::Named(name)) => match spec_resolve_name(env, name) {
            Some(n) => Ok(
                EffectiveDirectiveView::Emit { metric_name: n, owner_type_name: None },
            ),
            None => Err(ResolutionError::InvalidMetricNameExpression),
        },
    }
}

/// The effective directive of a method inside a collection.  A method
/// carrying its own directive is resolved exactly as a standalone
/// callable, blind to the collection; otherwise the collection's
/// directive governs, tagging the owner type on emission.  A collection
/// opt-out is a validation error, normally rejected before any member
/// is resolved.
pub open spec fn spec_resolve_member(
    env: Seq<ConstBindingView>,
    owner_type_name: Seq<char>,
    collection_directive: Option<DirectiveView>,
    own_directive: Option<DirectiveView>,
) -> Result<EffectiveDirectiveView, ResolutionError> {
    if own_directive is Some {
        spec_resolve_standalone(env, own_directive)
    } else {
        match collection_directive {
            None => Ok(EffectiveDirectiveView::Suppress),
            Some(DirectiveView::Disabled) => Err(ResolutionError::DisableNotAllowedOnCollection),
            Some(DirectiveView::Named(name)) => match spec_resolve_name(env, name) {
                Some(n) => Ok(
                    EffectiveDirectiveView::Emit {
                        metric_name: n,
                        owner_type_name: Some(owner_type_name),
                    },
                ),
                None => Err(ResolutionError::InvalidMetricNameExpression),
            },
        }
    }
}

/// The effective directives of a collection's members, in member order,
/// stopping at the first member whose name fails to resolve.
pub open spec fn spec_resolve_members(
    env: Seq<ConstBindingView>,
    owner_type_name: Seq<char>,
    collection_directive: Option<DirectiveView>,
    members: Seq<MethodView>,
) -> Result<Seq<EffectiveDirectiveView>, ResolutionError>
    decreases members.len(),
{
    if members.len() == 0 {
        Ok(Seq::empty())
    } else {
        match spec_resolve_members(env, owner_type_name, collection_directive,
            members.drop_last()) {
            Err(e) => Err(e),
            Ok(effs) => match spec_resolve_member(env, owner_type_name, collection_directive,
                members.last().own_directive) {
                Err(e) => Err(e),
                Ok(eff) => Ok(effs.push(eff)),
            },
        }
    }
}

/// Resolution of a whole collection: the opt-out check, then every
/// member in order.
pub open spec fn spec_resolve_collection(
    env: Seq<ConstBindingView>,
    collection: crate::declaration::MethodCollectionView,
) -> Result<Seq<EffectiveDirectiveView>, ResolutionError> {
    if collection.collection_directive == Some(DirectiveView::Disabled) {
        Err(ResolutionError::DisableNotAllowedOnCollection)
    } else {
        spec_resolve_members(
            env,
            collection.owner_type_name,
            collection.collection_directive,
            collection.members,
        )
    }
}

/// Looks a symbol up in the constant table, returning the value of the
/// first binding for it.
pub fn lookup_symbol_value(env: &Vec<ConstBinding>, symbol: &String) -> (r: Option<String>)
    ensures
        opt_string_view(&r) == lookup_symbol(env_view(env), symbol@),
{
    let n = env.len();
    proof {
        assert(env_view(env).skip(0) =~= env_view(env));
    }
    for i in 0..n
        invariant
            n == env.len(),
            lookup_symbol(env_view(env), symbol@) == lookup_symbol(
                env_view(env).skip(i as int),
                symbol@,
            ),
            i <= n,
    {
        if env[i].symbol == *symbol {
            return Some(env[i].value.clone());
        }
        proof {
            assert(env_view(env).skip(i as int).skip(1) =~= env_view(env).skip(i + 1));
        }
    }
    None
}

/// Folds a metric-name expression to the string it denotes, failing on
/// a symbol that no string-valued constant is bound to.
pub fn resolve_metric_name(env: &Vec<ConstBinding>, name: &NameExpr) -> (r: Result<
    String,
    ResolutionError,
>)
    ensures
        match r {
            Ok(v) => spec_resolve_name(env_view(env), name@) == Some(v@),
            Err(e) => spec_resolve_name(env_view(env), name@) is None && e
                == ResolutionError::InvalidMetricNameExpression,
        },
{
    match name {
        NameExpr::Literal(s) => Ok(s.clone()),
        NameExpr::Symbol(s) => match lookup_symbol_value(env, s) {
            Some(v) => Ok(v),
            None => Err(ResolutionError::InvalidMetricNameExpression),
        },
    }
}

/// Resolves a directive as if its callable stood alone: the resolution
/// used both for free callables and for methods that carry their own
/// directive.
pub fn resolve_standalone_directive(
    own_directive: &Option<Directive>,
    env: &Vec<ConstBinding>,
) -> (r: Result<EffectiveDirective, ResolutionError>)
    ensures
        resolution_view(&r) == spec_resolve_standalone(
            env_view(env),
            opt_directive_view(own_directive),
        ),
{
    match own_directive {
        None => Ok(EffectiveDirective::Suppress),
        Some(Directive::Disabled) => Ok(EffectiveDirective::Suppress),
        Some(Directive::Named(name)) => match resolve_metric_name(env, name) {
            Ok(n) => Ok(EffectiveDirective::Emit { metric_name: n, owner_type_name: None }),
            Err(e) => Err(e),
        },
    }
}

/// Resolves a free callable: it emits exactly when it carries a `Named`
/// directive, and never carries an owner-type tag.
pub fn resolve_free_callable(
    callable: &crate::declaration::FreeCallable,
    env: &Vec<ConstBinding>,
) -> (r: Result<EffectiveDirective, ResolutionError>)
    ensures
        resolution_view(&r) == spec_resolve_standalone(env_view(env), callable@.own_directive),
{
    resolve_standalone_directive(&callable.own_directive, env)
}

/// Resolves one method within its collection.  A directive of the
/// method's own takes total precedence and discards the collection
/// context entirely; without one, the collection's directive is
/// inherited and its emissions are tagged with the owner type's name.
pub fn resolve_method(
    method: &Method,
    owner_type_name: &String,
    collection_directive: &Option<Directive>,
    env: &Vec<ConstBinding>,
) -> (r: Result<EffectiveDirective, ResolutionError>)
    ensures
        resolution_view(&r) == spec_resolve_member(
            env_view(env),
            owner_type_name@,
            opt_directive_view(collection_directive),
            method@.own_directive,
        ),
{
    match &method.own_directive {
        Some(_) => resolve_standalone_directive(&method.own_directive, env),
        None => match collection_directive {
            None => Ok(EffectiveDirective::Suppress),
            Some(Directive::Disabled) => Err(ResolutionError::DisableNotAllowedOnCollection),
            Some(Directive::Named(name)) => match resolve_metric_name(env, name) {
                Ok(n) => Ok(
                    EffectiveDirective::Emit {
                        metric_name: n,
                        owner_type_name: Some(owner_type_name.clone()),
                    },
                ),
                Err(e) => Err(e),
            },
        },
    }
}

/// An error of a member at position `k` aborts resolution of the whole
/// member sequence with that error, provided every member before `k`
/// resolved.
proof fn lemma_resolve_members_error(
    env: Seq<ConstBindingView>,
    owner_type_name: Seq<char>,
    collection_directive: Option<DirectiveView>,
    members: Seq<MethodView>,
    k: int,
    e: ResolutionError,
)
    requires
        0 <= k < members.len(),
        spec_resolve_members(env, owner_type_name, collection_directive, members.take(k)) is Ok,
        spec_resolve_member(env, owner_type_name, collection_directive, members[k].own_directive)
            == Err::<EffectiveDirectiveView, ResolutionError>(e),
    ensures
        spec_resolve_members(env, owner_type_name, collection_directive, members) == Err::<
            Seq<EffectiveDirectiveView>,
            ResolutionError,
        >(e),
    decreases members.len(),
{
    if k == members.len() - 1 {
        assert(members.drop_last() =~= members.take(k));
    } else {
        assert(members.drop_last().take(k) =~= members.take(k));
        lemma_resolve_members_error(
            env,
            owner_type_name,
            collection_directive,
            members.drop_last(),
            k,
            e,
        );
    }
}

/// Resolves a whole collection: rejects an explicit opt-out on the
/// collection itself before looking at any member, then resolves every
/// member in order, stopping at the first failure.
pub fn resolve_collection(collection: &MethodCollection, env: &Vec<ConstBinding>) -> (r: Result<
    Vec<EffectiveDirective>,
    ResolutionError,
>)
    ensures
        match r {
            Ok(effs) => spec_resolve_collection(env_view(env), collection@) == Ok::<
                _,
                ResolutionError,
            >(effective_directives_view(effs@)),
            Err(e) => spec_resolve_collection(env_view(env), collection@) == Err::<
                Seq<EffectiveDirectiveView>,
                ResolutionError,
            >(e),
        },
{
    if let Some(Directive::Disabled) = &collection.collection_directive {
        return Err(ResolutionError::DisableNotAllowedOnCollection);
    }
    let mut results: Vec<EffectiveDirective> = Vec::new();
    let n = collection.members.len();
    proof {
        assert(methods_view(collection.members@).take(0) =~= Seq::<MethodView>::empty());
        assert(effective_directives_view(results@) =~= Seq::<EffectiveDirectiveView>::empty());
    }
    for i in 0..n
        invariant
            n == collection.members.len(),
            opt_directive_view(&collection.collection_directive) != Some(DirectiveView::Disabled),
            spec_resolve_members(
                env_view(env),
                collection.owner_type_name@,
                opt_directive_view(&collection.collection_directive),
                methods_view(collection.members@).take(i as int),
            ) == Ok::<_, ResolutionError>(effective_directives_view(results@)),
    {
        let ghost prev = results@;
        match resolve_method(
            &collection.members[i],
            &collection.owner_type_name,
            &collection.collection_directive,
            env,
        ) {
            Ok(eff) => {
                results.push(eff);
                proof {
                    let ms = methods_view(collection.members@);
                    assert(ms.take(i + 1).drop_last() =~= ms.take(i as int));
                    assert(ms.take(i + 1).last() == ms[i as int]);
                    assert(effective_directives_view(results@) =~= effective_directives_view(
                        prev,
                    ).push(eff@));
                }
            },
            Err(e) => {
                proof {
                    lemma_resolve_members_error(
                        env_view(env),
                        collection.owner_type_name@,
                        opt_directive_view(&collection.collection_directive),
                        methods_view(collection.members@),
                        i as int,
                        e,
                    );
                }
                return Err(e);
            },
        }
    }
    proof {
        assert(methods_view(collection.members@).take(n as int) =~= methods_view(
            collection.members@,
        ));
    }
    Ok(results)
}

/// Law: override independence.  A method carrying a directive of its
/// own is resolved exactly as a standalone callable, with no visibility
/// into the enclosing collection — whatever directive the collection
/// carries — and its emissions never carry an owner-type tag.
pub proof fn lemma_own_directive_overrides_collection(
    env: Seq<ConstBindingView>,
    owner_type_name: Seq<char>,
    collection_directive: Option<DirectiveView>,
    own_directive: Option<DirectiveView>,
)
    requires
        own_directive is Some,
    ensures
        spec_resolve_member(env, owner_type_name, collection_directive, own_directive)
            == spec_resolve_standalone(env, own_directive),
        match spec_resolve_member(env, owner_type_name, collection_directive, own_directive) {
            Ok(EffectiveDirectiveView::Emit { owner_type_name: tagged, .. }) => tagged is None,
            _ => true,
        },
{
}

/// Law: inheritance tagging.  A method with no directive of its own,
/// inside a collection whose directive names a resolvable metric, emits
/// under the collection's resolved name, tagged with the owner type's
/// name.
pub proof fn lemma_inherited_directive_tags_owner(
    env: Seq<ConstBindingView>,
    owner_type_name: Seq<char>,
    name: NameExprView,
    metric: Seq<char>,
)
    requires
        spec_resolve_name(env, name) == Some(metric),
    ensures
        spec_resolve_member(
            env,
            owner_type_name,
            Some(DirectiveView::Named(name)),
            None::<DirectiveView>,
        ) == Ok::<_, ResolutionError>(
            EffectiveDirectiveView::Emit {
                metric_name: metric,
                owner_type_name: Some(owner_type_name),
            },
        ),
{
}

/// Law: suppression at resolution.  A callable with no directive, or
/// with an explicit opt-out of its own, resolves to `Suppress`; so does
/// a method with no directive inside a collection without one.
pub proof fn lemma_no_directive_suppresses(
    env: Seq<ConstBindingView>,
    owner_type_name: Seq<char>,
    collection_directive: Option<DirectiveView>,
    own_directive: Option<DirectiveView>,
)
    requires
        own_directive is None || own_directive == Some(DirectiveView::Disabled),
    ensures
        spec_resolve_standalone(env, own_directive) == Ok::<_, ResolutionError>(
            EffectiveDirectiveView::Suppress,
        ),
        own_directive is Some ==> spec_resolve_member(
            env,
            owner_type_name,
            collection_directive,
            own_directive,
        ) == Ok::<_, ResolutionError>(EffectiveDirectiveView::Suppress),
        spec_resolve_member(env, owner_type_name, None::<DirectiveView>, own_directive) == Ok::<
            _,
            ResolutionError,
        >(EffectiveDirectiveView::Suppress),
{
}

/// Law: symbol resolution.  A directive referencing a constant bound to
/// a string value behaves identically, in every position, to a
/// directive naming that value literally.
pub proof fn lemma_symbol_behaves_as_literal(
    env: Seq<ConstBindingView>,
    symbol: Seq<char>,
    value: Seq<char>,
    owner_type_name: Seq<char>,
    collection_directive: Option<DirectiveView>,
    own_directive: Option<DirectiveView>,
)
    requires
        lookup_symbol(env, symbol) == Some(value),
    ensures
        spec_resolve_standalone(env, Some(DirectiveView::Named(NameExprView::Symbol(symbol))))
            == spec_resolve_standalone(
            env,
            Some(DirectiveView::Named(NameExprView::Literal(value))),
        ),
        spec_resolve_member(
            env,
            owner_type_name,
            collection_directive,
            Some(DirectiveView::Named(NameExprView::Symbol(symbol))),
        ) == spec_resolve_member(
            env,
            owner_type_name,
            collection_directive,
            Some(DirectiveView::Named(NameExprView::Literal(value))),
        ),
        spec_resolve_member(
            env,
            owner_type_name,
            Some(DirectiveView::Named(NameExprView::Symbol(symbol))),
            own_directive,
        ) == spec_resolve_member(
            env,
            owner_type_name,
            Some(DirectiveView::Named(NameExprView::Literal(value))),
            own_directive,
        ),
{
}

} // verus!
