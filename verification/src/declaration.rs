//! Declarations that instrumentation is attached to, and the bodies the
//! injector rewrites.
//!
//! A body is an ordered sequence of statements.  Statements of the
//! callable's original logic are opaque to instrumentation and are
//! carried through unchanged; the injector only ever adds a single
//! guard-construction statement at the front of a body.

use vstd::prelude::*;

use crate::directive::Directive;
use crate::directive::DirectiveView;
use crate::directive::opt_directive_view;

verus! {

/// The parameters of one scoped-guard construction: the resolved metric
/// name, the owner type to tag (only under inheritance), and the name of
/// the callable being measured.
pub struct GuardCall {
    pub metric_name: String,
    pub owner_type_name: Option<String>,
    pub callable_name: String,
}

/// Specification-level counterpart of [`GuardCall`].
pub struct GuardCallView {
    pub metric_name: Seq<char>,
    pub owner_type_name: Option<Seq<char>>,
    pub callable_name: Seq<char>,
}

impl View for GuardCall {
    type V = GuardCallView;

    open spec fn view(&self) -> GuardCallView {
        GuardCallView {
            metric_name: self.metric_name@,
            owner_type_name: match &self.owner_type_name {
                Some(o) => Some(o@),
                None => None,
            },
            callable_name: self.callable_name@,
        }
    }
}

/// One statement of a callable body.
pub enum Stmt {
    /// Constructs the scoped measurement guard, bound to a name that is
    /// never read: the statement exists for the side effect of the
    /// guard's release at scope exit.
    Guard(GuardCall),
    /// One statement of the callable's original logic, identified
    /// opaquely; instrumentation never reads or alters it.
    Code(u64),
}

/// Specification-level counterpart of [`Stmt`].
pub enum StmtView {
    Guard(GuardCallView),
    Code(u64),
}

impl View for Stmt {
    type V = StmtView;

    open spec fn view(&self) -> StmtView {
        match self {
            Stmt::Guard(g) => StmtView::Guard(g@),
            Stmt::Code(c) => StmtView::Code(*c),
        }
    }
}

/// The view of a sequence of statements.
pub open spec fn stmts_view(stmts: Seq<Stmt>) -> Seq<StmtView> {
    stmts.map_values(|s: Stmt| s@)
}

/// A callable body: the ordered statements one invocation runs, all in
/// a single scope.
pub struct Body {
    pub stmts: Vec<Stmt>,
}

impl View for Body {
    type V = Seq<StmtView>;

    open spec fn view(&self) -> Seq<StmtView> {
        stmts_view(self.stmts@)
    }
}

/// A callable declared outside any method collection.
pub struct FreeCallable {
    pub name: String,
    pub own_directive: Option<Directive>,
    pub body: Body,
}

/// Specification-level counterpart of [`FreeCallable`].
pub struct FreeCallableView {
    pub name: Seq<char>,
    pub own_directive: Option<DirectiveView>,
    pub body: Seq<StmtView>,
}

impl View for FreeCallable {
    type V = FreeCallableView;

    open spec fn view(&self) -> FreeCallableView {
        FreeCallableView {
            name: self.name@,
            own_directive: opt_directive_view(&self.own_directive),
            body: self.body@,
        }
    }
}

/// A method, always considered within an enclosing [`MethodCollection`].
pub struct Method {
    pub name: String,
    pub own_directive: Option<Directive>,
    pub body: Body,
}

/// Specification-level counterpart of [`Method`].
pub struct MethodView {
    pub name: Seq<char>,
    pub own_directive: Option<DirectiveView>,
    pub body: Seq<StmtView>,
}

impl View for Method {
    type V = MethodView;

    open spec fn view(&self) -> MethodView {
        MethodView {
            name: self.name@,
            own_directive: opt_directive_view(&self.own_directive),
            body: self.body@,
        }
    }
}

/// The view of a sequence of methods.
pub open spec fn methods_view(members: Seq<Method>) -> Seq<MethodView> {
    members.map_values(|m: Method| m@)
}

/// A grouping of methods under one owner type, carrying an optional
/// ambient directive that members without a directive of their own
/// inherit.
pub struct MethodCollection {
    pub owner_type_name: String,
    pub collection_directive: Option<Directive>,
    pub members: Vec<Method>,
}

/// Specification-level counterpart of [`MethodCollection`].
pub struct MethodCollectionView {
    pub owner_type_name: Seq<char>,
    pub collection_directive: Option<DirectiveView>,
    pub members: Seq<MethodView>,
}

impl View for MethodCollection {
    type V = MethodCollectionView;

    open spec fn view(&self) -> MethodCollectionView {
        MethodCollectionView {
            owner_type_name: self.owner_type_name@,
            collection_directive: opt_directive_view(&self.collection_directive),
            members: methods_view(self.members@),
        }
    }
}

/// One annotated declaration handed to declaration processing.
pub enum Declaration {
    Free(FreeCallable),
    Collection(MethodCollection),
}

/// Specification-level counterpart of [`Declaration`].
pub enum DeclarationView {
    Free(FreeCallableView),
    Collection(MethodCollectionView),
}

impl View for Declaration {
    type V = DeclarationView;

    open spec fn view(&self) -> DeclarationView {
        match self {
            Declaration::Free(c) => DeclarationView::Free(c@),
            Declaration::Collection(c) => DeclarationView::Collection(c@),
        }
    }
}

/// A callable whose body has been through injection.
pub struct InstrumentedCallable {
    pub name: String,
    pub body: Body,
}

/// Specification-level counterpart of [`InstrumentedCallable`].
pub struct InstrumentedCallableView {
    pub name: Seq<char>,
    pub body: Seq<StmtView>,
}

impl View for InstrumentedCallable {
    type V = InstrumentedCallableView;

    open spec fn view(&self) -> InstrumentedCallableView {
        InstrumentedCallableView { name: self.name@, body: self.body@ }
    }
}

/// The view of a sequence of instrumented callables.
pub open spec fn instrumented_view(members: Seq<InstrumentedCallable>) -> Seq<
    InstrumentedCallableView,
> {
    members.map_values(|m: InstrumentedCallable| m@)
}

/// A method collection whose members have all been through injection.
pub struct InstrumentedCollection {
    pub owner_type_name: String,
    pub members: Vec<InstrumentedCallable>,
}

/// Specification-level counterpart of [`InstrumentedCollection`].
pub struct InstrumentedCollectionView {
    pub owner_type_name: Seq<char>,
    pub members: Seq<InstrumentedCallableView>,
}

impl View for InstrumentedCollection {
    type V = InstrumentedCollectionView;

    open spec fn view(&self) -> InstrumentedCollectionView {
        InstrumentedCollectionView {
            owner_type_name: self.owner_type_name@,
            members: instrumented_view(self.members@),
        }
    }
}

/// The instrumented form of one declaration.
pub enum InstrumentedDeclaration {
    Free(InstrumentedCallable),
    Collection(InstrumentedCollection),
}

/// Specification-level counterpart of [`InstrumentedDeclaration`].
pub enum InstrumentedDeclarationView {
    Free(InstrumentedCallableView),
    Collection(InstrumentedCollectionView),
}

impl View for InstrumentedDeclaration {
    type V = InstrumentedDeclarationView;

    open spec fn view(&self) -> InstrumentedDeclarationView {
        match self {
            InstrumentedDeclaration::Free(c) => InstrumentedDeclarationView::Free(c@),
            InstrumentedDeclaration::Collection(c) => InstrumentedDeclarationView::Collection(c@),
        }
    }
}

} // verus!
