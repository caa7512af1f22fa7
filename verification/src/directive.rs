//! Data model for instrumentation directives and the declarations they
//! are attached to.
//!
//! A directive is a parsed instruction attached to one declaration.  Its
//! metric name is either a literal string or a reference to a
//! string-valued constant that is resolved at declaration time against a
//! table of constant bindings.

use vstd::prelude::*;

verus! {

/// A metric-name expression inside a `Named` directive: either a literal
/// string, used verbatim, or a symbol naming a string-valued constant.
pub enum NameExpr {
    Literal(String),
    Symbol(String),
}

/// Specification-level counterpart of [`NameExpr`].
pub enum NameExprView {
    Literal(Seq<char>),
    Symbol(Seq<char>),
}

impl View for NameExpr {
    type V = NameExprView;

    open spec fn view(&self) -> NameExprView {
        match self {
            NameExpr::Literal(s) => NameExprView::Literal(s@),
            NameExpr::Symbol(s) => NameExprView::Symbol(s@),
        }
    }
}

/// An instrumentation directive attached to a declaration: either a
/// request to emit under a given metric name, or an explicit opt-out.
pub enum Directive {
    Named(NameExpr),
    Disabled,
}

/// Specification-level counterpart of [`Directive`].
pub enum DirectiveView {
    Named(NameExprView),
    Disabled,
}

impl View for Directive {
    type V = DirectiveView;

    open spec fn view(&self) -> DirectiveView {
        match self {
            Directive::Named(n) => DirectiveView::Named(n@),
            Directive::Disabled => DirectiveView::Disabled,
        }
    }
}

/// The view of an optional directive, `None` standing for a declaration
/// that carries no directive at all.
pub open spec fn opt_directive_view(d: &Option<Directive>) -> Option<DirectiveView> {
    match d {
        Some(d) => Some(d@),
        None => None,
    }
}

/// The view of an optional string.
pub open spec fn opt_string_view(o: &Option<String>) -> Option<Seq<char>> {
    match o {
        Some(s) => Some(s@),
        None => None,
    }
}

/// One string-valued constant visible at declaration time, available to
/// symbolic metric-name references.
pub struct ConstBinding {
    pub symbol: String,
    pub value: String,
}

/// Specification-level counterpart of [`ConstBinding`].
pub struct ConstBindingView {
    pub symbol: Seq<char>,
    pub value: Seq<char>,
}

impl View for ConstBinding {
    type V = ConstBindingView;

    open spec fn view(&self) -> ConstBindingView {
        ConstBindingView { symbol: self.symbol@, value: self.value@ }
    }
}

/// The view of a whole table of constant bindings.
pub open spec fn env_view(env: &Vec<ConstBinding>) -> Seq<ConstBindingView> {
    env@.map_values(|b: ConstBinding| b@)
}

/// The final, conflict-resolved instrumentation decision for one
/// callable: emit under a metric name, with the owner type attached only
/// when the directive was inherited from the enclosing collection, or
/// stay silent.
pub enum EffectiveDirective {
    Emit { metric_name: String, owner_type_name: Option<String> },
    Suppress,
}

/// Specification-level counterpart of [`EffectiveDirective`].
pub enum EffectiveDirectiveView {
    Emit { metric_name: Seq<char>, owner_type_name: Option<Seq<char>> },
    Suppress,
}

impl View for EffectiveDirective {
    type V = EffectiveDirectiveView;

    open spec fn view(&self) -> EffectiveDirectiveView {
        match self {
            EffectiveDirective::Emit { metric_name, owner_type_name } => {
                EffectiveDirectiveView::Emit {
                    metric_name: metric_name@,
                    owner_type_name: match owner_type_name {
                        Some(o) => Some(o@),
                        None => None,
                    },
                }
            },
            EffectiveDirective::Suppress => EffectiveDirectiveView::Suppress,
        }
    }
}

/// The view of the outcome of resolving one callable.
pub open spec fn resolution_view(r: &Result<EffectiveDirective, ResolutionError>) -> Result<
    EffectiveDirectiveView,
    ResolutionError,
> {
    match r {
        Ok(e) => Ok(e@),
        Err(e) => Err(*e),
    }
}

/// The view of a sequence of effective directives.
pub open spec fn effective_directives_view(s: Seq<EffectiveDirective>) -> Seq<
    EffectiveDirectiveView,
> {
    s.map_values(|e: EffectiveDirective| e@)
}

/// Why declaration processing failed.  Both variants are fatal for the
/// declaration they occur on: no partially instrumented code is produced.
#[derive(Clone, Copy, Debug, PartialEq, Eq, Structural)]
pub enum ResolutionError {
    /// A whole method collection has no single callable identity to
    /// disable, so an explicit opt-out on a collection is rejected.
    DisableNotAllowedOnCollection,
    /// A symbolic metric-name reference does not resolve to a
    /// string-valued constant.
    InvalidMetricNameExpression,
}

} // verus!
