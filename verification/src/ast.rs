//! The structural representation of one function definition.
//!
//! Every entity here is plain value data: the pieces of a parsed function
//! that the transformer reads or passes through unchanged.  Fields the
//! transformer never inspects (attributes, visibility, generics, types,
//! ordinary statements) are carried as opaque strings.

use vstd::prelude::*;

verus! {

/// A position in the host source file, used to anchor diagnostics.
#[derive(Clone, Copy, Debug, PartialEq, Eq, Structural)]
pub struct SourceSpan {
    pub line: u64,
    pub column: u64,
}

/// The binding pattern of one parameter.
///
/// Only a binding that is a single identifier can be instrumented; the other
/// shapes are kept apart so a diagnostic can point at them, but their
/// contents are never read.
#[derive(Debug, PartialEq, Eq)]
pub enum BindingPattern {
    /// A single identifier, e.g. `x: i32`.
    Ident { name: String },
    /// A tuple destructuring, e.g. `(a, b): (i32, i32)`.
    Tuple,
    /// A struct destructuring, e.g. `Point { x, y }: Point`.
    Struct,
    /// The wildcard `_`.
    Wildcard,
    /// Any other pattern shape.
    Other,
}

/// One entry of a function's parameter list.
#[derive(Debug, PartialEq, Eq)]
pub enum Parameter {
    /// A receiver such as `self` or `&mut self`.  The transformer passes it
    /// through and does not record it in the argument description.
    Receiver { location: SourceSpan },
    /// An ordinary typed parameter: a binding pattern and a type descriptor.
    Typed { pattern: BindingPattern, ty: String, location: SourceSpan },
}

impl Parameter {
    /// Whether the transformer can instrument this parameter: receivers are
    /// passed over, and a typed parameter must bind a single identifier.
    pub open spec fn is_instrumentable(self) -> bool {
        match self {
            Parameter::Receiver { .. } => true,
            Parameter::Typed { pattern, .. } => pattern is Ident,
        }
    }

    /// The source position this parameter was parsed at.
    pub open spec fn spec_location(self) -> SourceSpan {
        match self {
            Parameter::Receiver { location } => location,
            Parameter::Typed { location, .. } => location,
        }
    }
}

/// One statement of a function body.
///
/// A statement is either opaque host-language text, which the transformer
/// never reads, or a span-wrapping statement produced by the transformer
/// itself: the latter shape is what re-application of the transformer sees.
#[derive(Debug, PartialEq, Eq)]
pub enum Stmt {
    /// An ordinary statement, carried through unchanged.
    Opaque { text: String },
    /// A statement that runs `body` inside a tracing span.  The span's
    /// description is `label` followed by `template` formatted against the
    /// debug-rendered values of the variables named in `args`.
    Span { label: String, template: String, args: Vec<String>, body: Vec<Stmt> },
}

/// A parsed function definition, as handed over by the host front end.
#[derive(Debug, PartialEq, Eq)]
pub struct FunctionDefinition {
    /// Pre-existing attribute annotations, opaque, passed through unchanged.
    pub attrs: Vec<String>,
    /// Visibility marker, opaque, passed through unchanged.
    pub vis: String,
    /// Whether the function is `const`.
    pub constness: bool,
    /// Whether the function is `unsafe`.
    pub unsafety: bool,
    /// Whether the function is `async`.
    pub asyncness: bool,
    /// Calling convention, if one is spelled out; opaque.
    pub abi: Option<String>,
    /// Generic parameter list, opaque, passed through unchanged.
    pub generics: String,
    /// The function's name.
    pub name: String,
    /// The parameter list, in declaration order.
    pub params: Vec<Parameter>,
    /// Return type descriptor, opaque, passed through unchanged.
    pub output: String,
    /// The body: an ordered sequence of statements.
    pub body: Vec<Stmt>,
    /// The path of the source file the function originates from.
    pub source_file: String,
}

/// A rewritten function definition: identical to the input in every field
/// except the body, which is a single span-wrapping statement.
#[derive(Debug, PartialEq, Eq)]
pub struct TransformedFunction {
    pub attrs: Vec<String>,
    pub vis: String,
    pub constness: bool,
    pub unsafety: bool,
    pub asyncness: bool,
    pub abi: Option<String>,
    pub generics: String,
    pub name: String,
    pub params: Vec<Parameter>,
    pub output: String,
    /// The new body: one statement wrapping the original statements in a span.
    pub body: Stmt,
    pub source_file: String,
}

} // verus!
