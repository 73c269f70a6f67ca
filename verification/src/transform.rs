//! The instrument transformer: validating a parameter list and rewriting a
//! function body so that it runs inside a tracing span.

use vstd::prelude::*;
use vstd::string::StringExecFns;

use crate::ast::{
    BindingPattern, FunctionDefinition, Parameter, SourceSpan, Stmt, TransformedFunction,
};

verus! {

/// The span description fragment contributed by one named argument:
/// `, <name>={:?}`.
pub open spec fn arg_fragment(name: Seq<char>) -> Seq<char> {
    seq![',', ' '] + name + seq!['=', '{', ':', '?', '}']
}

/// The fragment a parameter contributes to the format template: receivers
/// contribute nothing, a named parameter contributes its `arg_fragment`.
/// (A parameter with any other pattern makes the whole transformation fail,
/// so the empty fragment it maps to is never used.)
pub open spec fn param_fragment(p: Parameter) -> Seq<char> {
    match p {
        Parameter::Typed { pattern: BindingPattern::Ident { name }, .. } => arg_fragment(name@),
        _ => Seq::empty(),
    }
}

/// The argument names a parameter contributes to the argument list.
pub open spec fn param_names(p: Parameter) -> Seq<Seq<char>> {
    match p {
        Parameter::Typed { pattern: BindingPattern::Ident { name }, .. } => seq![name@],
        _ => Seq::empty(),
    }
}

/// The full format template of a parameter list: the fragments of all
/// parameters, concatenated in declaration order.
pub open spec fn format_template(params: Seq<Parameter>) -> Seq<char>
    decreases params.len(),
{
    if params.len() == 0 {
        Seq::empty()
    } else {
        format_template(params.drop_last()) + param_fragment(params.last())
    }
}

/// The ordered argument list of a parameter list: the names of all
/// identifier-bound parameters, in declaration order.
pub open spec fn arg_names(params: Seq<Parameter>) -> Seq<Seq<char>>
    decreases params.len(),
{
    if params.len() == 0 {
        Seq::empty()
    } else {
        arg_names(params.drop_last()) + param_names(params.last())
    }
}

/// The name label of a function: `<source-file>#<function-name>`.
pub open spec fn name_label(file: Seq<char>, name: Seq<char>) -> Seq<char> {
    file + seq!['#'] + name
}

/// Every parameter of the list can be instrumented.
pub open spec fn all_instrumentable(params: Seq<Parameter>) -> bool {
    forall|i: int| 0 <= i < params.len() ==> params[i].is_instrumentable()
}

/// `ix` is the first parameter the transformer must reject: it is not
/// instrumentable, and every parameter before it is.
pub open spec fn rejects_at(params: Seq<Parameter>, ix: int) -> bool {
    &&& 0 <= ix < params.len()
    &&& !params[ix].is_instrumentable()
    &&& forall|j: int| 0 <= j < ix ==> params[j].is_instrumentable()
}

/// Every field of the signature is carried over unchanged: attributes,
/// visibility, qualifiers, generics, name, parameter list, return type and
/// originating source file.
pub open spec fn signature_preserved(t: TransformedFunction, d: FunctionDefinition) -> bool {
    &&& t.attrs == d.attrs
    &&& t.vis == d.vis
    &&& t.constness == d.constness
    &&& t.unsafety == d.unsafety
    &&& t.asyncness == d.asyncness
    &&& t.abi == d.abi
    &&& t.generics == d.generics
    &&& t.name == d.name
    &&& t.params == d.params
    &&& t.output == d.output
    &&& t.source_file == d.source_file
}

/// The new body is one span statement: its label is `<source-file>#<name>`,
/// its template and argument list describe the parameters in declaration
/// order, and it encloses the original statement sequence unchanged.
pub open spec fn spans_body_of(t: TransformedFunction, d: FunctionDefinition) -> bool {
    t.body matches Stmt::Span { label, template, args, body } && {
        &&& label@ == name_label(d.source_file@, d.name@)
        &&& template@ == format_template(d.params@)
        &&& args.deep_view() == arg_names(d.params@)
        &&& body == d.body
    }
}

/// What a successful transformation guarantees.
pub open spec fn transformed_from(t: TransformedFunction, d: FunctionDefinition) -> bool {
    signature_preserved(t, d) && spans_body_of(t, d)
}

/// `d` is `t` repacked as a plain definition: same signature, and a body that
/// consists of exactly the one span statement.
pub open spec fn reapplied(d: FunctionDefinition, t: TransformedFunction) -> bool {
    signature_preserved(t, d) && d.body@ == seq![t.body]
}

/// The one error kind: a parameter whose binding pattern is not a single
/// identifier.  `index` is the offending parameter's position in declaration
/// order; `location` anchors the diagnostic in the host source file.
#[derive(Debug, PartialEq, Eq)]
pub struct UnsupportedParameterPattern {
    pub index: usize,
    pub location: SourceSpan,
}

impl UnsupportedParameterPattern {
    /// The diagnostic text shown for this error.
    pub fn message(&self) -> (m: String)
        ensures
            m@ == "instrumented functions need to name arguments"@,
    {
        "instrumented functions need to name arguments".to_owned()
    }
}

/// Extending the parameter prefix by one parameter extends the template by
/// that parameter's fragment and the argument list by its names.
proof fn lemma_per_param_step(params: Seq<Parameter>, i: int)
    requires
        0 <= i < params.len(),
    ensures
        format_template(params.take(i + 1)) == format_template(params.take(i)) + param_fragment(
            params[i],
        ),
        arg_names(params.take(i + 1)) == arg_names(params.take(i)) + param_names(params[i]),
{
    assert(params.take(i + 1).drop_last() =~= params.take(i));
    assert(params.take(i + 1).last() == params[i]);
}

/// Rewrite one function definition so that its body runs inside a tracing
/// span describing the function and its arguments.
///
/// The transformation succeeds exactly when every parameter is either a
/// receiver or a single-identifier binding; otherwise it aborts at the first
/// offending parameter, producing no output for this function.
pub fn transform(def: FunctionDefinition) -> (r: Result<
    TransformedFunction,
    UnsupportedParameterPattern,
>)
    ensures
        r is Ok <==> all_instrumentable(def.params@),
        r matches Ok(t) ==> transformed_from(t, def),
        r matches Err(e) ==> {
            &&& rejects_at(def.params@, e.index as int)
            &&& e.location == def.params@[e.index as int].spec_location()
        },
{
    let mut template = String::new();
    let mut args: Vec<String> = Vec::new();
    let n: usize = def.params.len();
    let mut i: usize = 0;
    while i < n
        invariant
            n == def.params@.len(),
            i <= n,
            forall|j: int| 0 <= j < i ==> def.params@[j].is_instrumentable(),
            template@ == format_template(def.params@.take(i as int)),
            args.deep_view() == arg_names(def.params@.take(i as int)),
        decreases n - i,
    {
        match &def.params[i] {
            Parameter::Receiver { .. } => {
                proof {
                    lemma_per_param_step(def.params@, i as int);
                    assert(template@ =~= format_template(def.params@.take(i + 1)));
                    assert(args.deep_view() =~= arg_names(def.params@.take(i + 1)));
                }
            },
            Parameter::Typed { pattern, location, .. } => {
                match pattern {
                    BindingPattern::Ident { name } => {
                        let ghost old_template = template@;
                        let ghost old_args = args.deep_view();
                        template.append(", ");
                        template.append(name.as_str());
                        template.append("={:?}");
                        args.push(name.clone());
                        proof {
                            lemma_per_param_step(def.params@, i as int);
                            reveal_strlit(", ");
                            reveal_strlit("={:?}");
                            assert(template@ =~= old_template + arg_fragment(name@));
                            assert(template@ =~= format_template(def.params@.take(i + 1)));
                            assert(args.deep_view() =~= old_args + seq![name@]);
                            assert(args.deep_view() =~= arg_names(def.params@.take(i + 1)));
                        }
                    },
                    _ => {
                        proof {
                            assert(!def.params@[i as int].is_instrumentable());
                        }
                        return Err(
                            UnsupportedParameterPattern { index: i, location: *location },
                        );
                    },
                }
            },
        }
        i += 1;
    }
    let mut label = String::new();
    label.append(def.source_file.as_str());
    label.append("#");
    label.append(def.name.as_str());
    proof {
        reveal_strlit("#");
        assert(label@ =~= name_label(def.source_file@, def.name@));
        assert(def.params@.take(n as int) =~= def.params@);
    }
    let body = Stmt::Span { label, template, args, body: def.body };
    Ok(
        TransformedFunction {
            attrs: def.attrs,
            vis: def.vis,
            constness: def.constness,
            unsafety: def.unsafety,
            asyncness: def.asyncness,
            abi: def.abi,
            generics: def.generics,
            name: def.name,
            params: def.params,
            output: def.output,
            body,
            source_file: def.source_file,
        },
    )
}

impl TransformedFunction {
    /// Repack a transformed function as a plain definition whose body is the
    /// one span statement, so it can be handed to the transformer again.
    pub fn into_definition(self) -> (d: FunctionDefinition)
        ensures
            reapplied(d, self),
    {
        let mut body: Vec<Stmt> = Vec::new();
        body.push(self.body);
        proof {
            assert(body@ =~= seq![self.body]);
        }
        FunctionDefinition {
            attrs: self.attrs,
            vis: self.vis,
            constness: self.constness,
            unsafety: self.unsafety,
            asyncness: self.asyncness,
            abi: self.abi,
            generics: self.generics,
            name: self.name,
            params: self.params,
            output: self.output,
            body,
            source_file: self.source_file,
        }
    }
}

/// A function with no parameters gets an empty format template and an empty
/// argument list, so its span description is the bare name label with no
/// trailing argument suffix.
pub proof fn lemma_no_params_empty_suffix(params: Seq<Parameter>)
    requires
        params.len() == 0,
    ensures
        format_template(params) == Seq::<char>::empty(),
        arg_names(params) == Seq::<Seq<char>>::empty(),
{
}

/// Receivers contribute nothing: a parameter list made of receivers alone
/// leaves the format template and the argument list empty.
pub proof fn lemma_receivers_only_empty_suffix(params: Seq<Parameter>)
    requires
        forall|i: int| 0 <= i < params.len() ==> params[i] is Receiver,
    ensures
        format_template(params) == Seq::<char>::empty(),
        arg_names(params) == Seq::<Seq<char>>::empty(),
    decreases params.len(),
{
    if params.len() > 0 {
        assert(forall|i: int|
            0 <= i < params.drop_last().len() ==> params.drop_last()[i] is Receiver);
        lemma_receivers_only_empty_suffix(params.drop_last());
        assert(params.last() is Receiver);
        assert(format_template(params) =~= Seq::<char>::empty());
        assert(arg_names(params) =~= Seq::<Seq<char>>::empty());
    }
}

/// Whether a function is accepted is decided by its own parameter list alone:
/// one function with an unsupported pattern never blocks another whose
/// parameters are all named.  Combined with `transform`'s contract, the first
/// function transforms successfully and the second fails, whichever order
/// they are processed in.
pub proof fn lemma_independent_outcomes(
    good: FunctionDefinition,
    bad: FunctionDefinition,
    ix: int,
)
    requires
        all_instrumentable(good.params@),
        rejects_at(bad.params@, ix),
    ensures
        all_instrumentable(good.params@),
        !all_instrumentable(bad.params@),
{
    assert(!bad.params@[ix].is_instrumentable());
}

/// Re-application is not idempotent: feeding a transformed function back to
/// the transformer is accepted (the parameter list is unchanged), but wraps
/// the span statement in a second span, so the original statements end up two
/// spans deep instead of one.
pub proof fn lemma_reapplication_nests(
    d: FunctionDefinition,
    t: TransformedFunction,
    d2: FunctionDefinition,
    t2: TransformedFunction,
)
    requires
        all_instrumentable(d.params@),
        transformed_from(t, d),
        reapplied(d2, t),
        transformed_from(t2, d2),
    ensures
        all_instrumentable(d2.params@),
        t2.body matches Stmt::Span { body: inner, .. } && {
            &&& inner@.len() == 1
            &&& inner@[0] == t.body
            &&& inner@[0] is Span
        },
{
}

} // verus!
