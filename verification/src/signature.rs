//! The signature analyzer: what generation reads of the annotated function,
//! the checks it makes on it, and the names it derives from it.

use crate::diagnostics::{report, reported, Diagnostic};
use crate::text::texts;
use vstd::prelude::*;
use vstd::string::{StrSliceExecFns, StringExecFns};

verus! {

/// Whether an input's type is a reference, and whether its lifetime is stated.
#[derive(Clone, Copy, Debug, PartialEq, Eq, Structural)]
pub enum Borrow {
    /// The type is not a reference.
    Owned,
    /// A reference whose lifetime is left to elision.
    Elided,
    /// A reference with a stated lifetime.
    Stated,
}

/// An input that binds a name to a type.
#[derive(Clone, Debug)]
pub struct TypedArgument {
    /// The identifier that the input binds.
    pub name: String,
    /// The input's type, as source text.
    pub ty: String,
    pub borrow: Borrow,
}

/// One input of the annotated function, as written.
#[derive(Clone, Debug)]
pub enum Argument {
    Receiver,
    Typed(TypedArgument),
}

/// One parameter of the function that is made partially applicable.
#[derive(Clone, Debug)]
pub struct Parameter {
    pub name: String,
    /// The parameter's type, as source text.
    pub ty: String,
}

/// One generic parameter of the annotated function.
#[derive(Clone, Debug)]
pub struct Generic {
    /// What stands for the parameter among type arguments: `T`, `'a`, `N`.
    pub name: String,
    /// The parameter as declared, bounds included: `T: Clone`, `const N: usize`.
    pub declaration: String,
}

/// The annotated function, as the front end read it.
#[derive(Clone, Debug)]
pub struct Function {
    pub name: String,
    /// The generic parameters, in order.
    pub generics: Vec<Generic>,
    /// Whether the generics carry a where-clause.
    pub where_clause: bool,
    pub inputs: Vec<Argument>,
    /// The return type as source text, arrow included; empty if none is written.
    pub output: String,
    /// The body as source text, braces included.
    pub body: String,
}

/// The annotated item: a function, or the source text of anything else.
#[derive(Clone, Debug)]
pub enum Item {
    Function(Function),
    Other(String),
}

/// Whether a character has the Unicode property XID_Start, as
/// `unicode_ident::is_xid_start` finds it in its tables.
pub uninterp spec fn xid_start(c: char) -> bool;

/// Whether a character has the Unicode property XID_Continue, as
/// `unicode_ident::is_xid_continue` finds it in its tables.
pub uninterp spec fn xid_continue(c: char) -> bool;

/// `name` can be written as an identifier: it is not empty, it starts with
/// an underscore or a character of XID_Start, and goes on with characters
/// of XID_Continue.
pub open spec fn identifier(name: Seq<char>) -> bool {
    &&& name.len() > 0
    &&& (name[0] == '_' || xid_start(name[0]))
    &&& forall|i: int| 1 <= i < name.len() ==> xid_continue(#[trigger] name[i])
}

/// Every parameter's name is an identifier.
pub open spec fn named(params: Seq<Parameter>) -> bool {
    forall|i: int| 0 <= i < params.len() ==> identifier(#[trigger] params[i].name@)
}

/// Every typed input's name is an identifier.
pub open spec fn inputs_named(inputs: Seq<Argument>) -> bool {
    forall|i: int|
        0 <= i < inputs.len() ==> (#[trigger] inputs[i] matches Argument::Typed(t)
            ==> identifier(t.name@))
}

/// The generic parameters as they stand among type arguments, in order.
pub open spec fn generic_names_of(generics: Seq<Generic>) -> Seq<Seq<char>> {
    Seq::new(generics.len(), |i: int| generics[i].name@)
}

/// The generic parameters as they are declared, in order.
pub open spec fn declarations_of(generics: Seq<Generic>) -> Seq<Seq<char>> {
    Seq::new(generics.len(), |i: int| generics[i].declaration@)
}

/// The identifier derived from `base` and `end`: both, with three
/// underscores between them.
pub open spec fn joined_name(base: Seq<char>, end: Seq<char>) -> Seq<char> {
    base + "___"@ + end
}

/// The identifiers derived from each of `names` and `end`.
pub open spec fn joined_names(names: Seq<Seq<char>>, end: Seq<char>) -> Seq<Seq<char>> {
    Seq::new(names.len(), |i: int| joined_name(names[i], end))
}

/// Some input is a receiver.
pub open spec fn has_receiver(inputs: Seq<Argument>) -> bool {
    exists|i: int| 0 <= i < inputs.len() && #[trigger] inputs[i] is Receiver
}

/// The name and type of every typed input, in order; receivers are left out.
pub open spec fn declared(inputs: Seq<Argument>) -> Seq<(Seq<char>, Seq<char>)>
    decreases inputs.len(),
{
    if inputs.len() == 0 {
        Seq::empty()
    } else {
        match inputs.last() {
            Argument::Receiver => declared(inputs.drop_last()),
            Argument::Typed(t) => declared(inputs.drop_last()).push((t.name@, t.ty@)),
        }
    }
}

/// The input at position `i` is a reference that states no lifetime.
pub open spec fn elides_lifetime(inputs: Seq<Argument>, i: int) -> bool {
    inputs[i] matches Argument::Typed(t) && t.borrow == Borrow::Elided
}

/// One finding for every input that is a reference without a stated
/// lifetime, in the order of the inputs, each with the input's position.
pub open spec fn elision_diagnostics(inputs: Seq<Argument>) -> Seq<Diagnostic>
    decreases inputs.len(),
{
    if inputs.len() == 0 {
        Seq::empty()
    } else {
        elision_diagnostics(inputs.drop_last()) + reported(
            elides_lifetime(inputs, inputs.len() - 1),
            Diagnostic::ElidedLifetime { input: (inputs.len() - 1) as usize },
        )
    }
}

/// The name and type of every parameter, in order.
pub open spec fn described(params: Seq<Parameter>) -> Seq<(Seq<char>, Seq<char>)> {
    Seq::new(params.len(), |i: int| (params[i].name@, params[i].ty@))
}

/// The parameters' names, in order.
pub open spec fn names_of(params: Seq<Parameter>) -> Seq<Seq<char>> {
    Seq::new(params.len(), |i: int| params[i].name@)
}

/// The parameters' types, in order.
pub open spec fn types_of(params: Seq<Parameter>) -> Seq<Seq<char>> {
    Seq::new(params.len(), |i: int| params[i].ty@)
}

/// `unicode_ident::is_xid_start`: a lookup in the crate's tables, the same
/// for the same character wherever it runs.
#[verifier::external_body]
fn is_xid_start(c: char) -> (found: bool)
    ensures
        found == xid_start(c),
{
    unicode_ident::is_xid_start(c)
}

/// `unicode_ident::is_xid_continue`: a lookup in the crate's tables, the
/// same for the same character wherever it runs.
#[verifier::external_body]
fn is_xid_continue(c: char) -> (found: bool)
    ensures
        found == xid_continue(c),
{
    unicode_ident::is_xid_continue(c)
}

/// Whether `name` can be written as an identifier.
pub fn is_identifier(name: &str) -> (ok: bool)
    ensures
        ok == identifier(name@),
{
    let n = name.unicode_len();
    if n == 0 {
        return false;
    }
    let first = name.get_char(0);
    if first != '_' && !is_xid_start(first) {
        return false;
    }
    let mut i: usize = 1;
    while i < n
        invariant
            1 <= i <= n,
            n == name@.len(),
            forall|j: int| 1 <= j < i ==> xid_continue(#[trigger] name@[j]),
        decreases n - i,
    {
        if !is_xid_continue(name.get_char(i)) {
            return false;
        }
        i += 1;
    }
    true
}

/// Whether every typed input's name is an identifier.
pub fn are_inputs_named(inputs: &Vec<Argument>) -> (ok: bool)
    ensures
        ok == inputs_named(inputs@),
{
    let mut i: usize = 0;
    while i < inputs.len()
        invariant
            i <= inputs.len(),
            forall|j: int|
                0 <= j < i ==> (#[trigger] inputs@[j] matches Argument::Typed(t) ==> identifier(
                    t.name@,
                )),
        decreases inputs.len() - i,
    {
        match &inputs[i] {
            Argument::Receiver => {},
            Argument::Typed(t) => {
                if !is_identifier(t.name.as_str()) {
                    return false;
                }
            },
        }
        i += 1;
    }
    true
}

/// The generic parameters as they stand among type arguments.
pub fn generic_names(generics: &Vec<Generic>) -> (names: Vec<String>)
    ensures
        names@.len() == generics@.len(),
        texts(names@) == generic_names_of(generics@),
{
    let mut names: Vec<String> = Vec::new();
    let mut i: usize = 0;
    while i < generics.len()
        invariant
            i <= generics.len(),
            names@.len() == i,
            forall|j: int| 0 <= j < i ==> #[trigger] names@[j]@ == generics@[j].name@,
        decreases generics.len() - i,
    {
        names.push(generics[i].name.clone());
        i += 1;
    }
    proof {
        assert(texts(names@) =~= generic_names_of(generics@));
    }
    names
}

/// The generic parameters as they are declared.
pub fn generic_declarations(generics: &Vec<Generic>) -> (declarations: Vec<String>)
    ensures
        declarations@.len() == generics@.len(),
        texts(declarations@) == declarations_of(generics@),
{
    let mut declarations: Vec<String> = Vec::new();
    let mut i: usize = 0;
    while i < generics.len()
        invariant
            i <= generics.len(),
            declarations@.len() == i,
            forall|j: int|
                0 <= j < i ==> #[trigger] declarations@[j]@ == generics@[j].declaration@,
        decreases generics.len() - i,
    {
        declarations.push(generics[i].declaration.clone());
        i += 1;
    }
    proof {
        assert(texts(declarations@) =~= declarations_of(generics@));
    }
    declarations
}

/// Concatenates an identifier with a suffix, three underscores between them.
pub fn concat_ident(ident: &str, end: &str) -> (name: String)
    ensures
        name@ == joined_name(ident@, end@),
{
    let mut name = String::from_str(ident);
    name.append("___");
    name.append(end);
    name
}

/// Whether any input is a receiver.
pub fn takes_receiver(inputs: &Vec<Argument>) -> (found: bool)
    ensures
        found == has_receiver(inputs@),
{
    let mut i: usize = 0;
    while i < inputs.len()
        invariant
            i <= inputs.len(),
            forall|j: int| 0 <= j < i ==> !(#[trigger] inputs@[j] is Receiver),
        decreases inputs.len() - i,
    {
        match &inputs[i] {
            Argument::Receiver => {
                return true;
            },
            Argument::Typed(_) => {},
        }
        i += 1;
    }
    false
}

/// Gets the name of the function. A function with a receiver is reported,
/// once, and its name is returned all the same.
pub fn get_name<'a>(func: &'a Function, diagnostics: &mut Vec<Diagnostic>) -> (name: &'a str)
    ensures
        name@ == func.name@,
        final(diagnostics)@ == old(diagnostics)@ + reported(
            has_receiver(func.inputs@),
            Diagnostic::Receiver,
        ),
{
    let found = takes_receiver(&func.inputs);
    report(diagnostics, found, Diagnostic::Receiver);
    func.name.as_str()
}

/// Reduces the inputs to the parameters that generation works on: every
/// typed input, in order, with receivers dropped. Each reference input that
/// states no lifetime is reported and kept.
pub fn argument_vector(inputs: &Vec<Argument>, diagnostics: &mut Vec<Diagnostic>) -> (params: Vec<
    Parameter,
>)
    ensures
        described(params@) == declared(inputs@),
        final(diagnostics)@ == old(diagnostics)@ + elision_diagnostics(inputs@),
{
    let mut params: Vec<Parameter> = Vec::new();
    let mut i: usize = 0;
    proof {
        assert(inputs@.take(0).len() == 0);
        assert(described(params@) =~= declared(inputs@.take(0)));
        assert(diagnostics@ =~= old(diagnostics)@ + elision_diagnostics(inputs@.take(0)));
    }
    while i < inputs.len()
        invariant
            i <= inputs.len(),
            described(params@) == declared(inputs@.take(i as int)),
            diagnostics@ == old(diagnostics)@ + elision_diagnostics(inputs@.take(i as int)),
        decreases inputs.len() - i,
    {
        let ghost before = params@;
        let ghost sunk = diagnostics@;
        let ghost head = inputs@.take(i as int);
        let ghost next = inputs@.take(i + 1);
        proof {
            assert(next.drop_last() =~= head);
            assert(next.last() == inputs@[i as int]);
            assert(elides_lifetime(next, next.len() - 1) == elides_lifetime(inputs@, i as int));
        }
        match &inputs[i] {
            Argument::Receiver => {
                report(diagnostics, false, Diagnostic::ElidedLifetime { input: i });
            },
            Argument::Typed(t) => {
                let elided = match t.borrow {
                    Borrow::Elided => true,
                    _ => false,
                };
                report(diagnostics, elided, Diagnostic::ElidedLifetime { input: i });
                params.push(Parameter { name: t.name.clone(), ty: t.ty.clone() });
                proof {
                    assert(described(params@) =~= described(before).push((t.name@, t.ty@)));
                }
            },
        }
        proof {
            assert(diagnostics@ =~= old(diagnostics)@ + elision_diagnostics(next));
        }
        i += 1;
    }
    proof {
        assert(inputs@.take(i as int) =~= inputs@);
    }
    params
}

/// The parameters' names, in order. Each of them is an identifier.
pub fn arg_names(args: &Vec<Parameter>) -> (names: Vec<String>)
    requires
        named(args@),
    ensures
        names@.len() == args@.len(),
        texts(names@) == names_of(args@),
{
    let mut names: Vec<String> = Vec::new();
    let mut i: usize = 0;
    while i < args.len()
        invariant
            i <= args.len(),
            names@.len() == i,
            forall|j: int| 0 <= j < i ==> #[trigger] names@[j]@ == args@[j].name@,
        decreases args.len() - i,
    {
        names.push(args[i].name.clone());
        i += 1;
    }
    proof {
        assert(texts(names@) =~= names_of(args@));
    }
    names
}

/// The parameters' types, in order.
pub fn arg_types(args: &Vec<Parameter>) -> (types: Vec<String>)
    ensures
        types@.len() == args@.len(),
        texts(types@) == types_of(args@),
{
    let mut types: Vec<String> = Vec::new();
    let mut i: usize = 0;
    while i < args.len()
        invariant
            i <= args.len(),
            types@.len() == i,
            forall|j: int| 0 <= j < i ==> #[trigger] types@[j]@ == args@[j].ty@,
        decreases args.len() - i,
    {
        types.push(args[i].ty.clone());
        i += 1;
    }
    proof {
        assert(texts(types@) =~= types_of(args@));
    }
    types
}

/// Derives one identifier from each of `names` and `end`.
pub fn concat_idents(names: &Vec<String>, end: &str) -> (out: Vec<String>)
    ensures
        out@.len() == names@.len(),
        texts(out@) == joined_names(texts(names@), end@),
{
    let mut out: Vec<String> = Vec::new();
    let mut i: usize = 0;
    while i < names.len()
        invariant
            i <= names.len(),
            out@.len() == i,
            forall|j: int| 0 <= j < i ==> #[trigger] out@[j]@ == joined_name(names@[j]@, end@),
        decreases names.len() - i,
    {
        out.push(concat_ident(names[i].as_str(), end));
        i += 1;
    }
    proof {
        assert(texts(out@) =~= joined_names(texts(names@), end@));
    }
    out
}

/// The names of the fields that anchor each parameter's label in the carrier.
pub fn marker_names(names: &Vec<String>) -> (out: Vec<String>)
    ensures
        out@.len() == names@.len(),
        texts(out@) == joined_names(texts(names@), "m"@),
{
    concat_idents(names, "m")
}

/// The names of the generic parameters that stand for each parameter's producer.
pub fn augmented_argument_names(arg_names: &Vec<String>) -> (out: Vec<String>)
    ensures
        out@.len() == arg_names@.len(),
        texts(out@) == joined_names(texts(arg_names@), "FN"@),
{
    concat_idents(arg_names, "FN")
}

} // verus!
