//! Partial application by code generation. From the description of a
//! function, [`part_app`] generates a carrier type that takes the function's
//! arguments one by one, in any order, each as a producer of the value, and
//! that can be invoked only once every argument has been supplied exactly
//! once. Which arguments have been supplied is part of the carrier's type.

pub mod aggregate;
pub mod carrier;
pub mod constructor;
pub mod diagnostics;
pub mod duplication;
pub mod header;
pub mod labels;
pub mod options;
pub mod setters;
pub mod signature;
pub mod terminal;
pub mod text;

use crate::aggregate::{main_struct, main_struct_text};
use crate::constructor::{generator_func, generator_func_text};
use crate::diagnostics::{report, reported, Diagnostic};
use crate::duplication::{clone_impl, clone_impl_text};
use crate::options::{option_diagnostics, resolve_options, resolved_mode, Mode};
use crate::setters::{argument_calls, argument_calls_texts};
use crate::signature::{
    are_inputs_named, argument_vector, concat_ident, declarations_of, declared, described,
    elides_lifetime, elision_diagnostics, generic_names_of, get_name, has_receiver, identifier,
    inputs_named, is_identifier, joined_name, named, names_of, types_of, Function, Item,
    Parameter,
};
use crate::terminal::{final_call, final_call_text};
use crate::text::{concat_each, each_followed, texts};
use vstd::prelude::*;
use vstd::string::StringExecFns;

verus! {

/// The generated items, each as source text.
#[derive(Clone, Debug)]
pub struct Artifact {
    /// The two marker types, `Added` and `Empty`, scoped to the function's name.
    pub markers: String,
    /// The declaration of the carrier type.
    pub carrier: String,
    /// The constructor, named as the function is.
    pub constructor: String,
    /// One setter per parameter, in the order of the parameters.
    pub setters: Vec<String>,
    /// The terminal operation.
    pub terminal: String,
    /// The duplication of a carrier, where the mode asks for it.
    pub duplication: Option<String>,
}

/// The texts of an [`Artifact`].
pub struct ArtifactText {
    pub markers: Seq<char>,
    pub carrier: Seq<char>,
    pub constructor: Seq<char>,
    pub setters: Seq<Seq<char>>,
    pub terminal: Seq<char>,
    pub duplication: Option<Seq<char>>,
}

impl View for Artifact {
    type V = ArtifactText;

    open spec fn view(&self) -> ArtifactText {
        ArtifactText {
            markers: self.markers@,
            carrier: self.carrier@,
            constructor: self.constructor@,
            setters: texts(self.setters@),
            terminal: self.terminal@,
            duplication: match self.duplication {
                Some(text) => Some(text@),
                None => None,
            },
        }
    }
}

/// What stands in place of the annotated item.
#[derive(Clone, Debug)]
pub enum Output {
    /// The items generated from a function.
    Generated(Artifact),
    /// The annotated item itself, which was not a function.
    Unchanged(String),
    /// Nothing: the function's name, or the name of one of its typed inputs,
    /// is no identifier, so the function cannot be described. The expansion
    /// is to be aborted.
    Aborted,
}

/// The result of one expansion.
#[derive(Clone, Debug)]
pub struct Expansion {
    /// The mode that the options asked for.
    pub mode: Mode,
    /// Every finding, in the order in which the checks are made.
    pub diagnostics: Vec<Diagnostic>,
    pub output: Output,
}

/// The names of the function's parameters: those of its typed inputs.
pub open spec fn parameter_names(inputs: Seq<signature::Argument>) -> Seq<Seq<char>> {
    Seq::new(declared(inputs).len(), |i: int| declared(inputs)[i].0)
}

/// The types of the function's parameters: those of its typed inputs.
pub open spec fn parameter_types(inputs: Seq<signature::Argument>) -> Seq<Seq<char>> {
    Seq::new(declared(inputs).len(), |i: int| declared(inputs)[i].1)
}

/// The name of the carrier type generated for the function `name`.
pub open spec fn struct_name_text(name: Seq<char>) -> Seq<char> {
    "__PartialApplication__"@ + name + "_"@
}

/// The declarations of the two marker types.
pub open spec fn markers_text(name: Seq<char>) -> Seq<char> {
    "#[allow(non_camel_case_types,non_snake_case)]\nstruct "@ + joined_name(name, "Added"@)
        + ";\n#[allow(non_camel_case_types,non_snake_case)]\nstruct "@ + joined_name(
        name,
        "Empty"@,
    ) + ";"@
}

/// The function's name and the name of each of its typed inputs are
/// identifiers.
pub open spec fn well_named(func: Function) -> bool {
    identifier(func.name@) && inputs_named(func.inputs@)
}

/// Everything generated for `func`: the markers, the carrier, the
/// constructor, one setter per parameter, the terminal operation, and, if
/// the mode is polymorphic and cloneable, the duplication.
pub open spec fn artifact_text(func: Function, mode: Mode) -> ArtifactText {
    let names = parameter_names(func.inputs@);
    let types = parameter_types(func.inputs@);
    let generics = declarations_of(func.generics@);
    let arguments = generic_names_of(func.generics@);
    let struct_name = struct_name_text(func.name@);
    let added = joined_name(func.name@, "Added"@);
    let empty = joined_name(func.name@, "Empty"@);
    let poly = mode.polymorphic;
    ArtifactText {
        markers: markers_text(func.name@),
        carrier: main_struct_text(struct_name, names, types, func.output@, generics, poly),
        constructor: generator_func_text(
            struct_name,
            func.name@,
            names,
            types,
            func.output@,
            empty,
            func.body@,
            generics,
            arguments,
            poly,
        ),
        setters: argument_calls_texts(
            struct_name,
            names,
            types,
            added,
            empty,
            func.output@,
            generics,
            arguments,
            poly,
        ),
        terminal: final_call_text(
            struct_name,
            names,
            types,
            func.output@,
            added,
            generics,
            arguments,
            poly,
        ),
        duplication: if mode.polymorphic && mode.cloneable {
            Some(clone_impl_text(struct_name, names, types, func.output@, generics, arguments))
        } else {
            None
        },
    }
}

/// The findings about a function, in the order of the checks: a receiver,
/// a where-clause, then every reference input without a stated lifetime.
pub open spec fn function_diagnostics(func: Function) -> Seq<Diagnostic> {
    reported(has_receiver(func.inputs@), Diagnostic::Receiver) + reported(
        func.where_clause,
        Diagnostic::WhereClause,
    ) + elision_diagnostics(func.inputs@)
}

/// The findings of one expansion: those about the options, then those
/// about the item.
pub open spec fn expansion_diagnostics(tokens: Seq<Seq<char>>, item: Item) -> Seq<Diagnostic> {
    option_diagnostics(tokens) + (match item {
        Item::Function(func) => function_diagnostics(func),
        Item::Other(_) => seq![Diagnostic::NotAFunction],
    })
}

/// The generated items as one source text, in the order markers, carrier,
/// constructor, setters, terminal operation, duplication, each followed by a
/// line break.
pub open spec fn rendered(artifact: ArtifactText) -> Seq<char> {
    let items = artifact.markers + "\n"@ + artifact.carrier + "\n"@ + artifact.constructor
        + "\n"@ + each_followed(artifact.setters, "\n"@) + artifact.terminal + "\n"@;
    match artifact.duplication {
        Some(text) => items + text + "\n"@,
        None => items,
    }
}

/// No finding is made about inputs of which none is a reference without a
/// stated lifetime.
pub proof fn lemma_no_elision_no_finding(inputs: Seq<signature::Argument>)
    requires
        forall|i: int| 0 <= i < inputs.len() ==> !elides_lifetime(inputs, i),
    ensures
        elision_diagnostics(inputs) == Seq::<Diagnostic>::empty(),
    decreases inputs.len(),
{
    if inputs.len() > 0 {
        let head = inputs.drop_last();
        assert forall|i: int| 0 <= i < head.len() implies !elides_lifetime(head, i) by {
            assert(head[i] == inputs[i]);
            assert(!elides_lifetime(inputs, i));
        }
        lemma_no_elision_no_finding(head);
        assert(!elides_lifetime(inputs, inputs.len() - 1));
        assert(elision_diagnostics(inputs) =~= Seq::<Diagnostic>::empty());
    }
}

/// A function with a receiver, and nothing else to object to, gets exactly
/// one finding, and everything is generated for it from its typed inputs.
pub proof fn lemma_receiver_reported_once(tokens: Seq<Seq<char>>, func: Function)
    requires
        option_diagnostics(tokens) == Seq::<Diagnostic>::empty(),
        has_receiver(func.inputs@),
        !func.where_clause,
        forall|i: int| 0 <= i < func.inputs@.len() ==> !elides_lifetime(func.inputs@, i),
    ensures
        expansion_diagnostics(tokens, Item::Function(func)) == seq![Diagnostic::Receiver],
        artifact_text(func, resolved_mode(tokens)).setters.len() == declared(
            func.inputs@,
        ).len(),
{
    lemma_no_elision_no_finding(func.inputs@);
    assert(expansion_diagnostics(tokens, Item::Function(func)) =~= seq![Diagnostic::Receiver]);
}

/// An item that is not a function gets exactly one finding, whatever it is.
pub proof fn lemma_other_item_reported_once(tokens: Seq<Seq<char>>, text: String)
    requires
        option_diagnostics(tokens) == Seq::<Diagnostic>::empty(),
    ensures
        expansion_diagnostics(tokens, Item::Other(text)) == seq![Diagnostic::NotAFunction],
{
    assert(expansion_diagnostics(tokens, Item::Other(text)) =~= seq![Diagnostic::NotAFunction]);
}

/// The options that are accepted without a finding: none at all, or any
/// that hold `poly`.
pub proof fn lemma_accepted_options(tokens: Seq<Seq<char>>)
    ensures
        option_diagnostics(tokens) == Seq::<Diagnostic>::empty() <==> (tokens.len() == 0
            || tokens.contains("poly"@)),
{
    if tokens.len() == 0 {
        assert(!tokens.contains("poly"@));
        assert(!tokens.contains("Clone"@));
    }
    if tokens.len() == 0 || tokens.contains("poly"@) {
        assert(option_diagnostics(tokens) =~= Seq::<Diagnostic>::empty());
    } else {
        assert(option_diagnostics(tokens).len() > 0);
    }
}

impl Artifact {
    /// Assembles the generated items into one source text.
    pub fn render(&self) -> (out: String)
        ensures
            out@ == rendered(self@),
    {
        let mut out = self.markers.clone();
        out.append("\n");
        out.append(self.carrier.as_str());
        out.append("\n");
        out.append(self.constructor.as_str());
        out.append("\n");
        out.append(concat_each(&self.setters, "\n").as_str());
        out.append(self.terminal.as_str());
        out.append("\n");
        match &self.duplication {
            Some(text) => {
                out.append(text.as_str());
                out.append("\n");
            },
            None => {},
        }
        out
    }
}

/// Writes the name of the carrier type generated for the function `name`.
pub fn struct_name(name: &str) -> (out: String)
    ensures
        out@ == struct_name_text(name@),
{
    let mut out = String::from_str("__PartialApplication__");
    out.append(name);
    out.append("_");
    out
}

/// Writes the declarations of the two marker types.
pub fn unit_structs(added_unit: &str, empty_unit: &str) -> (out: String)
    ensures
        out@ == "#[allow(non_camel_case_types,non_snake_case)]\nstruct "@ + added_unit@
            + ";\n#[allow(non_camel_case_types,non_snake_case)]\nstruct "@ + empty_unit@ + ";"@,
{
    let mut out = String::from_str("#[allow(non_camel_case_types,non_snake_case)]\nstruct ");
    out.append(added_unit);
    out.append(";\n#[allow(non_camel_case_types,non_snake_case)]\nstruct ");
    out.append(empty_unit);
    out.append(";");
    out
}

/// The names that come out of inputs whose names are identifiers are
/// identifiers.
pub proof fn lemma_declared_named(inputs: Seq<signature::Argument>)
    requires
        inputs_named(inputs),
    ensures
        forall|k: int|
            0 <= k < declared(inputs).len() ==> identifier((#[trigger] declared(inputs)[k]).0),
    decreases inputs.len(),
{
    if inputs.len() > 0 {
        let head = inputs.drop_last();
        assert forall|i: int| 0 <= i < head.len() implies (#[trigger] head[i] matches signature::Argument::Typed(
            t,
        ) ==> identifier(t.name@)) by {
            assert(head[i] == inputs[i]);
        }
        lemma_declared_named(head);
        let last = inputs[inputs.len() - 1];
        assert(inputs.last() == last);
        assert forall|k: int| 0 <= k < declared(inputs).len() implies identifier(
            (#[trigger] declared(inputs)[k]).0,
        ) by {
            match last {
                signature::Argument::Receiver => {},
                signature::Argument::Typed(t) => {
                    if k < declared(head).len() {
                        assert(declared(inputs)[k] == declared(head)[k]);
                    } else {
                        assert(declared(inputs)[k] == (t.name@, t.ty@));
                        assert(identifier(t.name@));
                    }
                },
            }
        }
    }
}

/// Makes the checks on a function and reports what they find, in their
/// order: a receiver, a where-clause, references without a stated lifetime.
/// Returns the parameters that generation works on.
pub fn analyze(func: &Function, diagnostics: &mut Vec<Diagnostic>) -> (args: Vec<Parameter>)
    ensures
        described(args@) == declared(func.inputs@),
        names_of(args@) == parameter_names(func.inputs@),
        types_of(args@) == parameter_types(func.inputs@),
        inputs_named(func.inputs@) ==> named(args@),
        final(diagnostics)@ == old(diagnostics)@ + function_diagnostics(*func),
{
    let _ = get_name(func, diagnostics);
    report(diagnostics, func.where_clause, Diagnostic::WhereClause);
    let args = argument_vector(&func.inputs, diagnostics);
    proof {
        assert(diagnostics@ =~= old(diagnostics)@ + function_diagnostics(*func));
        assert(described(args@).len() == args@.len());
        assert forall|i: int| 0 <= i < args@.len() implies names_of(args@)[i] == parameter_names(
            func.inputs@,
        )[i] && types_of(args@)[i] == parameter_types(func.inputs@)[i] by {
            assert(described(args@)[i] == (args@[i].name@, args@[i].ty@));
        }
        assert(names_of(args@) =~= parameter_names(func.inputs@));
        assert(types_of(args@) =~= parameter_types(func.inputs@));
        if inputs_named(func.inputs@) {
            lemma_declared_named(func.inputs@);
            assert forall|i: int| 0 <= i < args@.len() implies identifier(
                #[trigger] args@[i].name@,
            ) by {
                assert(described(args@)[i] == (args@[i].name@, args@[i].ty@));
            }
        }
    }
    args
}

/// Generates every item for a function whose parameters are `args`.
pub fn synthesize(func: &Function, args: &Vec<Parameter>, mode: Mode) -> (artifact: Artifact)
    requires
        named(args@),
        names_of(args@) == parameter_names(func.inputs@),
        types_of(args@) == parameter_types(func.inputs@),
    ensures
        artifact@ == artifact_text(*func, mode),
        artifact.setters@.len() == declared(func.inputs@).len(),
{
    let name = func.name.as_str();
    let poly = mode.polymorphic;
    let predicate = struct_name(name);
    let added_unit = concat_ident(name, "Added");
    let empty_unit = concat_ident(name, "Empty");
    let ret_type = func.output.as_str();
    let carrier = main_struct(predicate.as_str(), args, ret_type, &func.generics, poly);
    let constructor = generator_func(
        predicate.as_str(),
        name,
        args,
        ret_type,
        empty_unit.as_str(),
        func.body.as_str(),
        &func.generics,
        poly,
    );
    let markers = unit_structs(added_unit.as_str(), empty_unit.as_str());
    let terminal = final_call(
        predicate.as_str(),
        args,
        ret_type,
        added_unit.as_str(),
        &func.generics,
        poly,
    );
    let setters = argument_calls(
        predicate.as_str(),
        args,
        added_unit.as_str(),
        empty_unit.as_str(),
        ret_type,
        &func.generics,
        poly,
    );
    let duplication = if mode.polymorphic && mode.cloneable {
        Some(clone_impl(predicate.as_str(), args, ret_type, &func.generics))
    } else {
        None
    };
    proof {
        assert(names_of(args@).len() == args@.len());
    }
    Artifact { markers, carrier, constructor, setters, terminal, duplication }
}

/// Generates everything for one function in the given mode, and reports
/// what the checks on the function find. Generation goes on whatever they
/// find: a receiver is left out of the parameters, a where-clause is
/// ignored, and a reference without a stated lifetime is kept as written.
/// The names that are written into the items must be identifiers.
pub fn generate(func: &Function, mode: Mode, diagnostics: &mut Vec<Diagnostic>) -> (artifact:
    Artifact)
    requires
        well_named(*func),
    ensures
        artifact@ == artifact_text(*func, mode),
        artifact.setters@.len() == declared(func.inputs@).len(),
        final(diagnostics)@ == old(diagnostics)@ + function_diagnostics(*func),
{
    let args = analyze(func, diagnostics);
    synthesize(func, &args, mode)
}

/// Whether the function's name and the names of its typed inputs are
/// identifiers.
pub fn is_well_named(func: &Function) -> (ok: bool)
    ensures
        ok == well_named(*func),
{
    is_identifier(func.name.as_str()) && are_inputs_named(&func.inputs)
}

/// Turns a function into a partially applicable function.
///
/// `attr` holds the option tokens of the annotation and `item` the annotated
/// item. The options are resolved first, then the checks on the item are
/// made, and every finding is returned; none of them stops the expansion.
/// For a function the result holds the generated items; for anything else
/// it holds the item's own text. Only a function with a name that is no
/// identifier gets nothing: its expansion is to be aborted.
pub fn part_app(attr: &Vec<String>, item: &Item) -> (expansion: Expansion)
    ensures
        expansion.mode == resolved_mode(texts(attr@)),
        expansion.diagnostics@ == expansion_diagnostics(texts(attr@), *item),
        match *item {
            Item::Function(func) => if well_named(func) {
                expansion.output matches Output::Generated(artifact) && artifact@
                    == artifact_text(func, expansion.mode) && artifact.setters@.len()
                    == declared(func.inputs@).len()
            } else {
                expansion.output is Aborted
            },
            Item::Other(text) => expansion.output matches Output::Unchanged(kept) && kept@
                == text@,
        },
{
    let mut diagnostics: Vec<Diagnostic> = Vec::new();
    let mode = resolve_options(attr, &mut diagnostics);
    match item {
        Item::Function(func) => {
            let args = analyze(func, &mut diagnostics);
            proof {
                assert(diagnostics@ =~= expansion_diagnostics(texts(attr@), *item));
            }
            if is_well_named(func) {
                let artifact = synthesize(func, &args, mode);
                Expansion { mode, diagnostics, output: Output::Generated(artifact) }
            } else {
                Expansion { mode, diagnostics, output: Output::Aborted }
            }
        },
        Item::Other(text) => {
            diagnostics.push(Diagnostic::NotAFunction);
            proof {
                assert(diagnostics@ =~= expansion_diagnostics(texts(attr@), *item));
            }
            Expansion { mode, diagnostics, output: Output::Unchanged(text.clone()) }
        },
    }
}

} // verus!
