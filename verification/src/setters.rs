//! The setter synthesizer: one transition per parameter, from the carriers
//! whose label for that parameter is `Empty` to the carrier with that label
//! `Added`.

use crate::header::{
    carrier_type, carrier_type_text, impl_signature, impl_signature_text, label_list,
    label_list_text,
};
use crate::labels::{label_arguments, label_texts, transition, transition_labels, FillLabel};
use crate::signature::{
    arg_names, arg_types, augmented_argument_names, declarations_of, generic_names,
    generic_names_of, joined_name, joined_names, named, names_of, types_of, Generic, Parameter,
};
use crate::text::{concat_each, each_followed, texts, without};
use vstd::prelude::*;
use vstd::string::StringExecFns;

verus! {

/// The carrier type on one side of the transition of parameter `i`: the
/// label of `i` is `label`, every other label is a free generic parameter
/// named as its parameter is.
pub open spec fn transition_carrier_text(
    struct_name: Seq<char>,
    names: Seq<Seq<char>>,
    i: int,
    label: FillLabel,
    added: Seq<char>,
    empty: Seq<char>,
    generics: Seq<Seq<char>>,
    poly: bool,
) -> Seq<char> {
    carrier_type_text(
        struct_name,
        generics,
        label_list_text(
            label_texts(transition_labels(names.len(), i, label), names, added, empty),
            joined_names(names, "FN"@),
            poly,
        ),
        "BODYFN"@,
    )
}

/// The type of the producer that the setter of parameter `i` takes: any
/// boxed callable that gives the parameter's type if polymorphic, else the
/// parameter's own producer type.
pub open spec fn producer_type_text(name: Seq<char>, ty: Seq<char>, poly: bool) -> Seq<char> {
    if poly {
        "Box<dyn Fn() -> "@ + ty + ">"@
    } else {
        joined_name(name, "FN"@)
    }
}

/// The value stored in the slot: the producer, wrapped for shared ownership
/// if polymorphic.
pub open spec fn stored_text(name: Seq<char>, poly: bool) -> Seq<char> {
    if poly {
        "Some(::std::sync::Arc::from("@ + name + "))"@
    } else {
        "Some("@ + name + ")"@
    }
}

/// The reinterpretation of the carrier under its new type. Either way the
/// carrier is moved: by value if polymorphic; else its storage is copied bit
/// by bit and the carrier given up without being dropped, so that every
/// field has one owner before and one owner after.
pub open spec fn reinterpretation_text(before: Seq<char>, after: Seq<char>, poly: bool) -> Seq<
    char,
> {
    if poly {
        "unsafe { ::std::mem::transmute::<"@ + before + ", "@ + after + ">(self) }"@
    } else {
        "let this = ::std::mem::ManuallyDrop::new(self);\n        unsafe { ::std::mem::transmute_copy::<"@
            + before + ", "@ + after + ">(&*this) }"@
    }
}

/// The setter of parameter `i`: an `impl` block of its own, for the carriers
/// whose label for `i` is `Empty` whatever their other labels are, with one
/// method named as the parameter is. The method takes the carrier and a
/// producer, stores the producer in the slot of `i`, and returns the same
/// carrier under the type whose label for `i` is `Added`.
pub open spec fn setter_text(
    struct_name: Seq<char>,
    names: Seq<Seq<char>>,
    types: Seq<Seq<char>>,
    i: int,
    added: Seq<char>,
    empty: Seq<char>,
    ret: Seq<char>,
    generics: Seq<Seq<char>>,
    arguments: Seq<Seq<char>>,
    poly: bool,
) -> Seq<char> {
    let before = transition_carrier_text(
        struct_name,
        names,
        i,
        FillLabel::Empty,
        added,
        empty,
        arguments,
        poly,
    );
    let after = transition_carrier_text(
        struct_name,
        names,
        i,
        FillLabel::Added,
        added,
        empty,
        arguments,
        poly,
    );
    "#[allow(non_camel_case_types,non_snake_case)]\nimpl<"@ + impl_signature_text(
        names,
        types,
        ret,
        generics,
        poly,
    ) + ", "@ + each_followed(names.remove(i), ", "@) + "> "@ + before + " {\n    fn "@ + names[i]
        + "(mut self, "@ + names[i] + ": "@ + producer_type_text(names[i], types[i], poly)
        + ") -> "@ + after + " {\n        self."@ + names[i] + " = "@ + stored_text(names[i], poly)
        + ";\n        "@ + reinterpretation_text(before, after, poly) + "\n    }\n}"@
}

/// Writes the carrier type on one side of the transition of parameter `i`.
pub fn transition_carrier(
    struct_name: &str,
    names: &Vec<String>,
    i: usize,
    label: FillLabel,
    added: &str,
    empty: &str,
    generics: &Vec<String>,
    poly: bool,
) -> (out: String)
    ensures
        out@ == transition_carrier_text(
            struct_name@,
            texts(names@),
            i as int,
            label,
            added@,
            empty@,
            texts(generics@),
            poly,
        ),
{
    let header = transition(names.len(), i, label);
    let labels = label_arguments(&header, names, added, empty);
    let producers = augmented_argument_names(names);
    let list = label_list(&labels, &producers, poly);
    carrier_type(struct_name, generics, list.as_str(), "BODYFN")
}

/// Writes the type of the producer that a setter takes.
pub fn producer_type(name: &str, ty: &str, poly: bool) -> (out: String)
    ensures
        out@ == producer_type_text(name@, ty@, poly),
{
    if poly {
        let mut out = String::from_str("Box<dyn Fn() -> ");
        out.append(ty);
        out.append(">");
        out
    } else {
        crate::signature::concat_ident(name, "FN")
    }
}

/// Writes the value that a setter stores in its slot.
pub fn stored(name: &str, poly: bool) -> (out: String)
    ensures
        out@ == stored_text(name@, poly),
{
    if poly {
        let mut out = String::from_str("Some(::std::sync::Arc::from(");
        out.append(name);
        out.append("))");
        out
    } else {
        let mut out = String::from_str("Some(");
        out.append(name);
        out.append(")");
        out
    }
}

/// Writes the reinterpretation of the carrier under its new type.
pub fn reinterpretation(before: &str, after: &str, poly: bool) -> (out: String)
    ensures
        out@ == reinterpretation_text(before@, after@, poly),
{
    if poly {
        let mut out = String::from_str("unsafe { ::std::mem::transmute::<");
        out.append(before);
        out.append(", ");
        out.append(after);
        out.append(">(self) }");
        out
    } else {
        let mut out = String::from_str(
            "let this = ::std::mem::ManuallyDrop::new(self);\n        unsafe { ::std::mem::transmute_copy::<",
        );
        out.append(before);
        out.append(", ");
        out.append(after);
        out.append(">(&*this) }");
        out
    }
}

/// Generates the setter of the parameter at position `i`.
pub(crate) fn setter(
    struct_name: &str,
    args: &Vec<Parameter>,
    i: usize,
    unit_added: &str,
    unit_empty: &str,
    ret_type: &str,
    generics: &Vec<Generic>,
    poly: bool,
) -> (out: String)
    requires
        i < args@.len(),
        named(args@),
    ensures
        out@ == setter_text(
            struct_name@,
            names_of(args@),
            types_of(args@),
            i as int,
            unit_added@,
            unit_empty@,
            ret_type@,
            declarations_of(generics@),
            generic_names_of(generics@),
            poly,
        ),
{
    let names = arg_names(args);
    let types = arg_types(args);
    let arguments = generic_names(generics);
    let name = names[i].as_str();
    let before = transition_carrier(
        struct_name,
        &names,
        i,
        FillLabel::Empty,
        unit_added,
        unit_empty,
        &arguments,
        poly,
    );
    let after = transition_carrier(
        struct_name,
        &names,
        i,
        FillLabel::Added,
        unit_added,
        unit_empty,
        &arguments,
        poly,
    );
    proof {
        assert(texts(names@)[i as int] == names@[i as int]@);
        assert(texts(types@)[i as int] == types@[i as int]@);
    }
    let mut out = String::from_str("#[allow(non_camel_case_types,non_snake_case)]\nimpl<");
    out.append(impl_signature(args, ret_type, generics, poly).as_str());
    out.append(", ");
    out.append(concat_each(&without(&names, i), ", ").as_str());
    out.append("> ");
    out.append(before.as_str());
    out.append(" {\n    fn ");
    out.append(name);
    out.append("(mut self, ");
    out.append(name);
    out.append(": ");
    out.append(producer_type(name, types[i].as_str(), poly).as_str());
    out.append(") -> ");
    out.append(after.as_str());
    out.append(" {\n        self.");
    out.append(name);
    out.append(" = ");
    out.append(stored(name, poly).as_str());
    out.append(";\n        ");
    out.append(reinterpretation(before.as_str(), after.as_str(), poly).as_str());
    out.append("\n    }\n}");
    out
}

/// The setters of all parameters, in the order of the parameters.
pub open spec fn argument_calls_texts(
    struct_name: Seq<char>,
    names: Seq<Seq<char>>,
    types: Seq<Seq<char>>,
    added: Seq<char>,
    empty: Seq<char>,
    ret: Seq<char>,
    generics: Seq<Seq<char>>,
    arguments: Seq<Seq<char>>,
    poly: bool,
) -> Seq<Seq<char>> {
    Seq::new(
        names.len(),
        |i: int|
            setter_text(
                struct_name,
                names,
                types,
                i,
                added,
                empty,
                ret,
                generics,
                arguments,
                poly,
            ),
    )
}

/// Generates the methods used to add argument values to a partially applied
/// function. One method is generated for each argument, and each method is
/// contained in its own impl block.
pub fn argument_calls(
    struct_name: &str,
    args: &Vec<Parameter>,
    unit_added: &str,
    unit_empty: &str,
    ret_type: &str,
    generics: &Vec<Generic>,
    poly: bool,
) -> (out: Vec<String>)
    requires
        named(args@),
    ensures
        out@.len() == args@.len(),
        texts(out@) == argument_calls_texts(
            struct_name@,
            names_of(args@),
            types_of(args@),
            unit_added@,
            unit_empty@,
            ret_type@,
            declarations_of(generics@),
            generic_names_of(generics@),
            poly,
        ),
{
    let mut out: Vec<String> = Vec::new();
    let mut i: usize = 0;
    while i < args.len()
        invariant
            i <= args.len(),
            named(args@),
            out@.len() == i,
            forall|j: int|
                0 <= j < i ==> #[trigger] out@[j]@ == setter_text(
                    struct_name@,
                    names_of(args@),
                    types_of(args@),
                    j,
                    unit_added@,
                    unit_empty@,
                    ret_type@,
                    declarations_of(generics@),
                    generic_names_of(generics@),
                    poly,
                ),
        decreases args.len() - i,
    {
        out.push(setter(struct_name, args, i, unit_added, unit_empty, ret_type, generics, poly));
        i += 1;
    }
    proof {
        assert(texts(out@) =~= argument_calls_texts(
            struct_name@,
            names_of(args@),
            types_of(args@),
            unit_added@,
            unit_empty@,
            ret_type@,
            declarations_of(generics@),
            generic_names_of(generics@),
            poly,
        ));
    }
    out
}

} // verus!
