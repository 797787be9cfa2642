//! The constructor synthesizer: the function that replaces the annotated
//! one and returns an empty carrier.

use crate::header::{
    callable, callable_text, carrier_type, carrier_type_text, label_list, label_list_text,
    producer_bounds, producer_bounds_text,
};
use crate::labels::{label_arguments, label_texts, uniform, uniform_labels, FillLabel};
use crate::signature::{
    arg_names, arg_types, declarations_of, generic_declarations, generic_names,
    generic_names_of, joined_names, marker_names, named, names_of, types_of, Generic, Parameter,
};
use crate::text::{concat_each, each_enclosed, each_followed, enclose_each, texts};
use vstd::prelude::*;
use vstd::string::StringExecFns;

verus! {

/// The constructor's own generic parameters after the function's generics:
/// none if polymorphic, else one producer type per parameter, named as the
/// parameter is.
pub open spec fn producer_parameters_text(names: Seq<Seq<char>>, poly: bool) -> Seq<char> {
    if poly {
        Seq::empty()
    } else {
        each_followed(names, ", "@)
    }
}

/// The constructor's where-clause: empty if polymorphic, else one bound per
/// producer type.
pub open spec fn constructor_bounds_text(
    names: Seq<Seq<char>>,
    types: Seq<Seq<char>>,
    poly: bool,
) -> Seq<char> {
    if poly {
        Seq::empty()
    } else {
        "where\n    "@ + producer_bounds_text(names, types) + "\n"@
    }
}

/// The function's body as a callable that takes every parameter by
/// position; wrapped for shared ownership if polymorphic.
pub open spec fn body_value_text(names: Seq<Seq<char>>, body: Seq<char>, poly: bool) -> Seq<char> {
    if poly {
        "::std::sync::Arc::new(|"@ + each_followed(names, ", "@) + "| "@ + body + ")"@
    } else {
        "|"@ + each_followed(names, ", "@) + "| "@ + body
    }
}

/// The type that the constructor returns: the carrier with every label
/// `Empty`.
pub open spec fn initial_carrier_text(
    struct_name: Seq<char>,
    names: Seq<Seq<char>>,
    types: Seq<Seq<char>>,
    ret: Seq<char>,
    empty_unit: Seq<char>,
    generics: Seq<Seq<char>>,
    poly: bool,
) -> Seq<char> {
    carrier_type_text(
        struct_name,
        generics,
        label_list_text(
            label_texts(
                uniform_labels(names.len(), FillLabel::Empty),
                names,
                empty_unit,
                empty_unit,
            ),
            names,
            poly,
        ),
        "impl "@ + callable_text(types, ret),
    )
}

/// The constructor: a function named as the annotated one, without
/// arguments, that returns the carrier with every label `Empty`, every slot
/// `None`, every marker at its only value, and the function's body. It
/// declares the function's `generics` and names them by `arguments`.
pub open spec fn generator_func_text(
    struct_name: Seq<char>,
    name: Seq<char>,
    names: Seq<Seq<char>>,
    types: Seq<Seq<char>>,
    ret: Seq<char>,
    empty_unit: Seq<char>,
    body: Seq<char>,
    generics: Seq<Seq<char>>,
    arguments: Seq<Seq<char>>,
    poly: bool,
) -> Seq<char> {
    "#[allow(non_camel_case_types,non_snake_case)]\nfn "@ + name + "<"@ + each_followed(
        generics,
        ", "@,
    ) + producer_parameters_text(names, poly) + ">() -> "@ + initial_carrier_text(
        struct_name,
        names,
        types,
        ret,
        empty_unit,
        arguments,
        poly,
    ) + "\n"@ + constructor_bounds_text(names, types, poly) + "{\n    "@ + struct_name + " {\n"@
        + each_enclosed(names, "        "@, ": None,\n"@) + each_enclosed(
        joined_names(names, "m"@),
        "        "@,
        ": ::std::marker::PhantomData,\n"@,
    ) + "        body: "@ + body_value_text(names, body, poly) + ",\n    }\n}"@
}

/// Writes the constructor's own generic parameters.
pub fn producer_parameters(names: &Vec<String>, poly: bool) -> (out: String)
    ensures
        out@ == producer_parameters_text(texts(names@), poly),
{
    if poly {
        String::new()
    } else {
        concat_each(names, ", ")
    }
}

/// Writes the constructor's where-clause.
pub(crate) fn constructor_bounds(names: &Vec<String>, types: &Vec<String>, poly: bool) -> (out: String)
    requires
        names@.len() == types@.len(),
    ensures
        out@ == constructor_bounds_text(texts(names@), texts(types@), poly),
{
    if poly {
        String::new()
    } else {
        let mut out = String::from_str("where\n    ");
        out.append(producer_bounds(names, types).as_str());
        out.append("\n");
        out
    }
}

/// Writes the function's body as a callable value.
pub fn body_value(names: &Vec<String>, body: &str, poly: bool) -> (out: String)
    ensures
        out@ == body_value_text(texts(names@), body@, poly),
{
    if poly {
        let mut out = String::from_str("::std::sync::Arc::new(|");
        out.append(concat_each(names, ", ").as_str());
        out.append("| ");
        out.append(body);
        out.append(")");
        out
    } else {
        let mut out = String::from_str("|");
        out.append(concat_each(names, ", ").as_str());
        out.append("| ");
        out.append(body);
        out
    }
}

/// Writes the type that the constructor returns.
pub(crate) fn initial_carrier(
    struct_name: &str,
    names: &Vec<String>,
    types: &Vec<String>,
    ret_type: &str,
    empty_unit: &str,
    generics: &Vec<String>,
    poly: bool,
) -> (out: String)
    requires
        names@.len() == types@.len(),
    ensures
        out@ == initial_carrier_text(
            struct_name@,
            texts(names@),
            texts(types@),
            ret_type@,
            empty_unit@,
            texts(generics@),
            poly,
        ),
{
    let header = uniform(names.len(), FillLabel::Empty);
    let labels = label_arguments(&header, names, empty_unit, empty_unit);
    let list = label_list(&labels, names, poly);
    let mut body_type = String::from_str("impl ");
    body_type.append(callable(types, ret_type).as_str());
    carrier_type(struct_name, generics, list.as_str(), body_type.as_str())
}

/// The function called by the user to create an instance of a partially
/// applicable function. It always has the name of the annotated function.
pub fn generator_func(
    struct_name: &str,
    name: &str,
    args: &Vec<Parameter>,
    ret_type: &str,
    empty_unit: &str,
    body: &str,
    generics: &Vec<Generic>,
    poly: bool,
) -> (out: String)
    requires
        named(args@),
    ensures
        out@ == generator_func_text(
            struct_name@,
            name@,
            names_of(args@),
            types_of(args@),
            ret_type@,
            empty_unit@,
            body@,
            declarations_of(generics@),
            generic_names_of(generics@),
            poly,
        ),
{
    let names = arg_names(args);
    let types = arg_types(args);
    let markers = marker_names(&names);
    let mut out = String::from_str("#[allow(non_camel_case_types,non_snake_case)]\nfn ");
    out.append(name);
    out.append("<");
    out.append(concat_each(&generic_declarations(generics), ", ").as_str());
    out.append(producer_parameters(&names, poly).as_str());
    out.append(">() -> ");
    let arguments = generic_names(generics);
    out.append(
        initial_carrier(struct_name, &names, &types, ret_type, empty_unit, &arguments, poly).as_str(),
    );
    out.append("\n");
    out.append(constructor_bounds(&names, &types, poly).as_str());
    out.append("{\n    ");
    out.append(struct_name);
    out.append(" {\n");
    out.append(enclose_each(&names, "        ", ": None,\n").as_str());
    out.append(enclose_each(&markers, "        ", ": ::std::marker::PhantomData,\n").as_str());
    out.append("        body: ");
    out.append(body_value(&names, body, poly).as_str());
    out.append(",\n    }\n}");
    out
}

} // verus!
