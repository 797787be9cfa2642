//! The aggregate synthesizer: the declaration of the carrier type.

use crate::header::{bounds, bounds_text, label_list, label_list_text};
use crate::signature::{
    arg_names, arg_types, augmented_argument_names, declarations_of, generic_declarations,
    joined_names, marker_names, named, names_of, types_of, Generic, Parameter,
};
use crate::text::{
    concat_each, each_enclosed, each_followed, enclose_each, pair_each, paired, texts,
};
use vstd::prelude::*;
use vstd::string::StringExecFns;

verus! {

/// The marker fields: one per parameter, without data, anchoring the
/// parameter's label in the type.
pub open spec fn marker_fields_text(names: Seq<Seq<char>>) -> Seq<char> {
    each_enclosed(
        paired(joined_names(names, "m"@), ": ::std::marker::PhantomData<"@, names),
        "    "@,
        ">,\n"@,
    )
}

/// The slots: one optional producer per parameter. Unless polymorphic the
/// producer has the parameter's own producer type; otherwise it is a shared,
/// dynamically dispatched callable that gives the parameter's type.
pub open spec fn slot_fields_text(names: Seq<Seq<char>>, types: Seq<Seq<char>>, poly: bool) -> Seq<
    char,
> {
    if poly {
        each_enclosed(
            paired(names, ": Option<::std::sync::Arc<dyn Fn() -> "@, types),
            "    "@,
            ">>,\n"@,
        )
    } else {
        each_enclosed(paired(names, ": Option<"@, joined_names(names, "FN"@)), "    "@, ">,\n"@)
    }
}

/// The type of the field that holds the body: shared if polymorphic, held
/// uniquely otherwise.
pub open spec fn body_field_type_text(poly: bool) -> Seq<char> {
    if poly {
        "::std::sync::Arc<BODYFN>"@
    } else {
        "BODYFN"@
    }
}

/// The carrier's declaration. Its type parameters are the function's
/// generics, one label per parameter (each followed, unless polymorphic, by
/// the parameter's producer type), and the body's type. Its fields are the
/// markers, the slots and the body, laid out in that order as C lays out a
/// struct: the markers take no room, so the layout is the same whatever the
/// labels are.
pub open spec fn main_struct_text(
    name: Seq<char>,
    names: Seq<Seq<char>>,
    types: Seq<Seq<char>>,
    ret: Seq<char>,
    generics: Seq<Seq<char>>,
    poly: bool,
) -> Seq<char> {
    "#[allow(non_camel_case_types,non_snake_case)]\n#[repr(C)]\nstruct "@ + name + "<"@ + each_followed(
        generics,
        ", "@,
    ) + label_list_text(names, joined_names(names, "FN"@), poly) + "BODYFN>\nwhere\n    "@
        + bounds_text(names, types, ret, poly) + ",\n{\n"@ + marker_fields_text(names)
        + slot_fields_text(names, types, poly) + "    body: "@ + body_field_type_text(poly)
        + ",\n}"@
}

/// Writes the marker fields.
pub fn marker_fields(names: &Vec<String>) -> (out: String)
    ensures
        out@ == marker_fields_text(texts(names@)),
{
    let markers = marker_names(names);
    let fields = pair_each(&markers, ": ::std::marker::PhantomData<", names);
    enclose_each(&fields, "    ", ">,\n")
}

/// Writes the slots.
pub(crate) fn slot_fields(names: &Vec<String>, types: &Vec<String>, poly: bool) -> (out: String)
    requires
        names@.len() == types@.len(),
    ensures
        out@ == slot_fields_text(texts(names@), texts(types@), poly),
{
    if poly {
        let fields = pair_each(names, ": Option<::std::sync::Arc<dyn Fn() -> ", types);
        enclose_each(&fields, "    ", ">>,\n")
    } else {
        let producers = augmented_argument_names(names);
        let fields = pair_each(names, ": Option<", &producers);
        enclose_each(&fields, "    ", ">,\n")
    }
}

/// Generates the main struct for the partially applicable function.
/// All other generated items are methods on this struct, or return it.
pub fn main_struct(
    name: &str,
    args: &Vec<Parameter>,
    ret_type: &str,
    generics: &Vec<Generic>,
    poly: bool,
) -> (out: String)
    requires
        named(args@),
    ensures
        out@ == main_struct_text(
            name@,
            names_of(args@),
            types_of(args@),
            ret_type@,
            declarations_of(generics@),
            poly,
        ),
{
    let names = arg_names(args);
    let types = arg_types(args);
    let producers = augmented_argument_names(&names);
    let mut out = String::from_str(
        "#[allow(non_camel_case_types,non_snake_case)]\n#[repr(C)]\nstruct ",
    );
    out.append(name);
    out.append("<");
    out.append(concat_each(&generic_declarations(generics), ", ").as_str());
    out.append(label_list(&names, &producers, poly).as_str());
    out.append("BODYFN>\nwhere\n    ");
    out.append(bounds(&names, &types, ret_type, poly).as_str());
    out.append(",\n{\n");
    out.append(marker_fields(&names).as_str());
    out.append(slot_fields(&names, &types, poly).as_str());
    out.append("    body: ");
    if poly {
        out.append("::std::sync::Arc<BODYFN>");
    } else {
        out.append("BODYFN");
    }
    out.append(",\n}");
    out
}

} // verus!
