//! The final-call synthesizer: the one operation that invokes the function,
//! available only when every label is `Added`.

use crate::header::{
    carrier_type, carrier_type_text, impl_signature, impl_signature_text, label_list,
    label_list_text,
};
use crate::labels::{label_arguments, label_texts, uniform, uniform_labels, FillLabel};
use crate::signature::{
    arg_names, augmented_argument_names, declarations_of, generic_names, generic_names_of,
    joined_names, named, names_of, types_of, Generic, Parameter,
};
use crate::text::{each_enclosed, enclose_each, texts};
use vstd::prelude::*;
use vstd::string::StringExecFns;

verus! {

/// The only carrier type on which the terminal operation exists: every
/// label is `Added`.
pub open spec fn complete_carrier_text(
    struct_name: Seq<char>,
    names: Seq<Seq<char>>,
    added: Seq<char>,
    generics: Seq<Seq<char>>,
    poly: bool,
) -> Seq<char> {
    carrier_type_text(
        struct_name,
        generics,
        label_list_text(
            label_texts(uniform_labels(names.len(), FillLabel::Added), names, added, added),
            joined_names(names, "FN"@),
            poly,
        ),
        "BODYFN"@,
    )
}

/// The terminal operation: an `impl` block for the carrier whose labels are
/// all `Added`, with the method `call`. It takes the carrier, takes each
/// producer out of its slot and invokes it, in the order of the parameters,
/// and invokes the body on the values by position.
pub open spec fn final_call_text(
    struct_name: Seq<char>,
    names: Seq<Seq<char>>,
    types: Seq<Seq<char>>,
    ret: Seq<char>,
    added: Seq<char>,
    generics: Seq<Seq<char>>,
    arguments: Seq<Seq<char>>,
    poly: bool,
) -> Seq<char> {
    "#[allow(non_camel_case_types,non_snake_case)]\nimpl<"@ + impl_signature_text(
        names,
        types,
        ret,
        generics,
        poly,
    ) + "> "@ + complete_carrier_text(struct_name, names, added, arguments, poly)
        + " {\n    fn call(self) "@ + ret + " {\n        (self.body)("@ + each_enclosed(
        names,
        "self."@,
        ".unwrap()(), "@,
    ) + ")\n    }\n}"@
}

/// Writes the carrier type whose labels are all `Added`.
pub fn complete_carrier(
    struct_name: &str,
    names: &Vec<String>,
    unit_added: &str,
    generics: &Vec<String>,
    poly: bool,
) -> (out: String)
    ensures
        out@ == complete_carrier_text(
            struct_name@,
            texts(names@),
            unit_added@,
            texts(generics@),
            poly,
        ),
{
    let header = uniform(names.len(), FillLabel::Added);
    let labels = label_arguments(&header, names, unit_added, unit_added);
    let producers = augmented_argument_names(names);
    let list = label_list(&labels, &producers, poly);
    carrier_type(struct_name, generics, list.as_str(), "BODYFN")
}

/// Generates the call function, which executes a fully filled out partially
/// applicable struct.
pub fn final_call(
    struct_name: &str,
    args: &Vec<Parameter>,
    ret_type: &str,
    unit_added: &str,
    generics: &Vec<Generic>,
    poly: bool,
) -> (out: String)
    requires
        named(args@),
    ensures
        out@ == final_call_text(
            struct_name@,
            names_of(args@),
            types_of(args@),
            ret_type@,
            unit_added@,
            declarations_of(generics@),
            generic_names_of(generics@),
            poly,
        ),
{
    let names = arg_names(args);
    let arguments = generic_names(generics);
    let mut out = String::from_str("#[allow(non_camel_case_types,non_snake_case)]\nimpl<");
    out.append(impl_signature(args, ret_type, generics, poly).as_str());
    out.append("> ");
    out.append(complete_carrier(struct_name, &names, unit_added, &arguments, poly).as_str());
    out.append(" {\n    fn call(self) ");
    out.append(ret_type);
    out.append(" {\n        (self.body)(");
    out.append(enclose_each(&names, "self.", ".unwrap()(), ").as_str());
    out.append(")\n    }\n}");
    out
}

} // verus!
