//! The duplication synthesizer: what lets a polymorphic, cloneable carrier
//! be duplicated while it is being filled.

use crate::header::{
    carrier_type, carrier_type_text, impl_signature, impl_signature_text, label_list,
    label_list_text,
};
use crate::signature::{
    arg_names, declarations_of, generic_names, generic_names_of, joined_names, marker_names,
    named, names_of, types_of, Generic, Parameter,
};
use crate::text::{
    concat_each, each_enclosed, each_followed, enclose_each, pair_each, paired, texts,
};
use vstd::prelude::*;
use vstd::string::StringExecFns;

verus! {

/// The duplication of a polymorphic carrier: an `impl` of `Clone`, written
/// out field by field, for the carrier with any labels. The labels are free
/// generic parameters without a bound, so a carrier can be duplicated in
/// every fill state and the duplicate is in the same one. Every marker is
/// written anew; every slot and the body are cloned, which for each makes a
/// second handle to the same shared producer or body.
pub open spec fn clone_impl_text(
    struct_name: Seq<char>,
    names: Seq<Seq<char>>,
    types: Seq<Seq<char>>,
    ret: Seq<char>,
    generics: Seq<Seq<char>>,
    arguments: Seq<Seq<char>>,
) -> Seq<char> {
    "#[allow(non_camel_case_types,non_snake_case)]\nimpl<"@ + impl_signature_text(
        names,
        types,
        ret,
        generics,
        true,
    ) + ", "@ + each_followed(names, ", "@) + "> ::std::clone::Clone for "@ + carrier_type_text(
        struct_name,
        arguments,
        label_list_text(names, names, true),
        "BODYFN"@,
    ) + " {\n    fn clone(&self) -> Self {\n        "@ + struct_name + " {\n"@ + each_enclosed(
        joined_names(names, "m"@),
        "            "@,
        ": ::std::marker::PhantomData,\n"@,
    ) + each_enclosed(
        paired(names, ": ::std::clone::Clone::clone(&self."@, names),
        "            "@,
        "),\n"@,
    ) + "            body: ::std::clone::Clone::clone(&self.body),\n        }\n    }\n}"@
}

/// Generates the `impl` of `Clone` for the polymorphic carrier.
pub fn clone_impl(
    struct_name: &str,
    args: &Vec<Parameter>,
    ret_type: &str,
    generics: &Vec<Generic>,
) -> (out: String)
    requires
        named(args@),
    ensures
        out@ == clone_impl_text(
            struct_name@,
            names_of(args@),
            types_of(args@),
            ret_type@,
            declarations_of(generics@),
            generic_names_of(generics@),
        ),
{
    let names = arg_names(args);
    let markers = marker_names(&names);
    let arguments = generic_names(generics);
    let labels = label_list(&names, &names, true);
    let slots = pair_each(&names, ": ::std::clone::Clone::clone(&self.", &names);
    let mut out = String::from_str("#[allow(non_camel_case_types,non_snake_case)]\nimpl<");
    out.append(impl_signature(args, ret_type, generics, true).as_str());
    out.append(", ");
    out.append(concat_each(&names, ", ").as_str());
    out.append("> ::std::clone::Clone for ");
    out.append(carrier_type(struct_name, &arguments, labels.as_str(), "BODYFN").as_str());
    out.append(" {\n    fn clone(&self) -> Self {\n        ");
    out.append(struct_name);
    out.append(" {\n");
    out.append(
        enclose_each(&markers, "            ", ": ::std::marker::PhantomData,\n").as_str(),
    );
    out.append(enclose_each(&slots, "            ", "),\n").as_str());
    out.append("            body: ::std::clone::Clone::clone(&self.body),\n        }\n    }\n}");
    out
}

} // verus!
