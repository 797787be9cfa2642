//! What the generated items have in common: the generic parameters and
//! bounds of each `impl` block, and the way a carrier type is written for a
//! given label tuple.

use crate::signature::{
    arg_names, arg_types, augmented_argument_names, declarations_of, generic_declarations,
    joined_names, named, names_of, types_of, Generic, Parameter,
};
use crate::text::{concat_each, each_followed, pair_each, paired, texts};
use vstd::prelude::*;
use vstd::string::StringExecFns;

verus! {

/// A callable that takes every parameter's type, in order, and gives what
/// the function returns.
pub open spec fn callable_text(types: Seq<Seq<char>>, ret: Seq<char>) -> Seq<char> {
    "Fn("@ + each_followed(types, ", "@) + ") "@ + ret
}

/// One bound per parameter: `producers[i]` is a callable without arguments
/// that gives the parameter's type.
pub open spec fn producer_bounds_text(producers: Seq<Seq<char>>, types: Seq<Seq<char>>) -> Seq<
    char,
> {
    each_followed(paired(producers, ": Fn() -> "@, types), ", "@)
}

/// The bounds of the carrier: unless polymorphic, one on each producer
/// type; then the one on the body's type.
pub open spec fn bounds_text(
    names: Seq<Seq<char>>,
    types: Seq<Seq<char>>,
    ret: Seq<char>,
    poly: bool,
) -> Seq<char> {
    if poly {
        "BODYFN: "@ + callable_text(types, ret)
    } else {
        producer_bounds_text(joined_names(names, "FN"@), types) + "BODYFN: "@ + callable_text(
            types,
            ret,
        )
    }
}

/// The generic parameters that every `impl` block declares: the function's
/// own generics as they are declared, then the carrier's bounds.
pub open spec fn impl_signature_text(
    names: Seq<Seq<char>>,
    types: Seq<Seq<char>>,
    ret: Seq<char>,
    generics: Seq<Seq<char>>,
    poly: bool,
) -> Seq<char> {
    each_followed(generics, ", "@) + bounds_text(names, types, ret, poly)
}

/// A label tuple as it stands among a carrier's type arguments: each label,
/// followed, unless polymorphic, by the producer type of the same parameter.
pub open spec fn label_list_text(
    labels: Seq<Seq<char>>,
    producers: Seq<Seq<char>>,
    poly: bool,
) -> Seq<char> {
    if poly {
        each_followed(labels, ", "@)
    } else {
        each_followed(paired(labels, ", "@, producers), ", "@)
    }
}

/// The carrier type instantiated with the function's generics, each by its
/// name alone, a label list, and `body` as the type of the body.
pub open spec fn carrier_type_text(
    struct_name: Seq<char>,
    generics: Seq<Seq<char>>,
    label_list: Seq<char>,
    body: Seq<char>,
) -> Seq<char> {
    struct_name + "<"@ + each_followed(generics, ", "@) + label_list + body + ">"@
}

/// Writes the callable type of the body.
pub fn callable(types: &Vec<String>, ret_type: &str) -> (out: String)
    ensures
        out@ == callable_text(texts(types@), ret_type@),
{
    let mut out = String::from_str("Fn(");
    out.append(concat_each(types, ", ").as_str());
    out.append(") ");
    out.append(ret_type);
    out
}

/// Writes one bound per parameter on its producer type.
pub(crate) fn producer_bounds(producers: &Vec<String>, types: &Vec<String>) -> (out: String)
    requires
        producers@.len() == types@.len(),
    ensures
        out@ == producer_bounds_text(texts(producers@), texts(types@)),
{
    let bounds = pair_each(producers, ": Fn() -> ", types);
    concat_each(&bounds, ", ")
}

/// Writes the carrier's bounds.
pub(crate) fn bounds(names: &Vec<String>, types: &Vec<String>, ret_type: &str, poly: bool) -> (out: String)
    requires
        names@.len() == types@.len(),
    ensures
        out@ == bounds_text(texts(names@), texts(types@), ret_type@, poly),
{
    if poly {
        let mut out = String::from_str("BODYFN: ");
        out.append(callable(types, ret_type).as_str());
        out
    } else {
        let producers = augmented_argument_names(names);
        let mut out = producer_bounds(&producers, types);
        out.append("BODYFN: ");
        out.append(callable(types, ret_type).as_str());
        out
    }
}

/// The portion of the signature necessary for each impl block.
pub fn impl_signature(args: &Vec<Parameter>, ret_type: &str, generics: &Vec<Generic>, poly: bool) -> (out:
    String)
    requires
        named(args@),
    ensures
        out@ == impl_signature_text(
            names_of(args@),
            types_of(args@),
            ret_type@,
            declarations_of(generics@),
            poly,
        ),
{
    let names = arg_names(args);
    let types = arg_types(args);
    let mut out = concat_each(&generic_declarations(generics), ", ");
    out.append(bounds(&names, &types, ret_type, poly).as_str());
    out
}

/// Writes a label tuple as it stands among a carrier's type arguments.
pub(crate) fn label_list(labels: &Vec<String>, producers: &Vec<String>, poly: bool) -> (out: String)
    requires
        labels@.len() == producers@.len(),
    ensures
        out@ == label_list_text(texts(labels@), texts(producers@), poly),
{
    if poly {
        concat_each(labels, ", ")
    } else {
        let items = pair_each(labels, ", ", producers);
        concat_each(&items, ", ")
    }
}

/// Writes the carrier type for a label list and a body type.
pub fn carrier_type(struct_name: &str, generics: &Vec<String>, label_list: &str, body: &str) -> (out:
    String)
    ensures
        out@ == carrier_type_text(struct_name@, texts(generics@), label_list@, body@),
{
    let mut out = String::from_str(struct_name);
    out.append("<");
    out.append(concat_each(generics, ", ").as_str());
    out.append(label_list);
    out.append(body);
    out.append(">");
    out
}

} // verus!
