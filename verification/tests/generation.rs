use partial_application::aggregate::main_struct;
use partial_application::constructor::generator_func;
use partial_application::diagnostics::Diagnostic;
use partial_application::header::impl_signature;
use partial_application::options::Mode;
use partial_application::setters::argument_calls;
use partial_application::duplication::clone_impl;
use partial_application::signature::{
    Argument, Borrow, Function, Generic, Item, Parameter, TypedArgument,
};
use partial_application::terminal::final_call;
use partial_application::{generate, part_app, struct_name, unit_structs, Artifact, Output};

const ALLOW: &str = "#[allow(non_camel_case_types,non_snake_case)]\n";

fn typed(name: &str, ty: &str, borrow: Borrow) -> Argument {
    Argument::Typed(TypedArgument { name: name.to_string(), ty: ty.to_string(), borrow })
}

fn plain(name: &str) -> Generic {
    Generic { name: name.to_string(), declaration: name.to_string() }
}

fn parameter(name: &str, ty: &str) -> Parameter {
    Parameter { name: name.to_string(), ty: ty.to_string() }
}

fn function(name: &str, generics: &[&str], inputs: Vec<Argument>, output: &str, body: &str) -> Function {
    Function {
        name: name.to_string(),
        generics: generics.iter().map(|g| plain(g)).collect(),
        where_clause: false,
        inputs,
        output: output.to_string(),
        body: body.to_string(),
    }
}

fn add_function() -> Function {
    function(
        "add",
        &[],
        vec![typed("a", "i32", Borrow::Owned), typed("b", "i32", Borrow::Owned)],
        "-> i32",
        "{ a + b }",
    )
}

fn add_parameters() -> Vec<Parameter> {
    vec![parameter("a", "i32"), parameter("b", "i32")]
}

fn generated(attr: &[&str], func: Function) -> (Vec<Diagnostic>, Mode, Artifact) {
    let tokens: Vec<String> = attr.iter().map(|t| t.to_string()).collect();
    let expansion = part_app(&tokens, &Item::Function(func));
    match expansion.output {
        Output::Generated(artifact) => (expansion.diagnostics, expansion.mode, artifact),
        _ => panic!("a function must be expanded"),
    }
}

fn is_rust(text: &str) -> bool {
    syn::parse_str::<syn::File>(text).is_ok()
}

#[test]
fn monomorphic_add_is_generated_exactly() {
    let (diagnostics, mode, artifact) = generated(&[], add_function());
    assert!(diagnostics.is_empty());
    assert_eq!(mode, Mode { polymorphic: false, cloneable: false });
    assert_eq!(
        artifact.markers,
        format!("{ALLOW}struct add___Added;\n{ALLOW}struct add___Empty;")
    );
    assert_eq!(
        artifact.carrier,
        format!(
            "{ALLOW}#[repr(C)]\nstruct __PartialApplication__add_<a, a___FN, b, b___FN, BODYFN>\n\
             where\n    a___FN: Fn() -> i32, b___FN: Fn() -> i32, BODYFN: Fn(i32, i32, ) -> i32,\n\
             {{\n    a___m: ::std::marker::PhantomData<a>,\n    b___m: ::std::marker::PhantomData<b>,\n    \
             a: Option<a___FN>,\n    b: Option<b___FN>,\n    body: BODYFN,\n}}"
        )
    );
    assert_eq!(
        artifact.constructor,
        format!(
            "{ALLOW}fn add<a, b, >() -> __PartialApplication__add_<add___Empty, a, add___Empty, b, \
             impl Fn(i32, i32, ) -> i32>\nwhere\n    a: Fn() -> i32, b: Fn() -> i32, \n\
             {{\n    __PartialApplication__add_ {{\n        a: None,\n        b: None,\n        \
             a___m: ::std::marker::PhantomData,\n        b___m: ::std::marker::PhantomData,\n        \
             body: |a, b, | {{ a + b }},\n    }}\n}}"
        )
    );
    assert_eq!(artifact.setters.len(), 2);
    assert_eq!(
        artifact.setters[0],
        format!(
            "{ALLOW}impl<a___FN: Fn() -> i32, b___FN: Fn() -> i32, BODYFN: Fn(i32, i32, ) -> i32, b, > \
             __PartialApplication__add_<add___Empty, a___FN, b, b___FN, BODYFN> {{\n    \
             fn a(mut self, a: a___FN) -> \
             __PartialApplication__add_<add___Added, a___FN, b, b___FN, BODYFN> {{\n        \
             self.a = Some(a);\n        \
             let this = ::std::mem::ManuallyDrop::new(self);\n        \
             unsafe {{ ::std::mem::transmute_copy::<\
             __PartialApplication__add_<add___Empty, a___FN, b, b___FN, BODYFN>, \
             __PartialApplication__add_<add___Added, a___FN, b, b___FN, BODYFN>>(&*this) }}\n    }}\n}}"
        )
    );
    assert_eq!(
        artifact.setters[1],
        format!(
            "{ALLOW}impl<a___FN: Fn() -> i32, b___FN: Fn() -> i32, BODYFN: Fn(i32, i32, ) -> i32, a, > \
             __PartialApplication__add_<a, a___FN, add___Empty, b___FN, BODYFN> {{\n    \
             fn b(mut self, b: b___FN) -> \
             __PartialApplication__add_<a, a___FN, add___Added, b___FN, BODYFN> {{\n        \
             self.b = Some(b);\n        \
             let this = ::std::mem::ManuallyDrop::new(self);\n        \
             unsafe {{ ::std::mem::transmute_copy::<\
             __PartialApplication__add_<a, a___FN, add___Empty, b___FN, BODYFN>, \
             __PartialApplication__add_<a, a___FN, add___Added, b___FN, BODYFN>>(&*this) }}\n    }}\n}}"
        )
    );
    assert_eq!(
        artifact.terminal,
        format!(
            "{ALLOW}impl<a___FN: Fn() -> i32, b___FN: Fn() -> i32, BODYFN: Fn(i32, i32, ) -> i32> \
             __PartialApplication__add_<add___Added, a___FN, add___Added, b___FN, BODYFN> {{\n    \
             fn call(self) -> i32 {{\n        \
             (self.body)(self.a.unwrap()(), self.b.unwrap()(), )\n    }}\n}}"
        )
    );
    assert_eq!(artifact.duplication, None);
    assert!(is_rust(&artifact.render()));
}

#[test]
fn polymorphic_add_is_generated_exactly() {
    let (diagnostics, mode, artifact) = generated(&["poly"], add_function());
    assert!(diagnostics.is_empty());
    assert_eq!(mode, Mode { polymorphic: true, cloneable: false });
    assert_eq!(
        artifact.markers,
        format!("{ALLOW}struct add___Added;\n{ALLOW}struct add___Empty;")
    );
    assert_eq!(
        artifact.carrier,
        format!(
            "{ALLOW}#[repr(C)]\nstruct __PartialApplication__add_<a, b, BODYFN>\n\
             where\n    BODYFN: Fn(i32, i32, ) -> i32,\n\
             {{\n    a___m: ::std::marker::PhantomData<a>,\n    b___m: ::std::marker::PhantomData<b>,\n    \
             a: Option<::std::sync::Arc<dyn Fn() -> i32>>,\n    \
             b: Option<::std::sync::Arc<dyn Fn() -> i32>>,\n    \
             body: ::std::sync::Arc<BODYFN>,\n}}"
        )
    );
    assert_eq!(
        artifact.constructor,
        format!(
            "{ALLOW}fn add<>() -> __PartialApplication__add_<add___Empty, add___Empty, \
             impl Fn(i32, i32, ) -> i32>\n\
             {{\n    __PartialApplication__add_ {{\n        a: None,\n        b: None,\n        \
             a___m: ::std::marker::PhantomData,\n        b___m: ::std::marker::PhantomData,\n        \
             body: ::std::sync::Arc::new(|a, b, | {{ a + b }}),\n    }}\n}}"
        )
    );
    assert_eq!(artifact.setters.len(), 2);
    assert_eq!(
        artifact.setters[0],
        format!(
            "{ALLOW}impl<BODYFN: Fn(i32, i32, ) -> i32, b, > \
             __PartialApplication__add_<add___Empty, b, BODYFN> {{\n    \
             fn a(mut self, a: Box<dyn Fn() -> i32>) -> \
             __PartialApplication__add_<add___Added, b, BODYFN> {{\n        \
             self.a = Some(::std::sync::Arc::from(a));\n        \
             unsafe {{ ::std::mem::transmute::<\
             __PartialApplication__add_<add___Empty, b, BODYFN>, \
             __PartialApplication__add_<add___Added, b, BODYFN>>(self) }}\n    }}\n}}"
        )
    );
    assert_eq!(
        artifact.setters[1],
        format!(
            "{ALLOW}impl<BODYFN: Fn(i32, i32, ) -> i32, a, > \
             __PartialApplication__add_<a, add___Empty, BODYFN> {{\n    \
             fn b(mut self, b: Box<dyn Fn() -> i32>) -> \
             __PartialApplication__add_<a, add___Added, BODYFN> {{\n        \
             self.b = Some(::std::sync::Arc::from(b));\n        \
             unsafe {{ ::std::mem::transmute::<\
             __PartialApplication__add_<a, add___Empty, BODYFN>, \
             __PartialApplication__add_<a, add___Added, BODYFN>>(self) }}\n    }}\n}}"
        )
    );
    assert_eq!(
        artifact.terminal,
        format!(
            "{ALLOW}impl<BODYFN: Fn(i32, i32, ) -> i32> \
             __PartialApplication__add_<add___Added, add___Added, BODYFN> {{\n    \
             fn call(self) -> i32 {{\n        \
             (self.body)(self.a.unwrap()(), self.b.unwrap()(), )\n    }}\n}}"
        )
    );
    assert!(is_rust(&artifact.render()));
}

#[test]
fn cloneable_mode_adds_the_duplication_to_what_polymorphic_mode_generates() {
    let (diagnostics, mode, cloneable) = generated(&["poly", "Clone"], add_function());
    let (_, _, polymorphic) = generated(&["poly"], add_function());
    assert!(diagnostics.is_empty());
    assert_eq!(mode, Mode { polymorphic: true, cloneable: true });
    assert_eq!(polymorphic.duplication, None);
    assert_eq!(cloneable.markers, polymorphic.markers);
    assert_eq!(cloneable.carrier, polymorphic.carrier);
    assert_eq!(cloneable.constructor, polymorphic.constructor);
    assert_eq!(cloneable.setters, polymorphic.setters);
    assert_eq!(cloneable.terminal, polymorphic.terminal);
    let expected = format!(
        "{ALLOW}impl<BODYFN: Fn(i32, i32, ) -> i32, a, b, > ::std::clone::Clone for \
         __PartialApplication__add_<a, b, BODYFN> {{\n    \
         fn clone(&self) -> Self {{\n        \
         __PartialApplication__add_ {{\n            \
         a___m: ::std::marker::PhantomData,\n            \
         b___m: ::std::marker::PhantomData,\n            \
         a: ::std::clone::Clone::clone(&self.a),\n            \
         b: ::std::clone::Clone::clone(&self.b),\n            \
         body: ::std::clone::Clone::clone(&self.body),\n        }}\n    }}\n}}"
    );
    assert_eq!(cloneable.duplication, Some(expected.clone()));
    assert_eq!(cloneable.render(), format!("{}{}\n", polymorphic.render(), expected));
    assert!(is_rust(&cloneable.render()));
}

#[test]
fn clone_without_poly_generates_no_duplication() {
    let (diagnostics, mode, artifact) = generated(&["Clone"], add_function());
    let (_, _, monomorphic) = generated(&[], add_function());
    assert_eq!(
        diagnostics,
        vec![Diagnostic::DuplicationWithoutPoly, Diagnostic::UnacceptedOption]
    );
    assert_eq!(mode, Mode { polymorphic: false, cloneable: false });
    assert_eq!(artifact.duplication, None);
    assert_eq!(artifact.render(), monomorphic.render());
}

#[test]
fn render_puts_the_items_in_order_one_per_line_break() {
    let (_, _, artifact) = generated(&["poly", "Clone"], add_function());
    let expected = format!(
        "{}\n{}\n{}\n{}\n{}\n{}\n{}\n",
        artifact.markers,
        artifact.carrier,
        artifact.constructor,
        artifact.setters[0],
        artifact.setters[1],
        artifact.terminal,
        artifact.duplication.clone().unwrap()
    );
    assert_eq!(artifact.render(), expected);
    let (_, _, artifact) = generated(&[], add_function());
    let expected = format!(
        "{}\n{}\n{}\n{}\n{}\n{}\n",
        artifact.markers,
        artifact.carrier,
        artifact.constructor,
        artifact.setters[0],
        artifact.setters[1],
        artifact.terminal
    );
    assert_eq!(artifact.render(), expected);
}

#[test]
fn bounded_generic_is_declared_whole_and_named_alone() {
    let mut func = function(
        "largest",
        &[],
        vec![typed("left", "T", Borrow::Owned), typed("right", "[T; N]", Borrow::Owned)],
        "-> T",
        "{ left }",
    );
    func.generics = vec![
        Generic { name: "T".to_string(), declaration: "T: Clone + PartialOrd".to_string() },
        Generic { name: "N".to_string(), declaration: "const N: usize".to_string() },
    ];
    for attr in [vec![], vec!["poly"], vec!["poly", "Clone"]] {
        let (diagnostics, mode, artifact) = generated(&attr, func.clone());
        assert!(diagnostics.is_empty());
        assert!(artifact
            .carrier
            .contains("struct __PartialApplication__largest_<T: Clone + PartialOrd, const N: usize, left, "));
        assert!(artifact.constructor.contains("fn largest<T: Clone + PartialOrd, const N: usize, "));
        assert!(artifact.constructor.contains(">() -> __PartialApplication__largest_<T, N, largest___Empty, "));
        assert!(artifact.terminal.contains("impl<T: Clone + PartialOrd, const N: usize, "));
        assert!(artifact.terminal.contains("> __PartialApplication__largest_<T, N, largest___Added, "));
        for setter in &artifact.setters {
            assert!(setter.contains("impl<T: Clone + PartialOrd, const N: usize, "));
            assert_eq!(setter.matches("__PartialApplication__largest_<T, N, ").count(), 4);
        }
        assert_eq!(artifact.duplication.is_some(), mode.cloneable);
        if let Some(duplication) = &artifact.duplication {
            assert!(duplication.contains("impl<T: Clone + PartialOrd, const N: usize, BODYFN: "));
            assert!(duplication
                .contains("::std::clone::Clone for __PartialApplication__largest_<T, N, left, right, BODYFN> {"));
        }
        assert!(is_rust(&artifact.render()));
    }
}

#[test]
fn one_setter_per_parameter_and_one_terminal_operation() {
    let arities: [usize; 4] = [0, 1, 3, 7];
    for arity in arities {
        let inputs: Vec<Argument> =
            (0..arity).map(|i| typed(&format!("p{i}"), "u8", Borrow::Owned)).collect();
        for attr in [vec![], vec!["poly"]] {
            let func = function("f", &[], inputs.clone(), "-> u8", "{ 0 }");
            let (_, _, artifact) = generated(&attr, func);
            assert_eq!(artifact.setters.len(), arity);
            for (i, setter) in artifact.setters.iter().enumerate() {
                assert!(setter.contains(&format!("fn p{i}(mut self, p{i}: ")));
                assert_eq!(setter.matches("fn ").count(), 1);
            }
            assert_eq!(artifact.terminal.matches("fn call(self)").count(), 1);
            assert_eq!(artifact.render().matches("fn call(self)").count(), 1);
            assert!(is_rust(&artifact.render()));
        }
    }
}

#[test]
fn function_without_parameters_needs_no_setter() {
    let func = function("unit", &[], vec![], "", "{ }");
    let (diagnostics, _, artifact) = generated(&[], func);
    assert!(diagnostics.is_empty());
    assert!(artifact.setters.is_empty());
    assert_eq!(
        artifact.constructor,
        format!(
            "{ALLOW}fn unit<>() -> __PartialApplication__unit_<impl Fn() >\nwhere\n    \n\
             {{\n    __PartialApplication__unit_ {{\n        body: || {{ }},\n    }}\n}}"
        )
    );
    assert_eq!(
        artifact.terminal,
        format!(
            "{ALLOW}impl<BODYFN: Fn() > __PartialApplication__unit_<BODYFN> {{\n    \
             fn call(self)  {{\n        (self.body)()\n    }}\n}}"
        )
    );
    assert!(is_rust(&artifact.render()));
}

#[test]
fn generics_and_stated_lifetimes_are_carried_through() {
    let func = function(
        "pick",
        &["'a", "T"],
        vec![
            typed("first", "&'a T", Borrow::Stated),
            typed("second", "&'a T", Borrow::Stated),
            typed("left", "bool", Borrow::Owned),
        ],
        "-> &'a T",
        "{ if left { first } else { second } }",
    );
    for attr in [vec![], vec!["poly"]] {
        let (diagnostics, _, artifact) = generated(&attr, func.clone());
        assert!(diagnostics.is_empty());
        assert_eq!(artifact.setters.len(), 3);
        assert!(artifact.carrier.contains("struct __PartialApplication__pick_<'a, T, first, "));
        assert!(artifact.carrier.contains("\n#[repr(C)]\nstruct "));
        assert!(artifact.terminal.contains("fn call(self) -> &'a T {"));
        assert!(is_rust(&artifact.render()));
    }
}

#[test]
fn setter_pins_its_own_label_and_leaves_the_others_free() {
    let args = vec![parameter("x", "u8"), parameter("y", "u16"), parameter("z", "u32")];
    let setters = argument_calls("S", &args, "ADDED", "EMPTY", "-> u64", &vec![], true);
    assert_eq!(setters.len(), 3);
    assert!(setters[0].contains("> S<EMPTY, y, z, BODYFN> {"));
    assert!(setters[0].contains(") -> S<ADDED, y, z, BODYFN> {"));
    assert!(setters[1].contains("> S<x, EMPTY, z, BODYFN> {"));
    assert!(setters[1].contains(") -> S<x, ADDED, z, BODYFN> {"));
    assert!(setters[2].contains("> S<x, y, EMPTY, BODYFN> {"));
    assert!(setters[2].contains(") -> S<x, y, ADDED, BODYFN> {"));
    assert!(setters[1].contains("impl<BODYFN: Fn(u8, u16, u32, ) -> u64, x, z, >"));
    assert!(setters[1].contains("fn y(mut self, y: Box<dyn Fn() -> u16>)"));
    let setters = argument_calls("S", &args, "ADDED", "EMPTY", "-> u64", &vec![], false);
    assert!(setters[1].contains("> S<x, x___FN, EMPTY, y___FN, z, z___FN, BODYFN> {"));
    assert!(setters[1].contains(") -> S<x, x___FN, ADDED, y___FN, z, z___FN, BODYFN> {"));
    assert!(setters[1].contains("fn y(mut self, y: y___FN)"));
}

#[test]
fn setter_moves_the_carrier_into_what_it_returns() {
    let args = vec![parameter("x", "String")];
    let mono = argument_calls("S", &args, "ADDED", "EMPTY", "-> usize", &vec![], false);
    assert!(mono[0].contains(
        "self.x = Some(x);\n        let this = ::std::mem::ManuallyDrop::new(self);\n        \
         unsafe { ::std::mem::transmute_copy::<S<EMPTY, x___FN, BODYFN>, S<ADDED, x___FN, BODYFN>>(&*this) }"
    ));
    assert!(!mono[0].contains("(&self)"));
    let poly = argument_calls("S", &args, "ADDED", "EMPTY", "-> usize", &vec![], true);
    assert!(poly[0].contains(
        "self.x = Some(::std::sync::Arc::from(x));\n        \
         unsafe { ::std::mem::transmute::<S<EMPTY, BODYFN>, S<ADDED, BODYFN>>(self) }"
    ));
}

#[test]
fn synthesizers_agree_with_the_whole_expansion() {
    for poly in [false, true] {
        let attr: Vec<&str> = if poly { vec!["poly"] } else { vec![] };
        let (_, _, artifact) = generated(&attr, add_function());
        let args = add_parameters();
        let name = struct_name("add");
        assert_eq!(name, "__PartialApplication__add_");
        assert_eq!(artifact.markers, unit_structs("add___Added", "add___Empty"));
        assert_eq!(artifact.carrier, main_struct(&name, &args, "-> i32", &vec![], poly));
        assert_eq!(
            artifact.constructor,
            generator_func(&name, "add", &args, "-> i32", "add___Empty", "{ a + b }", &vec![], poly)
        );
        assert_eq!(
            artifact.setters,
            argument_calls(&name, &args, "add___Added", "add___Empty", "-> i32", &vec![], poly)
        );
        assert_eq!(
            artifact.terminal,
            final_call(&name, &args, "-> i32", "add___Added", &vec![], poly)
        );
    }
    let (_, _, artifact) = generated(&["poly", "Clone"], add_function());
    assert_eq!(
        artifact.duplication,
        Some(clone_impl("__PartialApplication__add_", &add_parameters(), "-> i32", &vec![]))
    );
}

#[test]
fn impl_signature_lists_generics_then_bounds() {
    let args = add_parameters();
    let generics = vec![plain("'a"), plain("T")];
    assert_eq!(
        impl_signature(&args, "-> T", &generics, false),
        "'a, T, a___FN: Fn() -> i32, b___FN: Fn() -> i32, BODYFN: Fn(i32, i32, ) -> T"
    );
    assert_eq!(impl_signature(&args, "-> T", &generics, true), "'a, T, BODYFN: Fn(i32, i32, ) -> T");
    assert_eq!(impl_signature(&vec![], "", &vec![], false), "BODYFN: Fn() ");
}

#[test]
fn generate_reports_into_the_given_sink() {
    let mut func = add_function();
    func.where_clause = true;
    let mut sink = vec![Diagnostic::NotAFunction];
    let artifact = generate(&func, Mode { polymorphic: false, cloneable: false }, &mut sink);
    assert_eq!(sink, vec![Diagnostic::NotAFunction, Diagnostic::WhereClause]);
    assert_eq!(artifact.setters.len(), 2);
}
