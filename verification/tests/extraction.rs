use hot_lib_reloader_macro::error::ExtractError;
use hot_lib_reloader_macro::extract::{extract_declarations, read_unmangled_functions_from_file};
use hot_lib_reloader_macro::model::{
    Attribute, DeclaredParameter, FileProbe, ForeignDeclaration, FunctionItem, ModuleItem,
    Parameter, PathToken, Pattern, ResolvedPath, Signature, SourceModule, Visibility,
};
use proc_macro2::Span;

fn span_elsewhere() -> Span {
    let tokens: proc_macro2::TokenStream = "first second".parse().unwrap();
    tokens.into_iter().nth(1).unwrap().span()
}

fn span_text(span: Span) -> String {
    format!("{:?} {:?} {:?}", span, span.start(), span.end())
}

fn token(value: &str, span: Span) -> PathToken {
    PathToken { value: value.to_string(), span }
}

fn resolved(path: &str) -> ResolvedPath {
    ResolvedPath { path: path.to_string() }
}

fn loaded(content: &str) -> FileProbe {
    FileProbe::Loaded { content: content.to_string() }
}

fn marker() -> Attribute {
    Attribute { ident: Some("no_mangle".to_string()) }
}

fn binding(name: &str, ty: &str) -> Parameter {
    Parameter::Typed {
        pattern: Pattern::SimpleBinding { name: name.to_string() },
        ty: ty.to_string(),
    }
}

fn function(vis: Visibility, attrs: Vec<Attribute>, name: &str, params: Vec<Parameter>) -> ModuleItem {
    ModuleItem::Function(FunctionItem {
        vis,
        attrs,
        sig: Signature {
            qualifiers: String::new(),
            name: name.to_string(),
            generics: String::new(),
            params,
            variadic: String::new(),
            ret: None,
            where_clause: String::new(),
        },
    })
}

fn declared(name: &str, params: Vec<(&str, &str)>, ret: Option<&str>) -> ForeignDeclaration {
    ForeignDeclaration {
        vis: Visibility::Public,
        qualifiers: String::new(),
        generics: String::new(),
        variadic: String::new(),
        where_clause: String::new(),
        name: name.to_string(),
        params: params
            .into_iter()
            .map(|(name, ty)| DeclaredParameter { name: name.to_string(), ty: ty.to_string() })
            .collect(),
        ret: ret.map(|ty| ty.to_string()),
    }
}

const LIBRARY: &str = "
use std::collections::HashMap;

pub struct State { pub count: u32 }

#[no_mangle]
pub fn first(state: &mut State, by: u32) -> u32 {
    state.count += by;
    state.count
}

fn helper() {}

#[inline]
#[no_mangle]
pub fn second() {}

pub fn unmarked(x: u8) -> u8 { x }

#[no_mangle]
fn private_marked() {}

#[no_mangle]
pub(crate) fn scoped_marked() {}

pub const LIMIT: u32 = 3;

#[no_mangle]
pub fn third(mut names: Vec<String>, table: HashMap<String, u32>) -> Option<String> {
    names.pop()
}
";

#[test]
fn exported_functions_are_declared_in_source_order() {
    let span = span_elsewhere();
    let list = read_unmangled_functions_from_file(
        &token("lib.rs", span),
        &resolved("/proj/src/lib.rs"),
        loaded(LIBRARY),
    )
    .unwrap();
    assert_eq!(list.len(), 3);
    assert_eq!(
        list[0].0,
        declared("first", vec![("state", "& mut State"), ("by", "u32")], Some("u32"))
    );
    assert_eq!(list[1].0, declared("second", vec![], None));
    assert_eq!(
        list[2].0,
        declared(
            "third",
            vec![("names", "Vec < String >"), ("table", "HashMap < String , u32 >")],
            Some("Option < String >"),
        )
    );
    for (_, at) in &list {
        assert_eq!(span_text(*at), span_text(span));
    }
    assert_ne!(span_text(span), span_text(Span::call_site()));
}

#[test]
fn private_and_unmarked_functions_leave_no_trace() {
    let source = "
        fn private() {}
        pub fn unmarked((a, b): (u8, u8)) {}
        #[no_mangle] fn private_marked(_: u8) {}
        #[no_mangle] pub(crate) fn crate_marked() {}
        #[no_mangle] pub(super) fn super_marked() {}
        #[no_mangle] pub(self) fn self_marked() {}
        #[inline] pub fn other_attribute() {}
        pub struct Data;
        pub const N: u8 = 1;
        pub mod inner { #[no_mangle] pub fn nested() {} }
    ";
    let list = read_unmangled_functions_from_file(
        &token("lib.rs", Span::call_site()),
        &resolved("lib.rs"),
        loaded(source),
    )
    .unwrap();
    assert_eq!(list.len(), 0);
}

#[test]
fn skipped_item_changes_nothing() {
    let with = vec![
        function(Visibility::Public, vec![marker()], "kept", vec![binding("x", "u8")]),
        function(Visibility::Private, vec![marker()], "hidden", vec![Parameter::Receiver]),
        ModuleItem::Other,
        function(Visibility::Public, vec![], "unmarked", vec![]),
        function(Visibility::Public, vec![marker()], "last", vec![]),
    ];
    let without = vec![with[0].clone(), with[4].clone()];
    let span = Span::call_site();
    let a = extract_declarations(SourceModule { items: with }, span).unwrap();
    let b = extract_declarations(SourceModule { items: without }, span).unwrap();
    let names = |list: &Vec<(ForeignDeclaration, Span)>| -> Vec<String> {
        list.iter().map(|(d, _)| d.name.clone()).collect()
    };
    assert_eq!(names(&a), vec!["kept".to_string(), "last".to_string()]);
    assert_eq!(names(&a), names(&b));
    assert_eq!(a[0].0, b[0].0);
    assert_eq!(a[1].0, b[1].0);
}

#[test]
fn attribute_counts_by_its_bare_name_only() {
    let source = "
        #[no_mangle(anything, at = \"all\")] pub fn with_arguments() {}
        #[some::no_mangle] pub fn under_a_path() {}
        #[::no_mangle] pub fn with_leading_colons() {}
        #[export_name = \"no_mangle\"] pub fn named_so() {}
        #[doc = \"text\"] #[no_mangle] #[inline(never)] pub fn among_others() {}
    ";
    let list = read_unmangled_functions_from_file(
        &token("lib.rs", Span::call_site()),
        &resolved("lib.rs"),
        loaded(source),
    )
    .unwrap();
    let names: Vec<&str> = list.iter().map(|(d, _)| d.name.as_str()).collect();
    assert_eq!(names, vec!["with_arguments", "among_others"]);
}

#[test]
fn duplicate_names_are_kept() {
    let source = "#[no_mangle] pub fn twice(a: u8) {} #[no_mangle] pub fn twice(b: u16) {}";
    let list = read_unmangled_functions_from_file(
        &token("lib.rs", Span::call_site()),
        &resolved("lib.rs"),
        loaded(source),
    )
    .unwrap();
    assert_eq!(list.len(), 2);
    assert_eq!(list[0].0, declared("twice", vec![("a", "u8")], None));
    assert_eq!(list[1].0, declared("twice", vec![("b", "u16")], None));
}

#[test]
fn destructured_parameter_fails_at_the_invocation_site() {
    let span = span_elsewhere();
    let source = "
        #[no_mangle] pub fn fine(a: u8) {}
        #[no_mangle] pub fn broken((x, y): (u8, u8)) {}
        #[no_mangle] pub fn also_broken(_: u8) {}
    ";
    let error = read_unmangled_functions_from_file(
        &token("lib.rs", span),
        &resolved("/proj/src/lib.rs"),
        loaded(source),
    )
    .unwrap_err();
    assert_eq!(
        error.message(),
        "generating call for library function: signature of function broken cannot be converted"
    );
    match error {
        ExtractError::SignatureError { function, span: at } => {
            assert_eq!(function, "broken");
            assert_eq!(span_text(at), span_text(span));
        },
        other => panic!("unexpected error: {:?}", other),
    }
}

#[test]
fn inconvertible_function_that_is_not_exported_is_no_error() {
    let source = "
        pub fn unmarked((x, y): (u8, u8)) {}
        #[no_mangle] fn private(_: u8) {}
        #[no_mangle] pub fn fine(a: u8) {}
    ";
    let list = read_unmangled_functions_from_file(
        &token("lib.rs", Span::call_site()),
        &resolved("lib.rs"),
        loaded(source),
    )
    .unwrap();
    assert_eq!(list.len(), 1);
    assert_eq!(list[0].0, declared("fine", vec![("a", "u8")], None));
}

#[test]
fn exported_function_with_a_receiver_fails() {
    let span = span_elsewhere();
    let error = read_unmangled_functions_from_file(
        &token("lib.rs", span),
        &resolved("lib.rs"),
        loaded("#[no_mangle] pub fn method(&self, a: u8) {}"),
    )
    .unwrap_err();
    match error {
        ExtractError::SignatureError { function, span: at } => {
            assert_eq!(function, "method");
            assert_eq!(span_text(at), span_text(span));
        },
        other => panic!("unexpected error: {:?}", other),
    }
}

#[test]
fn missing_file_fails_with_file_not_found() {
    let span = span_elsewhere();
    let error = read_unmangled_functions_from_file(
        &token("missing.rs", span),
        &resolved("/proj/src/missing.rs"),
        FileProbe::Missing,
    )
    .unwrap_err();
    assert_eq!(error.message(), "file does not exist: \"/proj/src/missing.rs\"");
    match error {
        ExtractError::FileNotFound { path, span: at } => {
            assert_eq!(path, "/proj/src/missing.rs");
            assert_eq!(span_text(at), span_text(span));
        },
        other => panic!("unexpected error: {:?}", other),
    }
}

#[test]
fn unreadable_file_fails_with_read_error() {
    let span = span_elsewhere();
    let error = read_unmangled_functions_from_file(
        &token("lib.rs", span),
        &resolved("/proj/src/lib.rs"),
        FileProbe::Unreadable { cause: "stream did not contain valid UTF-8".to_string() },
    )
    .unwrap_err();
    assert_eq!(
        error.message(),
        "Error reading file \"/proj/src/lib.rs\": stream did not contain valid UTF-8"
    );
    match error {
        ExtractError::ReadError { path, cause, span: at } => {
            assert_eq!(path, "/proj/src/lib.rs");
            assert_eq!(cause, "stream did not contain valid UTF-8");
            assert_eq!(span_text(at), span_text(span));
        },
        other => panic!("unexpected error: {:?}", other),
    }
}

#[test]
fn malformed_source_fails_with_the_parsers_error() {
    let source = "#[no_mangle] pub fn fine() {}\npub fn broken( {";
    let error = read_unmangled_functions_from_file(
        &token("lib.rs", Span::call_site()),
        &resolved("lib.rs"),
        loaded(source),
    )
    .unwrap_err();
    let expected = syn::parse_file(source).unwrap_err().to_string();
    assert_eq!(error.message(), expected);
    assert!(matches!(error, ExtractError::ParseError { .. }));
}

#[test]
fn parse_error_keeps_the_parsers_position() {
    let source = "pub fn f() {}\npub fn g() { let x = ; }";
    let error = read_unmangled_functions_from_file(
        &token("lib.rs", Span::call_site()),
        &resolved("lib.rs"),
        loaded(source),
    )
    .unwrap_err();
    assert_eq!(error.message(), "expected an expression");
    match error {
        ExtractError::ParseError { error } => {
            assert_eq!(error.span().start().line, 2);
            assert_eq!(error.span().start().column, 21);
        },
        other => panic!("unexpected error: {:?}", other),
    }
}

#[test]
fn extraction_twice_gives_equal_lists() {
    let first = read_unmangled_functions_from_file(
        &token("lib.rs", Span::call_site()),
        &resolved("/proj/src/lib.rs"),
        loaded(LIBRARY),
    )
    .unwrap();
    let second = read_unmangled_functions_from_file(
        &token("lib.rs", Span::call_site()),
        &resolved("/proj/src/lib.rs"),
        loaded(LIBRARY),
    )
    .unwrap();
    assert_eq!(first.len(), 3);
    assert_eq!(first.len(), second.len());
    for ((a, at_a), (b, at_b)) in first.iter().zip(second.iter()) {
        assert_eq!(a, b);
        assert_eq!(span_text(*at_a), span_text(*at_b));
    }
}

#[test]
fn declared_names_rebuild_the_call_in_order() {
    let source = "#[no_mangle] pub fn blend(red: u8, mut green: u8, ref blue: u8, alpha @ 0..=9: u8) -> u32 { 0 }";
    let list = read_unmangled_functions_from_file(
        &token("lib.rs", Span::call_site()),
        &resolved("lib.rs"),
        loaded(source),
    )
    .unwrap();
    let declaration = &list[0].0;
    let arguments: Vec<&str> = declaration.params.iter().map(|p| p.name.as_str()).collect();
    let call = format!("{}({})", declaration.name, arguments.join(", "));
    assert_eq!(call, "blend(red, green, blue, alpha)");
    let parsed = syn::parse_file(source).unwrap();
    let function = match &parsed.items[0] {
        syn::Item::Fn(function) => function,
        _ => panic!("not a function"),
    };
    let bound: Vec<String> = function
        .sig
        .inputs
        .iter()
        .map(|arg| match arg {
            syn::FnArg::Typed(typed) => match &*typed.pat {
                syn::Pat::Ident(pat) => pat.ident.to_string(),
                _ => panic!("not a name"),
            },
            syn::FnArg::Receiver(_) => panic!("a receiver"),
        })
        .collect();
    assert_eq!(arguments, bound);
}

#[test]
fn empty_module_gives_no_declarations() {
    let list = extract_declarations(SourceModule { items: vec![] }, Span::call_site()).unwrap();
    assert_eq!(list.len(), 0);
    let list = read_unmangled_functions_from_file(
        &token("lib.rs", Span::call_site()),
        &resolved("lib.rs"),
        loaded(""),
    )
    .unwrap();
    assert_eq!(list.len(), 0);
}

#[test]
fn first_failing_export_is_the_one_reported() {
    let items = vec![
        function(Visibility::Public, vec![marker()], "good", vec![binding("a", "u8")]),
        function(
            Visibility::Public,
            vec![marker()],
            "bad_one",
            vec![binding("a", "u8"), Parameter::Typed { pattern: Pattern::Wildcard, ty: "u8".to_string() }],
        ),
        function(
            Visibility::Public,
            vec![marker()],
            "bad_two",
            vec![Parameter::Typed { pattern: Pattern::Literal, ty: "u8".to_string() }],
        ),
    ];
    let span = span_elsewhere();
    let error = extract_declarations(SourceModule { items }, span).unwrap_err();
    match error {
        ExtractError::SignatureError { function, span: at } => {
            assert_eq!(function, "bad_one");
            assert_eq!(span_text(at), span_text(span));
        },
        other => panic!("unexpected error: {:?}", other),
    }
}

#[test]
fn crate_root_offers_the_two_entry_points() {
    let error = hot_lib_reloader_macro::read_unmangled_functions_from_file(
        &token("gone.rs", Span::call_site()),
        &resolved("gone.rs"),
        FileProbe::Missing,
    )
    .unwrap_err();
    assert!(matches!(error, ExtractError::FileNotFound { .. }));
    let name = hot_lib_reloader_macro::ident_from_pat(
        &Pattern::SimpleBinding { name: "x".to_string() },
        "f",
        Span::call_site(),
    )
    .unwrap();
    assert_eq!(name, "x");
}

#[test]
fn qualifiers_generics_and_where_clause_are_handed_on() {
    let source = "
        #[no_mangle]
        pub unsafe extern \"C\" fn raw(data: *const u8, len: usize) -> i32 { 0 }
        #[no_mangle]
        pub extern fn bare() {}
        #[no_mangle]
        pub const fn fixed() -> u8 { 1 }
        #[no_mangle]
        pub async fn later(x: u8) {}
        #[no_mangle]
        pub fn generic<'a, T: Clone, const N: usize>(items: &'a [T; N]) -> T where T: Default { T::default() }
    ";
    let list = read_unmangled_functions_from_file(
        &token("lib.rs", Span::call_site()),
        &resolved("lib.rs"),
        loaded(source),
    )
    .unwrap();
    let mut raw = declared("raw", vec![("data", "* const u8"), ("len", "usize")], Some("i32"));
    raw.qualifiers = "unsafe extern \"C\"".to_string();
    let mut bare = declared("bare", vec![], None);
    bare.qualifiers = "extern".to_string();
    let mut fixed = declared("fixed", vec![], Some("u8"));
    fixed.qualifiers = "const".to_string();
    let mut later = declared("later", vec![("x", "u8")], None);
    later.qualifiers = "async".to_string();
    let mut generic = declared("generic", vec![("items", "& 'a [T ; N]")], Some("T"));
    generic.generics = "< 'a , T : Clone , const N : usize >".to_string();
    generic.where_clause = "where T : Default".to_string();
    let found: Vec<ForeignDeclaration> = list.into_iter().map(|(d, _)| d).collect();
    assert_eq!(found, vec![raw, bare, fixed, later, generic]);
}

#[test]
fn variadic_is_handed_on() {
    let source = "#[no_mangle] pub unsafe extern \"C\" fn log(level: i32, mut args: ...) {}";
    let list = read_unmangled_functions_from_file(
        &token("lib.rs", Span::call_site()),
        &resolved("lib.rs"),
        loaded(source),
    )
    .unwrap();
    let mut expected = declared("log", vec![("level", "i32")], None);
    expected.qualifiers = "unsafe extern \"C\"".to_string();
    expected.variadic = "mut args : ...".to_string();
    assert_eq!(list[0].0, expected);
}
