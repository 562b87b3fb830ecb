use impl_enum::as_dyn::{as_dyn_impl, CapabilityPath, Paths};
use impl_enum::decl::{Diagnostic, EnumDecl, Field, Fields, Generics, StructuralError, Variant};
use impl_enum::parse::parse_enum;
use impl_enum::signature::{MethodSig, Param};
use impl_enum::with_methods::{with_methods_impl, Methods};
use impl_enum::{as_dyn, with_methods};

fn names(methods: &Methods) -> Vec<&str> {
    methods.0.iter().map(|m| m.name.as_str()).collect()
}

#[test]
fn signatures_keep_their_order() {
    let methods = Methods::parse("fn c() fn a() fn b() fn a()").unwrap();
    assert_eq!(names(&methods), vec!["c", "a", "b", "a"]);
}

#[test]
fn signatures_are_separated_by_white_space_alone() {
    let methods = Methods::parse("fn a()\nfn b()\n\n\tfn c()").unwrap();
    assert_eq!(names(&methods), vec!["a", "b", "c"]);
    assert!(Methods::parse("fn a(), fn b()").is_err());
}

#[test]
fn an_empty_list_holds_no_signature() {
    assert_eq!(Methods::parse(""), Ok(Methods(vec![])));
    assert_eq!(Methods::parse(" \n "), Ok(Methods(vec![])));
}

#[test]
fn a_body_behind_a_signature_is_passed_over() {
    let methods =
        Methods::parse("fn a(); fn b() { unreachable!() } fn c() -> u8 { 1 } fn d();").unwrap();
    assert_eq!(names(&methods), vec!["a", "b", "c", "d"]);
    assert_eq!(methods.0[2].output, "-> u8");
    let bare = Methods::parse("fn a() fn b() fn c() -> u8 fn d()").unwrap();
    assert_eq!(methods, bare);
}

#[test]
fn one_body_at_most_is_passed_over() {
    let e = Methods::parse("fn a();; fn b()").unwrap_err();
    assert_eq!(e.message, "expected `fn`");
    let e = Methods::parse("fn a() {} {} fn b()").unwrap_err();
    assert_eq!(e.message, "expected `fn`");
    let e = Methods::parse("fn a() {};").unwrap_err();
    assert_eq!(e.message, "expected `fn`");
    let e = Methods::parse("; fn a()").unwrap_err();
    assert_eq!(e.message, "expected `fn`");
}

#[test]
fn only_braces_make_a_body() {
    assert!(Methods::parse("fn a() (x)").is_err());
    assert!(Methods::parse("fn a() [x]").is_err());
    assert!(Methods::parse("fn a() ,").is_err());
}

#[test]
fn signature_parts() {
    let methods = Methods::parse(
        "pub(crate) const unsafe fn get<'a, T: Ord>(&'a self, key: &T, (a, b): (u8, u8)) -> \
         Option<&'a T> where T: Copy",
    )
    .unwrap();
    assert_eq!(
        methods.0,
        vec![MethodSig {
            vis: "pub (crate)".to_string(),
            qualifiers: "const unsafe".to_string(),
            name: "get".to_string(),
            generics: "< 'a , T : Ord >".to_string(),
            params: vec![
                Param::Receiver {
                    text: "& 'a self".to_string()
                },
                Param::Typed {
                    text: "key : & T".to_string(),
                    pattern: "key".to_string()
                },
                Param::Typed {
                    text: "(a , b) : (u8 , u8)".to_string(),
                    pattern: "(a , b)".to_string()
                },
            ],
            variadic: String::new(),
            output: "-> Option < & 'a T >".to_string(),
            where_clause: "where T : Copy".to_string(),
        }]
    );
}

#[test]
fn signature_with_abi_and_variadic() {
    let methods =
        Methods::parse("unsafe extern \"C\" fn printf(f: *const u8, ...) -> i32").unwrap();
    let sig = &methods.0[0];
    assert_eq!(sig.vis, "");
    assert_eq!(sig.qualifiers, "unsafe extern \"C\"");
    assert_eq!(sig.variadic, "...");
    assert_eq!(sig.params.len(), 1);
    assert_eq!(
        sig.render(),
        "unsafe extern \"C\" fn printf (f : * const u8, ...) -> i32"
    );
}

#[test]
fn receivers_of_every_form() {
    let methods = Methods::parse(
        "fn a(self) fn b(&self) fn c(&mut self) fn d(mut self) fn e(self: Box<Self>)",
    )
    .unwrap();
    let receivers: Vec<&Param> = methods.0.iter().map(|m| &m.params[0]).collect();
    assert_eq!(
        receivers,
        vec![
            &Param::Receiver {
                text: "self".to_string()
            },
            &Param::Receiver {
                text: "& self".to_string()
            },
            &Param::Receiver {
                text: "& mut self".to_string()
            },
            &Param::Receiver {
                text: "mut self".to_string()
            },
            &Param::Receiver {
                text: "self : Box < Self >".to_string()
            },
        ]
    );
    assert!(methods.0.iter().all(|m| m.has_receiver()));
}

#[test]
fn malformed_signatures_are_syntax_errors() {
    let e = Methods::parse("fn a() fn").unwrap_err();
    assert_eq!(e.message, "unexpected end of input, expected identifier");
    let e = Methods::parse("fn a(x: u8, self)").unwrap_err();
    assert_eq!(e.message, "unexpected method receiver");
    assert_eq!((e.line, e.column), (1, 12));
    let e = Methods::parse("struct S;").unwrap_err();
    assert_eq!(e.message, "expected `fn`");
    assert_eq!((e.line, e.column), (1, 0));
    let e = Methods::parse("fn a()\nfn b(\nfn c()").unwrap_err();
    assert_eq!(e.message, "cannot parse string into token stream");
    let e = Methods::parse("fn a()\n  fn 7()").unwrap_err();
    assert_eq!(e.message, "expected identifier");
    assert_eq!((e.line, e.column), (2, 5));
}

#[test]
fn paths_with_commas_between_them() {
    let paths =
        Paths::parse("T, std::fmt::Debug, ::core::convert::AsRef<str>, XMLHttpRequest,").unwrap();
    assert_eq!(
        paths.0,
        vec![
            CapabilityPath {
                text: "T".to_string(),
                target: "T".to_string()
            },
            CapabilityPath {
                text: "std :: fmt :: Debug".to_string(),
                target: "Debug".to_string()
            },
            CapabilityPath {
                text: ":: core :: convert :: AsRef < str >".to_string(),
                target: "AsRef".to_string()
            },
            CapabilityPath {
                text: "XMLHttpRequest".to_string(),
                target: "XMLHttpRequest".to_string()
            },
        ]
    );
    assert_eq!(Paths::parse(""), Ok(Paths(vec![])));
}

#[test]
fn malformed_path_lists_are_syntax_errors() {
    let e = Paths::parse("T U").unwrap_err();
    assert_eq!(e.message, "expected `,`");
    assert_eq!((e.line, e.column), (1, 2));
    let e = Paths::parse("T,,U").unwrap_err();
    assert_eq!(e.message, "expected identifier");
    let e = Paths::parse("fn f()").unwrap_err();
    assert_eq!(e.message, "expected identifier, found keyword `fn`");
}

fn unnamed(ty: &str) -> Field {
    Field {
        name: None,
        ty: ty.to_string(),
    }
}

fn named(name: &str, ty: &str) -> Field {
    Field {
        name: Some(name.to_string()),
        ty: ty.to_string(),
    }
}

fn variant(name: &str, fields: Fields) -> Variant {
    Variant {
        name: name.to_string(),
        fields,
    }
}

#[test]
fn enum_declaration() {
    let decl = parse_enum(
        "#[derive(Debug)] pub enum E<'a, T: Clone + 'a = u8, const N: usize = 3> where T: Copy \
         { A, B(), C {}, D(&'a T, u8), E { x: [u8; N], y: Vec<T> }, F = 3 }",
    )
    .unwrap();
    assert_eq!(
        decl,
        EnumDecl {
            name: "E".to_string(),
            generics: Generics {
                impl_generics: "< 'a , T : Clone + 'a , const N : usize >".to_string(),
                ty_generics: "< 'a , T , N >".to_string(),
                where_clause: "where T : Copy".to_string(),
            },
            variants: vec![
                variant("A", Fields::Unit),
                variant("B", Fields::Unnamed(vec![])),
                variant("C", Fields::Named(vec![])),
                variant("D", Fields::Unnamed(vec![unnamed("& 'a T"), unnamed("u8")])),
                variant(
                    "E",
                    Fields::Named(vec![named("x", "[u8 ; N]"), named("y", "Vec < T >")])
                ),
                variant("F", Fields::Unit),
            ],
        }
    );
}

#[test]
fn enum_without_generics_and_variants() {
    assert_eq!(
        parse_enum("enum Never {}"),
        Ok(EnumDecl {
            name: "Never".to_string(),
            generics: Generics {
                impl_generics: String::new(),
                ty_generics: String::new(),
                where_clause: String::new(),
            },
            variants: vec![],
        })
    );
}

#[test]
fn what_is_no_enum_is_a_syntax_error() {
    let e = parse_enum("struct S { x: u8 }").unwrap_err();
    assert_eq!(e.message, "expected `enum`");
    assert_eq!((e.line, e.column), (1, 0));
    let e = parse_enum("enum E { A(u8) } fn f() {}").unwrap_err();
    assert_eq!(e.message, "unexpected token");
    assert_eq!((e.line, e.column), (1, 17));
    let e = parse_enum("enum E {\n    A(u8),\n    B(u8) C,\n}").unwrap_err();
    assert_eq!(e.message, "expected `,`");
    assert_eq!((e.line, e.column), (3, 10));
    let e = parse_enum("enum E { A(u8 }").unwrap_err();
    assert_eq!(e.message, "cannot parse string into token stream");
    assert!(parse_enum("").is_err());
}

#[test]
fn a_syntax_error_is_all_that_comes_back() {
    let e = with_methods("fn len(&self) -> usize; fn", "enum E { A(u8) }").unwrap_err();
    assert_eq!(e.message, "unexpected end of input, expected identifier");
    let e = with_methods("fn len(&self) -> usize", "struct E;").unwrap_err();
    assert_eq!(e.message, "expected `enum`");
    let e = as_dyn("T U", "enum E { A(u8) }").unwrap_err();
    assert_eq!(e.message, "expected `,`");
    let e = as_dyn("T", "union E { a: u8 }").unwrap_err();
    assert_eq!(e.message, "expected `enum`");
}

#[test]
fn the_list_is_read_before_the_enum() {
    let e = with_methods("fn 7()", "struct E;").unwrap_err();
    assert_eq!(e.message, "expected identifier");
    let e = as_dyn("T U", "struct E;").unwrap_err();
    assert_eq!(e.message, "expected `,`");
}

#[test]
fn structural_failures_do_not_end_the_expansion() {
    let item = "enum E { A(u8), B, C() }";
    let x = with_methods("fn len(&self) -> usize; pub fn name() -> String", item).unwrap();
    assert_eq!(x.item, item);
    assert!(x.methods.is_empty());
    let refused = Diagnostic {
        variant: 1,
        error: StructuralError::UnitVariant,
    };
    assert_eq!(x.diagnostics, vec![refused, refused]);
    assert_eq!(x.code(), "enum E { A(u8), B, C() } impl E {  }");

    let y = as_dyn("Debug, Write, Read", item).unwrap();
    assert!(y.methods.is_empty());
    assert_eq!(y.diagnostics, vec![refused, refused, refused]);

    let z = as_dyn("Debug", "enum E { A(u8), B {}, C }").unwrap();
    assert_eq!(
        z.diagnostics,
        vec![Diagnostic {
            variant: 1,
            error: StructuralError::NoFields
        }]
    );
}

#[test]
fn several_traits_in_one_expansion() {
    let x = as_dyn(
        "std::fmt::Debug, Write",
        "pub enum Writer { Cursor(Cursor<Vec<u8>>), File { file: File } }",
    )
    .unwrap();
    assert!(x.diagnostics.is_empty());
    assert_eq!(
        x.block(),
        "impl Writer { \
         fn as_dyn_debug (&self) -> & dyn std :: fmt :: Debug { match self { \
         Self :: Cursor (__first, ..) => __first as _, \
         Self :: File { file : __first, .. } => __first as _ } } \
         fn as_dyn_debug_mut (&mut self) -> & mut dyn std :: fmt :: Debug { match self { \
         Self :: Cursor (__first, ..) => __first as _, \
         Self :: File { file : __first, .. } => __first as _ } } \
         fn into_dyn_debug (self) -> Box < dyn std :: fmt :: Debug > { match self { \
         Self :: Cursor (__first, ..) => Box :: new (__first) as _, \
         Self :: File { file : __first, .. } => Box :: new (__first) as _ } } \
         fn as_dyn_write (&self) -> & dyn Write { match self { \
         Self :: Cursor (__first, ..) => __first as _, \
         Self :: File { file : __first, .. } => __first as _ } } \
         fn as_dyn_write_mut (&mut self) -> & mut dyn Write { match self { \
         Self :: Cursor (__first, ..) => __first as _, \
         Self :: File { file : __first, .. } => __first as _ } } \
         fn into_dyn_write (self) -> Box < dyn Write > { match self { \
         Self :: Cursor (__first, ..) => Box :: new (__first) as _, \
         Self :: File { file : __first, .. } => Box :: new (__first) as _ } } }"
    );
}

#[test]
fn forwarding_text_for_two_signatures() {
    let x = with_methods(
        "fn write_all(&mut self, buf: &[u8]) -> std::io::Result<()>
         pub fn write(&mut self, buf: &[u8]) -> std::io::Result<usize>",
        "pub enum Writer { Cursor(Cursor<Vec<u8>>), File { file: File } }",
    )
    .unwrap();
    assert_eq!(
        x.code(),
        "pub enum Writer { Cursor(Cursor<Vec<u8>>), File { file: File } } \
         impl Writer { \
         fn write_all (& mut self, buf : & [u8]) -> std :: io :: Result < () > { match self { \
         Self :: Cursor (__first, ..) => < Cursor < Vec < u8 > > > :: write_all (__first, buf), \
         Self :: File { file : __first, .. } => < File > :: write_all (__first, buf) } } \
         pub fn write (& mut self, buf : & [u8]) -> std :: io :: Result < usize > { match self { \
         Self :: Cursor (__first, ..) => < Cursor < Vec < u8 > > > :: write (__first, buf), \
         Self :: File { file : __first, .. } => < File > :: write (__first, buf) } } }"
    );
}

#[test]
fn the_entry_points_are_the_drivers() {
    let args = "fn len(&self) -> usize";
    let item = "enum E { A(Vec<u8>), B { b: String } }";
    assert_eq!(with_methods(args, item), with_methods_impl(args, item));
    assert_eq!(as_dyn("Debug", item), as_dyn_impl("Debug", item));
    assert_eq!(with_methods(args, "enum"), with_methods_impl(args, "enum"));
}
