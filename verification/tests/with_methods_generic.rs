use impl_enum::with_methods;

fn flatten(stream: proc_macro2::TokenStream, out: &mut Vec<String>) {
    for tree in stream {
        match tree {
            proc_macro2::TokenTree::Group(group) => {
                out.push(format!("open {:?}", group.delimiter()));
                flatten(group.stream(), out);
                out.push(format!("close {:?}", group.delimiter()));
            }
            other => out.push(other.to_string()),
        }
    }
}

fn tokens_of(text: &str) -> Vec<String> {
    let mut out = Vec::new();
    flatten(text.parse().unwrap(), &mut out);
    out
}

trait A {
    fn f() -> &'static str;
}

impl A for () {
    fn f() -> &'static str {
        "A"
    }
}

trait B {
    fn f() -> &'static str;
}

impl B for () {
    fn f() -> &'static str {
        "B"
    }
}

const ARGS: &str = "
    fn f() -> &'static str
";

const ITEM: &str = "enum Generic<T, U>
where
    T: A,
    U: B,
{
    T(T),
    U(U),
}";

const BLOCK: &str = "impl<T, U> Generic<T, U>
where
    T: A,
    U: B,
{
    fn f(&self) -> &'static str {
        match self {
            Self::T(__first, ..) => <T>::f(),
            Self::U(__first, ..) => <U>::f()
        }
    }
}";

enum Generic<T, U>
where
    T: A,
    U: B,
{
    T(T),
    U(U),
}

// `BLOCK`, written out.
#[allow(unused_variables)]
impl<T, U> Generic<T, U>
where
    T: A,
    U: B,
{
    fn f(&self) -> &'static str {
        match self {
            Self::T(__first, ..) => <T>::f(),
            Self::U(__first, ..) => <U>::f()
        }
    }
}

#[test]
fn t() {
    let expansion = with_methods(ARGS, ITEM).unwrap();
    assert!(expansion.diagnostics.is_empty());
    assert_eq!(
        tokens_of(&expansion.code()),
        tokens_of(&format!("{ITEM} {BLOCK}"))
    );

    let generic = Generic::<(), ()>::T(());
    assert_eq!("A", generic.f());
    let generic = Generic::<(), ()>::U(());
    assert_eq!("B", generic.f());
}

/// The header of the block repeats the enum's parameters with their bounds
/// and its `where` clause; defaults are left off.
#[test]
fn block_header_keeps_generics() {
    let expansion = with_methods(
        "fn f() -> &'static str",
        "enum G<'a, T: A = (), const N: usize = 1> where T: 'a { T(&'a T), N([u8; N]) }",
    )
    .unwrap();
    assert_eq!(expansion.name, "G");
    assert_eq!(
        tokens_of(&expansion.generics.impl_generics),
        tokens_of("<'a, T: A, const N: usize>")
    );
    assert_eq!(
        tokens_of(&expansion.generics.ty_generics),
        tokens_of("<'a, T, N>")
    );
    assert_eq!(
        tokens_of(&expansion.generics.where_clause),
        tokens_of("where T: 'a")
    );
    let code = expansion.code();
    let block = &code[expansion.item.len()..];
    assert!(tokens_of(block)
        .starts_with(&tokens_of("impl<'a, T: A, const N: usize> G<'a, T, N> where T: 'a")));
}
