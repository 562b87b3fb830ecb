use impl_enum::with_methods;
use std::collections::HashSet;

fn flatten(stream: proc_macro2::TokenStream, out: &mut Vec<String>) {
    for tree in stream {
        match tree {
            proc_macro2::TokenTree::Group(group) => {
                out.push(format!("open {:?}", group.delimiter()));
                flatten(group.stream(), out);
                out.push(format!("close {:?}", group.delimiter()));
            }
            other => out.push(other.to_string()),
        }
    }
}

fn tokens_of(text: &str) -> Vec<String> {
    let mut out = Vec::new();
    flatten(text.parse().unwrap(), &mut out);
    out
}

const ARGS: &str = "
    fn len(&self) -> usize;
";

const ITEM: &str = "enum Enum {
    Vec { vec: Vec<u8> },
    Set(HashSet<String>),
}";

const BLOCK: &str = "impl Enum {
    fn len(&self) -> usize {
        match self {
            Self::Vec { vec: __first, .. } => <Vec<u8>>::len(__first),
            Self::Set(__first, ..) => <HashSet<String>>::len(__first)
        }
    }
}";

enum Enum {
    Vec { vec: Vec<u8> },
    HashSet(HashSet<String>),
}

// `BLOCK`, written out; the variant `Set` goes by the name `HashSet` here.
impl Enum {
    fn len(&self) -> usize {
        match self {
            Self::Vec { vec: __first, .. } => <Vec<u8>>::len(__first),
            Self::HashSet(__first, ..) => <HashSet<String>>::len(__first)
        }
    }
}

#[test]
fn test_test() {
    let expansion = with_methods(ARGS, ITEM).unwrap();
    assert!(expansion.diagnostics.is_empty());
    assert_eq!(expansion.item, ITEM);
    assert_eq!(
        tokens_of(&expansion.code()),
        tokens_of(&format!("{ITEM} {BLOCK}"))
    );

    let e = Enum::Vec {
        vec: vec![1, 2, 3, 4],
    };
    assert_eq!(e.len(), 4);

    let mut set = HashSet::new();
    set.insert("abcd".to_string());
    set.insert("bcde".to_string());
    let e = Enum::HashSet(set);
    assert_eq!(e.len(), 2);
}
