use impl_enum::as_dyn;

fn flatten(stream: proc_macro2::TokenStream, out: &mut Vec<String>) {
    for tree in stream {
        match tree {
            proc_macro2::TokenTree::Group(group) => {
                out.push(format!("open {:?}", group.delimiter()));
                flatten(group.stream(), out);
                out.push(format!("close {:?}", group.delimiter()));
            }
            other => out.push(other.to_string()),
        }
    }
}

fn tokens_of(text: &str) -> Vec<String> {
    let mut out = Vec::new();
    flatten(text.parse().unwrap(), &mut out);
    out
}

struct A;
struct B;
struct C;
struct D;

trait T {
    fn f(&self) -> &'static str;
    fn mut_f(&mut self) -> &'static str;
}

impl T for A {
    fn f(&self) -> &'static str {
        "A"
    }
    fn mut_f(&mut self) -> &'static str {
        "mut A"
    }
}
impl T for B {
    fn f(&self) -> &'static str {
        "B"
    }
    fn mut_f(&mut self) -> &'static str {
        "mut B"
    }
}
impl T for C {
    fn f(&self) -> &'static str {
        "C"
    }
    fn mut_f(&mut self) -> &'static str {
        "mut C"
    }
}

const ARGS: &str = "T";

const ITEM: &str = "enum E {
    A { a: A, b: B, c: C, d: D },
    B(B, C, D),
    C(C, D),
}";

const BLOCK: &str = "impl E {
    fn as_dyn_t(&self) -> &dyn T {
        match self {
            Self::A { a: __first, .. } => __first as _,
            Self::B(__first, ..) => __first as _,
            Self::C(__first, ..) => __first as _
        }
    }
    fn as_dyn_t_mut(&mut self) -> &mut dyn T {
        match self {
            Self::A { a: __first, .. } => __first as _,
            Self::B(__first, ..) => __first as _,
            Self::C(__first, ..) => __first as _
        }
    }
    fn into_dyn_t(self) -> Box<dyn T> {
        match self {
            Self::A { a: __first, .. } => Box::new(__first) as _,
            Self::B(__first, ..) => Box::new(__first) as _,
            Self::C(__first, ..) => Box::new(__first) as _
        }
    }
}";

#[allow(dead_code)]
enum E {
    A { a: A, b: B, c: C, d: D },
    B(B, C, D),
    C(C, D),
}

// `BLOCK`, written out.
impl E {
    fn as_dyn_t(&self) -> &dyn T {
        match self {
            Self::A { a: __first, .. } => __first as _,
            Self::B(__first, ..) => __first as _,
            Self::C(__first, ..) => __first as _
        }
    }
    fn as_dyn_t_mut(&mut self) -> &mut dyn T {
        match self {
            Self::A { a: __first, .. } => __first as _,
            Self::B(__first, ..) => __first as _,
            Self::C(__first, ..) => __first as _
        }
    }
    fn into_dyn_t(self) -> Box<dyn T> {
        match self {
            Self::A { a: __first, .. } => Box::new(__first) as _,
            Self::B(__first, ..) => Box::new(__first) as _,
            Self::C(__first, ..) => Box::new(__first) as _
        }
    }
}

#[test]
fn as_dyn_call() {
    let expansion = as_dyn(ARGS, ITEM).unwrap();
    assert!(expansion.diagnostics.is_empty());
    assert_eq!(
        tokens_of(&expansion.code()),
        tokens_of(&format!("{ITEM} {BLOCK}"))
    );

    let a = E::A {
        a: A,
        b: B,
        c: C,
        d: D,
    };
    assert_eq!("A", a.as_dyn_t().f());

    let mut b = E::B(B, C, D);
    assert_eq!("mut B", b.as_dyn_t_mut().mut_f());

    let c = E::C(C, D);
    assert_eq!("mut C", c.into_dyn_t().mut_f());
}

trait Counter {
    fn bump(&mut self);
    fn count(&self) -> u32;
}

struct Plain(u32);
struct Doubling(u32);

impl Counter for Plain {
    fn bump(&mut self) {
        self.0 += 1;
    }
    fn count(&self) -> u32 {
        self.0
    }
}

impl Counter for Doubling {
    fn bump(&mut self) {
        self.0 += 2;
    }
    fn count(&self) -> u32 {
        self.0
    }
}

#[allow(dead_code)]
enum Counters {
    Plain { counter: Plain, label: &'static str },
    Doubling(Doubling, u8),
}

const COUNTERS_BLOCK: &str = "impl Counters {
    fn as_dyn_counter(&self) -> &dyn Counter {
        match self {
            Self::Plain { counter: __first, .. } => __first as _,
            Self::Doubling(__first, ..) => __first as _
        }
    }
    fn as_dyn_counter_mut(&mut self) -> &mut dyn Counter {
        match self {
            Self::Plain { counter: __first, .. } => __first as _,
            Self::Doubling(__first, ..) => __first as _
        }
    }
    fn into_dyn_counter(self) -> Box<dyn Counter> {
        match self {
            Self::Plain { counter: __first, .. } => Box::new(__first) as _,
            Self::Doubling(__first, ..) => Box::new(__first) as _
        }
    }
}";

// `COUNTERS_BLOCK`, written out.
impl Counters {
    fn as_dyn_counter(&self) -> &dyn Counter {
        match self {
            Self::Plain { counter: __first, .. } => __first as _,
            Self::Doubling(__first, ..) => __first as _
        }
    }
    fn as_dyn_counter_mut(&mut self) -> &mut dyn Counter {
        match self {
            Self::Plain { counter: __first, .. } => __first as _,
            Self::Doubling(__first, ..) => __first as _
        }
    }
    fn into_dyn_counter(self) -> Box<dyn Counter> {
        match self {
            Self::Plain { counter: __first, .. } => Box::new(__first) as _,
            Self::Doubling(__first, ..) => Box::new(__first) as _
        }
    }
}

/// A write through the mutable handle is what the borrowed handle reads, and
/// what the boxed handle carries away.
#[test]
fn mutation_shows_through_every_projection() {
    let item = "enum Counters {
        Plain { counter: Plain, label: &'static str },
        Doubling(Doubling, u8),
    }";
    let expansion = as_dyn("Counter", item).unwrap();
    assert_eq!(
        tokens_of(&expansion.code()),
        tokens_of(&format!("{item} {COUNTERS_BLOCK}"))
    );

    let mut plain = Counters::Plain {
        counter: Plain(0),
        label: "plain",
    };
    assert_eq!(plain.as_dyn_counter().count(), 0);
    plain.as_dyn_counter_mut().bump();
    assert_eq!(plain.as_dyn_counter().count(), 1);
    plain.as_dyn_counter_mut().bump();
    assert_eq!(plain.as_dyn_counter().count(), 2);
    let mut boxed = plain.into_dyn_counter();
    assert_eq!(boxed.count(), 2);
    boxed.bump();
    assert_eq!(boxed.count(), 3);

    let mut doubling = Counters::Doubling(Doubling(1), 0);
    doubling.as_dyn_counter_mut().bump();
    assert_eq!(doubling.as_dyn_counter().count(), 3);
    assert_eq!(doubling.into_dyn_counter().count(), 3);
}

/// Each projection does what a direct call on the first field does.
#[test]
fn projection_agrees_with_direct_call() {
    let mut direct = B;
    let mut through = E::B(B, C, D);
    assert_eq!(through.as_dyn_t().f(), direct.f());
    assert_eq!(through.as_dyn_t_mut().mut_f(), direct.mut_f());
    assert_eq!(through.into_dyn_t().f(), direct.f());
}
