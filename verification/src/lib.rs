//! Dispatch code for enums whose variants wrap types that share an interface.
//!
//! Given the declaration of an enum, this crate writes the methods that match
//! on the active variant and hand the call on to that variant's first field
//! ([`with_methods`]), and the accessors that expose that first field as a
//! trait object ([`as_dyn`]).
//!
//! The generators work on plain descriptions of the enum ([`decl`]) and of
//! the requests ([`signature`], [`as_dyn::CapabilityPath`]) and give plain
//! descriptions of methods ([`generated`]), which print as source text.
//! Source text is lexed and parsed by `proc-macro2` and `syn`, behind the
//! contracts of [`syntax`]. What the generators do is stated in their
//! contracts and proved; [`laws`] holds what follows for every expansion.

use vstd::prelude::*;

pub mod as_dyn;
pub mod decl;
pub mod expansion;
pub mod generated;
pub mod laws;
pub mod parse;
pub mod signature;
pub mod syntax;
pub mod text;
pub mod with_methods;

use crate::as_dyn::{as_dyn_impl, as_dyn_of};
use crate::expansion::{Expansion, ExpansionView};
use crate::parse::{SyntaxError, SyntaxErrorView};
use crate::with_methods::{with_methods_impl, with_methods_of};

verus! {

/// Generates methods for an enum that match on the enum and call the given
/// function with the variant's first field.
///
/// `args` is a list of function signatures with nothing but white space
/// between them, `input` the declaration of the enum. For
///
/// ```text
/// fn write_all(&mut self, buf: &[u8]) -> std::io::Result<()>
/// pub fn write(&mut self, buf: &[u8]) -> std::io::Result<usize>
/// ```
///
/// on `enum Writer { Cursor(Cursor<Vec<u8>>), File { file: File } }` the
/// expansion holds the enum as it is and the block
///
/// ```text
/// impl Writer {
///     fn write_all(&mut self, buf: &[u8]) -> std::io::Result<()> {
///         match self {
///             Self::Cursor(__first, ..) => <Cursor<Vec<u8>>>::write_all(__first, buf),
///             Self::File { file: __first, .. } => <File>::write_all(__first, buf)
///         }
///     }
///     pub fn write(&mut self, buf: &[u8]) -> std::io::Result<usize> {
///         match self {
///             Self::Cursor(__first, ..) => <Cursor<Vec<u8>>>::write(__first, buf),
///             Self::File { file: __first, .. } => <File>::write(__first, buf)
///         }
///     }
/// }
/// ```
///
/// A signature without a receiver gets `&self`, and its call passes no
/// instance. A variant without a field fails every signature: the expansion
/// then holds a diagnostic for each and no method. Text that does not parse
/// gives a syntax error and no expansion.
pub fn with_methods(args: &str, input: &str) -> (r: Result<Expansion, SyntaxError>)
    ensures
        match r {
            Ok(x) => with_methods_of(args@, input@) == Ok::<ExpansionView, SyntaxErrorView>(x@),
            Err(e) => with_methods_of(args@, input@) == Err::<ExpansionView, SyntaxErrorView>(e@),
        },
{
    with_methods_impl(args, input)
}

/// Generates methods for an enum that match on the enum and return the
/// variant's first field as a trait object.
///
/// `args` is a list of traits with commas between them, `input` the
/// declaration of the enum. The last segment of each trait's path goes into
/// the method names in snake case. For `std::io::Write` on
/// `enum Writer { Cursor(Cursor<Vec<u8>>), File { file: File } }` the
/// expansion holds the enum as it is and the block
///
/// ```text
/// impl Writer {
///     fn as_dyn_write(&self) -> &dyn std::io::Write {
///         match self {
///             Self::Cursor(__first, ..) => __first as _,
///             Self::File { file: __first, .. } => __first as _
///         }
///     }
///     fn as_dyn_write_mut(&mut self) -> &mut dyn std::io::Write {
///         match self {
///             Self::Cursor(__first, ..) => __first as _,
///             Self::File { file: __first, .. } => __first as _
///         }
///     }
///     fn into_dyn_write(self) -> Box<dyn std::io::Write> {
///         match self {
///             Self::Cursor(__first, ..) => Box::new(__first) as _,
///             Self::File { file: __first, .. } => Box::new(__first) as _
///         }
///     }
/// }
/// ```
///
/// A variant without a field fails every trait: the expansion then holds a
/// diagnostic for each and no method. Text that does not parse gives a
/// syntax error and no expansion.
pub fn as_dyn(args: &str, input: &str) -> (r: Result<Expansion, SyntaxError>)
    ensures
        match r {
            Ok(x) => as_dyn_of(args@, input@) == Ok::<ExpansionView, SyntaxErrorView>(x@),
            Err(e) => as_dyn_of(args@, input@) == Err::<ExpansionView, SyntaxErrorView>(e@),
        },
{
    as_dyn_impl(args, input)
}

} // verus!
