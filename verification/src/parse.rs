//! The trusted boundary to the grammar-aware collaborators: syn's
//! function-definition parser and proc_macro2's token printer. Everything the
//! rest of the crate knows about them is stated here, over plain string views.

use vstd::prelude::*;
use quote::ToTokens;

verus! {

/// Error produced when an annotated item does not parse as a function
/// definition. The message identifies the offending tokens, so that the host
/// toolchain can surface it as a compile-time diagnostic.
#[derive(Debug, Clone)]
pub struct ParseError {
    pub message: String,
}

/// The parts of a parsed function definition that the rewriter reads, each as
/// the parser's canonical reprint: the bare name, the generic parameter list
/// (empty when there is none), the parameter list without its parentheses, and
/// the full definition (attributes, signature and body).
#[derive(Debug, Clone)]
pub struct FnDef {
    pub name: String,
    pub generics: String,
    pub params: String,
    pub reprint: String,
}

/// The mathematical image of a `FnDef`.
pub struct FnModel {
    pub name: Seq<char>,
    pub generics: Seq<char>,
    pub params: Seq<char>,
    pub reprint: Seq<char>,
}

impl View for FnDef {
    type V = FnModel;

    open spec fn view(&self) -> FnModel {
        FnModel {
            name: self.name@,
            generics: self.generics@,
            params: self.params@,
            reprint: self.reprint@,
        }
    }
}

/// What the parser decides for a given source text: either the model of the
/// function definition it accepted, or the diagnostic message it rejected the
/// text with.
pub enum FnParse {
    Accepted { def: FnModel },
    Rejected { message: Seq<char> },
}

/// The outcome of parsing a source text as a function definition, with the
/// accepted definition's parts given as their canonical reprints.
///
/// This names the result of `syn::parse_str::<syn::ItemFn>` together with the
/// reprinting of the parsed item by proc_macro2's token printer, as computed
/// by proc_macro2's bundled fallback implementation, which the calling wrapper
/// forces for the duration of its calls. Lexing and printing are then done by
/// code built into this artifact, never delegated to a host compiler, so the
/// outcome is a function of the input text alone; no fact about its value on
/// any given text is assumed anywhere in this crate.
pub uninterp spec fn parse_of(src: Seq<char>) -> FnParse;

/// Relies on `syn::parse_str::<syn::ItemFn>` to decide whether `src` is a
/// function definition, and on the `quote::ToTokens` impls of the parsed
/// item's parts (printed through `proc_macro2::TokenStream`'s `Display`) for
/// the canonical reprints. The body holds proc_macro2 to its bundled fallback
/// implementation around the calls (`proc_macro2::fallback::force`; `unforce`
/// re-detects the host afterwards), so that parsing and printing never
/// delegate to a host compiler's lexer or printer and read nothing but `src`.
#[verifier::external_body]
pub(crate) fn parse_function(src: &str) -> (r: Result<FnDef, ParseError>)
    ensures
        (r is Ok) == (parse_of(src@) is Accepted),
        r matches Ok(def) ==> def@ == parse_of(src@)->def,
        r matches Err(e) ==> e.message@ == parse_of(src@)->message,
{
    proc_macro2::fallback::force();
    let r = match syn::parse_str::<syn::ItemFn>(src) {
        Ok(item) => Ok(FnDef {
            name: item.sig.ident.to_string(),
            generics: item.sig.generics.to_token_stream().to_string(),
            params: item.sig.inputs.to_token_stream().to_string(),
            reprint: item.to_token_stream().to_string(),
        }),
        Err(e) => Err(ParseError { message: e.to_string() }),
    };
    proc_macro2::fallback::unforce();
    r
}

/// The printed form of a string literal whose value is `s`: `s` between double
/// quotes, with the characters that need it escaped. The escaping is the one
/// done by proc_macro2's bundled fallback implementation, which the calling
/// wrapper forces for the duration of its call, so the form is a function of
/// `s` alone; no fact about its value on any given text is assumed in this
/// crate.
pub uninterp spec fn literal_of(s: Seq<char>) -> Seq<char>;

/// Relies on `proc_macro2::Literal::string`, which builds a string literal
/// token holding exactly `s` and prints it. The body holds proc_macro2 to its
/// bundled fallback implementation around the call (`proc_macro2::fallback::
/// force`; `unforce` re-detects the host afterwards), so that the literal is
/// built and printed by code built into this artifact, from `s` alone.
#[verifier::external_body]
pub(crate) fn make_literal(s: &str) -> (r: String)
    ensures
        r@ == literal_of(s@),
{
    proc_macro2::fallback::force();
    let r = proc_macro2::Literal::string(s).to_string();
    proc_macro2::fallback::unforce();
    r
}

} // verus!
