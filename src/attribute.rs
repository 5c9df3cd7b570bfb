use crate::syntax::{
    decl_of, decl_text, error_tokens, lex, lex_failed, lexed_from, parse_item_fn, parsed_item_fn,
    reports_error,
};
use crate::transform::{expand_decl, expansion};
use vstd::string::*;
use vstd::prelude::*;

verus! {

/// The source text that replaces a marked item, as a function of its tokens.
pub open spec fn expanded_text(item: proc_macro2::TokenStream) -> Seq<char> {
    expansion(
        match parsed_item_fn(item) {
            Some(f) => Some(decl_text(f)),
            None => None,
        },
    )
}

/// The source text that the `pipefail` attribute puts in place of a marked
/// item: the rewritten function, or a build error where the item is not a
/// function.
pub fn expansion_source(item: proc_macro2::TokenStream) -> (r: String)
    ensures
        r@ == expanded_text(item),
{
    let parsed = match parse_item_fn(item) {
        Some(f) => Some(decl_of(&f)),
        None => None,
    };
    expand_decl(parsed)
}

/// What the `pipefail` attribute reports where the rewritten text does not
/// lex back into tokens.
pub open spec fn unreadable_text() -> Seq<char> {
    "pipefail could not read back the rewritten function"@
}

pub fn unreadable() -> (r: String)
    ensures
        r@ == unreadable_text(),
{
    String::from_str("pipefail could not read back the rewritten function")
}

/// The `pipefail` attribute: the tokens lexed from `expansion_source(item)`.
/// The marked function's broken-pipe failures become success, every other
/// failure is returned unchanged, and any success payload is dropped. The
/// generated code calls `::calm_io::suppress_broken_pipe`, so the crate that
/// uses it depends on this library under that name.
///
/// The attribute takes no arguments; any given are ignored. An item that is
/// not a function becomes a build error saying so. Should the rewritten text
/// not lex, the result is a build error saying that instead. All tokens get
/// the span of the call.
pub fn pipefail(_attrs: proc_macro2::TokenStream, item: proc_macro2::TokenStream) -> (r:
    proc_macro2::TokenStream)
    ensures
        lexed_from(r, expanded_text(item)) || (lex_failed(expanded_text(item)) && reports_error(
            r,
            unreadable_text(),
        )),
{
    let text = expansion_source(item);
    match lex(text.as_str()) {
        Some(t) => t,
        None => error_tokens(unreadable().as_str()),
    }
}

} // verus!
