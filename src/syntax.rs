use crate::transform::{Attr, DeclModel, FnDecl, ReturnShape};
use quote::ToTokens;
use vstd::prelude::*;

verus! {

#[verifier::external_type_specification]
#[verifier::external_body]
pub struct ExTokenStream(proc_macro2::TokenStream);

#[verifier::external_type_specification]
#[verifier::external_body]
pub struct ExItemFn(syn::ItemFn);

/// The function item that a token stream parses to, if it is one.
pub uninterp spec fn parsed_item_fn(item: proc_macro2::TokenStream) -> Option<syn::ItemFn>;

/// The parts of a function item, printed as token text.
pub uninterp spec fn decl_text(f: syn::ItemFn) -> DeclModel;

/// Relies on `syn::parse2::<syn::ItemFn>`: parses the whole stream as one
/// function item, and fails on anything else.
#[verifier::external_body]
pub(crate) fn parse_item_fn(item: proc_macro2::TokenStream) -> (r: Option<syn::ItemFn>)
    ensures
        r == parsed_item_fn(item),
{
    syn::parse2::<syn::ItemFn>(item).ok()
}

/// Relies on `quote::ToTokens::to_token_stream` and the `Display` of
/// `proc_macro2::TokenStream`: prints each part of the item as token text,
/// the signature once with its return type and `where` clause left out (they
/// are printed apart), and the block without its inner attributes (syn keeps
/// them among the item's attributes, marked by their style).
#[verifier::external_body]
pub(crate) fn decl_of(f: &syn::ItemFn) -> (r: FnDecl)
    ensures
        r@ == decl_text(*f),
{
    let mut head = f.sig.clone();
    head.output = syn::ReturnType::Default;
    head.generics.where_clause = None;
    FnDecl {
        attrs: f.attrs.iter().map(|a| Attr { inner: matches!(a.style, syn::AttrStyle::Inner(_)),
            text: a.to_token_stream().to_string() }).collect(),
        vis: f.vis.to_token_stream().to_string(),
        head: head.to_token_stream().to_string(),
        output: match &f.sig.output {
            syn::ReturnType::Default => ReturnShape::Default,
            syn::ReturnType::Type(_, t) => ReturnShape::Type(t.to_token_stream().to_string()),
        },
        where_clause: f.sig.generics.where_clause.to_token_stream().to_string(),
        block: f.block.to_token_stream().to_string(),
    }
}

/// That a token stream is what lexing a text gave. This claims no
/// determinism: spans, and which lexer runs, depend on the process and on the
/// macro call being expanded.
pub uninterp spec fn lexed_from(t: proc_macro2::TokenStream, s: Seq<char>) -> bool;

/// That lexing a text failed.
pub uninterp spec fn lex_failed(s: Seq<char>) -> bool;

/// That a token stream is a build error reporting a message.
pub uninterp spec fn reports_error(t: proc_macro2::TokenStream, msg: Seq<char>) -> bool;

/// Relies on the `FromStr` of `proc_macro2::TokenStream` to lex source text.
#[verifier::external_body]
pub(crate) fn lex(s: &str) -> (r: Option<proc_macro2::TokenStream>)
    ensures
        r matches Some(t) ==> lexed_from(t, s@),
        r is None ==> lex_failed(s@),
{
    s.parse::<proc_macro2::TokenStream>().ok()
}

/// Relies on `syn::Error::new` at the call site and
/// `syn::Error::to_compile_error`: a `compile_error!` invocation that
/// reports the message, built without lexing.
#[verifier::external_body]
pub(crate) fn error_tokens(msg: &str) -> (r: proc_macro2::TokenStream)
    ensures
        reports_error(r, msg@),
{
    syn::Error::new(proc_macro2::Span::call_site(), msg).to_compile_error()
}

} // verus!
