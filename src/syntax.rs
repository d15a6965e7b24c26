//! The `syn` operations the library relies on: reading a function item out of
//! tokens, and writing one back.
use crate::tokens::{toks, Delim, Tok};
use proc_macro2::{Span, TokenStream};
use quote::ToTokens;
use syn::{Block, ItemFn};
use vstd::prelude::*;

verus! {

#[verifier::external_type_specification]
#[verifier::external_body]
pub struct ExItemFn(syn::ItemFn);

#[verifier::external_type_specification]
#[verifier::external_body]
pub struct ExSynError(syn::Error);

#[verifier::external_type_specification]
#[verifier::external_body]
pub struct ExParseBuffer<'a>(syn::parse::ParseBuffer<'a>);

/// Whether a sequence of trees is a whole function item to `syn`.
pub uninterp spec fn is_fn_syntax(s: Seq<Tok>) -> bool;

/// Whether a sequence of trees is a whole block (one braced group of statements) to `syn`.
pub uninterp spec fn is_block_syntax(s: Seq<Tok>) -> bool;

/// The trees that `syn` writes for a function's outer attributes, visibility and signature.
pub uninterp spec fn fn_head(f: ItemFn) -> Seq<Tok>;

/// The trees that `syn` writes for a function's inner attributes (`#![...]`).
pub uninterp spec fn fn_inner_attrs(f: ItemFn) -> Seq<Tok>;

/// The trees that `syn` writes for the statements of a function's block.
pub uninterp spec fn block_body(f: ItemFn) -> Seq<Tok>;

/// The trees that `syn` writes for the function item it reads from `s`.
pub uninterp spec fn reprinted_item(s: Seq<Tok>) -> Seq<Tok>;

/// The message of an error, as its `Display` writes it.
pub uninterp spec fn error_message(e: syn::Error) -> Seq<char>;

/// The trees that `syn` writes for the statements of the block it reads from `s`.
pub uninterp spec fn reprinted_block(s: Seq<Tok>) -> Seq<Tok>;

/// The trees of a function's declared return type, if it declares one.
pub uninterp spec fn return_type(f: ItemFn) -> Option<Seq<Tok>>;

/// The trees of a function item: its head, then its block, which holds the
/// inner attributes followed by the statements.
pub open spec fn item_tokens(f: ItemFn) -> Seq<Tok> {
    fn_head(f) + seq![Tok::Group(Delim::Brace, fn_inner_attrs(f) + block_body(f))]
}

/// A clone of a function item is written as the same trees.
pub assume_specification[ <ItemFn as Clone>::clone ](f: &ItemFn) -> (r: ItemFn)
    ensures
        fn_head(r) == fn_head(*f),
        fn_inner_attrs(r) == fn_inner_attrs(*f),
        block_body(r) == block_body(*f),
;

/// Relies on `syn::parse2::<ItemFn>`: it succeeds exactly when the trees form one
/// function item, and the item is the one it reads from them.
#[verifier::external_body]
pub(crate) fn parse_item_fn(ts: TokenStream) -> (r: Result<ItemFn, syn::Error>)
    ensures
        r is Ok <==> is_fn_syntax(toks(ts)),
        r is Ok ==> item_tokens(r->Ok_0) == reprinted_item(toks(ts)),
{
    syn::parse2::<ItemFn>(ts)
}

/// Relies on `ToTokens for ItemFn`: the outer attributes, visibility and
/// signature, then one braced group of the inner attributes and the statements.
#[verifier::external_body]
pub(crate) fn item_stream(f: &ItemFn) -> (r: TokenStream)
    ensures
        toks(r) == fn_head(*f) + seq![Tok::Group(Delim::Brace, fn_inner_attrs(*f) + block_body(*f))],
{
    f.to_token_stream()
}

/// Relies on `ToTokens for Block`: one braced group around the statements.
#[verifier::external_body]
pub(crate) fn block_stream(f: &ItemFn) -> (r: TokenStream)
    ensures
        toks(r) == seq![Tok::Group(Delim::Brace, block_body(*f))],
{
    f.block.to_token_stream()
}

/// Relies on `syn::parse2::<Block>`, which succeeds exactly when the trees form
/// one block; the function keeps its attributes, visibility and signature, and
/// its block becomes the parsed one.
#[verifier::external_body]
pub(crate) fn with_block(f: ItemFn, block: TokenStream) -> (r: Result<ItemFn, syn::Error>)
    ensures
        r is Ok <==> is_block_syntax(toks(block)),
        r is Ok ==> fn_head(r->Ok_0) == fn_head(f),
        r is Ok ==> fn_inner_attrs(r->Ok_0) == fn_inner_attrs(f),
        r is Ok ==> block_body(r->Ok_0) == reprinted_block(toks(block)),
{
    let block: Block = syn::parse2(block)?;
    Ok(ItemFn { block: Box::new(block), ..f })
}

/// Relies on `ParseBuffer::is_empty`: whether no tokens are left.
#[verifier::external_body]
pub(crate) fn input_is_empty(input: syn::parse::ParseStream) -> (r: bool) {
    input.is_empty()
}

/// Relies on `ParseBuffer::parse::<ItemFn>`: reads one function item from the
/// front of the input and leaves the tokens after it.
#[verifier::external_body]
pub(crate) fn parse_item_from(input: syn::parse::ParseStream) -> (r: syn::Result<ItemFn>) {
    input.parse::<ItemFn>()
}

/// Relies on `ToTokens for Type`, on the type of `ReturnType::Type`; `None` for
/// `ReturnType::Default`.
#[verifier::external_body]
pub(crate) fn return_type_stream(f: &ItemFn) -> (r: Option<TokenStream>)
    ensures
        return_type(*f) is None <==> r is None,
        r is Some ==> return_type(*f) == Some(toks(r->0)),
{
    match &f.sig.output {
        syn::ReturnType::Default => None,
        syn::ReturnType::Type(_, t) => Some(t.to_token_stream()),
    }
}

/// Relies on `syn::Error::new`: an error at the call site whose one message is
/// `message`.
#[verifier::external_body]
pub(crate) fn error_at_call_site(message: &str) -> (r: syn::Error)
    ensures
        error_message(r) == message@,
{
    syn::Error::new(Span::call_site(), message)
}

/// Relies on `syn::Error::into_compile_error`: the tokens that report the error
/// to the compiler.
#[verifier::external_body]
pub(crate) fn error_stream(e: syn::Error) -> (r: TokenStream) {
    e.into_compile_error()
}

} // verus!
