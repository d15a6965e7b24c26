//! The function wrapper: a parsed function, the code to run before and after
//! its body, and the rendering of the wrapped function.
use crate::syntax::{
    block_body, block_stream, error_at_call_site, error_stream, fn_head, fn_inner_attrs,
    error_message, is_block_syntax, is_fn_syntax, item_stream, item_tokens, reprinted_block,
    reprinted_item, return_type,
    return_type_stream, input_is_empty, parse_item_fn, parse_item_from, with_block,
};
use crate::tokens::{
    append, group_stream, ident_stream, ident_text, is_ascii_ident, is_valid_ascii_ident, new_ident,
    punct_stream, toks, Delim, Tok,
};
use proc_macro2::{Ident, TokenStream};
use syn::ItemFn;
use vstd::prelude::*;

verus! {

/// Why a function could not be read or wrapped.
#[derive(Debug)]
pub enum WrapError {
    /// There were no tokens to read a function from.
    EmptyInput,
    /// The tokens are not a function item; `syn`'s diagnostic says why.
    MalformedFunction(syn::Error),
    /// The assembled body is not a block; `syn`'s diagnostic says why.
    RenderFailure(syn::Error),
}

/// Whether a function declares its return type.
#[derive(Debug)]
pub enum ReturnDescriptor {
    /// No return type is written: the function returns `()`.
    NoReturn,
    /// The declared return type.
    ExplicitType(TokenStream),
}

/// A function that can have code inserted before and after its original body.
///
/// The identifiers name the closure that holds the original body (`wrapper` by
/// default) and the variable that holds its value (`result` by default); they
/// are only used when there is code to run after the body.
#[derive(Clone, Debug)]
pub struct WrappedFn {
    /// The function as it was read: attributes, signature and body.
    pub function: ItemFn,
    /// Code that runs before the rest of the function.
    pub pre_code: Option<TokenStream>,
    /// Code that runs after the rest of the function.
    pub post_code: Option<TokenStream>,
    /// The closure that wraps the original body.
    pub wrapper_ident: Ident,
    /// The variable that holds the value of the original body.
    pub result_ident: Ident,
}

pub open spec fn kw_let() -> Seq<char> {
    seq!['l', 'e', 't']
}

pub open spec fn kw_mut() -> Seq<char> {
    seq!['m', 'u', 't']
}

/// The trees of an optional fragment; an absent one has none.
pub open spec fn fragment(o: Option<TokenStream>) -> Option<Seq<Tok>> {
    match o {
        Some(ts) => Some(toks(ts)),
        None => None,
    }
}

pub open spec fn or_empty(o: Option<Seq<Tok>>) -> Seq<Tok> {
    match o {
        Some(s) => s,
        None => Seq::empty(),
    }
}

/// `let mut w = || block ;`
pub open spec fn closure_stmt(w: Seq<char>, block: Seq<Tok>) -> Seq<Tok> {
    seq![
        Tok::Word(kw_let()),
        Tok::Word(kw_mut()),
        Tok::Word(w),
        Tok::Mark('=', false),
        Tok::Mark('|', true),
        Tok::Mark('|', false),
    ] + block + seq![Tok::Mark(';', false)]
}

/// `let r = w () ;`
pub open spec fn capture_stmt(w: Seq<char>, r: Seq<char>) -> Seq<Tok> {
    seq![
        Tok::Word(kw_let()),
        Tok::Word(r),
        Tok::Mark('=', false),
        Tok::Word(w),
        Tok::Group(Delim::Paren, Seq::empty()),
        Tok::Mark(';', false),
    ]
}

/// The statements of the new body, where `block` is the original block (one
/// braced group) and at least one fragment is present.
///
/// With code after the body, the original block becomes the body of a closure
/// whose value is captured, then the post code runs and the captured value is
/// the body's final expression. With code before it only, the original block
/// follows that code unchanged.
pub open spec fn wrapped_body(
    pre: Option<Seq<Tok>>,
    post: Option<Seq<Tok>>,
    block: Seq<Tok>,
    w: Seq<char>,
    r: Seq<char>,
) -> Seq<Tok> {
    match post {
        None => or_empty(pre) + block,
        Some(q) => or_empty(pre) + closure_stmt(w, block) + capture_stmt(w, r) + q + seq![
            Tok::Word(r),
        ],
    }
}

/// One word token.
fn word_stream(s: &str) -> (r: TokenStream)
    requires
        is_ascii_ident(s@),
    ensures
        toks(r) == seq![Tok::Word(s@)],
{
    ident_stream(&new_ident(s))
}

/// `let mut w = || block ; let r = w () ;`
fn closure_and_capture(w: &Ident, r: &Ident, block: TokenStream) -> (ts: TokenStream)
    ensures
        toks(ts) == closure_stmt(ident_text(*w), toks(block)) + capture_stmt(
            ident_text(*w),
            ident_text(*r),
        ),
{
    proof {
        reveal_strlit("let");
        reveal_strlit("mut");
        assert("let"@ =~= kw_let());
        assert("mut"@ =~= kw_mut());
    }
    let mut ts = word_stream("let");
    append(&mut ts, word_stream("mut"));
    append(&mut ts, ident_stream(w));
    append(&mut ts, punct_stream('=', false));
    append(&mut ts, punct_stream('|', true));
    append(&mut ts, punct_stream('|', false));
    append(&mut ts, block);
    append(&mut ts, punct_stream(';', false));
    append(&mut ts, word_stream("let"));
    append(&mut ts, ident_stream(r));
    append(&mut ts, punct_stream('=', false));
    append(&mut ts, ident_stream(w));
    append(&mut ts, group_stream(Delim::Paren, TokenStream::new()));
    append(&mut ts, punct_stream(';', false));
    proof {
        assert(toks(ts) =~= closure_stmt(ident_text(*w), toks(block)) + capture_stmt(
            ident_text(*w),
            ident_text(*r),
        ));
    }
    ts
}

/// The new block: a braced group around `wrapped_body`.
fn assemble_block(
    pre: Option<TokenStream>,
    post: Option<TokenStream>,
    block: TokenStream,
    w: &Ident,
    r: &Ident,
) -> (ts: TokenStream)
    ensures
        toks(ts) == seq![
            Tok::Group(
                Delim::Brace,
                wrapped_body(fragment(pre), fragment(post), toks(block), ident_text(*w), ident_text(*r)),
            ),
        ],
{
    let ghost pre_toks = or_empty(fragment(pre));
    let mut body = match pre {
        Some(p) => p,
        None => TokenStream::new(),
    };
    assert(toks(body) == pre_toks);
    match post {
        None => {
            append(&mut body, block);
        },
        Some(q) => {
            append(&mut body, closure_and_capture(w, r, block));
            append(&mut body, q);
            append(&mut body, ident_stream(r));
            assert(toks(body) =~= wrapped_body(fragment(pre), fragment(post), toks(block), ident_text(*w), ident_text(*r)));
        },
    }
    group_stream(Delim::Brace, body)
}

impl WrappedFn {
    /// The original block, as one braced group.
    pub open spec fn original_block(&self) -> Seq<Tok> {
        seq![Tok::Group(Delim::Brace, block_body(self.function))]
    }

    /// The statements of the new block.
    pub open spec fn new_body(&self) -> Seq<Tok> {
        wrapped_body(
            fragment(self.pre_code),
            fragment(self.post_code),
            self.original_block(),
            ident_text(self.wrapper_ident),
            ident_text(self.result_ident),
        )
    }

    /// The block the function gets when at least one fragment is present.
    pub open spec fn new_block(&self) -> Seq<Tok> {
        seq![Tok::Group(Delim::Brace, self.new_body())]
    }

    /// Whether the function declares a return type, and which.
    pub fn return_descriptor(&self) -> (r: ReturnDescriptor)
        ensures
            return_type(self.function) is None <==> r is NoReturn,
            r is ExplicitType ==> return_type(self.function) == Some(toks(r->ExplicitType_0)),
    {
        match return_type_stream(&self.function) {
            Some(t) => ReturnDescriptor::ExplicitType(t),
            None => ReturnDescriptor::NoReturn,
        }
    }

    /// Reads a function item from tokens, with no code to insert yet and the
    /// identifiers `wrapper` and `result`. The function held is the one `syn`
    /// reads from the tokens, so equal inputs give functions written as the same trees.
    pub fn parse_tokens(ts: TokenStream) -> (r: Result<WrappedFn, WrapError>)
        ensures
            toks(ts).len() == 0 ==> r is Err && r->Err_0 is EmptyInput,
            toks(ts).len() > 0 ==> (r is Ok <==> is_fn_syntax(toks(ts))),
            toks(ts).len() > 0 && r is Err ==> r->Err_0 is MalformedFunction,
            r is Ok ==> {
                let w = r->Ok_0;
                &&& item_tokens(w.function) == reprinted_item(toks(ts))
                &&& w.pre_code is None
                &&& w.post_code is None
                &&& ident_text(w.wrapper_ident) == seq!['w', 'r', 'a', 'p', 'p', 'e', 'r']
                &&& ident_text(w.result_ident) == seq!['r', 'e', 's', 'u', 'l', 't']
            },
    {
        if ts.is_empty() {
            return Err(WrapError::EmptyInput);
        }
        match parse_item_fn(ts) {
            Ok(function) => Ok(WrappedFn::with_defaults(function)),
            Err(e) => Err(WrapError::MalformedFunction(e)),
        }
    }

    /// A function with no code to insert yet and the identifiers `wrapper` and `result`.
    fn with_defaults(function: ItemFn) -> (w: WrappedFn)
        ensures
            w.function == function,
            w.pre_code is None,
            w.post_code is None,
            ident_text(w.wrapper_ident) == seq!['w', 'r', 'a', 'p', 'p', 'e', 'r'],
            ident_text(w.result_ident) == seq!['r', 'e', 's', 'u', 'l', 't'],
    {
        proof {
            reveal_strlit("wrapper");
            reveal_strlit("result");
            assert("wrapper"@ =~= seq!['w', 'r', 'a', 'p', 'p', 'e', 'r']);
            assert("result"@ =~= seq!['r', 'e', 's', 'u', 'l', 't']);
        }
        WrappedFn {
            function,
            pre_code: None,
            post_code: None,
            wrapper_ident: new_ident("wrapper"),
            result_ident: new_ident("result"),
        }
    }

    /// The wrapped function. With no code to insert it is the function as it was
    /// read. Otherwise it keeps its attributes, visibility and signature, and its
    /// block becomes `new_block` after the inner attributes, as `syn` reads and
    /// writes it back; this fails only where `new_block` is not a block.
    pub fn render(self) -> (r: Result<TokenStream, WrapError>)
        ensures
            self.pre_code is None && self.post_code is None ==> r is Ok && toks(r->Ok_0)
                == item_tokens(self.function),
            self.pre_code is Some || self.post_code is Some ==> (r is Ok <==> is_block_syntax(
                self.new_block(),
            )),
            (self.pre_code is Some || self.post_code is Some) && r is Ok ==> toks(r->Ok_0) == fn_head(
                self.function,
            ) + seq![
                Tok::Group(
                    Delim::Brace,
                    fn_inner_attrs(self.function) + reprinted_block(self.new_block()),
                ),
            ],
            r is Err ==> r->Err_0 is RenderFailure,
    {
        if self.pre_code.is_none() && self.post_code.is_none() {
            return Ok(item_stream(&self.function));
        }
        let block = block_stream(&self.function);
        let body = assemble_block(
            self.pre_code,
            self.post_code,
            block,
            &self.wrapper_ident,
            &self.result_ident,
        );
        match with_block(self.function, body) {
            Ok(f) => Ok(item_stream(&f)),
            Err(e) => Err(WrapError::RenderFailure(e)),
        }
    }

    /// Sets the code that runs before the rest of the function.
    pub fn set_pre_code(&mut self, pre_code: TokenStream)
        ensures
            final(self).pre_code == Some(pre_code),
            final(self).post_code == old(self).post_code,
            final(self).function == old(self).function,
            final(self).wrapper_ident == old(self).wrapper_ident,
            final(self).result_ident == old(self).result_ident,
    {
        self.pre_code = Some(pre_code);
    }

    /// Sets the code that runs after the rest of the function.
    pub fn set_post_code(&mut self, post_code: TokenStream)
        ensures
            final(self).post_code == Some(post_code),
            final(self).pre_code == old(self).pre_code,
            final(self).function == old(self).function,
            final(self).wrapper_ident == old(self).wrapper_ident,
            final(self).result_ident == old(self).result_ident,
    {
        self.post_code = Some(post_code);
    }

    /// Removes any code that was to run before the rest of the function.
    pub fn remove_pre_code(&mut self)
        ensures
            final(self).pre_code is None,
            final(self).post_code == old(self).post_code,
            final(self).function == old(self).function,
            final(self).wrapper_ident == old(self).wrapper_ident,
            final(self).result_ident == old(self).result_ident,
    {
        self.pre_code = None;
    }

    /// Removes any code that was to run after the rest of the function.
    pub fn remove_post_code(&mut self)
        ensures
            final(self).post_code is None,
            final(self).pre_code == old(self).pre_code,
            final(self).function == old(self).function,
            final(self).wrapper_ident == old(self).wrapper_ident,
            final(self).result_ident == old(self).result_ident,
    {
        self.post_code = None;
    }

    /// Changes the identifier of the closure that wraps the original body to
    /// `ident`, which must be ASCII identifier text.
    pub fn set_wrapper_ident(&mut self, ident: &str)
        requires
            is_ascii_ident(ident@),
        ensures
            ident_text(final(self).wrapper_ident) == ident@,
            final(self).pre_code == old(self).pre_code,
            final(self).post_code == old(self).post_code,
            final(self).function == old(self).function,
            final(self).result_ident == old(self).result_ident,
    {
        self.wrapper_ident = new_ident(ident);
    }

    /// Changes the identifier of the variable that holds the body's value to
    /// `ident`, which must be ASCII identifier text.
    pub fn set_result_ident(&mut self, ident: &str)
        requires
            is_ascii_ident(ident@),
        ensures
            ident_text(final(self).result_ident) == ident@,
            final(self).pre_code == old(self).pre_code,
            final(self).post_code == old(self).post_code,
            final(self).function == old(self).function,
            final(self).wrapper_ident == old(self).wrapper_ident,
    {
        self.result_ident = new_ident(ident);
    }

    /// Changes the closure's identifier where `ident` is ASCII text that can be
    /// one; says whether it did.
    pub fn try_set_wrapper_ident(&mut self, ident: &str) -> (r: bool)
        ensures
            r == is_ascii_ident(ident@),
            r ==> ident_text(final(self).wrapper_ident) == ident@,
            !r ==> *final(self) == *old(self),
            final(self).pre_code == old(self).pre_code,
            final(self).post_code == old(self).post_code,
            final(self).function == old(self).function,
            final(self).result_ident == old(self).result_ident,
    {
        if is_valid_ascii_ident(ident) {
            self.set_wrapper_ident(ident);
            true
        } else {
            false
        }
    }

    /// Changes the result variable's identifier where `ident` is ASCII text that
    /// can be one; says whether it did.
    pub fn try_set_result_ident(&mut self, ident: &str) -> (r: bool)
        ensures
            r == is_ascii_ident(ident@),
            r ==> ident_text(final(self).result_ident) == ident@,
            !r ==> *final(self) == *old(self),
            final(self).pre_code == old(self).pre_code,
            final(self).post_code == old(self).post_code,
            final(self).function == old(self).function,
            final(self).wrapper_ident == old(self).wrapper_ident,
    {
        if is_valid_ascii_ident(ident) {
            self.set_result_ident(ident);
            true
        } else {
            false
        }
    }
}

/// The message of the error for an empty input.
pub const EXPECTED_FUNCTION: &'static str = "expected function";

impl WrapError {
    /// The error as a `syn` diagnostic: the one `syn` gave, or for an empty
    /// input one that says a function was expected.
    pub fn into_syn_error(self) -> (r: syn::Error)
        ensures
            self is EmptyInput ==> error_message(r) == EXPECTED_FUNCTION@,
            self matches WrapError::MalformedFunction(e) ==> r == e,
            self matches WrapError::RenderFailure(e) ==> r == e,
    {
        match self {
            WrapError::EmptyInput => {
                proof {
                    reveal_strlit("expected function");
                }
                error_at_call_site(EXPECTED_FUNCTION)
            },
            WrapError::MalformedFunction(e) => e,
            WrapError::RenderFailure(e) => e,
        }
    }
}

/// Reads one function item from the front of a `syn` parse stream, with no
/// code to insert yet and the identifiers `wrapper` and `result`; the tokens
/// after it are left for the caller. An empty stream is an `EmptyInput` error.
impl syn::parse::Parse for WrappedFn {
    fn parse(input: syn::parse::ParseStream) -> (r: syn::Result<Self>)
        ensures
            r is Ok ==> {
                let w = r->Ok_0;
                &&& w.pre_code is None
                &&& w.post_code is None
                &&& ident_text(w.wrapper_ident) == seq!['w', 'r', 'a', 'p', 'p', 'e', 'r']
                &&& ident_text(w.result_ident) == seq!['r', 'e', 's', 'u', 'l', 't']
            },
    {
        if input_is_empty(input) {
            return Err(WrapError::EmptyInput.into_syn_error());
        }
        match parse_item_from(input) {
            Ok(function) => Ok(WrappedFn::with_defaults(function)),
            Err(e) => Err(e),
        }
    }
}

/// The wrapped function's tokens, as `render` makes them, or the tokens that
/// report why its new block is not a block.
impl From<WrappedFn> for TokenStream {
    fn from(function: WrappedFn) -> (r: TokenStream)
        ensures
            function.pre_code is None && function.post_code is None ==> toks(r) == item_tokens(
                function.function,
            ),
            (function.pre_code is Some || function.post_code is Some) && is_block_syntax(
                function.new_block(),
            ) ==> toks(r) == fn_head(function.function) + seq![
                Tok::Group(
                    Delim::Brace,
                    fn_inner_attrs(function.function) + reprinted_block(function.new_block()),
                ),
            ],
    {
        match function.render() {
            Ok(ts) => ts,
            Err(e) => error_stream(e.into_syn_error()),
        }
    }
}

/// What `from` returns is stated by `render`, not here.
impl vstd::std_specs::convert::FromSpecImpl<WrappedFn> for TokenStream {
    open spec fn obeys_from_spec() -> bool {
        false
    }

    open spec fn from_spec(v: WrappedFn) -> TokenStream {
        arbitrary()
    }
}

} // verus!
