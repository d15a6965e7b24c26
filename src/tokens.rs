//! A plain model of token streams, and the few `proc_macro2` and `unicode_ident`
//! operations the library builds streams with.
use proc_macro2::{Delimiter, Group, Ident, Punct, Spacing, Span, TokenStream, TokenTree};
use vstd::prelude::*;

verus! {

#[verifier::external_type_specification]
#[verifier::external_body]
pub struct ExTokenStream(proc_macro2::TokenStream);

#[verifier::external_type_specification]
#[verifier::external_body]
pub struct ExIdent(proc_macro2::Ident);

/// The delimiter around a group of tokens.
#[derive(PartialEq, Eq, Structural, Clone, Copy, Debug)]
pub enum Delim {
    Paren,
    Brace,
    Bracket,
    Invisible,
}

/// One token tree, as plain values: spans are not part of the model.
pub enum Tok {
    /// An identifier or keyword, by its text.
    Word(Seq<char>),
    /// A punctuation character, and whether it is joined to the next one.
    Mark(char, bool),
    /// A literal, by its source text.
    Lit(Seq<char>),
    /// A delimited group and the trees inside it.
    Group(Delim, Seq<Tok>),
}

/// The token trees a `TokenStream` holds, in order.
pub uninterp spec fn toks(ts: TokenStream) -> Seq<Tok>;

/// The text of an identifier, as its `Display` writes it.
pub uninterp spec fn ident_text(i: Ident) -> Seq<char>;

/// Whether a non-ASCII character has the Unicode property `XID_Start`.
pub uninterp spec fn xid_start(c: char) -> bool;

/// Whether a non-ASCII character has the Unicode property `XID_Continue`.
pub uninterp spec fn xid_continue(c: char) -> bool;

pub open spec fn is_ascii_char(c: char) -> bool {
    (c as u32) < 128
}

pub open spec fn is_ascii_letter(c: char) -> bool {
    ('a' <= c && c <= 'z') || ('A' <= c && c <= 'Z')
}

pub open spec fn is_ascii_digit(c: char) -> bool {
    '0' <= c && c <= '9'
}

/// `XID_Start`, with the ASCII range spelled out.
pub open spec fn start_char(c: char) -> bool {
    if is_ascii_char(c) {
        is_ascii_letter(c)
    } else {
        xid_start(c)
    }
}

/// `XID_Continue`, with the ASCII range spelled out.
pub open spec fn continue_char(c: char) -> bool {
    if is_ascii_char(c) {
        is_ascii_letter(c) || is_ascii_digit(c) || c == '_'
    } else {
        xid_continue(c)
    }
}

/// Whether `s` is text that an identifier token can be made of (keywords included):
/// an underscore or a start character, then continue characters.
pub open spec fn is_ident(s: Seq<char>) -> bool {
    &&& s.len() > 0
    &&& (s[0] == '_' || start_char(s[0]))
    &&& forall|i: int| 1 <= i < s.len() ==> continue_char(#[trigger] s[i])
}

/// Whether every character of `s` is ASCII.
pub open spec fn is_ascii_text(s: Seq<char>) -> bool {
    forall|i: int| 0 <= i < s.len() ==> is_ascii_char(#[trigger] s[i])
}

/// An identifier of ASCII characters only: its text is the same however the
/// compiler normalises identifiers, and every Unicode table agrees on it.
pub open spec fn is_ascii_ident(s: Seq<char>) -> bool {
    is_ident(s) && is_ascii_text(s)
}

/// The punctuation characters a token may hold.
pub open spec fn is_punct_char(c: char) -> bool {
    c == '!' || c == '#' || c == '$' || c == '%' || c == '&' || c == '\'' || c == '*' || c == '+'
        || c == ',' || c == '-' || c == '.' || c == '/' || c == ':' || c == ';' || c == '<'
        || c == '=' || c == '>' || c == '?' || c == '@' || c == '^' || c == '|' || c == '~'
}

/// `TokenStream::new` makes a stream with no trees.
pub assume_specification[ TokenStream::new ]() -> (r: TokenStream)
    ensures
        toks(r) == Seq::<Tok>::empty(),
;

/// `TokenStream::is_empty` tells whether the stream holds no trees.
pub assume_specification[ TokenStream::is_empty ](ts: &TokenStream) -> (r: bool)
    ensures
        r == (toks(*ts).len() == 0),
;

/// A clone of a stream holds the same trees.
pub assume_specification[ <TokenStream as Clone>::clone ](ts: &TokenStream) -> (r: TokenStream)
    ensures
        toks(r) == toks(*ts),
;

/// A clone of an identifier has the same text.
pub assume_specification[ <Ident as Clone>::clone ](i: &Ident) -> (r: Ident)
    ensures
        ident_text(r) == ident_text(*i),
;

/// Relies on `unicode_ident::is_xid_start`: an ASCII character is looked up in a
/// table of the letters, any other one in the Unicode tables.
#[verifier::external_body]
fn xid_start_char(c: char) -> (r: bool)
    ensures
        r == (if is_ascii_char(c) { is_ascii_letter(c) } else { xid_start(c) }),
{
    unicode_ident::is_xid_start(c)
}

/// Relies on `unicode_ident::is_xid_continue`: an ASCII character is looked up in a
/// table of the letters, digits and `_`, any other one in the Unicode tables.
#[verifier::external_body]
fn xid_continue_char(c: char) -> (r: bool)
    ensures
        r == (if is_ascii_char(c) {
            is_ascii_letter(c) || is_ascii_digit(c) || c == '_'
        } else {
            xid_continue(c)
        }),
{
    unicode_ident::is_xid_continue(c)
}

/// Relies on `Extend<TokenStream> for TokenStream`: the trees of `src` are
/// appended, in order, after those of `dst`.
#[verifier::external_body]
pub(crate) fn append(dst: &mut TokenStream, src: TokenStream)
    ensures
        toks(*final(dst)) == toks(*old(dst)) + toks(src),
{
    dst.extend(std::iter::once(src));
}

/// Relies on `Ident::new`. Outside a procedural macro it accepts the text that
/// `is_ident` describes and keeps it; inside one, `proc_macro::Ident::new`
/// checks the text against the compiler's tables and NFC-normalises it. Both
/// accept ASCII identifier text and leave it as it is.
#[verifier::external_body]
pub(crate) fn new_ident(s: &str) -> (r: Ident)
    requires
        is_ascii_ident(s@),
    ensures
        ident_text(r) == s@,
{
    Ident::new(s, Span::call_site())
}

/// Relies on `From<TokenTree> for TokenStream`: a stream of the one identifier.
#[verifier::external_body]
pub(crate) fn ident_stream(i: &Ident) -> (r: TokenStream)
    ensures
        toks(r) == seq![Tok::Word(ident_text(*i))],
{
    TokenStream::from(TokenTree::Ident(i.clone()))
}

/// Relies on `Punct::new`, which accepts the characters of `is_punct_char`,
/// and on `From<TokenTree> for TokenStream`: a stream of the one mark.
#[verifier::external_body]
pub(crate) fn punct_stream(c: char, joint: bool) -> (r: TokenStream)
    requires
        is_punct_char(c),
    ensures
        toks(r) == seq![Tok::Mark(c, joint)],
{
    let spacing = if joint { Spacing::Joint } else { Spacing::Alone };
    TokenStream::from(TokenTree::Punct(Punct::new(c, spacing)))
}

/// Relies on `Group::new` and `From<TokenTree> for TokenStream`: a stream of
/// one group that holds `inner`.
#[verifier::external_body]
pub(crate) fn group_stream(d: Delim, inner: TokenStream) -> (r: TokenStream)
    ensures
        toks(r) == seq![Tok::Group(d, toks(inner))],
{
    let delimiter = match d {
        Delim::Paren => Delimiter::Parenthesis,
        Delim::Brace => Delimiter::Brace,
        Delim::Bracket => Delimiter::Bracket,
        Delim::Invisible => Delimiter::None,
    };
    TokenStream::from(TokenTree::Group(Group::new(delimiter, inner)))
}

/// Whether `s` is text that an identifier can be made of.
pub fn is_valid_ident(s: &str) -> (r: bool)
    ensures
        r == is_ident(s@),
{
    let n = s.unicode_len();
    if n == 0 {
        return false;
    }
    let first = s.get_char(0);
    if !(first == '_' || xid_start_char(first)) {
        return false;
    }
    let mut i: usize = 1;
    while i < n
        invariant
            n == s@.len(),
            1 <= i <= n,
            forall|j: int| 1 <= j < i ==> continue_char(#[trigger] s@[j]),
        decreases n - i,
    {
        if !xid_continue_char(s.get_char(i)) {
            return false;
        }
        i = i + 1;
    }
    true
}

/// Whether `s` is made of ASCII characters only.
pub fn is_ascii_str(s: &str) -> (r: bool)
    ensures
        r == is_ascii_text(s@),
{
    let n = s.unicode_len();
    let mut i: usize = 0;
    while i < n
        invariant
            n == s@.len(),
            i <= n,
            forall|j: int| 0 <= j < i ==> is_ascii_char(#[trigger] s@[j]),
        decreases n - i,
    {
        if (s.get_char(i) as u32) >= 128 {
            return false;
        }
        i = i + 1;
    }
    true
}

/// Whether `s` is ASCII text that an identifier can be made of.
pub fn is_valid_ascii_ident(s: &str) -> (r: bool)
    ensures
        r == is_ascii_ident(s@),
{
    is_ascii_str(s) && is_valid_ident(s)
}

} // verus!
