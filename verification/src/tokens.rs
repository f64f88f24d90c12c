//! Token streams and the parsers that read and print them.
//!
//! Lexing, parsing and pretty-printing are done by `proc_macro2`, `syn`,
//! `quote` and `prettyplease`. Nothing in this module is proved: each function
//! below calls one of them, and its contract is taken on trust from their
//! sources. What a call returns is given a name where it depends on the
//! arguments alone; the names have no definition here.

use proc_macro2::TokenStream;
use vstd::prelude::*;

verus! {

/// How a group of tokens is bracketed.
pub enum Delimiter {
    Parenthesis,
    Brace,
    Bracket,
    Invisible,
}

/// One token tree of Rust source as a token stream holds it, without its
/// position in the source.
pub enum Token {
    Group { delimiter: Delimiter, stream: Seq<Token> },
    Ident { name: Seq<char> },
    Punct { ch: char, joint: bool },
    Literal { text: Seq<char> },
}

/// What formatting a token stream as a source file comes to.
pub enum Formatted {
    /// The tokens are a file, and this is its formatted text.
    Text(Seq<char>),
    /// The tokens do not parse as a file.
    NotAFile,
    /// The tokens are a file that the printer does not print: it panics.
    Declined,
}

#[verifier::external_type_specification]
#[verifier::external_body]
pub struct ExTokenStream(proc_macro2::TokenStream);

#[verifier::external_type_specification]
#[verifier::external_body]
pub struct ExLexError(proc_macro2::LexError);

#[verifier::external_type_specification]
#[verifier::external_body]
pub struct ExSynError(syn::Error);

/// The token trees that a stream holds, in order.
pub uninterp spec fn stream_tokens(stream: TokenStream) -> Seq<Token>;

/// The token trees that `proc_macro2` lexes `text` into, or `None` where it
/// reports a lexical error.
pub uninterp spec fn lexed(text: Seq<char>) -> Option<Seq<Token>>;

/// The token trees of the path that `syn` parses `text` into, or `None`
/// where `text` is not a path.
pub uninterp spec fn path_tokens(text: Seq<char>) -> Option<Seq<Token>>;

/// What `syn` and `prettyplease` make of a stream holding `tokens` when it is
/// read as a whole source file and printed again.
pub uninterp spec fn formatted(tokens: Seq<Token>) -> Formatted;

/// `<TokenStream as FromStr>::from_str`: lexes `text`. Outside a procedural
/// macro the lexer reports every failure as an error value.
#[verifier::external_body]
pub(crate) fn lex(text: &str) -> (result: Result<TokenStream, proc_macro2::LexError>)
    ensures
        result is Ok <==> lexed(text@) is Some,
        result matches Ok(stream) ==> Some(stream_tokens(stream)) == lexed(text@),
{
    text.parse::<TokenStream>()
}

/// `syn::parse_str::<syn::Path>`, then `ToTokens::to_token_stream` on the
/// path: reads `text` as a path and hands back the path's own tokens.
#[verifier::external_body]
pub(crate) fn parse_path(text: &str) -> (result: Result<TokenStream, syn::Error>)
    ensures
        result is Ok <==> path_tokens(text@) is Some,
        result matches Ok(stream) ==> Some(stream_tokens(stream)) == path_tokens(text@),
{
    match syn::parse_str::<syn::Path>(text) {
        Ok(path) => Ok(quote::ToTokens::to_token_stream(&path)),
        Err(error) => Err(error),
    }
}

/// `TokenStream::new`: a stream that holds no token.
#[verifier::external_body]
pub(crate) fn empty_stream() -> (stream: TokenStream)
    ensures
        stream_tokens(stream) == Seq::<Token>::empty(),
{
    TokenStream::new()
}

/// `TokenStream::is_empty`: whether the stream holds no token.
#[verifier::external_body]
pub(crate) fn stream_is_empty(stream: &TokenStream) -> (empty: bool)
    ensures
        empty == (stream_tokens(*stream).len() == 0),
{
    stream.is_empty()
}

/// `<TokenStream as Extend<TokenTree>>::extend`: appends the token trees of
/// `more` to `stream`, in order.
#[verifier::external_body]
pub(crate) fn extend_stream(stream: &mut TokenStream, more: TokenStream)
    ensures
        stream_tokens(*final(stream)) == stream_tokens(*old(stream)) + stream_tokens(more),
{
    stream.extend(more);
}

/// `syn::parse2::<syn::File>` on a copy of the stream, then
/// `prettyplease::unparse` on the file: the formatted source text, or the
/// parser's error. The printer panics on syntax it does not know, which the
/// precondition leaves out.
#[verifier::external_body]
pub(crate) fn format_file(stream: &TokenStream) -> (result: Result<String, syn::Error>)
    requires
        formatted(stream_tokens(*stream)) !is Declined,
    ensures
        result matches Ok(text) ==> formatted(stream_tokens(*stream)) == Formatted::Text(text@),
        result is Err ==> formatted(stream_tokens(*stream)) is NotAFile,
{
    match syn::parse2::<syn::File>(stream.clone()) {
        Ok(file) => Ok(prettyplease::unparse(&file)),
        Err(error) => Err(error),
    }
}

} // verus!
