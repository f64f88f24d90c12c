//! Resolution of a method's request or response type into a type reference.
//!
//! A type named in the IDL may live in the generated module itself, in an
//! outside crate, or in the library of well-known types that is compiled
//! ahead of time. Which reference is right depends on the settings of the
//! pass, so a name is resolved again on every pass.

use crate::text::{join3, same_text, starts_with};
use crate::tokens::{lex, lexed, parse_path, path_tokens, stream_tokens, Token};
use proc_macro2::TokenStream;
use vstd::prelude::*;

verus! {

/// The rule by which a type name is turned into a reference.
#[derive(Clone, Copy, PartialEq, Eq, Structural, Debug)]
pub enum ResolutionRule {
    /// The name is taken as it stands and read as plain tokens.
    Verbatim,
    /// The name starts at the crate root and is read as a path as it stands.
    CrateRooted,
    /// The name is read as a path below the configured prefix.
    Prefixed,
}

/// Why a type name could not be resolved.
#[derive(Debug)]
pub enum ResolveError {
    /// A name taken verbatim is not a sequence of tokens.
    Lex(proc_macro2::LexError),
    /// A name read as a path is not a path.
    Path(syn::Error),
}

/// Whether an IDL type name belongs to the well-known types.
pub open spec fn spec_is_google_type(ty: Seq<char>) -> bool {
    ".google.protobuf"@.is_prefix_of(ty)
}

/// The type names that are no paths and are still allowed as request and
/// response types.
pub open spec fn non_path_type_allowlist() -> Seq<Seq<char>> {
    seq!["()"@]
}

/// Whether a type name stands in [`non_path_type_allowlist`].
pub open spec fn spec_is_non_path_type(rust_type: Seq<char>) -> bool {
    non_path_type_allowlist().contains(rust_type)
}

/// The rule that applies to a type: the first that matches, in the order of
/// [`ResolutionRule`].
pub open spec fn spec_resolution_rule(
    proto_type: Seq<char>,
    rust_type: Seq<char>,
    compile_well_known_types: bool,
) -> ResolutionRule {
    if (spec_is_google_type(proto_type) && !compile_well_known_types) || "::"@.is_prefix_of(
        rust_type,
    ) || spec_is_non_path_type(rust_type) {
        ResolutionRule::Verbatim
    } else if "crate::"@.is_prefix_of(rust_type) {
        ResolutionRule::CrateRooted
    } else {
        ResolutionRule::Prefixed
    }
}

/// The text that is handed to the parser: the type name, with the prefix and
/// a path separator before it where the rule is [`ResolutionRule::Prefixed`].
pub open spec fn spec_reference_text(
    proto_type: Seq<char>,
    rust_type: Seq<char>,
    compile_well_known_types: bool,
    proto_path: Seq<char>,
) -> Seq<char> {
    match spec_resolution_rule(proto_type, rust_type, compile_well_known_types) {
        ResolutionRule::Prefixed => proto_path + "::"@ + rust_type,
        _ => rust_type,
    }
}

/// The tokens of the resolved reference, or `None` where the text does not
/// parse.
pub open spec fn spec_resolve(
    proto_type: Seq<char>,
    rust_type: Seq<char>,
    compile_well_known_types: bool,
    proto_path: Seq<char>,
) -> Option<Seq<Token>> {
    let text = spec_reference_text(proto_type, rust_type, compile_well_known_types, proto_path);
    match spec_resolution_rule(proto_type, rust_type, compile_well_known_types) {
        ResolutionRule::Verbatim => lexed(text),
        _ => path_tokens(text),
    }
}

/// Whether `result` is the outcome of resolving a type: the tokens of the
/// reference where the text parses, else the error of the parser that the
/// rule chose.
pub open spec fn spec_resolves_to(
    proto_type: Seq<char>,
    rust_type: Seq<char>,
    compile_well_known_types: bool,
    proto_path: Seq<char>,
    result: Result<TokenStream, ResolveError>,
) -> bool {
    match result {
        Ok(stream) => Some(stream_tokens(stream)) == spec_resolve(
            proto_type,
            rust_type,
            compile_well_known_types,
            proto_path,
        ),
        Err(error) => spec_resolve(proto_type, rust_type, compile_well_known_types, proto_path)
            is None && (error is Lex <==> spec_resolution_rule(
            proto_type,
            rust_type,
            compile_well_known_types,
        ) == ResolutionRule::Verbatim),
    }
}

/// Whether an IDL type name belongs to the well-known types.
pub fn is_google_type(ty: &str) -> (google: bool)
    ensures
        google == spec_is_google_type(ty@),
{
    starts_with(ty, ".google.protobuf")
}

/// Whether a type name is one of the allowed names that are no paths.
pub fn is_non_path_type(rust_type: &str) -> (allowed: bool)
    ensures
        allowed == spec_is_non_path_type(rust_type@),
{
    let allowed = same_text(rust_type, "()");
    assert(non_path_type_allowlist()[0] == "()"@);
    allowed
}

/// The rule that applies to a type.
pub fn resolution_rule(proto_type: &str, rust_type: &str, compile_well_known_types: bool) -> (rule:
    ResolutionRule)
    ensures
        rule == spec_resolution_rule(proto_type@, rust_type@, compile_well_known_types),
{
    if (is_google_type(proto_type) && !compile_well_known_types) || starts_with(rust_type, "::")
        || is_non_path_type(rust_type) {
        ResolutionRule::Verbatim
    } else if starts_with(rust_type, "crate::") {
        ResolutionRule::CrateRooted
    } else {
        ResolutionRule::Prefixed
    }
}

/// The text that is handed to the parser for a type.
pub fn reference_text(
    proto_type: &str,
    rust_type: &str,
    compile_well_known_types: bool,
    proto_path: &str,
) -> (text: String)
    ensures
        text@ == spec_reference_text(
            proto_type@,
            rust_type@,
            compile_well_known_types,
            proto_path@,
        ),
{
    match resolution_rule(proto_type, rust_type, compile_well_known_types) {
        ResolutionRule::Prefixed => join3(proto_path, "::", rust_type),
        _ => rust_type.to_owned(),
    }
}

/// Resolves a type to the tokens of its reference.
///
/// `proto_type` is the name of the type in the IDL, `rust_type` its name in
/// the generated code. The name resolves where its text parses; the error
/// tells which of the two parsers refused it.
pub fn resolve(
    proto_type: &str,
    rust_type: &str,
    compile_well_known_types: bool,
    proto_path: &str,
) -> (result: Result<TokenStream, ResolveError>)
    ensures
        spec_resolves_to(proto_type@, rust_type@, compile_well_known_types, proto_path@, result),
{
    let rule = resolution_rule(proto_type, rust_type, compile_well_known_types);
    let text = reference_text(proto_type, rust_type, compile_well_known_types, proto_path);
    match rule {
        ResolutionRule::Verbatim => match lex(text.as_str()) {
            Ok(stream) => Ok(stream),
            Err(error) => Err(ResolveError::Lex(error)),
        },
        _ => match parse_path(text.as_str()) {
            Ok(stream) => Ok(stream),
            Err(error) => Err(ResolveError::Path(error)),
        },
    }
}

/// Resolution depends on its four arguments and on nothing else: two calls
/// on the same arguments resolve or fail together, to the same tokens or with
/// the error of the same parser.
pub proof fn law_resolution_is_deterministic(
    proto_type: Seq<char>,
    rust_type: Seq<char>,
    compile_well_known_types: bool,
    proto_path: Seq<char>,
    first: Result<TokenStream, ResolveError>,
    second: Result<TokenStream, ResolveError>,
)
    requires
        spec_resolves_to(proto_type, rust_type, compile_well_known_types, proto_path, first),
        spec_resolves_to(proto_type, rust_type, compile_well_known_types, proto_path, second),
    ensures
        first is Ok <==> second is Ok,
        first is Ok ==> stream_tokens(first->Ok_0) == stream_tokens(second->Ok_0),
        first is Err ==> (first->Err_0 is Lex <==> second->Err_0 is Lex),
{
}

/// A well-known type resolves without the prefix while well-known types are
/// not compiled. While they are compiled it resolves as any other type of
/// the same name does.
pub proof fn law_well_known_types(
    proto_type: Seq<char>,
    other_proto_type: Seq<char>,
    rust_type: Seq<char>,
    compile_well_known_types: bool,
    proto_path: Seq<char>,
)
    requires
        spec_is_google_type(proto_type),
        !spec_is_google_type(other_proto_type),
    ensures
        spec_reference_text(proto_type, rust_type, false, proto_path) == rust_type,
        spec_resolve(proto_type, rust_type, false, proto_path) == lexed(rust_type),
        spec_resolve(proto_type, rust_type, true, proto_path) == spec_resolve(
            other_proto_type,
            rust_type,
            compile_well_known_types,
            proto_path,
        ),
{
}

/// A type on the allow-list of names that are no paths resolves without the
/// prefix, whatever the IDL type, the flag and the prefix are.
pub proof fn law_non_path_types(
    proto_type: Seq<char>,
    rust_type: Seq<char>,
    compile_well_known_types: bool,
    proto_path: Seq<char>,
)
    requires
        spec_is_non_path_type(rust_type),
    ensures
        spec_resolution_rule(proto_type, rust_type, compile_well_known_types)
            == ResolutionRule::Verbatim,
        spec_reference_text(proto_type, rust_type, compile_well_known_types, proto_path)
            == rust_type,
        spec_resolve(proto_type, rust_type, compile_well_known_types, proto_path) == lexed(
            rust_type,
        ),
{
}

} // verus!
