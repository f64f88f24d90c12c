//! The service generator of one pass: it gathers the code emitted for every
//! service and prints it when the pass ends.
//!
//! The code for a service comes from the client and server code generators,
//! which are no part of this library. The generator says what to ask of them
//! ([`ServiceGenerator::server_request`], [`ServiceGenerator::client_request`])
//! and takes what they emitted ([`ServiceGenerator::generate`]).

use crate::attributes::{Attributes, AttributesView};
use crate::builder::Builder;
use crate::tokens::{
    empty_stream, extend_stream, format_file, formatted, stream_is_empty, stream_tokens,
    Formatted, Token,
};
use proc_macro2::TokenStream;
use vstd::prelude::*;

verus! {

/// The two kinds of code that are generated for a service.
#[derive(Clone, Copy, PartialEq, Eq, Structural, Debug)]
pub enum Side {
    Client,
    Server,
}

/// The gathered code of one side is no source file.
#[derive(Debug)]
pub struct EmitError {
    /// The side whose code does not parse.
    pub side: Side,
    /// The error of the parser.
    pub cause: syn::Error,
}

/// What a code generator is asked for one service.
#[derive(Debug, PartialEq, Eq)]
pub struct EmissionRequest {
    pub emit_package: bool,
    pub proto_path: String,
    pub compile_well_known_types: bool,
    pub attributes: Attributes,
}

/// An [`EmissionRequest`] as mathematical values.
pub struct EmissionRequestView {
    pub emit_package: bool,
    pub proto_path: Seq<char>,
    pub compile_well_known_types: bool,
    pub attributes: AttributesView,
}

impl View for EmissionRequest {
    type V = EmissionRequestView;

    open spec fn view(&self) -> EmissionRequestView {
        EmissionRequestView {
            emit_package: self.emit_package,
            proto_path: self.proto_path@,
            compile_well_known_types: self.compile_well_known_types,
            attributes: self.attributes@,
        }
    }
}

/// The service generator of one pass.
#[derive(Debug)]
pub struct ServiceGenerator {
    /// The settings of the pass.
    pub builder: Builder,
    /// The client code gathered since the last [`ServiceGenerator::finalize`].
    pub clients: TokenStream,
    /// The server code gathered since the last [`ServiceGenerator::finalize`].
    pub servers: TokenStream,
}

/// The tokens that are taken from the code emitted for one side: those of
/// `code` where the side is enabled, none otherwise.
pub open spec fn spec_accepted(enabled: bool, code: Option<TokenStream>) -> Seq<Token> {
    match code {
        Some(stream) if enabled => stream_tokens(stream),
        _ => Seq::empty(),
    }
}

/// Whether a side has code to print.
pub open spec fn spec_pending(enabled: bool, tokens: Seq<Token>) -> bool {
    enabled && tokens.len() > 0
}

/// What printing one side comes to: the formatted text of its code, or
/// nothing where no code is pending.
pub open spec fn spec_flush(enabled: bool, tokens: Seq<Token>) -> Formatted {
    if spec_pending(enabled, tokens) {
        formatted(tokens)
    } else {
        Formatted::Text(Seq::empty())
    }
}

/// The tokens that a side holds after it was printed.
pub open spec fn spec_flushed(enabled: bool, tokens: Seq<Token>) -> Seq<Token> {
    if spec_pending(enabled, tokens) {
        Seq::empty()
    } else {
        tokens
    }
}

/// Takes the outcome of formatting the code of one side: the text is appended
/// to `buf` and the side is emptied, or the error is handed on and nothing is
/// changed.
pub fn absorb<E>(outcome: Result<String, E>, stream: &mut TokenStream, buf: &mut String) -> (result:
    Result<(), E>)
    ensures
        outcome matches Ok(text) ==> result is Ok && final(buf)@ == old(buf)@ + text@
            && stream_tokens(*final(stream)) == Seq::<Token>::empty(),
        outcome matches Err(error) ==> result == Err::<(), E>(error) && final(buf)@ == old(buf)@
            && *final(stream) == *old(stream),
{
    match outcome {
        Ok(text) => {
            buf.append(text.as_str());
            *stream = empty_stream();
            Ok(())
        },
        Err(error) => Err(error),
    }
}

/// Prints the code of one side, where any is pending.
fn flush(enabled: bool, stream: &mut TokenStream, buf: &mut String) -> (result: Result<
    (),
    syn::Error,
>)
    requires
        spec_flush(enabled, stream_tokens(*old(stream))) !is Declined,
    ensures
        match spec_flush(enabled, stream_tokens(*old(stream))) {
            Formatted::Text(text) => result is Ok && final(buf)@ == old(buf)@ + text
                && stream_tokens(*final(stream)) == spec_flushed(
                enabled,
                stream_tokens(*old(stream)),
            ),
            _ => result is Err && final(buf)@ == old(buf)@ && *final(stream) == *old(stream),
        },
{
    if enabled && !stream_is_empty(stream) {
        let outcome = format_file(stream);
        absorb(outcome, stream, buf)
    } else {
        Ok(())
    }
}

impl ServiceGenerator {
    /// A generator with the settings of `builder` that has gathered no code.
    pub fn new(builder: Builder) -> (generator: Self)
        ensures
            generator.builder == builder,
            stream_tokens(generator.clients) == Seq::<Token>::empty(),
            stream_tokens(generator.servers) == Seq::<Token>::empty(),
    {
        ServiceGenerator { builder, clients: empty_stream(), servers: empty_stream() }
    }

    /// What to ask of the server code generator for a service: nothing where
    /// server generation is disabled.
    pub fn server_request(&self) -> (request: Option<EmissionRequest>)
        ensures
            request is Some <==> self.builder.build_server,
            request matches Some(r) ==> r@ == (EmissionRequestView {
                emit_package: self.builder.emit_package,
                proto_path: self.builder.proto_path@,
                compile_well_known_types: self.builder.compile_well_known_types,
                attributes: self.builder.server_attributes@,
            }),
    {
        if self.builder.build_server {
            Some(
                EmissionRequest {
                    emit_package: self.builder.emit_package,
                    proto_path: self.builder.proto_path.clone(),
                    compile_well_known_types: self.builder.compile_well_known_types,
                    attributes: self.builder.server_attributes.clone(),
                },
            )
        } else {
            None
        }
    }

    /// What to ask of the client code generator for a service: nothing where
    /// client generation is disabled.
    pub fn client_request(&self) -> (request: Option<EmissionRequest>)
        ensures
            request is Some <==> self.builder.build_client,
            request matches Some(r) ==> r@ == (EmissionRequestView {
                emit_package: self.builder.emit_package,
                proto_path: self.builder.proto_path@,
                compile_well_known_types: self.builder.compile_well_known_types,
                attributes: self.builder.client_attributes@,
            }),
    {
        if self.builder.build_client {
            Some(
                EmissionRequest {
                    emit_package: self.builder.emit_package,
                    proto_path: self.builder.proto_path.clone(),
                    compile_well_known_types: self.builder.compile_well_known_types,
                    attributes: self.builder.client_attributes.clone(),
                },
            )
        } else {
            None
        }
    }

    /// Takes the code that was emitted for one service. Server code and client
    /// code are gathered apart, each in the order of the calls. Code for a side
    /// that is disabled is dropped.
    pub fn generate(&mut self, server: Option<TokenStream>, client: Option<TokenStream>)
        ensures
            final(self).builder == old(self).builder,
            stream_tokens(final(self).servers) == stream_tokens(old(self).servers)
                + spec_accepted(old(self).builder.build_server, server),
            stream_tokens(final(self).clients) == stream_tokens(old(self).clients)
                + spec_accepted(old(self).builder.build_client, client),
    {
        if self.builder.build_server {
            if let Some(code) = server {
                extend_stream(&mut self.servers, code);
            }
        }
        if self.builder.build_client {
            if let Some(code) = client {
                extend_stream(&mut self.clients, code);
            }
        }
    }

    /// Whether the printer takes the code that is pending on both sides.
    pub open spec fn printable(&self) -> bool {
        &&& spec_flush(self.builder.build_client, stream_tokens(self.clients)) !is Declined
        &&& spec_flush(self.builder.build_server, stream_tokens(self.servers)) !is Declined
    }

    /// Whether the code of a side, where any is pending, is a source file.
    pub open spec fn parses(&self, side: Side) -> bool {
        match side {
            Side::Client => spec_flush(self.builder.build_client, stream_tokens(self.clients))
                is Text,
            Side::Server => spec_flush(self.builder.build_server, stream_tokens(self.servers))
                is Text,
        }
    }

    /// The text that printing a side appends: nothing where no code is pending.
    pub open spec fn text(&self, side: Side) -> Seq<char> {
        match side {
            Side::Client => spec_flush(
                self.builder.build_client,
                stream_tokens(self.clients),
            )->Text_0,
            Side::Server => spec_flush(
                self.builder.build_server,
                stream_tokens(self.servers),
            )->Text_0,
        }
    }

    /// Ends a file: the gathered client code, then the gathered server code, is
    /// parsed as a source file, printed in canonical form and appended to
    /// `buf`. A side that was printed is emptied. A side that is disabled or
    /// holds no code is passed over.
    ///
    /// Code that is no source file is an error, and ends the call: what was
    /// appended before stays, and the side that failed keeps its code.
    pub fn finalize(&mut self, buf: &mut String) -> (result: Result<(), EmitError>)
        requires
            old(self).printable(),
        ensures
            final(self).builder == old(self).builder,
            result is Ok <==> old(self).parses(Side::Client) && old(self).parses(Side::Server),
            result matches Err(error) ==> error.side == (if old(self).parses(Side::Client) {
                Side::Server
            } else {
                Side::Client
            }),
            final(buf)@ == old(buf)@ + (if old(self).parses(Side::Client) {
                old(self).text(Side::Client)
            } else {
                Seq::empty()
            }) + (if result is Ok {
                old(self).text(Side::Server)
            } else {
                Seq::empty()
            }),
            stream_tokens(final(self).clients) == (if old(self).parses(Side::Client) {
                spec_flushed(old(self).builder.build_client, stream_tokens(old(self).clients))
            } else {
                stream_tokens(old(self).clients)
            }),
            stream_tokens(final(self).servers) == (if result is Ok {
                spec_flushed(old(self).builder.build_server, stream_tokens(old(self).servers))
            } else {
                stream_tokens(old(self).servers)
            }),
    {
        match flush(self.builder.build_client, &mut self.clients, buf) {
            Err(cause) => {
                return Err(EmitError { side: Side::Client, cause });
            },
            Ok(()) => {},
        }
        match flush(self.builder.build_server, &mut self.servers, buf) {
            Err(cause) => Err(EmitError { side: Side::Server, cause }),
            Ok(()) => Ok(()),
        }
    }
}

impl Builder {
    /// Turns the builder into the service generator of a pass.
    pub fn service_generator(self) -> (generator: ServiceGenerator)
        ensures
            generator.builder == self,
            stream_tokens(generator.clients) == Seq::<Token>::empty(),
            stream_tokens(generator.servers) == Seq::<Token>::empty(),
    {
        ServiceGenerator::new(self)
    }
}

} // verus!
