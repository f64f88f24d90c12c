//! Build-time generation of gRPC service code for two transports at once.
//!
//! From one set of proto files and one [`Builder`] a compile generates the
//! same services twice: for the simulated transport, written below `sim` in
//! the output directory, and for the production transport, written to the
//! output directory itself. The two differ in the transport and in nothing
//! else.
//!
//! The library holds the rules of a compile and proves them:
//!
//! - [`resolve`] turns the request and response types of a method into type
//!   references ([`resolve`](mod@resolve));
//! - [`TonicBuildService`] lets code generation read a service without
//!   knowing the IDL compiler ([`service`]);
//! - [`Builder`] gathers the settings ([`builder`]), from which the
//!   configuration of each pass and the calls that bring it about are derived
//!   ([`config`], [`production`]);
//! - [`ServiceGenerator`] gathers the generated code of a pass and prints it
//!   ([`generator`]);
//! - [`Compilation`] orders the steps of a compile and stops at the first
//!   failure ([`compile`]).
//!
//! The library reads no file and runs no program. The caller carries out the
//! steps that a [`Compilation`] names.

pub mod attributes;
pub mod builder;
pub mod compile;
pub mod config;
pub mod generator;
pub mod production;
pub mod resolve;
pub mod service;
pub mod string_set;
pub mod text;
pub mod tokens;

pub use attributes::Attributes;
pub use builder::{configure, Builder};
pub use compile::{compile_protos, Action, Compilation, CompileError, Stage};
pub use config::{ConfigCall, GenerationConfig, Transport};
pub use generator::{EmissionRequest, EmitError, ServiceGenerator, Side};
pub use production::BuilderCall;
pub use resolve::{is_google_type, resolve, ResolutionRule, ResolveError};
pub use service::{
    Method, MethodDescription, Service, ServiceDescription, TonicBuildMethod, TonicBuildService,
};
