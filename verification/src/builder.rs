//! The builder: every setting of code generation, gathered before a compile.

use crate::attributes::{Attributes, AttributesView};
use crate::string_set::StringSet;
use crate::text::{
    copy_opt_text, copy_opt_texts, copy_pairs, copy_texts, opt_text, opt_texts, owned_texts,
    slice_texts, text_pairs, texts,
};
use vstd::prelude::*;

verus! {

/// Service generator builder.
///
/// Lists of paths and attributes grow with every call of their setter. The
/// lists of `btree_map` and `bytes` are replaced as a whole by every call.
#[derive(Debug)]
pub struct Builder {
    pub build_client: bool,
    pub build_server: bool,
    pub build_transport: bool,
    pub file_descriptor_set_path: Option<String>,
    pub skip_protoc_run: bool,
    pub out_dir: Option<String>,
    pub extern_path: Vec<(String, String)>,
    pub field_attributes: Vec<(String, String)>,
    pub type_attributes: Vec<(String, String)>,
    pub message_attributes: Vec<(String, String)>,
    pub enum_attributes: Vec<(String, String)>,
    pub boxed: Vec<String>,
    pub btree_map: Option<Vec<String>>,
    pub bytes: Option<Vec<String>>,
    pub server_attributes: Attributes,
    pub client_attributes: Attributes,
    pub proto_path: String,
    pub emit_package: bool,
    pub compile_well_known_types: bool,
    pub protoc_args: Vec<String>,
    pub include_file: Option<String>,
    pub emit_rerun_if_changed: bool,
    pub disable_comments: StringSet,
    pub use_arc_self: bool,
    pub generate_default_stubs: bool,
}

/// The settings that a [`Builder`] holds, as mathematical values.
pub struct Settings {
    pub build_client: bool,
    pub build_server: bool,
    pub build_transport: bool,
    pub file_descriptor_set_path: Option<Seq<char>>,
    pub skip_protoc_run: bool,
    pub out_dir: Option<Seq<char>>,
    pub extern_path: Seq<(Seq<char>, Seq<char>)>,
    pub field_attributes: Seq<(Seq<char>, Seq<char>)>,
    pub type_attributes: Seq<(Seq<char>, Seq<char>)>,
    pub message_attributes: Seq<(Seq<char>, Seq<char>)>,
    pub enum_attributes: Seq<(Seq<char>, Seq<char>)>,
    pub boxed: Seq<Seq<char>>,
    pub btree_map: Option<Seq<Seq<char>>>,
    pub bytes: Option<Seq<Seq<char>>>,
    pub server_attributes: AttributesView,
    pub client_attributes: AttributesView,
    pub proto_path: Seq<char>,
    pub emit_package: bool,
    pub compile_well_known_types: bool,
    pub protoc_args: Seq<Seq<char>>,
    pub include_file: Option<Seq<char>>,
    pub emit_rerun_if_changed: bool,
    pub disable_comments: Set<Seq<char>>,
    pub use_arc_self: bool,
    pub generate_default_stubs: bool,
}

impl View for Builder {
    type V = Settings;

    open spec fn view(&self) -> Settings {
        Settings {
            build_client: self.build_client,
            build_server: self.build_server,
            build_transport: self.build_transport,
            file_descriptor_set_path: opt_text(self.file_descriptor_set_path),
            skip_protoc_run: self.skip_protoc_run,
            out_dir: opt_text(self.out_dir),
            extern_path: text_pairs(self.extern_path@),
            field_attributes: text_pairs(self.field_attributes@),
            type_attributes: text_pairs(self.type_attributes@),
            message_attributes: text_pairs(self.message_attributes@),
            enum_attributes: text_pairs(self.enum_attributes@),
            boxed: texts(self.boxed@),
            btree_map: opt_texts(self.btree_map),
            bytes: opt_texts(self.bytes),
            server_attributes: self.server_attributes@,
            client_attributes: self.client_attributes@,
            proto_path: self.proto_path@,
            emit_package: self.emit_package,
            compile_well_known_types: self.compile_well_known_types,
            protoc_args: texts(self.protoc_args@),
            include_file: opt_text(self.include_file),
            emit_rerun_if_changed: self.emit_rerun_if_changed,
            disable_comments: self.disable_comments@,
            use_arc_self: self.use_arc_self,
            generate_default_stubs: self.generate_default_stubs,
        }
    }
}

/// The settings of a builder that nothing was set on yet.
///
/// `in_cargo` tells whether the build runs under Cargo; instructions for
/// Cargo to watch the inputs are emitted by default when it does.
pub open spec fn default_settings(in_cargo: bool) -> Settings {
    Settings {
        build_client: true,
        build_server: true,
        build_transport: true,
        file_descriptor_set_path: None,
        skip_protoc_run: false,
        out_dir: None,
        extern_path: Seq::empty(),
        field_attributes: Seq::empty(),
        type_attributes: Seq::empty(),
        message_attributes: Seq::empty(),
        enum_attributes: Seq::empty(),
        boxed: Seq::empty(),
        btree_map: None,
        bytes: None,
        server_attributes: AttributesView { module: Seq::empty(), structure: Seq::empty() },
        client_attributes: AttributesView { module: Seq::empty(), structure: Seq::empty() },
        proto_path: "super"@,
        emit_package: true,
        compile_well_known_types: false,
        protoc_args: Seq::empty(),
        include_file: None,
        emit_rerun_if_changed: in_cargo,
        disable_comments: Set::empty(),
        use_arc_self: false,
        generate_default_stubs: false,
    }
}

/// Configure code generation.
///
/// `in_cargo` tells whether the build runs under Cargo, which sets the
/// `CARGO` variable for build scripts.
pub fn configure(in_cargo: bool) -> (builder: Builder)
    ensures
        builder@ == default_settings(in_cargo),
{
    let builder = Builder {
        build_client: true,
        build_server: true,
        build_transport: true,
        file_descriptor_set_path: None,
        skip_protoc_run: false,
        out_dir: None,
        extern_path: Vec::new(),
        field_attributes: Vec::new(),
        message_attributes: Vec::new(),
        enum_attributes: Vec::new(),
        type_attributes: Vec::new(),
        boxed: Vec::new(),
        btree_map: None,
        bytes: None,
        server_attributes: Attributes::default(),
        client_attributes: Attributes::default(),
        proto_path: "super".to_owned(),
        compile_well_known_types: false,
        emit_package: true,
        protoc_args: Vec::new(),
        include_file: None,
        emit_rerun_if_changed: in_cargo,
        disable_comments: StringSet::new(),
        use_arc_self: false,
        generate_default_stubs: false,
    };
    assert(builder@.enum_attributes =~= Seq::empty());
    assert(builder@.protoc_args =~= Seq::empty());
    builder
}

impl Clone for Builder {
    fn clone(&self) -> (copy: Self)
        ensures
            copy@ == self@,
    {
        Builder {
            build_client: self.build_client,
            build_server: self.build_server,
            build_transport: self.build_transport,
            file_descriptor_set_path: copy_opt_text(&self.file_descriptor_set_path),
            skip_protoc_run: self.skip_protoc_run,
            out_dir: copy_opt_text(&self.out_dir),
            extern_path: copy_pairs(&self.extern_path),
            field_attributes: copy_pairs(&self.field_attributes),
            type_attributes: copy_pairs(&self.type_attributes),
            message_attributes: copy_pairs(&self.message_attributes),
            enum_attributes: copy_pairs(&self.enum_attributes),
            boxed: copy_texts(&self.boxed),
            btree_map: copy_opt_texts(&self.btree_map),
            bytes: copy_opt_texts(&self.bytes),
            server_attributes: self.server_attributes.clone(),
            client_attributes: self.client_attributes.clone(),
            proto_path: self.proto_path.clone(),
            emit_package: self.emit_package,
            compile_well_known_types: self.compile_well_known_types,
            protoc_args: copy_texts(&self.protoc_args),
            include_file: copy_opt_text(&self.include_file),
            emit_rerun_if_changed: self.emit_rerun_if_changed,
            disable_comments: self.disable_comments.clone(),
            use_arc_self: self.use_arc_self,
            generate_default_stubs: self.generate_default_stubs,
        }
    }
}

impl Builder {
    /// Enable or disable gRPC client code generation.
    pub fn build_client(self, enable: bool) -> (builder: Self)
        ensures
            builder@ == (Settings { build_client: enable, ..self@ }),
    {
        let mut builder = self;
        builder.build_client = enable;
        builder
    }

    /// Enable or disable gRPC server code generation.
    pub fn build_server(self, enable: bool) -> (builder: Self)
        ensures
            builder@ == (Settings { build_server: enable, ..self@ }),
    {
        let mut builder = self;
        builder.build_server = enable;
        builder
    }

    /// Enable or disable generated clients and servers to have built-in transport
    /// features.
    pub fn build_transport(self, enable: bool) -> (builder: Self)
        ensures
            builder@ == (Settings { build_transport: enable, ..self@ }),
    {
        let mut builder = self;
        builder.build_transport = enable;
        builder
    }

    /// Generate a file containing the encoded file descriptor set of the modules.
    /// This is required for implementing gRPC server reflection.
    pub fn file_descriptor_set_path(self, path: &str) -> (builder: Self)
        ensures
            builder@ == (Settings { file_descriptor_set_path: Some(path@), ..self@ }),
    {
        let mut builder = self;
        builder.file_descriptor_set_path = Some(path.to_owned());
        builder
    }

    /// Together with `file_descriptor_set_path`: take the file descriptor set
    /// from that file instead of running `protoc`.
    pub fn skip_protoc_run(self) -> (builder: Self)
        ensures
            builder@ == (Settings { skip_protoc_run: true, ..self@ }),
    {
        let mut builder = self;
        builder.skip_protoc_run = true;
        builder
    }

    /// Set the output directory to generate code to. Without it the directory
    /// that the build environment names is used.
    pub fn out_dir(self, out_dir: &str) -> (builder: Self)
        ensures
            builder@ == (Settings { out_dir: Some(out_dir@), ..self@ }),
    {
        let mut builder = self;
        builder.out_dir = Some(out_dir.to_owned());
        builder
    }

    /// Declare an externally provided Protobuf package or type. Both paths are
    /// fully qualified: the Protobuf path starts with `.`, the Rust path with
    /// `::`.
    pub fn extern_path(self, proto_path: &str, rust_path: &str) -> (builder: Self)
        ensures
            builder@ == (Settings {
                extern_path: self@.extern_path.push((proto_path@, rust_path@)),
                ..self@
            }),
    {
        let mut builder = self;
        builder.extern_path.push((proto_path.to_owned(), rust_path.to_owned()));
        assert(builder@.extern_path =~= self@.extern_path.push((proto_path@, rust_path@)));
        builder
    }

    /// Add an attribute to the fields that match `path`.
    pub fn field_attribute(self, path: &str, attribute: &str) -> (builder: Self)
        ensures
            builder@ == (Settings {
                field_attributes: self@.field_attributes.push((path@, attribute@)),
                ..self@
            }),
    {
        let mut builder = self;
        builder.field_attributes.push((path.to_owned(), attribute.to_owned()));
        assert(builder@.field_attributes =~= self@.field_attributes.push((path@, attribute@)));
        builder
    }

    /// Add an attribute to the messages, enums and one-ofs that match `path`.
    pub fn type_attribute(self, path: &str, attribute: &str) -> (builder: Self)
        ensures
            builder@ == (Settings {
                type_attributes: self@.type_attributes.push((path@, attribute@)),
                ..self@
            }),
    {
        let mut builder = self;
        builder.type_attributes.push((path.to_owned(), attribute.to_owned()));
        assert(builder@.type_attributes =~= self@.type_attributes.push((path@, attribute@)));
        builder
    }

    /// Add an attribute to the messages that match `path`.
    pub fn message_attribute(self, path: &str, attribute: &str) -> (builder: Self)
        ensures
            builder@ == (Settings {
                message_attributes: self@.message_attributes.push((path@, attribute@)),
                ..self@
            }),
    {
        let mut builder = self;
        builder.message_attributes.push((path.to_owned(), attribute.to_owned()));
        assert(builder@.message_attributes =~= self@.message_attributes.push((path@, attribute@)));
        builder
    }

    /// Add an attribute to the enums that match `path`.
    pub fn enum_attribute(self, path: &str, attribute: &str) -> (builder: Self)
        ensures
            builder@ == (Settings {
                enum_attributes: self@.enum_attributes.push((path@, attribute@)),
                ..self@
            }),
    {
        let mut builder = self;
        builder.enum_attributes.push((path.to_owned(), attribute.to_owned()));
        assert(builder@.enum_attributes =~= self@.enum_attributes.push((path@, attribute@)));
        builder
    }

    /// Add a field that is to be boxed.
    pub fn boxed(self, path: &str) -> (builder: Self)
        ensures
            builder@ == (Settings { boxed: self@.boxed.push(path@), ..self@ }),
    {
        let mut builder = self;
        builder.boxed.push(path.to_owned());
        assert(builder@.boxed =~= self@.boxed.push(path@));
        builder
    }

    /// Generate `BTreeMap` fields for the Protobuf `map` fields that match one
    /// of `paths`. Paths given by an earlier call are dropped.
    pub fn btree_map(self, paths: &[&str]) -> (builder: Self)
        ensures
            builder@ == (Settings { btree_map: Some(slice_texts(paths@)), ..self@ }),
    {
        let mut builder = self;
        builder.btree_map = Some(owned_texts(paths));
        builder
    }

    /// Generate `bytes::Bytes` fields for the Protobuf `bytes` fields that
    /// match one of `paths`. Paths given by an earlier call are dropped.
    pub fn bytes(self, paths: &[&str]) -> (builder: Self)
        ensures
            builder@ == (Settings { bytes: Some(slice_texts(paths@)), ..self@ }),
    {
        let mut builder = self;
        builder.bytes = Some(owned_texts(paths));
        builder
    }

    /// Add an attribute to the server `mod`s that match `path`. Matches on the
    /// package name.
    pub fn server_mod_attribute(self, path: &str, attribute: &str) -> (builder: Self)
        ensures
            builder@ == (Settings {
                server_attributes: AttributesView {
                    module: self@.server_attributes.module.push((path@, attribute@)),
                    ..self@.server_attributes
                },
                ..self@
            }),
    {
        let mut builder = self;
        builder.server_attributes.push_mod(path.to_owned(), attribute.to_owned());
        builder
    }

    /// Add an attribute to the service servers that match `path`. Matches on
    /// the service name.
    pub fn server_attribute(self, path: &str, attribute: &str) -> (builder: Self)
        ensures
            builder@ == (Settings {
                server_attributes: AttributesView {
                    structure: self@.server_attributes.structure.push((path@, attribute@)),
                    ..self@.server_attributes
                },
                ..self@
            }),
    {
        let mut builder = self;
        builder.server_attributes.push_struct(path.to_owned(), attribute.to_owned());
        builder
    }

    /// Add an attribute to the client `mod`s that match `path`. Matches on the
    /// package name.
    pub fn client_mod_attribute(self, path: &str, attribute: &str) -> (builder: Self)
        ensures
            builder@ == (Settings {
                client_attributes: AttributesView {
                    module: self@.client_attributes.module.push((path@, attribute@)),
                    ..self@.client_attributes
                },
                ..self@
            }),
    {
        let mut builder = self;
        builder.client_attributes.push_mod(path.to_owned(), attribute.to_owned());
        builder
    }

    /// Add an attribute to the service clients that match `path`. Matches on
    /// the service name.
    pub fn client_attribute(self, path: &str, attribute: &str) -> (builder: Self)
        ensures
            builder@ == (Settings {
                client_attributes: AttributesView {
                    structure: self@.client_attributes.structure.push((path@, attribute@)),
                    ..self@.client_attributes
                },
                ..self@
            }),
    {
        let mut builder = self;
        builder.client_attributes.push_struct(path.to_owned(), attribute.to_owned());
        builder
    }

    /// Set the path under which the request and response types are looked for,
    /// relative to the module that includes the generated code. This is `super`
    /// by default, since the code is generated into a module of its own.
    pub fn proto_path(self, proto_path: &str) -> (builder: Self)
        ensures
            builder@ == (Settings { proto_path: proto_path@, ..self@ }),
    {
        let mut builder = self;
        builder.proto_path = proto_path.to_owned();
        builder
    }

    /// Add an argument for `protoc`.
    pub fn protoc_arg(self, arg: &str) -> (builder: Self)
        ensures
            builder@ == (Settings { protoc_args: self@.protoc_args.push(arg@), ..self@ }),
    {
        let mut builder = self;
        builder.protoc_args.push(arg.to_owned());
        assert(builder@.protoc_args =~= self@.protoc_args.push(arg@));
        builder
    }

    /// Disable the emission of comments for the services and methods that
    /// match `path`.
    pub fn disable_comments(self, path: &str) -> (builder: Self)
        ensures
            builder@ == (Settings {
                disable_comments: self@.disable_comments.insert(path@),
                ..self@
            }),
    {
        let mut builder = self;
        let (disable_comments, _) = builder.disable_comments.insert(path.to_owned());
        builder.disable_comments = disable_comments;
        builder
    }

    /// Emit `Arc<Self>` as the receiver type in server traits instead of `&self`.
    pub fn use_arc_self(self, enable: bool) -> (builder: Self)
        ensures
            builder@ == (Settings { use_arc_self: enable, ..self@ }),
    {
        let mut builder = self;
        builder.use_arc_self = enable;
        builder
    }

    /// Emit gRPC endpoints with no attached package: the package declaration of
    /// the proto file is ignored.
    pub fn disable_package_emission(self) -> (builder: Self)
        ensures
            builder@ == (Settings { emit_package: false, ..self@ }),
    {
        let mut builder = self;
        builder.emit_package = false;
        builder
    }

    /// Enable or disable compiling the well-known Protobuf types instead of
    /// using the versions that are compiled already. This is off by default.
    pub fn compile_well_known_types(self, compile_well_known_types: bool) -> (builder: Self)
        ensures
            builder@ == (Settings { compile_well_known_types: compile_well_known_types, ..self@ }),
    {
        let mut builder = self;
        builder.compile_well_known_types = compile_well_known_types;
        builder
    }

    /// Name a file that is generated to include all generated files, as a set of
    /// `pub mod` items.
    pub fn include_file(self, path: &str) -> (builder: Self)
        ensures
            builder@ == (Settings { include_file: Some(path@), ..self@ }),
    {
        let mut builder = self;
        builder.include_file = Some(path.to_owned());
        builder
    }

    /// Enable or disable emitting `cargo:rerun-if-changed=PATH` instructions for
    /// Cargo, which tell it when to run the build script again.
    pub fn emit_rerun_if_changed(self, enable: bool) -> (builder: Self)
        ensures
            builder@ == (Settings { emit_rerun_if_changed: enable, ..self@ }),
    {
        let mut builder = self;
        builder.emit_rerun_if_changed = enable;
        builder
    }

    /// Enable or disable a default implementation for every service method,
    /// which answers that the method is unimplemented. Without it every method
    /// has to be implemented.
    pub fn generate_default_stubs(self, enable: bool) -> (builder: Self)
        ensures
            builder@ == (Settings { generate_default_stubs: enable, ..self@ }),
    {
        let mut builder = self;
        builder.generate_default_stubs = enable;
        builder
    }

}

} // verus!
