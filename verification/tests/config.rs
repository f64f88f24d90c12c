use madsim_tonic_build::config::{
    copy_config_calls, derive_config, pair_call, subdir, text_call, PairSetter, TextSetter,
};
use madsim_tonic_build::production::{attribute_call, AttributeSetter};
use madsim_tonic_build::{configure, Builder, BuilderCall, ConfigCall, Transport};

fn s(text: &str) -> String {
    text.to_string()
}

fn strings(items: &[&str]) -> Vec<String> {
    items.iter().map(|s| s.to_string()).collect()
}

fn full_builder() -> Builder {
    configure(true)
        .file_descriptor_set_path("fds.bin")
        .skip_protoc_run()
        .out_dir("out")
        .extern_path(".a.B", "::a::B")
        .extern_path(".c.D", "::c::D")
        .field_attribute("f", "#[f]")
        .type_attribute("t", "#[t]")
        .message_attribute("m", "#[m]")
        .enum_attribute("e", "#[e]")
        .boxed(".x.Y.z")
        .boxed(".x.Y.w")
        .btree_map(&[".", ".m"])
        .bytes(&[".b"])
        .compile_well_known_types(true)
        .include_file("mod.rs")
        .protoc_arg("--one")
        .protoc_arg("--two")
        .server_mod_attribute("pkg", "#[sm]")
        .server_attribute("Svc", "#[s]")
        .client_mod_attribute("pkg", "#[cm]")
        .client_attribute("Svc", "#[c]")
        .proto_path("crate::pb")
        .disable_comments("pkg.Svc")
        .disable_comments("pkg.Svc.Method")
        .use_arc_self(true)
        .disable_package_emission()
        .generate_default_stubs(true)
}

#[test]
fn simulated_code_goes_below_sim() {
    assert_eq!(subdir(Transport::Simulated), Some(s("sim")));
    assert_eq!(subdir(Transport::Production), None);
}

#[test]
fn both_passes_have_the_settings_of_the_builder() {
    let builder = full_builder();
    let simulated = derive_config(&builder, "target/out", Transport::Simulated);
    let production = derive_config(&builder, "target/out", Transport::Production);
    assert_eq!(simulated.transport, Transport::Simulated);
    assert_eq!(production.transport, Transport::Production);
    assert_eq!(simulated.out_root, "target/out");
    assert_eq!(production.out_root, "target/out");
    for settings in [&simulated.settings, &production.settings] {
        assert_eq!(settings.build_client, builder.build_client);
        assert_eq!(settings.build_server, builder.build_server);
        assert_eq!(settings.build_transport, builder.build_transport);
        assert_eq!(settings.file_descriptor_set_path, builder.file_descriptor_set_path);
        assert_eq!(settings.skip_protoc_run, builder.skip_protoc_run);
        assert_eq!(settings.out_dir, builder.out_dir);
        assert_eq!(settings.extern_path, builder.extern_path);
        assert_eq!(settings.field_attributes, builder.field_attributes);
        assert_eq!(settings.type_attributes, builder.type_attributes);
        assert_eq!(settings.message_attributes, builder.message_attributes);
        assert_eq!(settings.enum_attributes, builder.enum_attributes);
        assert_eq!(settings.boxed, builder.boxed);
        assert_eq!(settings.btree_map, builder.btree_map);
        assert_eq!(settings.bytes, builder.bytes);
        assert_eq!(settings.server_attributes, builder.server_attributes);
        assert_eq!(settings.client_attributes, builder.client_attributes);
        assert_eq!(settings.proto_path, builder.proto_path);
        assert_eq!(settings.emit_package, builder.emit_package);
        assert_eq!(settings.compile_well_known_types, builder.compile_well_known_types);
        assert_eq!(settings.protoc_args, builder.protoc_args);
        assert_eq!(settings.include_file, builder.include_file);
        assert_eq!(settings.emit_rerun_if_changed, builder.emit_rerun_if_changed);
        assert_eq!(settings.disable_comments.to_vec(), builder.disable_comments.to_vec());
        assert_eq!(settings.use_arc_self, builder.use_arc_self);
        assert_eq!(settings.generate_default_stubs, builder.generate_default_stubs);
    }
}

#[test]
fn default_settings_need_no_call() {
    assert_eq!(configure(false).settings_calls(), Vec::new());
    assert_eq!(configure(true).settings_calls(), Vec::new());
}

#[test]
fn settings_calls_come_in_the_order_of_the_setters() {
    assert_eq!(
        full_builder().settings_calls(),
        vec![
            ConfigCall::FileDescriptorSetPath(s("fds.bin")),
            ConfigCall::SkipProtocRun,
            ConfigCall::ExternPath(s(".a.B"), s("::a::B")),
            ConfigCall::ExternPath(s(".c.D"), s("::c::D")),
            ConfigCall::FieldAttribute(s("f"), s("#[f]")),
            ConfigCall::TypeAttribute(s("t"), s("#[t]")),
            ConfigCall::MessageAttribute(s("m"), s("#[m]")),
            ConfigCall::EnumAttribute(s("e"), s("#[e]")),
            ConfigCall::Boxed(s(".x.Y.z")),
            ConfigCall::Boxed(s(".x.Y.w")),
            ConfigCall::BtreeMap(strings(&[".", ".m"])),
            ConfigCall::Bytes(strings(&[".b"])),
            ConfigCall::CompileWellKnownTypes,
            ConfigCall::IncludeFile(s("mod.rs")),
            ConfigCall::ProtocArg(s("--one")),
            ConfigCall::ProtocArg(s("--two")),
        ]
    );
}

#[test]
fn only_the_last_btree_map_list_is_carried_over() {
    let builder = configure(false)
        .btree_map(&[".first"])
        .btree_map(&[".second", ".third"]);
    assert_eq!(
        builder.settings_calls(),
        vec![ConfigCall::BtreeMap(strings(&[".second", ".third"]))]
    );
    let builder = configure(false).bytes(&[".first"]).bytes(&[]);
    assert_eq!(builder.settings_calls(), vec![ConfigCall::Bytes(Vec::new())]);
}

#[test]
fn every_boxed_path_is_carried_over() {
    let builder = configure(false).boxed(".first").boxed(".second");
    assert_eq!(
        builder.settings_calls(),
        vec![ConfigCall::Boxed(s(".first")), ConfigCall::Boxed(s(".second"))]
    );
}

#[test]
fn simulated_pass_sets_the_directory_and_every_setting() {
    let builder = configure(false).extern_path(".a", "::a").out_dir("ignored here");
    let config = derive_config(&builder, "root", Transport::Simulated);
    assert_eq!(
        config.config_calls(),
        vec![
            ConfigCall::OutDir { root: s("root"), subdir: Some(s("sim")) },
            ConfigCall::ExternPath(s(".a"), s("::a")),
        ]
    );
}

#[test]
fn production_pass_only_sets_the_directory_anew() {
    let config = derive_config(&full_builder(), "root", Transport::Production);
    assert_eq!(
        config.config_calls(),
        vec![ConfigCall::OutDir { root: s("root"), subdir: None }]
    );
}

#[test]
fn production_builder_gets_the_shared_settings() {
    assert_eq!(
        full_builder().builder_calls(),
        vec![
            BuilderCall::BuildClient(true),
            BuilderCall::BuildServer(true),
            BuilderCall::BuildTransport(true),
            BuilderCall::OutDir(s("out")),
            BuilderCall::ServerModAttribute(s("pkg"), s("#[sm]")),
            BuilderCall::ServerAttribute(s("Svc"), s("#[s]")),
            BuilderCall::ClientModAttribute(s("pkg"), s("#[cm]")),
            BuilderCall::ClientAttribute(s("Svc"), s("#[c]")),
            BuilderCall::ProtoPath(s("crate::pb")),
            BuilderCall::DisableComments(strings(&["pkg.Svc", "pkg.Svc.Method"])),
            BuilderCall::UseArcSelf(true),
            BuilderCall::DisablePackageEmission,
            BuilderCall::CompileWellKnownTypes(true),
            BuilderCall::GenerateDefaultStubs(true),
            BuilderCall::EmitRerunIfChanged(false),
        ]
    );
}

#[test]
fn production_builder_calls_for_the_defaults() {
    assert_eq!(
        configure(true).build_client(false).builder_calls(),
        vec![
            BuilderCall::BuildClient(false),
            BuilderCall::BuildServer(true),
            BuilderCall::BuildTransport(true),
            BuilderCall::ProtoPath(s("super")),
            BuilderCall::DisableComments(Vec::new()),
            BuilderCall::UseArcSelf(false),
            BuilderCall::CompileWellKnownTypes(false),
            BuilderCall::GenerateDefaultStubs(false),
            BuilderCall::EmitRerunIfChanged(false),
        ]
    );
}

#[test]
fn calls_are_made_for_their_setter() {
    assert_eq!(
        pair_call(PairSetter::ExternPath, "a", "b"),
        ConfigCall::ExternPath(s("a"), s("b"))
    );
    assert_eq!(
        pair_call(PairSetter::FieldAttribute, "a", "b"),
        ConfigCall::FieldAttribute(s("a"), s("b"))
    );
    assert_eq!(
        pair_call(PairSetter::TypeAttribute, "a", "b"),
        ConfigCall::TypeAttribute(s("a"), s("b"))
    );
    assert_eq!(
        pair_call(PairSetter::MessageAttribute, "a", "b"),
        ConfigCall::MessageAttribute(s("a"), s("b"))
    );
    assert_eq!(
        pair_call(PairSetter::EnumAttribute, "a", "b"),
        ConfigCall::EnumAttribute(s("a"), s("b"))
    );
    assert_eq!(text_call(TextSetter::Boxed, "a"), ConfigCall::Boxed(s("a")));
    assert_eq!(text_call(TextSetter::ProtocArg, "a"), ConfigCall::ProtocArg(s("a")));
    assert_eq!(
        attribute_call(AttributeSetter::ServerMod, "a", "b"),
        BuilderCall::ServerModAttribute(s("a"), s("b"))
    );
    assert_eq!(
        attribute_call(AttributeSetter::Server, "a", "b"),
        BuilderCall::ServerAttribute(s("a"), s("b"))
    );
    assert_eq!(
        attribute_call(AttributeSetter::ClientMod, "a", "b"),
        BuilderCall::ClientModAttribute(s("a"), s("b"))
    );
    assert_eq!(
        attribute_call(AttributeSetter::Client, "a", "b"),
        BuilderCall::ClientAttribute(s("a"), s("b"))
    );
}

#[test]
fn calls_clone_to_equal_values() {
    let calls = derive_config(&full_builder(), "root", Transport::Simulated).config_calls();
    assert_eq!(copy_config_calls(&calls), calls);
    for call in &calls {
        assert_eq!(&call.clone(), call);
    }
}
