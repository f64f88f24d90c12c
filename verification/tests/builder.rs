use madsim_tonic_build::string_set::StringSet;
use madsim_tonic_build::{configure, Attributes, Builder};

fn pair(a: &str, b: &str) -> (String, String) {
    (a.to_string(), b.to_string())
}

fn strings(items: &[&str]) -> Vec<String> {
    items.iter().map(|s| s.to_string()).collect()
}

#[test]
fn configure_gives_the_defaults() {
    let builder = configure(false);
    assert!(builder.build_client);
    assert!(builder.build_server);
    assert!(builder.build_transport);
    assert_eq!(builder.file_descriptor_set_path, None);
    assert!(!builder.skip_protoc_run);
    assert_eq!(builder.out_dir, None);
    assert!(builder.extern_path.is_empty());
    assert!(builder.field_attributes.is_empty());
    assert!(builder.type_attributes.is_empty());
    assert!(builder.message_attributes.is_empty());
    assert!(builder.enum_attributes.is_empty());
    assert!(builder.boxed.is_empty());
    assert_eq!(builder.btree_map, None);
    assert_eq!(builder.bytes, None);
    assert_eq!(builder.server_attributes, Attributes::default());
    assert_eq!(builder.client_attributes, Attributes::default());
    assert_eq!(builder.proto_path, "super");
    assert!(builder.emit_package);
    assert!(!builder.compile_well_known_types);
    assert!(builder.protoc_args.is_empty());
    assert_eq!(builder.include_file, None);
    assert!(!builder.emit_rerun_if_changed);
    assert_eq!(builder.disable_comments.len(), 0);
    assert!(!builder.use_arc_self);
    assert!(!builder.generate_default_stubs);
}

#[test]
fn configure_under_cargo_emits_watch_instructions() {
    assert!(configure(true).emit_rerun_if_changed);
    assert!(!configure(true).emit_rerun_if_changed(false).emit_rerun_if_changed);
    assert!(configure(false).emit_rerun_if_changed(true).emit_rerun_if_changed);
}

#[test]
fn switches_set_their_own_field() {
    let builder = configure(false).build_client(false);
    assert!(!builder.build_client);
    assert!(builder.build_server);
    assert!(builder.build_transport);
    let builder = configure(false).build_server(false);
    assert!(builder.build_client);
    assert!(!builder.build_server);
    let builder = configure(false).build_transport(false);
    assert!(!builder.build_transport);
    assert!(builder.build_client);
    let builder = configure(false).use_arc_self(true);
    assert!(builder.use_arc_self);
    assert!(!builder.generate_default_stubs);
    let builder = configure(false).generate_default_stubs(true);
    assert!(builder.generate_default_stubs);
    assert!(!builder.use_arc_self);
    let builder = configure(false).compile_well_known_types(true);
    assert!(builder.compile_well_known_types);
    assert!(!builder.compile_well_known_types(false).compile_well_known_types);
    let builder = configure(false).skip_protoc_run();
    assert!(builder.skip_protoc_run);
    let builder = configure(false).disable_package_emission();
    assert!(!builder.emit_package);
}

#[test]
fn paths_are_set() {
    let builder = configure(false)
        .out_dir("target/out")
        .file_descriptor_set_path("target/fds.bin")
        .include_file("mod.rs")
        .proto_path("crate::pb");
    assert_eq!(builder.out_dir.as_deref(), Some("target/out"));
    assert_eq!(
        builder.file_descriptor_set_path.as_deref(),
        Some("target/fds.bin")
    );
    assert_eq!(builder.include_file.as_deref(), Some("mod.rs"));
    assert_eq!(builder.proto_path, "crate::pb");
    let builder = builder.out_dir("elsewhere").proto_path("super::super");
    assert_eq!(builder.out_dir.as_deref(), Some("elsewhere"));
    assert_eq!(builder.proto_path, "super::super");
    assert_eq!(builder.include_file.as_deref(), Some("mod.rs"));
}

#[test]
fn extern_paths_are_appended() {
    let builder = configure(false)
        .extern_path(".a.B", "::a::B")
        .extern_path(".c.D", "::c::D")
        .extern_path(".a.B", "::a::B");
    assert_eq!(
        builder.extern_path,
        vec![pair(".a.B", "::a::B"), pair(".c.D", "::c::D"), pair(".a.B", "::a::B")]
    );
}

#[test]
fn attributes_are_appended_to_their_own_list() {
    let builder = configure(false)
        .field_attribute("f", "#[f1]")
        .type_attribute("t", "#[t1]")
        .message_attribute("m", "#[m1]")
        .enum_attribute("e", "#[e1]")
        .field_attribute("f", "#[f2]")
        .type_attribute("t", "#[t2]")
        .message_attribute("m", "#[m2]")
        .enum_attribute("e", "#[e2]");
    assert_eq!(builder.field_attributes, vec![pair("f", "#[f1]"), pair("f", "#[f2]")]);
    assert_eq!(builder.type_attributes, vec![pair("t", "#[t1]"), pair("t", "#[t2]")]);
    assert_eq!(builder.message_attributes, vec![pair("m", "#[m1]"), pair("m", "#[m2]")]);
    assert_eq!(builder.enum_attributes, vec![pair("e", "#[e1]"), pair("e", "#[e2]")]);
    assert!(builder.extern_path.is_empty());
}

#[test]
fn boxed_paths_are_appended() {
    let builder = configure(false).boxed(".a.B.c").boxed(".d.E.f");
    assert_eq!(builder.boxed, strings(&[".a.B.c", ".d.E.f"]));
}

#[test]
fn protoc_args_are_appended() {
    let builder = configure(false)
        .protoc_arg("--experimental_allow_proto3_optional")
        .protoc_arg("-I.");
    assert_eq!(
        builder.protoc_args,
        strings(&["--experimental_allow_proto3_optional", "-I."])
    );
}

#[test]
fn btree_map_replaces_the_earlier_list() {
    let builder = configure(false).btree_map(&[".a", ".b"]);
    assert_eq!(builder.btree_map, Some(strings(&[".a", ".b"])));
    let builder = builder.btree_map(&[".c"]);
    assert_eq!(builder.btree_map, Some(strings(&[".c"])));
    let builder = builder.btree_map(&[]);
    assert_eq!(builder.btree_map, Some(Vec::new()));
    assert_eq!(builder.bytes, None);
}

#[test]
fn bytes_replaces_the_earlier_list() {
    let builder = configure(false).bytes(&["."]);
    assert_eq!(builder.bytes, Some(strings(&["."])));
    let builder = builder.bytes(&[".x", ".y"]);
    assert_eq!(builder.bytes, Some(strings(&[".x", ".y"])));
    assert_eq!(builder.btree_map, None);
}

#[test]
fn server_and_client_attributes_go_to_their_lists() {
    let builder = configure(false)
        .server_mod_attribute("pkg", "#[sm]")
        .server_attribute("Svc", "#[s]")
        .client_mod_attribute("pkg", "#[cm]")
        .client_attribute("Svc", "#[c]")
        .server_attribute("Svc", "#[s2]");
    assert_eq!(builder.server_attributes.module, vec![pair("pkg", "#[sm]")]);
    assert_eq!(
        builder.server_attributes.structure,
        vec![pair("Svc", "#[s]"), pair("Svc", "#[s2]")]
    );
    assert_eq!(builder.client_attributes.module, vec![pair("pkg", "#[cm]")]);
    assert_eq!(builder.client_attributes.structure, vec![pair("Svc", "#[c]")]);
}

#[test]
fn disabled_comments_are_a_set() {
    let builder = configure(false)
        .disable_comments("a.B")
        .disable_comments("c.D")
        .disable_comments("a.B");
    assert_eq!(builder.disable_comments.len(), 2);
    assert!(builder.disable_comments.contains("a.B"));
    assert!(builder.disable_comments.contains("c.D"));
    assert!(!builder.disable_comments.contains("e.F"));
    assert_eq!(builder.disable_comments.to_vec(), strings(&["a.B", "c.D"]));
}

#[test]
fn a_clone_has_the_same_settings() {
    let builder: Builder = configure(true)
        .build_client(false)
        .out_dir("out")
        .extern_path(".a", "::a")
        .field_attribute("f", "#[f]")
        .boxed(".b")
        .btree_map(&[".m"])
        .bytes(&[".y"])
        .server_mod_attribute("p", "#[s]")
        .client_attribute("S", "#[c]")
        .proto_path("crate")
        .protoc_arg("-x")
        .disable_comments("c")
        .include_file("inc.rs")
        .file_descriptor_set_path("fds")
        .compile_well_known_types(true);
    let copy = builder.clone();
    assert_eq!(copy.build_client, builder.build_client);
    assert_eq!(copy.build_server, builder.build_server);
    assert_eq!(copy.build_transport, builder.build_transport);
    assert_eq!(copy.out_dir, builder.out_dir);
    assert_eq!(copy.extern_path, builder.extern_path);
    assert_eq!(copy.field_attributes, builder.field_attributes);
    assert_eq!(copy.type_attributes, builder.type_attributes);
    assert_eq!(copy.message_attributes, builder.message_attributes);
    assert_eq!(copy.enum_attributes, builder.enum_attributes);
    assert_eq!(copy.boxed, builder.boxed);
    assert_eq!(copy.btree_map, builder.btree_map);
    assert_eq!(copy.bytes, builder.bytes);
    assert_eq!(copy.server_attributes, builder.server_attributes);
    assert_eq!(copy.client_attributes, builder.client_attributes);
    assert_eq!(copy.proto_path, builder.proto_path);
    assert_eq!(copy.emit_package, builder.emit_package);
    assert_eq!(copy.compile_well_known_types, builder.compile_well_known_types);
    assert_eq!(copy.protoc_args, builder.protoc_args);
    assert_eq!(copy.include_file, builder.include_file);
    assert_eq!(copy.file_descriptor_set_path, builder.file_descriptor_set_path);
    assert_eq!(copy.emit_rerun_if_changed, builder.emit_rerun_if_changed);
    assert_eq!(copy.disable_comments.to_vec(), builder.disable_comments.to_vec());
    assert_eq!(copy.use_arc_self, builder.use_arc_self);
    assert_eq!(copy.generate_default_stubs, builder.generate_default_stubs);
}

#[test]
fn attributes_keep_the_order_of_the_pushes() {
    let mut attributes = Attributes::default();
    assert!(attributes.module.is_empty());
    assert!(attributes.structure.is_empty());
    attributes.push_mod("my.proto.package".to_string(), "#[cfg(a)]".to_string());
    attributes.push_struct("EchoService".to_string(), "#[derive(PartialEq)]".to_string());
    attributes.push_mod("other".to_string(), "#[cfg(b)]".to_string());
    assert_eq!(
        attributes.module,
        vec![pair("my.proto.package", "#[cfg(a)]"), pair("other", "#[cfg(b)]")]
    );
    assert_eq!(
        attributes.structure,
        vec![pair("EchoService", "#[derive(PartialEq)]")]
    );
    assert_eq!(attributes.clone(), attributes);
}

#[test]
fn string_set_holds_each_string_once() {
    let set = StringSet::new();
    assert_eq!(set.len(), 0);
    assert!(!set.contains("a"));
    let (set, new) = set.insert("a".to_string());
    assert!(new);
    let (set, new) = set.insert("b".to_string());
    assert!(new);
    let (set, new) = set.insert("a".to_string());
    assert!(!new);
    let (set, new) = set.insert("".to_string());
    assert!(new);
    assert_eq!(set.len(), 3);
    assert!(set.contains("a"));
    assert!(set.contains("b"));
    assert!(set.contains(""));
    assert!(!set.contains("ab"));
    assert_eq!(set.to_vec(), strings(&["a", "b", ""]));
    assert_eq!(set.clone().to_vec(), set.to_vec());
}
