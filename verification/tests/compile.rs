use madsim_tonic_build::{
    compile_protos, configure, Action, BuilderCall, Compilation, CompileError, ConfigCall, Stage,
    Transport,
};

fn s(text: &str) -> String {
    text.to_string()
}

fn strings(items: &[&str]) -> Vec<String> {
    items.iter().map(|s| s.to_string()).collect()
}

fn begin(watch: bool) -> Compilation {
    configure(watch)
        .extern_path(".a", "::a")
        .compile_protos(&["proto/a.proto", "proto/b.proto"], &["proto", "include"], Some("out"))
        .expect("an output directory is named")
}

fn ok() -> Result<(), String> {
    Ok(())
}

#[test]
fn a_compile_needs_an_output_directory() {
    let result = configure(false).compile_protos(&["a.proto"], &["."], None);
    assert_eq!(result.err(), Some(CompileError::MissingOutDir));
    let result = compile_protos("dir/a.proto", "dir", true, None);
    assert_eq!(result.err(), Some(CompileError::MissingOutDir));
    let result = configure(false).compile_protos_with_config(Vec::new(), &[], &[], None);
    assert_eq!(result.err(), Some(CompileError::MissingOutDir));
}

#[test]
fn the_output_directory_of_the_builder_comes_first() {
    let compilation = configure(false)
        .out_dir("mine")
        .compile_protos(&["a.proto"], &["."], Some("theirs"))
        .expect("an output directory is named");
    assert_eq!(compilation.pass_config(Transport::Simulated).out_root, "mine");
    let compilation = configure(false)
        .out_dir("mine")
        .compile_protos(&["a.proto"], &["."], None)
        .expect("an output directory is named");
    assert_eq!(compilation.pass_config(Transport::Production).out_root, "mine");
    let compilation = configure(false)
        .compile_protos(&["a.proto"], &["."], Some("theirs"))
        .expect("an output directory is named");
    assert_eq!(compilation.pass_config(Transport::Production).out_root, "theirs");
}

#[test]
fn a_compile_begins_with_the_directory_for_the_simulated_code() {
    let compilation = begin(true);
    assert_eq!(compilation.stage(), Stage::CreateSimDir);
    assert!(!compilation.ended());
    assert!(!compilation.succeeded());
    match compilation.next_action() {
        Some(Action::CreateDir { root, subdir }) => {
            assert_eq!(root, "out");
            assert_eq!(subdir, "sim");
        }
        other => panic!("unexpected step: {:?}", other),
    }
}

#[test]
fn watch_lines_name_protos_then_includes() {
    let mut compilation = begin(true);
    compilation.advance(ok()).expect("the outcome is handed back");
    assert_eq!(compilation.stage(), Stage::Watch);
    match compilation.next_action() {
        Some(Action::Watch { lines }) => assert_eq!(
            lines,
            strings(&[
                "cargo:rerun-if-changed=proto/a.proto",
                "cargo:rerun-if-changed=proto/b.proto",
                "cargo:rerun-if-changed=proto",
                "cargo:rerun-if-changed=include",
            ])
        ),
        other => panic!("unexpected step: {:?}", other),
    }
}

#[test]
fn watch_is_passed_over_when_disabled() {
    let mut compilation = begin(false);
    compilation.advance(ok()).expect("the outcome is handed back");
    assert_eq!(compilation.stage(), Stage::Simulated);
    let mut compilation = configure(true)
        .emit_rerun_if_changed(false)
        .compile_protos(&["a.proto"], &["."], Some("out"))
        .expect("an output directory is named");
    compilation.advance(ok()).expect("the outcome is handed back");
    assert_eq!(compilation.stage(), Stage::Simulated);
}

#[test]
fn the_simulated_pass_comes_before_the_production_pass() {
    let mut compilation = begin(true);
    let mut stages = vec![compilation.stage()];
    while !compilation.ended() {
        assert!(compilation.next_action().is_some());
        compilation.advance(ok()).expect("the outcome is handed back");
        stages.push(compilation.stage());
    }
    assert_eq!(
        stages,
        vec![
            Stage::CreateSimDir,
            Stage::Watch,
            Stage::Simulated,
            Stage::Production,
            Stage::Succeeded,
        ]
    );
    assert!(compilation.succeeded());
    assert!(compilation.next_action().is_none());
}

#[test]
fn the_simulated_pass_carries_every_setting() {
    let mut compilation = begin(false);
    compilation.advance(ok()).expect("the outcome is handed back");
    match compilation.next_action() {
        Some(Action::GenerateSimulated {
            config_calls,
            generator,
            protos,
            includes,
        }) => {
            assert_eq!(
                config_calls,
                vec![
                    ConfigCall::OutDir { root: s("out"), subdir: Some(s("sim")) },
                    ConfigCall::ExternPath(s(".a"), s("::a")),
                ]
            );
            assert_eq!(generator.builder.extern_path, vec![(s(".a"), s("::a"))]);
            assert_eq!(generator.builder.proto_path, "super");
            assert!(generator.clients.is_empty());
            assert!(generator.servers.is_empty());
            assert_eq!(protos, strings(&["proto/a.proto", "proto/b.proto"]));
            assert_eq!(includes, strings(&["proto", "include"]));
        }
        other => panic!("unexpected step: {:?}", other),
    }
}

#[test]
fn the_production_pass_retargets_the_same_configuration() {
    let mut compilation = begin(false);
    compilation.advance(ok()).expect("the outcome is handed back");
    compilation.advance(ok()).expect("the outcome is handed back");
    assert_eq!(compilation.stage(), Stage::Production);
    match compilation.next_action() {
        Some(Action::GenerateProduction {
            config_calls,
            builder_calls,
            protos,
            includes,
        }) => {
            assert_eq!(
                config_calls,
                vec![ConfigCall::OutDir { root: s("out"), subdir: None }]
            );
            assert_eq!(
                builder_calls,
                vec![
                    BuilderCall::BuildClient(true),
                    BuilderCall::BuildServer(true),
                    BuilderCall::BuildTransport(true),
                    BuilderCall::ProtoPath(s("super")),
                    BuilderCall::DisableComments(Vec::new()),
                    BuilderCall::UseArcSelf(false),
                    BuilderCall::CompileWellKnownTypes(false),
                    BuilderCall::GenerateDefaultStubs(false),
                    BuilderCall::EmitRerunIfChanged(false),
                ]
            );
            assert_eq!(protos, strings(&["proto/a.proto", "proto/b.proto"]));
            assert_eq!(includes, strings(&["proto", "include"]));
        }
        other => panic!("unexpected step: {:?}", other),
    }
}

#[test]
fn both_passes_see_the_same_settings() {
    let compilation = configure(false)
        .compile_well_known_types(true)
        .proto_path("crate::pb")
        .build_server(false)
        .compile_protos(&["a.proto"], &["."], Some("out"))
        .expect("an output directory is named");
    let simulated = compilation.pass_config(Transport::Simulated);
    let production = compilation.pass_config(Transport::Production);
    assert_eq!(simulated.out_root, production.out_root);
    assert_eq!(
        simulated.settings.compile_well_known_types,
        production.settings.compile_well_known_types
    );
    assert_eq!(simulated.settings.proto_path, production.settings.proto_path);
    assert_eq!(simulated.settings.build_server, production.settings.build_server);
    assert_eq!(simulated.settings.build_client, production.settings.build_client);
    assert_eq!(simulated.transport, Transport::Simulated);
    assert_eq!(production.transport, Transport::Production);
    assert!(production
        .settings
        .builder_calls()
        .contains(&BuilderCall::CompileWellKnownTypes(true)));
    assert!(simulated
        .config_calls()
        .contains(&ConfigCall::CompileWellKnownTypes));
}

#[test]
fn the_first_failure_ends_the_compile() {
    for steps_before in 0..4 {
        let mut compilation = begin(true);
        for _ in 0..steps_before {
            compilation.advance(ok()).expect("the outcome is handed back");
        }
        assert!(!compilation.ended());
        let result = compilation.advance(Err(format!("failed after {}", steps_before)));
        assert_eq!(result, Err(format!("failed after {}", steps_before)));
        assert_eq!(compilation.stage(), Stage::Failed);
        assert!(compilation.ended());
        assert!(!compilation.succeeded());
        assert!(compilation.next_action().is_none());
    }
}

#[test]
fn a_compile_that_ended_stays_as_it_is() {
    let mut compilation = begin(false);
    let _ = compilation.advance(Err(s("no directory")));
    assert_eq!(compilation.stage(), Stage::Failed);
    assert_eq!(compilation.advance(ok()), Ok(()));
    assert_eq!(compilation.stage(), Stage::Failed);

    let mut compilation = begin(false);
    for _ in 0..3 {
        compilation.advance(ok()).expect("the outcome is handed back");
    }
    assert_eq!(compilation.stage(), Stage::Succeeded);
    assert_eq!(compilation.advance(Err(s("late"))), Err(s("late")));
    assert_eq!(compilation.stage(), Stage::Succeeded);
}

#[test]
fn simple_compile_uses_the_defaults() {
    let mut compilation =
        compile_protos("protos/hello.proto", "protos", true, Some("target/out"))
            .expect("an output directory is named");
    match compilation.next_action() {
        Some(Action::CreateDir { root, subdir }) => {
            assert_eq!(root, "target/out");
            assert_eq!(subdir, "sim");
        }
        other => panic!("unexpected step: {:?}", other),
    }
    compilation.advance(ok()).expect("the outcome is handed back");
    match compilation.next_action() {
        Some(Action::Watch { lines }) => assert_eq!(
            lines,
            strings(&[
                "cargo:rerun-if-changed=protos/hello.proto",
                "cargo:rerun-if-changed=protos",
            ])
        ),
        other => panic!("unexpected step: {:?}", other),
    }
    compilation.advance(ok()).expect("the outcome is handed back");
    match compilation.next_action() {
        Some(Action::GenerateSimulated {
            config_calls,
            generator,
            protos,
            includes,
        }) => {
            assert_eq!(
                config_calls,
                vec![ConfigCall::OutDir { root: s("target/out"), subdir: Some(s("sim")) }]
            );
            assert!(generator.builder.build_client);
            assert!(generator.builder.build_server);
            assert_eq!(generator.builder.proto_path, "super");
            assert_eq!(protos, strings(&["protos/hello.proto"]));
            assert_eq!(includes, strings(&["protos"]));
        }
        other => panic!("unexpected step: {:?}", other),
    }
    let compilation = compile_protos("hello.proto", "", false, Some("o"))
        .expect("an output directory is named");
    assert!(!compilation.pass_config(Transport::Simulated).settings.emit_rerun_if_changed);
}

#[test]
fn a_configuration_of_the_callers_own_comes_first() {
    let base = vec![ConfigCall::Boxed(s(".mine")), ConfigCall::ProtocArg(s("--mine"))];
    let mut compilation = configure(false)
        .boxed(".theirs")
        .compile_protos_with_config(base, &["a.proto"], &["."], Some("out"))
        .expect("an output directory is named");
    compilation.advance(ok()).expect("the outcome is handed back");
    match compilation.next_action() {
        Some(Action::GenerateSimulated { config_calls, .. }) => assert_eq!(
            config_calls,
            vec![
                ConfigCall::Boxed(s(".mine")),
                ConfigCall::ProtocArg(s("--mine")),
                ConfigCall::OutDir { root: s("out"), subdir: Some(s("sim")) },
                ConfigCall::Boxed(s(".theirs")),
            ]
        ),
        other => panic!("unexpected step: {:?}", other),
    }
    compilation.advance(ok()).expect("the outcome is handed back");
    match compilation.next_action() {
        Some(Action::GenerateProduction { config_calls, .. }) => assert_eq!(
            config_calls,
            vec![ConfigCall::OutDir { root: s("out"), subdir: None }]
        ),
        other => panic!("unexpected step: {:?}", other),
    }
}

#[test]
fn the_steps_of_a_compile_are_repeatable() {
    let first = format!("{:?}", {
        let mut c = begin(true);
        let mut steps = Vec::new();
        while let Some(action) = c.next_action() {
            steps.push(format!("{:?}", action));
            c.advance(ok()).expect("the outcome is handed back");
        }
        steps
    });
    let second = format!("{:?}", {
        let mut c = begin(true);
        let mut steps = Vec::new();
        while let Some(action) = c.next_action() {
            steps.push(format!("{:?}", action));
            c.advance(ok()).expect("the outcome is handed back");
        }
        steps
    });
    assert_eq!(first, second);
}
