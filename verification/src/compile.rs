//! A compile: two passes over the same inputs, the first for the simulated
//! transport, the second for the production transport.
//!
//! A compile reads and writes files and runs the IDL compiler, none of which
//! this library does. It decides what is done and in what order: a
//! [`Compilation`] names the next [`Action`], the caller carries it out and
//! reports how it went, and the compilation moves on or stops at the first
//! failure.

use crate::builder::{configure, default_settings, Builder, Settings};
use crate::config::{
    config_call_views, copy_config_calls, derive_config, sim_dir, spec_config_calls,
    spec_derive_config, spec_settings_calls, ConfigCall, ConfigCallView, GenerationConfig,
    GenerationConfigView, Transport,
};
use crate::generator::ServiceGenerator;
use crate::production::{builder_call_views, spec_builder_calls, BuilderCall, BuilderCallView};
use crate::text::{copy_texts, join2, opt_slice_text, owned_texts, slice_texts, texts};
use crate::tokens::{stream_tokens, Token};
use vstd::prelude::*;

verus! {

/// Why a compile could not begin.
#[derive(Clone, Copy, PartialEq, Eq, Structural, Debug)]
pub enum CompileError {
    /// Neither the builder nor the build environment names an output
    /// directory.
    MissingOutDir,
}

/// How far a compile has come: the step that is due next, or how it ended.
#[derive(Clone, Copy, PartialEq, Eq, Structural, Debug)]
pub enum Stage {
    /// The directory for the simulated transport is to be created.
    CreateSimDir,
    /// The instructions for Cargo are to be emitted.
    Watch,
    /// The pass for the simulated transport is to be run.
    Simulated,
    /// The pass for the production transport is to be run.
    Production,
    /// Both passes are done.
    Succeeded,
    /// A step failed, and the compile stopped there.
    Failed,
}

/// A step of a compile, for the caller to carry out.
#[derive(Debug)]
pub enum Action {
    /// Create the directory `subdir` below `root`, with every directory that
    /// leads to it.
    CreateDir { root: String, subdir: String },
    /// Print the lines, which tell Cargo which paths to watch.
    Watch { lines: Vec<String> },
    /// Make the calls on the IDL compiler's configuration, install the
    /// generator in it, and compile the inputs.
    GenerateSimulated {
        config_calls: Vec<ConfigCall>,
        generator: ServiceGenerator,
        protos: Vec<String>,
        includes: Vec<String>,
    },
    /// Make the calls on the same configuration and on a new production
    /// builder, and have that builder compile the inputs with the
    /// configuration.
    GenerateProduction {
        config_calls: Vec<ConfigCall>,
        builder_calls: Vec<BuilderCall>,
        protos: Vec<String>,
        includes: Vec<String>,
    },
}

/// An [`Action`] as mathematical values.
pub enum ActionView {
    CreateDir { root: Seq<char>, subdir: Seq<char> },
    Watch { lines: Seq<Seq<char>> },
    GenerateSimulated {
        config_calls: Seq<ConfigCallView>,
        settings: Settings,
        clients: Seq<Token>,
        servers: Seq<Token>,
        protos: Seq<Seq<char>>,
        includes: Seq<Seq<char>>,
    },
    GenerateProduction {
        config_calls: Seq<ConfigCallView>,
        builder_calls: Seq<BuilderCallView>,
        protos: Seq<Seq<char>>,
        includes: Seq<Seq<char>>,
    },
}

impl View for Action {
    type V = ActionView;

    open spec fn view(&self) -> ActionView {
        match self {
            Action::CreateDir { root, subdir } => ActionView::CreateDir {
                root: root@,
                subdir: subdir@,
            },
            Action::Watch { lines } => ActionView::Watch { lines: texts(lines@) },
            Action::GenerateSimulated {
                config_calls,
                generator,
                protos,
                includes,
            } => ActionView::GenerateSimulated {
                config_calls: config_call_views(config_calls@),
                settings: generator.builder@,
                clients: stream_tokens(generator.clients),
                servers: stream_tokens(generator.servers),
                protos: texts(protos@),
                includes: texts(includes@),
            },
            Action::GenerateProduction {
                config_calls,
                builder_calls,
                protos,
                includes,
            } => ActionView::GenerateProduction {
                config_calls: config_call_views(config_calls@),
                builder_calls: builder_call_views(builder_calls@),
                protos: texts(protos@),
                includes: texts(includes@),
            },
        }
    }
}

/// A compile in progress.
#[derive(Debug)]
pub struct Compilation {
    base: Vec<ConfigCall>,
    settings: Builder,
    out_root: String,
    protos: Vec<String>,
    includes: Vec<String>,
    stage: Stage,
}

/// A [`Compilation`] as mathematical values.
pub struct CompilationView {
    /// The calls that make the configuration that the compile starts from.
    /// They are made before any other.
    pub base: Seq<ConfigCallView>,
    /// The settings of the builder that the compile was begun from.
    pub settings: Settings,
    /// The output root: the production code goes there, the simulated code
    /// below `sim` in it.
    pub out_root: Seq<char>,
    /// The proto files to compile.
    pub protos: Seq<Seq<char>>,
    /// The directories in which imports are looked for.
    pub includes: Seq<Seq<char>>,
    pub stage: Stage,
}

impl View for Compilation {
    type V = CompilationView;

    closed spec fn view(&self) -> CompilationView {
        CompilationView {
            base: config_call_views(self.base@),
            settings: self.settings@,
            out_root: self.out_root@,
            protos: texts(self.protos@),
            includes: texts(self.includes@),
            stage: self.stage,
        }
    }
}

/// The output root of a compile: the directory that the builder names, else
/// the one that the build environment names.
pub open spec fn spec_out_root(settings: Settings, default_out_dir: Option<Seq<char>>) -> Option<
    Seq<char>,
> {
    match settings.out_dir {
        Some(dir) => Some(dir),
        None => default_out_dir,
    }
}

/// The line that tells Cargo to watch `path`.
pub open spec fn spec_watch_line(path: Seq<char>) -> Seq<char> {
    "cargo:rerun-if-changed="@ + path
}

/// The lines that tell Cargo what to watch: one for each proto file, then one
/// for each include directory.
pub open spec fn spec_watch_lines(protos: Seq<Seq<char>>, includes: Seq<Seq<char>>) -> Seq<
    Seq<char>,
> {
    Seq::new(protos.len(), |i: int| spec_watch_line(protos[i])) + Seq::new(
        includes.len(),
        |i: int| spec_watch_line(includes[i]),
    )
}

/// The configuration of the pass for `transport` in a compile.
pub open spec fn spec_pass_config(compilation: CompilationView, transport: Transport)
    -> GenerationConfigView {
    spec_derive_config(compilation.settings, compilation.out_root, transport)
}

/// The step that is due in a compile, or `None` where the compile has ended.
pub open spec fn spec_action(compilation: CompilationView) -> Option<ActionView> {
    match compilation.stage {
        Stage::CreateSimDir => Some(
            ActionView::CreateDir { root: compilation.out_root, subdir: sim_dir() },
        ),
        Stage::Watch => Some(
            ActionView::Watch {
                lines: spec_watch_lines(compilation.protos, compilation.includes),
            },
        ),
        Stage::Simulated => Some(
            ActionView::GenerateSimulated {
                config_calls: compilation.base + spec_config_calls(
                    spec_pass_config(compilation, Transport::Simulated),
                ),
                settings: spec_pass_config(compilation, Transport::Simulated).settings,
                clients: Seq::empty(),
                servers: Seq::empty(),
                protos: compilation.protos,
                includes: compilation.includes,
            },
        ),
        Stage::Production => Some(
            ActionView::GenerateProduction {
                config_calls: spec_config_calls(
                    spec_pass_config(compilation, Transport::Production),
                ),
                builder_calls: spec_builder_calls(
                    spec_pass_config(compilation, Transport::Production).settings,
                ),
                protos: compilation.protos,
                includes: compilation.includes,
            },
        ),
        Stage::Succeeded => None,
        Stage::Failed => None,
    }
}

/// Whether a compile has ended.
pub open spec fn spec_ended(stage: Stage) -> bool {
    stage == Stage::Succeeded || stage == Stage::Failed
}

/// The stage that follows `stage` once its step went as `ok` says. `watch`
/// tells whether the instructions for Cargo are emitted.
pub open spec fn spec_next_stage(stage: Stage, ok: bool, watch: bool) -> Stage {
    match stage {
        Stage::Succeeded => Stage::Succeeded,
        Stage::Failed => Stage::Failed,
        _ if !ok => Stage::Failed,
        Stage::CreateSimDir => if watch {
            Stage::Watch
        } else {
            Stage::Simulated
        },
        Stage::Watch => Stage::Simulated,
        Stage::Simulated => Stage::Production,
        Stage::Production => Stage::Succeeded,
    }
}

/// The place of a stage in the order of a compile.
pub open spec fn spec_rank(stage: Stage) -> nat {
    match stage {
        Stage::CreateSimDir => 0,
        Stage::Watch => 1,
        Stage::Simulated => 2,
        Stage::Production => 3,
        Stage::Succeeded => 4,
        Stage::Failed => 4,
    }
}

/// The lines that tell Cargo to watch `paths`, appended to `lines`.
fn push_watch_lines(lines: &mut Vec<String>, paths: &Vec<String>)
    ensures
        texts(final(lines)@) == texts(old(lines)@) + Seq::new(
            paths.len() as nat,
            |i: int| spec_watch_line(paths@[i]@),
        ),
{
    let ghost before = texts(lines@);
    let ghost all = Seq::new(paths.len() as nat, |i: int| spec_watch_line(paths@[i]@));
    let mut i: usize = 0;
    while i < paths.len()
        invariant
            i <= paths.len(),
            all == Seq::new(paths.len() as nat, |i: int| spec_watch_line(paths@[i]@)),
            texts(lines@) == before + all.take(i as int),
        decreases paths.len() - i,
    {
        let ghost held = texts(lines@);
        let line = join2("cargo:rerun-if-changed=", paths[i].as_str());
        lines.push(line);
        assert(held.push(line@) =~= before + all.take(i + 1));
        i += 1;
    }
}

impl Compilation {
    /// Begins a compile of `protos` with the settings of `builder`, on the
    /// configuration that the calls of `base` make.
    fn begin(
        builder: Builder,
        base: Vec<ConfigCall>,
        protos: Vec<String>,
        includes: Vec<String>,
        default_out_dir: Option<&str>,
    ) -> (result: Result<Compilation, CompileError>)
        ensures
            result is Ok <==> spec_out_root(builder@, opt_slice_text(default_out_dir)) is Some,
            result matches Ok(compilation) ==> compilation@ == (CompilationView {
                base: config_call_views(base@),
                settings: builder@,
                out_root: spec_out_root(builder@, opt_slice_text(default_out_dir))->0,
                protos: texts(protos@),
                includes: texts(includes@),
                stage: Stage::CreateSimDir,
            }),
            result matches Err(error) ==> error == CompileError::MissingOutDir,
    {
        let out_root = match &builder.out_dir {
            Some(dir) => dir.clone(),
            None => match default_out_dir {
                Some(dir) => dir.to_owned(),
                None => {
                    return Err(CompileError::MissingOutDir);
                },
            },
        };
        Ok(
            Compilation {
                base,
                settings: builder,
                out_root,
                protos,
                includes,
                stage: Stage::CreateSimDir,
            },
        )
    }

    /// How far the compile has come.
    pub fn stage(&self) -> (stage: Stage)
        ensures
            stage == self@.stage,
    {
        self.stage
    }

    /// Whether the compile has ended, in success or in failure.
    pub fn ended(&self) -> (ended: bool)
        ensures
            ended == spec_ended(self@.stage),
    {
        self.stage == Stage::Succeeded || self.stage == Stage::Failed
    }

    /// Whether both passes are done.
    pub fn succeeded(&self) -> (succeeded: bool)
        ensures
            succeeded == (self@.stage == Stage::Succeeded),
    {
        self.stage == Stage::Succeeded
    }

    /// The configuration of the pass for `transport`.
    pub fn pass_config(&self, transport: Transport) -> (config: GenerationConfig)
        ensures
            config@ == spec_pass_config(self@, transport),
    {
        derive_config(&self.settings, self.out_root.as_str(), transport)
    }

    /// The step that is due, or `None` where the compile has ended.
    pub fn next_action(&self) -> (action: Option<Action>)
        ensures
            (match action {
                Some(a) => Some(a@),
                None => None,
            }) == spec_action(self@),
    {
        match self.stage {
            Stage::CreateSimDir => Some(
                Action::CreateDir { root: self.out_root.clone(), subdir: "sim".to_owned() },
            ),
            Stage::Watch => {
                let mut lines: Vec<String> = Vec::new();
                push_watch_lines(&mut lines, &self.protos);
                push_watch_lines(&mut lines, &self.includes);
                assert(texts(lines@) =~= spec_watch_lines(self@.protos, self@.includes));
                Some(Action::Watch { lines })
            },
            Stage::Simulated => {
                let config = self.pass_config(Transport::Simulated);
                let mut config_calls = copy_config_calls(&self.base);
                let mut pass_calls = config.config_calls();
                let ghost first = config_call_views(config_calls@);
                let ghost rest = config_call_views(pass_calls@);
                config_calls.append(&mut pass_calls);
                assert(config_call_views(config_calls@) =~= first + rest);
                let generator = config.settings.service_generator();
                Some(
                    Action::GenerateSimulated {
                        config_calls,
                        generator,
                        protos: copy_texts(&self.protos),
                        includes: copy_texts(&self.includes),
                    },
                )
            },
            Stage::Production => {
                let config = self.pass_config(Transport::Production);
                let config_calls = config.config_calls();
                let builder_calls = config.settings.builder_calls();
                Some(
                    Action::GenerateProduction {
                        config_calls,
                        builder_calls,
                        protos: copy_texts(&self.protos),
                        includes: copy_texts(&self.includes),
                    },
                )
            },
            Stage::Succeeded => None,
            Stage::Failed => None,
        }
    }

    /// Takes the outcome of the step that was due and moves on: to the next
    /// step where it went well, to [`Stage::Failed`] where it did not. The
    /// outcome is handed back as it came, so that the first failure is what
    /// the caller reports. A compile that has ended stays as it is.
    pub fn advance<E>(&mut self, outcome: Result<(), E>) -> (result: Result<(), E>)
        ensures
            result == outcome,
            final(self)@ == (CompilationView {
                stage: spec_next_stage(
                    old(self)@.stage,
                    outcome is Ok,
                    old(self)@.settings.emit_rerun_if_changed,
                ),
                ..old(self)@
            }),
    {
        let ok = outcome.is_ok();
        self.stage = match self.stage {
            Stage::Succeeded => Stage::Succeeded,
            Stage::Failed => Stage::Failed,
            Stage::CreateSimDir => if !ok {
                Stage::Failed
            } else if self.settings.emit_rerun_if_changed {
                Stage::Watch
            } else {
                Stage::Simulated
            },
            Stage::Watch => if ok {
                Stage::Simulated
            } else {
                Stage::Failed
            },
            Stage::Simulated => if ok {
                Stage::Production
            } else {
                Stage::Failed
            },
            Stage::Production => if ok {
                Stage::Succeeded
            } else {
                Stage::Failed
            },
        };
        outcome
    }
}

impl Builder {
    /// Compile the proto files and execute code generation.
    ///
    /// `default_out_dir` is the output directory that the build environment
    /// names, if it names one. The compile begins where the builder or the
    /// environment names an output directory; the builder's comes first.
    pub fn compile_protos(self, protos: &[&str], includes: &[&str], default_out_dir: Option<&str>)
        -> (result: Result<Compilation, CompileError>)
        ensures
            result is Ok <==> spec_out_root(self@, opt_slice_text(default_out_dir)) is Some,
            result matches Ok(compilation) ==> compilation@ == (CompilationView {
                base: Seq::empty(),
                settings: self@,
                out_root: spec_out_root(self@, opt_slice_text(default_out_dir))->0,
                protos: slice_texts(protos@),
                includes: slice_texts(includes@),
                stage: Stage::CreateSimDir,
            }),
            result matches Err(error) ==> error == CompileError::MissingOutDir,
    {
        let config: Vec<ConfigCall> = Vec::new();
        assert(config_call_views(config@) =~= Seq::empty());
        self.compile_protos_with_config(config, protos, includes, default_out_dir)
    }

    /// Compile the proto files and execute code generation, starting from a
    /// configuration of the caller's own: the one that the calls of `config`
    /// make. The settings of the builder are applied on top of it.
    pub fn compile_protos_with_config(
        self,
        config: Vec<ConfigCall>,
        protos: &[&str],
        includes: &[&str],
        default_out_dir: Option<&str>,
    ) -> (result: Result<Compilation, CompileError>)
        ensures
            result is Ok <==> spec_out_root(self@, opt_slice_text(default_out_dir)) is Some,
            result matches Ok(compilation) ==> compilation@ == (CompilationView {
                base: config_call_views(config@),
                settings: self@,
                out_root: spec_out_root(self@, opt_slice_text(default_out_dir))->0,
                protos: slice_texts(protos@),
                includes: slice_texts(includes@),
                stage: Stage::CreateSimDir,
            }),
            result matches Err(error) ==> error == CompileError::MissingOutDir,
    {
        Compilation::begin(self, config, owned_texts(protos), owned_texts(includes), default_out_dir)
    }
}

/// Simple `.proto` compiling, with the settings of [`configure`].
///
/// `proto_dir` is the directory that the proto file is in; it is the one
/// include directory. `in_cargo` and `default_out_dir` are what the build
/// environment says: whether the build runs under Cargo, and the output
/// directory that it names.
pub fn compile_protos(proto: &str, proto_dir: &str, in_cargo: bool, default_out_dir: Option<&str>)
    -> (result: Result<Compilation, CompileError>)
    ensures
        result is Ok <==> default_out_dir is Some,
        result matches Ok(compilation) ==> compilation@ == (CompilationView {
            base: Seq::empty(),
            settings: default_settings(in_cargo),
            out_root: opt_slice_text(default_out_dir)->0,
            protos: seq![proto@],
            includes: seq![proto_dir@],
            stage: Stage::CreateSimDir,
        }),
        result matches Err(error) ==> error == CompileError::MissingOutDir,
{
    let mut protos: Vec<&str> = Vec::new();
    protos.push(proto);
    let mut includes: Vec<&str> = Vec::new();
    includes.push(proto_dir);
    assert(slice_texts(protos@) =~= seq![proto@]);
    assert(slice_texts(includes@) =~= seq![proto_dir@]);
    configure(in_cargo).compile_protos(protos.as_slice(), includes.as_slice(), default_out_dir)
}

/// The order of a compile. Every step moves the compile forward. The
/// instructions for Cargo are emitted at most once, after the directory was
/// created and before either pass. The simulated pass comes before the
/// production pass, and the production pass is run only where the simulated
/// pass went well. A compile succeeds only through a production pass that went
/// well, and a step that fails ends it.
pub proof fn law_compile_order(stage: Stage, ok: bool, watch: bool)
    ensures
        !spec_ended(stage) ==> spec_rank(spec_next_stage(stage, ok, watch)) > spec_rank(stage),
        spec_ended(stage) ==> spec_next_stage(stage, ok, watch) == stage,
        !spec_ended(stage) && !ok ==> spec_next_stage(stage, ok, watch) == Stage::Failed,
        spec_next_stage(stage, ok, watch) == Stage::Watch ==> stage == Stage::CreateSimDir && ok
            && watch,
        spec_next_stage(stage, ok, watch) == Stage::Simulated ==> ok && (stage == Stage::Watch || (
        stage == Stage::CreateSimDir && !watch)),
        spec_next_stage(stage, ok, watch) == Stage::Production ==> stage == Stage::Simulated
            && ok,
        spec_next_stage(stage, ok, watch) == Stage::Succeeded ==> stage == Stage::Succeeded || (
        stage == Stage::Production && ok),
{
}

/// The steps of a compile depend on the settings, the inputs and the outcomes
/// of the earlier steps, and on nothing else: two compiles that agree in these
/// ask for the same step and move on to the same stage.
pub proof fn law_steps_are_repeatable(first: CompilationView, second: CompilationView, ok: bool)
    requires
        first == second,
    ensures
        spec_action(first) == spec_action(second),
        spec_next_stage(first.stage, ok, first.settings.emit_rerun_if_changed) == spec_next_stage(
            second.stage,
            ok,
            second.settings.emit_rerun_if_changed,
        ),
{
}

/// The two passes of a compile are configured alike. The settings and the
/// output root of both are those of the compile, and only the transport, with
/// the directory that goes with it, tells them apart. The generator of the
/// simulated pass works with the very settings from which the calls for the
/// production builder are made, and the production pass leaves the IDL
/// compiler's configuration as the simulated pass set it, but for the output
/// directory.
pub proof fn law_pass_parity(compilation: CompilationView)
    ensures
        spec_pass_config(compilation, Transport::Simulated) == (GenerationConfigView {
            transport: Transport::Simulated,
            ..spec_pass_config(compilation, Transport::Production)
        }),
        spec_pass_config(compilation, Transport::Simulated).settings == compilation.settings,
        spec_pass_config(compilation, Transport::Production).settings == compilation.settings,
        spec_pass_config(compilation, Transport::Simulated).out_root == compilation.out_root,
        spec_pass_config(compilation, Transport::Production).out_root == compilation.out_root,
        compilation.stage == Stage::Simulated ==> (spec_action(compilation) matches Some(
            ActionView::GenerateSimulated { config_calls, settings, .. },
        ) && settings == compilation.settings && config_calls == compilation.base + seq![
            ConfigCallView::OutDir { root: compilation.out_root, subdir: Some(sim_dir()) },
        ] + spec_settings_calls(compilation.settings)),
        compilation.stage == Stage::Production ==> (spec_action(compilation) matches Some(
            ActionView::GenerateProduction { config_calls, builder_calls, .. },
        ) && builder_calls == spec_builder_calls(compilation.settings) && config_calls == seq![
            ConfigCallView::OutDir { root: compilation.out_root, subdir: None },
        ]),
{
    let first = seq![
        ConfigCallView::OutDir { root: compilation.out_root, subdir: Some(sim_dir()) },
    ];
}

} // verus!
