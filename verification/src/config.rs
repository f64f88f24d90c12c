//! The configuration of one pass, and the calls that bring it about.
//!
//! A compile makes two passes over the same inputs. Each pass has a
//! [`GenerationConfig`]: the settings of the builder, the output root, and
//! the transport that the pass generates for. The IDL compiler and the
//! production builder are configured by calls of their setters; which calls
//! are made, and in what order, is decided here and carried out by the
//! caller.

use crate::builder::{Builder, Settings};
use crate::text::{copy_texts, text_pairs, texts};
use vstd::prelude::*;

verus! {

/// The transport that a pass generates code for.
#[derive(Clone, Copy, PartialEq, Eq, Structural, Debug)]
pub enum Transport {
    /// The deterministic transport for tests. Its code goes below `sim`.
    Simulated,
    /// The real network transport. Its code goes to the output root.
    Production,
}

/// The name of the directory below the output root that holds the code for
/// the simulated transport.
pub open spec fn sim_dir() -> Seq<char> {
    "sim"@
}

/// The directory below the output root that a pass writes to, if it is not
/// the root itself.
pub open spec fn spec_subdir(transport: Transport) -> Option<Seq<char>> {
    match transport {
        Transport::Simulated => Some(sim_dir()),
        Transport::Production => None,
    }
}

/// The directory below the output root that a pass writes to, if it is not
/// the root itself.
pub fn subdir(transport: Transport) -> (name: Option<String>)
    ensures
        crate::text::opt_text(name) == spec_subdir(transport),
{
    match transport {
        Transport::Simulated => Some("sim".to_owned()),
        Transport::Production => None,
    }
}

/// The configuration of one pass.
#[derive(Debug)]
pub struct GenerationConfig {
    /// The settings of the builder that the pass was derived from.
    pub settings: Builder,
    /// The output root of the compile.
    pub out_root: String,
    /// The transport of the pass.
    pub transport: Transport,
}

/// A [`GenerationConfig`] as mathematical values.
pub struct GenerationConfigView {
    pub settings: Settings,
    pub out_root: Seq<char>,
    pub transport: Transport,
}

impl View for GenerationConfig {
    type V = GenerationConfigView;

    open spec fn view(&self) -> GenerationConfigView {
        GenerationConfigView {
            settings: self.settings@,
            out_root: self.out_root@,
            transport: self.transport,
        }
    }
}

/// The configuration of the pass for `transport`, derived from the settings
/// of a builder and the output root.
pub open spec fn spec_derive_config(settings: Settings, out_root: Seq<char>, transport: Transport)
    -> GenerationConfigView {
    GenerationConfigView { settings, out_root, transport }
}

/// Derives the configuration of the pass for `transport`.
pub fn derive_config(builder: &Builder, out_root: &str, transport: Transport) -> (config:
    GenerationConfig)
    ensures
        config@ == spec_derive_config(builder@, out_root@, transport),
{
    GenerationConfig { settings: builder.clone(), out_root: out_root.to_owned(), transport }
}

/// The configurations of the two passes of a compile differ in the transport,
/// which also decides where below the output root the code goes, and in
/// nothing else: every setting and the output root are the same.
pub proof fn law_parity(settings: Settings, out_root: Seq<char>)
    ensures
        spec_derive_config(settings, out_root, Transport::Simulated) == (GenerationConfigView {
            transport: Transport::Simulated,
            ..spec_derive_config(settings, out_root, Transport::Production)
        }),
        spec_derive_config(settings, out_root, Transport::Simulated).settings == settings,
        spec_derive_config(settings, out_root, Transport::Production).settings == settings,
{
}

/// A call of a setter of the IDL compiler's configuration.
#[derive(Debug, PartialEq, Eq)]
pub enum ConfigCall {
    OutDir { root: String, subdir: Option<String> },
    FileDescriptorSetPath(String),
    SkipProtocRun,
    ExternPath(String, String),
    FieldAttribute(String, String),
    TypeAttribute(String, String),
    MessageAttribute(String, String),
    EnumAttribute(String, String),
    Boxed(String),
    BtreeMap(Vec<String>),
    Bytes(Vec<String>),
    CompileWellKnownTypes,
    IncludeFile(String),
    ProtocArg(String),
}

/// A [`ConfigCall`] as mathematical values.
pub enum ConfigCallView {
    OutDir { root: Seq<char>, subdir: Option<Seq<char>> },
    FileDescriptorSetPath(Seq<char>),
    SkipProtocRun,
    ExternPath(Seq<char>, Seq<char>),
    FieldAttribute(Seq<char>, Seq<char>),
    TypeAttribute(Seq<char>, Seq<char>),
    MessageAttribute(Seq<char>, Seq<char>),
    EnumAttribute(Seq<char>, Seq<char>),
    Boxed(Seq<char>),
    BtreeMap(Seq<Seq<char>>),
    Bytes(Seq<Seq<char>>),
    CompileWellKnownTypes,
    IncludeFile(Seq<char>),
    ProtocArg(Seq<char>),
}

impl View for ConfigCall {
    type V = ConfigCallView;

    open spec fn view(&self) -> ConfigCallView {
        match self {
            ConfigCall::OutDir { root, subdir } => ConfigCallView::OutDir {
                root: root@,
                subdir: crate::text::opt_text(*subdir),
            },
            ConfigCall::FileDescriptorSetPath(path) => ConfigCallView::FileDescriptorSetPath(
                path@,
            ),
            ConfigCall::SkipProtocRun => ConfigCallView::SkipProtocRun,
            ConfigCall::ExternPath(a, b) => ConfigCallView::ExternPath(a@, b@),
            ConfigCall::FieldAttribute(a, b) => ConfigCallView::FieldAttribute(a@, b@),
            ConfigCall::TypeAttribute(a, b) => ConfigCallView::TypeAttribute(a@, b@),
            ConfigCall::MessageAttribute(a, b) => ConfigCallView::MessageAttribute(a@, b@),
            ConfigCall::EnumAttribute(a, b) => ConfigCallView::EnumAttribute(a@, b@),
            ConfigCall::Boxed(path) => ConfigCallView::Boxed(path@),
            ConfigCall::BtreeMap(paths) => ConfigCallView::BtreeMap(texts(paths@)),
            ConfigCall::Bytes(paths) => ConfigCallView::Bytes(texts(paths@)),
            ConfigCall::CompileWellKnownTypes => ConfigCallView::CompileWellKnownTypes,
            ConfigCall::IncludeFile(path) => ConfigCallView::IncludeFile(path@),
            ConfigCall::ProtocArg(arg) => ConfigCallView::ProtocArg(arg@),
        }
    }
}

/// The views of a sequence of calls, in order.
pub open spec fn config_call_views(calls: Seq<ConfigCall>) -> Seq<ConfigCallView> {
    Seq::new(calls.len(), |i: int| calls[i]@)
}

impl Clone for ConfigCall {
    fn clone(&self) -> (copy: Self)
        ensures
            copy@ == self@,
    {
        match self {
            ConfigCall::OutDir { root, subdir } => ConfigCall::OutDir {
                root: root.clone(),
                subdir: crate::text::copy_opt_text(subdir),
            },
            ConfigCall::FileDescriptorSetPath(path) => ConfigCall::FileDescriptorSetPath(
                path.clone(),
            ),
            ConfigCall::SkipProtocRun => ConfigCall::SkipProtocRun,
            ConfigCall::ExternPath(a, b) => ConfigCall::ExternPath(a.clone(), b.clone()),
            ConfigCall::FieldAttribute(a, b) => ConfigCall::FieldAttribute(a.clone(), b.clone()),
            ConfigCall::TypeAttribute(a, b) => ConfigCall::TypeAttribute(a.clone(), b.clone()),
            ConfigCall::MessageAttribute(a, b) => ConfigCall::MessageAttribute(
                a.clone(),
                b.clone(),
            ),
            ConfigCall::EnumAttribute(a, b) => ConfigCall::EnumAttribute(a.clone(), b.clone()),
            ConfigCall::Boxed(path) => ConfigCall::Boxed(path.clone()),
            ConfigCall::BtreeMap(paths) => ConfigCall::BtreeMap(copy_texts(paths)),
            ConfigCall::Bytes(paths) => ConfigCall::Bytes(copy_texts(paths)),
            ConfigCall::CompileWellKnownTypes => ConfigCall::CompileWellKnownTypes,
            ConfigCall::IncludeFile(path) => ConfigCall::IncludeFile(path.clone()),
            ConfigCall::ProtocArg(arg) => ConfigCall::ProtocArg(arg.clone()),
        }
    }
}


/// A copy of a list of calls.
pub fn copy_config_calls(calls: &Vec<ConfigCall>) -> (copy: Vec<ConfigCall>)
    ensures
        config_call_views(copy@) == config_call_views(calls@),
{
    let mut copy: Vec<ConfigCall> = Vec::new();
    let mut i: usize = 0;
    while i < calls.len()
        invariant
            i <= calls.len(),
            copy.len() == i,
            forall|j: int| 0 <= j < i ==> copy@[j]@ == calls@[j]@,
        decreases calls.len() - i,
    {
        copy.push(calls[i].clone());
        i += 1;
    }
    copy
}

/// The setters of the configuration that take a path and a value.
#[derive(Clone, Copy, PartialEq, Eq, Structural, Debug)]
pub enum PairSetter {
    ExternPath,
    FieldAttribute,
    TypeAttribute,
    MessageAttribute,
    EnumAttribute,
}

/// The setters of the configuration that take one text.
#[derive(Clone, Copy, PartialEq, Eq, Structural, Debug)]
pub enum TextSetter {
    Boxed,
    ProtocArg,
}

/// The call of `setter` with a path and a value.
pub open spec fn spec_pair_call(setter: PairSetter, path: Seq<char>, value: Seq<char>)
    -> ConfigCallView {
    match setter {
        PairSetter::ExternPath => ConfigCallView::ExternPath(path, value),
        PairSetter::FieldAttribute => ConfigCallView::FieldAttribute(path, value),
        PairSetter::TypeAttribute => ConfigCallView::TypeAttribute(path, value),
        PairSetter::MessageAttribute => ConfigCallView::MessageAttribute(path, value),
        PairSetter::EnumAttribute => ConfigCallView::EnumAttribute(path, value),
    }
}

/// The call of `setter` with a text.
pub open spec fn spec_text_call(setter: TextSetter, text: Seq<char>) -> ConfigCallView {
    match setter {
        TextSetter::Boxed => ConfigCallView::Boxed(text),
        TextSetter::ProtocArg => ConfigCallView::ProtocArg(text),
    }
}

/// One call of `setter` for each pair, in order.
pub open spec fn spec_pair_calls(setter: PairSetter, pairs: Seq<(Seq<char>, Seq<char>)>) -> Seq<
    ConfigCallView,
> {
    Seq::new(pairs.len(), |i: int| spec_pair_call(setter, pairs[i].0, pairs[i].1))
}

/// One call of `setter` for each text, in order.
pub open spec fn spec_text_calls(setter: TextSetter, items: Seq<Seq<char>>) -> Seq<
    ConfigCallView,
> {
    Seq::new(items.len(), |i: int| spec_text_call(setter, items[i]))
}

/// The view of an optional call.
pub open spec fn opt_call_view(call: Option<ConfigCall>) -> Option<ConfigCallView> {
    match call {
        Some(c) => Some(c@),
        None => None,
    }
}

/// The call in `call`, if there is one.
pub open spec fn spec_optional_call(call: Option<ConfigCallView>) -> Seq<ConfigCallView> {
    match call {
        Some(c) => seq![c],
        None => Seq::empty(),
    }
}

/// The call that names the file for the file descriptor set, where one is set.
pub open spec fn spec_descriptor_call(settings: Settings) -> Option<ConfigCallView> {
    match settings.file_descriptor_set_path {
        Some(path) => Some(ConfigCallView::FileDescriptorSetPath(path)),
        None => None,
    }
}

/// The call that keeps `protoc` from running, where that is set.
pub open spec fn spec_skip_call(settings: Settings) -> Option<ConfigCallView> {
    if settings.skip_protoc_run {
        Some(ConfigCallView::SkipProtocRun)
    } else {
        None
    }
}

/// The call that sets the paths of the ordered maps, where they are set.
pub open spec fn spec_btree_map_call(settings: Settings) -> Option<ConfigCallView> {
    match settings.btree_map {
        Some(paths) => Some(ConfigCallView::BtreeMap(paths)),
        None => None,
    }
}

/// The call that sets the paths of the `Bytes` fields, where they are set.
pub open spec fn spec_bytes_call(settings: Settings) -> Option<ConfigCallView> {
    match settings.bytes {
        Some(paths) => Some(ConfigCallView::Bytes(paths)),
        None => None,
    }
}

/// The call that has the well-known types compiled, where that is set.
pub open spec fn spec_well_known_call(settings: Settings) -> Option<ConfigCallView> {
    if settings.compile_well_known_types {
        Some(ConfigCallView::CompileWellKnownTypes)
    } else {
        None
    }
}

/// The call that names the include file, where one is set.
pub open spec fn spec_include_call(settings: Settings) -> Option<ConfigCallView> {
    match settings.include_file {
        Some(path) => Some(ConfigCallView::IncludeFile(path)),
        None => None,
    }
}

/// The calls that carry the settings of a builder over to the IDL compiler's
/// configuration, in the order in which they are made.
pub open spec fn spec_settings_calls(settings: Settings) -> Seq<ConfigCallView> {
    spec_optional_call(spec_descriptor_call(settings)) + spec_optional_call(
        spec_skip_call(settings),
    ) + spec_pair_calls(PairSetter::ExternPath, settings.extern_path) + spec_pair_calls(
        PairSetter::FieldAttribute,
        settings.field_attributes,
    ) + spec_pair_calls(PairSetter::TypeAttribute, settings.type_attributes) + spec_pair_calls(
        PairSetter::MessageAttribute,
        settings.message_attributes,
    ) + spec_pair_calls(PairSetter::EnumAttribute, settings.enum_attributes) + spec_text_calls(
        TextSetter::Boxed,
        settings.boxed,
    ) + spec_optional_call(spec_btree_map_call(settings)) + spec_optional_call(
        spec_bytes_call(settings),
    ) + spec_optional_call(spec_well_known_call(settings)) + spec_optional_call(
        spec_include_call(settings),
    ) + spec_text_calls(TextSetter::ProtocArg, settings.protoc_args)
}

/// The calls that bring the IDL compiler's configuration to a pass.
///
/// The first pass, for the simulated transport, sets the output directory and
/// carries over every setting. The second pass works on the configuration that
/// the first has left: it sets the output directory anew, and every other
/// setting stays as it is.
pub open spec fn spec_config_calls(config: GenerationConfigView) -> Seq<ConfigCallView> {
    let out_dir = ConfigCallView::OutDir {
        root: config.out_root,
        subdir: spec_subdir(config.transport),
    };
    match config.transport {
        Transport::Simulated => seq![out_dir] + spec_settings_calls(config.settings),
        Transport::Production => seq![out_dir],
    }
}

/// The call of `setter` with a path and a value.
pub fn pair_call(setter: PairSetter, path: &str, value: &str) -> (call: ConfigCall)
    ensures
        call@ == spec_pair_call(setter, path@, value@),
{
    let path = path.to_owned();
    let value = value.to_owned();
    match setter {
        PairSetter::ExternPath => ConfigCall::ExternPath(path, value),
        PairSetter::FieldAttribute => ConfigCall::FieldAttribute(path, value),
        PairSetter::TypeAttribute => ConfigCall::TypeAttribute(path, value),
        PairSetter::MessageAttribute => ConfigCall::MessageAttribute(path, value),
        PairSetter::EnumAttribute => ConfigCall::EnumAttribute(path, value),
    }
}

/// The call of `setter` with a text.
pub fn text_call(setter: TextSetter, text: &str) -> (call: ConfigCall)
    ensures
        call@ == spec_text_call(setter, text@),
{
    let text = text.to_owned();
    match setter {
        TextSetter::Boxed => ConfigCall::Boxed(text),
        TextSetter::ProtocArg => ConfigCall::ProtocArg(text),
    }
}

/// Appends one call of `setter` for each pair.
fn push_pair_calls(calls: &mut Vec<ConfigCall>, setter: PairSetter, pairs: &Vec<(String, String)>)
    ensures
        config_call_views(final(calls)@) == config_call_views(old(calls)@) + spec_pair_calls(
            setter,
            text_pairs(pairs@),
        ),
{
    let ghost before = config_call_views(calls@);
    let ghost all = spec_pair_calls(setter, text_pairs(pairs@));
    let mut i: usize = 0;
    while i < pairs.len()
        invariant
            i <= pairs.len(),
            all == spec_pair_calls(setter, text_pairs(pairs@)),
            config_call_views(calls@) == before + all.take(i as int),
        decreases pairs.len() - i,
    {
        let ghost held = config_call_views(calls@);
        let call = pair_call(setter, pairs[i].0.as_str(), pairs[i].1.as_str());
        calls.push(call);
        assert(held.push(call@) =~= before + all.take(i + 1));
        i += 1;
    }
}

/// Appends one call of `setter` for each text.
fn push_text_calls(calls: &mut Vec<ConfigCall>, setter: TextSetter, items: &Vec<String>)
    ensures
        config_call_views(final(calls)@) == config_call_views(old(calls)@) + spec_text_calls(
            setter,
            texts(items@),
        ),
{
    let ghost before = config_call_views(calls@);
    let ghost all = spec_text_calls(setter, texts(items@));
    let mut i: usize = 0;
    while i < items.len()
        invariant
            i <= items.len(),
            all == spec_text_calls(setter, texts(items@)),
            config_call_views(calls@) == before + all.take(i as int),
        decreases items.len() - i,
    {
        let ghost held = config_call_views(calls@);
        let call = text_call(setter, items[i].as_str());
        calls.push(call);
        assert(held.push(call@) =~= before + all.take(i + 1));
        i += 1;
    }
}

/// Appends the call in `call`, if there is one.
fn push_optional_call(calls: &mut Vec<ConfigCall>, call: Option<ConfigCall>)
    ensures
        config_call_views(final(calls)@) == config_call_views(old(calls)@) + spec_optional_call(
            opt_call_view(call),
        ),
{
    match call {
        Some(c) => {
            calls.push(c);
        },
        None => {
        },
    }
}

impl Builder {
    /// The call that names the file for the file descriptor set, where one is
    /// set.
    fn descriptor_call(&self) -> (call: Option<ConfigCall>)
        ensures
            opt_call_view(call) == spec_descriptor_call(self@),
    {
        match &self.file_descriptor_set_path {
            Some(path) => Some(ConfigCall::FileDescriptorSetPath(path.clone())),
            None => None,
        }
    }

    /// The call that keeps `protoc` from running, where that is set.
    fn skip_call(&self) -> (call: Option<ConfigCall>)
        ensures
            opt_call_view(call) == spec_skip_call(self@),
    {
        if self.skip_protoc_run {
            Some(ConfigCall::SkipProtocRun)
        } else {
            None
        }
    }

    /// The call that sets the paths of the ordered maps, where they are set.
    fn btree_map_call(&self) -> (call: Option<ConfigCall>)
        ensures
            opt_call_view(call) == spec_btree_map_call(self@),
    {
        match &self.btree_map {
            Some(paths) => Some(ConfigCall::BtreeMap(copy_texts(paths))),
            None => None,
        }
    }

    /// The call that sets the paths of the `Bytes` fields, where they are set.
    fn bytes_call(&self) -> (call: Option<ConfigCall>)
        ensures
            opt_call_view(call) == spec_bytes_call(self@),
    {
        match &self.bytes {
            Some(paths) => Some(ConfigCall::Bytes(copy_texts(paths))),
            None => None,
        }
    }

    /// The call that has the well-known types compiled, where that is set.
    fn well_known_call(&self) -> (call: Option<ConfigCall>)
        ensures
            opt_call_view(call) == spec_well_known_call(self@),
    {
        if self.compile_well_known_types {
            Some(ConfigCall::CompileWellKnownTypes)
        } else {
            None
        }
    }

    /// The call that names the include file, where one is set.
    fn include_call(&self) -> (call: Option<ConfigCall>)
        ensures
            opt_call_view(call) == spec_include_call(self@),
    {
        match &self.include_file {
            Some(path) => Some(ConfigCall::IncludeFile(path.clone())),
            None => None,
        }
    }

    /// The calls that carry the settings over to the IDL compiler's
    /// configuration, in the order in which they are to be made.
    pub fn settings_calls(&self) -> (calls: Vec<ConfigCall>)
        ensures
            config_call_views(calls@) == spec_settings_calls(self@),
    {
        let mut calls: Vec<ConfigCall> = Vec::new();
        push_optional_call(&mut calls, self.descriptor_call());
        push_optional_call(&mut calls, self.skip_call());
        push_pair_calls(&mut calls, PairSetter::ExternPath, &self.extern_path);
        push_pair_calls(&mut calls, PairSetter::FieldAttribute, &self.field_attributes);
        push_pair_calls(&mut calls, PairSetter::TypeAttribute, &self.type_attributes);
        push_pair_calls(&mut calls, PairSetter::MessageAttribute, &self.message_attributes);
        push_pair_calls(&mut calls, PairSetter::EnumAttribute, &self.enum_attributes);
        push_text_calls(&mut calls, TextSetter::Boxed, &self.boxed);
        push_optional_call(&mut calls, self.btree_map_call());
        push_optional_call(&mut calls, self.bytes_call());
        push_optional_call(&mut calls, self.well_known_call());
        push_optional_call(&mut calls, self.include_call());
        push_text_calls(&mut calls, TextSetter::ProtocArg, &self.protoc_args);
        calls
    }
}

impl GenerationConfig {
    /// The calls that bring the IDL compiler's configuration to this pass, in
    /// the order in which they are to be made.
    pub fn config_calls(&self) -> (calls: Vec<ConfigCall>)
        ensures
            config_call_views(calls@) == spec_config_calls(self@),
    {
        let mut calls: Vec<ConfigCall> = Vec::new();
        calls.push(
            ConfigCall::OutDir { root: self.out_root.clone(), subdir: subdir(self.transport) },
        );
        match self.transport {
            Transport::Simulated => {
                let mut more = self.settings.settings_calls();
                calls.append(&mut more);
            },
            Transport::Production => {},
        }
        calls
    }
}

} // verus!
