//! The production builder: the generator for the real transport, which runs
//! the second pass. It is set up by calls of its setters, one for each
//! setting that it shares with this library's builder.

use crate::builder::{Builder, Settings};
use crate::text::{text_pairs, texts};
use vstd::prelude::*;

verus! {

/// A call of a setter of the production builder.
#[derive(Debug, PartialEq, Eq)]
pub enum BuilderCall {
    BuildClient(bool),
    BuildServer(bool),
    BuildTransport(bool),
    OutDir(String),
    ServerModAttribute(String, String),
    ServerAttribute(String, String),
    ClientModAttribute(String, String),
    ClientAttribute(String, String),
    ProtoPath(String),
    /// One call of `disable_comments` for each path.
    DisableComments(Vec<String>),
    UseArcSelf(bool),
    DisablePackageEmission,
    CompileWellKnownTypes(bool),
    GenerateDefaultStubs(bool),
    EmitRerunIfChanged(bool),
}

/// A [`BuilderCall`] as mathematical values.
pub enum BuilderCallView {
    BuildClient(bool),
    BuildServer(bool),
    BuildTransport(bool),
    OutDir(Seq<char>),
    ServerModAttribute(Seq<char>, Seq<char>),
    ServerAttribute(Seq<char>, Seq<char>),
    ClientModAttribute(Seq<char>, Seq<char>),
    ClientAttribute(Seq<char>, Seq<char>),
    ProtoPath(Seq<char>),
    DisableComments(Set<Seq<char>>),
    UseArcSelf(bool),
    DisablePackageEmission,
    CompileWellKnownTypes(bool),
    GenerateDefaultStubs(bool),
    EmitRerunIfChanged(bool),
}

impl View for BuilderCall {
    type V = BuilderCallView;

    open spec fn view(&self) -> BuilderCallView {
        match self {
            BuilderCall::BuildClient(enable) => BuilderCallView::BuildClient(*enable),
            BuilderCall::BuildServer(enable) => BuilderCallView::BuildServer(*enable),
            BuilderCall::BuildTransport(enable) => BuilderCallView::BuildTransport(*enable),
            BuilderCall::OutDir(path) => BuilderCallView::OutDir(path@),
            BuilderCall::ServerModAttribute(a, b) => BuilderCallView::ServerModAttribute(a@, b@),
            BuilderCall::ServerAttribute(a, b) => BuilderCallView::ServerAttribute(a@, b@),
            BuilderCall::ClientModAttribute(a, b) => BuilderCallView::ClientModAttribute(a@, b@),
            BuilderCall::ClientAttribute(a, b) => BuilderCallView::ClientAttribute(a@, b@),
            BuilderCall::ProtoPath(path) => BuilderCallView::ProtoPath(path@),
            BuilderCall::DisableComments(paths) => BuilderCallView::DisableComments(
                texts(paths@).to_set(),
            ),
            BuilderCall::UseArcSelf(enable) => BuilderCallView::UseArcSelf(*enable),
            BuilderCall::DisablePackageEmission => BuilderCallView::DisablePackageEmission,
            BuilderCall::CompileWellKnownTypes(enable) => BuilderCallView::CompileWellKnownTypes(
                *enable,
            ),
            BuilderCall::GenerateDefaultStubs(enable) => BuilderCallView::GenerateDefaultStubs(
                *enable,
            ),
            BuilderCall::EmitRerunIfChanged(enable) => BuilderCallView::EmitRerunIfChanged(
                *enable,
            ),
        }
    }
}

/// The views of a sequence of calls, in order.
pub open spec fn builder_call_views(calls: Seq<BuilderCall>) -> Seq<BuilderCallView> {
    Seq::new(calls.len(), |i: int| calls[i]@)
}

/// The setters of the production builder that add an attribute.
#[derive(Clone, Copy, PartialEq, Eq, Structural, Debug)]
pub enum AttributeSetter {
    ServerMod,
    Server,
    ClientMod,
    Client,
}

/// The call of `setter` with a pattern and an attribute.
pub open spec fn spec_attribute_call(
    setter: AttributeSetter,
    pattern: Seq<char>,
    attribute: Seq<char>,
) -> BuilderCallView {
    match setter {
        AttributeSetter::ServerMod => BuilderCallView::ServerModAttribute(pattern, attribute),
        AttributeSetter::Server => BuilderCallView::ServerAttribute(pattern, attribute),
        AttributeSetter::ClientMod => BuilderCallView::ClientModAttribute(pattern, attribute),
        AttributeSetter::Client => BuilderCallView::ClientAttribute(pattern, attribute),
    }
}

/// One call of `setter` for each entry, in order.
pub open spec fn spec_attribute_calls(
    setter: AttributeSetter,
    entries: Seq<(Seq<char>, Seq<char>)>,
) -> Seq<BuilderCallView> {
    Seq::new(entries.len(), |i: int| spec_attribute_call(setter, entries[i].0, entries[i].1))
}

/// The call that sets the output directory, where the builder names one.
pub open spec fn spec_out_dir_calls(settings: Settings) -> Seq<BuilderCallView> {
    match settings.out_dir {
        Some(path) => seq![BuilderCallView::OutDir(path)],
        None => Seq::empty(),
    }
}

/// The call that drops the package from the endpoints, where that is set.
pub open spec fn spec_package_calls(settings: Settings) -> Seq<BuilderCallView> {
    if settings.emit_package {
        Seq::empty()
    } else {
        seq![BuilderCallView::DisablePackageEmission]
    }
}

/// The calls that set the production builder up with the settings that it
/// shares with this library's builder. The instructions for Cargo are emitted
/// once for both passes, so the production builder is told not to emit them.
pub open spec fn spec_builder_calls(settings: Settings) -> Seq<BuilderCallView> {
    seq![
        BuilderCallView::BuildClient(settings.build_client),
        BuilderCallView::BuildServer(settings.build_server),
        BuilderCallView::BuildTransport(settings.build_transport),
    ] + spec_out_dir_calls(settings) + spec_attribute_calls(
        AttributeSetter::ServerMod,
        settings.server_attributes.module,
    ) + spec_attribute_calls(AttributeSetter::Server, settings.server_attributes.structure)
        + spec_attribute_calls(AttributeSetter::ClientMod, settings.client_attributes.module)
        + spec_attribute_calls(AttributeSetter::Client, settings.client_attributes.structure)
        + seq![
        BuilderCallView::ProtoPath(settings.proto_path),
        BuilderCallView::DisableComments(settings.disable_comments),
        BuilderCallView::UseArcSelf(settings.use_arc_self),
    ] + spec_package_calls(settings) + seq![
        BuilderCallView::CompileWellKnownTypes(settings.compile_well_known_types),
        BuilderCallView::GenerateDefaultStubs(settings.generate_default_stubs),
        BuilderCallView::EmitRerunIfChanged(false),
    ]
}

/// The call of `setter` with a pattern and an attribute.
pub fn attribute_call(setter: AttributeSetter, pattern: &str, attribute: &str) -> (call:
    BuilderCall)
    ensures
        call@ == spec_attribute_call(setter, pattern@, attribute@),
{
    let pattern = pattern.to_owned();
    let attribute = attribute.to_owned();
    match setter {
        AttributeSetter::ServerMod => BuilderCall::ServerModAttribute(pattern, attribute),
        AttributeSetter::Server => BuilderCall::ServerAttribute(pattern, attribute),
        AttributeSetter::ClientMod => BuilderCall::ClientModAttribute(pattern, attribute),
        AttributeSetter::Client => BuilderCall::ClientAttribute(pattern, attribute),
    }
}

/// Appends one call of `setter` for each entry.
fn push_attribute_calls(
    calls: &mut Vec<BuilderCall>,
    setter: AttributeSetter,
    entries: &Vec<(String, String)>,
)
    ensures
        builder_call_views(final(calls)@) == builder_call_views(old(calls)@)
            + spec_attribute_calls(setter, text_pairs(entries@)),
{
    let ghost before = builder_call_views(calls@);
    let ghost all = spec_attribute_calls(setter, text_pairs(entries@));
    let mut i: usize = 0;
    while i < entries.len()
        invariant
            i <= entries.len(),
            all == spec_attribute_calls(setter, text_pairs(entries@)),
            builder_call_views(calls@) == before + all.take(i as int),
        decreases entries.len() - i,
    {
        let ghost held = builder_call_views(calls@);
        let call = attribute_call(setter, entries[i].0.as_str(), entries[i].1.as_str());
        calls.push(call);
        assert(held.push(call@) =~= before + all.take(i + 1));
        i += 1;
    }
}

/// Appends the calls in `more`.
fn push_calls(calls: &mut Vec<BuilderCall>, more: Vec<BuilderCall>)
    ensures
        builder_call_views(final(calls)@) == builder_call_views(old(calls)@) + builder_call_views(
            more@,
        ),
{
    let mut more = more;
    calls.append(&mut more);
}

impl Builder {
    /// The call that sets the output directory, where the builder names one.
    fn out_dir_calls(&self) -> (calls: Vec<BuilderCall>)
        ensures
            builder_call_views(calls@) == spec_out_dir_calls(self@),
    {
        let mut calls: Vec<BuilderCall> = Vec::new();
        if let Some(path) = &self.out_dir {
            calls.push(BuilderCall::OutDir(path.clone()));
        }
        calls
    }

    /// The call that drops the package from the endpoints, where that is set.
    fn package_calls(&self) -> (calls: Vec<BuilderCall>)
        ensures
            builder_call_views(calls@) == spec_package_calls(self@),
    {
        let mut calls: Vec<BuilderCall> = Vec::new();
        if !self.emit_package {
            calls.push(BuilderCall::DisablePackageEmission);
        }
        calls
    }

    /// The calls that set the production builder up with the settings that it
    /// shares with this builder, in the order in which they are to be made.
    pub fn builder_calls(&self) -> (calls: Vec<BuilderCall>)
        ensures
            builder_call_views(calls@) == spec_builder_calls(self@),
    {
        let mut calls: Vec<BuilderCall> = Vec::new();
        calls.push(BuilderCall::BuildClient(self.build_client));
        calls.push(BuilderCall::BuildServer(self.build_server));
        calls.push(BuilderCall::BuildTransport(self.build_transport));
        push_calls(&mut calls, self.out_dir_calls());
        push_attribute_calls(&mut calls, AttributeSetter::ServerMod, &self.server_attributes.module);
        push_attribute_calls(
            &mut calls,
            AttributeSetter::Server,
            &self.server_attributes.structure,
        );
        push_attribute_calls(&mut calls, AttributeSetter::ClientMod, &self.client_attributes.module);
        push_attribute_calls(
            &mut calls,
            AttributeSetter::Client,
            &self.client_attributes.structure,
        );
        let mut middle: Vec<BuilderCall> = Vec::new();
        middle.push(BuilderCall::ProtoPath(self.proto_path.clone()));
        middle.push(BuilderCall::DisableComments(self.disable_comments.to_vec()));
        middle.push(BuilderCall::UseArcSelf(self.use_arc_self));
        push_calls(&mut calls, middle);
        push_calls(&mut calls, self.package_calls());
        let mut last: Vec<BuilderCall> = Vec::new();
        last.push(BuilderCall::CompileWellKnownTypes(self.compile_well_known_types));
        last.push(BuilderCall::GenerateDefaultStubs(self.generate_default_stubs));
        last.push(BuilderCall::EmitRerunIfChanged(false));
        push_calls(&mut calls, last);
        calls
    }
}

} // verus!
