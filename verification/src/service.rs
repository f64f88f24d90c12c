//! Services and methods as the IDL compiler describes them, and the adapter
//! through which code generation reads them.

use crate::resolve::{resolve, spec_resolution_rule, spec_resolve, ResolutionRule, ResolveError};
use crate::text::{copy_texts, texts};
use crate::tokens::{stream_tokens, Token};
use proc_macro2::TokenStream;
use vstd::prelude::*;

verus! {

/// A service method as the IDL compiler describes it.
#[derive(Debug, PartialEq, Eq)]
pub struct MethodDescription {
    /// The name of the method in Rust style.
    pub name: String,
    /// The name of the method as it appears in the proto file.
    pub proto_name: String,
    /// The comments that lead the method.
    pub leading_comments: Vec<String>,
    /// The input Rust type.
    pub input_type: String,
    /// The output Rust type.
    pub output_type: String,
    /// The input Protobuf type.
    pub input_proto_type: String,
    /// The output Protobuf type.
    pub output_proto_type: String,
    /// Whether the client streams several messages.
    pub client_streaming: bool,
    /// Whether the server streams several messages.
    pub server_streaming: bool,
}

/// A [`MethodDescription`] as mathematical values.
pub struct MethodView {
    pub name: Seq<char>,
    pub proto_name: Seq<char>,
    pub leading_comments: Seq<Seq<char>>,
    pub input_type: Seq<char>,
    pub output_type: Seq<char>,
    pub input_proto_type: Seq<char>,
    pub output_proto_type: Seq<char>,
    pub client_streaming: bool,
    pub server_streaming: bool,
}

impl View for MethodDescription {
    type V = MethodView;

    open spec fn view(&self) -> MethodView {
        MethodView {
            name: self.name@,
            proto_name: self.proto_name@,
            leading_comments: texts(self.leading_comments@),
            input_type: self.input_type@,
            output_type: self.output_type@,
            input_proto_type: self.input_proto_type@,
            output_proto_type: self.output_proto_type@,
            client_streaming: self.client_streaming,
            server_streaming: self.server_streaming,
        }
    }
}

impl Clone for MethodDescription {
    fn clone(&self) -> (copy: Self)
        ensures
            copy@ == self@,
    {
        MethodDescription {
            name: self.name.clone(),
            proto_name: self.proto_name.clone(),
            leading_comments: copy_texts(&self.leading_comments),
            input_type: self.input_type.clone(),
            output_type: self.output_type.clone(),
            input_proto_type: self.input_proto_type.clone(),
            output_proto_type: self.output_proto_type.clone(),
            client_streaming: self.client_streaming,
            server_streaming: self.server_streaming,
        }
    }
}


/// A service as the IDL compiler describes it.
#[derive(Debug, PartialEq, Eq)]
pub struct ServiceDescription {
    /// The service name in Rust style.
    pub name: String,
    /// The service name as it appears in the proto file.
    pub proto_name: String,
    /// The package name as it appears in the proto file.
    pub package: String,
    /// The comments that lead the service.
    pub leading_comments: Vec<String>,
    /// The methods in the order in which the proto file declares them.
    pub methods: Vec<MethodDescription>,
}

/// A [`ServiceDescription`] as mathematical values.
pub struct ServiceView {
    pub name: Seq<char>,
    pub proto_name: Seq<char>,
    pub package: Seq<char>,
    pub leading_comments: Seq<Seq<char>>,
    pub methods: Seq<MethodView>,
}

/// The views of a sequence of method descriptions, in order.
pub open spec fn method_views(methods: Seq<MethodDescription>) -> Seq<MethodView> {
    Seq::new(methods.len(), |i: int| methods[i]@)
}

impl View for ServiceDescription {
    type V = ServiceView;

    open spec fn view(&self) -> ServiceView {
        ServiceView {
            name: self.name@,
            proto_name: self.proto_name@,
            package: self.package@,
            leading_comments: texts(self.leading_comments@),
            methods: method_views(self.methods@),
        }
    }
}

/// The tokens of the request type of a method, or `None` where the type does
/// not resolve.
pub open spec fn spec_request_name(
    method: MethodView,
    proto_path: Seq<char>,
    compile_well_known_types: bool,
) -> Option<Seq<Token>> {
    spec_resolve(method.input_proto_type, method.input_type, compile_well_known_types, proto_path)
}

/// The tokens of the response type of a method, or `None` where the type does
/// not resolve.
pub open spec fn spec_response_name(
    method: MethodView,
    proto_path: Seq<char>,
    compile_well_known_types: bool,
) -> Option<Seq<Token>> {
    spec_resolve(
        method.output_proto_type,
        method.output_type,
        compile_well_known_types,
        proto_path,
    )
}

/// The rule of the half that an error of `request_response_name` is about: of
/// the request where that does not resolve, else of the response.
pub open spec fn spec_failing_rule(
    method: MethodView,
    proto_path: Seq<char>,
    compile_well_known_types: bool,
) -> ResolutionRule {
    if spec_request_name(method, proto_path, compile_well_known_types) is None {
        spec_resolution_rule(method.input_proto_type, method.input_type, compile_well_known_types)
    } else {
        spec_resolution_rule(
            method.output_proto_type,
            method.output_type,
            compile_well_known_types,
        )
    }
}

/// What code generation reads of a method. Every answer is given from the
/// method's description.
pub trait Method {
    /// The description that the method answers from.
    spec fn description(&self) -> MethodView;

    /// Name of the method.
    fn name(&self) -> (name: &str)
        ensures
            name@ == self.description().name,
    ;

    /// Identifier used to generate the type name.
    fn identifier(&self) -> (identifier: &str)
        ensures
            identifier@ == self.description().proto_name,
    ;

    /// Whether the method is streamed by the client.
    fn client_streaming(&self) -> (streaming: bool)
        ensures
            streaming == self.description().client_streaming,
    ;

    /// Whether the method is streamed by the server.
    fn server_streaming(&self) -> (streaming: bool)
        ensures
            streaming == self.description().server_streaming,
    ;

    /// The comments on the method.
    fn comment(&self) -> (comment: &[String])
        ensures
            texts(comment@) == self.description().leading_comments,
    ;

    /// The references to the request type and to the response type.
    ///
    /// Each half is resolved by itself, the request first. The pair is
    /// returned where both resolve; otherwise the error of the first half
    /// that does not.
    fn request_response_name(&self, proto_path: &str, compile_well_known_types: bool) -> (result:
        Result<(TokenStream, TokenStream), ResolveError>)
        ensures
            result is Ok <==> spec_request_name(
                self.description(),
                proto_path@,
                compile_well_known_types,
            ) is Some && spec_response_name(
                self.description(),
                proto_path@,
                compile_well_known_types,
            ) is Some,
            result matches Ok(names) ==> Some(stream_tokens(names.0)) == spec_request_name(
                self.description(),
                proto_path@,
                compile_well_known_types,
            ) && Some(stream_tokens(names.1)) == spec_response_name(
                self.description(),
                proto_path@,
                compile_well_known_types,
            ),
            result matches Err(error) ==> (error is Lex <==> spec_failing_rule(
                self.description(),
                proto_path@,
                compile_well_known_types,
            ) == ResolutionRule::Verbatim),
    ;
}

/// What code generation reads of a service. Every answer is given from the
/// service's description.
pub trait Service {
    /// The methods of the service.
    type Method: Method;

    /// The description that the service answers from.
    spec fn description(&self) -> ServiceView;

    /// Name of the service.
    fn name(&self) -> (name: &str)
        ensures
            name@ == self.description().name,
    ;

    /// Package name of the service.
    fn package(&self) -> (package: &str)
        ensures
            package@ == self.description().package,
    ;

    /// Identifier used to generate the type name.
    fn identifier(&self) -> (identifier: &str)
        ensures
            identifier@ == self.description().proto_name,
    ;

    /// The comments on the service.
    fn comment(&self) -> (comment: &[String])
        ensures
            texts(comment@) == self.description().leading_comments,
    ;

    /// The methods of the service, in the order of their declaration.
    fn methods(&self) -> (methods: &[Self::Method])
        ensures
            methods@.len() == self.description().methods.len(),
            forall|i: int|
                0 <= i < methods@.len() ==> (#[trigger] methods@[i]).description()
                    == self.description().methods[i],
    ;
}

/// A method of a service, as code generation reads it.
#[derive(Debug, PartialEq, Eq)]
pub struct TonicBuildMethod {
    pub method: MethodDescription,
}

impl View for TonicBuildMethod {
    type V = MethodView;

    open spec fn view(&self) -> MethodView {
        self.method@
    }
}

impl Method for TonicBuildMethod {
    open spec fn description(&self) -> MethodView {
        self@
    }

    fn name(&self) -> (name: &str) {
        self.method.name.as_str()
    }

    fn identifier(&self) -> (identifier: &str) {
        self.method.proto_name.as_str()
    }

    fn client_streaming(&self) -> (streaming: bool) {
        self.method.client_streaming
    }

    fn server_streaming(&self) -> (streaming: bool) {
        self.method.server_streaming
    }

    fn comment(&self) -> (comment: &[String]) {
        self.method.leading_comments.as_slice()
    }

    fn request_response_name(&self, proto_path: &str, compile_well_known_types: bool) -> (result:
        Result<(TokenStream, TokenStream), ResolveError>) {
        let request = resolve(
            self.method.input_proto_type.as_str(),
            self.method.input_type.as_str(),
            compile_well_known_types,
            proto_path,
        );
        match request {
            Err(error) => Err(error),
            Ok(request) => {
                let response = resolve(
                    self.method.output_proto_type.as_str(),
                    self.method.output_type.as_str(),
                    compile_well_known_types,
                    proto_path,
                );
                match response {
                    Err(error) => Err(error),
                    Ok(response) => Ok((request, response)),
                }
            },
        }
    }
}

/// The views of a sequence of adapted methods, in order.
pub open spec fn adapted_views(methods: Seq<TonicBuildMethod>) -> Seq<MethodView> {
    Seq::new(methods.len(), |i: int| methods[i]@)
}

/// A service, as code generation reads it. Nothing is cached: every call
/// answers from the description.
#[derive(Debug, PartialEq, Eq)]
pub struct TonicBuildService {
    service: ServiceDescription,
    methods: Vec<TonicBuildMethod>,
}

impl View for TonicBuildService {
    type V = ServiceView;

    closed spec fn view(&self) -> ServiceView {
        self.service@
    }
}

impl TonicBuildService {
    #[verifier::type_invariant]
    spec fn methods_follow_description(self) -> bool {
        adapted_views(self.methods@) == self.service@.methods
    }

    /// Adapts a service description. The methods keep their order.
    pub fn new(service: ServiceDescription) -> (adapter: Self)
        ensures
            adapter@ == service@,
            adapter.description() == service@,
    {
        let mut methods: Vec<TonicBuildMethod> = Vec::new();
        let mut i: usize = 0;
        while i < service.methods.len()
            invariant
                i <= service.methods.len(),
                methods.len() == i,
                forall|j: int| 0 <= j < i ==> methods@[j]@ == service.methods@[j]@,
            decreases service.methods.len() - i,
        {
            methods.push(TonicBuildMethod { method: service.methods[i].clone() });
            i += 1;
        }
        assert(adapted_views(methods@) =~= service@.methods);
        TonicBuildService { service, methods }
    }
}

impl Service for TonicBuildService {
    type Method = TonicBuildMethod;

    closed spec fn description(&self) -> ServiceView {
        self@
    }

    fn name(&self) -> (name: &str) {
        self.service.name.as_str()
    }

    fn package(&self) -> (package: &str) {
        self.service.package.as_str()
    }

    fn identifier(&self) -> (identifier: &str) {
        self.service.proto_name.as_str()
    }

    fn comment(&self) -> (comment: &[String]) {
        self.service.leading_comments.as_slice()
    }

    fn methods(&self) -> (methods: &[TonicBuildMethod]) {
        proof {
            use_type_invariant(self);
        }
        let methods = self.methods.as_slice();
        assert forall|i: int| 0 <= i < methods@.len() implies (#[trigger] methods@[i]).description()
            == self.description().methods[i] by {
        }
        methods
    }
}

/// The requested order of a sequence: its item `order[i]` at place `i`.
pub open spec fn reordered<T>(items: Seq<T>, order: Seq<int>) -> Seq<T> {
    Seq::new(order.len(), |i: int| items[order[i]])
}

/// The request and response names of the methods of a service, in the order
/// of the methods.
pub open spec fn spec_method_names(
    methods: Seq<MethodView>,
    proto_path: Seq<char>,
    compile_well_known_types: bool,
) -> Seq<(Option<Seq<Token>>, Option<Seq<Token>>)> {
    Seq::new(
        methods.len(),
        |i: int|
            (
                spec_request_name(methods[i], proto_path, compile_well_known_types),
                spec_response_name(methods[i], proto_path, compile_well_known_types),
            ),
    )
}

/// Methods are read in the order of their declaration: where the declarations
/// are put into another order, the resolved names come in that order too,
/// whatever the settings of the pass are.
pub proof fn law_methods_keep_declaration_order(
    methods: Seq<MethodView>,
    order: Seq<int>,
    proto_path: Seq<char>,
    compile_well_known_types: bool,
)
    requires
        forall|i: int| 0 <= i < order.len() ==> 0 <= #[trigger] order[i] < methods.len(),
    ensures
        spec_method_names(reordered(methods, order), proto_path, compile_well_known_types)
            == reordered(
            spec_method_names(methods, proto_path, compile_well_known_types),
            order,
        ),
{
}

} // verus!
