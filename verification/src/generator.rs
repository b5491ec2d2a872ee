//! The code generator: from a protobuf service descriptor it emits the
//! client struct, the server trait and its router builders as Rust source
//! text, splicing in the request extractors selected for the service.

use vstd::prelude::*;
use vstd::string::StringExecFns;
use crate::error::spec_meta_view_of;
use crate::path_map::{spec_matched_indices, ProtoPathMap};

verus! {

/// One method of a protobuf service, as the descriptor gives it.
#[derive(Debug)]
pub struct MethodDescriptor {
    /// The method's local (snake-case) name.
    pub name: String,
    /// The method's name as written in the proto file.
    pub proto_name: String,
    /// The Rust path of the input type.
    pub input_type: String,
    /// The Rust path of the output type.
    pub output_type: String,
    /// Whether the client sends a stream of inputs.
    pub client_streaming: bool,
    /// Whether the server answers with a stream of outputs.
    pub server_streaming: bool,
    /// Whether the method is marked deprecated.
    pub deprecated: bool,
    /// The leading documentation lines.
    pub comments: Vec<String>,
}

/// A protobuf service, as the descriptor gives it.
#[derive(Debug)]
pub struct ServiceDescriptor {
    /// The service's local name.
    pub name: String,
    /// The service's name as written in the proto file.
    pub proto_name: String,
    /// The proto package the service stands in.
    pub package: String,
    /// Whether the service is marked deprecated.
    pub deprecated: bool,
    /// The leading documentation lines.
    pub comments: Vec<String>,
    /// The service's methods.
    pub methods: Vec<MethodDescriptor>,
}

/// The fully-qualified proto path of a service: `.<package>.<proto_name>`.
pub open spec fn spec_service_fq(package: Seq<char>, proto_name: Seq<char>) -> Seq<char> {
    seq!['.'] + package + seq!['.'] + proto_name
}

impl<T> ProtoPathMap<T> {
    /// The values of the matchers matching the service's fully-qualified
    /// proto path, in insertion order.
    pub fn service_matches(&self, service: &ServiceDescriptor) -> (r: Vec<&T>)
        ensures
            ({
                let fq = spec_service_fq(service.package@, service.proto_name@);
                let idx = spec_matched_indices(self.matchers@, fq);
                &&& r@.len() == idx.len()
                &&& forall|k: int|
                    0 <= k < idx.len() ==> 0 <= #[trigger] idx[k] < self.matchers@.len()
                        && *r@[k] == self.matchers@[idx[k]].1
            }),
    {
        let fq = String::from_str(".").concat(service.package.as_str()).concat(".").concat(
            service.proto_name.as_str(),
        );
        proof {
            reveal_strlit(".");
            assert("."@ =~= seq!['.']);
            assert(fq@ =~= spec_service_fq(service.package@, service.proto_name@));
        }
        self.fq_path_matches(fq.as_str())
    }
}

/// Generates the Twirp bindings for the services handed to a protobuf
/// build. Client and server are off until chosen; extractors add typed
/// parameters derived from the request parts to the server trait's methods.
pub struct TwirpServiceGenerator {
    /// Whether client code is generated.
    pub client: bool,
    /// Whether server code is generated.
    pub server: bool,
    /// Whether gRPC code is generated alongside Twirp.
    pub grpc: bool,
    /// The extractors every service gets, as (argument name, type) pairs.
    pub default_request_extractors: Vec<(String, String)>,
    /// The extractors of services matched by proto path; a match replaces
    /// the default list outright.
    pub matched_request_extractors: ProtoPathMap<(String, String)>,
}

impl Default for TwirpServiceGenerator {
    /// A generator with nothing enabled and no extractors.
    fn default() -> (r: Self)
        ensures
            !r.client && !r.server && !r.grpc,
            r.default_request_extractors@.len() == 0,
            r.matched_request_extractors.matchers@.len() == 0,
    {
        TwirpServiceGenerator {
            client: false,
            server: false,
            grpc: false,
            default_request_extractors: Vec::new(),
            matched_request_extractors: ProtoPathMap { matchers: Vec::new() },
        }
    }
}

impl TwirpServiceGenerator {
    /// A generator with nothing enabled and no extractors.
    pub fn new() -> (r: Self)
        ensures
            !r.client && !r.server && !r.grpc,
            r.default_request_extractors@.len() == 0,
            r.matched_request_extractors.matchers@.len() == 0,
    {
        Self::default()
    }

    /// Enables client generation.
    pub fn with_client(self) -> (r: Self)
        ensures
            r == (TwirpServiceGenerator { client: true, ..self }),
    {
        TwirpServiceGenerator { client: true, ..self }
    }

    /// Enables server generation.
    pub fn with_server(self) -> (r: Self)
        ensures
            r == (TwirpServiceGenerator { server: true, ..self }),
    {
        TwirpServiceGenerator { server: true, ..self }
    }

    /// Enables gRPC generation alongside Twirp.
    pub fn with_grpc(self) -> (r: Self)
        ensures
            r == (TwirpServiceGenerator { grpc: true, ..self }),
    {
        TwirpServiceGenerator { grpc: true, ..self }
    }

    /// Adds an extractor parameter to every service's server methods.
    pub fn with_default_axum_request_extractor(self, name: String, extractor_type: String) -> (r: Self)
        ensures
            r.client == self.client && r.server == self.server && r.grpc == self.grpc,
            r.default_request_extractors@ == self.default_request_extractors@.push(
                (name, extractor_type),
            ),
            r.matched_request_extractors == self.matched_request_extractors,
    {
        let mut this = self;
        this.default_request_extractors.push((name, extractor_type));
        this
    }

    /// Adds an extractor parameter to the server methods of the services
    /// matching the given proto path. A match replaces any default
    /// extractors for that service; it does not add to them.
    pub fn with_service_specific_axum_request_extractor(
        self,
        name: String,
        extractor_type: String,
        service_proto_path: String,
    ) -> (r: Self)
        ensures
            r.client == self.client && r.server == self.server && r.grpc == self.grpc,
            r.default_request_extractors@ == self.default_request_extractors@,
            r.matched_request_extractors.matchers@
                == self.matched_request_extractors.matchers@.push(
                (service_proto_path, (name, extractor_type)),
            ),
    {
        let mut this = self;
        this.matched_request_extractors.insert(service_proto_path, (name, extractor_type));
        this
    }

    /// The extractor list of a service: the service-specific matches when
    /// there are any, in insertion order, and the defaults otherwise. A
    /// non-empty match replaces the default list outright.
    pub fn select_extractors(&self, service: &ServiceDescriptor) -> (r: Vec<(String, String)>)
        ensures
            ({
                let fq = spec_service_fq(service.package@, service.proto_name@);
                let idx = spec_matched_indices(self.matched_request_extractors.matchers@, fq);
                if idx.len() > 0 {
                    spec_meta_view_of(r@) == Seq::new(
                        idx.len(),
                        |k: int|
                            (
                                self.matched_request_extractors.matchers@[idx[k]].1.0@,
                                self.matched_request_extractors.matchers@[idx[k]].1.1@,
                            ),
                    )
                } else {
                    spec_meta_view_of(r@) == spec_meta_view_of(self.default_request_extractors@)
                }
            }),
    {
        let matches = self.matched_request_extractors.service_matches(service);
        let ghost fq = spec_service_fq(service.package@, service.proto_name@);
        let ghost idx = spec_matched_indices(self.matched_request_extractors.matchers@, fq);
        if matches.len() > 0 {
            let mut out: Vec<(String, String)> = Vec::new();
            let n = matches.len();
            let mut i: usize = 0;
            while i < n
                invariant
                    n == matches.len(),
                    i <= n,
                    n == idx.len(),
                    forall|k: int|
                        0 <= k < idx.len() ==> 0 <= #[trigger] idx[k]
                            < self.matched_request_extractors.matchers@.len() && *matches@[k]
                            == self.matched_request_extractors.matchers@[idx[k]].1,
                    out@.len() == i,
                    forall|k: int|
                        0 <= k < i ==> (#[trigger] out@[k]).0@
                            == self.matched_request_extractors.matchers@[idx[k]].1.0@ && out@[k].1@
                            == self.matched_request_extractors.matchers@[idx[k]].1.1@,
                decreases n - i,
            {
                let pair = matches[i];
                out.push((pair.0.clone(), pair.1.clone()));
                i += 1;
            }
            proof {
                assert(spec_meta_view_of(out@) =~= Seq::new(
                    idx.len(),
                    |k: int|
                        (
                            self.matched_request_extractors.matchers@[idx[k]].1.0@,
                            self.matched_request_extractors.matchers@[idx[k]].1.1@,
                        ),
                ));
            }
            out
        } else {
            let mut out: Vec<(String, String)> = Vec::new();
            let n = self.default_request_extractors.len();
            let mut i: usize = 0;
            while i < n
                invariant
                    n == self.default_request_extractors.len(),
                    i <= n,
                    out@.len() == i,
                    forall|k: int|
                        0 <= k < i ==> (#[trigger] out@[k]).0@
                            == self.default_request_extractors@[k].0@ && out@[k].1@
                            == self.default_request_extractors@[k].1@,
                decreases n - i,
            {
                let pair = &self.default_request_extractors[i];
                out.push((pair.0.clone(), pair.1.clone()));
                i += 1;
            }
            proof {
                assert(spec_meta_view_of(out@) =~= spec_meta_view_of(
                    self.default_request_extractors@,
                ));
            }
            out
        }
    }
}

// ---------------------------------------------------------------------------
// The generated text. Each specification function gives the exact characters
// a part of the output consists of; the emitters below are proved to append
// exactly those characters.
// ---------------------------------------------------------------------------

/// The pairs of string values of a vector of string pairs.
pub open spec fn spec_pair_views(s: Seq<(String, String)>) -> Seq<(Seq<char>, Seq<char>)> {
    spec_meta_view_of(s)
}

/// Documentation lines: each comment on a line of its own under the given
/// prefix.
pub open spec fn spec_doc_lines(prefix: Seq<char>, comments: Seq<Seq<char>>) -> Seq<char>
    decreases comments.len(),
{
    if comments.len() == 0 {
        Seq::empty()
    } else {
        spec_doc_lines(prefix, comments.drop_last()) + prefix + comments.last() + "\n"@
    }
}

/// The extractor parameters appended to a method signature.
pub open spec fn spec_extractor_args(ex: Seq<(Seq<char>, Seq<char>)>) -> Seq<char>
    decreases ex.len(),
{
    if ex.len() == 0 {
        Seq::empty()
    } else {
        spec_extractor_args(ex.drop_last()) + ", "@ + ex.last().0 + ": "@ + ex.last().1
    }
}

/// The extractor arguments spliced into a generated handler call: each one
/// drives the extractor from the request parts and short-circuits with the
/// extractor's error turned into a Twirp error.
pub open spec fn spec_extractor_calls(ex: Seq<(Seq<char>, Seq<char>)>, state: Seq<char>) -> Seq<
    char,
>
    decreases ex.len(),
{
    if ex.len() == 0 {
        Seq::empty()
    } else {
        spec_extractor_calls(ex.drop_last(), state) + ", match <"@ + ex.last().1
            + " as ::twurst_server::codegen::FromRequestParts<_>>::from_request_parts(&mut parts, "@
            + state
            + ").await { Ok(r) => r, Err(e) => { return Err(::twurst_server::codegen::twirp_error_from_response(e).await) } }"@
    }
}

/// One client method: its documentation, deprecation mark, signature and
/// the call into the shared Twirp client.
pub open spec fn spec_client_method(
    pkg: Seq<char>,
    svc: Seq<char>,
    m: MethodDescriptor,
) -> Seq<char> {
    spec_doc_lines("    /// "@, crate::path_map::spec_str_views(m.comments@)) + (if m.deprecated {
        "#[deprecated]\n"@
    } else {
        Seq::<char>::empty()
    }) + "    pub async fn "@ + m.name@ + "(&self, request: &"@ + m.input_type@ + ") -> Result<"@
        + m.output_type@ + ", ::twurst_client::TwirpError> {\n"@ + "        self.client.call(\"/"@
        + pkg + "."@ + svc + "/"@ + m.proto_name@ + "\", request).await\n"@ + "    }\n"@
}

/// The client methods of a service: one per non-streaming method.
pub open spec fn spec_client_methods(
    pkg: Seq<char>,
    svc: Seq<char>,
    methods: Seq<MethodDescriptor>,
) -> Seq<char>
    decreases methods.len(),
{
    if methods.len() == 0 {
        Seq::empty()
    } else {
        spec_client_methods(pkg, svc, methods.drop_last()) + (if methods.last().client_streaming
            || methods.last().server_streaming {
            Seq::<char>::empty()
        } else {
            spec_client_method(pkg, svc, methods.last())
        })
    }
}

/// The generated client: a struct wrapping a Twirp client, with one method
/// per non-streaming service method.
pub open spec fn spec_client_text(service: ServiceDescriptor) -> Seq<char> {
    "\n"@ + spec_doc_lines("/// "@, crate::path_map::spec_str_views(service.comments@)) + (
    if service.deprecated {
        "#[deprecated]\n"@
    } else {
        Seq::<char>::empty()
    }) + "#[derive(Clone)]\n"@ + "pub struct "@ + service.name@
        + "Client<C: ::twurst_client::TwirpHttpService> {\n"@
        + "    client: ::twurst_client::TwirpHttpClient<C>\n"@ + "}\n"@ + "\n"@
        + "impl<C: ::twurst_client::TwirpHttpService> "@ + service.name@ + "Client<C> {\n"@
        + "    pub fn new(client: impl Into<::twurst_client::TwirpHttpClient<C>>) -> Self {\n"@
        + "        Self { client: client.into() }\n"@ + "    }\n"@ + spec_client_methods(
        service.package@,
        service.proto_name@,
        service.methods@,
    ) + "}\n"@
}

/// One server-trait method: its documentation and its signature, streaming
/// shapes included, with the extractor parameters spliced in.
pub open spec fn spec_trait_method(m: MethodDescriptor, ex: Seq<(Seq<char>, Seq<char>)>) -> Seq<
    char,
> {
    spec_doc_lines("    /// "@, crate::path_map::spec_str_views(m.comments@)) + "    async fn "@
        + m.name@ + "(&self, request: "@ + (if m.client_streaming {
        "impl ::twurst_server::codegen::Stream<Item=Result<"@ + m.input_type@
            + ",::twurst_client::TwirpError>> + Send + 'static"@
    } else {
        m.input_type@
    }) + spec_extractor_args(ex) + ") -> Result<\n"@ + (if m.server_streaming {
        "Box<dyn ::twurst_server::codegen::Stream<Item=Result<"@ + m.output_type@
            + ", ::twurst_server::TwirpError>> + Send>\n"@
    } else {
        m.output_type@ + "\n"@
    }) + ", ::twurst_server::TwirpError>;\n"@
}

/// The server-trait methods: streaming methods stand in the trait only when
/// gRPC generation is on.
pub open spec fn spec_trait_methods(
    methods: Seq<MethodDescriptor>,
    ex: Seq<(Seq<char>, Seq<char>)>,
    grpc: bool,
) -> Seq<char>
    decreases methods.len(),
{
    if methods.len() == 0 {
        Seq::empty()
    } else {
        spec_trait_methods(methods.drop_last(), ex, grpc) + (if !grpc && (
        methods.last().client_streaming || methods.last().server_streaming) {
            Seq::<char>::empty()
        } else {
            spec_trait_method(methods.last(), ex)
        })
    }
}

/// One Twirp route registration: a streaming method mounts a streaming
/// route by path alone, a unary method a wrapper that drives the extractors
/// and the handler.
pub open spec fn spec_twirp_route(
    pkg: Seq<char>,
    svc: Seq<char>,
    m: MethodDescriptor,
    ex: Seq<(Seq<char>, Seq<char>)>,
) -> Seq<char> {
    if m.client_streaming || m.server_streaming {
        "            .route_streaming(\"/"@ + pkg + "."@ + svc + "/"@ + m.proto_name@ + "\")\n"@
    } else {
        "            .route(\"/"@ + pkg + "."@ + svc + "/"@ + m.proto_name@
            + "\", |service: ::std::sync::Arc<Self>, request: "@ + m.input_type@ + (if ex.len()
            == 0 {
            ", _: ::twurst_server::codegen::RequestParts, _: S"@
        } else {
            ", mut parts: ::twurst_server::codegen::RequestParts, state: S"@
        }) + "| {"@ + "                async move {\n"@ + "                    service."@ + m.name@
            + "(request"@ + spec_extractor_calls(ex, "&state"@) + ").await\n"@
            + "                }\n"@ + "            })\n"@
    }
}

/// The Twirp route registrations of all methods.
pub open spec fn spec_twirp_routes(
    pkg: Seq<char>,
    svc: Seq<char>,
    methods: Seq<MethodDescriptor>,
    ex: Seq<(Seq<char>, Seq<char>)>,
) -> Seq<char>
    decreases methods.len(),
{
    if methods.len() == 0 {
        Seq::empty()
    } else {
        spec_twirp_routes(pkg, svc, methods.drop_last(), ex) + spec_twirp_route(
            pkg,
            svc,
            methods.last(),
            ex,
        )
    }
}

/// The route-building method name of each method shape.
pub open spec fn spec_grpc_route_name(m: MethodDescriptor) -> Seq<char> {
    if m.client_streaming && m.server_streaming {
        "route_streaming"@
    } else if m.client_streaming {
        "route_client_streaming"@
    } else if m.server_streaming {
        "route_server_streaming"@
    } else {
        "route"@
    }
}

/// One gRPC route registration: a wrapper of the matching shape that drives
/// the extractors against a synthesized request and calls the handler.
#[verifier::opaque]
pub open spec fn spec_grpc_route(
    pkg: Seq<char>,
    svc: Seq<char>,
    m: MethodDescriptor,
    ex: Seq<(Seq<char>, Seq<char>)>,
) -> Seq<char> {
    "            ."@ + spec_grpc_route_name(m) + "(\"/"@ + pkg + "."@ + svc + "/"@ + m.proto_name@
        + "\", |service: ::std::sync::Arc<Self>, request: "@ + (if m.client_streaming {
        "::twurst_server::codegen::GrpcClientStream<"@ + m.input_type@ + ">"@
    } else {
        m.input_type@
    }) + (if ex.len() == 0 {
        ", _: ::twurst_server::codegen::RequestParts"@
    } else {
        ", mut parts: ::twurst_server::codegen::RequestParts"@
    }) + "| {"@ + "                async move {"@ + (if m.server_streaming {
        "Ok(Box::into_pin("@
    } else {
        Seq::<char>::empty()
    }) + "service."@ + m.name@ + "(request"@ + spec_extractor_calls(ex, "&()"@) + ").await"@ + (
    if m.server_streaming {
        "?))"@
    } else {
        Seq::<char>::empty()
    }) + "}\n"@ + "            })\n"@
}

/// The gRPC route registrations of all methods.
pub open spec fn spec_grpc_routes(
    pkg: Seq<char>,
    svc: Seq<char>,
    methods: Seq<MethodDescriptor>,
    ex: Seq<(Seq<char>, Seq<char>)>,
) -> Seq<char>
    decreases methods.len(),
{
    if methods.len() == 0 {
        Seq::empty()
    } else {
        spec_grpc_routes(pkg, svc, methods.drop_last(), ex) + spec_grpc_route(
            pkg,
            svc,
            methods.last(),
            ex,
        )
    }
}

/// The gRPC router-building method, when gRPC generation is on.
pub open spec fn spec_grpc_router_text(
    service: ServiceDescriptor,
    ex: Seq<(Seq<char>, Seq<char>)>,
) -> Seq<char> {
    "\n"@
        + "    fn into_grpc_router(self) -> ::twurst_server::codegen::Router where Self : Sized + Send + Sync + 'static {\n"@
        + "        ::twurst_server::codegen::GrpcRouter::new(::std::sync::Arc::new(self))\n"@
        + spec_grpc_routes(service.package@, service.proto_name@, service.methods@, ex)
        + "            .build()\n"@ + "    }\n"@
}

/// The generated server: the service trait with one method per applicable
/// service method, its Twirp router builder, and, when gRPC generation is
/// on, its gRPC router builder.
pub open spec fn spec_server_text(
    service: ServiceDescriptor,
    ex: Seq<(Seq<char>, Seq<char>)>,
    grpc: bool,
) -> Seq<char> {
    "\n"@ + spec_doc_lines("/// "@, crate::path_map::spec_str_views(service.comments@))
        + "#[::twurst_server::codegen::trait_variant_make(Send)]\n"@ + "pub trait "@
        + service.name@ + " {\n"@ + spec_trait_methods(service.methods@, ex, grpc) + "\n"@
        + "    fn into_router<S: Clone + Send + Sync + 'static>(self) -> ::twurst_server::codegen::Router<S> where Self : Sized + Send + Sync + 'static {\n"@
        + "        ::twurst_server::codegen::TwirpRouter::new(::std::sync::Arc::new(self))\n"@
        + spec_twirp_routes(service.package@, service.proto_name@, service.methods@, ex)
        + "            .build()\n"@ + "    }\n"@ + (if grpc {
        spec_grpc_router_text(service, ex)
    } else {
        Seq::<char>::empty()
    }) + "}\n"@
}

/// Everything generated for one service: the client when client generation
/// is on, then the server when server generation is on, each built with the
/// service's selected extractors.
pub open spec fn spec_generated_text(
    g: TwirpServiceGenerator,
    service: ServiceDescriptor,
    ex: Seq<(Seq<char>, Seq<char>)>,
) -> Seq<char> {
    (if g.client {
        spec_client_text(service)
    } else {
        Seq::<char>::empty()
    }) + (if g.server {
        spec_server_text(service, ex, g.grpc)
    } else {
        Seq::<char>::empty()
    })
}

/// Appends the documentation lines for the given comments.
fn push_doc_lines(out: &mut String, prefix: &str, comments: &Vec<String>)
    ensures
        final(out)@ == old(out)@ + spec_doc_lines(
            prefix@,
            crate::path_map::spec_str_views(comments@),
        ),
{
    let n = comments.len();
    let mut i: usize = 0;
    while i < n
        invariant
            n == comments.len(),
            i <= n,
            out@ == old(out)@ + spec_doc_lines(
                prefix@,
                crate::path_map::spec_str_views(comments@.subrange(0, i as int)),
            ),
        decreases n - i,
    {
        out.append(prefix);
        out.append(comments[i].as_str());
        out.append("\n");
        proof {
            let views = crate::path_map::spec_str_views(comments@.subrange(0, i + 1));
            assert(views.drop_last() =~= crate::path_map::spec_str_views(
                comments@.subrange(0, i as int),
            ));
            assert(views.last() == comments@[i as int]@);
            assert(out@ =~= old(out)@ + spec_doc_lines(prefix@, views));
        }
        i += 1;
    }
    proof {
        assert(comments@.subrange(0, comments@.len() as int) =~= comments@);
    }
}

/// Appends the extractor parameters of a method signature.
fn push_extractor_args(out: &mut String, ex: &Vec<(String, String)>)
    ensures
        final(out)@ == old(out)@ + spec_extractor_args(spec_pair_views(ex@)),
{
    let n = ex.len();
    let mut i: usize = 0;
    while i < n
        invariant
            n == ex.len(),
            i <= n,
            out@ == old(out)@ + spec_extractor_args(spec_pair_views(ex@.subrange(0, i as int))),
        decreases n - i,
    {
        let pair = &ex[i];
        out.append(", ");
        out.append(pair.0.as_str());
        out.append(": ");
        out.append(pair.1.as_str());
        proof {
            let views = spec_pair_views(ex@.subrange(0, i + 1));
            assert(views.drop_last() =~= spec_pair_views(ex@.subrange(0, i as int)));
            assert(views.last() == (ex@[i as int].0@, ex@[i as int].1@));
            assert(out@ =~= old(out)@ + spec_extractor_args(views));
        }
        i += 1;
    }
    proof {
        assert(ex@.subrange(0, ex@.len() as int) =~= ex@);
    }
}

/// Appends the extractor-driving arguments of a generated handler call.
fn push_extractor_calls(out: &mut String, ex: &Vec<(String, String)>, state: &str)
    ensures
        final(out)@ == old(out)@ + spec_extractor_calls(spec_pair_views(ex@), state@),
{
    let n = ex.len();
    let mut i: usize = 0;
    while i < n
        invariant
            n == ex.len(),
            i <= n,
            out@ == old(out)@ + spec_extractor_calls(
                spec_pair_views(ex@.subrange(0, i as int)),
                state@,
            ),
        decreases n - i,
    {
        let pair = &ex[i];
        out.append(", match <");
        out.append(pair.1.as_str());
        out.append(" as ::twurst_server::codegen::FromRequestParts<_>>::from_request_parts(&mut parts, ");
        out.append(state);
        out.append(").await { Ok(r) => r, Err(e) => { return Err(::twurst_server::codegen::twirp_error_from_response(e).await) } }");
        proof {
            let views = spec_pair_views(ex@.subrange(0, i + 1));
            assert(views.drop_last() =~= spec_pair_views(ex@.subrange(0, i as int)));
            assert(views.last() == (ex@[i as int].0@, ex@[i as int].1@));
            assert(out@ =~= old(out)@ + spec_extractor_calls(views, state@));
        }
        i += 1;
    }
    proof {
        assert(ex@.subrange(0, ex@.len() as int) =~= ex@);
    }
}

/// Appends one generated client method.
#[verifier::rlimit(60)]
fn push_client_method(out: &mut String, service: &ServiceDescriptor, m: &MethodDescriptor)
    ensures
        final(out)@ == old(out)@ + spec_client_method(service.package@, service.proto_name@, *m),
{
    push_doc_lines(out, "    /// ", &m.comments);
    if m.deprecated {
        out.append("#[deprecated]\n");
    }
    out.append("    pub async fn ");
    out.append(m.name.as_str());
    out.append("(&self, request: &");
    out.append(m.input_type.as_str());
    out.append(") -> Result<");
    out.append(m.output_type.as_str());
    out.append(", ::twurst_client::TwirpError> {\n");
    out.append("        self.client.call(\"/");
    out.append(service.package.as_str());
    out.append(".");
    out.append(service.proto_name.as_str());
    out.append("/");
    out.append(m.proto_name.as_str());
    out.append("\", request).await\n");
    out.append("    }\n");
    proof {
        assert(out@ =~= old(out)@ + spec_client_method(
            service.package@,
            service.proto_name@,
            *m,
        ));
    }
}

/// Appends the generated client for a service.
#[verifier::rlimit(60)]
fn push_client_text(out: &mut String, service: &ServiceDescriptor)
    ensures
        final(out)@ == old(out)@ + spec_client_text(*service),
{
    out.append("\n");
    push_doc_lines(out, "/// ", &service.comments);
    if service.deprecated {
        out.append("#[deprecated]\n");
    }
    out.append("#[derive(Clone)]\n");
    out.append("pub struct ");
    out.append(service.name.as_str());
    out.append("Client<C: ::twurst_client::TwirpHttpService> {\n");
    out.append("    client: ::twurst_client::TwirpHttpClient<C>\n");
    out.append("}\n");
    out.append("\n");
    out.append("impl<C: ::twurst_client::TwirpHttpService> ");
    out.append(service.name.as_str());
    out.append("Client<C> {\n");
    out.append("    pub fn new(client: impl Into<::twurst_client::TwirpHttpClient<C>>) -> Self {\n");
    out.append("        Self { client: client.into() }\n");
    out.append("    }\n");
    let ghost head = out@;
    let n = service.methods.len();
    let mut i: usize = 0;
    while i < n
        invariant
            n == service.methods.len(),
            i <= n,
            out@ == head + spec_client_methods(
                service.package@,
                service.proto_name@,
                service.methods@.subrange(0, i as int),
            ),
        decreases n - i,
    {
        let m = &service.methods[i];
        if !(m.client_streaming || m.server_streaming) {
            push_client_method(out, service, m);
        }
        proof {
            assert(service.methods@.subrange(0, i + 1).drop_last() =~= service.methods@.subrange(
                0,
                i as int,
            ));
            assert(service.methods@.subrange(0, i + 1).last() == service.methods@[i as int]);
            assert(out@ =~= head + spec_client_methods(
                service.package@,
                service.proto_name@,
                service.methods@.subrange(0, i + 1),
            ));
        }
        i += 1;
    }
    out.append("}\n");
    proof {
        assert(service.methods@.subrange(0, service.methods@.len() as int) =~= service.methods@);
        assert(out@ =~= old(out)@ + spec_client_text(*service));
    }
}

/// Appends one generated server-trait method.
#[verifier::rlimit(80)]
#[verifier::spinoff_prover]
fn push_trait_method(out: &mut String, m: &MethodDescriptor, ex: &Vec<(String, String)>)
    ensures
        final(out)@ == old(out)@ + spec_trait_method(*m, spec_pair_views(ex@)),
{
    push_doc_lines(out, "    /// ", &m.comments);
    out.append("    async fn ");
    out.append(m.name.as_str());
    out.append("(&self, request: ");
    if m.client_streaming {
        out.append("impl ::twurst_server::codegen::Stream<Item=Result<");
        out.append(m.input_type.as_str());
        out.append(",::twurst_client::TwirpError>> + Send + 'static");
    } else {
        out.append(m.input_type.as_str());
    }
    push_extractor_args(out, ex);
    out.append(") -> Result<\n");
    if m.server_streaming {
        out.append("Box<dyn ::twurst_server::codegen::Stream<Item=Result<");
        out.append(m.output_type.as_str());
        out.append(", ::twurst_server::TwirpError>> + Send>\n");
    } else {
        out.append(m.output_type.as_str());
        out.append("\n");
    }
    out.append(", ::twurst_server::TwirpError>;\n");
    proof {
        assert(out@ =~= old(out)@ + spec_trait_method(*m, spec_pair_views(ex@)));
    }
}

/// Appends one Twirp route registration.
#[verifier::rlimit(80)]
#[verifier::spinoff_prover]
fn push_twirp_route(
    out: &mut String,
    service: &ServiceDescriptor,
    m: &MethodDescriptor,
    ex: &Vec<(String, String)>,
)
    ensures
        final(out)@ == old(out)@ + spec_twirp_route(
            service.package@,
            service.proto_name@,
            *m,
            spec_pair_views(ex@),
        ),
{
    if m.client_streaming || m.server_streaming {
        out.append("            .route_streaming(\"/");
        out.append(service.package.as_str());
        out.append(".");
        out.append(service.proto_name.as_str());
        out.append("/");
        out.append(m.proto_name.as_str());
        out.append("\")\n");
    } else {
        out.append("            .route(\"/");
        out.append(service.package.as_str());
        out.append(".");
        out.append(service.proto_name.as_str());
        out.append("/");
        out.append(m.proto_name.as_str());
        out.append("\", |service: ::std::sync::Arc<Self>, request: ");
        out.append(m.input_type.as_str());
        if ex.len() == 0 {
            out.append(", _: ::twurst_server::codegen::RequestParts, _: S");
        } else {
            out.append(", mut parts: ::twurst_server::codegen::RequestParts, state: S");
        }
        out.append("| {");
        out.append("                async move {\n");
        out.append("                    service.");
        out.append(m.name.as_str());
        out.append("(request");
        push_extractor_calls(out, ex, "&state");
        out.append(").await\n");
        out.append("                }\n");
        out.append("            })\n");
    }
    proof {
        assert(out@ =~= old(out)@ + spec_twirp_route(
            service.package@,
            service.proto_name@,
            *m,
            spec_pair_views(ex@),
        ));
    }
}

/// Appends the head of a gRPC route registration: the route method and the
/// path, up to the request parameter's type.
#[verifier::rlimit(60)]
#[verifier::spinoff_prover]
fn push_grpc_route_head(out: &mut String, service: &ServiceDescriptor, m: &MethodDescriptor)
    ensures
        final(out)@ == old(out)@ + "            ."@ + spec_grpc_route_name(*m) + "(\"/"@
            + service.package@ + "."@ + service.proto_name@ + "/"@ + m.proto_name@
            + "\", |service: ::std::sync::Arc<Self>, request: "@,
{
    out.append("            .");
    if m.client_streaming && m.server_streaming {
        out.append("route_streaming");
    } else if m.client_streaming {
        out.append("route_client_streaming");
    } else if m.server_streaming {
        out.append("route_server_streaming");
    } else {
        out.append("route");
    }
    out.append("(\"/");
    out.append(service.package.as_str());
    out.append(".");
    out.append(service.proto_name.as_str());
    out.append("/");
    out.append(m.proto_name.as_str());
    out.append("\", |service: ::std::sync::Arc<Self>, request: ");
    proof {
        assert(out@ =~= old(out)@ + "            ."@ + spec_grpc_route_name(*m) + "(\"/"@
            + service.package@ + "."@ + service.proto_name@ + "/"@ + m.proto_name@
            + "\", |service: ::std::sync::Arc<Self>, request: "@);
    }
}

/// Appends the middle of a gRPC route registration: the request parameter's
/// type, the parts parameter, and the opening of the wrapper body.
#[verifier::rlimit(60)]
#[verifier::spinoff_prover]
fn push_grpc_route_mid(out: &mut String, m: &MethodDescriptor, ex: &Vec<(String, String)>)
    ensures
        final(out)@ == old(out)@ + (if m.client_streaming {
            "::twurst_server::codegen::GrpcClientStream<"@ + m.input_type@ + ">"@
        } else {
            m.input_type@
        }) + (if ex@.len() == 0 {
            ", _: ::twurst_server::codegen::RequestParts"@
        } else {
            ", mut parts: ::twurst_server::codegen::RequestParts"@
        }) + "| {"@ + "                async move {"@,
{
    if m.client_streaming {
        out.append("::twurst_server::codegen::GrpcClientStream<");
        out.append(m.input_type.as_str());
        out.append(">");
    } else {
        out.append(m.input_type.as_str());
    }
    if ex.len() == 0 {
        out.append(", _: ::twurst_server::codegen::RequestParts");
    } else {
        out.append(", mut parts: ::twurst_server::codegen::RequestParts");
    }
    out.append("| {");
    out.append("                async move {");
    proof {
        assert(out@ =~= old(out)@ + (if m.client_streaming {
            "::twurst_server::codegen::GrpcClientStream<"@ + m.input_type@ + ">"@
        } else {
            m.input_type@
        }) + (if ex@.len() == 0 {
            ", _: ::twurst_server::codegen::RequestParts"@
        } else {
            ", mut parts: ::twurst_server::codegen::RequestParts"@
        }) + "| {"@ + "                async move {"@);
    }
}

/// Appends the tail of a gRPC route registration: the handler call with its
/// extractor arguments and the wrapper's closing text.
#[verifier::rlimit(60)]
#[verifier::spinoff_prover]
fn push_grpc_route_tail(out: &mut String, m: &MethodDescriptor, ex: &Vec<(String, String)>)
    ensures
        final(out)@ == old(out)@ + (if m.server_streaming {
            "Ok(Box::into_pin("@
        } else {
            Seq::<char>::empty()
        }) + "service."@ + m.name@ + "(request"@ + spec_extractor_calls(
            spec_pair_views(ex@),
            "&()"@,
        ) + ").await"@ + (if m.server_streaming {
            "?))"@
        } else {
            Seq::<char>::empty()
        }) + "}\n"@ + "            })\n"@,
{
    if m.server_streaming {
        out.append("Ok(Box::into_pin(");
    }
    out.append("service.");
    out.append(m.name.as_str());
    out.append("(request");
    push_extractor_calls(out, ex, "&()");
    out.append(").await");
    if m.server_streaming {
        out.append("?))");
    }
    out.append("}\n");
    out.append("            })\n");
    proof {
        assert(out@ =~= old(out)@ + (if m.server_streaming {
            "Ok(Box::into_pin("@
        } else {
            Seq::<char>::empty()
        }) + "service."@ + m.name@ + "(request"@ + spec_extractor_calls(
            spec_pair_views(ex@),
            "&()"@,
        ) + ").await"@ + (if m.server_streaming {
            "?))"@
        } else {
            Seq::<char>::empty()
        }) + "}\n"@ + "            })\n"@);
    }
}

/// Appends one gRPC route registration.
#[verifier::rlimit(100)]
#[verifier::spinoff_prover]
fn push_grpc_route(
    out: &mut String,
    service: &ServiceDescriptor,
    m: &MethodDescriptor,
    ex: &Vec<(String, String)>,
)
    ensures
        final(out)@ == old(out)@ + spec_grpc_route(
            service.package@,
            service.proto_name@,
            *m,
            spec_pair_views(ex@),
        ),
{
    push_grpc_route_head(out, service, m);
    push_grpc_route_mid(out, m, ex);
    push_grpc_route_tail(out, m, ex);
    proof {
        reveal(spec_grpc_route);
        assert(out@ =~= old(out)@ + spec_grpc_route(
            service.package@,
            service.proto_name@,
            *m,
            spec_pair_views(ex@),
        ));
    }
}

/// Appends the server-trait methods of all service methods.
fn push_trait_methods(
    out: &mut String,
    service: &ServiceDescriptor,
    ex: &Vec<(String, String)>,
    grpc: bool,
)
    ensures
        final(out)@ == old(out)@ + spec_trait_methods(service.methods@, spec_pair_views(ex@), grpc),
{
    let n = service.methods.len();
    let mut i: usize = 0;
    while i < n
        invariant
            n == service.methods.len(),
            i <= n,
            out@ == old(out)@ + spec_trait_methods(
                service.methods@.subrange(0, i as int),
                spec_pair_views(ex@),
                grpc,
            ),
        decreases n - i,
    {
        let m = &service.methods[i];
        if !(!grpc && (m.client_streaming || m.server_streaming)) {
            push_trait_method(out, m, ex);
        }
        proof {
            assert(service.methods@.subrange(0, i + 1).drop_last() =~= service.methods@.subrange(
                0,
                i as int,
            ));
            assert(service.methods@.subrange(0, i + 1).last() == service.methods@[i as int]);
            assert(out@ =~= old(out)@ + spec_trait_methods(
                service.methods@.subrange(0, i + 1),
                spec_pair_views(ex@),
                grpc,
            ));
        }
        i += 1;
    }
    proof {
        assert(service.methods@.subrange(0, service.methods@.len() as int) =~= service.methods@);
    }
}

/// Appends the Twirp route registrations of all service methods.
fn push_twirp_routes(out: &mut String, service: &ServiceDescriptor, ex: &Vec<(String, String)>)
    ensures
        final(out)@ == old(out)@ + spec_twirp_routes(
            service.package@,
            service.proto_name@,
            service.methods@,
            spec_pair_views(ex@),
        ),
{
    let n = service.methods.len();
    let mut i: usize = 0;
    while i < n
        invariant
            n == service.methods.len(),
            i <= n,
            out@ == old(out)@ + spec_twirp_routes(
                service.package@,
                service.proto_name@,
                service.methods@.subrange(0, i as int),
                spec_pair_views(ex@),
            ),
        decreases n - i,
    {
        let m = &service.methods[i];
        push_twirp_route(out, service, m, ex);
        proof {
            assert(service.methods@.subrange(0, i + 1).drop_last() =~= service.methods@.subrange(
                0,
                i as int,
            ));
            assert(service.methods@.subrange(0, i + 1).last() == service.methods@[i as int]);
            assert(out@ =~= old(out)@ + spec_twirp_routes(
                service.package@,
                service.proto_name@,
                service.methods@.subrange(0, i + 1),
                spec_pair_views(ex@),
            ));
        }
        i += 1;
    }
    proof {
        assert(service.methods@.subrange(0, service.methods@.len() as int) =~= service.methods@);
    }
}

/// Appends the gRPC router-building method.
fn push_grpc_router_text(out: &mut String, service: &ServiceDescriptor, ex: &Vec<(String, String)>)
    ensures
        final(out)@ == old(out)@ + spec_grpc_router_text(*service, spec_pair_views(ex@)),
{
    out.append("\n");
    out.append(
        "    fn into_grpc_router(self) -> ::twurst_server::codegen::Router where Self : Sized + Send + Sync + 'static {\n",
    );
    out.append("        ::twurst_server::codegen::GrpcRouter::new(::std::sync::Arc::new(self))\n");
    let ghost head = out@;
    let n = service.methods.len();
    let mut i: usize = 0;
    while i < n
        invariant
            n == service.methods.len(),
            i <= n,
            out@ == head + spec_grpc_routes(
                service.package@,
                service.proto_name@,
                service.methods@.subrange(0, i as int),
                spec_pair_views(ex@),
            ),
        decreases n - i,
    {
        let m = &service.methods[i];
        push_grpc_route(out, service, m, ex);
        proof {
            assert(service.methods@.subrange(0, i + 1).drop_last() =~= service.methods@.subrange(
                0,
                i as int,
            ));
            assert(service.methods@.subrange(0, i + 1).last() == service.methods@[i as int]);
            assert(out@ =~= head + spec_grpc_routes(
                service.package@,
                service.proto_name@,
                service.methods@.subrange(0, i + 1),
                spec_pair_views(ex@),
            ));
        }
        i += 1;
    }
    out.append("            .build()\n");
    out.append("    }\n");
    proof {
        assert(service.methods@.subrange(0, service.methods@.len() as int) =~= service.methods@);
        assert(out@ =~= old(out)@ + spec_grpc_router_text(*service, spec_pair_views(ex@)));
    }
}

/// Appends the generated server trait, router builders included, for a
/// service with the given extractors.
#[verifier::rlimit(100)]
#[verifier::spinoff_prover]
fn push_server_text(
    out: &mut String,
    service: &ServiceDescriptor,
    ex: &Vec<(String, String)>,
    grpc: bool,
)
    ensures
        final(out)@ == old(out)@ + spec_server_text(*service, spec_pair_views(ex@), grpc),
{
    out.append("\n");
    push_doc_lines(out, "/// ", &service.comments);
    out.append("#[::twurst_server::codegen::trait_variant_make(Send)]\n");
    out.append("pub trait ");
    out.append(service.name.as_str());
    out.append(" {\n");
    push_trait_methods(out, service, ex, grpc);
    out.append("\n");
    out.append(
        "    fn into_router<S: Clone + Send + Sync + 'static>(self) -> ::twurst_server::codegen::Router<S> where Self : Sized + Send + Sync + 'static {\n",
    );
    out.append("        ::twurst_server::codegen::TwirpRouter::new(::std::sync::Arc::new(self))\n");
    push_twirp_routes(out, service, ex);
    out.append("            .build()\n");
    out.append("    }\n");
    if grpc {
        push_grpc_router_text(out, service, ex);
    }
    out.append("}\n");
    proof {
        assert(out@ =~= old(out)@ + spec_server_text(*service, spec_pair_views(ex@), grpc));
    }
}

impl TwirpServiceGenerator {
    /// Appends everything generated for one service: the client and the
    /// server as enabled, built with the service's selected extractors.
    pub fn do_generate(&self, service: &ServiceDescriptor, buf: &mut String)
        ensures
            ({
                let fq = spec_service_fq(service.package@, service.proto_name@);
                let idx = spec_matched_indices(self.matched_request_extractors.matchers@, fq);
                let ex = if idx.len() > 0 {
                    Seq::new(
                        idx.len(),
                        |k: int|
                            (
                                self.matched_request_extractors.matchers@[idx[k]].1.0@,
                                self.matched_request_extractors.matchers@[idx[k]].1.1@,
                            ),
                    )
                } else {
                    spec_meta_view_of(self.default_request_extractors@)
                };
                final(buf)@ == old(buf)@ + spec_generated_text(*self, *service, ex)
            }),
    {
        let extractors = self.select_extractors(service);
        if self.client {
            push_client_text(buf, service);
        }
        if self.server {
            push_server_text(buf, service, &extractors, self.grpc);
        }
        proof {
            assert(buf@ =~= old(buf)@ + spec_generated_text(
                *self,
                *service,
                spec_pair_views(extractors@),
            ));
        }
    }
}

} // verus!
