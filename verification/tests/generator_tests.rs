use twurst::generator::{MethodDescriptor, ServiceDescriptor, TwirpServiceGenerator};
use twurst::postprocess::splice_descriptor_imports;

fn one_method_service() -> ServiceDescriptor {
    ServiceDescriptor {
        name: "ExampleService".to_string(),
        proto_name: "ExampleService".to_string(),
        package: "example".to_string(),
        deprecated: false,
        comments: vec!["An example.".to_string()],
        methods: vec![MethodDescriptor {
            name: "test".to_string(),
            proto_name: "Test".to_string(),
            input_type: "TestRequest".to_string(),
            output_type: "TestResponse".to_string(),
            client_streaming: false,
            server_streaming: false,
            deprecated: false,
            comments: Vec::new(),
        }],
    }
}

#[test]
fn test_extractor_replacement_not_additive() {
    // A service-specific extractor replaces the default list outright.
    let generator = TwirpServiceGenerator::new()
        .with_server()
        .with_default_axum_request_extractor("bearer".to_string(), "BearerToken".to_string())
        .with_service_specific_axum_request_extractor(
            "headers".to_string(),
            "HeaderMap".to_string(),
            "ServiceB".to_string(),
        );

    let a = ServiceDescriptor {
        name: "ServiceA".to_string(),
        proto_name: "ServiceA".to_string(),
        package: "p".to_string(),
        deprecated: false,
        comments: Vec::new(),
        methods: Vec::new(),
    };
    let b = ServiceDescriptor { proto_name: "ServiceB".to_string(), name: "ServiceB".to_string(), ..a_clone(&a) };

    assert_eq!(
        generator.select_extractors(&a),
        vec![("bearer".to_string(), "BearerToken".to_string())]
    );
    assert_eq!(
        generator.select_extractors(&b),
        vec![("headers".to_string(), "HeaderMap".to_string())]
    );
}

fn a_clone(a: &ServiceDescriptor) -> ServiceDescriptor {
    ServiceDescriptor {
        name: a.name.clone(),
        proto_name: a.proto_name.clone(),
        package: a.package.clone(),
        deprecated: a.deprecated,
        comments: a.comments.clone(),
        methods: Vec::new(),
    }
}

#[test]
fn test_global_extractor_match() {
    let generator = TwirpServiceGenerator::new()
        .with_default_axum_request_extractor("bearer".to_string(), "BearerToken".to_string())
        .with_service_specific_axum_request_extractor(
            "ctx".to_string(),
            "Context".to_string(),
            ".".to_string(),
        );
    let a = ServiceDescriptor {
        name: "Any".to_string(),
        proto_name: "Any".to_string(),
        package: "p".to_string(),
        deprecated: false,
        comments: Vec::new(),
        methods: Vec::new(),
    };
    assert_eq!(
        generator.select_extractors(&a),
        vec![("ctx".to_string(), "Context".to_string())]
    );
}

#[test]
fn test_generated_client_text() {
    let generator = TwirpServiceGenerator::new().with_client();
    let mut buf = String::new();
    generator.do_generate(&one_method_service(), &mut buf);
    assert!(buf.contains("/// An example."));
    assert!(buf.contains(
        "pub struct ExampleServiceClient<C: ::twurst_client::TwirpHttpService> {"
    ));
    assert!(buf.contains(
        "    pub async fn test(&self, request: &TestRequest) -> Result<TestResponse, ::twurst_client::TwirpError> {"
    ));
    assert!(buf.contains(
        "        self.client.call(\"/example.ExampleService/Test\", request).await"
    ));
    // no server code was asked for
    assert!(!buf.contains("pub trait ExampleService"));
}

#[test]
fn test_generated_server_text() {
    let generator = TwirpServiceGenerator::new()
        .with_server()
        .with_default_axum_request_extractor(
            "headers".to_string(),
            "::axum::http::HeaderMap".to_string(),
        );
    let mut buf = String::new();
    generator.do_generate(&one_method_service(), &mut buf);
    assert!(buf.contains("pub trait ExampleService {"));
    assert!(buf.contains(
        "    async fn test(&self, request: TestRequest, headers: ::axum::http::HeaderMap) -> Result<"
    ));
    assert!(buf.contains("            .route(\"/example.ExampleService/Test\""));
    assert!(buf.contains("mut parts: ::twurst_server::codegen::RequestParts, state: S"));
    assert!(!buf.contains("into_grpc_router"));
}

#[test]
fn test_generated_grpc_text() {
    let generator = TwirpServiceGenerator::new().with_server().with_grpc();
    let mut buf = String::new();
    generator.do_generate(&one_method_service(), &mut buf);
    assert!(buf.contains("fn into_grpc_router(self)"));
    assert!(buf.contains("            .route(\"/example.ExampleService/Test\""));
}

#[test]
fn test_splice_descriptor_imports() {
    let lines = vec![
        "pub mod nested {".to_string(),
        "    struct X;".to_string(),
        "    pub mod deeper {".to_string(),
        "not pub mod x {".to_string(),
    ];
    assert_eq!(
        splice_descriptor_imports(&lines),
        vec![
            "pub mod nested {".to_string(),
            "    #[allow(unused_imports)]".to_string(),
            "    use super::FILE_DESCRIPTOR_SET_BYTES;".to_string(),
            "    struct X;".to_string(),
            "    pub mod deeper {".to_string(),
            "        #[allow(unused_imports)]".to_string(),
            "        use super::FILE_DESCRIPTOR_SET_BYTES;".to_string(),
            "not pub mod x {".to_string(),
        ]
    );
}
