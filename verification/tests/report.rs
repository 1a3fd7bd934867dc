use api_scaffold::collect::CollectError;
use api_scaffold::layout::{project_paths, ProjectPaths};
use api_scaffold::model::{ApiStyle, Endpoint, HttpMethod, ProjectModel, SchemaField, SchemaKind};
use api_scaffold::report::{success_message, summary_lines};

#[test]
fn summary_of_a_rest_model() {
    let model = ProjectModel {
        project_name: "demo".to_string(),
        style: ApiStyle::Rest,
        endpoints: vec![
            Endpoint { path: "/users".to_string(), method: HttpMethod::Get },
            Endpoint { path: "/users".to_string(), method: HttpMethod::Post },
            Endpoint { path: "/orders".to_string(), method: HttpMethod::Delete },
        ],
        schemas: vec![],
    };
    assert_eq!(
        summary_lines(&model),
        vec![
            "Selected API type: REST",
            "Configured Endpoints:",
            "- Path: /users, Method: GET",
            "- Path: /users, Method: POST",
            "- Path: /orders, Method: DELETE",
        ]
    );
}

#[test]
fn summary_of_a_graphql_model() {
    let model = ProjectModel {
        project_name: "gq".to_string(),
        style: ApiStyle::GraphQL,
        endpoints: vec![],
        schemas: vec![
            SchemaField { name: "getUser".to_string(), kind: SchemaKind::Query },
            SchemaField { name: "addUser".to_string(), kind: SchemaKind::Mutation },
        ],
    };
    assert_eq!(
        summary_lines(&model),
        vec![
            "Selected API type: GraphQL",
            "Configured GraphQL Schema:",
            "- Name: getUser, Type: Query",
            "- Name: addUser, Type: Mutation",
        ]
    );
}

#[test]
fn summary_of_an_empty_model() {
    let model = ProjectModel {
        project_name: "demo".to_string(),
        style: ApiStyle::Rest,
        endpoints: vec![],
        schemas: vec![],
    };
    assert_eq!(summary_lines(&model), vec!["Selected API type: REST", "Configured Endpoints:"]);
}

#[test]
fn item_lines() {
    let endpoint = Endpoint { path: "/x".to_string(), method: HttpMethod::Put };
    assert_eq!(endpoint.summary_line(), "- Path: /x, Method: PUT");
    let field = SchemaField { name: "f".to_string(), kind: SchemaKind::Mutation };
    assert_eq!(field.summary_line(), "- Name: f, Type: Mutation");
}

#[test]
fn success_names_the_project() {
    assert_eq!(success_message("demo"), "Project 'demo' created successfully!");
    assert_eq!(success_message("my app"), "Project 'my app' created successfully!");
}

#[test]
fn errors_are_put_in_words() {
    assert_eq!(
        CollectError::NoApiTypeSelected.message(),
        "No API type selected. Please choose at least one option."
    );
    assert_eq!(CollectError::UnsupportedApiType.message(), "Unsupported API type");
    assert_eq!(CollectError::PromptFailed.message(), "Could not read an answer from the terminal.");
}

#[test]
fn files_go_under_the_project_directory() {
    assert_eq!(
        project_paths("demo"),
        ProjectPaths {
            root: "./demo".to_string(),
            manifest: "./demo/Cargo.toml".to_string(),
            source_dir: "./demo/src".to_string(),
            source: "./demo/src/main.rs".to_string(),
        }
    );
    assert_eq!(project_paths("a b").source, "./a b/src/main.rs");
}

#[test]
fn names_of_the_kinds() {
    assert_eq!(ApiStyle::Rest.label(), "REST");
    assert_eq!(ApiStyle::GraphQL.label(), "GraphQL");
    for (method, label, call) in [
        (HttpMethod::Get, "GET", "get"),
        (HttpMethod::Post, "POST", "post"),
        (HttpMethod::Put, "PUT", "put"),
        (HttpMethod::Delete, "DELETE", "delete"),
    ] {
        assert_eq!(method.label(), label);
        assert_eq!(method.route_name(), call);
    }
    for (kind, label, noun) in
        [(SchemaKind::Query, "Query", "query"), (SchemaKind::Mutation, "Mutation", "mutation")]
    {
        assert_eq!(kind.label(), label);
        assert_eq!(kind.noun(), noun);
    }
}

#[test]
fn well_formed_models() {
    let good = ProjectModel {
        project_name: "demo".to_string(),
        style: ApiStyle::Rest,
        endpoints: vec![Endpoint { path: "/users".to_string(), method: HttpMethod::Get }],
        schemas: vec![],
    };
    assert!(good.is_well_formed());
    let mut nameless = good.clone();
    nameless.project_name = String::new();
    assert!(!nameless.is_well_formed());
    let mut pathless = good.clone();
    pathless.endpoints.push(Endpoint { path: String::new(), method: HttpMethod::Get });
    assert!(!pathless.is_well_formed());
    let mut mixed = good.clone();
    mixed.schemas.push(SchemaField { name: "f".to_string(), kind: SchemaKind::Query });
    assert!(!mixed.is_well_formed());
    let mut wrong_style = good.clone();
    wrong_style.style = ApiStyle::GraphQL;
    assert!(!wrong_style.is_well_formed());
    let graphql = ProjectModel {
        project_name: "gq".to_string(),
        style: ApiStyle::GraphQL,
        endpoints: vec![],
        schemas: vec![SchemaField { name: "f".to_string(), kind: SchemaKind::Query }],
    };
    assert!(graphql.is_well_formed());
    let mut unnamed_field = graphql.clone();
    unnamed_field.schemas.push(SchemaField { name: String::new(), kind: SchemaKind::Query });
    assert!(!unnamed_field.is_well_formed());
}
