use api_scaffold::collect::{collect, Answer};
use api_scaffold::model::{ApiStyle, Endpoint, HttpMethod, ProjectModel, SchemaField, SchemaKind};
use api_scaffold::render::{
    generate_cargo_toml, generate_main_rs, generate_resolvers, generate_routes, render,
    RenderedProject,
};

fn endpoint(path: &str, method: HttpMethod) -> Endpoint {
    Endpoint { path: path.to_string(), method }
}

fn field(name: &str, kind: SchemaKind) -> SchemaField {
    SchemaField { name: name.to_string(), kind }
}

fn rest_model(name: &str, endpoints: Vec<Endpoint>) -> ProjectModel {
    ProjectModel {
        project_name: name.to_string(),
        style: ApiStyle::Rest,
        endpoints,
        schemas: Vec::new(),
    }
}

fn graphql_model(name: &str, schemas: Vec<SchemaField>) -> ProjectModel {
    ProjectModel {
        project_name: name.to_string(),
        style: ApiStyle::GraphQL,
        endpoints: Vec::new(),
        schemas,
    }
}

fn count(haystack: &str, needle: &str) -> usize {
    haystack.matches(needle).count()
}

#[test]
fn handler_names_path_and_method() {
    let text = endpoint("/users", HttpMethod::Post).handler();
    assert_eq!(text, r##"
    app.at("/users").post(|_| async {
        Ok("Endpoint: /users, Method: POST")
    });"##);
}

#[test]
fn resolver_of_a_query_field() {
    let text = field("getUser", SchemaKind::Query).resolver();
    assert_eq!(text, r##"
    #[Object]
    impl Query {
        async fn getUser(&self) -> String {
            "Result of getUser query".to_string()
        }
    }"##);
}

#[test]
fn resolver_of_a_mutation_field() {
    let text = field("addUser", SchemaKind::Mutation).resolver();
    assert_eq!(text, r##"
    #[Object]
    impl Mutation {
        async fn addUser(&self) -> String {
            "Result of addUser mutation".to_string()
        }
    }"##);
}

#[test]
fn rest_source_for_two_methods_on_one_path() {
    let endpoints = vec![endpoint("/users", HttpMethod::Get), endpoint("/users", HttpMethod::Post)];
    let source = generate_main_rs(ApiStyle::Rest, &endpoints, &[]);
    assert_eq!(source, r##"use tide::{Request, Response, Server};
use async_std::task;

#[async_std::main]
async fn main() -> tide::Result<()> {
    let mut app = tide::new();
    
    // Default route
    app.at("/").get(|_| async { 
        Ok("Welcome to REST API!") 
    });

    // Health check endpoint
    app.at("/health").get(|_| async {
        Ok("API is healthy!")
    });

    // Generated Endpoints
    app.at("/users").get(|_| async {
        Ok("Endpoint: /users, Method: GET")
    });
    app.at("/users").post(|_| async {
        Ok("Endpoint: /users, Method: POST")
    });

    println!("Server starting on http://localhost:8080");
    app.listen("127.0.0.1:8080").await?;
    Ok(())
}
"##);
}

#[test]
fn rest_source_without_endpoints_has_only_the_fixed_handlers() {
    let source = generate_main_rs(ApiStyle::Rest, &[], &[]);
    assert_eq!(source, r##"use tide::{Request, Response, Server};
use async_std::task;

#[async_std::main]
async fn main() -> tide::Result<()> {
    let mut app = tide::new();
    
    // Default route
    app.at("/").get(|_| async { 
        Ok("Welcome to REST API!") 
    });

    // Health check endpoint
    app.at("/health").get(|_| async {
        Ok("API is healthy!")
    });

    // Generated Endpoints

    println!("Server starting on http://localhost:8080");
    app.listen("127.0.0.1:8080").await?;
    Ok(())
}
"##);
    assert_eq!(count(&source, "app.at("), 2);
}

#[test]
fn rest_source_keeps_the_order_of_the_endpoints() {
    let endpoints = vec![
        endpoint("/a", HttpMethod::Put),
        endpoint("/b", HttpMethod::Delete),
        endpoint("/a", HttpMethod::Get),
    ];
    let source = generate_main_rs(ApiStyle::Rest, &endpoints, &[]);
    assert_eq!(source, r##"use tide::{Request, Response, Server};
use async_std::task;

#[async_std::main]
async fn main() -> tide::Result<()> {
    let mut app = tide::new();
    
    // Default route
    app.at("/").get(|_| async { 
        Ok("Welcome to REST API!") 
    });

    // Health check endpoint
    app.at("/health").get(|_| async {
        Ok("API is healthy!")
    });

    // Generated Endpoints
    app.at("/a").put(|_| async {
        Ok("Endpoint: /a, Method: PUT")
    });
    app.at("/b").delete(|_| async {
        Ok("Endpoint: /b, Method: DELETE")
    });
    app.at("/a").get(|_| async {
        Ok("Endpoint: /a, Method: GET")
    });

    println!("Server starting on http://localhost:8080");
    app.listen("127.0.0.1:8080").await?;
    Ok(())
}
"##);
    let first = source.find("Endpoint: /a, Method: PUT").unwrap();
    let second = source.find("Endpoint: /b, Method: DELETE").unwrap();
    let third = source.find("Endpoint: /a, Method: GET").unwrap();
    assert!(first < second && second < third);
}

#[test]
fn rest_source_has_one_handler_for_each_endpoint() {
    for n in 0..6usize {
        let mut endpoints = Vec::new();
        for i in 0..n {
            endpoints.push(endpoint(&format!("/item{}", i), HttpMethod::Get));
        }
        let source = generate_main_rs(ApiStyle::Rest, &endpoints, &[]);
        assert_eq!(count(&source, "app.at("), n + 2);
        assert_eq!(count(&source, "Ok(\"Endpoint: "), n);
        for i in 0..n {
            assert_eq!(count(&source, &format!("app.at(\"/item{}\").get(", i)), 1);
        }
    }
}

#[test]
fn equal_endpoints_have_a_handler_each() {
    let endpoints = vec![
        endpoint("/users", HttpMethod::Get),
        endpoint("/users", HttpMethod::Get),
        endpoint("/users", HttpMethod::Post),
    ];
    let source = generate_main_rs(ApiStyle::Rest, &endpoints, &[]);
    assert_eq!(count(&source, "app.at("), 5);
    assert_eq!(count(&source, "app.at(\"/users\").get("), 2);
    assert_eq!(count(&source, "Ok(\"Endpoint: /users, Method: GET\")"), 2);
    assert_eq!(count(&source, "Ok(\"Endpoint: /users, Method: POST\")"), 1);
}

#[test]
fn path_that_holds_a_registration_is_counted_with_the_handlers() {
    let source = generate_main_rs(ApiStyle::Rest, &[endpoint("app.at(", HttpMethod::Get)], &[]);
    assert_eq!(count(&source, "app.at("), 5);
    assert_eq!(count(&source, "Ok(\"Endpoint: "), 1);
}

#[test]
fn answer_names_the_method_as_the_endpoint_has_it() {
    for (method, call, label) in [
        (HttpMethod::Get, "get", "GET"),
        (HttpMethod::Post, "post", "POST"),
        (HttpMethod::Put, "put", "PUT"),
        (HttpMethod::Delete, "delete", "DELETE"),
    ] {
        let text = endpoint("/x", method).handler();
        assert!(text.contains(&format!("app.at(\"/x\").{}(", call)));
        assert!(text.contains(&format!("Ok(\"Endpoint: /x, Method: {}\")", label)));
        assert!(!text.contains(&format!("Method: {}", call)));
    }
}

#[test]
fn rest_source_ignores_schema_fields() {
    let endpoints = vec![endpoint("/users", HttpMethod::Get), endpoint("/users", HttpMethod::Post)];
    let schemas = vec![field("getUser", SchemaKind::Query)];
    assert_eq!(
        generate_main_rs(ApiStyle::Rest, &endpoints, &schemas),
        generate_main_rs(ApiStyle::Rest, &endpoints, &[])
    );
}

#[test]
fn routes_are_the_handlers_one_after_the_other() {
    let endpoints = vec![endpoint("/a", HttpMethod::Put), endpoint("/b", HttpMethod::Delete)];
    let expected = format!("{}{}", endpoints[0].handler(), endpoints[1].handler());
    assert_eq!(generate_routes(&endpoints), expected);
    assert_eq!(generate_routes(&[]), "");
}

#[test]
fn path_is_inserted_as_it_is() {
    let source = generate_main_rs(ApiStyle::Rest, &[endpoint("/a\"b{c}\\d", HttpMethod::Get)], &[]);
    assert!(source.contains("app.at(\"/a\"b{c}\\d\").get("));
    assert!(source.contains("Ok(\"Endpoint: /a\"b{c}\\d, Method: GET\")"));
}

#[test]
fn graphql_source_for_one_query() {
    let source = generate_main_rs(ApiStyle::GraphQL, &[], &[field("getUser", SchemaKind::Query)]);
    assert_eq!(source, r##"use async_graphql::{
    Object, Schema, EmptySubscription,
    http::{GraphQLRequest, GraphQLResponse},
};
use async_graphql_tide::GraphQL;
use tide::{Request, Response};
use async_std::task;

// Query type
struct Query;

// Mutation type
struct Mutation;


    #[Object]
    impl Query {
        async fn getUser(&self) -> String {
            "Result of getUser query".to_string()
        }
    }



#[async_std::main]
async fn main() -> tide::Result<()> {
    // Create GraphQL schema
    let schema = Schema::build(Query, Mutation, EmptySubscription)
        .finish();

    // Create Tide server
    let mut app = tide::new();
    
    // GraphQL endpoint
    app.at("/graphql")
        .post(GraphQL::new(schema.clone()));

    // GraphiQL interface for testing (optional)
    app.at("/graphiql")
        .get(GraphQL::graphiql("/graphql"));

    println!("GraphQL server starting on http://localhost:8080");
    app.listen("127.0.0.1:8080").await?;
    Ok(())
}
"##);
}

#[test]
fn graphql_source_groups_resolvers_by_kind() {
    let schemas = vec![
        field("addUser", SchemaKind::Mutation),
        field("getUser", SchemaKind::Query),
        field("listUsers", SchemaKind::Query),
        field("dropUser", SchemaKind::Mutation),
    ];
    let source = generate_main_rs(ApiStyle::GraphQL, &[], &schemas);
    assert_eq!(source, r##"use async_graphql::{
    Object, Schema, EmptySubscription,
    http::{GraphQLRequest, GraphQLResponse},
};
use async_graphql_tide::GraphQL;
use tide::{Request, Response};
use async_std::task;

// Query type
struct Query;

// Mutation type
struct Mutation;


    #[Object]
    impl Query {
        async fn getUser(&self) -> String {
            "Result of getUser query".to_string()
        }
    }
    #[Object]
    impl Query {
        async fn listUsers(&self) -> String {
            "Result of listUsers query".to_string()
        }
    }


    #[Object]
    impl Mutation {
        async fn addUser(&self) -> String {
            "Result of addUser mutation".to_string()
        }
    }
    #[Object]
    impl Mutation {
        async fn dropUser(&self) -> String {
            "Result of dropUser mutation".to_string()
        }
    }

#[async_std::main]
async fn main() -> tide::Result<()> {
    // Create GraphQL schema
    let schema = Schema::build(Query, Mutation, EmptySubscription)
        .finish();

    // Create Tide server
    let mut app = tide::new();
    
    // GraphQL endpoint
    app.at("/graphql")
        .post(GraphQL::new(schema.clone()));

    // GraphiQL interface for testing (optional)
    app.at("/graphiql")
        .get(GraphQL::graphiql("/graphql"));

    println!("GraphQL server starting on http://localhost:8080");
    app.listen("127.0.0.1:8080").await?;
    Ok(())
}
"##);
    assert_eq!(count(&source, "impl Query {"), 2);
    assert_eq!(count(&source, "impl Mutation {"), 2);
}

#[test]
fn graphql_source_without_schema_fields() {
    let source = generate_main_rs(ApiStyle::GraphQL, &[], &[]);
    assert_eq!(source, r##"use async_graphql::{
    Object, Schema, EmptySubscription,
    http::{GraphQLRequest, GraphQLResponse},
};
use async_graphql_tide::GraphQL;
use tide::{Request, Response};
use async_std::task;

// Query type
struct Query;

// Mutation type
struct Mutation;





#[async_std::main]
async fn main() -> tide::Result<()> {
    // Create GraphQL schema
    let schema = Schema::build(Query, Mutation, EmptySubscription)
        .finish();

    // Create Tide server
    let mut app = tide::new();
    
    // GraphQL endpoint
    app.at("/graphql")
        .post(GraphQL::new(schema.clone()));

    // GraphiQL interface for testing (optional)
    app.at("/graphiql")
        .get(GraphQL::graphiql("/graphql"));

    println!("GraphQL server starting on http://localhost:8080");
    app.listen("127.0.0.1:8080").await?;
    Ok(())
}
"##);
    assert_eq!(count(&source, "#[Object]"), 0);
}

#[test]
fn graphql_source_ignores_endpoints() {
    let schemas = vec![field("getUser", SchemaKind::Query)];
    let endpoints = vec![endpoint("/graphql", HttpMethod::Post)];
    assert_eq!(
        generate_main_rs(ApiStyle::GraphQL, &endpoints, &schemas),
        generate_main_rs(ApiStyle::GraphQL, &[], &schemas)
    );
}

#[test]
fn resolver_counts_follow_the_kinds() {
    let kinds = [SchemaKind::Query, SchemaKind::Mutation];
    for mask in 0..16usize {
        let mut schemas = Vec::new();
        let mut queries = 0;
        let mut mutations = 0;
        for bit in 0..4usize {
            let kind = kinds[(mask >> bit) & 1];
            match kind {
                SchemaKind::Query => queries += 1,
                SchemaKind::Mutation => mutations += 1,
            }
            schemas.push(field(&format!("field{}", bit), kind));
        }
        let source = generate_main_rs(ApiStyle::GraphQL, &[], &schemas);
        assert_eq!(count(&source, "impl Query {"), queries);
        assert_eq!(count(&source, "impl Mutation {"), mutations);
        assert_eq!(count(&generate_resolvers(&schemas, SchemaKind::Query), "async fn"), queries);
        assert_eq!(
            count(&generate_resolvers(&schemas, SchemaKind::Mutation), "async fn"),
            mutations
        );
    }
}

#[test]
fn manifest_of_a_rest_project() {
    assert_eq!(generate_cargo_toml("demo", ApiStyle::Rest), r##"[package]
name = "demo"
version = "0.1.0"
edition = "2021"

[dependencies]
# REST dependencies
tide = "0.16.0"
async-std = "1.12.0"
"##);
}

#[test]
fn manifest_of_a_graphql_project() {
    assert_eq!(generate_cargo_toml("gq", ApiStyle::GraphQL), r##"[package]
name = "gq"
version = "0.1.0"
edition = "2021"

[dependencies]
# REST dependencies
tide = "0.16.0"
async-std = "1.12.0"

# GraphQL dependencies
async-graphql = "5.0"
async-graphql-tide = "5.0"
serde = { version = "1.0", features = ["derive"] }
serde_json = "1.0"
"##);
}

#[test]
fn manifest_depends_on_the_style_alone() {
    let bare = rest_model("demo", Vec::new());
    let full = rest_model("demo", vec![endpoint("/users", HttpMethod::Get)]);
    assert_eq!(render(&bare).manifest_text, render(&full).manifest_text);
    assert_ne!(
        generate_cargo_toml("demo", ApiStyle::Rest),
        generate_cargo_toml("demo", ApiStyle::GraphQL)
    );
    assert!(!generate_cargo_toml("demo", ApiStyle::Rest).contains("async-graphql"));
    assert!(generate_cargo_toml("demo", ApiStyle::GraphQL).contains("tide = \"0.16.0\""));
}

#[test]
fn rendering_twice_gives_the_same_bytes() {
    let model = rest_model(
        "demo",
        vec![endpoint("/users", HttpMethod::Get), endpoint("/orders", HttpMethod::Delete)],
    );
    let first = render(&model);
    let second = render(&model);
    assert_eq!(first, second);
    assert_eq!(first.source_text.as_bytes(), second.source_text.as_bytes());
    assert_eq!(first.manifest_text.as_bytes(), second.manifest_text.as_bytes());
    let other = graphql_model("gq", vec![field("getUser", SchemaKind::Query)]);
    assert_eq!(render(&other), render(&other.clone()));
}

#[test]
fn render_puts_both_texts_together() {
    let model = rest_model("demo", vec![endpoint("/users", HttpMethod::Get)]);
    let expected = RenderedProject {
        manifest_text: generate_cargo_toml("demo", ApiStyle::Rest),
        source_text: generate_main_rs(ApiStyle::Rest, &model.endpoints, &[]),
    };
    assert_eq!(render(&model), expected);
}

#[test]
fn scenario_rest_demo() {
    let answers = vec![
        Answer::Selected(vec![0]),
        Answer::Text("1".to_string()),
        Answer::Text("/users".to_string()),
        Answer::Selected(vec![0, 1]),
    ];
    let model = collect("demo".to_string(), &answers).unwrap();
    assert_eq!(
        model,
        rest_model(
            "demo",
            vec![endpoint("/users", HttpMethod::Get), endpoint("/users", HttpMethod::Post)]
        )
    );
    let rendered = render(&model);
    assert_eq!(count(&rendered.source_text, "app.at(\"/users\")."), 2);
    assert_eq!(count(&rendered.source_text, "app.at(\"/users\").get("), 1);
    assert_eq!(count(&rendered.source_text, "app.at(\"/users\").post("), 1);
    assert_eq!(count(&rendered.source_text, "app.at(\"/\").get("), 1);
    assert_eq!(count(&rendered.source_text, "app.at(\"/health\").get("), 1);
    assert_eq!(rendered.source_text, r##"use tide::{Request, Response, Server};
use async_std::task;

#[async_std::main]
async fn main() -> tide::Result<()> {
    let mut app = tide::new();
    
    // Default route
    app.at("/").get(|_| async { 
        Ok("Welcome to REST API!") 
    });

    // Health check endpoint
    app.at("/health").get(|_| async {
        Ok("API is healthy!")
    });

    // Generated Endpoints
    app.at("/users").get(|_| async {
        Ok("Endpoint: /users, Method: GET")
    });
    app.at("/users").post(|_| async {
        Ok("Endpoint: /users, Method: POST")
    });

    println!("Server starting on http://localhost:8080");
    app.listen("127.0.0.1:8080").await?;
    Ok(())
}
"##);
    assert!(rendered.manifest_text.starts_with("[package]\nname = \"demo\"\n"));
    assert_eq!(rendered.manifest_text, r##"[package]
name = "demo"
version = "0.1.0"
edition = "2021"

[dependencies]
# REST dependencies
tide = "0.16.0"
async-std = "1.12.0"
"##);
}

#[test]
fn scenario_graphql_gq() {
    let answers = vec![
        Answer::Selected(vec![1]),
        Answer::Text("1".to_string()),
        Answer::Text("getUser".to_string()),
        Answer::Selected(vec![0]),
    ];
    let model = collect("gq".to_string(), &answers).unwrap();
    assert_eq!(model, graphql_model("gq", vec![field("getUser", SchemaKind::Query)]));
    let rendered = render(&model);
    assert_eq!(count(&rendered.source_text, "impl Query {"), 1);
    assert_eq!(count(&rendered.source_text, "async fn getUser(&self) -> String {"), 1);
    assert_eq!(count(&rendered.source_text, "impl Mutation {"), 0);
    assert!(rendered.source_text.contains("app.at(\"/graphql\")\n        .post("));
    assert_eq!(rendered.source_text, r##"use async_graphql::{
    Object, Schema, EmptySubscription,
    http::{GraphQLRequest, GraphQLResponse},
};
use async_graphql_tide::GraphQL;
use tide::{Request, Response};
use async_std::task;

// Query type
struct Query;

// Mutation type
struct Mutation;


    #[Object]
    impl Query {
        async fn getUser(&self) -> String {
            "Result of getUser query".to_string()
        }
    }



#[async_std::main]
async fn main() -> tide::Result<()> {
    // Create GraphQL schema
    let schema = Schema::build(Query, Mutation, EmptySubscription)
        .finish();

    // Create Tide server
    let mut app = tide::new();
    
    // GraphQL endpoint
    app.at("/graphql")
        .post(GraphQL::new(schema.clone()));

    // GraphiQL interface for testing (optional)
    app.at("/graphiql")
        .get(GraphQL::graphiql("/graphql"));

    println!("GraphQL server starting on http://localhost:8080");
    app.listen("127.0.0.1:8080").await?;
    Ok(())
}
"##);
    assert_eq!(rendered.manifest_text, r##"[package]
name = "gq"
version = "0.1.0"
edition = "2021"

[dependencies]
# REST dependencies
tide = "0.16.0"
async-std = "1.12.0"

# GraphQL dependencies
async-graphql = "5.0"
async-graphql-tide = "5.0"
serde = { version = "1.0", features = ["derive"] }
serde_json = "1.0"
"##);
}
