//! Rendering a project model into the text of its files.
//!
//! What is rendered is stated over mathematical values: [`manifest_text`]
//! and [`source_text`] give, for the view of a model, the exact characters of
//! the two files. The executable functions are proved to produce them.

use vstd::prelude::*;

use crate::model::{
    ApiStyle, Endpoint, EndpointView, ProjectModel, ProjectModelView, SchemaField,
    SchemaFieldView, SchemaKind,
};
use crate::text::{lemma_flatten_len, lemma_flatten_slot, total_len};

verus! {

/// The manifest, after the package's name.
pub const MANIFEST_PACKAGE: &'static str = r#"version = "0.1.0"
edition = "2021"

[dependencies]
# REST dependencies
tide = "0.16.0"
async-std = "1.12.0"
"#;

/// The dependencies that only a GraphQL project has.
pub const MANIFEST_GRAPHQL: &'static str = r#"
# GraphQL dependencies
async-graphql = "5.0"
async-graphql-tide = "5.0"
serde = { version = "1.0", features = ["derive"] }
serde_json = "1.0"
"#;

/// The REST source, up to the generated handlers.
pub const REST_HEAD: &'static str = r#"use tide::{Request, Response, Server};
use async_std::task;

#[async_std::main]
async fn main() -> tide::Result<()> {
    let mut app = tide::new();
    
    // Default route
    app.at("/").get(|_| async { 
        Ok("Welcome to REST API!") 
    });

    // Health check endpoint
    app.at("/health").get(|_| async {
        Ok("API is healthy!")
    });

    // Generated Endpoints"#;

/// The REST source, after the generated handlers.
pub const REST_TAIL: &'static str = r#"

    println!("Server starting on http://localhost:8080");
    app.listen("127.0.0.1:8080").await?;
    Ok(())
}
"#;

/// The GraphQL source, up to the generated resolvers.
pub const GRAPHQL_HEAD: &'static str = r#"use async_graphql::{
    Object, Schema, EmptySubscription,
    http::{GraphQLRequest, GraphQLResponse},
};
use async_graphql_tide::GraphQL;
use tide::{Request, Response};
use async_std::task;

// Query type
struct Query;

// Mutation type
struct Mutation;

"#;

/// The GraphQL source, after the generated resolvers: the server, which
/// serves the schema at `/graphql`.
pub const GRAPHQL_TAIL: &'static str = r#"

#[async_std::main]
async fn main() -> tide::Result<()> {
    // Create GraphQL schema
    let schema = Schema::build(Query, Mutation, EmptySubscription)
        .finish();

    // Create Tide server
    let mut app = tide::new();
    
    // GraphQL endpoint
    app.at("/graphql")
        .post(GraphQL::new(schema.clone()));

    // GraphiQL interface for testing (optional)
    app.at("/graphiql")
        .get(GraphQL::graphiql("/graphql"));

    println!("GraphQL server starting on http://localhost:8080");
    app.listen("127.0.0.1:8080").await?;
    Ok(())
}
"#;

/// The text of the package manifest: the project's name, taken as it is, a
/// fixed version and edition, and the dependencies of the style.
pub open spec fn manifest_text(project_name: Seq<char>, style: ApiStyle) -> Seq<char> {
    "[package]\nname = \""@ + project_name + "\"\n"@ + MANIFEST_PACKAGE@ + match style {
        ApiStyle::Rest => Seq::empty(),
        ApiStyle::GraphQL => MANIFEST_GRAPHQL@,
    }
}

/// The handler generated for one endpoint. It is registered at the
/// endpoint's path, taken as it is, by the call that the server library has
/// for the endpoint's method, which is the method's name in lower case. It
/// answers with a text that names path and method as the endpoint has them.
pub open spec fn handler_text(endpoint: EndpointView) -> Seq<char> {
    "\n    app.at(\""@ + endpoint.path + "\")."@ + endpoint.method.route_text()
        + "(|_| async {\n        Ok(\""@ + answer_text(endpoint) + "\")\n    });"@
}

/// What the handler of an endpoint answers with: the endpoint's path and
/// the name of its method, both as the endpoint has them.
pub open spec fn answer_text(endpoint: EndpointView) -> Seq<char> {
    "Endpoint: "@ + endpoint.path + ", Method: "@ + endpoint.method.label_text()
}

/// The handlers generated for a list of endpoints: one for each, in the
/// order of the list.
pub open spec fn handlers(endpoints: Seq<EndpointView>) -> Seq<Seq<char>> {
    endpoints.map_values(|e: EndpointView| handler_text(e))
}

/// The source of a REST project: the fixed head, with the root and health
/// handlers, then the generated handlers, then the fixed tail.
pub open spec fn rest_source(endpoints: Seq<EndpointView>) -> Seq<char> {
    REST_HEAD@ + handlers(endpoints).flatten() + REST_TAIL@
}

/// The resolver generated for one schema field, under the root type of the
/// field's kind. It answers with a text that names the field. The name is
/// taken as it is.
pub open spec fn resolver_text(field: SchemaFieldView) -> Seq<char> {
    "\n    #[Object]\n    impl "@ + field.kind.label_text() + " {\n        async fn "@ + field.name
        + "(&self) -> String {\n            \"Result of "@ + field.name + " "@
        + field.kind.noun_text() + "\".to_string()\n        }\n    }"@
}

/// Tells the schema fields of one kind from the others.
pub open spec fn has_kind(kind: SchemaKind) -> spec_fn(SchemaFieldView) -> bool {
    |field: SchemaFieldView| field.kind == kind
}

/// The resolvers generated for the schema fields of one kind: one for each
/// field of that kind, in the order of the list.
pub open spec fn resolvers(schemas: Seq<SchemaFieldView>, kind: SchemaKind) -> Seq<Seq<char>> {
    schemas.filter(has_kind(kind)).map_values(|f: SchemaFieldView| resolver_text(f))
}

/// The source of a GraphQL project: the fixed head, with the two root
/// types, then the query resolvers, then the mutation resolvers, then the
/// fixed tail, with the server.
pub open spec fn graphql_source(schemas: Seq<SchemaFieldView>) -> Seq<char> {
    GRAPHQL_HEAD@ + resolvers(schemas, SchemaKind::Query).flatten() + "\n\n"@ + resolvers(
        schemas,
        SchemaKind::Mutation,
    ).flatten() + GRAPHQL_TAIL@
}

/// The source of a project of either style. A REST project is generated
/// from the endpoints alone, a GraphQL project from the schema fields alone.
pub open spec fn source_for(
    style: ApiStyle,
    endpoints: Seq<EndpointView>,
    schemas: Seq<SchemaFieldView>,
) -> Seq<char> {
    match style {
        ApiStyle::Rest => rest_source(endpoints),
        ApiStyle::GraphQL => graphql_source(schemas),
    }
}

/// The text of the main source file of a model.
pub open spec fn source_text(model: ProjectModelView) -> Seq<char> {
    source_for(model.style, model.endpoints, model.schemas)
}

/// The text of the two files of a generated project.
#[derive(Clone, Debug, PartialEq, Eq)]
pub struct RenderedProject {
    pub manifest_text: String,
    pub source_text: String,
}

/// The mathematical value of a [`RenderedProject`].
pub struct RenderedProjectView {
    pub manifest_text: Seq<char>,
    pub source_text: Seq<char>,
}

impl View for RenderedProject {
    type V = RenderedProjectView;

    open spec fn view(&self) -> RenderedProjectView {
        RenderedProjectView {
            manifest_text: self.manifest_text@,
            source_text: self.source_text@,
        }
    }
}

/// What a model is rendered to.
pub open spec fn rendered(model: ProjectModelView) -> RenderedProjectView {
    RenderedProjectView {
        manifest_text: manifest_text(model.project_name, model.style),
        source_text: source_text(model),
    }
}

impl Endpoint {
    /// The handler generated for this endpoint.
    pub fn handler(&self) -> (r: String)
        ensures
            r@ == handler_text(self@),
    {
        let mut out = String::new();
        out.append("\n    app.at(\"");
        out.append(self.path.as_str());
        out.append("\").");
        out.append(self.method.route_name());
        out.append("(|_| async {\n        Ok(\"");
        out.append("Endpoint: ");
        out.append(self.path.as_str());
        out.append(", Method: ");
        out.append(self.method.label());
        out.append("\")\n    });");
        assert(out@ =~= handler_text(self@));
        out
    }
}

impl SchemaField {
    /// The resolver generated for this schema field.
    pub fn resolver(&self) -> (r: String)
        ensures
            r@ == resolver_text(self@),
    {
        let mut out = String::new();
        out.append("\n    #[Object]\n    impl ");
        out.append(self.kind.label());
        out.append(" {\n        async fn ");
        out.append(self.name.as_str());
        out.append("(&self) -> String {\n            \"Result of ");
        out.append(self.name.as_str());
        out.append(" ");
        out.append(self.kind.noun());
        out.append("\".to_string()\n        }\n    }");
        out
    }
}

/// The handlers of all the endpoints, one after the other.
pub fn generate_routes(endpoints: &[Endpoint]) -> (r: String)
    ensures
        r@ == handlers(endpoints.deep_view()).flatten(),
{
    let ghost all = endpoints.deep_view();
    let mut out = String::new();
    let mut i: usize = 0;
    assert(handlers(all.take(0)) =~= Seq::<Seq<char>>::empty());
    while i < endpoints.len()
        invariant
            i <= endpoints.len(),
            all == endpoints.deep_view(),
            out@ == handlers(all.take(i as int)).flatten(),
        decreases endpoints.len() - i,
    {
        let handler = endpoints[i].handler();
        proof {
            let done = all.take(i as int);
            assert(all.take(i + 1) =~= done.push(all[i as int]));
            assert(handlers(done.push(all[i as int])) =~= handlers(done).push(handler@));
            handlers(done).lemma_flatten_push(handler@);
        }
        out.append(handler.as_str());
        i = i + 1;
    }
    assert(all.take(i as int) =~= all);
    out
}

/// The resolvers of the schema fields of one kind, one after the other.
pub fn generate_resolvers(schemas: &[SchemaField], kind: SchemaKind) -> (r: String)
    ensures
        r@ == resolvers(schemas.deep_view(), kind).flatten(),
{
    let ghost all = schemas.deep_view();
    let mut out = String::new();
    let mut i: usize = 0;
    proof {
        reveal(Seq::filter);
        assert(resolvers(all.take(0), kind) =~= Seq::<Seq<char>>::empty());
    }
    while i < schemas.len()
        invariant
            i <= schemas.len(),
            all == schemas.deep_view(),
            out@ == resolvers(all.take(i as int), kind).flatten(),
        decreases schemas.len() - i,
    {
        let field = &schemas[i];
        proof {
            let done = all.take(i as int);
            assert(all.take(i + 1) =~= done.push(all[i as int]));
            done.lemma_filter_push(all[i as int], has_kind(kind));
        }
        if field.kind == kind {
            let resolver = field.resolver();
            proof {
                let before = resolvers(all.take(i as int), kind);
                assert(resolvers(all.take(i + 1), kind) =~= before.push(resolver@));
                before.lemma_flatten_push(resolver@);
            }
            out.append(resolver.as_str());
        }
        i = i + 1;
    }
    assert(all.take(i as int) =~= all);
    out
}

/// The text of the main source file of a project.
pub fn generate_main_rs(style: ApiStyle, endpoints: &[Endpoint], schemas: &[SchemaField]) -> (r:
    String)
    ensures
        r@ == source_for(style, endpoints.deep_view(), schemas.deep_view()),
{
    match style {
        ApiStyle::Rest => {
            let routes = generate_routes(endpoints);
            let mut out = String::new();
            out.append(REST_HEAD);
            out.append(routes.as_str());
            out.append(REST_TAIL);
            out
        },
        ApiStyle::GraphQL => {
            let queries = generate_resolvers(schemas, SchemaKind::Query);
            let mutations = generate_resolvers(schemas, SchemaKind::Mutation);
            let mut out = String::new();
            out.append(GRAPHQL_HEAD);
            out.append(queries.as_str());
            out.append("\n\n");
            out.append(mutations.as_str());
            out.append(GRAPHQL_TAIL);
            out
        },
    }
}

/// The text of the package manifest of a project.
pub fn generate_cargo_toml(project_name: &str, style: ApiStyle) -> (r: String)
    ensures
        r@ == manifest_text(project_name@, style),
{
    let mut out = String::new();
    out.append("[package]\nname = \"");
    out.append(project_name);
    out.append("\"\n");
    out.append(MANIFEST_PACKAGE);
    match style {
        ApiStyle::Rest => {},
        ApiStyle::GraphQL => {
            out.append(MANIFEST_GRAPHQL);
        },
    }
    out
}

/// Renders a model into the text of its two files.
pub fn render(model: &ProjectModel) -> (r: RenderedProject)
    ensures
        r@ == rendered(model@),
{
    RenderedProject {
        manifest_text: generate_cargo_toml(model.project_name.as_str(), model.style),
        source_text: generate_main_rs(
            model.style,
            model.endpoints.as_slice(),
            model.schemas.as_slice(),
        ),
    }
}

/// Rendering is a function of the model's value: whatever is rendered from
/// one model, at any time, is the same text, character for character and
/// byte for byte.
pub proof fn lemma_render_is_deterministic(
    model: ProjectModel,
    first: RenderedProject,
    second: RenderedProject,
)
    requires
        first@ == rendered(model@),
        second@ == rendered(model@),
    ensures
        first.manifest_text@ == second.manifest_text@,
        first.source_text@ == second.source_text@,
        vstd::utf8::encode_utf8(first.manifest_text@) == vstd::utf8::encode_utf8(
            second.manifest_text@,
        ),
        vstd::utf8::encode_utf8(first.source_text@) == vstd::utf8::encode_utf8(
            second.source_text@,
        ),
{
}

/// Where the name of the package begins in the text of a manifest.
pub open spec fn manifest_name_start() -> int {
    "[package]\nname = \""@.len() as int
}

/// The manifest names the package as the project is named: the name stands
/// in the name field, whole and unchanged, and the field is closed right
/// behind it. Where the name holds no double quote, that is the first one
/// after the field was opened.
pub proof fn lemma_manifest_names_project(project_name: Seq<char>, style: ApiStyle)
    ensures
        manifest_text(project_name, style).subrange(0, manifest_name_start())
            == "[package]\nname = \""@,
        manifest_text(project_name, style).subrange(
            manifest_name_start(),
            manifest_name_start() + project_name.len(),
        ) == project_name,
        manifest_text(project_name, style)[manifest_name_start() + project_name.len()] == '"',
        !project_name.contains('"') ==> forall|k: int|
            manifest_name_start() <= k < manifest_name_start() + project_name.len()
                ==> manifest_text(project_name, style)[k] != '"',
{
    let text = manifest_text(project_name, style);
    let start = manifest_name_start();
    reveal_strlit("\"\n");
    assert(text.subrange(0, start) =~= "[package]\nname = \""@);
    assert(text.subrange(start, start + project_name.len()) =~= project_name);
    assert(text[start + project_name.len()] == "\"\n"@[0]);
    assert forall|k: int| start <= k < start + project_name.len() implies text[k]
        == project_name[k - start] by {}
}

/// Where the path begins in the text of a handler.
pub open spec fn handler_path_start() -> int {
    "\n    app.at(\""@.len() as int
}

/// Where the answer begins in the text of the handler of an endpoint.
pub open spec fn answer_start(endpoint: EndpointView) -> int {
    handler_path_start() + endpoint.path.len() + "\")."@.len()
        + endpoint.method.route_text().len() + "(|_| async {\n        Ok(\""@.len()
}

/// The handler of an endpoint is registered at the endpoint's path, and
/// answers with a text that names the endpoint's path and method as the
/// endpoint has them: the path stands whole and unchanged where the handler
/// is registered, and so does the answer in the handler's body.
pub proof fn lemma_handler_names_endpoint(endpoint: EndpointView)
    ensures
        handler_text(endpoint).subrange(
            handler_path_start(),
            handler_path_start() + endpoint.path.len(),
        ) == endpoint.path,
        handler_text(endpoint).subrange(
            answer_start(endpoint),
            answer_start(endpoint) + answer_text(endpoint).len(),
        ) == answer_text(endpoint),
{
    let text = handler_text(endpoint);
    let path = handler_path_start();
    let answer = answer_start(endpoint);
    assert(text.subrange(path, path + endpoint.path.len()) =~= endpoint.path);
    assert(text.subrange(answer, answer + answer_text(endpoint).len()) =~= answer_text(endpoint));
}

/// Where the name of the root type begins in the text of a resolver.
pub open spec fn resolver_kind_start() -> int {
    "\n    #[Object]\n    impl "@.len() as int
}

/// Where the name of the field begins in the text of the resolver of a
/// schema field.
pub open spec fn resolver_name_start(field: SchemaFieldView) -> int {
    resolver_kind_start() + field.kind.label_text().len() + " {\n        async fn "@.len()
}

/// The resolver of a schema field stands under the root type of the field's
/// kind and is named as the field is: both names stand in the resolver's
/// text, whole and unchanged.
pub proof fn lemma_resolver_names_field(field: SchemaFieldView)
    ensures
        resolver_text(field).subrange(
            resolver_kind_start(),
            resolver_kind_start() + field.kind.label_text().len(),
        ) == field.kind.label_text(),
        resolver_text(field).subrange(
            resolver_name_start(field),
            resolver_name_start(field) + field.name.len(),
        ) == field.name,
{
    let text = resolver_text(field);
    let kind = resolver_kind_start();
    let name = resolver_name_start(field);
    assert(text.subrange(kind, kind + field.kind.label_text().len())
        =~= field.kind.label_text());
    assert(text.subrange(name, name + field.name.len()) =~= field.name);
}

/// The source of either style begins with its fixed head and ends with its
/// fixed tail.
pub proof fn lemma_source_frame(endpoints: Seq<EndpointView>, schemas: Seq<SchemaFieldView>)
    ensures
        rest_source(endpoints).subrange(0, REST_HEAD@.len() as int) == REST_HEAD@,
        rest_source(endpoints).subrange(
            rest_source(endpoints).len() - REST_TAIL@.len(),
            rest_source(endpoints).len() as int,
        ) == REST_TAIL@,
        graphql_source(schemas).subrange(0, GRAPHQL_HEAD@.len() as int) == GRAPHQL_HEAD@,
        graphql_source(schemas).subrange(
            graphql_source(schemas).len() - GRAPHQL_TAIL@.len(),
            graphql_source(schemas).len() as int,
        ) == GRAPHQL_TAIL@,
{
    let rest = rest_source(endpoints);
    let graphql = graphql_source(schemas);
    assert(rest.subrange(0, REST_HEAD@.len() as int) =~= REST_HEAD@);
    assert(rest.subrange(rest.len() - REST_TAIL@.len(), rest.len() as int) =~= REST_TAIL@);
    assert(graphql.subrange(0, GRAPHQL_HEAD@.len() as int) =~= GRAPHQL_HEAD@);
    assert(graphql.subrange(graphql.len() - GRAPHQL_TAIL@.len(), graphql.len() as int)
        =~= GRAPHQL_TAIL@);
}

/// The source of a REST project holds one handler for each endpoint, and
/// nothing else between its fixed head and its fixed tail: handler `i` is
/// that of endpoint `i`, and stands in the source right after the head and
/// the handlers before it, whole and unchanged.
pub proof fn lemma_rest_handlers_follow_endpoints(endpoints: Seq<EndpointView>, i: int)
    requires
        0 <= i < endpoints.len(),
    ensures
        handlers(endpoints).len() == endpoints.len(),
        handlers(endpoints)[i] == handler_text(endpoints[i]),
        rest_source(endpoints).len() == REST_HEAD@.len() + total_len(
            handlers(endpoints),
            endpoints.len() as int,
        ) + REST_TAIL@.len(),
        0 <= total_len(handlers(endpoints), i) <= total_len(handlers(endpoints), i + 1)
            <= total_len(handlers(endpoints), endpoints.len() as int),
        rest_source(endpoints).subrange(
            REST_HEAD@.len() + total_len(handlers(endpoints), i),
            REST_HEAD@.len() + total_len(handlers(endpoints), i + 1),
        ) == handler_text(endpoints[i]),
{
    let texts = handlers(endpoints);
    lemma_flatten_len(texts);
    lemma_flatten_slot(texts, i);
    let from = total_len(texts, i);
    let to = total_len(texts, i + 1);
    assert(rest_source(endpoints).subrange(REST_HEAD@.len() + from, REST_HEAD@.len() + to)
        =~= texts.flatten().subrange(from, to));
}

/// How many schema fields are of one kind.
pub open spec fn kind_count(schemas: Seq<SchemaFieldView>, kind: SchemaKind) -> nat
    decreases schemas.len(),
{
    if schemas.len() == 0 {
        0
    } else {
        kind_count(schemas.drop_last(), kind) + if schemas.last().kind == kind {
            1nat
        } else {
            0nat
        }
    }
}

/// There are as many resolvers of a kind as there are schema fields of that
/// kind, and every schema field has its resolver under one of the two kinds.
pub proof fn lemma_resolvers_count(schemas: Seq<SchemaFieldView>, kind: SchemaKind)
    ensures
        resolvers(schemas, kind).len() == kind_count(schemas, kind),
        kind_count(schemas, SchemaKind::Query) + kind_count(schemas, SchemaKind::Mutation)
            == schemas.len(),
    decreases schemas.len(),
{
    reveal(Seq::filter);
    if schemas.len() > 0 {
        lemma_resolvers_count(schemas.drop_last(), kind);
    }
}

/// Resolver `i` of a kind is that of the `i`-th schema field of that kind,
/// and stands in the source whole and unchanged: the query resolvers right
/// after the head, the mutation resolvers after the query resolvers and the
/// separator.
pub proof fn lemma_resolvers_follow_schema(
    schemas: Seq<SchemaFieldView>,
    kind: SchemaKind,
    i: int,
)
    requires
        0 <= i < kind_count(schemas, kind),
    ensures
        schemas.filter(has_kind(kind)).len() == kind_count(schemas, kind),
        schemas.filter(has_kind(kind))[i].kind == kind,
        resolvers(schemas, kind)[i] == resolver_text(schemas.filter(has_kind(kind))[i]),
        graphql_source(schemas).subrange(
            resolvers_start(schemas, kind) + total_len(resolvers(schemas, kind), i),
            resolvers_start(schemas, kind) + total_len(resolvers(schemas, kind), i + 1),
        ) == resolvers(schemas, kind)[i],
{
    lemma_resolvers_count(schemas, kind);
    let chosen = schemas.filter(has_kind(kind));
    schemas.lemma_filter_pred(has_kind(kind), i);
    let texts = resolvers(schemas, kind);
    lemma_flatten_len(texts);
    lemma_flatten_slot(texts, i);
    let from = total_len(texts, i);
    let to = total_len(texts, i + 1);
    let start = resolvers_start(schemas, kind);
    assert(graphql_source(schemas).subrange(start + from, start + to) =~= texts.flatten().subrange(
        from,
        to,
    ));
}

/// Where the resolvers of a kind begin in the source of a GraphQL project.
pub open spec fn resolvers_start(schemas: Seq<SchemaFieldView>, kind: SchemaKind) -> int {
    match kind {
        SchemaKind::Query => GRAPHQL_HEAD@.len() as int,
        SchemaKind::Mutation => (GRAPHQL_HEAD@.len() + resolvers(
            schemas,
            SchemaKind::Query,
        ).flatten().len() + "\n\n"@.len()) as int,
    }
}

} // verus!
