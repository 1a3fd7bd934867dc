//! The data model: what a project to be generated consists of.

use vstd::prelude::*;

verus! {

/// The API style of a generated project.
#[derive(Clone, Copy, Debug, PartialEq, Eq, Structural)]
pub enum ApiStyle {
    Rest,
    GraphQL,
}

/// The HTTP method of a REST endpoint.
#[derive(Clone, Copy, Debug, PartialEq, Eq, Structural)]
pub enum HttpMethod {
    Get,
    Post,
    Put,
    Delete,
}

/// The root type a GraphQL schema field is resolved under.
#[derive(Clone, Copy, Debug, PartialEq, Eq, Structural)]
pub enum SchemaKind {
    Query,
    Mutation,
}

impl ApiStyle {
    /// The name under which the style is offered and reported.
    pub open spec fn label_text(self) -> Seq<char> {
        match self {
            ApiStyle::Rest => "REST"@,
            ApiStyle::GraphQL => "GraphQL"@,
        }
    }

    /// The style at position `i` of the list of offered styles.
    pub open spec fn at(i: int) -> Option<ApiStyle> {
        if i == 0 {
            Some(ApiStyle::Rest)
        } else if i == 1 {
            Some(ApiStyle::GraphQL)
        } else {
            None
        }
    }

    /// The name under which the style is offered and reported.
    pub fn label(&self) -> (r: &'static str)
        ensures
            r@ == self.label_text(),
    {
        match self {
            ApiStyle::Rest => "REST",
            ApiStyle::GraphQL => "GraphQL",
        }
    }

    /// Decodes a position in the list of offered styles.
    pub fn from_index(i: usize) -> (r: Option<ApiStyle>)
        ensures
            r == ApiStyle::at(i as int),
    {
        if i == 0 {
            Some(ApiStyle::Rest)
        } else if i == 1 {
            Some(ApiStyle::GraphQL)
        } else {
            None
        }
    }
}

impl HttpMethod {
    /// The upper-case name of the method, as offered and reported.
    pub open spec fn label_text(self) -> Seq<char> {
        match self {
            HttpMethod::Get => "GET"@,
            HttpMethod::Post => "POST"@,
            HttpMethod::Put => "PUT"@,
            HttpMethod::Delete => "DELETE"@,
        }
    }

    /// The name of the call that registers a handler for the method.
    pub open spec fn route_text(self) -> Seq<char> {
        match self {
            HttpMethod::Get => "get"@,
            HttpMethod::Post => "post"@,
            HttpMethod::Put => "put"@,
            HttpMethod::Delete => "delete"@,
        }
    }

    /// The method at position `i` of the list of offered methods.
    pub open spec fn at(i: int) -> Option<HttpMethod> {
        if i == 0 {
            Some(HttpMethod::Get)
        } else if i == 1 {
            Some(HttpMethod::Post)
        } else if i == 2 {
            Some(HttpMethod::Put)
        } else if i == 3 {
            Some(HttpMethod::Delete)
        } else {
            None
        }
    }

    /// The upper-case name of the method.
    pub fn label(&self) -> (r: &'static str)
        ensures
            r@ == self.label_text(),
    {
        match self {
            HttpMethod::Get => "GET",
            HttpMethod::Post => "POST",
            HttpMethod::Put => "PUT",
            HttpMethod::Delete => "DELETE",
        }
    }

    /// The name of the call that registers a handler for the method.
    pub fn route_name(&self) -> (r: &'static str)
        ensures
            r@ == self.route_text(),
    {
        match self {
            HttpMethod::Get => "get",
            HttpMethod::Post => "post",
            HttpMethod::Put => "put",
            HttpMethod::Delete => "delete",
        }
    }

    /// Decodes a position in the list of offered methods.
    pub fn from_index(i: usize) -> (r: Option<HttpMethod>)
        ensures
            r == HttpMethod::at(i as int),
    {
        if i == 0 {
            Some(HttpMethod::Get)
        } else if i == 1 {
            Some(HttpMethod::Post)
        } else if i == 2 {
            Some(HttpMethod::Put)
        } else if i == 3 {
            Some(HttpMethod::Delete)
        } else {
            None
        }
    }
}

impl SchemaKind {
    /// The name of the kind, as offered and reported, and the name of the
    /// root type in generated source.
    pub open spec fn label_text(self) -> Seq<char> {
        match self {
            SchemaKind::Query => "Query"@,
            SchemaKind::Mutation => "Mutation"@,
        }
    }

    /// The lower-case noun used in the text a resolver returns.
    pub open spec fn noun_text(self) -> Seq<char> {
        match self {
            SchemaKind::Query => "query"@,
            SchemaKind::Mutation => "mutation"@,
        }
    }

    /// The kind at position `i` of the list of offered kinds.
    pub open spec fn at(i: int) -> Option<SchemaKind> {
        if i == 0 {
            Some(SchemaKind::Query)
        } else if i == 1 {
            Some(SchemaKind::Mutation)
        } else {
            None
        }
    }

    /// The name of the kind.
    pub fn label(&self) -> (r: &'static str)
        ensures
            r@ == self.label_text(),
    {
        match self {
            SchemaKind::Query => "Query",
            SchemaKind::Mutation => "Mutation",
        }
    }

    /// The lower-case noun for the kind.
    pub fn noun(&self) -> (r: &'static str)
        ensures
            r@ == self.noun_text(),
    {
        match self {
            SchemaKind::Query => "query",
            SchemaKind::Mutation => "mutation",
        }
    }

    /// Decodes a position in the list of offered kinds.
    pub fn from_index(i: usize) -> (r: Option<SchemaKind>)
        ensures
            r == SchemaKind::at(i as int),
    {
        if i == 0 {
            Some(SchemaKind::Query)
        } else if i == 1 {
            Some(SchemaKind::Mutation)
        } else {
            None
        }
    }
}

/// One REST handler to generate: a path and the method it answers.
#[derive(Clone, Debug, PartialEq, Eq)]
pub struct Endpoint {
    pub path: String,
    pub method: HttpMethod,
}

/// The mathematical value of an [`Endpoint`].
pub struct EndpointView {
    pub path: Seq<char>,
    pub method: HttpMethod,
}

impl View for Endpoint {
    type V = EndpointView;

    open spec fn view(&self) -> EndpointView {
        EndpointView { path: self.path@, method: self.method }
    }
}

impl DeepView for Endpoint {
    type V = EndpointView;

    open spec fn deep_view(&self) -> EndpointView {
        self@
    }
}

/// One GraphQL resolver to generate: a field name and its root type.
#[derive(Clone, Debug, PartialEq, Eq)]
pub struct SchemaField {
    pub name: String,
    pub kind: SchemaKind,
}

/// The mathematical value of a [`SchemaField`].
pub struct SchemaFieldView {
    pub name: Seq<char>,
    pub kind: SchemaKind,
}

impl View for SchemaField {
    type V = SchemaFieldView;

    open spec fn view(&self) -> SchemaFieldView {
        SchemaFieldView { name: self.name@, kind: self.kind }
    }
}

impl DeepView for SchemaField {
    type V = SchemaFieldView;

    open spec fn deep_view(&self) -> SchemaFieldView {
        self@
    }
}

/// Everything that determines the generated project.
#[derive(Clone, Debug, PartialEq, Eq)]
pub struct ProjectModel {
    pub project_name: String,
    pub style: ApiStyle,
    pub endpoints: Vec<Endpoint>,
    pub schemas: Vec<SchemaField>,
}

/// The mathematical value of a [`ProjectModel`].
pub struct ProjectModelView {
    pub project_name: Seq<char>,
    pub style: ApiStyle,
    pub endpoints: Seq<EndpointView>,
    pub schemas: Seq<SchemaFieldView>,
}

impl View for ProjectModel {
    type V = ProjectModelView;

    open spec fn view(&self) -> ProjectModelView {
        ProjectModelView {
            project_name: self.project_name@,
            style: self.style,
            endpoints: self.endpoints.deep_view(),
            schemas: self.schemas.deep_view(),
        }
    }
}

/// Every endpoint has a path.
pub open spec fn paths_present(endpoints: Seq<EndpointView>) -> bool {
    forall|i: int| 0 <= i < endpoints.len() ==> (#[trigger] endpoints[i]).path.len() > 0
}

/// Every schema field has a name.
pub open spec fn names_present(schemas: Seq<SchemaFieldView>) -> bool {
    forall|i: int| 0 <= i < schemas.len() ==> (#[trigger] schemas[i]).name.len() > 0
}

impl ProjectModelView {
    /// A model is well formed when its names are not empty and it holds only
    /// the items of its own style: a REST model has no schema fields, a
    /// GraphQL model has no endpoints.
    pub open spec fn wf(self) -> bool {
        &&& self.project_name.len() > 0
        &&& paths_present(self.endpoints)
        &&& names_present(self.schemas)
        &&& self.style == ApiStyle::Rest ==> self.schemas.len() == 0
        &&& self.style == ApiStyle::GraphQL ==> self.endpoints.len() == 0
    }
}

impl ProjectModel {
    /// Whether the model is well formed.
    pub fn is_well_formed(&self) -> (r: bool)
        ensures
            r == self@.wf(),
    {
        if self.project_name.as_str().is_empty() {
            return false;
        }
        let mut i: usize = 0;
        while i < self.endpoints.len()
            invariant
                i <= self.endpoints.len(),
                paths_present(self.endpoints.deep_view().take(i as int)),
            decreases self.endpoints.len() - i,
        {
            if self.endpoints[i].path.as_str().is_empty() {
                assert(self.endpoints.deep_view()[i as int].path.len() == 0);
                return false;
            }
            i = i + 1;
        }
        assert(self.endpoints.deep_view().take(i as int) =~= self.endpoints.deep_view());
        let mut j: usize = 0;
        while j < self.schemas.len()
            invariant
                j <= self.schemas.len(),
                paths_present(self.endpoints.deep_view()),
                self.project_name@.len() > 0,
                names_present(self.schemas.deep_view().take(j as int)),
            decreases self.schemas.len() - j,
        {
            if self.schemas[j].name.as_str().is_empty() {
                assert(self.schemas.deep_view()[j as int].name.len() == 0);
                return false;
            }
            j = j + 1;
        }
        assert(self.schemas.deep_view().take(j as int) =~= self.schemas.deep_view());
        match self.style {
            ApiStyle::Rest => self.schemas.len() == 0,
            ApiStyle::GraphQL => self.endpoints.len() == 0,
        }
    }
}

} // verus!
