//! What the user is told: the configuration that was collected, and how the
//! run ended.

use vstd::prelude::*;

use crate::collect::CollectError;
use crate::model::{
    ApiStyle, Endpoint, EndpointView, ProjectModel, ProjectModelView, SchemaField,
    SchemaFieldView,
};

verus! {

/// The line that reports one endpoint.
pub open spec fn endpoint_line(endpoint: EndpointView) -> Seq<char> {
    "- Path: "@ + endpoint.path + ", Method: "@ + endpoint.method.label_text()
}

/// The line that reports one schema field.
pub open spec fn schema_line(field: SchemaFieldView) -> Seq<char> {
    "- Name: "@ + field.name + ", Type: "@ + field.kind.label_text()
}

/// The lines that report a collected configuration: the style, a heading,
/// and one line for each endpoint of a REST model, or for each schema field
/// of a GraphQL model, in their order.
pub open spec fn summary(model: ProjectModelView) -> Seq<Seq<char>> {
    match model.style {
        ApiStyle::Rest => seq![
            "Selected API type: "@ + model.style.label_text(),
            "Configured Endpoints:"@,
        ] + model.endpoints.map_values(|e: EndpointView| endpoint_line(e)),
        ApiStyle::GraphQL => seq![
            "Selected API type: "@ + model.style.label_text(),
            "Configured GraphQL Schema:"@,
        ] + model.schemas.map_values(|f: SchemaFieldView| schema_line(f)),
    }
}

/// The line that reports that the project was written.
pub open spec fn success_text(project_name: Seq<char>) -> Seq<char> {
    "Project '"@ + project_name + "' created successfully!"@
}

impl CollectError {
    /// The words that tell the user of the error.
    pub open spec fn message_text(self) -> Seq<char> {
        match self {
            CollectError::NoApiTypeSelected => {
                "No API type selected. Please choose at least one option."@
            },
            CollectError::UnsupportedApiType => "Unsupported API type"@,
            CollectError::PromptFailed => "Could not read an answer from the terminal."@,
        }
    }

    /// The words that tell the user of the error.
    pub fn message(&self) -> (r: &'static str)
        ensures
            r@ == self.message_text(),
    {
        match self {
            CollectError::NoApiTypeSelected => {
                "No API type selected. Please choose at least one option."
            },
            CollectError::UnsupportedApiType => "Unsupported API type",
            CollectError::PromptFailed => "Could not read an answer from the terminal.",
        }
    }
}

impl Endpoint {
    /// The line that reports this endpoint.
    pub fn summary_line(&self) -> (r: String)
        ensures
            r@ == endpoint_line(self@),
    {
        let mut line = String::from_str("- Path: ");
        line.append(self.path.as_str());
        line.append(", Method: ");
        line.append(self.method.label());
        line
    }
}

impl SchemaField {
    /// The line that reports this schema field.
    pub fn summary_line(&self) -> (r: String)
        ensures
            r@ == schema_line(self@),
    {
        let mut line = String::from_str("- Name: ");
        line.append(self.name.as_str());
        line.append(", Type: ");
        line.append(self.kind.label());
        line
    }
}

/// The lines that report a collected configuration.
pub fn summary_lines(model: &ProjectModel) -> (r: Vec<String>)
    ensures
        r.deep_view() == summary(model@),
{
    let mut lines: Vec<String> = Vec::new();
    let mut first = String::from_str("Selected API type: ");
    first.append(model.style.label());
    lines.push(first);
    match model.style {
        ApiStyle::Rest => {
            lines.push(String::from_str("Configured Endpoints:"));
            let mut i: usize = 0;
            while i < model.endpoints.len()
                invariant
                    i <= model.endpoints.len(),
                    model.style == ApiStyle::Rest,
                    lines.len() == i + 2,
                    lines.deep_view() == summary(model@).take(i + 2),
                decreases model.endpoints.len() - i,
            {
                let ghost before = lines.deep_view();
                lines.push(model.endpoints[i].summary_line());
                i = i + 1;
                assert(lines.deep_view() =~= summary(model@).take(i + 2)) by {
                    let wanted = summary(model@);
                    assert forall|k: int| 0 <= k < i + 2 implies lines.deep_view()[k]
                        == wanted[k] by {
                        if k < i + 1 {
                            assert(before[k] == wanted.take(i + 1)[k]);
                        }
                    }
                }
            }
        },
        ApiStyle::GraphQL => {
            lines.push(String::from_str("Configured GraphQL Schema:"));
            let mut i: usize = 0;
            while i < model.schemas.len()
                invariant
                    i <= model.schemas.len(),
                    model.style == ApiStyle::GraphQL,
                    lines.len() == i + 2,
                    lines.deep_view() == summary(model@).take(i + 2),
                decreases model.schemas.len() - i,
            {
                let ghost before = lines.deep_view();
                lines.push(model.schemas[i].summary_line());
                i = i + 1;
                assert(lines.deep_view() =~= summary(model@).take(i + 2)) by {
                    let wanted = summary(model@);
                    assert forall|k: int| 0 <= k < i + 2 implies lines.deep_view()[k]
                        == wanted[k] by {
                        if k < i + 1 {
                            assert(before[k] == wanted.take(i + 1)[k]);
                        }
                    }
                }
            }
        },
    }
    lines
}

/// The line that reports that the project was written.
pub fn success_message(project_name: &str) -> (r: String)
    ensures
        r@ == success_text(project_name@),
{
    let mut line = String::from_str("Project '");
    line.append(project_name);
    line.append("' created successfully!");
    line
}

} // verus!
