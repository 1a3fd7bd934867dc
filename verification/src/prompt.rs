//! What each question looks like: its wording, the choices it offers, the
//! answer it suggests, and the heading printed above it.

use vstd::prelude::*;

use crate::collect::{Prompt, DEFAULT_COUNT};
use crate::count::{count_or, decimal_text, format_count, lemma_decimal_round_trip};
use crate::model::{ApiStyle, HttpMethod, SchemaKind};

verus! {

impl Prompt {
    /// The wording of the question.
    pub open spec fn message_text(self) -> Seq<char> {
        match self {
            Prompt::Styles => {
                "What type of API do you want? (Use SPACE to select, ENTER to confirm)"@
            },
            Prompt::EndpointCount => "How many REST endpoints do you want to create?"@,
            Prompt::EndpointPath { number } => "Enter endpoint path (e.g., /users)"@,
            Prompt::EndpointMethods { number } => "Select HTTP methods for this endpoint"@,
            Prompt::SchemaCount => {
                "How many GraphQL schemas (queries/mutations) do you want to create?"@
            },
            Prompt::SchemaName { number } => "Enter schema name (e.g., getUser)"@,
            Prompt::SchemaKindOf { number } => "Select schema type"@,
        }
    }

    /// The choices that the question offers, in the order in which they are
    /// shown: the choice at a position is the name of what that position
    /// stands for in the answer. A question that asks for text offers none.
    pub open spec fn choice_texts(self) -> Seq<Seq<char>> {
        match self {
            Prompt::Styles => Seq::new(2, |i: int| ApiStyle::at(i).unwrap().label_text()),
            Prompt::EndpointMethods { number } => Seq::new(
                4,
                |i: int| HttpMethod::at(i).unwrap().label_text(),
            ),
            Prompt::SchemaKindOf { number } => Seq::new(
                2,
                |i: int| SchemaKind::at(i).unwrap().label_text(),
            ),
            _ => Seq::empty(),
        }
    }

    /// Whether the question offers a list to choose from, rather than asking
    /// for a line of text.
    pub open spec fn offers_choices(self) -> bool {
        self is Styles || self is EndpointMethods || self is SchemaKindOf
    }

    /// The answer that the question suggests, and that stands for an empty
    /// line: the default count, where a count is asked for.
    pub open spec fn default_text(self) -> Option<Seq<char>> {
        match self {
            Prompt::EndpointCount | Prompt::SchemaCount => Some(
                decimal_text(DEFAULT_COUNT as nat),
            ),
            _ => None,
        }
    }

    /// The line printed above the question, where it begins a new item.
    pub open spec fn heading_text(self) -> Option<Seq<char>> {
        match self {
            Prompt::EndpointPath { number } => Some(
                "\nConfiguring Endpoint #"@ + decimal_text(number as nat),
            ),
            Prompt::SchemaName { number } => Some(
                "\nConfiguring GraphQL Schema #"@ + decimal_text(number as nat),
            ),
            _ => None,
        }
    }

    /// The wording of the question.
    pub fn message(&self) -> (r: &'static str)
        ensures
            r@ == self.message_text(),
    {
        match self {
            Prompt::Styles => {
                "What type of API do you want? (Use SPACE to select, ENTER to confirm)"
            },
            Prompt::EndpointCount => "How many REST endpoints do you want to create?",
            Prompt::EndpointPath { number } => "Enter endpoint path (e.g., /users)",
            Prompt::EndpointMethods { number } => "Select HTTP methods for this endpoint",
            Prompt::SchemaCount => {
                "How many GraphQL schemas (queries/mutations) do you want to create?"
            },
            Prompt::SchemaName { number } => "Enter schema name (e.g., getUser)",
            Prompt::SchemaKindOf { number } => "Select schema type",
        }
    }

    /// The choices that the question offers, in the order in which they
    /// are to be shown.
    pub fn choices(&self) -> (r: Vec<&'static str>)
        ensures
            r.deep_view() == self.choice_texts(),
    {
        let mut r: Vec<&'static str> = Vec::new();
        match self {
            Prompt::Styles => {
                r.push(ApiStyle::Rest.label());
                r.push(ApiStyle::GraphQL.label());
            },
            Prompt::EndpointMethods { number } => {
                r.push(HttpMethod::Get.label());
                r.push(HttpMethod::Post.label());
                r.push(HttpMethod::Put.label());
                r.push(HttpMethod::Delete.label());
            },
            Prompt::SchemaKindOf { number } => {
                r.push(SchemaKind::Query.label());
                r.push(SchemaKind::Mutation.label());
            },
            _ => {},
        }
        r
    }

    /// Whether the question is answered by a choice from a list, rather
    /// than by a line of text.
    pub fn is_choice(&self) -> (r: bool)
        ensures
            r == self.offers_choices(),
    {
        match self {
            Prompt::Styles => true,
            Prompt::EndpointMethods { number } => true,
            Prompt::SchemaKindOf { number } => true,
            _ => false,
        }
    }

    /// The answer that the question suggests, if it suggests one.
    pub fn default_answer(&self) -> (r: Option<String>)
        ensures
            r.deep_view() == self.default_text(),
    {
        match self {
            Prompt::EndpointCount => Some(format_count(DEFAULT_COUNT)),
            Prompt::SchemaCount => Some(format_count(DEFAULT_COUNT)),
            _ => None,
        }
    }

    /// The line to print above the question, if there is one.
    pub fn heading(&self) -> (r: Option<String>)
        ensures
            r.deep_view() == self.heading_text(),
    {
        match self {
            Prompt::EndpointPath { number } => {
                let mut line = String::from_str("\nConfiguring Endpoint #");
                line.append(format_count(*number).as_str());
                Some(line)
            },
            Prompt::SchemaName { number } => {
                let mut line = String::from_str("\nConfiguring GraphQL Schema #");
                line.append(format_count(*number).as_str());
                Some(line)
            },
            _ => None,
        }
    }
}

/// A question offers choices exactly where it is answered by a choice, and
/// then it offers one for each position that an answer can name.
pub proof fn lemma_choices_are_decodable(prompt: Prompt, position: int)
    ensures
        prompt.offers_choices() <==> prompt.choice_texts().len() > 0,
        prompt is Styles ==> (0 <= position < prompt.choice_texts().len() <==> ApiStyle::at(
            position,
        ) is Some),
        prompt is EndpointMethods ==> (0 <= position < prompt.choice_texts().len()
            <==> HttpMethod::at(position) is Some),
        prompt is SchemaKindOf ==> (0 <= position < prompt.choice_texts().len()
            <==> SchemaKind::at(position) is Some),
{
}

/// The suggested answer to a question for a count stands for the default
/// count.
pub proof fn lemma_default_answer_is_default_count(prompt: Prompt, fallback: usize)
    requires
        prompt.default_text() is Some,
    ensures
        count_or(prompt.default_text().unwrap(), fallback) == DEFAULT_COUNT,
{
    lemma_decimal_round_trip(DEFAULT_COUNT as nat);
}

} // verus!
