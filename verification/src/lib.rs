//! Scaffolding of small web-service projects.
//!
//! A [`ProjectModel`] says what is to be generated: a project name, an API
//! style, and the REST endpoints or the GraphQL schema fields of the
//! project. The library collects such a model from the answers to a fixed
//! series of questions, and renders it into the text of a package manifest
//! and of one source file.
//!
//! - [`model`]: the data model and its well-formedness.
//! - [`collect`]: the conversation that collects a model, as a state machine
//!   that is fed one answer at a time.
//! - [`prompt`]: the wording and the choices of each question.
//! - [`count`]: counts in decimal, read from text and written out.
//! - [`render`]: the text of the manifest and of the source file.
//! - [`registrations`]: how often a handler is registered in a REST source.
//! - [`report`]: the lines that tell the user what was collected and done.
//! - [`layout`]: where the files of a project go.
//! - [`text`]: facts about texts laid end to end, and about how often a
//!   pattern occurs in them.
//!
//! The library does no input or output. What each function returns is
//! stated in its contract, over the mathematical views of the data types,
//! and every contract is proved by Verus.

pub mod collect;
pub mod count;
pub mod layout;
pub mod model;
pub mod prompt;
pub mod registrations;
pub mod render;
pub mod report;
pub mod text;

pub use collect::{Action, Answer, CollectError, Collector, Prompt};
pub use layout::{project_paths, ProjectPaths};
pub use model::{ApiStyle, Endpoint, HttpMethod, ProjectModel, SchemaField, SchemaKind};
pub use render::{generate_cargo_toml, generate_main_rs, render, RenderedProject};
pub use report::{success_message, summary_lines};
