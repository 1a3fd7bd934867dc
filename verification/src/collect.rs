//! Collecting a project's configuration, one answer at a time.
//!
//! The questions are put to the user by the caller; what is asked next, and
//! what each answer leads to, is decided here. A [`Collector`] is the state of
//! that conversation. [`Collector::action`] says what the caller has to do,
//! [`Collector::step`] takes the answer to a question, and
//! [`Collector::finish`] hands out the finished [`ProjectModel`].
//!
//! The rules are written down once, over mathematical values, as
//! [`CollectorView::next`]; the executable code is proved to follow them.

use vstd::prelude::*;

use crate::count::{count_or, count_or_default};
use crate::model::{
    names_present, paths_present, ApiStyle, Endpoint, EndpointView, HttpMethod, ProjectModel,
    ProjectModelView, SchemaField, SchemaFieldView, SchemaKind,
};

verus! {

/// How many endpoints, or schema fields, are configured where the answer to
/// the question "how many" denotes no count. It is the same for both.
pub const DEFAULT_COUNT: usize = 2;

/// Why no configuration could be collected.
#[derive(Clone, Copy, Debug, PartialEq, Eq, Structural)]
pub enum CollectError {
    /// The list of API styles came back with nothing chosen.
    NoApiTypeSelected,
    /// The first chosen API style is none of the offered ones.
    UnsupportedApiType,
    /// A question could not be put, or its answer is not of the asked form.
    PromptFailed,
}

/// The answer to one question.
#[derive(Clone, Debug, PartialEq, Eq)]
pub enum Answer {
    /// The chosen positions of a list of choices, in the order of the list.
    Selected(Vec<usize>),
    /// A line of text.
    Text(String),
    /// The question could not be put, or the user broke off.
    Failed,
}

/// The mathematical value of an [`Answer`].
pub enum AnswerView {
    Selected(Seq<usize>),
    Text(Seq<char>),
    Failed,
}

impl View for Answer {
    type V = AnswerView;

    open spec fn view(&self) -> AnswerView {
        match self {
            Answer::Selected(positions) => AnswerView::Selected(positions@),
            Answer::Text(text) => AnswerView::Text(text@),
            Answer::Failed => AnswerView::Failed,
        }
    }
}

impl DeepView for Answer {
    type V = AnswerView;

    open spec fn deep_view(&self) -> AnswerView {
        self@
    }
}

/// A question to put to the user. `number` counts the items from one.
#[derive(Clone, Copy, Debug, PartialEq, Eq, Structural)]
pub enum Prompt {
    /// Choose among the API styles.
    Styles,
    /// How many endpoints?
    EndpointCount,
    /// The path of endpoint `number`.
    EndpointPath { number: usize },
    /// Choose among the HTTP methods, for endpoint `number`.
    EndpointMethods { number: usize },
    /// How many schema fields?
    SchemaCount,
    /// The name of schema field `number`.
    SchemaName { number: usize },
    /// Choose among the schema kinds, for schema field `number`.
    SchemaKindOf { number: usize },
}

/// What the caller has to do next.
#[derive(Clone, Copy, Debug, PartialEq, Eq, Structural)]
pub enum Action {
    /// Put this question and hand the answer to [`Collector::step`].
    Ask(Prompt),
    /// The configuration is complete: take the model.
    Finish,
    /// Collecting has failed for good: report the error and stop.
    Abort(CollectError),
}

/// Where a conversation stands. `done` items are configured out of `total`.
pub enum StageView {
    Style,
    EndpointCount,
    EndpointPath { done: usize, total: usize },
    EndpointMethods { done: usize, total: usize, path: Seq<char> },
    SchemaCount,
    SchemaName { done: usize, total: usize },
    SchemaKindOf { done: usize, total: usize, name: Seq<char> },
    Done(ApiStyle),
    Failed(CollectError),
}

/// The mathematical value of a [`Collector`].
pub struct CollectorView {
    pub project_name: Seq<char>,
    pub stage: StageView,
    pub endpoints: Seq<EndpointView>,
    pub schemas: Seq<SchemaFieldView>,
}

/// Every chosen position is that of an offered HTTP method.
pub open spec fn methods_in_range(positions: Seq<usize>) -> bool {
    forall|i: int|
        0 <= i < positions.len() ==> HttpMethod::at(#[trigger] positions[i] as int) is Some
}

/// The HTTP methods at the chosen positions, in the order they were chosen.
pub open spec fn methods_at(positions: Seq<usize>) -> Seq<HttpMethod> {
    positions.map_values(|p: usize| HttpMethod::at(p as int).unwrap())
}

/// The endpoints configured for one path: one for each chosen method, in the
/// order of the methods, and a single `GET` endpoint where none was chosen.
pub open spec fn endpoints_for(path: Seq<char>, methods: Seq<HttpMethod>) -> Seq<EndpointView> {
    if methods.len() == 0 {
        seq![EndpointView { path, method: HttpMethod::Get }]
    } else {
        methods.map_values(|m: HttpMethod| EndpointView { path, method: m })
    }
}

/// The schema kind that a choice stands for: the first chosen one, and
/// `Query` where none was chosen. `None` if the first chosen position is not
/// that of an offered kind.
pub open spec fn kind_for(positions: Seq<usize>) -> Option<SchemaKind> {
    if positions.len() == 0 {
        Some(SchemaKind::Query)
    } else {
        SchemaKind::at(positions[0] as int)
    }
}

/// The stage after item `done` of `total` has been configured.
pub open spec fn after_endpoint(done: usize, total: usize) -> StageView {
    if done + 1 >= total {
        StageView::Done(ApiStyle::Rest)
    } else {
        StageView::EndpointPath { done: (done + 1) as usize, total }
    }
}

/// The stage after item `done` of `total` has been configured.
pub open spec fn after_schema(done: usize, total: usize) -> StageView {
    if done + 1 >= total {
        StageView::Done(ApiStyle::GraphQL)
    } else {
        StageView::SchemaName { done: (done + 1) as usize, total }
    }
}

impl CollectorView {
    /// The state before the first question.
    pub open spec fn initial(project_name: Seq<char>) -> CollectorView {
        CollectorView {
            project_name,
            stage: StageView::Style,
            endpoints: Seq::empty(),
            schemas: Seq::empty(),
        }
    }

    /// The same state at another stage.
    pub open spec fn at_stage(self, stage: StageView) -> CollectorView {
        CollectorView { stage, ..self }
    }

    /// The state after the failure `error`.
    pub open spec fn fail(self, error: CollectError) -> CollectorView {
        self.at_stage(StageView::Failed(error))
    }

    /// What holds of every state that a conversation can reach.
    pub open spec fn wf(self) -> bool {
        &&& self.project_name.len() > 0
        &&& paths_present(self.endpoints)
        &&& names_present(self.schemas)
        &&& match self.stage {
            StageView::Style | StageView::EndpointCount | StageView::SchemaCount => {
                self.endpoints.len() == 0 && self.schemas.len() == 0
            },
            StageView::EndpointPath { done, total } => {
                done < total && self.endpoints.len() >= done && self.schemas.len() == 0
            },
            StageView::EndpointMethods { done, total, path } => {
                done < total && self.endpoints.len() >= done && self.schemas.len() == 0
                    && path.len() > 0
            },
            StageView::SchemaName { done, total } => {
                done < total && self.schemas.len() == done && self.endpoints.len() == 0
            },
            StageView::SchemaKindOf { done, total, name } => {
                done < total && self.schemas.len() == done && self.endpoints.len() == 0
                    && name.len() > 0
            },
            StageView::Done(ApiStyle::Rest) => self.schemas.len() == 0,
            StageView::Done(ApiStyle::GraphQL) => self.endpoints.len() == 0,
            StageView::Failed(_) => true,
        }
    }

    /// What the caller has to do in this state.
    pub open spec fn action(self) -> Action {
        match self.stage {
            StageView::Style => Action::Ask(Prompt::Styles),
            StageView::EndpointCount => Action::Ask(Prompt::EndpointCount),
            StageView::EndpointPath { done, total } => Action::Ask(
                Prompt::EndpointPath { number: (done + 1) as usize },
            ),
            StageView::EndpointMethods { done, total, path } => Action::Ask(
                Prompt::EndpointMethods { number: (done + 1) as usize },
            ),
            StageView::SchemaCount => Action::Ask(Prompt::SchemaCount),
            StageView::SchemaName { done, total } => Action::Ask(
                Prompt::SchemaName { number: (done + 1) as usize },
            ),
            StageView::SchemaKindOf { done, total, name } => Action::Ask(
                Prompt::SchemaKindOf { number: (done + 1) as usize },
            ),
            StageView::Done(_) => Action::Finish,
            StageView::Failed(error) => Action::Abort(error),
        }
    }

    /// The collected model, once the conversation is over and has not
    /// failed.
    pub open spec fn model(self) -> Option<ProjectModelView> {
        match self.stage {
            StageView::Done(style) => Some(
                ProjectModelView {
                    project_name: self.project_name,
                    style,
                    endpoints: self.endpoints,
                    schemas: self.schemas,
                },
            ),
            _ => None,
        }
    }

    /// How the conversation ends if it is ended in this state: with the
    /// collected model, or with the error it failed with. One that is ended
    /// while a question is open has failed to get an answer.
    pub open spec fn result(self) -> Result<ProjectModelView, CollectError> {
        match self.stage {
            StageView::Done(_) => Ok(self.model().unwrap()),
            StageView::Failed(error) => Err(error),
            _ => Err(CollectError::PromptFailed),
        }
    }

    /// The state after a choice from a list was answered.
    ///
    /// - Of the API styles the first chosen one counts. None chosen is an
    ///   error, and so is a first choice that is no offered style.
    /// - The chosen HTTP methods give one endpoint each for the path asked
    ///   before; none chosen gives a single `GET` endpoint.
    /// - Of the schema kinds the first chosen one counts; none chosen stands
    ///   for `Query`.
    /// - A choice that is no answer to the question asked is a failure.
    pub open spec fn after_selection(self, positions: Seq<usize>) -> CollectorView {
        match self.stage {
            StageView::Style => {
                if positions.len() == 0 {
                    self.fail(CollectError::NoApiTypeSelected)
                } else {
                    match ApiStyle::at(positions[0] as int) {
                        Some(ApiStyle::Rest) => self.at_stage(StageView::EndpointCount),
                        Some(ApiStyle::GraphQL) => self.at_stage(StageView::SchemaCount),
                        None => self.fail(CollectError::UnsupportedApiType),
                    }
                }
            },
            StageView::EndpointMethods { done, total, path } => {
                if methods_in_range(positions) {
                    CollectorView {
                        stage: after_endpoint(done, total),
                        endpoints: self.endpoints + endpoints_for(path, methods_at(positions)),
                        ..self
                    }
                } else {
                    self.fail(CollectError::PromptFailed)
                }
            },
            StageView::SchemaKindOf { done, total, name } => {
                match kind_for(positions) {
                    Some(kind) => CollectorView {
                        stage: after_schema(done, total),
                        schemas: self.schemas.push(SchemaFieldView { name, kind }),
                        ..self
                    },
                    None => self.fail(CollectError::PromptFailed),
                }
            },
            _ => self.fail(CollectError::PromptFailed),
        }
    }

    /// The state after a line of text was answered.
    ///
    /// - A count is read from the text, and is [`DEFAULT_COUNT`] where the
    ///   text denotes none. A count of zero ends the conversation.
    /// - A path or a name must not be empty: an empty one leaves the state
    ///   as it is, so that the question is asked again.
    /// - Text that is no answer to the question asked is a failure.
    pub open spec fn after_text(self, text: Seq<char>) -> CollectorView {
        match self.stage {
            StageView::EndpointCount => {
                let total = count_or(text, DEFAULT_COUNT);
                if total == 0 {
                    self.at_stage(StageView::Done(ApiStyle::Rest))
                } else {
                    self.at_stage(StageView::EndpointPath { done: 0, total })
                }
            },
            StageView::EndpointPath { done, total } => {
                if text.len() == 0 {
                    self
                } else {
                    self.at_stage(StageView::EndpointMethods { done, total, path: text })
                }
            },
            StageView::SchemaCount => {
                let total = count_or(text, DEFAULT_COUNT);
                if total == 0 {
                    self.at_stage(StageView::Done(ApiStyle::GraphQL))
                } else {
                    self.at_stage(StageView::SchemaName { done: 0, total })
                }
            },
            StageView::SchemaName { done, total } => {
                if text.len() == 0 {
                    self
                } else {
                    self.at_stage(StageView::SchemaKindOf { done, total, name: text })
                }
            },
            _ => self.fail(CollectError::PromptFailed),
        }
    }

    /// The state after `answer` was given to the question of this state.
    /// A conversation that is over, or has failed, stays as it is.
    pub open spec fn next(self, answer: AnswerView) -> CollectorView {
        match self.stage {
            StageView::Done(_) | StageView::Failed(_) => self,
            _ => match answer {
                AnswerView::Selected(positions) => self.after_selection(positions),
                AnswerView::Text(text) => self.after_text(text),
                AnswerView::Failed => self.fail(CollectError::PromptFailed),
            },
        }
    }
}

/// The state after a sequence of answers, given in turn.
pub open spec fn run(state: CollectorView, answers: Seq<AnswerView>) -> CollectorView
    decreases answers.len(),
{
    if answers.len() == 0 {
        state
    } else {
        run(state, answers.drop_last()).next(answers.last())
    }
}

/// How a conversation ends to which `answers` are given in turn and nothing
/// after them. Answers that come after its end are not looked at.
pub open spec fn outcome(project_name: Seq<char>, answers: Seq<AnswerView>) -> Result<
    ProjectModelView,
    CollectError,
> {
    run(CollectorView::initial(project_name), answers).result()
}

/// A conversation starts well formed, with the question for the API style.
pub proof fn lemma_initial_wf(project_name: Seq<char>)
    requires
        project_name.len() > 0,
    ensures
        CollectorView::initial(project_name).wf(),
        CollectorView::initial(project_name).action() == Action::Ask(Prompt::Styles),
{
}

/// No answer leads a well-formed conversation to a state that is not well
/// formed, and none changes the project's name.
pub proof fn lemma_next_wf(state: CollectorView, answer: AnswerView)
    requires
        state.wf(),
    ensures
        state.next(answer).wf(),
        state.next(answer).project_name == state.project_name,
{
    let after = state.next(answer);
    match state.stage {
        StageView::EndpointMethods { done, total, path } => {
            if let AnswerView::Selected(positions) = answer {
                if methods_in_range(positions) {
                    let added = endpoints_for(path, methods_at(positions));
                    assert forall|i: int| 0 <= i < added.len() implies (#[trigger] added[i]).path
                        == path by {}
                }
            }
        },
        _ => {},
    }
}

/// Every state that answers lead to from a well-formed one is well formed,
/// and has the project's name unchanged.
pub proof fn lemma_run_wf(state: CollectorView, answers: Seq<AnswerView>)
    requires
        state.wf(),
    ensures
        run(state, answers).wf(),
        run(state, answers).project_name == state.project_name,
    decreases answers.len(),
{
    if answers.len() > 0 {
        lemma_run_wf(state, answers.drop_last());
        lemma_next_wf(run(state, answers.drop_last()), answers.last());
    }
}

/// The model of a finished, well-formed conversation is well formed, and
/// carries the project name the conversation began with.
pub proof fn lemma_model_wf(state: CollectorView)
    requires
        state.wf(),
        state.model() is Some,
    ensures
        state.model().unwrap().wf(),
        state.model().unwrap().project_name == state.project_name,
{
}

/// Whatever the answers, a model that comes out of a conversation is well
/// formed and bears the name the conversation was begun with.
pub proof fn lemma_outcome_wf(project_name: Seq<char>, answers: Seq<AnswerView>)
    requires
        project_name.len() > 0,
    ensures
        outcome(project_name, answers) matches Ok(model) ==> model.wf() && model.project_name
            == project_name,
{
    lemma_run_wf(CollectorView::initial(project_name), answers);
}

/// A conversation that is over or has failed is not changed by any further
/// answers.
pub proof fn lemma_ended_stays(state: CollectorView, answers: Seq<AnswerView>)
    requires
        state.stage is Failed || state.stage is Done,
    ensures
        run(state, answers) == state,
    decreases answers.len(),
{
    if answers.len() > 0 {
        lemma_ended_stays(state, answers.drop_last());
    }
}

/// Giving answers in turn is giving the first, and then the rest.
pub proof fn lemma_run_first(state: CollectorView, first: AnswerView, rest: Seq<AnswerView>)
    ensures
        run(state, seq![first] + rest) == run(state.next(first), rest),
    decreases rest.len(),
{
    let all = seq![first] + rest;
    if rest.len() == 0 {
        assert(run(state, all.drop_last()) == state);
    } else {
        lemma_run_first(state, first, rest.drop_last());
        assert(all.drop_last() =~= seq![first] + rest.drop_last());
    }
}

/// Where no API style is chosen, the conversation fails at once, and ends
/// with that error whatever is answered later: no model comes about.
pub proof fn lemma_no_style_fails(project_name: Seq<char>, later: Seq<AnswerView>)
    ensures
        CollectorView::initial(project_name).next(AnswerView::Selected(Seq::empty())).action()
            == Action::Abort(CollectError::NoApiTypeSelected),
        outcome(project_name, seq![AnswerView::Selected(Seq::empty())] + later) == Err::<
            ProjectModelView,
            CollectError,
        >(CollectError::NoApiTypeSelected),
{
    let start = CollectorView::initial(project_name);
    let none = AnswerView::Selected(Seq::empty());
    lemma_run_first(start, none, later);
    lemma_ended_stays(start.next(none), later);
}

/// Where no HTTP method is chosen for a path, exactly one endpoint is added
/// for it, and its method is `GET`.
pub proof fn lemma_no_method_gives_get(state: CollectorView)
    requires
        state.stage is EndpointMethods,
    ensures
        state.next(AnswerView::Selected(Seq::empty())).endpoints == state.endpoints.push(
            EndpointView { path: state.stage->path, method: HttpMethod::Get },
        ),
{
    let positions = Seq::<usize>::empty();
    assert(state.endpoints + seq![
        EndpointView { path: state.stage->path, method: HttpMethod::Get },
    ] =~= state.endpoints.push(EndpointView { path: state.stage->path, method: HttpMethod::Get }));
}

/// Where HTTP methods are chosen for a path, one endpoint is added for each
/// of them, in their order, and each has that path.
pub proof fn lemma_methods_give_endpoints(state: CollectorView, positions: Seq<usize>, i: int)
    requires
        state.stage is EndpointMethods,
        methods_in_range(positions),
        0 <= i < positions.len(),
    ensures
        state.next(AnswerView::Selected(positions)).endpoints.len() == state.endpoints.len()
            + positions.len(),
        state.next(AnswerView::Selected(positions)).endpoints[state.endpoints.len() + i]
            == (EndpointView {
            path: state.stage->path,
            method: HttpMethod::at(positions[i] as int).unwrap(),
        }),
{
}

/// Every item that was counted is configured: when the last of them is
/// answered the conversation is over, a GraphQL model then has one schema
/// field for each, a REST model at least one endpoint for each.
pub proof fn lemma_items_are_counted(state: CollectorView, answer: AnswerView)
    requires
        state.wf(),
    ensures
        state.stage matches StageView::EndpointMethods { done, total, .. } ==> {
            let after = state.next(answer);
            &&& after.stage is Failed || after.endpoints.len() >= done + 1
            &&& after.stage is Done <==> !(after.stage is Failed) && done + 1 == total
        },
        state.stage matches StageView::SchemaKindOf { done, total, .. } ==> {
            let after = state.next(answer);
            &&& after.stage is Failed || after.schemas.len() == done + 1
            &&& after.stage is Done <==> !(after.stage is Failed) && done + 1 == total
        },
{
    if let StageView::EndpointMethods { done, total, path } = state.stage {
        if let AnswerView::Selected(positions) = answer {
            if methods_in_range(positions) {
            }
        }
    }
}

/// Where a conversation stands, with the text in hand.
#[derive(Debug)]
enum Stage {
    Style,
    EndpointCount,
    EndpointPath { done: usize, total: usize },
    EndpointMethods { done: usize, total: usize, path: String },
    SchemaCount,
    SchemaName { done: usize, total: usize },
    SchemaKindOf { done: usize, total: usize, name: String },
    Done(ApiStyle),
    Failed(CollectError),
}

impl View for Stage {
    type V = StageView;

    closed spec fn view(&self) -> StageView {
        match self {
            Stage::Style => StageView::Style,
            Stage::EndpointCount => StageView::EndpointCount,
            Stage::EndpointPath { done, total } => StageView::EndpointPath {
                done: *done,
                total: *total,
            },
            Stage::EndpointMethods { done, total, path } => StageView::EndpointMethods {
                done: *done,
                total: *total,
                path: path@,
            },
            Stage::SchemaCount => StageView::SchemaCount,
            Stage::SchemaName { done, total } => StageView::SchemaName {
                done: *done,
                total: *total,
            },
            Stage::SchemaKindOf { done, total, name } => StageView::SchemaKindOf {
                done: *done,
                total: *total,
                name: name@,
            },
            Stage::Done(style) => StageView::Done(*style),
            Stage::Failed(error) => StageView::Failed(*error),
        }
    }
}

/// The state of a conversation that collects a project's configuration.
#[derive(Debug)]
pub struct Collector {
    project_name: String,
    stage: Stage,
    endpoints: Vec<Endpoint>,
    schemas: Vec<SchemaField>,
}

impl View for Collector {
    type V = CollectorView;

    closed spec fn view(&self) -> CollectorView {
        CollectorView {
            project_name: self.project_name@,
            stage: self.stage@,
            endpoints: self.endpoints.deep_view(),
            schemas: self.schemas.deep_view(),
        }
    }
}

/// The HTTP methods at the chosen positions, in the order they were chosen;
/// `None` if a position is not that of an offered method.
pub fn methods_from_selection(positions: &Vec<usize>) -> (r: Option<Vec<HttpMethod>>)
    ensures
        r is Some <==> methods_in_range(positions@),
        r matches Some(methods) ==> methods@ == methods_at(positions@),
{
    let mut methods: Vec<HttpMethod> = Vec::new();
    let mut i: usize = 0;
    while i < positions.len()
        invariant
            i <= positions.len(),
            methods_in_range(positions@.take(i as int)),
            methods@ == methods_at(positions@.take(i as int)),
        decreases positions.len() - i,
    {
        match HttpMethod::from_index(positions[i]) {
            None => {
                return None;
            },
            Some(method) => {
                methods.push(method);
            },
        }
        i = i + 1;
    }
    assert(positions@.take(i as int) =~= positions@);
    Some(methods)
}

/// The endpoints configured for one path: one for each chosen method, and a
/// single `GET` endpoint where none was chosen.
pub fn expand_endpoint(path: &str, methods: &Vec<HttpMethod>) -> (r: Vec<Endpoint>)
    ensures
        r.deep_view() == endpoints_for(path@, methods@),
{
    let mut endpoints: Vec<Endpoint> = Vec::new();
    if methods.len() == 0 {
        endpoints.push(Endpoint { path: path.to_owned(), method: HttpMethod::Get });
        return endpoints;
    }
    let mut i: usize = 0;
    while i < methods.len()
        invariant
            i <= methods.len(),
            endpoints.len() == i,
            endpoints.deep_view() == endpoints_for(path@, methods@).take(i as int),
            methods.len() > 0,
        decreases methods.len() - i,
    {
        let ghost before = endpoints.deep_view();
        endpoints.push(Endpoint { path: path.to_owned(), method: methods[i] });
        i = i + 1;
        assert(endpoints.deep_view() =~= endpoints_for(path@, methods@).take(i as int)) by {
            let wanted = endpoints_for(path@, methods@);
            assert forall|k: int| 0 <= k < i implies endpoints.deep_view()[k] == wanted[k] by {
                if k < i - 1 {
                    assert(before[k] == wanted.take(i - 1)[k]);
                }
            }
        }
    }
    endpoints
}

/// The schema kind that a choice stands for: the first chosen one, and
/// `Query` where none was chosen.
pub fn kind_from_selection(positions: &Vec<usize>) -> (r: Option<SchemaKind>)
    ensures
        r == kind_for(positions@),
{
    if positions.len() == 0 {
        Some(SchemaKind::Query)
    } else {
        SchemaKind::from_index(positions[0])
    }
}

impl Collector {
    #[verifier::type_invariant]
    spec fn inv(self) -> bool {
        self@.wf()
    }

    /// Begins a conversation about the project `project_name`.
    pub fn new(project_name: String) -> (c: Collector)
        requires
            project_name@.len() > 0,
        ensures
            c@ == CollectorView::initial(project_name@),
            c@.wf(),
    {
        let c = Collector {
            project_name,
            stage: Stage::Style,
            endpoints: Vec::new(),
            schemas: Vec::new(),
        };
        assert(c.endpoints.deep_view() =~= Seq::empty());
        assert(c.schemas.deep_view() =~= Seq::empty());
        c
    }

    /// What the caller has to do next.
    pub fn action(&self) -> (a: Action)
        ensures
            a == self@.action(),
    {
        proof {
            use_type_invariant(self);
        }
        match &self.stage {
            Stage::Style => Action::Ask(Prompt::Styles),
            Stage::EndpointCount => Action::Ask(Prompt::EndpointCount),
            Stage::EndpointPath { done, total } => Action::Ask(
                Prompt::EndpointPath { number: *done + 1 },
            ),
            Stage::EndpointMethods { done, total, path } => Action::Ask(
                Prompt::EndpointMethods { number: *done + 1 },
            ),
            Stage::SchemaCount => Action::Ask(Prompt::SchemaCount),
            Stage::SchemaName { done, total } => Action::Ask(
                Prompt::SchemaName { number: *done + 1 },
            ),
            Stage::SchemaKindOf { done, total, name } => Action::Ask(
                Prompt::SchemaKindOf { number: *done + 1 },
            ),
            Stage::Done(_) => Action::Finish,
            Stage::Failed(error) => Action::Abort(*error),
        }
    }

    /// Takes the answer to the question that [`Collector::action`] asked
    /// for, and moves on.
    pub fn step(self, answer: &Answer) -> (next: Collector)
        ensures
            next@ == self@.next(answer@),
            next@.wf(),
    {
        proof {
            use_type_invariant(&self);
            lemma_next_wf(self@, answer@);
        }
        let ghost goal = self@.next(answer@);
        let Collector { project_name, stage, mut endpoints, mut schemas } = self;
        let stage = match stage {
            Stage::Done(style) => Stage::Done(style),
            Stage::Failed(error) => Stage::Failed(error),
            Stage::Style => match answer {
                Answer::Selected(positions) => {
                    if positions.len() == 0 {
                        Stage::Failed(CollectError::NoApiTypeSelected)
                    } else {
                        match ApiStyle::from_index(positions[0]) {
                            Some(ApiStyle::Rest) => Stage::EndpointCount,
                            Some(ApiStyle::GraphQL) => Stage::SchemaCount,
                            None => Stage::Failed(CollectError::UnsupportedApiType),
                        }
                    }
                },
                _ => Stage::Failed(CollectError::PromptFailed),
            },
            Stage::EndpointCount => match answer {
                Answer::Text(text) => {
                    let total: usize = count_or_default(text.as_str(), DEFAULT_COUNT);
                    if total == 0 {
                        Stage::Done(ApiStyle::Rest)
                    } else {
                        Stage::EndpointPath { done: 0, total }
                    }
                },
                _ => Stage::Failed(CollectError::PromptFailed),
            },
            Stage::EndpointPath { done, total } => match answer {
                Answer::Text(text) => {
                    if text.as_str().is_empty() {
                        Stage::EndpointPath { done, total }
                    } else {
                        Stage::EndpointMethods { done, total, path: text.clone() }
                    }
                },
                _ => Stage::Failed(CollectError::PromptFailed),
            },
            Stage::EndpointMethods { done, total, path } => match answer {
                Answer::Selected(positions) => match methods_from_selection(positions) {
                    Some(methods) => {
                        let mut added = expand_endpoint(path.as_str(), &methods);
                        endpoints.append(&mut added);
                        if done + 1 >= total {
                            Stage::Done(ApiStyle::Rest)
                        } else {
                            Stage::EndpointPath { done: done + 1, total }
                        }
                    },
                    None => Stage::Failed(CollectError::PromptFailed),
                },
                _ => Stage::Failed(CollectError::PromptFailed),
            },
            Stage::SchemaCount => match answer {
                Answer::Text(text) => {
                    let total: usize = count_or_default(text.as_str(), DEFAULT_COUNT);
                    if total == 0 {
                        Stage::Done(ApiStyle::GraphQL)
                    } else {
                        Stage::SchemaName { done: 0, total }
                    }
                },
                _ => Stage::Failed(CollectError::PromptFailed),
            },
            Stage::SchemaName { done, total } => match answer {
                Answer::Text(text) => {
                    if text.as_str().is_empty() {
                        Stage::SchemaName { done, total }
                    } else {
                        Stage::SchemaKindOf { done, total, name: text.clone() }
                    }
                },
                _ => Stage::Failed(CollectError::PromptFailed),
            },
            Stage::SchemaKindOf { done, total, name } => match answer {
                Answer::Selected(positions) => match kind_from_selection(positions) {
                    Some(kind) => {
                        schemas.push(SchemaField { name, kind });
                        if done + 1 >= total {
                            Stage::Done(ApiStyle::GraphQL)
                        } else {
                            Stage::SchemaName { done: done + 1, total }
                        }
                    },
                    None => Stage::Failed(CollectError::PromptFailed),
                },
                _ => Stage::Failed(CollectError::PromptFailed),
            },
        };
        assert(endpoints.deep_view() == goal.endpoints);
        assert(schemas.deep_view() == goal.schemas);
        Collector { project_name, stage, endpoints, schemas }
    }

    /// Ends the conversation: hands out the collected model, or the error
    /// that the conversation failed with. A conversation that is ended while
    /// a question is open has failed to get an answer.
    pub fn finish(self) -> (r: Result<ProjectModel, CollectError>)
        ensures
            match r {
                Ok(model) => self@.result() == Ok::<ProjectModelView, CollectError>(model@)
                    && model@.wf(),
                Err(error) => self@.result() == Err::<ProjectModelView, CollectError>(error),
            },
    {
        proof {
            use_type_invariant(&self);
            if self@.model() is Some {
                lemma_model_wf(self@);
            }
        }
        let Collector { project_name, stage, endpoints, schemas } = self;
        match stage {
            Stage::Done(style) => Ok(ProjectModel { project_name, style, endpoints, schemas }),
            Stage::Failed(error) => Err(error),
            _ => Err(CollectError::PromptFailed),
        }
    }
}

/// Collects the configuration of the project `project_name` from answers
/// that are already at hand.
pub fn collect(project_name: String, answers: &Vec<Answer>) -> (r: Result<
    ProjectModel,
    CollectError,
>)
    requires
        project_name@.len() > 0,
    ensures
        match r {
            Ok(model) => outcome(project_name@, answers.deep_view()) == Ok::<
                ProjectModelView,
                CollectError,
            >(model@) && model@.wf(),
            Err(error) => outcome(project_name@, answers.deep_view()) == Err::<
                ProjectModelView,
                CollectError,
            >(error),
        },
{
    let ghost start = CollectorView::initial(project_name@);
    let ghost given = answers.deep_view();
    let mut collector = Collector::new(project_name);
    let mut i: usize = 0;
    while i < answers.len()
        invariant
            i <= answers.len(),
            given == answers.deep_view(),
            collector@ == run(start, given.take(i as int)),
        decreases answers.len() - i,
    {
        assert(given.take(i + 1).drop_last() =~= given.take(i as int));
        collector = collector.step(&answers[i]);
        i = i + 1;
    }
    assert(given.take(i as int) =~= given);
    collector.finish()
}

} // verus!
