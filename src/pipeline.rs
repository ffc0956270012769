use vstd::prelude::*;
use crate::agent::{
    first_choice, first_choice_spec, outcome_view, user_text, Agent, AgentKind, ChatMessage,
    researcher_default_instruction, writer_default_instruction, Researcher, Role, Writer,
};
use crate::error::ApiError;
use crate::json::pretty_json_of;

verus! {

/// The body of an inbound request: the user's query.
#[derive(Debug, Clone)]
pub struct Prompt {
    pub q: String,
}

/// The two agents of the pipeline, configured once and shared by every run.
#[derive(Debug, Clone)]
pub struct AppState {
    pub researcher: Researcher,
    pub writer: Writer,
}

/// Where a run of the pipeline stands.
#[derive(Clone, Copy, Debug, PartialEq, Eq, Structural)]
pub enum Stage {
    /// Waiting for the search results.
    Searching,
    /// Waiting for the researcher's completion.
    Researching,
    /// Waiting for the writer's completion.
    Writing,
    /// The response has been handed out; nothing more is accepted.
    Finished,
}

/// One run of the pipeline for one query.
#[derive(Debug, Clone)]
pub struct Run {
    pub query: String,
    pub stage: Stage,
}

/// What the outside world reports back to a run.
#[derive(Debug)]
pub enum Event {
    /// The search finished: the pretty-printed results, or the failure.
    SearchDone(Result<String, ApiError>),
    /// A completion finished: the text of each candidate, or the failure.
    CompletionDone(Result<Vec<Option<String>>, ApiError>),
}

/// What a run asks the outside world to do next.
#[derive(Debug)]
pub enum Action {
    /// Run the web search for this query.
    Search(String),
    /// Ask the completion service, on behalf of this agent, with these messages.
    Complete(AgentKind, Vec<ChatMessage>),
    /// Hand this result to the caller; the run is over.
    Respond(Result<String, ApiError>),
}

/// The mathematical view of an `Action`.
pub enum ActionView {
    Search(Seq<char>),
    Complete(AgentKind, Seq<(Role, Seq<char>)>),
    Respond(Result<Seq<char>, ApiError>),
}

pub open spec fn message_view(m: ChatMessage) -> (Role, Seq<char>) {
    (m.role, m.content@)
}

impl View for Action {
    type V = ActionView;

    open spec fn view(&self) -> ActionView {
        match self {
            Action::Search(q) => ActionView::Search(q@),
            Action::Complete(k, msgs) => ActionView::Complete(*k, msgs@.map_values(|m: ChatMessage| message_view(m))),
            Action::Respond(Ok(t)) => ActionView::Respond(Ok(t@)),
            Action::Respond(Err(e)) => ActionView::Respond(Err(*e)),
        }
    }
}

/// The completion request of an agent with system text `system`, for
/// `query` with raw context `context`.
pub open spec fn request_view(kind: AgentKind, system: Seq<char>, query: Seq<char>, context: Seq<char>) -> ActionView {
    ActionView::Complete(
        kind,
        seq![(Role::System, system), (Role::User, user_text(query, pretty_json_of(context)))],
    )
}

/// Whether a run in `stage` takes `event`: search results while searching,
/// completions while an agent is at work, nothing once finished.
pub open spec fn accepts(stage: Stage, event: Event) -> bool {
    match stage {
        Stage::Searching => event is SearchDone,
        Stage::Researching | Stage::Writing => event is CompletionDone,
        Stage::Finished => false,
    }
}

/// One step of a run: the next stage and the action it asks for. Each
/// failure ends the run at once and is handed out unchanged.
pub open spec fn step_spec(state: AppState, query: Seq<char>, stage: Stage, event: Event) -> (Stage, ActionView) {
    match event {
        Event::SearchDone(Ok(ctx)) => (
            Stage::Researching,
            request_view(AgentKind::Researcher, state.researcher.spec_system_message(), query, ctx@),
        ),
        Event::SearchDone(Err(e)) => (Stage::Finished, ActionView::Respond(Err(e))),
        Event::CompletionDone(c) => {
            let answer = first_choice_spec(outcome_view(c));
            if stage == Stage::Researching {
                match answer {
                    Ok(summary) => (
                        Stage::Writing,
                        request_view(AgentKind::Writer, state.writer.spec_system_message(), query, summary),
                    ),
                    Err(e) => (Stage::Finished, ActionView::Respond(Err(e))),
                }
            } else {
                (Stage::Finished, ActionView::Respond(answer))
            }
        },
    }
}

/// The actions a run in `stage` asks for as `events` come in, up to the
/// first event it does not take.
pub open spec fn trace(state: AppState, query: Seq<char>, stage: Stage, events: Seq<Event>) -> Seq<ActionView>
    decreases events.len(),
{
    if events.len() == 0 || !accepts(stage, events[0]) {
        Seq::empty()
    } else {
        let (next, action) = step_spec(state, query, stage, events[0]);
        seq![action] + trace(state, query, next, events.drop_first())
    }
}

/// Every action of a whole run for `query`: the search, then what follows
/// from `events`.
pub open spec fn run_actions(state: AppState, query: Seq<char>, events: Seq<Event>) -> Seq<ActionView> {
    seq![ActionView::Search(query)] + trace(state, query, Stage::Searching, events)
}

/// When the search fails, the run answers with that very failure and never
/// asks for a completion, whatever is reported afterwards.
pub proof fn lemma_failed_search_short_circuits(state: AppState, query: Seq<char>, e: ApiError, events: Seq<Event>)
    requires
        events.len() >= 1,
        events[0] == Event::SearchDone(Err(e)),
    ensures
        trace(state, query, Stage::Searching, events) == seq![ActionView::Respond(Err(e))],
        run_actions(state, query, events) == seq![ActionView::Search(query), ActionView::Respond(Err(e))],
        forall|i: int|
            0 <= i < run_actions(state, query, events).len() ==> !(#[trigger] run_actions(state, query, events)[i] is Complete),
{
    let rest = events.drop_first();
    assert(trace(state, query, Stage::Finished, rest) == Seq::<ActionView>::empty());
    assert(trace(state, query, Stage::Searching, events) =~= seq![ActionView::Respond(Err(e))]);
    assert(run_actions(state, query, events) =~= seq![ActionView::Search(query), ActionView::Respond(Err(e))]);
}

/// A run whose search and completions all succeed makes exactly three
/// requests, in order: the search for the query, the researcher on the
/// search results, the writer on the researcher's answer, each with the
/// original query as instruction. It then responds with the writer's answer.
pub proof fn lemma_successful_run(
    state: AppState,
    query: Seq<char>,
    context: String,
    research: Vec<Option<String>>,
    article: Vec<Option<String>>,
    events: Seq<Event>,
)
    requires
        events.len() == 3,
        events[0] == Event::SearchDone(Ok(context)),
        events[1] == Event::CompletionDone(Ok(research)),
        events[2] == Event::CompletionDone(Ok(article)),
        research@.len() > 0,
        research@[0] is Some,
        article@.len() > 0,
        article@[0] is Some,
    ensures
        run_actions(state, query, events) == seq![
            ActionView::Search(query),
            request_view(AgentKind::Researcher, state.researcher.spec_system_message(), query, context@),
            request_view(AgentKind::Writer, state.writer.spec_system_message(), query, research@[0]->0@),
            ActionView::Respond(Ok(article@[0]->0@)),
        ],
{
    let e1 = events.drop_first();
    let e2 = e1.drop_first();
    let e3 = e2.drop_first();
    assert(e1[0] == events[1]);
    assert(e2[0] == events[2]);
    assert(e3.len() == 0);
    let rq = request_view(AgentKind::Researcher, state.researcher.spec_system_message(), query, context@);
    let wq = request_view(AgentKind::Writer, state.writer.spec_system_message(), query, research@[0]->0@);
    let done = ActionView::Respond(Ok(article@[0]->0@));
    assert(trace(state, query, Stage::Finished, e3) == Seq::<ActionView>::empty());
    assert(trace(state, query, Stage::Writing, e2) =~= seq![done]);
    assert(trace(state, query, Stage::Researching, e1) =~= seq![wq, done]);
    assert(trace(state, query, Stage::Searching, events) =~= seq![rq, wq, done]);
    assert(run_actions(state, query, events) =~= seq![
        ActionView::Search(query),
        request_view(AgentKind::Researcher, state.researcher.spec_system_message(), query, context@),
        request_view(AgentKind::Writer, state.writer.spec_system_message(), query, research@[0]->0@),
        ActionView::Respond(Ok(article@[0]->0@)),
    ]);
}

impl AppState {
    /// The pipeline with both agents on their default instructions.
    pub fn new() -> (r: Self)
        ensures
            r.researcher.system is None,
            r.writer.system is None,
            r.researcher.spec_system_message() == researcher_default_instruction(),
            r.writer.spec_system_message() == writer_default_instruction(),
    {
        AppState { researcher: Researcher::new(), writer: Writer::new() }
    }

    /// Opens a run for `query`; its first action is the search.
    pub fn start(&self, query: String) -> (r: (Run, Action))
        ensures
            r.0.query@ == query@,
            r.0.stage == Stage::Searching,
            r.1@ == ActionView::Search(query@),
    {
        let q = query.clone();
        (Run { query, stage: Stage::Searching }, Action::Search(q))
    }

    /// Advances `run` by one reported event and returns the action to take.
    pub fn step(&self, run: &mut Run, event: Event) -> (r: Action)
        requires
            accepts(old(run).stage, event),
        ensures
            final(run).query == old(run).query,
            (final(run).stage, r@) == step_spec(*self, old(run).query@, old(run).stage, event),
    {
        match event {
            Event::SearchDone(Ok(ctx)) => {
                let msgs = self.researcher.prompt_messages(run.query.as_str(), ctx.as_str());
                run.stage = Stage::Researching;
                let r = Action::Complete(AgentKind::Researcher, msgs);
                assert(r@ == request_view(AgentKind::Researcher, self.researcher.spec_system_message(), run.query@, ctx@)) by {
                    assert(msgs@.map_values(|m: ChatMessage| message_view(m)) =~= seq![
                        (Role::System, self.researcher.spec_system_message()),
                        (Role::User, user_text(run.query@, pretty_json_of(ctx@))),
                    ]);
                }
                r
            },
            Event::SearchDone(Err(e)) => {
                run.stage = Stage::Finished;
                Action::Respond(Err(e))
            },
            Event::CompletionDone(c) => {
                let answer = first_choice(c);
                if run.stage == Stage::Researching {
                    match answer {
                        Ok(summary) => {
                            let msgs = self.writer.prompt_messages(run.query.as_str(), summary.as_str());
                            run.stage = Stage::Writing;
                            let r = Action::Complete(AgentKind::Writer, msgs);
                            assert(r@ == request_view(AgentKind::Writer, self.writer.spec_system_message(), run.query@, summary@)) by {
                                assert(msgs@.map_values(|m: ChatMessage| message_view(m)) =~= seq![
                                    (Role::System, self.writer.spec_system_message()),
                                    (Role::User, user_text(run.query@, pretty_json_of(summary@))),
                                ]);
                            }
                            r
                        },
                        Err(e) => {
                            run.stage = Stage::Finished;
                            Action::Respond(Err(e))
                        },
                    }
                } else {
                    run.stage = Stage::Finished;
                    Action::Respond(answer)
                }
            },
        }
    }
}

impl Run {
    /// Whether this run takes `event` now.
    pub fn accepts(&self, event: &Event) -> (r: bool)
        ensures
            r == accepts(self.stage, *event),
    {
        match self.stage {
            Stage::Searching => matches!(event, Event::SearchDone(_)),
            Stage::Researching | Stage::Writing => matches!(event, Event::CompletionDone(_)),
            Stage::Finished => false,
        }
    }

    /// Whether the run has handed out its response.
    pub fn is_finished(&self) -> (r: bool)
        ensures
            r == (self.stage == Stage::Finished),
    {
        self.stage == Stage::Finished
    }
}

} // verus!
