use vstd::prelude::*;
use crate::error::ApiError;
use crate::json::{pretty_context, pretty_json_of};

verus! {

/// Which side of the conversation a message speaks for.
#[derive(Clone, Copy, Debug, PartialEq, Eq, Structural)]
pub enum Role {
    System,
    User,
}

/// One role-tagged message of a completion request.
#[derive(Debug, Clone)]
pub struct ChatMessage {
    pub role: Role,
    pub content: String,
}

/// The two agent variants of the pipeline.
#[derive(Clone, Copy, Debug, PartialEq, Eq, Structural)]
pub enum AgentKind {
    Researcher,
    Writer,
}

/// The line that separates the instruction from the embedded context.
pub open spec fn context_separator() -> Seq<char> {
    "\n\n            Provided context:\n            "@
}

/// The text that closes a user message.
pub open spec fn user_message_tail() -> Seq<char> {
    "\n            "@
}

/// The user message for `instruction` and context already pretty-printed:
/// the instruction, the separator line, the context, a closing newline.
pub open spec fn user_text(instruction: Seq<char>, pretty: Seq<char>) -> Seq<char> {
    instruction + context_separator() + pretty + user_message_tail()
}

/// `msgs` is the request for a system text and a user text: exactly two
/// messages, the system one first.
pub open spec fn is_request(msgs: Seq<ChatMessage>, system: Seq<char>, user: Seq<char>) -> bool {
    &&& msgs.len() == 2
    &&& msgs[0].role == Role::System
    &&& msgs[0].content@ == system
    &&& msgs[1].role == Role::User
    &&& msgs[1].content@ == user
}

/// A user message starts with the instruction itself, and the pretty-printed
/// context follows it directly after the separator line.
pub proof fn lemma_user_text_layout(instruction: Seq<char>, pretty: Seq<char>)
    ensures
        user_text(instruction, pretty).subrange(0, instruction.len() as int) == instruction,
        user_text(instruction, pretty).subrange(
            (instruction.len() + context_separator().len()) as int,
            (instruction.len() + context_separator().len() + pretty.len()) as int,
        ) == pretty,
{
    let sep = context_separator();
    let t = user_text(instruction, pretty);
    assert(t.subrange(0, instruction.len() as int) =~= instruction);
    assert(t.subrange(
        (instruction.len() + sep.len()) as int,
        (instruction.len() + sep.len() + pretty.len()) as int,
    ) =~= pretty);
}

/// Builds the user message text for an instruction and its raw context.
pub fn user_message(instruction: &str, context: &str) -> (r: String)
    ensures
        r@ == user_text(instruction@, pretty_json_of(context@)),
{
    let pretty = pretty_context(context);
    let mut s = String::from_str(instruction);
    s.append("\n\n            Provided context:\n            ");
    s.append(pretty.as_str());
    s.append("\n            ");
    s
}

/// The capability shared by every agent: a name, a system instruction, and
/// the one request shape through which it is prompted.
pub trait Agent {
    spec fn spec_name(&self) -> Seq<char>;

    spec fn spec_system_message(&self) -> Seq<char>;

    fn name(&self) -> (r: String)
        ensures
            r@ == self.spec_name(),
    ;

    fn system_message(&self) -> (r: String)
        ensures
            r@ == self.spec_system_message(),
    ;

    /// The completion request for `instruction` with `context`: the system
    /// message, then the instruction followed by the pretty-printed context.
    fn prompt_messages(&self, instruction: &str, context: &str) -> (r: Vec<ChatMessage>)
        ensures
            is_request(
                r@,
                self.spec_system_message(),
                user_text(instruction@, pretty_json_of(context@)),
            ),
    {
        let system = ChatMessage { role: Role::System, content: self.system_message() };
        let user = ChatMessage { role: Role::User, content: user_message(instruction, context) };
        let mut msgs: Vec<ChatMessage> = Vec::new();
        msgs.push(system);
        msgs.push(user);
        msgs
    }
}

/// What the completion service handed back, reduced to the first candidate's
/// text: a failure passes through, no candidate or an empty first candidate
/// is `EmptyCompletion`.
pub open spec fn first_choice_spec(outcome: Result<Seq<Option<String>>, ApiError>) -> Result<Seq<char>, ApiError> {
    match outcome {
        Err(e) => Err(e),
        Ok(choices) => if choices.len() == 0 {
            Err(ApiError::EmptyCompletion)
        } else {
            match choices[0] {
                Some(t) => Ok(t@),
                None => Err(ApiError::EmptyCompletion),
            }
        },
    }
}

/// The view of a completion outcome that `first_choice_spec` reads.
pub open spec fn outcome_view(outcome: Result<Vec<Option<String>>, ApiError>) -> Result<Seq<Option<String>>, ApiError> {
    match outcome {
        Err(e) => Err(e),
        Ok(c) => Ok(c@),
    }
}

/// The view of a text result.
pub open spec fn text_result_view(r: Result<String, ApiError>) -> Result<Seq<char>, ApiError> {
    match r {
        Err(e) => Err(e),
        Ok(t) => Ok(t@),
    }
}

/// Extracts the answer of a completion: the text of its first candidate.
pub fn first_choice(outcome: Result<Vec<Option<String>>, ApiError>) -> (r: Result<String, ApiError>)
    ensures
        text_result_view(r) == first_choice_spec(outcome_view(outcome)),
{
    match outcome {
        Err(e) => Err(e),
        Ok(choices) => {
            if choices.len() == 0 {
                Err(ApiError::EmptyCompletion)
            } else {
                match &choices[0] {
                    Some(t) => Ok(t.clone()),
                    None => Err(ApiError::EmptyCompletion),
                }
            }
        },
    }
}

pub open spec fn researcher_default_instruction() -> Seq<char> {
    "You are an agent.

        You will receive a question that may be quite short or does not have much context.
        Your job is to research the Internet and to return with a high-quality summary to the user, assisted by the provided context.
        The provided context will be in JSON format and contains data about the initial Google results for the website or query.

        Be concise.

        Question:
        "@
}

pub open spec fn writer_default_instruction() -> Seq<char> {
    "You are an agent.

        You will receive some context from another agent about some Google results that a user has searched.
        Your job is to research the Internet and to write a high-quality article that a user has written. The article must not appear to be AI written. The article should be SEO optimised without overly compromising the
        quality of the article.

        You are free to be as creative as you wish. However, each paragraph must have the following:
        - The point you are trying to make
        - If there is a follow up action point
        - Why the follow up action point exists (or why the user needs to carry it out)

        Search query:
"@
}

/// The agent that summarises raw search results for a question.
#[derive(Debug, Clone)]
pub struct Researcher {
    /// An instruction that replaces the default one, if set.
    pub system: Option<String>,
}

impl Researcher {
    /// A researcher with the default instruction.
    pub fn new() -> (r: Self)
        ensures
            r.system is None,
            r.spec_system_message() == researcher_default_instruction(),
    {
        Researcher { system: None }
    }

    /// The same researcher with its instruction replaced by `message`.
    pub fn with_system_message(self, message: String) -> (r: Self)
        ensures
            r.spec_system_message() == message@,
    {
        Researcher { system: Some(message) }
    }
}

impl Agent for Researcher {
    open spec fn spec_name(&self) -> Seq<char> {
        "Researcher"@
    }

    open spec fn spec_system_message(&self) -> Seq<char> {
        match self.system {
            Some(m) => m@,
            None => researcher_default_instruction(),
        }
    }

    fn name(&self) -> (r: String) {
        String::from_str("Researcher")
    }

    fn system_message(&self) -> (r: String) {
        match &self.system {
            Some(m) => m.clone(),
            None => String::from_str(
                "You are an agent.

        You will receive a question that may be quite short or does not have much context.
        Your job is to research the Internet and to return with a high-quality summary to the user, assisted by the provided context.
        The provided context will be in JSON format and contains data about the initial Google results for the website or query.

        Be concise.

        Question:
        ",
            ),
        }
    }
}

/// The agent that turns a research summary into an article.
#[derive(Debug, Clone)]
pub struct Writer {
    /// An instruction that replaces the default one, if set.
    pub system: Option<String>,
}

impl Writer {
    /// A writer with the default instruction.
    pub fn new() -> (r: Self)
        ensures
            r.system is None,
            r.spec_system_message() == writer_default_instruction(),
    {
        Writer { system: None }
    }

    /// The same writer with its instruction replaced by `message`.
    pub fn with_system_message(self, message: String) -> (r: Self)
        ensures
            r.spec_system_message() == message@,
    {
        Writer { system: Some(message) }
    }
}

impl Agent for Writer {
    open spec fn spec_name(&self) -> Seq<char> {
        "Writer"@
    }

    open spec fn spec_system_message(&self) -> Seq<char> {
        match self.system {
            Some(m) => m@,
            None => writer_default_instruction(),
        }
    }

    fn name(&self) -> (r: String) {
        String::from_str("Writer")
    }

    fn system_message(&self) -> (r: String) {
        match &self.system {
            Some(m) => m.clone(),
            None => String::from_str(
                "You are an agent.

        You will receive some context from another agent about some Google results that a user has searched.
        Your job is to research the Internet and to write a high-quality article that a user has written. The article must not appear to be AI written. The article should be SEO optimised without overly compromising the
        quality of the article.

        You are free to be as creative as you wish. However, each paragraph must have the following:
        - The point you are trying to make
        - If there is a follow up action point
        - Why the follow up action point exists (or why the user needs to carry it out)

        Search query:
",
            ),
        }
    }
}

} // verus!
