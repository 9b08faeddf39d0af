//! The adapter for an Anthropic-style Messages backend.
//!
//! This backend models system instructions out-of-band: every System-role
//! message is removed from the turn list and its text is concatenated, in
//! encounter order and joined by a blank line, into the request's dedicated
//! `system` field. User and Assistant turns are mapped one-to-one, in
//! original order, with content verbatim.
//!
//! The adapter itself is stateless per call: it holds only its immutable
//! configuration, so independent calls may run concurrently without
//! coordination. The outbound HTTP POST is performed by an unverified
//! transport collaborator; the adapter builds the request
//! ([`AnthropicProvider::build_request`]) and interprets what the transport
//! observed ([`interpret_outcome`]).

use vstd::prelude::*;

use crate::config::LLMConfig;
use crate::error::AgentError;
use crate::message::{Message, Role};

verus! {

/// One turn in the backend's message schema: a role name and the content.
#[derive(Clone, Debug)]
pub struct AnthropicMessage {
    /// The backend's role tag: `"user"` or `"assistant"`.
    pub role: String,
    /// The content of the turn, verbatim from the uniform message.
    pub content: String,
}

/// The request shape of the backend's Messages API.
///
/// The `system` field is present only if at least one System-role message
/// existed in the input sequence. The sampling temperature is carried in
/// milli-units, as in [`LLMConfig`].
#[derive(Clone, Debug)]
pub struct MessagesRequest {
    /// The backend model identifier.
    pub model: String,
    /// The translated non-system turns, in original order.
    pub messages: Vec<AnthropicMessage>,
    /// The concatenated System-role contents, if any existed.
    pub system: Option<String>,
    /// Sampling temperature in milli-units (0 to 2000 stands for 0.0 to 2.0).
    pub temperature_milli: u32,
    /// Maximum number of output tokens.
    pub max_tokens: usize,
}

/// The response shape of the backend's Messages API.
#[derive(Clone, Debug)]
pub struct MessagesResponse {
    /// Unique identifier of the response.
    pub id: String,
    /// The backend's object type tag.
    pub response_type: String,
    /// The role of the reply, as reported by the backend.
    pub role: String,
    /// The content items of the reply; the first one carries the reply text.
    pub content: Vec<ContentBlock>,
    /// The model that produced the reply.
    pub model: String,
    /// Why the model stopped generating, if reported.
    pub stop_reason: Option<String>,
}

/// One content item in the backend's response.
#[derive(Clone, Debug)]
pub struct ContentBlock {
    /// The backend's content-type tag.
    pub content_type: String,
    /// The text of this content item.
    pub text: String,
}

/// The backend's role tag for each uniform role.
pub open spec fn role_name(r: Role) -> Seq<char> {
    match r {
        Role::System => "system"@,
        Role::User => "user"@,
        Role::Assistant => "assistant"@,
    }
}

/// Whether a message carries out-of-band system instructions.
pub open spec fn is_system(m: Message) -> bool {
    m.role is System
}

/// The input messages that become turns: everything but System-role ones,
/// in original order.
pub open spec fn non_system_messages(ms: Seq<Message>) -> Seq<Message> {
    ms.filter(|m: Message| !is_system(m))
}

/// The contents of the System-role messages, in original order.
pub open spec fn system_contents(ms: Seq<Message>) -> Seq<Seq<char>> {
    ms.filter(|m: Message| is_system(m)).map_values(|m: Message| m.content@)
}

/// The blank line that separates concatenated system contents.
pub open spec fn system_separator() -> Seq<char> {
    "\n\n"@
}

/// The system contents joined by a blank line, in order.
pub open spec fn join_system(parts: Seq<Seq<char>>) -> Seq<char>
    decreases parts.len(),
{
    if parts.len() == 0 {
        Seq::empty()
    } else if parts.len() == 1 {
        parts[0]
    } else {
        join_system(parts.drop_last()) + system_separator() + parts.last()
    }
}

/// Whether translated turn `t` is the faithful image of message `m`:
/// same role under the backend's tag, content verbatim.
pub open spec fn turn_matches(t: AnthropicMessage, m: Message) -> bool {
    t.role@ == role_name(m.role) && t.content@ == m.content@
}

/// Whether the translated turns `ts` match the messages `ms` positionally:
/// equal count, and role/content pairs match at every index.
pub open spec fn turns_match(ts: Seq<AnthropicMessage>, ms: Seq<Message>) -> bool {
    &&& ts.len() == ms.len()
    &&& forall|i: int| 0 <= i < ms.len() ==> turn_matches(ts[i], ms[i])
}

/// Convert one uniform message to the backend's turn schema.
///
/// System messages yield `None`: they go in the request's separate system
/// field, never in the turn list.
pub fn convert_message(message: &Message) -> (r: Option<AnthropicMessage>)
    ensures
        r is None <==> is_system(*message),
        (r matches Some(t) ==> turn_matches(t, *message)),
{
    match message.role {
        Role::System => None,
        Role::User => Some(
            AnthropicMessage { role: "user".to_owned(), content: message.content.clone() },
        ),
        Role::Assistant => Some(
            AnthropicMessage { role: "assistant".to_owned(), content: message.content.clone() },
        ),
    }
}

/// Convert a uniform message sequence to the backend's shape, separating
/// system instructions from the turn list.
///
/// Returns the combined system text (absent when no System-role message
/// existed, never an empty placeholder) and the translated turns, which are
/// exactly the non-system messages, in original order.
pub fn convert_messages(messages: &[Message]) -> (r: (Option<String>, Vec<AnthropicMessage>))
    ensures
        turns_match(r.1@, non_system_messages(messages@)),
        (r.0 is None <==> system_contents(messages@).len() == 0),
        (r.0 matches Some(s) ==> s@ == join_system(system_contents(messages@))),
{
    broadcast use vstd::prelude::Seq::lemma_filter_push, vstd::prelude::Seq::lemma_push_map_commute, vstd::prelude::Seq::lemma_take_succ_push;

    let mut system_message: Option<String> = None;
    let mut anthropic_messages: Vec<AnthropicMessage> = Vec::new();
    let n = messages.len();
    let mut i: usize = 0;
    while i < n
        invariant
            n == messages@.len(),
            i <= n,
            turns_match(anthropic_messages@, non_system_messages(messages@.take(i as int))),
            (system_message is None <==> system_contents(messages@.take(i as int)).len() == 0),
            (system_message matches Some(s) ==> s@ == join_system(
                system_contents(messages@.take(i as int)),
            )),
        decreases n - i,
    {
        broadcast use vstd::prelude::Seq::lemma_filter_push, vstd::prelude::Seq::lemma_push_map_commute, vstd::prelude::Seq::lemma_take_succ_push;

        let message = vstd::slice::slice_index_get(messages, i);
        let ghost prefix = messages@.take(i as int);
        match message.role {
            Role::System => {
                let ghost parts = system_contents(prefix);
                let combined: String = match system_message {
                    None => message.content.clone(),
                    Some(mut existing) => {
                        existing.append("\n\n");
                        existing.append(message.content.as_str());
                        existing
                    },
                };
                proof {
                    let parts2 = system_contents(prefix.push(messages@[i as int]));
                    assert(parts2 == parts.push(messages@[i as int].content@));
                    assert(parts2.drop_last() =~= parts);
                    if parts.len() > 0 {
                        assert(join_system(parts2) == join_system(parts) + system_separator()
                            + messages@[i as int].content@);
                    }
                }
                system_message = Some(combined);
            },
            _ => {
                if let Some(anthropic_msg) = convert_message(message) {
                    anthropic_messages.push(anthropic_msg);
                }
                proof {
                    let ms2 = non_system_messages(prefix.push(messages@[i as int]));
                    assert(ms2 == non_system_messages(prefix).push(messages@[i as int]));
                }
            },
        }
        i += 1;
    }
    proof {
        assert(messages@.take(n as int) =~= messages@);
    }
    (system_message, anthropic_messages)
}

/// The offset at which part `i` begins inside the joined system text: the
/// lengths of the earlier parts plus one separator for each of them.
pub open spec fn part_offset(parts: Seq<Seq<char>>, i: int) -> int
    decreases i,
{
    if i <= 0 {
        0
    } else {
        part_offset(parts, i - 1) + parts[i - 1].len() + system_separator().len()
    }
}

/// The offset of a part depends only on the parts before it, so dropping the
/// last part moves no earlier offset.
pub proof fn lemma_part_offset_drop_last(parts: Seq<Seq<char>>, i: int)
    requires
        0 <= i < parts.len(),
    ensures
        part_offset(parts, i) == part_offset(parts.drop_last(), i),
    decreases i,
{
    if i > 0 {
        lemma_part_offset_drop_last(parts, i - 1);
    }
}

/// The joined system text ends exactly where its last part ends.
pub proof fn lemma_join_system_len(parts: Seq<Seq<char>>)
    requires
        parts.len() > 0,
    ensures
        join_system(parts).len() == part_offset(parts, parts.len() - 1) + parts.last().len(),
    decreases parts.len(),
{
    if parts.len() > 1 {
        let dl = parts.drop_last();
        lemma_join_system_len(dl);
        lemma_part_offset_drop_last(parts, parts.len() - 2);
    }
}

/// Law: every part appears, verbatim and contiguously, inside the joined
/// system text at its own offset; the offsets grow with the index, so the
/// parts appear in their original relative order.
pub proof fn lemma_join_system_contains_parts(parts: Seq<Seq<char>>, i: int)
    requires
        0 <= i < parts.len(),
    ensures
        0 <= part_offset(parts, i),
        part_offset(parts, i) + parts[i].len() <= join_system(parts).len(),
        join_system(parts).subrange(
            part_offset(parts, i),
            part_offset(parts, i) + parts[i].len(),
        ) == parts[i],
        i + 1 < parts.len() ==> part_offset(parts, i) + parts[i].len() < part_offset(
            parts,
            i + 1,
        ),
    decreases parts.len(), i,
{
    reveal_strlit("\n\n");
    let off = part_offset(parts, i);
    assert(part_offset(parts, i + 1) == off + parts[i].len() + system_separator().len());
    if parts.len() == 1 {
        assert(join_system(parts).subrange(0, parts[0].len() as int) =~= parts[0]);
    } else {
        let dl = parts.drop_last();
        let joined = join_system(parts);
        if i < parts.len() - 1 {
            lemma_join_system_contains_parts(dl, i);
            lemma_part_offset_drop_last(parts, i);
            assert(joined.subrange(off, off + parts[i].len()) =~= join_system(dl).subrange(
                off,
                off + parts[i].len(),
            ));
        } else {
            lemma_join_system_len(dl);
            lemma_part_offset_drop_last(parts, parts.len() - 2);
            assert(off == join_system(dl).len() + system_separator().len());
            assert(joined.subrange(off, off + parts[i].len()) =~= parts[i]);
        }
    }
}

/// Law: for every message sequence, the content of each System-role message
/// appears verbatim and contiguously inside the joined system text, and the
/// offsets grow with the encounter order, so the contents appear in their
/// original relative order.
pub proof fn lemma_system_contents_in_order(ms: Seq<Message>, i: int)
    requires
        0 <= i < system_contents(ms).len(),
    ensures
        0 <= part_offset(system_contents(ms), i),
        part_offset(system_contents(ms), i) + system_contents(ms)[i].len() <= join_system(
            system_contents(ms),
        ).len(),
        join_system(system_contents(ms)).subrange(
            part_offset(system_contents(ms), i),
            part_offset(system_contents(ms), i) + system_contents(ms)[i].len(),
        ) == system_contents(ms)[i],
        i + 1 < system_contents(ms).len() ==> part_offset(system_contents(ms), i)
            + system_contents(ms)[i].len() < part_offset(system_contents(ms), i + 1),
{
    lemma_join_system_contains_parts(system_contents(ms), i);
}

/// Law: a turn list that matches the non-system messages carries no turn
/// under the backend's system role tag; system content reaches the request
/// only through the dedicated system field.
pub proof fn lemma_no_system_turns(ts: Seq<AnthropicMessage>, ms: Seq<Message>)
    requires
        turns_match(ts, non_system_messages(ms)),
    ensures
        forall|j: int|
            0 <= j < ts.len() ==> #[trigger] ts[j].role@ != role_name(Role::System),
{
    broadcast use vstd::prelude::Seq::lemma_filter_pred;

    reveal_strlit("system");
    reveal_strlit("user");
    reveal_strlit("assistant");
    assert forall|j: int| 0 <= j < ts.len() implies #[trigger] ts[j].role@ != role_name(
        Role::System,
    ) by {
        let m = non_system_messages(ms)[j];
        assert(!is_system(m));
        assert(turn_matches(ts[j], m));
        assert("user"@.len() == 4 && "assistant"@.len() == 9 && "system"@.len() == 6);
        assert(ts[j].role@ == role_name(m.role));
    }
}

/// The adapter for the Anthropic-style backend. It owns only its immutable
/// configuration; all call-scoped state is local to a single send.
#[derive(Clone, Debug)]
pub struct AnthropicProvider {
    /// The secret credential sent in the API-key header.
    pub api_key: String,
    /// The backend model identifier.
    pub model: String,
    /// Sampling temperature in milli-units (0 to 2000 stands for 0.0 to 2.0).
    pub temperature_milli: u32,
    /// Maximum number of output tokens.
    pub max_tokens: usize,
}

impl AnthropicProvider {
    /// Create a new adapter from a configuration that an external loader has
    /// already validated.
    pub fn new(config: &LLMConfig) -> (r: Result<AnthropicProvider, AgentError>)
        requires
            config.valid(),
        ensures
            (r matches Ok(p) && p.api_key@ == config.api_key@ && p.model@ == config.model@
                && p.temperature_milli == config.temperature_milli && p.max_tokens
                == config.max_tokens),
    {
        Ok(
            AnthropicProvider {
                api_key: config.api_key.clone(),
                model: config.model.clone(),
                temperature_milli: config.temperature_milli,
                max_tokens: config.max_tokens,
            },
        )
    }

    /// Assemble the backend request for one send: the translated turns, the
    /// optional system field, and the configured model and sampling
    /// parameters.
    pub fn build_request(&self, messages: &[Message]) -> (r: MessagesRequest)
        ensures
            r.model@ == self.model@,
            r.temperature_milli == self.temperature_milli,
            r.max_tokens == self.max_tokens,
            turns_match(r.messages@, non_system_messages(messages@)),
            (r.system is None <==> system_contents(messages@).len() == 0),
            (r.system matches Some(s) ==> s@ == join_system(system_contents(messages@))),
    {
        let (system, anthropic_messages) = convert_messages(messages);
        MessagesRequest {
            model: self.model.clone(),
            messages: anthropic_messages,
            system,
            temperature_milli: self.temperature_milli,
            max_tokens: self.max_tokens,
        }
    }
}

/// What the transport collaborator observed for one outbound call, reported
/// back as plain values for interpretation.
pub enum SendOutcome {
    /// The call exceeded the configured deadline.
    TimedOut,
    /// The endpoint could not be reached.
    ConnectFailed,
    /// The backend answered with a non-success HTTP status; carries the
    /// status and the raw body text.
    HttpError(u16, String),
    /// The backend answered with a success status but the body did not match
    /// the expected schema.
    MalformedBody,
    /// The backend answered with a success status and this parsed body.
    Parsed(MessagesResponse),
}

/// Map a non-success HTTP status to the uniform taxonomy: unauthorized and
/// too-many-requests get their dedicated kinds; every other status keeps its
/// code and body.
pub fn classify_http_failure(status: u16, body: String) -> (r: AgentError)
    ensures
        status == 401 ==> r == AgentError::AuthenticationFailure,
        status == 429 ==> r == AgentError::RateLimitExceeded,
        (status != 401 && status != 429) ==> r == AgentError::HttpFailure(status, body),
{
    if status == 401 {
        AgentError::AuthenticationFailure
    } else if status == 429 {
        AgentError::RateLimitExceeded
    } else {
        AgentError::HttpFailure(status, body)
    }
}

/// Extract the reply text from a parsed response: the text of the first
/// content item, or `EmptyResponse` if there is none.
pub fn extract_text(response: &MessagesResponse) -> (r: Result<String, AgentError>)
    ensures
        (response.content@.len() == 0 ==> (r matches Err(e) && e == AgentError::EmptyResponse)),
        (response.content@.len() > 0 ==> (r matches Ok(t) && t@ == response.content@[0].text@)),
{
    if response.content.len() == 0 {
        Err(AgentError::EmptyResponse)
    } else {
        Ok(response.content[0].text.clone())
    }
}

/// The uniform result owed for each transport observation: every failure is
/// mapped deterministically into the taxonomy, a parsed reply yields the
/// first content item's text, and an empty reply yields `EmptyResponse`.
pub open spec fn interpreted(outcome: SendOutcome, r: Result<String, AgentError>) -> bool {
    match outcome {
        SendOutcome::TimedOut => r == Err::<String, AgentError>(AgentError::Timeout),
        SendOutcome::ConnectFailed => r == Err::<String, AgentError>(
            AgentError::ConnectionFailure,
        ),
        SendOutcome::HttpError(status, body) => if status == 401 {
            r == Err::<String, AgentError>(AgentError::AuthenticationFailure)
        } else if status == 429 {
            r == Err::<String, AgentError>(AgentError::RateLimitExceeded)
        } else {
            r == Err::<String, AgentError>(AgentError::HttpFailure(status, body))
        },
        SendOutcome::MalformedBody => r == Err::<String, AgentError>(
            AgentError::DeserializationFailure,
        ),
        SendOutcome::Parsed(response) => if response.content@.len() == 0 {
            r == Err::<String, AgentError>(AgentError::EmptyResponse)
        } else {
            r matches Ok(t) && t@ == response.content@[0].text@
        },
    }
}

/// Translate what the transport observed into the uniform result: the reply
/// text on success, a taxonomy error otherwise. Never retries, never
/// collapses distinct failures into one kind.
pub fn interpret_outcome(outcome: SendOutcome) -> (r: Result<String, AgentError>)
    ensures
        interpreted(outcome, r),
{
    match outcome {
        SendOutcome::TimedOut => Err(AgentError::Timeout),
        SendOutcome::ConnectFailed => Err(AgentError::ConnectionFailure),
        SendOutcome::HttpError(status, body) => Err(classify_http_failure(status, body)),
        SendOutcome::MalformedBody => Err(AgentError::DeserializationFailure),
        SendOutcome::Parsed(response) => extract_text(&response),
    }
}

} // verus!
