//! The chat-completions wire types, and how generated text becomes response
//! chunks.

use vstd::prelude::*;

use std::collections::HashMap;

use crate::message::{Content, Message, Role};
use crate::text::{concat_all, join_all, views_of};
use crate::utils::ProgressMessage;

verus! {

/// A streamed increment of an assistant message.
#[derive(Debug, Clone)]
pub struct Delta {
    pub role: Role,
    pub content: Content,
}

#[derive(Debug, Clone)]
pub enum Stop {
    String(String),
    Array(Vec<String>),
}

#[derive(Debug, Clone)]
pub struct ResponseFormat {
    /// The `type` member of the format.
    pub kind: String,
}

#[derive(Debug, Clone)]
pub struct Function {
    pub name: String,
    pub description: Option<String>,
    pub parameters: Option<HashMap<String, String>>,
}

#[derive(Debug, Clone)]
pub struct Tool {
    /// The `type` member of the tool.
    pub kind: String,
    pub function: Function,
}

#[derive(Debug, Clone)]
pub enum ToolChoice {
    Auto,
    /// No tool may be called.
    Disabled,
    Function { name: String },
}

#[derive(Debug, Clone, Copy, PartialEq, Eq, Structural)]
pub enum FinishReason {
    Stop,
    Length,
    FunctionCall,
    InvalidRequestError,
    ModelError,
    InternalError,
}

#[derive(Debug, Clone)]
pub struct Choice {
    pub index: usize,
    pub delta: Option<Message>,
    pub message: Option<Message>,
    pub logprobs: Option<String>,
    pub finish_reason: Option<FinishReason>,
}

#[derive(Debug, Clone, Copy)]
pub struct Usage {
    pub completion_tokens: i32,
    pub prompt_tokens: i32,
    pub total_tokens: i32,
}

/// A whole response, or one chunk of a streamed one.
#[derive(Debug, Clone)]
pub struct ChatCompletionsResponse {
    pub id: String,
    pub object: String,
    pub created: u64,
    pub model: String,
    pub choices: Vec<Choice>,
    pub usage: Option<Usage>,
}

/// A chunk ends the stream exactly when it carries no content.
pub open spec fn delta_finish(content: Option<Content>) -> Option<FinishReason> {
    if content is None {
        Some(FinishReason::Stop)
    } else {
        None
    }
}

/// The single choice of a streamed chunk.
pub open spec fn delta_choice(role: Option<Role>, content: Option<Content>) -> Choice {
    Choice {
        index: 0,
        delta: Some(Message { role, content }),
        message: None,
        logprobs: None,
        finish_reason: delta_finish(content),
    }
}

/// `r` is the streamed chunk of response `id` for `model` carrying `role`
/// and `content`.
pub open spec fn is_delta_chunk(
    r: ChatCompletionsResponse,
    id: Seq<char>,
    created: u64,
    model: Seq<char>,
    role: Option<Role>,
    content: Option<Content>,
) -> bool {
    &&& r.id@ == id
    &&& r.object@ == "chat.completion.chunk"@
    &&& r.created == created
    &&& r.model@ == model
    &&& r.choices@ == seq![delta_choice(role, content)]
    &&& r.usage is None
}

/// What a generated text fragment carries: an empty one marks the end.
pub open spec fn token_content(token: String) -> Option<Content> {
    if token@.len() == 0 {
        None
    } else {
        Some(Content::String(token))
    }
}

/// The role of the `started`-th element of a stream: only the first names
/// the assistant.
pub open spec fn stream_role(started: bool) -> Option<Role> {
    if started {
        None
    } else {
        Some(Role::Assistant)
    }
}

/// Builds one streamed chunk.
pub fn delta_chunk(
    id: &str,
    created: u64,
    model: &str,
    role: Option<Role>,
    content: Option<Content>,
) -> (r: ChatCompletionsResponse)
    ensures
        is_delta_chunk(r, id@, created, model@, role, content),
{
    let finish_reason = if content.is_none() {
        Some(FinishReason::Stop)
    } else {
        None
    };
    let choice = Choice {
        index: 0,
        delta: Some(Message { role, content }),
        message: None,
        logprobs: None,
        finish_reason,
    };
    assert(choice == delta_choice(role, content));
    let mut choices = Vec::new();
    choices.push(choice);
    assert(choices@ =~= seq![delta_choice(role, content)]);
    proof {
        reveal_strlit("chat.completion.chunk");
    }
    ChatCompletionsResponse {
        id: id.to_owned(),
        object: String::from_str("chat.completion.chunk"),
        created,
        model: model.to_owned(),
        choices,
        usage: None,
    }
}

/// A load/download update, sent to the client as a system-role chunk so
/// that the connection stays alive while the model loads.
pub fn progress_chunk(id: &str, created: u64, model: &str, progress: ProgressMessage) -> (r:
    ChatCompletionsResponse)
    ensures
        is_delta_chunk(
            r,
            id@,
            created,
            model@,
            Some(Role::System),
            Some(Content::String(progress.message)),
        ),
{
    delta_chunk(id, created, model, Some(Role::System), Some(Content::String(progress.message)))
}

/// The server-sent-event frame around one serialized chunk.
pub open spec fn sse_frame_of(json: Seq<char>) -> Seq<char> {
    "data: "@ + json + "\n\n"@
}

/// Frames one serialized chunk as a server-sent event.
pub fn sse_frame(json: &str) -> (r: String)
    ensures
        r@ == sse_frame_of(json@),
{
    let mut s = String::from_str("data: ");
    s.append(json);
    s.append("\n\n");
    s
}

/// No progress chunk comes after a chunk of generated text.
pub open spec fn progress_first(kinds: Seq<bool>) -> bool {
    forall|i: int, j: int| 0 <= i < j < kinds.len() && #[trigger] kinds[j] ==> #[trigger] kinds[i]
}

proof fn lemma_push_token(kinds: Seq<bool>)
    requires
        progress_first(kinds),
    ensures
        progress_first(kinds.push(false)),
{
    let k = kinds.push(false);
    assert forall|i: int, j: int| 0 <= i < j < k.len() && #[trigger] k[j] implies #[trigger] k[i] by {
        assert(j < kinds.len());
        assert(k[i] == kinds[i] && k[j] == kinds[j]);
    }
}

/// Turns the progress updates of a load and the fragments of one
/// generation into streamed chunks.
pub struct StreamEncoder {
    id: String,
    created: u64,
    model: String,
    started: bool,
    last_was_stop: bool,
    finishes: Ghost<Seq<Option<FinishReason>>>,
    kinds: Ghost<Seq<bool>>,
}

impl StreamEncoder {
    pub closed spec fn wf(&self) -> bool {
        &&& self.started == (self.finishes@.len() > 0)
        &&& self.last_was_stop == (self.finishes@.len() > 0 && self.finishes@.last() == Some(
            FinishReason::Stop,
        ))
        &&& progress_first(self.kinds@)
        &&& self.started ==> self.kinds@.len() > 0 && !self.kinds@.last()
        &&& !self.started ==> forall|i: int| 0 <= i < self.kinds@.len() ==> #[trigger] self.kinds@[i]
    }

    /// For each chunk produced so far, in order, whether it reported
    /// progress (rather than generated text).
    pub closed spec fn kinds(&self) -> Seq<bool> {
        self.kinds@
    }

    pub closed spec fn id(&self) -> Seq<char> {
        self.id@
    }

    pub closed spec fn created(&self) -> u64 {
        self.created
    }

    pub closed spec fn model(&self) -> Seq<char> {
        self.model@
    }

    /// The finish reasons of the chunks produced so far, in order.
    pub closed spec fn finishes(&self) -> Seq<Option<FinishReason>> {
        self.finishes@
    }

    pub closed spec fn started(&self) -> bool {
        self.started
    }

    pub fn new(id: String, created: u64, model: String) -> (r: Self)
        ensures
            r.wf(),
            r.id() == id@,
            r.created() == created,
            r.model() == model@,
            !r.started(),
            r.finishes() == Seq::<Option<FinishReason>>::empty(),
            r.kinds() == Seq::<bool>::empty(),
    {
        StreamEncoder {
            id,
            created,
            model,
            started: false,
            last_was_stop: false,
            finishes: Ghost(Seq::empty()),
            kinds: Ghost(Seq::empty()),
        }
    }

    /// The chunk for a load/download update, sent as the system's. Updates
    /// come before the generated text: once a fragment has been sent, later
    /// updates are dropped.
    pub fn progress(&mut self, progress: ProgressMessage) -> (r: Option<ChatCompletionsResponse>)
        requires
            old(self).wf(),
        ensures
            final(self).wf(),
            r is Some <==> !old(self).started(),
            r matches Some(c) ==> is_delta_chunk(
                c,
                old(self).id(),
                old(self).created(),
                old(self).model(),
                Some(Role::System),
                Some(Content::String(progress.message)),
            ),
            r is Some ==> final(self).kinds() == old(self).kinds().push(true),
            r is None ==> final(self).kinds() == old(self).kinds(),
            final(self).started() == old(self).started(),
            final(self).finishes() == old(self).finishes(),
            final(self).id() == old(self).id(),
            final(self).created() == old(self).created(),
            final(self).model() == old(self).model(),
    {
        if self.started {
            None
        } else {
            let r = progress_chunk(self.id.as_str(), self.created, self.model.as_str(), progress);
            self.kinds = Ghost(self.kinds@.push(true));
            Some(r)
        }
    }

    /// The chunk for the next generated fragment. The first chunk names the
    /// assistant; an empty fragment becomes a chunk that ends the stream.
    pub fn next(&mut self, token: String) -> (r: ChatCompletionsResponse)
        requires
            old(self).wf(),
        ensures
            final(self).wf(),
            is_delta_chunk(
                r,
                old(self).id(),
                old(self).created(),
                old(self).model(),
                stream_role(old(self).started()),
                token_content(token),
            ),
            final(self).started(),
            final(self).id() == old(self).id(),
            final(self).created() == old(self).created(),
            final(self).model() == old(self).model(),
            final(self).finishes() == old(self).finishes().push(delta_finish(token_content(token))),
            final(self).kinds() == old(self).kinds().push(false),
    {
        let role = if self.started {
            None
        } else {
            Some(Role::Assistant)
        };
        let is_end = token.as_str().is_empty();
        let content = if is_end {
            None
        } else {
            Some(Content::String(token))
        };
        let r = delta_chunk(self.id.as_str(), self.created, self.model.as_str(), role, content);
        self.started = true;
        self.last_was_stop = is_end;
        self.finishes = Ghost(self.finishes@.push(delta_finish(token_content(token))));
        proof {
            lemma_push_token(self.kinds@);
        }
        self.kinds = Ghost(self.kinds@.push(false));
        r
    }

    /// Ends the stream: a closing chunk, unless the last chunk already
    /// closed it. Afterwards the last chunk produced carries `Stop`.
    pub fn finish(&mut self) -> (r: Option<ChatCompletionsResponse>)
        requires
            old(self).wf(),
        ensures
            final(self).wf(),
            final(self).finishes().len() > 0,
            final(self).finishes().last() == Some(FinishReason::Stop),
            final(self).id() == old(self).id(),
            final(self).created() == old(self).created(),
            final(self).model() == old(self).model(),
            old(self).finishes().len() > 0 && old(self).finishes().last() == Some(
                FinishReason::Stop,
            ) ==> r is None && final(self).finishes() == old(self).finishes()
                && final(self).kinds() == old(self).kinds(),
            !(old(self).finishes().len() > 0 && old(self).finishes().last() == Some(
                FinishReason::Stop,
            )) ==> {
                &&& r is Some
                &&& is_delta_chunk(
                    r->0,
                    old(self).id(),
                    old(self).created(),
                    old(self).model(),
                    stream_role(old(self).started()),
                    None,
                )
                &&& final(self).finishes() == old(self).finishes().push(Some(FinishReason::Stop))
                &&& final(self).kinds() == old(self).kinds().push(false)
            },
    {
        if self.last_was_stop {
            None
        } else {
            let role = if self.started {
                None
            } else {
                Some(Role::Assistant)
            };
            let r = delta_chunk(self.id.as_str(), self.created, self.model.as_str(), role, None);
            self.started = true;
            self.last_was_stop = true;
            self.finishes = Ghost(self.finishes@.push(Some(FinishReason::Stop)));
            proof {
                lemma_push_token(self.kinds@);
            }
            self.kinds = Ghost(self.kinds@.push(false));
            Some(r)
        }
    }
}

/// Every progress chunk an encoder produces precedes every chunk of
/// generated text.
pub proof fn lemma_progress_precedes_tokens(e: &StreamEncoder)
    requires
        e.wf(),
    ensures
        forall|i: int, j: int|
            0 <= i < j < e.kinds().len() && #[trigger] e.kinds()[j] ==> #[trigger] e.kinds()[i],
{
}

/// The usage figure reported for `n` generated fragments.
pub open spec fn fragment_count(n: nat) -> i32 {
    if n <= i32::MAX as nat {
        n as i32
    } else {
        i32::MAX
    }
}

/// `r` is the complete, non-streamed response whose assistant message holds
/// `text`.
pub open spec fn is_complete_response(
    r: ChatCompletionsResponse,
    id: Seq<char>,
    created: u64,
    model: Seq<char>,
    text: Seq<char>,
    fragments: nat,
) -> bool {
    &&& r.id@ == id
    &&& r.object@ == "chat.completion"@
    &&& r.created == created
    &&& r.model@ == model
    &&& r.choices@.len() == 1
    &&& r.choices@[0].index == 0
    &&& r.choices@[0].delta is None
    &&& r.choices@[0].logprobs is None
    &&& r.choices@[0].finish_reason == Some(FinishReason::Stop)
    &&& r.choices@[0].message matches Some(m) && m.role == Some(Role::Assistant) && (
    m.content matches Some(Content::String(s)) && s@ == text)
    &&& r.usage == Some(
        Usage {
            completion_tokens: fragment_count(fragments),
            prompt_tokens: 0,
            total_tokens: fragment_count(fragments),
        },
    )
}

/// Collects every generated fragment into one response.
pub fn complete_response(id: &str, created: u64, model: &str, tokens: &Vec<String>) -> (r:
    ChatCompletionsResponse)
    ensures
        is_complete_response(
            r,
            id@,
            created,
            model@,
            concat_all(views_of(tokens@)),
            tokens@.len(),
        ),
{
    let text = join_all(tokens);
    let count: i32 = if tokens.len() <= i32::MAX as usize {
        tokens.len() as i32
    } else {
        i32::MAX
    };
    let choice = Choice {
        index: 0,
        delta: None,
        message: Some(Message { role: Some(Role::Assistant), content: Some(Content::String(text)) }),
        logprobs: None,
        finish_reason: Some(FinishReason::Stop),
    };
    proof {
        reveal_strlit("chat.completion");
    }
    ChatCompletionsResponse {
        id: id.to_owned(),
        object: String::from_str("chat.completion"),
        created,
        model: model.to_owned(),
        choices: {
            let mut v = Vec::new();
            v.push(choice);
            v
        },
        usage: Some(Usage { completion_tokens: count, prompt_tokens: 0, total_tokens: count }),
    }
}

} // verus!
