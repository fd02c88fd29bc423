//! Chat messages as they arrive in a request, and the mailbox messages a
//! resident model accepts.

use vstd::prelude::*;

use crate::text::{concat_all, join_all, views_of};

verus! {

/// Error envelope returned to HTTP clients.
#[derive(Debug, Clone)]
pub struct OpenAiError {
    pub message: String,
    /// The `type` member of the envelope.
    pub kind: String,
    pub param: Option<String>,
    pub code: String,
}

/// Message content: one text, a list of texts, or structured parts.
#[derive(Debug, Clone)]
pub enum Content {
    Parts(Vec<ContentPart>),
    String(String),
    Array(Vec<String>),
}

/// One part of structured content: a text or an image reference.
#[derive(Debug, Clone)]
pub struct ContentPart {
    /// The `type` member of the part.
    pub kind: String,
    pub text: Option<String>,
    pub image_url: Option<ImageUrl>,
}

#[derive(Debug, Clone)]
pub struct ImageUrl {
    pub url: Option<String>,
    pub detail: Option<String>,
}

#[derive(Debug, Clone, Copy, PartialEq, Eq, Structural)]
pub enum Role {
    System,
    User,
    Assistant,
    Developer,
}

#[derive(Debug, Clone)]
pub struct Message {
    pub role: Option<Role>,
    pub content: Option<Content>,
}

/// Asks a resident model to generate a reply to `messages`.
#[derive(Debug, Clone)]
pub struct ProcessMessages {
    pub messages: Vec<Message>,
}

/// Asks a resident model to release its native resources.
#[derive(Debug, Clone, Copy)]
pub struct ShutdownMessages;

/// The name a role has on the wire and in chat templates.
pub open spec fn role_name(r: Role) -> Seq<char> {
    match r {
        Role::System => "system"@,
        Role::User => "user"@,
        Role::Assistant => "assistant"@,
        Role::Developer => "developer"@,
    }
}

/// The text of the parts that carry one, in order.
pub open spec fn parts_text(parts: Seq<ContentPart>) -> Seq<char>
    decreases parts.len(),
{
    if parts.len() == 0 {
        Seq::empty()
    } else {
        parts_text(parts.drop_last()) + match parts.last().text {
            Some(t) => t@,
            None => Seq::empty(),
        }
    }
}

/// The plain text of a content value, as handed to the chat template.
pub open spec fn content_text(c: Content) -> Seq<char> {
    match c {
        Content::String(s) => s@,
        Content::Array(items) => concat_all(views_of(items@)),
        Content::Parts(parts) => parts_text(parts@),
    }
}

/// The text of a message; a message without content has none.
pub open spec fn message_text(m: Message) -> Seq<char> {
    match m.content {
        Some(c) => content_text(c),
        None => Seq::empty(),
    }
}

/// The role a message is rendered with; a message without one counts as
/// the user's.
pub open spec fn message_role_name(m: Message) -> Seq<char> {
    match m.role {
        Some(r) => role_name(r),
        None => role_name(Role::User),
    }
}

impl Role {
    pub fn as_str(&self) -> (r: &'static str)
        ensures
            r@ == role_name(*self),
    {
        proof {
            reveal_strlit("system");
            reveal_strlit("user");
            reveal_strlit("assistant");
            reveal_strlit("developer");
        }
        match self {
            Role::System => "system",
            Role::User => "user",
            Role::Assistant => "assistant",
            Role::Developer => "developer",
        }
    }
}

impl Content {
    /// Flattens the content into one text.
    pub fn text(&self) -> (r: String)
        ensures
            r@ == content_text(*self),
    {
        match self {
            Content::String(s) => s.clone(),
            Content::Array(items) => join_all(items),
            Content::Parts(parts) => {
                let mut acc = String::new();
                let mut i: usize = 0;
                while i < parts.len()
                    invariant
                        i <= parts.len(),
                        acc@ == parts_text(parts@.subrange(0, i as int)),
                    decreases parts.len() - i,
                {
                    proof {
                        assert(parts@.subrange(0, i as int + 1).drop_last() =~= parts@.subrange(
                            0,
                            i as int,
                        ));
                    }
                    match &parts[i].text {
                        Some(t) => acc.append(t.as_str()),
                        None => {},
                    }
                    i = i + 1;
                }
                assert(parts@.subrange(0, i as int) =~= parts@);
                acc
            },
        }
    }
}

impl Message {
    pub fn text(&self) -> (r: String)
        ensures
            r@ == message_text(*self),
    {
        match &self.content {
            Some(c) => c.text(),
            None => String::new(),
        }
    }

    pub fn role_name(&self) -> (r: &'static str)
        ensures
            r@ == message_role_name(*self),
    {
        match self.role {
            Some(r) => r.as_str(),
            None => Role::User.as_str(),
        }
    }
}

#[verifier::external_type_specification]
#[verifier::external_body]
pub struct ExInstant(std::time::Instant);

/// Notified while a model's weights are loaded into the accelerator.
pub trait ModelProgress {
    fn model_load(&mut self, size: usize, filename: &str, start: std::time::Instant);

    fn model_finished(&mut self);
}

impl ModelProgress for () {
    fn model_load(&mut self, _size: usize, _filename: &str, _start: std::time::Instant) {
    }

    fn model_finished(&mut self) {
    }
}

} // verus!
