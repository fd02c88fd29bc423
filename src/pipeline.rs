//! The decisions of one chat request: admission, load on demand, and how
//! each failure is reported to the client.

use vstd::prelude::*;

use crate::message::OpenAiError;
use crate::registry::SlotRegistry;
use crate::utils::ModelCatalog;

verus! {

/// How long a resident model's mailbox may take to hand back a token
/// stream.
pub const HANDSHAKE_TIMEOUT_SECS: u64 = 60;

/// How many generated fragments wait in the channel before the generating
/// worker blocks.
pub const TOKEN_CHANNEL_CAPACITY: usize = 64;

/// How many progress updates wait in the channel before new ones are
/// dropped.
pub const PROGRESS_CHANNEL_CAPACITY: usize = 64;

/// Why a chat request failed.
#[derive(Debug, Clone)]
pub enum ChatError {
    /// No configuration names the requested model.
    ModelNotFound,
    /// Another request holds the model slot.
    Busy,
    /// A non-streaming request named a model that is not resident.
    ModelNotLoaded,
    /// Loading the model or its tokenizer failed.
    ModelInitFailed(String),
    /// The resident model's mailbox did not answer in time.
    ModelSlotTimeout,
    /// The resident model's mailbox could not be reached.
    MailboxError(String),
    /// The resident model refused to process the request.
    ProcessingError,
    /// The worker that loads the model did not complete.
    InternalJoinError(String),
}

/// The HTTP status of each failure.
pub open spec fn error_status(e: ChatError) -> u16 {
    match e {
        ChatError::ModelNotFound => 400,
        ChatError::Busy => 400,
        ChatError::ModelNotLoaded => 400,
        ChatError::ModelInitFailed(_) => 500,
        ChatError::ModelSlotTimeout => 503,
        ChatError::MailboxError(_) => 503,
        ChatError::ProcessingError => 500,
        ChatError::InternalJoinError(_) => 500,
    }
}

/// The `code` member of the envelope.
pub open spec fn error_code(e: ChatError) -> Seq<char> {
    match e {
        ChatError::ModelNotFound => "model_not_found"@,
        ChatError::Busy => "busy"@,
        ChatError::ModelNotLoaded => "resource_not_found"@,
        ChatError::ModelInitFailed(_) => "model_init_failed"@,
        ChatError::ModelSlotTimeout => "server_"@,
        ChatError::MailboxError(_) => "server_"@,
        ChatError::ProcessingError => "processing_error"@,
        ChatError::InternalJoinError(_) => "join_failed"@,
    }
}

/// The `type` member of the envelope.
pub open spec fn error_kind(e: ChatError) -> Seq<char> {
    match e {
        ChatError::ModelNotFound => "invalid_request_error"@,
        ChatError::Busy => "busy"@,
        ChatError::ModelNotLoaded => "resource_not_found"@,
        ChatError::ModelInitFailed(_) => "model_init_failed"@,
        ChatError::ModelSlotTimeout => "internal_error"@,
        ChatError::MailboxError(_) => "internal_error"@,
        ChatError::ProcessingError => "internal_error"@,
        ChatError::InternalJoinError(_) => "join_failed"@,
    }
}

/// The human-readable message of the envelope for a request naming `model`.
pub open spec fn error_message(e: ChatError, model: Seq<char>) -> Seq<char> {
    match e {
        ChatError::ModelNotFound => "The model "@ + model
            + " does not exist or you do not have access to it."@,
        ChatError::Busy => "There is another instance running, please wait other instance finished."@,
        ChatError::ModelNotLoaded => "Model not load, please run stream version api to fix this problem."@,
        ChatError::ModelInitFailed(d) => "LLM init failed: "@ + d@,
        ChatError::ModelSlotTimeout => "Server Busy."@,
        ChatError::MailboxError(d) => "Internal server error:"@ + d@,
        ChatError::ProcessingError => "Internal processing error: ()"@,
        ChatError::InternalJoinError(d) => "Join error: "@ + d@,
    }
}

impl ChatError {
    pub fn status(&self) -> (r: u16)
        ensures
            r == error_status(*self),
    {
        match self {
            ChatError::ModelNotFound => 400,
            ChatError::Busy => 400,
            ChatError::ModelNotLoaded => 400,
            ChatError::ModelInitFailed(_) => 500,
            ChatError::ModelSlotTimeout => 503,
            ChatError::MailboxError(_) => 503,
            ChatError::ProcessingError => 500,
            ChatError::InternalJoinError(_) => 500,
        }
    }

    /// The envelope sent to the client of a request naming `model`.
    pub fn to_openai_error(&self, model: &str) -> (r: OpenAiError)
        ensures
            r.message@ == error_message(*self, model@),
            r.kind@ == error_kind(*self),
            r.code@ == error_code(*self),
            r.param is None,
    {
        let (message, kind, code) = match self {
            ChatError::ModelNotFound => {
                let mut m = String::from_str("The model ");
                m.append(model);
                m.append(" does not exist or you do not have access to it.");
                (m, "invalid_request_error", "model_not_found")
            },
            ChatError::Busy => (
                String::from_str(
                    "There is another instance running, please wait other instance finished.",
                ),
                "busy",
                "busy",
            ),
            ChatError::ModelNotLoaded => (
                String::from_str(
                    "Model not load, please run stream version api to fix this problem.",
                ),
                "resource_not_found",
                "resource_not_found",
            ),
            ChatError::ModelInitFailed(d) => {
                let mut m = String::from_str("LLM init failed: ");
                m.append(d.as_str());
                (m, "model_init_failed", "model_init_failed")
            },
            ChatError::ModelSlotTimeout => (
                String::from_str("Server Busy."),
                "internal_error",
                "server_",
            ),
            ChatError::MailboxError(d) => {
                let mut m = String::from_str("Internal server error:");
                m.append(d.as_str());
                (m, "internal_error", "server_")
            },
            ChatError::ProcessingError => (
                String::from_str("Internal processing error: ()"),
                "internal_error",
                "processing_error",
            ),
            ChatError::InternalJoinError(d) => {
                let mut m = String::from_str("Join error: ");
                m.append(d.as_str());
                (m, "join_failed", "join_failed")
            },
        };
        OpenAiError {
            message,
            kind: String::from_str(kind),
            param: None,
            code: String::from_str(code),
        }
    }
}

/// What a request does with the model slot before it sends its messages.
#[derive(Debug, Clone, Copy, PartialEq, Eq, Structural)]
pub enum SlotPlan {
    /// The model is resident: use it.
    UseResident,
    /// Shut down whatever is resident, then load the model, reporting
    /// progress on the response stream.
    EvictAndLoad,
}

/// The decision for a request naming a model that is `known` to the
/// catalog, when the slot lock was `admitted` or not, the model is
/// `resident` or not, and the client asked to `stream` or not.
pub open spec fn plan_of(known: bool, admitted: bool, resident: bool, stream: bool) -> Result<
    SlotPlan,
    ChatError,
> {
    if !known {
        Err(ChatError::ModelNotFound)
    } else if !admitted {
        Err(ChatError::Busy)
    } else if resident {
        Ok(SlotPlan::UseResident)
    } else if !stream {
        Err(ChatError::ModelNotLoaded)
    } else {
        Ok(SlotPlan::EvictAndLoad)
    }
}

/// Decides a request for `model`. `registry` is the slot registry when its
/// lock was acquired without waiting, and `None` when another request holds
/// it.
pub fn plan_request<P, S>(
    catalog: &ModelCatalog,
    registry: Option<&SlotRegistry<P, S>>,
    model: &str,
    stream: bool,
) -> (r: Result<SlotPlan, ChatError>)
    requires
        registry matches Some(reg) ==> reg.wf(),
    ensures
        r == plan_of(
            catalog.lookup(model@) is Some,
            registry is Some,
            registry matches Some(reg) && reg.inference_map().contains_key(model@),
            stream,
        ),
{
    if catalog.get(model).is_none() {
        return Err(ChatError::ModelNotFound);
    }
    match registry {
        None => Err(ChatError::Busy),
        Some(reg) => {
            if reg.is_resident(model) {
                Ok(SlotPlan::UseResident)
            } else if !stream {
                Err(ChatError::ModelNotLoaded)
            } else {
                Ok(SlotPlan::EvictAndLoad)
            }
        },
    }
}

/// How loading a model on a worker ended.
pub enum LoadOutcome<T> {
    Loaded(T),
    /// The native load or the tokenizer load failed.
    InitFailed(String),
    /// The worker did not complete.
    JoinFailed(String),
}

pub open spec fn load_result<T>(o: LoadOutcome<T>) -> Result<T, ChatError> {
    match o {
        LoadOutcome::Loaded(t) => Ok(t),
        LoadOutcome::InitFailed(d) => Err(ChatError::ModelInitFailed(d)),
        LoadOutcome::JoinFailed(d) => Err(ChatError::InternalJoinError(d)),
    }
}

/// The loaded model, or the failure to report.
pub fn accept_load<T>(o: LoadOutcome<T>) -> (r: Result<T, ChatError>)
    ensures
        r == load_result(o),
{
    match o {
        LoadOutcome::Loaded(t) => Ok(t),
        LoadOutcome::InitFailed(d) => Err(ChatError::ModelInitFailed(d)),
        LoadOutcome::JoinFailed(d) => Err(ChatError::InternalJoinError(d)),
    }
}

/// How the mailbox round trip with the resident model ended.
pub enum Handshake<T> {
    /// The model handed back its token stream.
    Accepted(T),
    /// The model refused the request.
    Rejected,
    /// The mailbox could not deliver the message.
    MailboxFailed(String),
    /// No answer within the handshake timeout.
    TimedOut,
}

pub open spec fn handshake_result<T>(h: Handshake<T>) -> Result<T, ChatError> {
    match h {
        Handshake::Accepted(t) => Ok(t),
        Handshake::Rejected => Err(ChatError::ProcessingError),
        Handshake::MailboxFailed(d) => Err(ChatError::MailboxError(d)),
        Handshake::TimedOut => Err(ChatError::ModelSlotTimeout),
    }
}

/// The token stream, or the failure to report.
pub fn accept_handshake<T>(h: Handshake<T>) -> (r: Result<T, ChatError>)
    ensures
        r == handshake_result(h),
{
    match h {
        Handshake::Accepted(t) => Ok(t),
        Handshake::Rejected => Err(ChatError::ProcessingError),
        Handshake::MailboxFailed(d) => Err(ChatError::MailboxError(d)),
        Handshake::TimedOut => Err(ChatError::ModelSlotTimeout),
    }
}

} // verus!
