//! The inference executor's decisions: when the native handle may run or be
//! destroyed, what the token callback does with each native event, and how
//! a prompt is rendered from chat messages.

use vstd::prelude::*;

use autotokenizer::{AutoTokenizer, DefaultPromptMessage};

use crate::message::{message_role_name, message_text, Message};

verus! {

/// Where the native handle of a resident model stands.
#[derive(Debug, Clone, Copy, PartialEq, Eq, Structural)]
pub enum ExecState {
    /// Loaded and idle.
    Ready,
    /// An inference call is in flight.
    Running,
    /// The handle has been destroyed; nothing may run any more.
    Destroyed,
}

/// The state after a shutdown, and whether the handle must be destroyed now.
pub open spec fn shutdown_step(s: ExecState) -> (ExecState, bool) {
    match s {
        ExecState::Destroyed => (ExecState::Destroyed, false),
        _ => (ExecState::Destroyed, true),
    }
}

/// A second shutdown never destroys the handle again.
pub proof fn lemma_second_shutdown_is_noop(s: ExecState)
    ensures
        !shutdown_step(shutdown_step(s).0).1,
        shutdown_step(shutdown_step(s).0).0 == ExecState::Destroyed,
{
}

/// The lifecycle of one native handle, kept under the executor's lock.
pub struct ExecLifecycle {
    state: ExecState,
    destroys: Ghost<nat>,
}

impl ExecLifecycle {
    pub closed spec fn state(&self) -> ExecState {
        self.state
    }

    /// How many times the handle has been destroyed.
    pub closed spec fn destroys(&self) -> nat {
        self.destroys@
    }

    pub closed spec fn wf(&self) -> bool {
        self.destroys@ == if self.state == ExecState::Destroyed {
            1nat
        } else {
            0nat
        }
    }

    /// A freshly loaded handle.
    pub fn new() -> (r: Self)
        ensures
            r.wf(),
            r.state() == ExecState::Ready,
            r.destroys() == 0,
    {
        ExecLifecycle { state: ExecState::Ready, destroys: Ghost(0) }
    }

    pub fn state_now(&self) -> (r: ExecState)
        ensures
            r == self.state(),
    {
        self.state
    }

    /// An inference call starts; refused once the handle is destroyed.
    pub fn begin_run(&mut self) -> (r: Result<(), ()>)
        requires
            old(self).wf(),
        ensures
            final(self).wf(),
            r is Ok <==> old(self).state() == ExecState::Ready,
            r is Ok ==> final(self).state() == ExecState::Running,
            r is Err ==> final(self).state() == old(self).state(),
            final(self).destroys() == old(self).destroys(),
    {
        match self.state {
            ExecState::Ready => {
                self.state = ExecState::Running;
                Ok(())
            },
            _ => Err(()),
        }
    }

    /// The inference call returned, normally or after an abort.
    pub fn end_run(&mut self)
        requires
            old(self).wf(),
        ensures
            final(self).wf(),
            old(self).state() == ExecState::Running ==> final(self).state() == ExecState::Ready,
            old(self).state() != ExecState::Running ==> final(self).state() == old(self).state(),
            final(self).destroys() == old(self).destroys(),
    {
        if self.state == ExecState::Running {
            self.state = ExecState::Ready;
        }
    }

    /// Shuts the executor down. Returns whether the caller must destroy the
    /// native handle now: the first time only.
    pub fn shutdown(&mut self) -> (r: bool)
        requires
            old(self).wf(),
            old(self).state() != ExecState::Running,
        ensures
            final(self).wf(),
            (final(self).state(), r) == shutdown_step(old(self).state()),
            final(self).destroys() == 1,
    {
        match self.state {
            ExecState::Destroyed => false,
            _ => {
                self.state = ExecState::Destroyed;
                self.destroys = Ghost(1);
                true
            },
        }
    }
}

/// The states in which the native engine invokes the token callback.
#[derive(Debug, Clone, Copy, PartialEq, Eq, Structural)]
pub enum CallState {
    Normal,
    Waiting,
    Finish,
    Error,
    GetLastHiddenLayer,
}

/// What the callback does with one native event.
#[derive(Debug)]
pub enum ForwardAction {
    /// Send this fragment to the consumer.
    Push(String),
    /// Close the channel: generation has ended.
    Close,
    /// Nothing to do.
    Ignore,
}

/// The action for a callback in `state` carrying `text`, while the channel
/// is `open` or not.
pub open spec fn callback_action(open: bool, state: CallState, text: Option<String>) -> ForwardAction {
    match state {
        CallState::Normal => match text {
            Some(t) => if open {
                ForwardAction::Push(t)
            } else {
                ForwardAction::Ignore
            },
            None => ForwardAction::Ignore,
        },
        CallState::Finish => if open {
            ForwardAction::Close
        } else {
            ForwardAction::Ignore
        },
        _ => ForwardAction::Ignore,
    }
}

/// One event the callback reacts to.
pub enum ForwardEvent {
    Callback(CallState, Option<String>),
    /// Sending a fragment failed: the consumer is gone.
    PushFailed,
}

/// Whether the channel is open after `e`, and whether `e` starts an abort.
pub open spec fn forward_step(open: bool, e: ForwardEvent) -> (bool, bool) {
    match e {
        ForwardEvent::Callback(state, text) => (
            open && !(callback_action(open, state, text) is Close),
            false,
        ),
        ForwardEvent::PushFailed => (false, open),
    }
}

/// How many aborts a run of events starts from a channel that is `open`.
pub open spec fn aborts_started(open: bool, events: Seq<ForwardEvent>) -> nat
    decreases events.len(),
{
    if events.len() == 0 {
        0
    } else {
        let (next, abort) = forward_step(open, events[0]);
        (if abort {
            1nat
        } else {
            0nat
        }) + aborts_started(next, events.drop_first())
    }
}

proof fn lemma_closed_never_aborts(events: Seq<ForwardEvent>)
    ensures
        aborts_started(false, events) == 0,
    decreases events.len(),
{
    if events.len() > 0 {
        lemma_closed_never_aborts(events.drop_first());
    }
}

/// Whatever the native engine and the consumer do, one generation starts
/// the abort path at most once.
pub proof fn lemma_abort_at_most_once(open: bool, events: Seq<ForwardEvent>)
    ensures
        aborts_started(open, events) <= 1,
    decreases events.len(),
{
    if events.len() > 0 {
        let (next, abort) = forward_step(open, events[0]);
        if abort {
            lemma_closed_never_aborts(events.drop_first());
        } else {
            lemma_abort_at_most_once(next, events.drop_first());
        }
    }
}

/// The token callback of one generation: forwards fragments to the
/// consumer until the engine finishes or the consumer goes away.
pub struct TokenForwarder {
    open: bool,
    aborts: Ghost<nat>,
}

impl TokenForwarder {
    /// Whether fragments are still forwarded.
    pub closed spec fn is_open(&self) -> bool {
        self.open
    }

    /// How many aborts this generation has started.
    pub closed spec fn aborts(&self) -> nat {
        self.aborts@
    }

    pub closed spec fn wf(&self) -> bool {
        &&& self.aborts@ <= 1
        &&& self.aborts@ == 1 ==> !self.open
    }

    pub fn new() -> (r: Self)
        ensures
            r.wf(),
            r.is_open(),
            r.aborts() == 0,
    {
        TokenForwarder { open: true, aborts: Ghost(0) }
    }

    /// Reacts to one invocation of the callback.
    pub fn on_callback(&mut self, state: CallState, text: Option<String>) -> (r: ForwardAction)
        requires
            old(self).wf(),
        ensures
            final(self).wf(),
            r == callback_action(old(self).is_open(), state, text),
            final(self).is_open() == forward_step(
                old(self).is_open(),
                ForwardEvent::Callback(state, text),
            ).0,
            final(self).aborts() == old(self).aborts(),
    {
        match state {
            CallState::Normal => match text {
                Some(t) => if self.open {
                    ForwardAction::Push(t)
                } else {
                    ForwardAction::Ignore
                },
                None => ForwardAction::Ignore,
            },
            CallState::Finish => if self.open {
                self.open = false;
                ForwardAction::Close
            } else {
                ForwardAction::Ignore
            },
            _ => ForwardAction::Ignore,
        }
    }

    /// A push failed because the consumer is gone. Returns whether the
    /// caller must start the abort path; the channel is closed either way.
    pub fn on_push_failed(&mut self) -> (r: bool)
        requires
            old(self).wf(),
        ensures
            final(self).wf(),
            r == old(self).is_open(),
            (final(self).is_open(), r) == forward_step(old(self).is_open(), ForwardEvent::PushFailed),
            final(self).aborts() == old(self).aborts() + if r {
                1nat
            } else {
                0nat
            },
            final(self).aborts() <= 1,
    {
        if self.open {
            self.open = false;
            self.aborts = Ghost(self.aborts@ + 1);
            true
        } else {
            false
        }
    }
}

/// The diagnostic fragment sent when the native run fails with `detail`.
pub open spec fn failure_text(detail: Seq<char>) -> Seq<char> {
    "Model error: execution failed. Check logs for context-length warnings. Details: "@ + detail
}

/// The fragments sent when the native run fails: a diagnostic, then the
/// empty end-of-stream marker.
pub fn run_failure_tokens(detail: &str) -> (r: Vec<String>)
    ensures
        r@.len() == 2,
        r@[0]@ == failure_text(detail@),
        r@[1]@ == Seq::<char>::empty(),
{
    let mut first = String::from_str(
        "Model error: execution failed. Check logs for context-length warnings. Details: ",
    );
    first.append(detail);
    let mut r = Vec::new();
    r.push(first);
    r.push(String::new());
    r
}

/// The (role, text) turns handed to the chat template.
pub open spec fn turns_of(messages: Seq<Message>) -> Seq<(Seq<char>, Seq<char>)> {
    messages.map_values(|m: Message| (message_role_name(m), message_text(m)))
}

/// The views of (role, text) turns.
pub open spec fn turn_views(turns: Seq<(String, String)>) -> Seq<(Seq<char>, Seq<char>)> {
    turns.map_values(|t: (String, String)| (t.0@, t.1@))
}

/// One (role, text) turn per message, in order.
pub fn prompt_turns(messages: &Vec<Message>) -> (r: Vec<(String, String)>)
    ensures
        turn_views(r@) == turns_of(messages@),
{
    let mut r: Vec<(String, String)> = Vec::new();
    let mut i: usize = 0;
    while i < messages.len()
        invariant
            i <= messages.len(),
            turn_views(r@) == turns_of(messages@.subrange(0, i as int)),
        decreases messages.len() - i,
    {
        let role = String::from_str(messages[i].role_name());
        let text = messages[i].text();
        let ghost before = r@;
        r.push((role, text));
        proof {
            let a = turn_views(r@);
            let b = turns_of(messages@.subrange(0, i as int + 1));
            let a0 = turn_views(before);
            let b0 = turns_of(messages@.subrange(0, i as int));
            assert(a0.len() == before.len());
            assert(b0.len() == i);
            assert(r@.len() == before.len() + 1);
            assert(a.len() == b.len());
            assert forall|j: int| 0 <= j < a.len() implies a[j] == b[j] by {
                if j < i {
                    assert(a[j] == a0[j]);
                    assert(b[j] == b0[j]);
                } else {
                    assert(messages@.subrange(0, i as int + 1)[j] == messages@[i as int]);
                }
            }
            assert(a =~= b);
        }
        i = i + 1;
    }
    assert(messages@.subrange(0, i as int) =~= messages@);
    r
}

/// The rendered prompt, or an empty one where rendering failed.
pub fn prompt_or_empty(rendered: Option<String>) -> (r: String)
    ensures
        rendered matches Some(s) ==> r == s,
        rendered is None ==> r@ == Seq::<char>::empty(),
{
    match rendered {
        Some(s) => s,
        None => String::new(),
    }
}

#[verifier::external_type_specification]
#[verifier::external_body]
pub struct ExAutoTokenizer(AutoTokenizer);

/// What the tokenizer's default chat template renders for the turns, with
/// the generation prompt appended; `None` where rendering fails.
pub uninterp spec fn chat_render_of(
    tokenizer: AutoTokenizer,
    turns: Seq<(Seq<char>, Seq<char>)>,
) -> Option<Seq<char>>;

/// Relies on `autotokenizer::AutoTokenizer::apply_chat_template`: renders
/// the turns through the tokenizer's default chat template, a result that
/// depends on the tokenizer and the turns alone, and fails where the
/// tokenizer has no template or rendering fails.
#[verifier::external_body]
fn apply_chat_template(tokenizer: &AutoTokenizer, turns: &Vec<(String, String)>) -> (r: Option<
    String,
>)
    ensures
        match r {
            Some(s) => chat_render_of(*tokenizer, turn_views(turns@)) == Some(s@),
            None => chat_render_of(*tokenizer, turn_views(turns@)) is None,
        },
{
    let messages: Vec<DefaultPromptMessage> = turns.iter().map(
        |(role, content)| DefaultPromptMessage::new(role, content),
    ).collect();
    tokenizer.apply_chat_template(messages, true, None).ok()
}

/// Renders `messages` through the tokenizer's chat template, with the
/// generation prompt appended; `None` where rendering fails.
pub fn rendered_prompt(tokenizer: &AutoTokenizer, messages: &Vec<Message>) -> (r: Option<String>)
    ensures
        match r {
            Some(s) => chat_render_of(*tokenizer, turns_of(messages@)) == Some(s@),
            None => chat_render_of(*tokenizer, turns_of(messages@)) is None,
        },
{
    let turns = prompt_turns(messages);
    apply_chat_template(tokenizer, &turns)
}

/// Renders `messages` through the tokenizer's chat template, with the
/// generation prompt appended. A failed rendering gives an empty prompt.
pub fn render_prompt(tokenizer: &AutoTokenizer, messages: &Vec<Message>) -> (r: String)
    ensures
        r@ == match chat_render_of(*tokenizer, turns_of(messages@)) {
            Some(s) => s,
            None => Seq::<char>::empty(),
        },
{
    prompt_or_empty(rendered_prompt(tokenizer, messages))
}

} // verus!
