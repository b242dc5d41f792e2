//! Ordered conversation log plus the active system context.
//!
//! The log is append-only except for `clear`, which keeps exactly one
//! message: the current system context. The snapshot of the log is what
//! gets replayed verbatim to the remote service on every request.

use vstd::prelude::*;

verus! {

/// Who authored a message of the conversation.
#[derive(Clone, Copy, PartialEq, Eq, Structural, Debug)]
pub enum Role {
    System,
    User,
    Assistant,
}

impl Role {
    /// The wire name of the role, as the remote service expects it.
    pub fn name(&self) -> (r: String)
        ensures
            r@ == match self {
                Role::System => "system"@,
                Role::User => "user"@,
                Role::Assistant => "assistant"@,
            },
    {
        match self {
            Role::System => String::from_str("system"),
            Role::User => String::from_str("user"),
            Role::Assistant => String::from_str("assistant"),
        }
    }
}

/// One entry of the conversation log.
#[derive(Debug)]
pub struct Message {
    pub role: Role,
    pub content: String,
}

/// Mathematical image of a `Message`.
pub ghost struct MessageView {
    pub role: Role,
    pub content: Seq<char>,
}

impl View for Message {
    type V = MessageView;

    open spec fn view(&self) -> MessageView {
        MessageView { role: self.role, content: self.content@ }
    }
}

impl Message {
    /// An exact copy; unlike a derived `Clone`, its contract pins the value.
    pub fn duplicate(&self) -> (r: Message)
        ensures
            r@ == self@,
    {
        Message { role: self.role, content: self.content.clone() }
    }
}

/// The fixed system-prompt presets selectable by the user.
#[derive(Clone, Copy, PartialEq, Eq, Structural, Debug)]
pub enum UseContext {
    Basic,
    Short,
    Programming,
}

pub const BASIC_CONTEXT: &'static str = "You are a helpful assistant.";

pub const NO_REPEAT: &'static str = "You are a helpful and very direct assistant.You don't repeat the user's input in your answer,you just provide a short and precise answer.";

pub const PROGRAMMING: &'static str = "You are an assistant for a programmer.You can assume basic knowledge about how to use the commandline in linux and an understanding of basic principles in programming languages.In general, all your answers should assume, that the user is running a linux operating system.However, this should not change your answer related to non-computer issues.";

/// The fixed text of a preset.
pub open spec fn preset_view(p: UseContext) -> Seq<char> {
    match p {
        UseContext::Basic => BASIC_CONTEXT@,
        UseContext::Short => NO_REPEAT@,
        UseContext::Programming => PROGRAMMING@,
    }
}

/// The system message a preset stands for.
pub open spec fn sys_msg(p: UseContext) -> MessageView {
    MessageView { role: Role::System, content: preset_view(p) }
}

/// Builds the system message of a preset.
pub fn preset_message(p: UseContext) -> (r: Message)
    ensures
        r@ == sys_msg(p),
{
    let text = match p {
        UseContext::Basic => BASIC_CONTEXT,
        UseContext::Short => NO_REPEAT,
        UseContext::Programming => PROGRAMMING,
    };
    Message { role: Role::System, content: String::from_str(text) }
}

/// Mathematical image of a `MessageStore`.
pub ghost struct StoreView {
    pub log: Seq<MessageView>,
    pub current: MessageView,
}

/// What appending a user or assistant message does to the store.
pub open spec fn append_op(v: StoreView, role: Role, text: Seq<char>) -> StoreView {
    StoreView { log: v.log.push(MessageView { role, content: text }), current: v.current }
}

/// What switching the context does: the preset's system message is
/// appended to the log and becomes the current context.
pub open spec fn switch_op(v: StoreView, p: UseContext) -> StoreView {
    StoreView { log: v.log.push(sys_msg(p)), current: sys_msg(p) }
}

/// What clearing does: the log is reduced to exactly the current context.
pub open spec fn clear_op(v: StoreView) -> StoreView {
    StoreView { log: seq![v.current], current: v.current }
}

/// The ordered conversation log together with the current system context.
pub struct MessageStore {
    messages: Vec<Message>,
    context: Message,
}

impl View for MessageStore {
    type V = StoreView;

    closed spec fn view(&self) -> StoreView {
        StoreView {
            log: self.messages@.map_values(|m: Message| m@),
            current: self.context@,
        }
    }
}

impl MessageStore {
    /// The current context is always a system message.
    pub open spec fn wf(&self) -> bool {
        self@.current.role == Role::System
    }

    /// A fresh store: the default preset's system message is the sole
    /// entry and the current context.
    pub fn new(default: UseContext) -> (r: MessageStore)
        ensures
            r.wf(),
            r@.log =~= seq![sys_msg(default)],
            r@.current == sys_msg(default),
    {
        let context = preset_message(default);
        let mut messages: Vec<Message> = Vec::new();
        messages.push(context.duplicate());
        MessageStore { messages, context }
    }

    /// Appends a user message; empty text is legal and kept as-is.
    pub fn append_user(&mut self, text: String)
        ensures
            final(self)@ == append_op(old(self)@, Role::User, text@),
            final(self).wf() == old(self).wf(),
    {
        let text_view = Ghost(text@);
        self.messages.push(Message { role: Role::User, content: text });
        proof {
            assert(final(self)@.log =~= append_op(old(self)@, Role::User, text_view@).log);
        }
    }

    /// Appends an assistant message: the full answer of one exchange.
    pub fn append_assistant(&mut self, text: String)
        ensures
            final(self)@ == append_op(old(self)@, Role::Assistant, text@),
            final(self).wf() == old(self).wf(),
    {
        let text_view = Ghost(text@);
        self.messages.push(Message { role: Role::Assistant, content: text });
        proof {
            assert(final(self)@.log =~= append_op(old(self)@, Role::Assistant, text_view@).log);
        }
    }

    /// Appends the preset's system message and makes it the current context.
    pub fn switch_context(&mut self, p: UseContext)
        ensures
            final(self)@ == switch_op(old(self)@, p),
            final(self).wf(),
    {
        let msg = preset_message(p);
        self.context = msg.duplicate();
        self.messages.push(msg);
        proof {
            assert(final(self)@.log =~= switch_op(old(self)@, p).log);
        }
    }

    /// Discards the log but keeps exactly one message: the current context.
    pub fn clear(&mut self)
        ensures
            final(self)@ == clear_op(old(self)@),
            final(self).wf() == old(self).wf(),
    {
        self.messages.clear();
        self.messages.push(self.context.duplicate());
        proof {
            assert(final(self)@.log =~= clear_op(old(self)@).log);
        }
    }

    /// The ordered sequence of messages to send verbatim with the next request.
    pub fn snapshot(&self) -> (r: &Vec<Message>)
        ensures
            r@.map_values(|m: Message| m@) == self@.log,
    {
        &self.messages
    }
}

/// Clearing always leaves exactly one message, and it is the current context,
/// no matter how many messages the log held before.
pub proof fn lemma_clear_keeps_only_current(v: StoreView)
    ensures
        clear_op(v).log.len() == 1,
        clear_op(v).log[0] == v.current,
        clear_op(v).current == v.current,
{
}

/// Switching to one preset and then another and then clearing leaves the
/// second preset's system message as the sole entry — never the first one.
pub proof fn lemma_second_switch_wins(v: StoreView, first: UseContext, second: UseContext)
    requires
        first != second,
    ensures
        ({
            let w = clear_op(switch_op(switch_op(v, first), second));
            &&& w.log.len() == 1
            &&& w.log[0] == sys_msg(second)
            &&& w.log[0] != sys_msg(first)
        }),
{
    reveal_strlit("You are a helpful assistant.");
    reveal_strlit("You are a helpful and very direct assistant.You don't repeat the user's input in your answer,you just provide a short and precise answer.");
    reveal_strlit("You are an assistant for a programmer.You can assume basic knowledge about how to use the commandline in linux and an understanding of basic principles in programming languages.In general, all your answers should assume, that the user is running a linux operating system.However, this should not change your answer related to non-computer issues.");
    assert(preset_view(first).len() != preset_view(second).len());
}

} // verus!
