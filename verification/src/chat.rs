use vstd::prelude::*;

verus! {

/// Role tag of a chat message: who authored it.
#[derive(Clone, Copy, PartialEq, Eq, Structural, Debug)]
pub enum ChatRole {
    System,
    User,
    Assistant,
}

/// The wire name of a role, as the backend's chat template expects it.
pub open spec fn spec_role_name(r: ChatRole) -> Seq<char> {
    match r {
        ChatRole::System => "system"@,
        ChatRole::User => "user"@,
        ChatRole::Assistant => "assistant"@,
    }
}

impl ChatRole {
    /// The role's wire name.
    pub fn value(&self) -> (name: String)
        ensures
            name@ == spec_role_name(*self),
    {
        match *self {
            ChatRole::System => "system".to_owned(),
            ChatRole::User => "user".to_owned(),
            ChatRole::Assistant => "assistant".to_owned(),
        }
    }
}

/// One role-tagged message of the conversation log; immutable once created.
pub struct Message {
    pub role: ChatRole,
    pub content: String,
}

impl View for Message {
    type V = (ChatRole, Seq<char>);

    open spec fn view(&self) -> (ChatRole, Seq<char>) {
        (self.role, self.content@)
    }
}

/// The conversation log: an ordered sequence of role-tagged messages.
/// Its view is the sequence of `(role, content)` pairs, in insertion order.
pub struct ChatWrapper {
    chat: Vec<Message>,
}

/// A freshly constructed, empty log.
pub open spec fn spec_log_new() -> Seq<(ChatRole, Seq<char>)> {
    Seq::empty()
}

/// What one `add_dialogue` call does to a log.
pub open spec fn spec_log_append(
    log: Seq<(ChatRole, Seq<char>)>,
    role: ChatRole,
    content: Seq<char>,
) -> Seq<(ChatRole, Seq<char>)> {
    log.push((role, content))
}

/// What `clear` does to a log: every message is dropped.
pub open spec fn spec_log_clear(log: Seq<(ChatRole, Seq<char>)>) -> Seq<(ChatRole, Seq<char>)> {
    Seq::empty()
}

/// A run of `add_dialogue` calls, one per element of `msgs`, in order.
pub open spec fn spec_log_append_all(
    log: Seq<(ChatRole, Seq<char>)>,
    msgs: Seq<(ChatRole, Seq<char>)>,
) -> Seq<(ChatRole, Seq<char>)>
    decreases msgs.len(),
{
    if msgs.len() == 0 {
        log
    } else {
        spec_log_append_all(spec_log_append(log, msgs.first().0, msgs.first().1), msgs.drop_first())
    }
}

impl View for ChatWrapper {
    type V = Seq<(ChatRole, Seq<char>)>;

    closed spec fn view(&self) -> Seq<(ChatRole, Seq<char>)> {
        self.chat@.map_values(|m: Message| m@)
    }
}

impl ChatWrapper {
    /// A new, empty conversation log.
    pub fn new() -> (log: Self)
        ensures
            log@ =~= spec_log_new(),
    {
        let log = ChatWrapper { chat: Vec::new() };
        proof {
            assert(log@ =~= spec_log_new());
        }
        log
    }

    /// Appends one message at the end of the log.
    pub fn add_dialogue(&mut self, role: ChatRole, content: &str)
        ensures
            final(self)@ =~= spec_log_append(old(self)@, role, content@),
    {
        let message = Message { role, content: content.to_owned() };
        self.chat.push(message);
        proof {
            assert(final(self)@ =~= spec_log_append(old(self)@, role, content@));
        }
    }

    /// Drops every message.
    pub fn clear(&mut self)
        ensures
            final(self)@ =~= spec_log_clear(old(self)@),
    {
        self.chat = Vec::new();
        proof {
            assert(final(self)@ =~= Seq::<(ChatRole, Seq<char>)>::empty());
        }
    }

    /// The number of messages currently in the log.
    pub fn len(&self) -> (n: usize)
        ensures
            n == self@.len(),
    {
        self.chat.len()
    }

    /// A borrow of the message at position `i`.
    pub fn get(&self, i: usize) -> (m: &Message)
        requires
            i < self@.len(),
        ensures
            m@ == self@[i as int],
    {
        &self.chat[i]
    }
}

/// Law: after a `clear`, a run of `add_dialogue` calls leaves the log with
/// exactly one message per append, so `len` equals the number of appends
/// since the last `clear`.
pub proof fn lemma_turn_count_since_clear(
    log: Seq<(ChatRole, Seq<char>)>,
    msgs: Seq<(ChatRole, Seq<char>)>,
)
    ensures
        spec_log_append_all(spec_log_clear(log), msgs).len() == msgs.len(),
{
    lemma_append_all_len(spec_log_clear(log), msgs);
}

/// Each `add_dialogue` call grows the log by exactly one message.
pub proof fn lemma_append_all_len(
    log: Seq<(ChatRole, Seq<char>)>,
    msgs: Seq<(ChatRole, Seq<char>)>,
)
    ensures
        spec_log_append_all(log, msgs).len() == log.len() + msgs.len(),
    decreases msgs.len(),
{
    if msgs.len() > 0 {
        lemma_append_all_len(spec_log_append(log, msgs.first().0, msgs.first().1), msgs.drop_first());
    }
}

/// Law: clearing a log and re-appending the system message yields contents
/// indistinguishable from a freshly constructed log for that mode.
pub proof fn lemma_reset_matches_fresh_log(
    log: Seq<(ChatRole, Seq<char>)>,
    system_prompt: Seq<char>,
)
    ensures
        spec_log_append(spec_log_clear(log), ChatRole::System, system_prompt) =~= spec_log_append(
            spec_log_new(),
            ChatRole::System,
            system_prompt,
        ),
{
}

} // verus!
