use vstd::prelude::*;

verus! {

/// Who produced a message of the conversation.
#[derive(Clone, Copy, Debug, PartialEq, Eq, Structural)]
pub enum Role {
    System,
    User,
    Assistant,
}

/// The name a role carries in a serialized conversation.
pub open spec fn role_name_spec(role: Role) -> Seq<char> {
    match role {
        Role::System => "system"@,
        Role::User => "user"@,
        Role::Assistant => "assistant"@,
    }
}

/// The role a name stands for, if any.
pub open spec fn role_of_name(name: Seq<char>) -> Option<Role> {
    if name == role_name_spec(Role::System) {
        Some(Role::System)
    } else if name == role_name_spec(Role::User) {
        Some(Role::User)
    } else if name == role_name_spec(Role::Assistant) {
        Some(Role::Assistant)
    } else {
        None
    }
}

impl Role {
    /// The lower-case name of the role.
    pub fn name(&self) -> (r: String)
        ensures
            r@ == role_name_spec(*self),
    {
        match self {
            Role::System => String::from_str("system"),
            Role::User => String::from_str("user"),
            Role::Assistant => String::from_str("assistant"),
        }
    }

    /// The role with the given name, if there is one.
    pub fn from_name(name: &str) -> (r: Option<Role>)
        ensures
            r == role_of_name(name@),
    {
        proof {
            reveal_strlit("system");
            reveal_strlit("user");
            reveal_strlit("assistant");
        }
        if str_eq(name, "system") {
            Some(Role::System)
        } else if str_eq(name, "user") {
            Some(Role::User)
        } else if str_eq(name, "assistant") {
            Some(Role::Assistant)
        } else {
            None
        }
    }
}

/// Whether two strings hold the same characters.
fn str_eq(a: &str, b: &str) -> (r: bool)
    ensures
        r <==> a@ == b@,
{
    let n = a.unicode_len();
    let m = b.unicode_len();
    if n != m {
        return false;
    }
    let mut i: usize = 0;
    while i < n
        invariant
            n == a@.len(),
            m == b@.len(),
            n == m,
            i <= n,
            forall|k: int| 0 <= k < i ==> a@[k] == b@[k],
        decreases n - i,
    {
        if a.get_char(i) != b.get_char(i) {
            return false;
        }
        i = i + 1;
    }
    assert(a@ =~= b@);
    true
}

/// The mathematical value of a message: its role and its text.
pub struct MessageModel {
    pub role: Role,
    pub content: Seq<char>,
}

/// One role-tagged entry of a conversation.
#[derive(Clone, Debug)]
pub struct Message {
    pub role: Role,
    pub content: String,
}

impl View for Message {
    type V = MessageModel;

    open spec fn view(&self) -> MessageModel {
        MessageModel { role: self.role, content: self.content@ }
    }
}

impl Message {
    pub fn new(role: Role, content: String) -> (r: Message)
        ensures
            r@ == (MessageModel { role, content: content@ }),
    {
        Message { role, content }
    }

    /// A copy of the message with the same role and text.
    pub fn duplicate(&self) -> (r: Message)
        ensures
            r@ == self@,
    {
        Message { role: self.role, content: self.content.clone() }
    }
}

/// The values of a sequence of messages.
pub open spec fn messages_view(v: Seq<Message>) -> Seq<MessageModel> {
    v.map_values(|m: Message| m@)
}

/// The ordered, append-only conversation: a system message followed by the
/// turns that came after it.
pub struct History {
    messages: Vec<Message>,
}

impl View for History {
    type V = Seq<MessageModel>;

    closed spec fn view(&self) -> Seq<MessageModel> {
        messages_view(self.messages@)
    }
}

impl History {
    /// The first message is the system message.
    pub open spec fn wf(&self) -> bool {
        self@.len() > 0 && self@[0].role == Role::System
    }

    /// A history that holds the system prompt alone.
    pub fn new(system_prompt: String) -> (r: History)
        ensures
            r@ == seq![MessageModel { role: Role::System, content: system_prompt@ }],
            r.wf(),
    {
        let mut messages: Vec<Message> = Vec::new();
        messages.push(Message { role: Role::System, content: system_prompt });
        let r = History { messages };
        assert(r@ =~= seq![MessageModel { role: Role::System, content: system_prompt@ }]);
        r
    }

    /// Adds one message at the end.
    pub fn append(&mut self, role: Role, content: String)
        requires
            old(self).wf(),
        ensures
            final(self)@ == old(self)@.push(MessageModel { role, content: content@ }),
            final(self).wf(),
    {
        self.messages.push(Message { role, content });
        assert(self@ =~= old(self)@.push(MessageModel { role, content: content@ }));
    }

    /// Adds prior turns at the end, in their order.
    pub fn append_seed_history(&mut self, prior: &Vec<Message>)
        requires
            old(self).wf(),
        ensures
            final(self)@ == old(self)@ + messages_view(prior@),
            final(self).wf(),
    {
        let mut i: usize = 0;
        while i < prior.len()
            invariant
                0 <= i <= prior@.len(),
                self.wf(),
                self@ == old(self)@ + messages_view(prior@.subrange(0, i as int)),
            decreases prior@.len() - i,
        {
            let m = prior[i].duplicate();
            let ghost before = self@;
            self.messages.push(m);
            assert(self@ =~= before.push(m@));
            assert(messages_view(prior@.subrange(0, i + 1)) =~= messages_view(
                prior@.subrange(0, i as int),
            ).push(prior@[i as int]@));
            assert(self@ =~= old(self)@ + messages_view(prior@.subrange(0, i + 1)));
            i = i + 1;
        }
        assert(prior@.subrange(0, i as int) =~= prior@);
    }

    /// The messages, oldest first.
    pub fn messages(&self) -> (r: &Vec<Message>)
        ensures
            messages_view(r@) == self@,
    {
        &self.messages
    }

    pub fn len(&self) -> (r: usize)
        ensures
            r == self@.len(),
    {
        self.messages.len()
    }
}

} // verus!
