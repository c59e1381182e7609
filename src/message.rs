use vstd::prelude::*;

verus! {

/// Who wrote a message.
#[derive(Debug, Clone, Copy, PartialEq, Eq, Structural)]
pub enum Role {
    User,
    Assistant,
}

impl Role {
    /// The role's name on the wire.
    pub fn as_text(&self) -> (r: String)
        ensures
            r@ == role_text(*self),
    {
        match self {
            Role::User => String::from_str("user"),
            Role::Assistant => String::from_str("assistant"),
        }
    }
}

pub open spec fn role_text(r: Role) -> Seq<char> {
    match r {
        Role::User => "user"@,
        Role::Assistant => "assistant"@,
    }
}

/// One turn's message: who wrote it and what it says.
#[derive(Debug, Clone)]
pub struct Message {
    pub role: Role,
    pub content: String,
}

pub struct MessageView {
    pub role: Role,
    pub content: Seq<char>,
}

impl View for Message {
    type V = MessageView;

    open spec fn view(&self) -> MessageView {
        MessageView { role: self.role, content: self.content@ }
    }
}

impl Message {
    pub fn new(role: Role, content: &str) -> (r: Message)
        ensures
            r@ == (MessageView { role, content: content@ }),
    {
        Message { role, content: String::from_str(content) }
    }

    pub fn role(&self) -> (r: Role)
        ensures
            r == self.role,
    {
        self.role
    }

    pub fn content(&self) -> (r: &str)
        ensures
            r@ == self.content@,
    {
        self.content.as_str()
    }

    /// An independent copy of the message.
    pub fn duplicate(&self) -> (r: Message)
        ensures
            r@ == self@,
    {
        Message { role: self.role, content: self.content.clone() }
    }
}

/// The ordered, append-only history of one chat session.
#[derive(Debug)]
pub struct ConversationState {
    messages: Vec<Message>,
}

impl View for ConversationState {
    type V = Seq<MessageView>;

    closed spec fn view(&self) -> Seq<MessageView> {
        self.messages@.map_values(|m: Message| m@)
    }
}

impl ConversationState {
    /// An empty history.
    pub fn new() -> (r: ConversationState)
        ensures
            r@ == Seq::<MessageView>::empty(),
    {
        let r = ConversationState { messages: Vec::new() };
        assert(r@ =~= Seq::<MessageView>::empty());
        r
    }

    pub fn len(&self) -> (r: usize)
        ensures
            r == self@.len(),
    {
        self.messages.len()
    }

    pub fn get(&self, i: usize) -> (r: &Message)
        requires
            i < self@.len(),
        ensures
            r@ == self@[i as int],
    {
        &self.messages[i]
    }

    /// Adds a message at the end; earlier messages are kept as they are.
    pub fn append(&mut self, m: Message)
        ensures
            final(self)@ == old(self)@.push(m@),
    {
        let ghost m_view = m@;
        self.messages.push(m);
        assert(self@ =~= old(self)@.push(m_view));
    }

    /// A deep, independent copy of the history: what is later appended to
    /// the copy or to the original is not seen by the other.
    pub fn branch(&self) -> (r: ConversationState)
        ensures
            r@ == self@,
    {
        let mut out: Vec<Message> = Vec::new();
        let mut i: usize = 0;
        while i < self.messages.len()
            invariant
                i <= self.messages@.len(),
                out@.len() == i,
                forall|t: int| 0 <= t < i ==> #[trigger] out@[t]@ == self.messages@[t]@,
            decreases self.messages@.len() - i,
        {
            out.push(self.messages[i].duplicate());
            i = i + 1;
        }
        let r = ConversationState { messages: out };
        assert(r@ =~= self@);
        r
    }
}

} // verus!
