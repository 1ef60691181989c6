//! Bounded, ordered log of conversation turns for one session.

use vstd::prelude::*;

verus! {

/// Default maximum number of conversation turns to keep.
pub const DEFAULT_MAX_TURNS: usize = 20;

/// Who produced a turn.
#[derive(Clone, Copy, PartialEq, Eq, Structural, Debug)]
pub enum Role {
    User,
    Assistant,
}

/// One conversation turn: a role and its text.  Immutable once created.
#[derive(Debug)]
pub struct Message {
    pub role: Role,
    pub content: String,
}

/// Mathematical model of one turn.
pub ghost struct MessageModel {
    pub role: Role,
    pub content: Seq<char>,
}

impl View for Message {
    type V = MessageModel;

    open spec fn view(&self) -> MessageModel {
        MessageModel { role: self.role, content: self.content@ }
    }
}

impl Message {
    /// An independent copy of this turn.
    pub fn duplicate(&self) -> (r: Message)
        ensures
            r@ == self@,
    {
        Message { role: self.role, content: self.content.clone() }
    }
}

/// A user turn with the given text.
pub open spec fn user_turn(text: Seq<char>) -> MessageModel {
    MessageModel { role: Role::User, content: text }
}

/// An assistant turn with the given text.
pub open spec fn assistant_turn(text: Seq<char>) -> MessageModel {
    MessageModel { role: Role::Assistant, content: text }
}

/// Mathematical model of a history: its turns and its bound.
pub ghost struct HistoryModel {
    pub turns: Seq<MessageModel>,
    pub max_turns: nat,
}

impl HistoryModel {
    /// The bound the history maintains: at most two messages per kept turn,
    /// and a bound never above the default.
    pub open spec fn wf(self) -> bool {
        &&& self.turns.len() <= 2 * self.max_turns
        &&& self.max_turns <= DEFAULT_MAX_TURNS
    }
}

/// The model of a freshly created history: empty, with the requested bound
/// clamped to the default.
pub open spec fn history_new(max_turns: nat) -> HistoryModel {
    HistoryModel {
        turns: Seq::empty(),
        max_turns: if max_turns <= DEFAULT_MAX_TURNS {
            max_turns
        } else {
            DEFAULT_MAX_TURNS as nat
        },
    }
}

/// The model of appending one turn: push it, then, if the bound is exceeded,
/// drop the two oldest messages together (or all of them, when fewer than two
/// are present).
pub open spec fn history_add(h: HistoryModel, m: MessageModel) -> HistoryModel {
    let pushed = h.turns.push(m);
    let kept = if pushed.len() > 2 * h.max_turns {
        if pushed.len() >= 2 {
            pushed.subrange(2, pushed.len() as int)
        } else {
            Seq::empty()
        }
    } else {
        pushed
    };
    HistoryModel { turns: kept, max_turns: h.max_turns }
}

/// History bound: appending any turn to a well-formed history keeps it
/// well-formed, so the bound holds after every call in any sequence of calls.
pub proof fn lemma_history_bound(h: HistoryModel, m: MessageModel)
    requires
        h.wf(),
    ensures
        history_add(h, m).wf(),
        history_add(h, m).turns.len() <= 2 * h.max_turns,
{
}

/// Manages conversation history for multi-turn dialogue.
pub struct ConversationHistory {
    messages: Vec<Message>,
    max_turns: usize,
}

impl View for ConversationHistory {
    type V = HistoryModel;

    closed spec fn view(&self) -> HistoryModel {
        HistoryModel {
            turns: self.messages@.map_values(|m: Message| m@),
            max_turns: self.max_turns as nat,
        }
    }
}

impl ConversationHistory {
    /// Create a new conversation history with the specified max turns,
    /// clamped to the default bound.
    pub fn new(max_turns: usize) -> (r: Self)
        ensures
            r@ == history_new(max_turns as nat),
            r@.wf(),
    {
        let r = Self {
            messages: Vec::new(),
            max_turns: if max_turns < DEFAULT_MAX_TURNS {
                max_turns
            } else {
                DEFAULT_MAX_TURNS
            },
        };
        proof {
            assert(r@.turns =~= history_new(max_turns as nat).turns);
        }
        r
    }

    /// Append one message, then enforce the trim bound.
    fn push_trimmed(&mut self, message: Message)
        requires
            old(self)@.wf(),
        ensures
            final(self)@ == history_add(old(self)@, message@),
            final(self)@.wf(),
    {
        self.messages.push(message);
        if self.messages.len() > 2 * self.max_turns {
            if self.messages.len() >= 2 {
                self.messages.remove(0);
                self.messages.remove(0);
            } else {
                self.messages.remove(0);
            }
        }
        proof {
            assert(final(self)@.turns =~= history_add(old(self)@, message@).turns);
        }
    }

    /// Add a user message to the history.
    pub fn add_user(&mut self, input: &str)
        requires
            old(self)@.wf(),
        ensures
            final(self)@ == history_add(old(self)@, user_turn(input@)),
            final(self)@.wf(),
    {
        let message = Message { role: Role::User, content: input.to_owned() };
        self.push_trimmed(message);
    }

    /// Add an assistant message to the history.
    pub fn add_assistant(&mut self, response: &str)
        requires
            old(self)@.wf(),
        ensures
            final(self)@ == history_add(old(self)@, assistant_turn(response@)),
            final(self)@.wf(),
    {
        let message = Message { role: Role::Assistant, content: response.to_owned() };
        self.push_trimmed(message);
    }

    /// Get the conversation history as a slice.
    pub fn as_slice(&self) -> (r: &[Message])
        ensures
            r@.map_values(|m: Message| m@) == self@.turns,
    {
        self.messages.as_slice()
    }

    /// Get the number of messages in history.
    pub fn len(&self) -> (r: usize)
        ensures
            r == self@.turns.len(),
    {
        self.messages.len()
    }

    /// Check if history is empty.
    pub fn is_empty(&self) -> (r: bool)
        ensures
            r == (self@.turns.len() == 0),
    {
        self.messages.is_empty()
    }

    /// The bound this history was created with.
    pub fn max_turns(&self) -> (r: usize)
        ensures
            r == self@.max_turns,
    {
        self.max_turns
    }

    /// Clone the conversation history as a Vec.
    pub fn to_vec(&self) -> (r: Vec<Message>)
        ensures
            r@.map_values(|m: Message| m@) == self@.turns,
    {
        let mut out: Vec<Message> = Vec::new();
        let mut i: usize = 0;
        while i < self.messages.len()
            invariant
                i <= self.messages.len(),
                out@.len() == i,
                forall|j: int| 0 <= j < i ==> out@[j]@ == self.messages@[j]@,
            decreases self.messages.len() - i,
        {
            out.push(self.messages[i].duplicate());
            i += 1;
        }
        proof {
            assert(out@.map_values(|m: Message| m@) =~= self@.turns);
        }
        out
    }

    /// An independent copy of the whole history, safe to hand to a
    /// long-running consumer without aliasing the live state.
    pub fn to_snapshot(&self) -> (r: ConversationHistory)
        ensures
            r@ == self@,
    {
        let copy = ConversationHistory { messages: self.to_vec(), max_turns: self.max_turns };
        proof {
            assert(copy@.turns =~= self@.turns);
        }
        copy
    }
}

} // verus!
