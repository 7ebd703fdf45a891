//! The history store: the completed turns of the conversation, in their
//! order.

use vstd::prelude::*;

verus! {

/// Who wrote a conversation turn.
#[derive(Clone, Copy, Debug, PartialEq, Eq, Structural)]
pub enum Role {
    User,
    Assistant,
}

/// One completed message of the conversation.
#[derive(Clone, Debug, PartialEq, Eq)]
pub struct ConversationTurn {
    pub role: Role,
    pub content: String,
}

/// The completed turns, oldest first. Turns are appended and never changed
/// or taken out.
#[derive(Debug)]
pub struct History {
    turns: Vec<ConversationTurn>,
}

/// What a turn holds.
pub struct TurnView {
    pub role: Role,
    pub content: Seq<char>,
}

impl View for ConversationTurn {
    type V = TurnView;

    open spec fn view(&self) -> TurnView {
        TurnView { role: self.role, content: self.content@ }
    }
}

/// The turns that a vector of turns holds.
pub open spec fn turn_views(turns: Seq<ConversationTurn>) -> Seq<TurnView> {
    Seq::new(turns.len(), |i: int| turns[i]@)
}

impl View for History {
    type V = Seq<TurnView>;

    closed spec fn view(&self) -> Seq<TurnView> {
        turn_views(self.turns@)
    }
}

/// The history once a turn is over: the operator's input is appended, and
/// after it the assistant's text, unless there is none.
pub open spec fn with_turn(history: Seq<TurnView>, input: Seq<char>, response: Seq<char>) -> Seq<
    TurnView,
> {
    let asked = history.push(TurnView { role: Role::User, content: input });
    if response.len() > 0 {
        asked.push(TurnView { role: Role::Assistant, content: response })
    } else {
        asked
    }
}

/// A completed turn adds one or two entries after those that were there.
pub proof fn lemma_with_turn_appends(history: Seq<TurnView>, input: Seq<char>, response: Seq<char>)
    ensures
        history.is_prefix_of(with_turn(history, input, response)),
        with_turn(history, input, response).len() == history.len() + if response.len() > 0 {
            2int
        } else {
            1int
        },
        with_turn(history, input, response)[history.len() as int] == (TurnView {
            role: Role::User,
            content: input,
        }),
        response.len() > 0 ==> with_turn(history, input, response).last() == (TurnView {
            role: Role::Assistant,
            content: response,
        }),
{
}

impl History {
    /// A history without turns.
    pub fn new() -> (r: History)
        ensures
            r@ == Seq::<TurnView>::empty(),
    {
        History { turns: Vec::new() }
    }

    /// The turns, oldest first.
    pub fn turns(&self) -> (r: &Vec<ConversationTurn>)
        ensures
            turn_views(r@) == self@,
    {
        &self.turns
    }

    /// The number of turns.
    pub fn len(&self) -> (r: usize)
        ensures
            r == self@.len(),
    {
        self.turns.len()
    }

    /// A copy of the turns, to hand to the engine: what becomes of the copy
    /// does not reach the history.
    pub fn snapshot(&self) -> (r: Vec<ConversationTurn>)
        ensures
            turn_views(r@) == self@,
    {
        let mut copy: Vec<ConversationTurn> = Vec::new();
        let mut i: usize = 0;
        while i < self.turns.len()
            invariant
                i <= self.turns@.len(),
                copy@.len() == i,
                forall|k: int| 0 <= k < i ==> copy@[k]@ == self.turns@[k]@,
            decreases self.turns@.len() - i,
        {
            copy.push(
                ConversationTurn {
                    role: self.turns[i].role,
                    content: self.turns[i].content.clone(),
                },
            );
            i = i + 1;
        }
        copy
    }

    /// Records a completed turn: the operator's input, and after it the
    /// assistant's text, unless there is none.
    pub fn record(&mut self, input: &str, response: &str)
        ensures
            final(self)@ == with_turn(old(self)@, input@, response@),
            old(self)@.is_prefix_of(final(self)@),
    {
        self.turns.push(ConversationTurn { role: Role::User, content: String::from_str(input) });
        if !response.is_empty() {
            self.turns.push(
                ConversationTurn { role: Role::Assistant, content: String::from_str(response) },
            );
        }
    }
}

} // verus!
