//! Addresses of node actors and the values that they exchange.

use vstd::prelude::*;

verus! {

/// The address of an actor: its own identifier and that of the actor system
/// that hosts it. Two addresses with the same identifiers name the same actor.
#[derive(Clone, Copy, PartialEq, Eq, Structural, Debug, Hash)]
pub struct Aid {
    /// The identifier of the actor.
    pub uuid: u128,
    /// The identifier of the actor system that hosts the actor.
    pub system_uuid: u128,
}

/// What a node knows of itself while it handles a command.
#[derive(Clone, Copy, PartialEq, Eq, Structural, Debug, Hash)]
pub struct Context {
    /// The address of the node that handles the command.
    pub aid: Aid,
}

/// A value in transit or at rest in a pin: the bytes of its encoding. What
/// the bytes mean is told by the datatype tag that travels with them.
#[derive(Debug, PartialEq, Eq)]
pub struct Message {
    /// The encoded value.
    pub content: Vec<u8>,
}

impl View for Message {
    type V = Seq<u8>;

    open spec fn view(&self) -> Seq<u8> {
        self.content@
    }
}

impl Clone for Message {
    fn clone(&self) -> (r: Self)
        ensures
            r@ == self@,
    {
        let content = self.content.clone();
        assert(content@ =~= self.content@);
        Message { content }
    }
}

impl Message {
    /// The message that holds the encoded value `content`.
    pub fn new(content: Vec<u8>) -> (r: Message)
        ensures
            r@ == content@,
    {
        Message { content }
    }
}

/// The mathematical value of an optional message.
pub open spec fn content_of(value: Option<Message>) -> Option<Seq<u8>> {
    match value {
        Some(m) => Some(m@),
        None => None,
    }
}

} // verus!
