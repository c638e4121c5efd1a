//! The commands that nodes exchange, and what comes of handling one.

use crate::actor::{Aid, Message};
use crate::graph::{PinRef, PinRefView};
use vstd::prelude::*;

verus! {

/// A command sent to a node.
#[derive(Debug, PartialEq, Eq)]
pub enum NodeCommand {
    /// Asks for the value of an output: the node that asks, the input that
    /// the value is for, the output whose value is asked for, and the datatype
    /// that is expected.
    ComputeOutput(Aid, PinRef, PinRef, String),
    /// Delivers the value of an output to an input: the node that sends, its
    /// output, the input that the value is for, the datatype of the value, and
    /// the value.
    InputOutput(Aid, PinRef, PinRef, String, Message),
    /// Delivers a message to a receive pin: the node that sends, its send
    /// pin, the receive pin, and the message.
    ReceiverMessage(Aid, PinRef, PinRef, Message),
    /// Asks for the progress of an output: who asks, and the output.
    RequestProgress(Aid, PinRef),
    /// Reports the progress of an output: the node that progresses, its
    /// output, and the progress in millionths.
    UpdateProgress(Aid, PinRef, u32),
}

/// The mathematical value of a [`NodeCommand`].
pub enum NodeCommandView {
    ComputeOutput(Aid, PinRefView, PinRefView, Seq<char>),
    InputOutput(Aid, PinRefView, PinRefView, Seq<char>, Seq<u8>),
    ReceiverMessage(Aid, PinRefView, PinRefView, Seq<u8>),
    RequestProgress(Aid, PinRefView),
    UpdateProgress(Aid, PinRefView, u32),
}

impl View for NodeCommand {
    type V = NodeCommandView;

    open spec fn view(&self) -> NodeCommandView {
        match *self {
            NodeCommand::ComputeOutput(commander, input, output, datatype) => {
                NodeCommandView::ComputeOutput(commander, input@, output@, datatype@)
            },
            NodeCommand::InputOutput(sender, output, input, datatype, value) => {
                NodeCommandView::InputOutput(sender, output@, input@, datatype@, value@)
            },
            NodeCommand::ReceiverMessage(sender, from, to, message) => {
                NodeCommandView::ReceiverMessage(sender, from@, to@, message@)
            },
            NodeCommand::RequestProgress(requestor, output) => {
                NodeCommandView::RequestProgress(requestor, output@)
            },
            NodeCommand::UpdateProgress(progressor, output, progress) => {
                NodeCommandView::UpdateProgress(progressor, output@, progress)
            },
        }
    }
}

impl Clone for NodeCommand {
    fn clone(&self) -> (r: Self)
        ensures
            r@ == self@,
    {
        match self {
            NodeCommand::ComputeOutput(commander, input, output, datatype) => {
                NodeCommand::ComputeOutput(*commander, input.clone(), output.clone(), datatype.clone())
            },
            NodeCommand::InputOutput(sender, output, input, datatype, value) => {
                NodeCommand::InputOutput(
                    *sender,
                    output.clone(),
                    input.clone(),
                    datatype.clone(),
                    value.clone(),
                )
            },
            NodeCommand::ReceiverMessage(sender, from, to, message) => {
                NodeCommand::ReceiverMessage(*sender, from.clone(), to.clone(), message.clone())
            },
            NodeCommand::RequestProgress(requestor, output) => {
                NodeCommand::RequestProgress(*requestor, output.clone())
            },
            NodeCommand::UpdateProgress(progressor, output, progress) => {
                NodeCommand::UpdateProgress(*progressor, output.clone(), *progress)
            },
        }
    }
}

/// A command on its way to the node that is to handle it.
#[derive(Debug, PartialEq, Eq)]
pub struct Envelope {
    /// The node that the command is for.
    pub recipient: Aid,
    /// The command.
    pub command: NodeCommand,
}

/// The mathematical value of an [`Envelope`].
pub struct EnvelopeView {
    pub recipient: Aid,
    pub command: NodeCommandView,
}

impl View for Envelope {
    type V = EnvelopeView;

    open spec fn view(&self) -> EnvelopeView {
        EnvelopeView { recipient: self.recipient, command: self.command@ }
    }
}

impl Clone for Envelope {
    fn clone(&self) -> (r: Self)
        ensures
            r@ == self@,
    {
        Envelope { recipient: self.recipient, command: self.command.clone() }
    }
}

/// Why a node dropped a command.
#[derive(Debug, PartialEq, Eq)]
pub enum NodeError {
    /// The command refers to a pin that the node does not have.
    MissingPin,
    /// The datatype in the command is not the datatype of the pin.
    DatatypeMismatch,
    /// The behaviour of the node could not compute the value, for the reason
    /// that it gave.
    ComputationFailure(String),
}

/// The mathematical value of a [`NodeError`].
pub enum NodeErrorView {
    MissingPin,
    DatatypeMismatch,
    ComputationFailure(Seq<char>),
}

impl View for NodeError {
    type V = NodeErrorView;

    open spec fn view(&self) -> NodeErrorView {
        match *self {
            NodeError::MissingPin => NodeErrorView::MissingPin,
            NodeError::DatatypeMismatch => NodeErrorView::DatatypeMismatch,
            NodeError::ComputationFailure(reason) => NodeErrorView::ComputationFailure(reason@),
        }
    }
}

impl Clone for NodeError {
    fn clone(&self) -> (r: Self)
        ensures
            r@ == self@,
    {
        match self {
            NodeError::MissingPin => NodeError::MissingPin,
            NodeError::DatatypeMismatch => NodeError::DatatypeMismatch,
            NodeError::ComputationFailure(reason) => NodeError::ComputationFailure(reason.clone()),
        }
    }
}

} // verus!
