//! Nodes, their pins, and the commands that nodes exchange.

use crate::actor::{content_of, Aid, Context, Message};
use crate::decimal::{numeral, push_numeral};
use crate::graph::{NodeInfo, PinInfo, PinInfoView, PinRef, PinRefView};
use std::collections::HashMap;
use vstd::prelude::*;

verus! {

/// Something that has a name to show.
pub trait Named {
    /// The name to show.
    fn get_name(&self) -> String;
}

/// The behaviour of one kind of node: which pins a node of that kind has, how
/// it computes the value of an output, and how it reacts to a message.
pub trait Nodeable {
    /// The catalogue that resolves the kinds of nodes.
    type Catalogue;

    /// The default input pins and output pins of a node of this kind.
    fn get_io(&self, catalogue: &Self::Catalogue) -> (Vec<Pin>, Vec<Pin>);

    /// The default receive pins and send pins of a node of this kind.
    fn get_rs(&self, catalogue: &Self::Catalogue) -> (Vec<Pin>, Vec<Pin>);

    /// Computes the value of the output that `output_info` describes, or says
    /// why it cannot. A kind may compute all its outputs at once or only the
    /// one asked for. It is asked only for an output of `node` that has no
    /// value yet.
    fn compute_output(&self, node: &Node, output_info: PinInfo) -> Result<Message, String>
        requires
            node@.awaits(output_info@),
    ;

    /// Reacts to a message that another node sent to a receive pin.
    fn handle_receive(
        &mut self,
        node: &mut Node,
        sender: &PinRef,
        receiver: &PinRef,
        context: Context,
        message: &Message,
    );
}

/// One pin of a node.
#[derive(Debug, PartialEq, Eq)]
pub struct Pin {
    /// What the graph declares of the pin.
    pub info: PinInfo,
    /// How other nodes refer to this pin.
    pub instance: PinRef,
    /// The identifier of this pin.
    pub uuid: u128,
    /// The pins that this pin is linked to, by their identifiers.
    pub link_pins: HashMap<u128, PinRef>,
    /// The progress that each linked pin last reported, in millionths.
    pub link_progress: HashMap<u128, u32>,
    /// The value of the pin, once it is known.
    pub value: Option<Message>,
    /// The progress of this pin, in millionths.
    pub progress: u32,
}

/// The mathematical value of a [`Pin`].
pub struct PinView {
    pub info: PinInfoView,
    pub instance: PinRefView,
    pub uuid: u128,
    pub link_pins: Map<u128, PinRefView>,
    pub link_progress: Map<u128, u32>,
    pub value: Option<Seq<u8>>,
    pub progress: u32,
}

impl View for Pin {
    type V = PinView;

    open spec fn view(&self) -> PinView {
        PinView {
            info: self.info@,
            instance: self.instance@,
            uuid: self.uuid,
            link_pins: self.link_pins@.map_values(|r: PinRef| r@),
            link_progress: self.link_progress@,
            value: content_of(self.value),
            progress: self.progress,
        }
    }
}

impl Clone for Pin {
    fn clone(&self) -> (r: Self)
        ensures
            r@ == self@,
    {
        Pin {
            info: self.info.clone(),
            instance: self.instance.clone(),
            uuid: self.uuid,
            link_pins: self.link_pins.clone(),
            link_progress: self.link_progress.clone(),
            value: match &self.value {
                Some(value) => Some(value.clone()),
                None => None,
            },
            progress: self.progress,
        }
    }
}

/// The name of a pin: the name that its graph gives it, followed for an
/// element of an array pin by the index of the element in square brackets.
pub open spec fn pin_name(name: Seq<char>, index: Option<u64>) -> Seq<char> {
    match index {
        None => name,
        Some(i) => name + seq!['['] + numeral(i as nat) + seq![']'],
    }
}

impl Named for Pin {
    fn get_name(&self) -> (r: String)
        ensures
            r@ == pin_name(self@.info.name, self@.instance.index),
    {
        match self.instance.index {
            None => self.info.name.clone(),
            Some(index) => {
                proof {
                    reveal_strlit("[");
                    reveal_strlit("]");
                }
                let mut name = self.info.name.clone();
                name.append("[");
                push_numeral(&mut name, index);
                name.append("]");
                assert(name@ =~= pin_name(self@.info.name, self@.instance.index));
                name
            },
        }
    }
}

/// A node: its place in the graph and its pins.
#[derive(Debug, PartialEq, Eq)]
pub struct Node {
    /// What the graph records of this node.
    pub info: NodeInfo,
    /// The input pins and receive pins, by their identifiers.
    pub inputs: HashMap<u128, Pin>,
    /// The output pins and send pins, by their identifiers.
    pub outputs: HashMap<u128, Pin>,
}

/// The mathematical value of a map of pins.
pub open spec fn pins_view(pins: Map<u128, Pin>) -> Map<u128, PinView> {
    pins.map_values(|p: Pin| p@)
}

/// The mathematical value of a [`Node`].
pub struct NodeView {
    pub name: Seq<char>,
    pub inputs: Map<u128, PinView>,
    pub outputs: Map<u128, PinView>,
}

impl View for Node {
    type V = NodeView;

    open spec fn view(&self) -> NodeView {
        NodeView {
            name: self.info.graph.name@,
            inputs: pins_view(self.inputs@),
            outputs: pins_view(self.outputs@),
        }
    }
}

impl Clone for Node {
    fn clone(&self) -> (r: Self)
        ensures
            r@ == self@,
    {
        Node {
            info: self.info.clone(),
            inputs: self.inputs.clone(),
            outputs: self.outputs.clone(),
        }
    }
}

impl NodeView {
    /// The node has an output that `info` describes and that has no value yet.
    pub open spec fn awaits(self, info: PinInfoView) -> bool {
        exists|id: u128|
            #[trigger] self.outputs.contains_key(id) && self.outputs[id].info == info
                && self.outputs[id].value is None
    }
}

impl Named for Node {
    fn get_name(&self) -> (r: String)
        ensures
            r@ == self@.name,
    {
        self.info.graph.name.clone()
    }
}

} // verus!
