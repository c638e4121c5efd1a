//! Static descriptors of a graph: what a pin is called and carries, how a pin
//! is referred to from another node, and where a node sits in its graph.

use vstd::prelude::*;

verus! {

/// The mathematical value of an optional string.
pub open spec fn text_of(s: Option<String>) -> Option<Seq<char>> {
    match s {
        Some(t) => Some(t@),
        None => None,
    }
}

/// A copy of an optional string.
pub fn copy_text(s: &Option<String>) -> (r: Option<String>)
    ensures
        text_of(r) == text_of(*s),
{
    match s {
        Some(t) => Some(t.clone()),
        None => None,
    }
}

/// What a graph declares of one of its pins.
#[derive(Debug, PartialEq, Eq)]
pub struct PinInfo {
    /// The name of the pin in its graph.
    pub name: String,
    /// The tag of the datatype that the pin carries.
    pub datatype: String,
    /// The position of the pin, where it is one of an array of pins.
    pub index: Option<u64>,
}

/// The mathematical value of a [`PinInfo`].
pub struct PinInfoView {
    pub name: Seq<char>,
    pub datatype: Seq<char>,
    pub index: Option<u64>,
}

impl View for PinInfo {
    type V = PinInfoView;

    open spec fn view(&self) -> PinInfoView {
        PinInfoView { name: self.name@, datatype: self.datatype@, index: self.index }
    }
}

impl Clone for PinInfo {
    fn clone(&self) -> (r: Self)
        ensures
            r@ == self@,
    {
        PinInfo { name: self.name.clone(), datatype: self.datatype.clone(), index: self.index }
    }
}

/// A reference to a pin, as another node writes it.
///
/// A reference addresses a pin in one of three ways: by the identifier of the
/// pin, by that identifier and the index of one element of an array pin, or by
/// the name of a property.
#[derive(Debug, PartialEq, Eq)]
pub struct PinRef {
    /// The identifier of the pin.
    pub pin: Option<u128>,
    /// The element of an array pin that is meant.
    pub index: Option<u64>,
    /// The name of the property that is meant.
    pub property: Option<String>,
}

/// The mathematical value of a [`PinRef`].
pub struct PinRefView {
    pub pin: Option<u128>,
    pub index: Option<u64>,
    pub property: Option<Seq<char>>,
}

impl PinRefView {
    /// A reference uses exactly one way of addressing: a pin, with or without
    /// an index, or a property.
    pub open spec fn well_formed(self) -> bool {
        if self.pin is Some {
            self.property is None
        } else {
            self.index is None && self.property is Some
        }
    }
}

impl View for PinRef {
    type V = PinRefView;

    open spec fn view(&self) -> PinRefView {
        PinRefView { pin: self.pin, index: self.index, property: text_of(self.property) }
    }
}

impl Clone for PinRef {
    fn clone(&self) -> (r: Self)
        ensures
            r@ == self@,
    {
        PinRef { pin: self.pin, index: self.index, property: copy_text(&self.property) }
    }
}

impl PinRef {
    /// The reference to the pin `pin`.
    pub fn to_pin(pin: u128) -> (r: PinRef)
        ensures
            r@ == (PinRefView { pin: Some(pin), index: None, property: None }),
            r@.well_formed(),
    {
        PinRef { pin: Some(pin), index: None, property: None }
    }

    /// The reference to element `index` of the array pin `pin`.
    pub fn to_element(pin: u128, index: u64) -> (r: PinRef)
        ensures
            r@ == (PinRefView { pin: Some(pin), index: Some(index), property: None }),
            r@.well_formed(),
    {
        PinRef { pin: Some(pin), index: Some(index), property: None }
    }

    /// The reference to the property called `name`.
    pub fn to_property(name: String) -> (r: PinRef)
        ensures
            r@ == (PinRefView { pin: None, index: None, property: Some(name@) }),
            r@.well_formed(),
    {
        PinRef { pin: None, index: None, property: Some(name) }
    }
}

/// What a library records of a graph.
#[derive(Debug, PartialEq, Eq)]
pub struct GraphInfo {
    /// The name of the graph.
    pub name: String,
}

/// What a graph records of one of its nodes.
#[derive(Debug, PartialEq, Eq)]
pub struct NodeInfo {
    /// The graph that the node is an instance of.
    pub graph: GraphInfo,
}

impl Clone for GraphInfo {
    fn clone(&self) -> (r: Self)
        ensures
            r.name@ == self.name@,
    {
        GraphInfo { name: self.name.clone() }
    }
}

impl Clone for NodeInfo {
    fn clone(&self) -> (r: Self)
        ensures
            r.graph.name@ == self.graph.name@,
    {
        NodeInfo { graph: self.graph.clone() }
    }
}

} // verus!
