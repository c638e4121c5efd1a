//! What holds of the handling of commands, whatever the node and the command.

use crate::actor::Aid;
use crate::command::{EnvelopeView, NodeCommandView, NodeErrorView};
use crate::graph::PinRefView;
use crate::handler::{filled, referred, reported, value_reply};
use crate::node::{NodeView, PinView};
use crate::progress::{lemma_mean_bound, lemma_total_insert, total, COMPLETE};
use vstd::prelude::*;

verus! {

/// Once the behaviour has computed the value of an output, the output keeps
/// it: a further request for the value, by whichever node and for whichever
/// of its inputs, is answered with that very value and without the behaviour,
/// and leaves the node as it is.
pub proof fn lemma_computed_value_is_cached(
    node: NodeView,
    me: Aid,
    commander: Aid,
    input: PinRefView,
    output: PinRefView,
    datatype: Seq<char>,
    value: Seq<u8>,
    next_commander: Aid,
    next_input: PinRefView,
)
    requires
        node.cached(output, datatype) == Ok::<Option<Seq<u8>>, NodeErrorView>(None),
    ensures
        ({
            let first = NodeCommandView::ComputeOutput(commander, input, output, datatype);
            let next = NodeCommandView::ComputeOutput(next_commander, next_input, output, datatype);
            let (after, outcome) = node.computed(me, commander, input, output, Ok(value));
            &&& node.settled(me, first) is None
            &&& outcome == Ok::<Option<EnvelopeView>, NodeErrorView>(
                Some(value_reply(me, commander, input, output, datatype, value)),
            )
            &&& after.cached(output, datatype) == Ok::<Option<Seq<u8>>, NodeErrorView>(Some(value))
            &&& after.settled(me, next) == Some(
                (
                    after,
                    Ok::<Option<EnvelopeView>, NodeErrorView>(
                        Some(value_reply(me, next_commander, next_input, output, datatype, value)),
                    ),
                ),
            )
        }),
{
}

/// An output that has its value keeps it through every request for it: the
/// request is answered with the value and the node stays as it is.
pub proof fn lemma_cached_value_is_kept(
    node: NodeView,
    me: Aid,
    commander: Aid,
    input: PinRefView,
    output: PinRefView,
    datatype: Seq<char>,
    value: Seq<u8>,
)
    requires
        node.cached(output, datatype) == Ok::<Option<Seq<u8>>, NodeErrorView>(Some(value)),
    ensures
        node.settled(me, NodeCommandView::ComputeOutput(commander, input, output, datatype))
            == Some(
            (
                node,
                Ok::<Option<EnvelopeView>, NodeErrorView>(
                    Some(value_reply(me, commander, input, output, datatype, value)),
                ),
            ),
        ),
{
}

/// A command that is dropped leaves the node as it was: one that refers to a
/// pin that the node does not have, one whose datatype is not that of the pin,
/// and a request whose value the behaviour could not compute.
pub proof fn lemma_dropped_command_changes_nothing(
    node: NodeView,
    me: Aid,
    command: NodeCommandView,
    computed: Result<Seq<u8>, Seq<char>>,
)
    ensures
        node.settled(me, command) matches Some((after, Err(_))) ==> after == node,
        command matches NodeCommandView::ComputeOutput(commander, input, output, _)
            ==> (node.computed(me, commander, input, output, computed).1 is Err ==> node.computed(
            me,
            commander,
            input,
            output,
            computed,
        ).0 == node),
        node.misses(command) ==> node.settled(me, command) == Some(
            (node, Err::<Option<EnvelopeView>, NodeErrorView>(NodeErrorView::MissingPin)),
        ),
        node.mismatches(command) ==> node.settled(me, command) == Some(
            (node, Err::<Option<EnvelopeView>, NodeErrorView>(NodeErrorView::DatatypeMismatch)),
        ),
{
}

/// A value that a pin has is not taken away, and the value that an output has
/// is not changed: a command that the node handles without its behaviour
/// leaves every output as it is and every input that has a value with a
/// value, and the answer of the behaviour to a request changes the output
/// that had no value and nothing else.
pub proof fn lemma_values_stay(
    node: NodeView,
    me: Aid,
    command: NodeCommandView,
    computed: Result<Seq<u8>, Seq<char>>,
)
    ensures
        node.settled(me, command) matches Some((after, _)) ==> {
            &&& after.outputs == node.outputs
            &&& forall|id: u128| #[trigger]
                node.inputs.contains_key(id) && node.inputs[id].value is Some
                    ==> after.inputs[id].value is Some
        },
        command matches NodeCommandView::ComputeOutput(commander, input, output, _) ==> (node.settled(
            me,
            command,
        ) is None ==> ({
            let after = node.computed(me, commander, input, output, computed).0;
            &&& after.inputs == node.inputs
            &&& forall|id: u128| #[trigger]
                node.outputs.contains_key(id) && node.outputs[id].value is Some
                    ==> after.outputs[id] == node.outputs[id]
        })),
{
}

/// The pins of `after` are those of `before`, each with the identity, the
/// description and the links that it had.
pub open spec fn same_pins(before: Map<u128, PinView>, after: Map<u128, PinView>) -> bool {
    &&& after.dom() == before.dom()
    &&& forall|id: u128| #[trigger]
        before.contains_key(id) ==> {
            &&& after[id].uuid == before[id].uuid
            &&& after[id].info == before[id].info
            &&& after[id].instance == before[id].instance
            &&& after[id].link_pins == before[id].link_pins
            &&& after[id].link_progress.dom() == before[id].link_progress.dom()
        }
}

/// A command that the node handles without its behaviour neither makes nor
/// unmakes a pin or a link, and neither does the answer of the behaviour to a
/// request for a value.
pub proof fn lemma_pins_persist(
    node: NodeView,
    me: Aid,
    command: NodeCommandView,
    computed: Result<Seq<u8>, Seq<char>>,
)
    ensures
        node.settled(me, command) matches Some((after, _)) ==> after.name == node.name && same_pins(
            node.inputs,
            after.inputs,
        ) && same_pins(node.outputs, after.outputs),
        command matches NodeCommandView::ComputeOutput(commander, input, output, _) ==> ({
            let after = node.computed(me, commander, input, output, computed).0;
            after.name == node.name && same_pins(node.inputs, after.inputs) && same_pins(
                node.outputs,
                after.outputs,
            )
        }),
{
    lemma_same_pins_reflexive(node.inputs);
    lemma_same_pins_reflexive(node.outputs);
    match command {
        NodeCommandView::ComputeOutput(commander, input, output, _) => {
            let after = node.computed(me, commander, input, output, computed).0;
            if let Some(pin) = referred(node.outputs, output) {
                if let Ok(value) = computed {
                    lemma_same_pins_filled(node.outputs, output.pin->0, value);
                }
            }
        },
        NodeCommandView::InputOutput(_, _, input, datatype, value) => {
            if let Some(pin) = referred(node.inputs, input) {
                lemma_same_pins_filled(node.inputs, input.pin->0, value);
            }
        },
        NodeCommandView::UpdateProgress(_, output, progress) => {
            if let Some(source) = output.pin {
                let after = node.progressed(output, progress);
                assert(after.inputs.dom() =~= node.inputs.dom());
                assert forall|id: u128| #[trigger] node.inputs.contains_key(id) implies after.inputs[id].link_progress.dom()
                    == node.inputs[id].link_progress.dom() by {
                    let pin = node.inputs[id];
                    if pin.link_progress.contains_key(source) {
                        assert(pin.link_progress.insert(source, progress).dom()
                            =~= pin.link_progress.dom());
                    }
                }
            }
        },
        _ => {},
    }
}

/// Pins are the same pins as themselves.
proof fn lemma_same_pins_reflexive(pins: Map<u128, PinView>)
    ensures
        same_pins(pins, pins),
{
}

/// A pin that is given a value is the same pin.
proof fn lemma_same_pins_filled(pins: Map<u128, PinView>, id: u128, value: Seq<u8>)
    requires
        pins.contains_key(id),
    ensures
        same_pins(pins, pins.insert(id, filled(pins[id], value))),
{
    assert(pins.insert(id, filled(pins[id], value)).dom() =~= pins.dom());
}

/// No report of a link of the pin is above [`COMPLETE`], and the progress of
/// the pin is not above it either.
pub open spec fn in_range(pin: PinView) -> bool {
    &&& pin.progress <= COMPLETE
    &&& forall|k: u128| pin.link_progress.contains_key(k) ==> pin.link_progress[k] <= COMPLETE
}

/// Progress stays in its range: a report that is not above [`COMPLETE`]
/// leaves a pin in range that was in range.
pub proof fn lemma_progress_stays_in_range(pin: PinView, source: u128, progress: u32)
    requires
        in_range(pin),
        progress <= COMPLETE,
    ensures
        in_range(reported(pin, source, progress)),
{
    if pin.link_progress.contains_key(source) {
        lemma_mean_bound(pin.link_progress.insert(source, progress), COMPLETE);
    }
}

/// The progress of a pin after one of its links has reported: the mean of the
/// reports of all its links, in which the new report has taken the place of
/// the last report of that link.
pub proof fn lemma_report_replaces_one_term(pin: PinView, source: u128, progress: u32)
    requires
        pin.link_progress.dom().finite(),
        pin.link_progress.contains_key(source),
    ensures
        reported(pin, source, progress).link_progress == pin.link_progress.insert(source, progress),
        reported(pin, source, progress).progress == (total(pin.link_progress)
            - pin.link_progress[source] + progress) / (pin.link_progress.len() as int),
{
    let links = pin.link_progress.insert(source, progress);
    lemma_total_insert(pin.link_progress, source, progress);
    lemma_mean_bound(links, 0xffff_ffff);
    assert(links.dom() =~= pin.link_progress.dom());
    vstd::set::axiom_set_contains_len(pin.link_progress.dom(), source);
}

/// A report of an output that a pin is not linked to leaves the pin as it is.
pub proof fn lemma_report_of_stranger_is_ignored(pin: PinView, source: u128, progress: u32)
    requires
        !pin.link_progress.contains_key(source),
    ensures
        reported(pin, source, progress) == pin,
{
}

} // verus!
