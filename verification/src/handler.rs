//! How a node handles the commands that it is sent.
//!
//! Handling a command changes the pins of the node and yields the reply, if
//! the command has one; to deliver the reply is left to the caller. A command
//! that cannot be handled is dropped: the node stays as it was and the caller
//! is told why.

use crate::actor::{Aid, Context, Message};
use crate::command::{Envelope, EnvelopeView, NodeCommand, NodeCommandView, NodeError, NodeErrorView};
use crate::graph::{PinInfo, PinRef, PinRefView};
use crate::node::{pins_view, Node, NodeView, Nodeable, Pin, PinView};
use crate::progress::{mean, mean_progress};
use std::collections::HashMap;
use vstd::prelude::*;
use vstd::std_specs::iter::IteratorSpec;

verus! {

/// The pin among `pins` that `r` refers to, if there is one.
pub open spec fn referred(pins: Map<u128, PinView>, r: PinRefView) -> Option<PinView> {
    match r.pin {
        Some(id) => if pins.contains_key(id) {
            Some(pins[id])
        } else {
            None
        },
        None => None,
    }
}

/// The pin with a value put into it.
pub open spec fn filled(pin: PinView, value: Seq<u8>) -> PinView {
    PinView { value: Some(value), ..pin }
}

/// The mathematical value of what comes of handling a command.
pub type OutcomeView = Result<Option<EnvelopeView>, NodeErrorView>;

/// What comes of a command that is answered by a reply.
pub open spec fn delivered(reply: Result<EnvelopeView, NodeErrorView>) -> OutcomeView {
    match reply {
        Ok(envelope) => Ok(Some(envelope)),
        Err(e) => Err(e),
    }
}

/// What comes of a command that is answered by no reply.
pub open spec fn absorbed(accepted: Result<(), NodeErrorView>) -> OutcomeView {
    match accepted {
        Ok(()) => Ok(None),
        Err(e) => Err(e),
    }
}

/// The mathematical value of what comes of handling a command: the command
/// to deliver, if there is one, or why the command was dropped.
pub open spec fn outcome_view(outcome: Result<Option<Envelope>, NodeError>) -> OutcomeView {
    match outcome {
        Ok(Some(envelope)) => Ok(Some(envelope@)),
        Ok(None) => Ok(None),
        Err(e) => Err(e@),
    }
}

/// The mathematical value of one reply, or of why there is none.
pub open spec fn reply_view(reply: Result<Envelope, NodeError>) -> Result<
    EnvelopeView,
    NodeErrorView,
> {
    match reply {
        Ok(envelope) => Ok(envelope@),
        Err(e) => Err(e@),
    }
}

/// The mathematical value of what a behaviour answers when it is asked for
/// the value of an output.
pub open spec fn computed_view(computed: Result<Message, String>) -> Result<Seq<u8>, Seq<char>> {
    match computed {
        Ok(value) => Ok(value@),
        Err(reason) => Err(reason@),
    }
}

/// The mathematical value of whether a value was accepted.
pub open spec fn accepted_view(accepted: Result<(), NodeError>) -> Result<(), NodeErrorView> {
    match accepted {
        Ok(()) => Ok(()),
        Err(e) => Err(e@),
    }
}

/// The mathematical value of what a look into the cache of an output gives.
pub open spec fn cache_view(cached: Result<Option<Message>, NodeError>) -> Result<
    Option<Seq<u8>>,
    NodeErrorView,
> {
    match cached {
        Ok(Some(value)) => Ok(Some(value@)),
        Ok(None) => Ok(None),
        Err(e) => Err(e@),
    }
}

/// The command that carries the value of `output` to `input` of the node at
/// `commander`, sent by the node at `me`.
pub open spec fn value_reply(
    me: Aid,
    commander: Aid,
    input: PinRefView,
    output: PinRefView,
    datatype: Seq<char>,
    value: Seq<u8>,
) -> EnvelopeView {
    EnvelopeView {
        recipient: commander,
        command: NodeCommandView::InputOutput(me, output, input, datatype, value),
    }
}

/// The command that tells `requestor` the progress of `output` of the node at
/// `me`.
pub open spec fn progress_reply(
    me: Aid,
    requestor: Aid,
    output: PinRefView,
    progress: u32,
) -> EnvelopeView {
    EnvelopeView {
        recipient: requestor,
        command: NodeCommandView::UpdateProgress(me, output, progress),
    }
}

/// An input pin after the output `source` has reported `progress`: a pin that
/// is linked to `source` records the report and takes the mean of the reports
/// of all its links as its own progress, any other pin stays as it was.
pub open spec fn reported(pin: PinView, source: u128, progress: u32) -> PinView {
    if pin.link_progress.contains_key(source) {
        let links = pin.link_progress.insert(source, progress);
        PinView {
            link_progress: links,
            progress: match mean(links) {
                Some(m) => m,
                None => pin.progress,
            },
            ..pin
        }
    } else {
        pin
    }
}

impl NodeView {
    /// What the cache of the output that `output` refers to holds for a
    /// request of a value of the type `datatype`.
    pub open spec fn cached(self, output: PinRefView, datatype: Seq<char>) -> Result<
        Option<Seq<u8>>,
        NodeErrorView,
    > {
        match referred(self.outputs, output) {
            None => Err(NodeErrorView::MissingPin),
            Some(pin) => if pin.info.datatype == datatype {
                Ok(pin.value)
            } else {
                Err(NodeErrorView::DatatypeMismatch)
            },
        }
    }

    /// The node and the reply after its behaviour has answered `computed` to a
    /// request for the value of `output`.
    pub open spec fn resolved(
        self,
        me: Aid,
        commander: Aid,
        input: PinRefView,
        output: PinRefView,
        computed: Result<Seq<u8>, Seq<char>>,
    ) -> (NodeView, Result<EnvelopeView, NodeErrorView>) {
        match referred(self.outputs, output) {
            None => (self, Err(NodeErrorView::MissingPin)),
            Some(pin) => match computed {
                Err(reason) => (self, Err(NodeErrorView::ComputationFailure(reason))),
                Ok(value) => (
                    NodeView {
                        outputs: self.outputs.insert(output.pin->0, filled(pin, value)),
                        ..self
                    },
                    Ok(value_reply(me, commander, input, output, pin.info.datatype, value)),
                ),
            },
        }
    }

    /// The node after a value of the type `datatype` has arrived for `input`,
    /// and whether the value was accepted.
    pub open spec fn received(self, input: PinRefView, datatype: Seq<char>, value: Seq<u8>) -> (
        NodeView,
        Result<(), NodeErrorView>,
    ) {
        match referred(self.inputs, input) {
            None => (self, Err(NodeErrorView::MissingPin)),
            Some(pin) => if pin.info.datatype == datatype {
                (
                    NodeView { inputs: self.inputs.insert(input.pin->0, filled(pin, value)), ..self },
                    Ok(()),
                )
            } else {
                (self, Err(NodeErrorView::DatatypeMismatch))
            },
        }
    }

    /// The reply to `requestor` asking for the progress of `output`.
    pub open spec fn progress_of(self, me: Aid, requestor: Aid, output: PinRefView) -> Result<
        EnvelopeView,
        NodeErrorView,
    > {
        match referred(self.outputs, output) {
            None => Err(NodeErrorView::MissingPin),
            Some(pin) => Ok(progress_reply(me, requestor, output, pin.progress)),
        }
    }

    /// The node after `output`, a pin of another node, has reported
    /// `progress`: every input takes the report as [`reported`] says.
    pub open spec fn progressed(self, output: PinRefView, progress: u32) -> NodeView {
        match output.pin {
            None => self,
            Some(source) => NodeView {
                inputs: self.inputs.map_values(|pin: PinView| reported(pin, source, progress)),
                ..self
            },
        }
    }

    /// The node and the reply after a request by `commander` for the value of
    /// `output`, of the type `datatype` and for its pin `input`, where the
    /// node can serve the request without its behaviour: where the request is
    /// dropped, and where the output has its value already. `None` where the
    /// behaviour has to compute the value.
    pub open spec fn served(
        self,
        me: Aid,
        commander: Aid,
        input: PinRefView,
        output: PinRefView,
        datatype: Seq<char>,
    ) -> Option<(NodeView, Result<EnvelopeView, NodeErrorView>)> {
        match self.cached(output, datatype) {
            Err(e) => Some((self, Err(e))),
            Ok(Some(value)) => Some(
                (self, Ok(value_reply(me, commander, input, output, datatype, value))),
            ),
            Ok(None) => None,
        }
    }

    /// The node and what comes of `command` where the node handles the
    /// command without its behaviour. `None` where the behaviour is called: for
    /// a message to a receive pin, and for a request for the value of an
    /// output that has yet to be computed.
    pub open spec fn settled(self, me: Aid, command: NodeCommandView) -> Option<
        (NodeView, OutcomeView),
    > {
        match command {
            NodeCommandView::ComputeOutput(commander, input, output, datatype) => {
                match self.served(me, commander, input, output, datatype) {
                    Some((node, reply)) => Some((node, delivered(reply))),
                    None => None,
                }
            },
            NodeCommandView::InputOutput(_, _, input, datatype, value) => {
                let (node, accepted) = self.received(input, datatype, value);
                Some((node, absorbed(accepted)))
            },
            NodeCommandView::ReceiverMessage(_, _, _, _) => None,
            NodeCommandView::RequestProgress(requestor, output) => {
                Some((self, delivered(self.progress_of(me, requestor, output))))
            },
            NodeCommandView::UpdateProgress(_, output, progress) => {
                Some((self.progressed(output, progress), Ok(None)))
            },
        }
    }

    /// The node and what comes of a request for the value of `output` after
    /// the behaviour has answered `computed`.
    pub open spec fn computed(
        self,
        me: Aid,
        commander: Aid,
        input: PinRefView,
        output: PinRefView,
        computed: Result<Seq<u8>, Seq<char>>,
    ) -> (NodeView, OutcomeView) {
        let (node, reply) = self.resolved(me, commander, input, output, computed);
        (node, delivered(reply))
    }

    /// There is a reply, and it carries the value that `output` now has to
    /// `input` of the node at `commander`.
    pub open spec fn answers(
        self,
        reply: Option<EnvelopeView>,
        me: Aid,
        commander: Aid,
        input: PinRefView,
        output: PinRefView,
    ) -> bool {
        &&& referred(self.outputs, output) matches Some(pin)
        &&& pin.value matches Some(value)
        &&& reply == Some(value_reply(me, commander, input, output, pin.info.datatype, value))
    }

    /// The command refers to a pin of this node that the node does not have.
    pub open spec fn misses(self, command: NodeCommandView) -> bool {
        match command {
            NodeCommandView::ComputeOutput(_, _, output, _) => referred(self.outputs, output) is None,
            NodeCommandView::InputOutput(_, _, input, _, _) => referred(self.inputs, input) is None,
            NodeCommandView::RequestProgress(_, output) => referred(self.outputs, output) is None,
            _ => false,
        }
    }

    /// The command carries a datatype, and refers to a pin of this node whose
    /// datatype is another.
    pub open spec fn mismatches(self, command: NodeCommandView) -> bool {
        match command {
            NodeCommandView::ComputeOutput(_, _, output, datatype) => {
                referred(self.outputs, output) matches Some(pin) && pin.info.datatype != datatype
            },
            NodeCommandView::InputOutput(_, _, input, datatype, _) => {
                referred(self.inputs, input) matches Some(pin) && pin.info.datatype != datatype
            },
            _ => false,
        }
    }
}

/// The behaviour `process` was asked for the value of the output of `before`
/// that `output` refers to: it was given `before` and the description of that
/// output, and what it answered has made `after` of the node and `outcome` of
/// the request.
pub open spec fn was_asked<B: Nodeable>(
    process: &B,
    before: &Node,
    me: Aid,
    commander: Aid,
    input: PinRefView,
    output: PinRefView,
    after: NodeView,
    outcome: OutcomeView,
) -> bool {
    exists|info: PinInfo, computed: Result<Message, String>|
        {
            &&& referred(before@.outputs, output) matches Some(pin) && info@ == pin.info
            &&& #[trigger] call_ensures(B::compute_output, (process, before, info), computed)
            &&& (after, outcome) == before@.computed(
                me,
                commander,
                input,
                output,
                computed_view(computed),
            )
        }
}

/// The pin among `pins` that `r` refers to, if there is one.
pub fn find_pin<'a>(pins: &'a HashMap<u128, Pin>, r: &PinRef) -> (found: Option<&'a Pin>)
    ensures
        match found {
            Some(pin) => r.pin matches Some(id) && pins@.contains_key(id) && pins@[id] == *pin,
            None => referred(pins_view(pins@), r@) is None,
        },
        found matches Some(pin) ==> referred(pins_view(pins@), r@) == Some(pin@),
{
    broadcast use vstd::std_specs::hash::group_hash_axioms;

    match r.pin {
        Some(id) => pins.get(&id),
        None => None,
    }
}

/// Puts `value` into the pin `id` of `pins` and leaves all else as it was.
fn fill_pin(pins: &mut HashMap<u128, Pin>, id: u128, value: Message)
    requires
        old(pins)@.contains_key(id),
    ensures
        pins_view(final(pins)@) == pins_view(old(pins)@).insert(
            id,
            filled(old(pins)@[id]@, value@),
        ),
{
    broadcast use vstd::std_specs::hash::group_hash_axioms;

    let found = pins.remove(&id);
    let mut pin = found.unwrap();
    pin.value = Some(value);
    pins.insert(id, pin);
    assert(pins_view(pins@) =~= pins_view(old(pins)@).insert(id, filled(old(pins)@[id]@, value@)));
}

/// The identifiers of `pins`, each once, in the order in which the map is
/// walked.
fn pin_ids(pins: &HashMap<u128, Pin>) -> (ids: Vec<u128>)
    ensures
        ids@.no_duplicates(),
        ids@.to_set() == pins@.dom(),
{
    broadcast use vstd::std_specs::hash::group_hash_axioms;

    let mut ids: Vec<u128> = Vec::new();
    let keys = pins.keys();
    let ghost all = keys.remaining();
    for id in it: keys
        invariant
            it.seq() == all,
            ids@ == all.unref().take(it.index()),
    {
        ids.push(*id);
        assert(ids@ =~= all.unref().take(it.index() + 1));
    }
    assert(ids@ =~= all.unref());
    assert(ids@.no_duplicates()) by {
        assert forall|i: int, j: int| 0 <= i < ids@.len() && 0 <= j < ids@.len() && i != j implies ids@[i]
            != ids@[j] by {
            assert(all[i] != all[j]);
        }
    }
    ids
}

/// Takes the report of `progress` by the output `source` into `pin`.
fn report_to_pin(pin: &mut Pin, source: u128, progress: u32)
    ensures
        final(pin)@ == reported(old(pin)@, source, progress),
{
    broadcast use vstd::std_specs::hash::group_hash_axioms;

    if pin.link_progress.contains_key(&source) {
        pin.link_progress.insert(source, progress);
        match mean_progress(&pin.link_progress) {
            Some(m) => {
                pin.progress = m;
            },
            None => {},
        }
    }
}

/// Takes the report of `progress` by the output `source` into the pin `id` of
/// `pins` and leaves the other pins as they were.
fn report_to(pins: &mut HashMap<u128, Pin>, id: u128, source: u128, progress: u32)
    requires
        old(pins)@.contains_key(id),
    ensures
        final(pins)@.dom() == old(pins)@.dom(),
        final(pins)@[id]@ == reported(old(pins)@[id]@, source, progress),
        forall|other: u128| other != id && old(pins)@.contains_key(other) ==> final(pins)@[other] == old(
            pins,
        )@[other],
{
    broadcast use vstd::std_specs::hash::group_hash_axioms;

    let found = pins.remove(&id);
    let mut pin = found.unwrap();
    report_to_pin(&mut pin, source, progress);
    pins.insert(id, pin);
    assert(pins@.dom() =~= old(pins)@.dom());
}

/// What comes of a command that is answered by `reply`.
fn deliver(reply: Result<Envelope, NodeError>) -> (outcome: Result<Option<Envelope>, NodeError>)
    ensures
        outcome_view(outcome) == delivered(reply_view(reply)),
{
    match reply {
        Ok(envelope) => Ok(Some(envelope)),
        Err(e) => Err(e),
    }
}

impl Envelope {
    /// The command that carries `value`, the value of `output`, to `input` of
    /// the node at `commander`.
    pub fn input_output(
        context: &Context,
        commander: Aid,
        output: PinRef,
        input: PinRef,
        datatype: String,
        value: Message,
    ) -> (envelope: Envelope)
        ensures
            envelope@ == value_reply(context.aid, commander, input@, output@, datatype@, value@),
    {
        Envelope {
            recipient: commander,
            command: NodeCommand::InputOutput(context.aid, output, input, datatype, value),
        }
    }
}

impl Node {
    /// Looks into the cache of the output that `output` refers to, for a
    /// request of a value of the type `datatype`: `Ok(Some(value))` where the
    /// output has its value already, `Ok(None)` where the value has yet to be
    /// computed.
    pub fn cached_output(&self, output: &PinRef, datatype: &String) -> (cached: Result<
        Option<Message>,
        NodeError,
    >)
        ensures
            cache_view(cached) == self@.cached(output@, datatype@),
    {
        match find_pin(&self.outputs, output) {
            None => Err(NodeError::MissingPin),
            Some(pin) => {
                if pin.info.datatype == *datatype {
                    match &pin.value {
                        Some(value) => Ok(Some(value.clone())),
                        None => Ok(None),
                    }
                } else {
                    Err(NodeError::DatatypeMismatch)
                }
            },
        }
    }

    /// Takes what the behaviour answered to a request for the value of
    /// `output`: a value is put into the cache of the output and sent to
    /// `input` of the node at `commander`, a failure leaves the node as it was.
    pub fn resolve_output(
        &mut self,
        context: &Context,
        commander: Aid,
        input: &PinRef,
        output: &PinRef,
        computed: Result<Message, String>,
    ) -> (reply: Result<Envelope, NodeError>)
        ensures
            (final(self)@, reply_view(reply)) == old(self)@.resolved(
                context.aid,
                commander,
                input@,
                output@,
                computed_view(computed),
            ),
    {
        let datatype = match find_pin(&self.outputs, output) {
            None => {
                return Err(NodeError::MissingPin);
            },
            Some(pin) => pin.info.datatype.clone(),
        };
        match computed {
            Err(reason) => Err(NodeError::ComputationFailure(reason)),
            Ok(value) => {
                let id = output.pin.unwrap();
                let sent = value.clone();
                fill_pin(&mut self.outputs, id, value);
                Ok(Envelope::input_output(
                    context,
                    commander,
                    output.clone(),
                    input.clone(),
                    datatype,
                    sent,
                ))
            },
        }
    }

    /// Takes a value of the type `datatype` that has arrived for `input`: the
    /// value is put into the input if the input has that datatype.
    pub fn input_output(&mut self, input: &PinRef, datatype: &String, value: &Message) -> (accepted:
        Result<(), NodeError>)
        ensures
            (final(self)@, accepted_view(accepted)) == old(self)@.received(
                input@,
                datatype@,
                value@,
            ),
    {
        match find_pin(&self.inputs, input) {
            None => {
                return Err(NodeError::MissingPin);
            },
            Some(pin) => {
                if !(pin.info.datatype == *datatype) {
                    return Err(NodeError::DatatypeMismatch);
                }
            },
        }
        let id = input.pin.unwrap();
        fill_pin(&mut self.inputs, id, value.clone());
        Ok(())
    }

    /// Answers `requestor`, who asks for the progress of `output`.
    pub fn request_progress(&self, context: &Context, requestor: Aid, output: &PinRef) -> (reply:
        Result<Envelope, NodeError>)
        ensures
            reply_view(reply) == self@.progress_of(context.aid, requestor, output@),
    {
        match find_pin(&self.outputs, output) {
            None => Err(NodeError::MissingPin),
            Some(pin) => Ok(
                Envelope {
                    recipient: requestor,
                    command: NodeCommand::UpdateProgress(context.aid, output.clone(), pin.progress),
                },
            ),
        }
    }

    /// Takes the report that `output`, a pin of another node, has come to
    /// `progress`: every input that is linked to that pin records the report
    /// and takes the mean of the reports of all its links as its own progress.
    pub fn update_progress(&mut self, output: &PinRef, progress: u32)
        ensures
            final(self)@ == old(self)@.progressed(output@, progress),
    {
        let source = match output.pin {
            None => {
                return ;
            },
            Some(id) => id,
        };
        let ids = pin_ids(&self.inputs);
        let mut i: usize = 0;
        while i < ids.len()
            invariant
                i <= ids.len(),
                ids@.no_duplicates(),
                ids@.to_set() == old(self).inputs@.dom(),
                self.inputs@.dom() == old(self).inputs@.dom(),
                forall|j: int|
                    0 <= j < i ==> (#[trigger] self.inputs@[ids@[j]])@ == reported(
                        old(self).inputs@[ids@[j]]@,
                        source,
                        progress,
                    ),
                forall|j: int|
                    i <= j < ids.len() ==> #[trigger] self.inputs@[ids@[j]] == old(self).inputs@[ids@[j]],
                self.outputs == old(self).outputs,
                self.info == old(self).info,
            decreases ids.len() - i,
        {
            let id = ids[i];
            assert(ids@.to_set().contains(ids@[i as int]));
            report_to(&mut self.inputs, id, source, progress);
            i += 1;
        }
        proof {
            let after = pins_view(self.inputs@);
            let expected = pins_view(old(self).inputs@).map_values(
                |pin: PinView| reported(pin, source, progress),
            );
            assert forall|k: u128| after.contains_key(k) implies after[k] == expected[k] by {
                assert(ids@.to_set().contains(k));
                let j = choose|j: int| 0 <= j < ids@.len() && ids@[j] == k;
                assert(self.inputs@[ids@[j]]@ == reported(
                    old(self).inputs@[ids@[j]]@,
                    source,
                    progress,
                ));
            }
            assert(after =~= expected);
        }
    }

    /// Answers `commander`, who asks for the value of `output`, of the type
    /// `datatype` and for its pin `input`. Where the output has its value
    /// already, that value is sent and `process` is not asked; else `process`
    /// is asked, and the value that it computes is kept in the output and sent.
    pub fn compute_output<B: Nodeable>(
        &mut self,
        process: &B,
        context: &Context,
        commander: Aid,
        input: &PinRef,
        output: &PinRef,
        datatype: &String,
    ) -> (reply: Result<Envelope, NodeError>)
        ensures
            match old(self)@.served(context.aid, commander, input@, output@, datatype@) {
                Some(done) => (final(self)@, reply_view(reply)) == done,
                None => was_asked(
                    process,
                    &*old(self),
                    context.aid,
                    commander,
                    input@,
                    output@,
                    final(self)@,
                    delivered(reply_view(reply)),
                ),
            },
    {
        match self.cached_output(output, datatype) {
            Err(e) => Err(e),
            Ok(Some(value)) => Ok(
                Envelope::input_output(
                    context,
                    commander,
                    output.clone(),
                    input.clone(),
                    datatype.clone(),
                    value,
                ),
            ),
            Ok(None) => {
                let info = match find_pin(&self.outputs, output) {
                    Some(pin) => pin.info.clone(),
                    None => {
                        return Err(NodeError::MissingPin);
                    },
                };
                let computed = process.compute_output(self, info);
                let ghost answer = computed;
                assert(call_ensures(B::compute_output, (process, &*old(self), info), answer));
                self.resolve_output(context, commander, input, output, computed)
            },
        }
    }

    /// Handles one command: changes the pins of the node as the command asks
    /// and returns the command that is to be delivered to another node, if the
    /// command has a reply, or drops the command, leaves the node as it was and
    /// returns why.
    ///
    /// `process` is the behaviour of the node. It is asked for the value of an
    /// output that has no value yet, and the node and the reply are made of its
    /// answer; it is told of a message to a receive pin, and the node is then
    /// what its reaction has left. No other command reaches it.
    pub fn handle<B: Nodeable>(
        &mut self,
        process: &mut B,
        context: Context,
        command: &NodeCommand,
    ) -> (outcome: Result<Option<Envelope>, NodeError>)
        ensures
            match old(self)@.settled(context.aid, command@) {
                Some(done) => (final(self)@, outcome_view(outcome)) == done,
                None => match *command {
                    NodeCommand::ComputeOutput(commander, input, output, _) => was_asked(
                        &*old(process),
                        &*old(self),
                        context.aid,
                        commander,
                        input@,
                        output@,
                        final(self)@,
                        outcome_view(outcome),
                    ),
                    NodeCommand::ReceiverMessage(_, sender, receiver, message) => {
                        &&& outcome_view(outcome) == Ok::<Option<EnvelopeView>, NodeErrorView>(None)
                        &&& exists|behaviour: &mut B, node: &mut Node|
                            {
                                &&& #[trigger] call_ensures(
                                    B::handle_receive,
                                    (behaviour, node, &sender, &receiver, context, &message),
                                    (),
                                )
                                &&& *behaviour == *old(process) && *final(behaviour) == *final(process)
                                &&& *node == *old(self) && *final(node) == *final(self)
                            }
                    },
                    _ => true,
                },
            },
            old(self)@.misses(command@) <==> outcome_view(outcome) == Err::<
                Option<EnvelopeView>,
                NodeErrorView,
            >(NodeErrorView::MissingPin),
            old(self)@.mismatches(command@) <==> outcome_view(outcome) == Err::<
                Option<EnvelopeView>,
                NodeErrorView,
            >(NodeErrorView::DatatypeMismatch),
            outcome_view(outcome) matches Err(NodeErrorView::ComputationFailure(_)) ==> old(
                self,
            )@.settled(context.aid, command@) is None,
            outcome is Err ==> final(self)@ == old(self)@,
            match (command@, outcome_view(outcome)) {
                (NodeCommandView::ComputeOutput(commander, input, output, _), Ok(reply)) => {
                    final(self)@.answers(reply, context.aid, commander, input, output)
                },
                _ => true,
            },
            outcome matches Ok(reply) ==> (reply is Some <==> command@ is ComputeOutput
                || command@ is RequestProgress),
            !(command@ is ReceiverMessage) ==> *final(process) == *old(process),
    {
        match command {
            NodeCommand::ComputeOutput(commander, input, output, datatype) => {
                let reply = self.compute_output(
                    &*process,
                    &context,
                    *commander,
                    input,
                    output,
                    datatype,
                );
                deliver(reply)
            },
            NodeCommand::InputOutput(_, _, input, datatype, value) => {
                match self.input_output(input, datatype, value) {
                    Ok(()) => Ok(None),
                    Err(e) => Err(e),
                }
            },
            NodeCommand::ReceiverMessage(_, sender, receiver, message) => {
                process.handle_receive(self, sender, receiver, context, message);
                Ok(None)
            },
            NodeCommand::RequestProgress(requestor, output) => {
                deliver(self.request_progress(&context, *requestor, output))
            },
            NodeCommand::UpdateProgress(_, output, progress) => {
                self.update_progress(output, *progress);
                Ok(None)
            },
        }
    }
}

} // verus!
