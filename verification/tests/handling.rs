use node_graph::actor::{Aid, Context, Message};
use node_graph::command::{Envelope, NodeCommand, NodeError};
use node_graph::graph::{GraphInfo, NodeInfo, PinInfo, PinRef};
use node_graph::node::{Node, Nodeable, Pin};
use std::cell::Cell;
use std::collections::HashMap;

const SUM: u128 = 0x1000;
const TOTAL: u128 = 0x1001;
const LEFT: u128 = 0x2000;
const RIGHT: u128 = 0x2001;

fn aid(n: u128) -> Aid {
    Aid { uuid: n, system_uuid: 1 }
}

fn pin(id: u128, name: &str, datatype: &str) -> Pin {
    Pin {
        info: PinInfo { name: name.to_string(), datatype: datatype.to_string(), index: None },
        instance: PinRef::to_pin(id),
        uuid: id,
        link_pins: HashMap::new(),
        link_progress: HashMap::new(),
        value: None,
        progress: 0,
    }
}

fn adder() -> Node {
    let mut inputs = HashMap::new();
    inputs.insert(LEFT, pin(LEFT, "left", "int"));
    inputs.insert(RIGHT, pin(RIGHT, "right", "int"));
    let mut outputs = HashMap::new();
    outputs.insert(SUM, pin(SUM, "sum", "int"));
    outputs.insert(TOTAL, pin(TOTAL, "total", "text"));
    Node {
        info: NodeInfo { graph: GraphInfo { name: "adder".to_string() } },
        inputs,
        outputs,
    }
}

fn number(n: i32) -> Message {
    Message::new(n.to_le_bytes().to_vec())
}

/// A behaviour that answers every request with the same answer and counts
/// how often it was asked and what it was told.
struct Fixed {
    answer: Result<Message, String>,
    asked: Cell<usize>,
    asked_for: Cell<Option<String>>,
    told: Vec<(PinRef, PinRef, Context, Message)>,
    mark: Option<u128>,
}

impl Fixed {
    fn new(answer: Result<Message, String>) -> Fixed {
        Fixed { answer, asked: Cell::new(0), asked_for: Cell::new(None), told: Vec::new(), mark: None }
    }
}

impl Nodeable for Fixed {
    type Catalogue = ();

    fn get_io(&self, _catalogue: &()) -> (Vec<Pin>, Vec<Pin>) {
        (Vec::new(), Vec::new())
    }

    fn get_rs(&self, _catalogue: &()) -> (Vec<Pin>, Vec<Pin>) {
        (Vec::new(), Vec::new())
    }

    fn compute_output(&self, _node: &Node, output_info: PinInfo) -> Result<Message, String> {
        self.asked.set(self.asked.get() + 1);
        self.asked_for.set(Some(output_info.name.clone()));
        self.answer.clone()
    }

    fn handle_receive(
        &mut self,
        node: &mut Node,
        sender: &PinRef,
        receiver: &PinRef,
        context: Context,
        message: &Message,
    ) {
        self.told.push((sender.clone(), receiver.clone(), context, message.clone()));
        if let Some(id) = self.mark {
            if let Some(pin) = node.inputs.get_mut(&id) {
                pin.progress = 1;
            }
        }
    }
}

#[test]
fn end_to_end_sum_is_computed_once_and_cached() {
    let x = aid(10);
    let y = aid(11);
    let z = aid(12);
    let mut node = adder();
    let mut process = Fixed::new(Ok(number(42)));
    let i = PinRef::to_pin(0x77);

    let first = NodeCommand::ComputeOutput(y, i.clone(), PinRef::to_pin(SUM), "int".to_string());
    let outcome = node.handle(&mut process, Context { aid: x }, &first);
    assert_eq!(
        outcome,
        Ok(Some(Envelope {
            recipient: y,
            command: NodeCommand::InputOutput(
                x,
                PinRef::to_pin(SUM),
                i.clone(),
                "int".to_string(),
                number(42),
            ),
        }))
    );
    assert_eq!(node.outputs[&SUM].value, Some(number(42)));
    assert_eq!(process.asked.get(), 1);
    assert_eq!(process.asked_for.take(), Some("sum".to_string()));

    let j = PinRef::to_element(0x78, 2);
    let second = NodeCommand::ComputeOutput(z, j.clone(), PinRef::to_pin(SUM), "int".to_string());
    let outcome = node.handle(&mut process, Context { aid: x }, &second);
    assert_eq!(
        outcome,
        Ok(Some(Envelope {
            recipient: z,
            command: NodeCommand::InputOutput(x, PinRef::to_pin(SUM), j, "int".to_string(), number(42)),
        }))
    );
    assert_eq!(process.asked.get(), 1);
    assert_eq!(node.outputs[&SUM].value, Some(number(42)));
}

#[test]
fn cached_value_is_served_without_the_behaviour() {
    let mut node = adder();
    node.outputs.get_mut(&SUM).unwrap().value = Some(number(7));
    let before = node.clone();
    let mut process = Fixed::new(Ok(number(99)));
    let command =
        NodeCommand::ComputeOutput(aid(3), PinRef::to_pin(LEFT), PinRef::to_pin(SUM), "int".to_string());
    for _ in 0..3 {
        let reply = node.handle(&mut process, Context { aid: aid(1) }, &command).unwrap().unwrap();
        assert_eq!(reply.recipient, aid(3));
        assert_eq!(
            reply.command,
            NodeCommand::InputOutput(
                aid(1),
                PinRef::to_pin(SUM),
                PinRef::to_pin(LEFT),
                "int".to_string(),
                number(7)
            )
        );
    }
    assert_eq!(process.asked.get(), 0);
    assert_eq!(node, before);
}

#[test]
fn cached_output_tells_cached_from_uncached() {
    let mut node = adder();
    let sum = PinRef::to_pin(SUM);
    assert_eq!(node.cached_output(&sum, &"int".to_string()), Ok(None));
    node.outputs.get_mut(&SUM).unwrap().value = Some(number(5));
    assert_eq!(node.cached_output(&sum, &"int".to_string()), Ok(Some(number(5))));
    assert_eq!(node.cached_output(&sum, &"text".to_string()), Err(NodeError::DatatypeMismatch));
    assert_eq!(
        node.cached_output(&PinRef::to_pin(0xdead), &"int".to_string()),
        Err(NodeError::MissingPin)
    );
}

#[test]
fn compute_output_with_wrong_datatype_changes_nothing() {
    let mut node = adder();
    let before = node.clone();
    let mut process = Fixed::new(Ok(number(42)));
    let command =
        NodeCommand::ComputeOutput(aid(3), PinRef::to_pin(LEFT), PinRef::to_pin(SUM), "text".to_string());
    let outcome = node.handle(&mut process, Context { aid: aid(1) }, &command);
    assert_eq!(outcome, Err(NodeError::DatatypeMismatch));
    assert_eq!(node, before);
    assert_eq!(node.outputs[&SUM].value, None);
    assert_eq!(process.asked.get(), 0);
}

#[test]
fn compute_output_with_wrong_datatype_keeps_cached_value() {
    let mut node = adder();
    node.outputs.get_mut(&SUM).unwrap().value = Some(number(7));
    let before = node.clone();
    let mut process = Fixed::new(Ok(number(42)));
    let command =
        NodeCommand::ComputeOutput(aid(3), PinRef::to_pin(LEFT), PinRef::to_pin(SUM), "Int".to_string());
    let outcome = node.handle(&mut process, Context { aid: aid(1) }, &command);
    assert_eq!(outcome, Err(NodeError::DatatypeMismatch));
    assert_eq!(node, before);
    assert_eq!(process.asked.get(), 0);
}

#[test]
fn input_output_with_wrong_datatype_changes_nothing() {
    let mut node = adder();
    node.inputs.get_mut(&LEFT).unwrap().value = Some(number(1));
    let before = node.clone();
    let mut process = Fixed::new(Ok(number(42)));
    let command = NodeCommand::InputOutput(
        aid(3),
        PinRef::to_element(0x55, 4),
        PinRef::to_pin(LEFT),
        "text".to_string(),
        number(2),
    );
    let outcome = node.handle(&mut process, Context { aid: aid(1) }, &command);
    assert_eq!(outcome, Err(NodeError::DatatypeMismatch));
    assert_eq!(node, before);
    assert_eq!(node.inputs[&LEFT].value, Some(number(1)));
}

#[test]
fn input_output_stores_the_value_in_the_input() {
    let mut node = adder();
    let before = node.clone();
    let mut process = Fixed::new(Ok(number(42)));
    let command = NodeCommand::InputOutput(
        aid(3),
        PinRef::to_pin(0x55),
        PinRef::to_pin(RIGHT),
        "int".to_string(),
        number(-5),
    );
    let outcome = node.handle(&mut process, Context { aid: aid(1) }, &command);
    assert_eq!(outcome, Ok(None));
    assert_eq!(node.inputs[&RIGHT].value, Some(number(-5)));
    assert_eq!(node.inputs[&LEFT], before.inputs[&LEFT]);
    assert_eq!(node.outputs, before.outputs);
    assert_eq!(node.info, before.info);
    let mut expected = before.inputs[&RIGHT].clone();
    expected.value = Some(number(-5));
    assert_eq!(node.inputs[&RIGHT], expected);
    assert_eq!(process.asked.get(), 0);
}

#[test]
fn input_output_replaces_an_earlier_value() {
    let mut node = adder();
    assert_eq!(node.input_output(&PinRef::to_pin(LEFT), &"int".to_string(), &number(1)), Ok(()));
    assert_eq!(node.input_output(&PinRef::to_pin(LEFT), &"int".to_string(), &number(2)), Ok(()));
    assert_eq!(node.inputs[&LEFT].value, Some(number(2)));
}

#[test]
fn missing_pin_leaves_the_node_alone() {
    let mut node = adder();
    node.outputs.get_mut(&SUM).unwrap().value = Some(number(7));
    let before = node.clone();
    let mut process = Fixed::new(Ok(number(42)));
    let me = Context { aid: aid(1) };
    let absent = PinRef::to_pin(0xdead);

    let compute =
        NodeCommand::ComputeOutput(aid(3), PinRef::to_pin(LEFT), absent.clone(), "int".to_string());
    assert_eq!(node.handle(&mut process, me, &compute), Err(NodeError::MissingPin));
    assert_eq!(node, before);

    let input = NodeCommand::InputOutput(
        aid(3),
        PinRef::to_pin(SUM),
        absent.clone(),
        "int".to_string(),
        number(1),
    );
    assert_eq!(node.handle(&mut process, me, &input), Err(NodeError::MissingPin));
    assert_eq!(node, before);

    let progress = NodeCommand::RequestProgress(aid(3), absent.clone());
    assert_eq!(node.handle(&mut process, me, &progress), Err(NodeError::MissingPin));
    assert_eq!(node, before);
    assert_eq!(process.asked.get(), 0);
}

#[test]
fn an_input_is_no_output_and_an_output_no_input() {
    let mut node = adder();
    let before = node.clone();
    let mut process = Fixed::new(Ok(number(42)));
    let me = Context { aid: aid(1) };
    let compute = NodeCommand::ComputeOutput(
        aid(3),
        PinRef::to_pin(SUM),
        PinRef::to_pin(LEFT),
        "int".to_string(),
    );
    assert_eq!(node.handle(&mut process, me, &compute), Err(NodeError::MissingPin));
    let input = NodeCommand::InputOutput(
        aid(3),
        PinRef::to_pin(LEFT),
        PinRef::to_pin(SUM),
        "int".to_string(),
        number(1),
    );
    assert_eq!(node.handle(&mut process, me, &input), Err(NodeError::MissingPin));
    let progress = NodeCommand::RequestProgress(aid(3), PinRef::to_pin(RIGHT));
    assert_eq!(node.handle(&mut process, me, &progress), Err(NodeError::MissingPin));
    assert_eq!(node, before);
}

#[test]
fn reference_without_pin_finds_no_pin() {
    let mut node = adder();
    let before = node.clone();
    let mut process = Fixed::new(Ok(number(42)));
    let me = Context { aid: aid(1) };
    let property = PinRef::to_property("colour".to_string());

    let compute =
        NodeCommand::ComputeOutput(aid(3), PinRef::to_pin(LEFT), property.clone(), "int".to_string());
    assert_eq!(node.handle(&mut process, me, &compute), Err(NodeError::MissingPin));
    let input = NodeCommand::InputOutput(
        aid(3),
        PinRef::to_pin(SUM),
        property.clone(),
        "int".to_string(),
        number(1),
    );
    assert_eq!(node.handle(&mut process, me, &input), Err(NodeError::MissingPin));
    let request = NodeCommand::RequestProgress(aid(3), property.clone());
    assert_eq!(node.handle(&mut process, me, &request), Err(NodeError::MissingPin));
    let update = NodeCommand::UpdateProgress(aid(3), property, 500_000);
    assert_eq!(node.handle(&mut process, me, &update), Ok(None));
    assert_eq!(node, before);
    assert_eq!(process.asked.get(), 0);
}

#[test]
fn successful_request_is_answered_by_one_reply_to_the_commander() {
    let mut node = adder();
    let mut process = Fixed::new(Ok(Message::new(vec![b'h', b'i'])));
    let commander = Aid { uuid: 0xc0, system_uuid: 0xc1 };
    let me = Aid { uuid: 0xa0, system_uuid: 0xa1 };
    let input = PinRef::to_element(0x9000, 17);
    let output = PinRef::to_pin(TOTAL);
    let command =
        NodeCommand::ComputeOutput(commander, input.clone(), output.clone(), "text".to_string());
    let reply = node.handle(&mut process, Context { aid: me }, &command).unwrap().unwrap();
    assert_eq!(reply.recipient, commander);
    match &reply.command {
        NodeCommand::InputOutput(sender, o, i, datatype, value) => {
            assert_eq!(*sender, me);
            assert_eq!(*o, output);
            assert_eq!(*i, input);
            assert_eq!(datatype, "text");
            assert_eq!(value.content, vec![b'h', b'i']);
            assert_eq!(Some(value), node.outputs[&TOTAL].value.as_ref());
        },
        other => panic!("not a value: {:?}", other),
    }
    assert_eq!(process.asked_for.take(), Some("total".to_string()));
    assert_eq!(node.outputs[&SUM].value, None);
}

#[test]
fn failed_computation_is_reported_and_nothing_is_cached() {
    let mut node = adder();
    let before = node.clone();
    let mut process = Fixed::new(Err("division by zero".to_string()));
    let command =
        NodeCommand::ComputeOutput(aid(3), PinRef::to_pin(LEFT), PinRef::to_pin(SUM), "int".to_string());
    let outcome = node.handle(&mut process, Context { aid: aid(1) }, &command);
    assert_eq!(outcome, Err(NodeError::ComputationFailure("division by zero".to_string())));
    assert_eq!(node, before);
    assert_eq!(process.asked.get(), 1);

    let outcome = node.handle(&mut process, Context { aid: aid(1) }, &command);
    assert_eq!(outcome, Err(NodeError::ComputationFailure("division by zero".to_string())));
    assert_eq!(process.asked.get(), 2);
}

#[test]
fn resolve_output_takes_either_answer() {
    let mut node = adder();
    let before = node.clone();
    let me = Context { aid: aid(1) };
    let input = PinRef::to_pin(LEFT);
    let output = PinRef::to_pin(SUM);

    let reply = node.resolve_output(&me, aid(3), &input, &output, Err("no".to_string()));
    assert_eq!(reply, Err(NodeError::ComputationFailure("no".to_string())));
    assert_eq!(node, before);

    let reply = node.resolve_output(&me, aid(3), &input, &PinRef::to_pin(0xdead), Ok(number(1)));
    assert_eq!(reply, Err(NodeError::MissingPin));
    assert_eq!(node, before);

    let reply = node.resolve_output(&me, aid(3), &input, &output, Ok(number(8)));
    assert_eq!(
        reply,
        Ok(Envelope {
            recipient: aid(3),
            command: NodeCommand::InputOutput(aid(1), output, input, "int".to_string(), number(8)),
        })
    );
    assert_eq!(node.outputs[&SUM].value, Some(number(8)));
    assert_eq!(node.outputs[&TOTAL], before.outputs[&TOTAL]);
    assert_eq!(node.inputs, before.inputs);
}

#[test]
fn envelope_for_a_value_names_sender_and_pins() {
    let envelope = Envelope::input_output(
        &Context { aid: aid(1) },
        aid(2),
        PinRef::to_pin(3),
        PinRef::to_pin(4),
        "int".to_string(),
        number(5),
    );
    assert_eq!(envelope.recipient, aid(2));
    assert_eq!(
        envelope.command,
        NodeCommand::InputOutput(aid(1), PinRef::to_pin(3), PinRef::to_pin(4), "int".to_string(), number(5))
    );
}

#[test]
fn request_progress_is_answered_with_the_progress_of_the_output() {
    let mut node = adder();
    node.outputs.get_mut(&SUM).unwrap().progress = 250_000;
    let before = node.clone();
    let mut process = Fixed::new(Ok(number(42)));
    let command = NodeCommand::RequestProgress(aid(9), PinRef::to_pin(SUM));
    let outcome = node.handle(&mut process, Context { aid: aid(1) }, &command);
    assert_eq!(
        outcome,
        Ok(Some(Envelope {
            recipient: aid(9),
            command: NodeCommand::UpdateProgress(aid(1), PinRef::to_pin(SUM), 250_000),
        }))
    );
    assert_eq!(node, before);
    assert_eq!(process.asked.get(), 0);
}

#[test]
fn receiver_message_is_handed_to_the_behaviour() {
    let mut node = adder();
    let mut process = Fixed::new(Ok(number(42)));
    process.mark = Some(LEFT);
    let sender = PinRef::to_pin(0x31);
    let receiver = PinRef::to_pin(LEFT);
    let command =
        NodeCommand::ReceiverMessage(aid(3), sender.clone(), receiver.clone(), Message::new(vec![1, 2, 3]));
    let outcome = node.handle(&mut process, Context { aid: aid(1) }, &command);
    assert_eq!(outcome, Ok(None));
    assert_eq!(
        process.told,
        vec![(sender, receiver, Context { aid: aid(1) }, Message::new(vec![1, 2, 3]))]
    );
    assert_eq!(node.inputs[&LEFT].progress, 1);
    assert_eq!(process.asked.get(), 0);
}

#[test]
fn receiver_message_needs_no_pin() {
    let mut node = adder();
    let before = node.clone();
    let mut process = Fixed::new(Ok(number(42)));
    let command = NodeCommand::ReceiverMessage(
        aid(3),
        PinRef::to_property("tick".to_string()),
        PinRef::to_pin(0xdead),
        Message::new(Vec::new()),
    );
    assert_eq!(node.handle(&mut process, Context { aid: aid(1) }, &command), Ok(None));
    assert_eq!(process.told.len(), 1);
    assert_eq!(node, before);
}

#[test]
fn message_clone_holds_the_same_bytes() {
    let original = Message::new(vec![0, 255, 7]);
    let copy = original.clone();
    assert_eq!(copy.content, vec![0, 255, 7]);
    assert_eq!(copy, original);
}
