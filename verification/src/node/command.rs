//! Commands that a node understands.

use vstd::prelude::*;

use crate::constants::ID_INVALID;
use crate::pod::command::{spec_id_result, Command as PodCommand};
use crate::sys::{
    spa_command, spa_node_command, spa_node_command_id, spa_node_command_init, spec_command_id,
    spec_command_init, SPA_COMMAND_BODY_SIZE, SPA_TYPE_COMMAND_Node, SPA_TYPE_Object,
};
use crate::sys::{SPA_NODE_COMMAND_Suspend, SPA_NODE_COMMAND_Pause, SPA_NODE_COMMAND_Start, SPA_NODE_COMMAND_Enable, SPA_NODE_COMMAND_Disable, SPA_NODE_COMMAND_Flush, SPA_NODE_COMMAND_Drain, SPA_NODE_COMMAND_Marker, SPA_NODE_COMMAND_ParamBegin, SPA_NODE_COMMAND_ParamEnd, SPA_NODE_COMMAND_RequestProcess};

verus! {

/// A node command, as its SPA number.
#[derive(Clone, Copy, PartialEq, Eq, Structural, Debug)]
pub struct Command(spa_node_command);

impl View for Command {
    type V = u32;

    closed spec fn view(&self) -> u32 {
        self.0
    }
}

#[allow(non_snake_case)]
impl Command {
    /// Two values are equal exactly when their views are.
    pub proof fn lemma_eq_iff_view_eq(a: Self, b: Self)
        ensures
            (a == b) <==> (a@ == b@),
    {
    }

    pub fn SUSPEND() -> (r: Self)
        ensures
            r@ == SPA_NODE_COMMAND_Suspend,
    {
        Self(SPA_NODE_COMMAND_Suspend)
    }

    pub fn PAUSE() -> (r: Self)
        ensures
            r@ == SPA_NODE_COMMAND_Pause,
    {
        Self(SPA_NODE_COMMAND_Pause)
    }

    pub fn START() -> (r: Self)
        ensures
            r@ == SPA_NODE_COMMAND_Start,
    {
        Self(SPA_NODE_COMMAND_Start)
    }

    pub fn ENABLE() -> (r: Self)
        ensures
            r@ == SPA_NODE_COMMAND_Enable,
    {
        Self(SPA_NODE_COMMAND_Enable)
    }

    pub fn DISABLE() -> (r: Self)
        ensures
            r@ == SPA_NODE_COMMAND_Disable,
    {
        Self(SPA_NODE_COMMAND_Disable)
    }

    pub fn FLUSH() -> (r: Self)
        ensures
            r@ == SPA_NODE_COMMAND_Flush,
    {
        Self(SPA_NODE_COMMAND_Flush)
    }

    pub fn DRAIN() -> (r: Self)
        ensures
            r@ == SPA_NODE_COMMAND_Drain,
    {
        Self(SPA_NODE_COMMAND_Drain)
    }

    pub fn MARKER() -> (r: Self)
        ensures
            r@ == SPA_NODE_COMMAND_Marker,
    {
        Self(SPA_NODE_COMMAND_Marker)
    }

    pub fn PARAM_BEGIN() -> (r: Self)
        ensures
            r@ == SPA_NODE_COMMAND_ParamBegin,
    {
        Self(SPA_NODE_COMMAND_ParamBegin)
    }

    pub fn PARAM_END() -> (r: Self)
        ensures
            r@ == SPA_NODE_COMMAND_ParamEnd,
    {
        Self(SPA_NODE_COMMAND_ParamEnd)
    }

    pub fn REQUEST_PROCESS() -> (r: Self)
        ensures
            r@ == SPA_NODE_COMMAND_RequestProcess,
    {
        Self(SPA_NODE_COMMAND_RequestProcess)
    }

    pub fn as_raw(&self) -> (r: spa_node_command)
        ensures
            r == self@,
    {
        self.0
    }

    pub fn from_raw(raw: spa_node_command) -> (r: Self)
        ensures
            r@ == raw,
    {
        Self(raw)
    }

    /// The node command id of a command pod; `Err` when the pod is not a
    /// node command or carries the invalid id.
    pub fn id(command: &PodCommand) -> (r: Result<u32, ()>)
        ensures
            r == spec_id_result(spec_command_id(command@, SPA_TYPE_COMMAND_Node)),
            command@.body.body.type_ == SPA_TYPE_COMMAND_Node && command@.body.body.id != ID_INVALID
                ==> r == Ok::<u32, ()>(command@.body.body.id),
            command@.body.body.type_ != SPA_TYPE_COMMAND_Node || command@.body.body.id == ID_INVALID
                ==> r == Err::<u32, ()>(()),
    {
        let id = spa_node_command_id(command.as_raw());

        if id == ID_INVALID {
            Err(())
        } else {
            Ok(id)
        }
    }

    /// The command pod that carries this node command.
    pub fn init(self) -> (r: PodCommand)
        ensures
            r@ == spec_command_init(SPA_TYPE_COMMAND_Node, self@),
            r@.pod.size == SPA_COMMAND_BODY_SIZE,
            r@.pod.type_ == SPA_TYPE_Object,
            r@.body.body.type_ == SPA_TYPE_COMMAND_Node,
            r@.body.body.id == self@,
    {
        PodCommand::from_raw(spa_node_command_init(self.as_raw()))
    }
}

/// The pod of a node command holds the command's number unchanged as its
/// id, under the node command type; reading the node command id of any pod
/// answers the id its body holds when the body is a node command and that
/// id is not the invalid id, `Err` otherwise.
pub proof fn lemma_node_command_fields(command: u32, pod: spa_command)
    ensures
        spec_command_init(SPA_TYPE_COMMAND_Node, command).body.body.id == command,
        spec_command_init(SPA_TYPE_COMMAND_Node, command).body.body.type_ == SPA_TYPE_COMMAND_Node,
        pod.body.body.type_ == SPA_TYPE_COMMAND_Node && pod.body.body.id != ID_INVALID
            ==> spec_id_result(spec_command_id(pod, SPA_TYPE_COMMAND_Node)) == Ok::<u32, ()>(pod.body.body.id),
        pod.body.body.type_ != SPA_TYPE_COMMAND_Node || pod.body.body.id == ID_INVALID
            ==> spec_id_result(spec_command_id(pod, SPA_TYPE_COMMAND_Node)) == Err::<u32, ()>(()),
{
}

/// Turning a node command into a pod and reading its node command id back
/// gives the command's number, unless that number is the invalid id.
pub proof fn lemma_init_then_id(command: u32)
    ensures
        spec_id_result(spec_command_id(spec_command_init(SPA_TYPE_COMMAND_Node, command), SPA_TYPE_COMMAND_Node))
            == (if command == ID_INVALID { Err(()) } else { Ok(command) }),
{
}

} // verus!
