//! Commands: pods that ask an object to do something.

use vstd::prelude::*;

use crate::constants::ID_INVALID;
use crate::pod::SpaTypes;
use crate::sys::{
    spa_command, spa_command_id, spa_command_init, spa_command_type, spec_command_id,
    spec_command_init, SPA_COMMAND_BODY_SIZE, SPA_TYPE_Object,
};

verus! {

/// What an id lookup answers for the raw id it read: `Err` for the invalid
/// id, the id otherwise.
pub open spec fn spec_id_result(raw_id: u32) -> Result<u32, ()> {
    if raw_id == ID_INVALID {
        Err(())
    } else {
        Ok(raw_id)
    }
}

/// A command pod.
#[derive(PartialEq, Eq, Structural, Debug)]
pub struct Command(spa_command);

impl View for Command {
    type V = spa_command;

    closed spec fn view(&self) -> spa_command {
        self.0
    }
}

impl Command {
    /// Two values are equal exactly when their views are.
    pub proof fn lemma_eq_iff_view_eq(a: Self, b: Self)
        ensures
            (a == b) <==> (a@ == b@),
    {
    }

    pub fn into_raw(self) -> (r: spa_command)
        ensures
            r == self@,
    {
        self.0
    }

    pub fn from_raw(raw: spa_command) -> (r: Self)
        ensures
            r@ == raw,
    {
        Self(raw)
    }

    /// The raw command, by reference: the safe counterpart of a pointer to
    /// it.
    pub fn as_raw(&self) -> (r: &spa_command)
        ensures
            *r == self@,
    {
        &self.0
    }

    /// The object type of the command.
    pub fn type_(&self) -> (r: SpaTypes)
        ensures
            r.0 == self@.body.body.type_,
    {
        SpaTypes::from_raw(spa_command_type(&self.0))
    }

    /// The id of the command when it is of type `type_`; `Err` when it is of
    /// another type or its id is the invalid id.
    pub fn id(&self, type_: SpaTypes) -> (r: Result<u32, ()>)
        ensures
            r == spec_id_result(spec_command_id(self@, type_.0)),
            self@.body.body.type_ == type_.0 && self@.body.body.id != ID_INVALID ==> r == Ok::<u32, ()>(self@.body.body.id),
            self@.body.body.type_ != type_.0 || self@.body.body.id == ID_INVALID ==> r == Err::<u32, ()>(()),
    {
        let id = spa_command_id(&self.0, type_.as_raw());
        if id == ID_INVALID {
            Err(())
        } else {
            Ok(id)
        }
    }

    /// A command of type `type_` with the given id.
    pub fn init(type_: SpaTypes, id: u32) -> (r: Self)
        ensures
            r@ == spec_command_init(type_.0, id),
            r@.pod.size == SPA_COMMAND_BODY_SIZE,
            r@.pod.type_ == SPA_TYPE_Object,
            r@.body.body.type_ == type_.0,
            r@.body.body.id == id,
    {
        Self(spa_command_init(type_.as_raw(), id))
    }
}

/// A command built by `init(type_, id)` reports `type_` as its type, gives
/// back `id` when asked for the id of `type_` (unless `id` is the invalid
/// id), and has no id for any other type.
/// A command pod built by `init(type_, id)` holds `type_` and `id` as
/// given, and `id(asked)` of any command answers the id its body holds when
/// the body is of type `asked` and that id is not the invalid id, `Err`
/// otherwise.
pub proof fn lemma_init_and_id_fields(type_: u32, id: u32, command: spa_command, asked: u32)
    ensures
        spec_command_init(type_, id).body.body.type_ == type_,
        spec_command_init(type_, id).body.body.id == id,
        spec_command_init(type_, id).pod.size == SPA_COMMAND_BODY_SIZE,
        spec_command_init(type_, id).pod.type_ == SPA_TYPE_Object,
        command.body.body.type_ == asked && command.body.body.id != ID_INVALID
            ==> spec_id_result(spec_command_id(command, asked)) == Ok::<u32, ()>(command.body.body.id),
        command.body.body.type_ != asked || command.body.body.id == ID_INVALID
            ==> spec_id_result(spec_command_id(command, asked)) == Err::<u32, ()>(()),
{
}

pub proof fn lemma_init_then_query(type_: u32, id: u32, other: u32)
    requires
        other != type_,
    ensures
        spec_command_init(type_, id).body.body.type_ == type_,
        spec_id_result(spec_command_id(spec_command_init(type_, id), type_)) == (if id == ID_INVALID {
            Err(())
        } else {
            Ok(id)
        }),
        spec_id_result(spec_command_id(spec_command_init(type_, id), other)) == Err::<u32, ()>(()),
{
}

} // verus!
