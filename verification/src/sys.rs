//! Plain-value layouts of the SPA structures that the safe wrappers read,
//! the SPA numbering constants they use, and the small inline SPA helpers
//! (command construction and inspection, metadata bounds check) written
//! out and proved against their one-line definitions.
#![allow(non_camel_case_types, non_upper_case_globals)]

use vstd::prelude::*;

verus! {

/// Id that SPA uses for "no id".
pub const SPA_ID_INVALID: u32 = 0xffffffff;

// spa_meta_type
pub const SPA_META_Invalid: u32 = 0;
pub const SPA_META_Header: u32 = 1;
pub const SPA_META_VideoCrop: u32 = 2;
pub const SPA_META_VideoDamage: u32 = 3;
pub const SPA_META_Bitmap: u32 = 4;
pub const SPA_META_Cursor: u32 = 5;
pub const SPA_META_Control: u32 = 6;
pub const SPA_META_Busy: u32 = 7;
pub const SPA_META_VideoTransform: u32 = 8;
pub const SPA_META_SyncTimeline: u32 = 9;

// spa_data_type
pub const SPA_DATA_Invalid: u32 = 0;
pub const SPA_DATA_MemPtr: u32 = 1;
pub const SPA_DATA_MemFd: u32 = 2;
pub const SPA_DATA_DmaBuf: u32 = 3;
pub const SPA_DATA_MemId: u32 = 4;

// spa_node_command
pub const SPA_NODE_COMMAND_Suspend: u32 = 0;
pub const SPA_NODE_COMMAND_Pause: u32 = 1;
pub const SPA_NODE_COMMAND_Start: u32 = 2;
pub const SPA_NODE_COMMAND_Enable: u32 = 3;
pub const SPA_NODE_COMMAND_Disable: u32 = 4;
pub const SPA_NODE_COMMAND_Flush: u32 = 5;
pub const SPA_NODE_COMMAND_Drain: u32 = 6;
pub const SPA_NODE_COMMAND_Marker: u32 = 7;
pub const SPA_NODE_COMMAND_ParamBegin: u32 = 8;
pub const SPA_NODE_COMMAND_ParamEnd: u32 = 9;
pub const SPA_NODE_COMMAND_RequestProcess: u32 = 10;

// spa_type (the ones commands use)
pub const SPA_TYPE_Object: u32 = 15;
pub const SPA_TYPE_COMMAND_Device: u32 = 0x30001;
pub const SPA_TYPE_COMMAND_Node: u32 = 0x30002;

/// Size in bytes of `spa_command_body`, which a command's pod header records.
pub const SPA_COMMAND_BODY_SIZE: u32 = 8;

pub type spa_data_type = u32;

pub type spa_node_command = u32;

#[derive(Clone, Copy, PartialEq, Eq, Structural, Debug)]
pub struct spa_point {
    pub x: i32,
    pub y: i32,
}

#[derive(Clone, Copy, PartialEq, Eq, Structural, Debug)]
pub struct spa_rectangle {
    pub width: u32,
    pub height: u32,
}

#[derive(Clone, Copy, PartialEq, Eq, Structural, Debug)]
pub struct spa_region {
    pub position: spa_point,
    pub size: spa_rectangle,
}

#[derive(Clone, Copy, PartialEq, Eq, Structural, Debug)]
pub struct spa_meta_header {
    pub flags: u32,
    pub offset: u32,
    pub pts: i64,
    pub dts_offset: i64,
    pub seq: u64,
}

#[derive(Clone, Copy, PartialEq, Eq, Structural, Debug)]
pub struct spa_meta_region {
    pub region: spa_region,
}

#[derive(Clone, Copy, PartialEq, Eq, Structural, Debug)]
pub struct spa_meta_bitmap {
    pub format: u32,
    pub size: spa_rectangle,
    pub stride: i32,
    pub offset: u32,
}

#[derive(Clone, Copy, PartialEq, Eq, Structural, Debug)]
pub struct spa_meta_cursor {
    pub id: u32,
    pub flags: u32,
    pub position: spa_point,
    pub hotspot: spa_point,
    pub bitmap_offset: u32,
}

#[derive(Clone, Copy, PartialEq, Eq, Structural, Debug)]
pub struct spa_pod {
    pub size: u32,
    pub type_: u32,
}

#[derive(Clone, Copy, PartialEq, Eq, Structural, Debug)]
pub struct spa_pod_sequence_body {
    pub unit: u32,
    pub pad: u32,
}

#[derive(Clone, Copy, PartialEq, Eq, Structural, Debug)]
pub struct spa_pod_sequence {
    pub pod: spa_pod,
    pub body: spa_pod_sequence_body,
}

#[derive(Clone, Copy, PartialEq, Eq, Structural, Debug)]
pub struct spa_meta_control {
    pub sequence: spa_pod_sequence,
}

#[derive(Clone, Copy, PartialEq, Eq, Structural, Debug)]
pub struct spa_meta_busy {
    pub flags: u32,
    pub count: u32,
}

#[derive(Clone, Copy, PartialEq, Eq, Structural, Debug)]
pub struct spa_meta_videotransform {
    pub transform: u32,
}

#[derive(Clone, Copy, PartialEq, Eq, Structural, Debug)]
pub struct spa_meta_sync_timeline {
    pub flags: u32,
    pub padding: u32,
    pub acquire_point: u64,
    pub release_point: u64,
}

/// A metadata block of a buffer: its type, its size in bytes, and the
/// address where its data starts.
#[derive(Clone, Copy, PartialEq, Eq, Structural, Debug)]
pub struct spa_meta {
    pub type_: u32,
    pub size: u32,
    pub data: usize,
}

#[derive(Clone, Copy, PartialEq, Eq, Structural, Debug)]
pub struct spa_chunk {
    pub offset: u32,
    pub size: u32,
    pub stride: i32,
    pub flags: i32,
}

/// One data plane of a buffer. `data` is the memory that the data pointer
/// designates (`None` for a null pointer), and `chunk` the chunk that the
/// chunk pointer designates (`None` for a null pointer).
pub struct spa_data {
    pub type_: u32,
    pub flags: u32,
    pub fd: i64,
    pub mapoffset: u32,
    pub maxsize: u32,
    pub data: Option<Vec<u8>>,
    pub chunk: Option<crate::buffer::Chunk>,
}

impl spa_data {
    /// The mapped memory, where there is any, is `maxsize` bytes long.
    pub open spec fn wf(&self) -> bool {
        self.data matches Some(d) ==> d@.len() == self.maxsize
    }

    /// `other` is `self` with at most the memory changed.
    pub open spec fn same_but_memory(&self, other: spa_data) -> bool {
        &&& other.type_ == self.type_
        &&& other.flags == self.flags
        &&& other.fd == self.fd
        &&& other.mapoffset == self.mapoffset
        &&& other.maxsize == self.maxsize
        &&& other.chunk == self.chunk
    }

    /// `other` is `self` with at most the chunk changed.
    pub open spec fn same_but_chunk(&self, other: spa_data) -> bool {
        &&& other.type_ == self.type_
        &&& other.flags == self.flags
        &&& other.fd == self.fd
        &&& other.mapoffset == self.mapoffset
        &&& other.maxsize == self.maxsize
        &&& other.data == self.data
    }

    /// The memory as one slice, for writing; `None` for a null data
    /// pointer. Writes through the slice land in the memory, which keeps
    /// its length.
    pub(crate) fn memory_mut(&mut self) -> (r: Option<&mut [u8]>)
        ensures
            r is Some <==> old(self).data is Some,
            r is None ==> *final(self) == *old(self),
            r matches Some(s) ==> {
                &&& s@ == old(self).data.unwrap()@
                &&& final(self).data is Some
                &&& final(self).data.unwrap()@ == final(s)@
                &&& old(self).same_but_memory(*final(self))
            },
            old(self).wf() ==> final(self).wf(),
        no_unwind
    {
        match &mut self.data {
            Some(memory) => Some(whole_slice(memory)),
            None => None,
        }
    }

    /// The chunk, for writing; `None` for a null chunk pointer.
    pub(crate) fn chunk_mut(&mut self) -> (r: Option<&mut crate::buffer::Chunk>)
        ensures
            r is Some <==> old(self).chunk is Some,
            r is None ==> *final(self) == *old(self),
            r matches Some(c) ==> {
                &&& *c == old(self).chunk.unwrap()
                &&& final(self).chunk == Some(*final(c))
                &&& old(self).same_but_chunk(*final(self))
            },
            old(self).wf() ==> final(self).wf(),
        no_unwind
    {
        match &mut self.chunk {
            Some(chunk) => Some(chunk),
            None => None,
        }
    }
}

#[derive(Clone, Copy, PartialEq, Eq, Structural, Debug)]
pub struct spa_pod_object_body {
    pub type_: u32,
    pub id: u32,
}

#[derive(Clone, Copy, PartialEq, Eq, Structural, Debug)]
pub struct spa_command_body {
    pub body: spa_pod_object_body,
}

#[derive(Clone, Copy, PartialEq, Eq, Structural, Debug)]
pub struct spa_command {
    pub pod: spa_pod,
    pub body: spa_command_body,
}

/// `Vec::as_mut_slice`: the whole vector as a slice. A slice has a fixed
/// length, so what is written through it leaves the vector as long as it
/// was; that length clause is what this contract adds to vstd's own
/// specification of the call, which does not state it.
#[verifier::external_body]
fn whole_slice(memory: &mut Vec<u8>) -> (r: &mut [u8])
    ensures
        r@ == old(memory)@,
        final(memory)@ == final(r)@,
        final(r)@.len() == r@.len(),
    no_unwind
{
    memory.as_mut_slice()
}

/// The command that `SPA_COMMAND_INIT(type_, id)` builds.
pub open spec fn spec_command_init(type_: u32, id: u32) -> spa_command {
    spa_command {
        pod: spa_pod { size: SPA_COMMAND_BODY_SIZE, type_: SPA_TYPE_Object },
        body: spa_command_body { body: spa_pod_object_body { type_: type_, id: id } },
    }
}

/// What `SPA_COMMAND_ID(command, type_)` reads: the id when the command is
/// of that type, `SPA_ID_INVALID` otherwise.
pub open spec fn spec_command_id(command: spa_command, type_: u32) -> u32 {
    if command.body.body.type_ == type_ {
        command.body.body.id
    } else {
        SPA_ID_INVALID
    }
}

/// `SPA_COMMAND_TYPE`: the object type of a command.
pub fn spa_command_type(command: &spa_command) -> (r: u32)
    ensures
        r == command.body.body.type_,
{
    command.body.body.type_
}

/// `SPA_COMMAND_ID`.
pub fn spa_command_id(command: &spa_command, type_: u32) -> (r: u32)
    ensures
        r == spec_command_id(*command, type_),
        command.body.body.type_ == type_ ==> r == command.body.body.id,
        command.body.body.type_ != type_ ==> r == SPA_ID_INVALID,
{
    if command.body.body.type_ == type_ {
        command.body.body.id
    } else {
        SPA_ID_INVALID
    }
}

/// `SPA_COMMAND_INIT`.
pub fn spa_command_init(type_: u32, id: u32) -> (r: spa_command)
    ensures
        r == spec_command_init(type_, id),
        r.pod.size == SPA_COMMAND_BODY_SIZE,
        r.pod.type_ == SPA_TYPE_Object,
        r.body.body.type_ == type_,
        r.body.body.id == id,
{
    spa_command {
        pod: spa_pod { size: SPA_COMMAND_BODY_SIZE, type_: SPA_TYPE_Object },
        body: spa_command_body { body: spa_pod_object_body { type_: type_, id: id } },
    }
}

/// `SPA_NODE_COMMAND_ID`: the id of a node command, `SPA_ID_INVALID` for
/// a command of another type.
pub fn spa_node_command_id(command: &spa_command) -> (r: u32)
    ensures
        r == spec_command_id(*command, SPA_TYPE_COMMAND_Node),
        command.body.body.type_ == SPA_TYPE_COMMAND_Node ==> r == command.body.body.id,
        command.body.body.type_ != SPA_TYPE_COMMAND_Node ==> r == SPA_ID_INVALID,
{
    spa_command_id(command, SPA_TYPE_COMMAND_Node)
}

/// `SPA_NODE_COMMAND_INIT`: a node command with the given id.
pub fn spa_node_command_init(id: spa_node_command) -> (r: spa_command)
    ensures
        r == spec_command_init(SPA_TYPE_COMMAND_Node, id),
        r.pod.size == SPA_COMMAND_BODY_SIZE,
        r.pod.type_ == SPA_TYPE_Object,
        r.body.body.type_ == SPA_TYPE_COMMAND_Node,
        r.body.body.id == id,
{
    spa_command_init(SPA_TYPE_COMMAND_Node, id)
}

/// What the command helpers do, field by field: a command built for a
/// type and an id is an object pod of the command body's size whose body
/// holds that type and that id as given; the id read from a command for a
/// type is the id its body holds when the body is of that type, and the
/// invalid id when it is of another.
pub proof fn lemma_command_fields(type_: u32, id: u32, command: spa_command, asked: u32)
    ensures
        spec_command_init(type_, id).pod.size == SPA_COMMAND_BODY_SIZE,
        spec_command_init(type_, id).pod.type_ == SPA_TYPE_Object,
        spec_command_init(type_, id).body.body.type_ == type_,
        spec_command_init(type_, id).body.body.id == id,
        command.body.body.type_ == asked ==> spec_command_id(command, asked) == command.body.body.id,
        command.body.body.type_ != asked ==> spec_command_id(command, asked) == SPA_ID_INVALID,
{
}

/// `spa_meta_check(p, m)`: whether an item of `item_size` bytes that starts
/// at address `p` ends within the data of `meta`.
pub fn spa_meta_check(p: usize, item_size: usize, meta: &spa_meta) -> (r: bool)
    ensures
        r == (p + item_size <= meta.data + meta.size),
{
    let end: u128 = p as u128 + item_size as u128;
    let meta_end: u128 = meta.data as u128 + meta.size as u128;
    end <= meta_end
}

} // verus!
