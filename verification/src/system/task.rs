use heapless::Vec;
use vstd::prelude::*;
use vstd::string::StringSliceAdditionalSpecFns;

use crate::system::heap::MallocError;

pub mod execute;
pub mod registry;
pub mod waker;
pub mod waker_impl;

verus! {

/// The kernel's handle of a native thread. It is never zero.
#[derive(Clone, Copy, Debug, PartialEq, Eq, Structural)]
pub struct TaskPtr(pub usize);

pub const DEFAULT_STACK_SIZE: u32 = 8192;

pub const DEFAULT_PRIORITY: u32 = 0;

/// The most bytes of a task's name that the kernel is given.
pub const TASK_NAME_LENGTH: usize = 32;

/// Room for the name and the NUL byte that ends it.
pub const TASK_NAME_BUFFER: usize = 33;

/// The kernel's answer when it has created a task.
pub const TASK_CREATED: i32 = 1;

/// `heapless::Vec`, a vector of fixed capacity. Nothing is known of a value
/// of it but what the functions below say.
#[verifier::external_type_specification]
#[verifier::external_body]
#[verifier::reject_recursive_types(T)]
pub struct ExVec<T, const N: usize>(Vec<T, N>);

/// The bytes that a task-name buffer holds, in order.
pub uninterp spec fn name_bytes(buffer: Vec<u8, TASK_NAME_BUFFER>) -> Seq<u8>;

/// `Vec::new`: a buffer that holds nothing.
#[verifier::external_body]
fn name_buffer_new() -> (buffer: Vec<u8, TASK_NAME_BUFFER>)
    ensures
        name_bytes(buffer).len() == 0,
{
    Vec::new()
}

/// `Vec::push`: appends the byte unless the buffer holds as many bytes as
/// its type allows, in which case nothing changes and the byte comes back.
#[verifier::external_body]
fn name_buffer_push(buffer: &mut Vec<u8, TASK_NAME_BUFFER>, byte: u8) -> (res: Result<(), u8>)
    ensures
        res is Ok <==> name_bytes(*old(buffer)).len() < TASK_NAME_BUFFER,
        res is Ok ==> name_bytes(*final(buffer)) == name_bytes(*old(buffer)).push(byte),
        res is Err ==> res->Err_0 == byte && name_bytes(*final(buffer)) == name_bytes(
            *old(buffer),
        ),
{
    buffer.push(byte)
}

/// `Vec::as_slice`: the bytes that the buffer holds.
#[verifier::external_body]
fn name_buffer_as_slice(buffer: &Vec<u8, TASK_NAME_BUFFER>) -> (bytes: &[u8])
    ensures
        bytes@ == name_bytes(*buffer),
{
    buffer.as_slice()
}

/// How a task is to be created. Nothing happens until the task is spawned.
#[must_use]
#[derive(Clone, Copy, Debug)]
pub struct TaskBuilder {
    pub name: &'static str,
    pub stack_bytes: u32,
    pub priority: u32,
    pub core: i32,
}

/// A builder for a task of the given name, with the default stack size and
/// priority, on the first core.
pub fn new(name: &'static str) -> (builder: TaskBuilder)
    ensures
        builder == (TaskBuilder {
            name,
            stack_bytes: DEFAULT_STACK_SIZE,
            priority: DEFAULT_PRIORITY,
            core: 0,
        }),
{
    TaskBuilder { name, stack_bytes: DEFAULT_STACK_SIZE, priority: DEFAULT_PRIORITY, core: 0 }
}

#[derive(Clone, Copy, Debug, PartialEq, Eq, Structural)]
pub enum SpawnError {
    /// There was no memory to keep the task's entry point.
    AllocateClosure(MallocError),
    /// The kernel did not create the task.
    TaskCreateError,
}

/// What the kernel is asked for when a task is created.
pub struct SpawnRequest {
    pub name: Vec<u8, TASK_NAME_BUFFER>,
    pub stack_size: u32,
    pub priority: u32,
    pub core: i32,
}

impl SpawnRequest {
    /// The task's name as the kernel gets it: at most `TASK_NAME_LENGTH`
    /// bytes of the name, then a NUL byte.
    pub open spec fn name(&self) -> Seq<u8> {
        name_bytes(self.name)
    }

    /// The bytes of the name, with the NUL byte that ends them.
    pub fn name_with_nul(&self) -> (bytes: &[u8])
        ensures
            bytes@ == self.name(),
    {
        name_buffer_as_slice(&self.name)
    }
}

/// The first `TASK_NAME_LENGTH` bytes of `name`, or all of them if there are
/// fewer, followed by a NUL byte.
pub open spec fn c_name(name: Seq<u8>) -> Seq<u8> {
    (if name.len() <= TASK_NAME_LENGTH {
        name
    } else {
        name.take(TASK_NAME_LENGTH as int)
    }).push(0u8)
}

impl TaskBuilder {
    /// Sets the stack size. A size that does not fit in 32 bits is cut down
    /// to its low 32 bits.
    pub fn stack_size(self, bytes: usize) -> (builder: Self)
        ensures
            builder == (TaskBuilder { stack_bytes: (bytes as int % 0x1_0000_0000) as u32, ..self }),
    {
        let mut builder = self;
        builder.stack_bytes = (bytes as u64 % 0x1_0000_0000u64) as u32;
        builder
    }

    pub fn priority(self, priority: u32) -> (builder: Self)
        ensures
            builder == (TaskBuilder { priority, ..self }),
    {
        let mut builder = self;
        builder.priority = priority;
        builder
    }

    /// Pins the task to the second core.
    pub fn use_alternate_core(self) -> (builder: Self)
        ensures
            builder == (TaskBuilder { core: 1, ..self }),
    {
        let mut builder = self;
        builder.core = 1;
        builder
    }

    /// What to ask of the kernel for a task whose unit of work takes
    /// `future_bytes` bytes: the stack holds the unit of work on top of the
    /// configured size, saturating at the largest 32-bit size, and the name
    /// is cut to fit the kernel's name buffer.
    pub fn spawn_request(&self, future_bytes: usize) -> (request: SpawnRequest)
        ensures
            request.name() == c_name(self.name.spec_bytes()),
            request.stack_size == if self.stack_bytes + future_bytes <= u32::MAX {
                (self.stack_bytes + future_bytes) as u32
            } else {
                u32::MAX
            },
            request.priority == self.priority,
            request.core == self.core,
    {
        let extra = if future_bytes > 0xffff_ffff {
            u32::MAX
        } else {
            future_bytes as u32
        };
        let stack_size = self.stack_bytes.saturating_add(extra);

        let bytes = self.name.as_bytes();
        let keep = if bytes.len() < TASK_NAME_LENGTH {
            bytes.len()
        } else {
            TASK_NAME_LENGTH
        };
        let mut name = name_buffer_new();
        let mut i: usize = 0;
        while i < keep
            invariant
                i <= keep <= TASK_NAME_LENGTH,
                keep <= bytes@.len(),
                name_bytes(name) == bytes@.take(i as int),
            decreases keep - i,
        {
            let pushed = name_buffer_push(&mut name, bytes[i]);
            assert(pushed is Ok);
            assert(bytes@.take(i as int).push(bytes@[i as int]) =~= bytes@.take(i + 1));
            i += 1;
        }
        let pushed = name_buffer_push(&mut name, 0);
        assert(pushed is Ok);
        assert(bytes@.take(bytes@.len() as int) =~= bytes@);
        SpawnRequest { name, stack_size, priority: self.priority, core: self.core }
    }
}

/// What a spawn comes to, given the kernel's answer to the request.
pub fn spawn_result(rc: i32) -> (res: Result<(), SpawnError>)
    ensures
        res == if rc == TASK_CREATED {
            Ok::<(), SpawnError>(())
        } else {
            Err::<(), SpawnError>(SpawnError::TaskCreateError)
        },
{
    if rc == TASK_CREATED {
        Ok(())
    } else {
        Err(SpawnError::TaskCreateError)
    }
}

} // verus!
