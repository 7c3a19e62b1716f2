//! Submission queues.

pub mod common;
pub mod render;

use crate::buffer::Buffer;
use crate::error::{Error, Result};
use crate::fw::WorkCommand;
use crate::queue::render::{
    lemma_render_commands_stay, lemma_render_submitted_commands, render_commands_at,
    spec_initial_result, spec_queue_after, spec_render_binds, spec_render_check,
    spec_render_context, RenderCommand, RenderEnv, RenderResult, MAX_CLUSTERS,
};
use crate::sync::SyncItem;
use crate::wire::{read_u32, read_u64, spec_le_u32, spec_le_u64};
use crate::workqueue::EventChannel;
use vstd::prelude::*;

verus! {

/// Largest number of commands in one submission.
pub const MAX_COMMANDS_PER_SUBMISSION: u32 = 64;

/// Largest number of commands that a queue may have outstanding.
pub const MAX_COMMANDS_IN_FLIGHT: u32 = 1024;

/// Queue capability: render commands.
pub const QUEUE_CAP_RENDER: u32 = 0x1;

/// Queue capability: blit commands.
pub const QUEUE_CAP_BLIT: u32 = 0x2;

/// Queue capability: compute commands.
pub const QUEUE_CAP_COMPUTE: u32 = 0x4;

/// Command type: render.
pub const CMD_RENDER: u32 = 0;

/// Command type: blit.
pub const CMD_BLIT: u32 = 1;

/// Command type: compute.
pub const CMD_COMPUTE: u32 = 2;

/// Size in bytes of one command record in userspace memory.
pub const COMMAND_STRIDE: usize = 56;

/// One command of a submission, as userspace describes it.
#[derive(Clone, Copy, Debug, PartialEq, Eq, Structural)]
pub struct Command {
    pub extensions: u64,
    pub cmd_type: u32,
    pub flags: u32,
    /// Userspace address of the command buffer.
    pub cmd_buffer: u64,
    pub cmd_buffer_size: u64,
    /// Where in the result buffer the result record goes.
    pub result_offset: u64,
    pub result_size: u64,
    /// Barriers against the two subqueues.
    pub barrier_0: u32,
    pub barrier_1: u32,
}

/// Where the result record of one command goes in the result buffer.
#[derive(Clone, Copy, Debug, PartialEq, Eq, Structural)]
pub struct ResultWriter {
    pub offset: u64,
    pub size: u64,
}

/// A submission queue of one client.
#[derive(Clone, Copy, Debug, PartialEq, Eq, Structural)]
pub struct Queue {
    /// Identifier of the queue, unique over the driver.
    pub id: u64,
    /// Identifier of the address space that the queue runs in.
    pub vm_id: u64,
    /// Priority, 0 to 3.
    pub priority: u32,
    /// Capability bits.
    pub caps: u32,
    /// Vertex event channel; present on render queues.
    pub vtx: Option<EventChannel>,
    /// Fragment event channel; present on render queues.
    pub frag: Option<EventChannel>,
    /// Compute event channel; present on compute queues.
    pub comp: Option<EventChannel>,
    /// Tile vertex buffer; present on render queues.
    pub buffer: Option<Buffer>,
    /// Submission counter handed to newer firmware.
    pub counter: u64,
    /// Number of completions that the queue's notifier waits for.
    pub notifier_threshold: u32,
}

/// The firmware commands of one submission, per subqueue.
pub struct QueueJob {
    /// Context slot that the queue's address space is bound to.
    pub vm_slot: u32,
    /// Commands for the vertex subqueue, in order.
    pub vtx: Vec<WorkCommand>,
    /// Commands for the fragment subqueue, in order.
    pub frag: Vec<WorkCommand>,
    /// Number of commands whose completion the job's fence waits for.
    pub fence_commands: u32,
}

impl Queue {
    /// Whether the queue's parts fit its capabilities and are well-formed.
    pub open spec fn wf(&self) -> bool {
        &&& self.buffer matches Some(b) ==> b.wf()
        &&& self.priority <= 3
    }
}


/// What the GPU manager contributes to a new queue: its identifier, an
/// event channel for each kind of work, and the size of its tile vertex
/// buffer.
#[derive(Clone, Copy, Debug, PartialEq, Eq, Structural)]
pub struct QueueResources {
    /// Identifier of the queue, unique over the driver.
    pub id: u64,
    /// Identifier of the address space, unique over the driver.
    pub vm_id: u64,
    pub vtx: EventChannel,
    pub frag: EventChannel,
    pub comp: EventChannel,
    /// Number of blocks that the tile vertex buffer starts with.
    pub tvb_blocks: u32,
}

/// Whether a set of queue capabilities is valid: at least one, and known
/// ones only.
pub open spec fn caps_valid(caps: u32) -> bool {
    caps != 0 && caps & !(QUEUE_CAP_RENDER | QUEUE_CAP_BLIT | QUEUE_CAP_COMPUTE) == 0
}

impl Queue {
    /// The queue that `new` makes.
    pub open spec fn spec_new(res: QueueResources, priority: u32, caps: u32, buffer: Option<Buffer>)
        -> Queue {
        Queue {
            id: res.id,
            vm_id: res.vm_id,
            priority,
            caps,
            vtx: if caps & QUEUE_CAP_RENDER != 0 {
                Some(res.vtx)
            } else {
                None
            },
            frag: if caps & (QUEUE_CAP_RENDER | QUEUE_CAP_BLIT) != 0 {
                Some(res.frag)
            } else {
                None
            },
            comp: if caps & QUEUE_CAP_COMPUTE != 0 {
                Some(res.comp)
            } else {
                None
            },
            buffer,
            counter: 0,
            notifier_threshold: 0,
        }
    }

    /// Creates a queue with the given priority and capabilities.
    ///
    /// A queue that renders has a vertex and a fragment channel and a tile
    /// vertex buffer; one that blits has a fragment channel; one that
    /// computes has a compute channel.
    ///
    /// Fails with `EINVAL` when the priority is above 3 or the capabilities
    /// are not valid, and with `ENOMEM` when the tile vertex buffer of a
    /// render queue cannot have the blocks asked for.
    pub fn new(res: &QueueResources, priority: u32, caps: u32) -> (r: Result<Queue>)
        ensures
            r is Ok <==> priority <= 3 && caps_valid(caps) && (caps & QUEUE_CAP_RENDER != 0
                ==> res.tvb_blocks <= crate::buffer::MAX_BLOCKS),
            r matches Ok(q) ==> {
                &&& q.wf()
                &&& q == Self::spec_new(*res, priority, caps, q.buffer)
                &&& q.buffer is Some <==> caps & QUEUE_CAP_RENDER != 0
                &&& q.buffer matches Some(b) ==> b.spec_block_count() == res.tvb_blocks
                    && b.spec_grow_request() is None && b.spec_frames() == 0
            },
            r matches Err(e) ==> e == (if priority <= 3 && caps_valid(caps) {
                Error::ENOMEM
            } else {
                Error::EINVAL
            }),
    {
        if priority > 3 || caps == 0 || caps & !(QUEUE_CAP_RENDER | QUEUE_CAP_BLIT
            | QUEUE_CAP_COMPUTE) != 0 {
            return Err(Error::EINVAL);
        }
        let buffer: Option<Buffer> = if caps & QUEUE_CAP_RENDER != 0 {
            match Buffer::new(res.tvb_blocks) {
                Ok(b) => Some(b),
                Err(e) => {
                    return Err(e);
                },
            }
        } else {
            None
        };
        Ok(
            Queue {
                id: res.id,
                vm_id: res.vm_id,
                priority,
                caps,
                vtx: if caps & QUEUE_CAP_RENDER != 0 {
                    Some(res.vtx)
                } else {
                    None
                },
                frag: if caps & (QUEUE_CAP_RENDER | QUEUE_CAP_BLIT) != 0 {
                    Some(res.frag)
                } else {
                    None
                },
                comp: if caps & QUEUE_CAP_COMPUTE != 0 {
                    Some(res.comp)
                } else {
                    None
                },
                buffer,
                counter: 0,
                notifier_threshold: 0,
            },
        )
    }
}


/// The command record stored at byte `off` of `data`.
pub open spec fn spec_command(data: Seq<u8>, off: int) -> Command {
    Command {
        extensions: spec_le_u64(data, off) as u64,
        cmd_type: spec_le_u32(data, off + 8) as u32,
        flags: spec_le_u32(data, off + 12) as u32,
        cmd_buffer: spec_le_u64(data, off + 16) as u64,
        cmd_buffer_size: spec_le_u64(data, off + 24) as u64,
        result_offset: spec_le_u64(data, off + 32) as u64,
        result_size: spec_le_u64(data, off + 40) as u64,
        barrier_0: spec_le_u32(data, off + 48) as u32,
        barrier_1: spec_le_u32(data, off + 52) as u32,
    }
}

/// Reads an array of `count` command records from userspace memory.
///
/// Fails with `EFAULT` when `data` is too short for `count` records.
pub fn parse_commands(data: &[u8], count: u32) -> (r: Result<Vec<Command>>)
    ensures
        r is Ok <==> data@.len() >= count * COMMAND_STRIDE,
        r matches Ok(v) ==> v@ == Seq::new(count as nat, |i: int| spec_command(data@, i * 56)),
        r matches Err(e) ==> e == Error::EFAULT,
{
    let n: usize = count as usize;
    let total: usize = data.len();
    if n > usize::MAX / COMMAND_STRIDE {
        assert(count * COMMAND_STRIDE > total);
        return Err(Error::EFAULT);
    }
    if total < n * COMMAND_STRIDE {
        return Err(Error::EFAULT);
    }
    let mut out: Vec<Command> = Vec::new();
    let mut i: usize = 0;
    while i < n
        invariant
            i <= n,
            n == count,
            n * COMMAND_STRIDE <= data@.len(),
            data@.len() == total,
            out@ == Seq::new(i as nat, |j: int| spec_command(data@, j * 56)),
        decreases n - i,
    {
        let off: usize = i * COMMAND_STRIDE;
        out.push(
            Command {
                extensions: read_u64(data, off),
                cmd_type: read_u32(data, off + 8),
                flags: read_u32(data, off + 12),
                cmd_buffer: read_u64(data, off + 16),
                cmd_buffer_size: read_u64(data, off + 24),
                result_offset: read_u64(data, off + 32),
                result_size: read_u64(data, off + 40),
                barrier_0: read_u32(data, off + 48),
                barrier_1: read_u32(data, off + 52),
            },
        );
        i = i + 1;
        assert(out@ =~= Seq::new(i as nat, |j: int| spec_command(data@, j * 56)));
    }
    Ok(out)
}

/// What a render command points to in userspace memory, and what the GPU
/// manager contributes to its submission.
pub struct RenderPayload {
    /// The command buffer.
    pub cmdbuf: RenderCommand,
    /// The memory that holds the attachment array.
    pub attachments: Vec<u8>,
    pub env: RenderEnv,
}

/// The firmware work of one submission and what belongs to it.
pub struct Submission {
    /// The firmware commands, per subqueue.
    pub job: QueueJob,
    /// For each command the result that collects its completion, if a
    /// result record was asked for.
    pub results: Vec<Option<RenderResult>>,
    /// The sync objects that the submission waits for.
    pub in_syncs: Vec<SyncItem>,
    /// The sync objects that the submission signals.
    pub out_syncs: Vec<SyncItem>,
}

/// Where the result record of a command goes, if it has one. Without a
/// result buffer a command must not ask for a record; with one, the record
/// has to lie in the buffer.
pub open spec fn spec_result_writer(cmd: Command, result_buf_size: Option<u64>) -> Result<
    Option<ResultWriter>,
> {
    match result_buf_size {
        None => if cmd.result_offset != 0 || cmd.result_size != 0 {
            Err(Error::EINVAL)
        } else {
            Ok(None)
        },
        Some(size) => if cmd.result_size == 0 {
            Ok(None)
        } else if cmd.result_offset + cmd.result_size > size {
            Err(Error::EINVAL)
        } else {
            Ok(Some(ResultWriter { offset: cmd.result_offset, size: cmd.result_size }))
        },
    }
}

/// The first reason to refuse a command on a queue, if any.
pub open spec fn spec_command_error(
    queue: Queue,
    cmd: Command,
    payload: RenderPayload,
    result_buf_size: Option<u64>,
) -> Option<Error> {
    if cmd.extensions != 0 || cmd.flags != 0 {
        Some(Error::EINVAL)
    } else if spec_result_writer(cmd, result_buf_size) is Err {
        Some(Error::EINVAL)
    } else if cmd.cmd_type != CMD_RENDER {
        Some(Error::EINVAL)
    } else if queue.caps & QUEUE_CAP_RENDER == 0 {
        Some(Error::EINVAL)
    } else if payload.env.num_clusters > MAX_CLUSTERS {
        Some(Error::EINVAL)
    } else {
        spec_render_check(
            queue,
            cmd,
            payload.cmdbuf,
            payload.attachments@,
            payload.env,
            spec_result_writer(cmd, result_buf_size)->Ok_0 is Some,
        )
    }
}

/// The queue after the first `n` commands of a submission, if none of them
/// is refused.
pub open spec fn spec_submit_state(
    queue: Queue,
    commands: Seq<Command>,
    payloads: Seq<RenderPayload>,
    result_buf_size: Option<u64>,
    n: int,
) -> Option<Queue>
    decreases n,
{
    if n <= 0 {
        Some(queue)
    } else {
        match spec_submit_state(queue, commands, payloads, result_buf_size, n - 1) {
            None => None,
            Some(q) => if spec_command_error(q, commands[n - 1], payloads[n - 1], result_buf_size)
                is Some {
                None
            } else {
                Some(spec_queue_after(q, payloads[n - 1].cmdbuf, payloads[n - 1].env))
            },
        }
    }
}

/// The reason for which the first command among the first `n` that is
/// refused is refused, if one is.
pub open spec fn spec_submit_refusal(
    queue: Queue,
    commands: Seq<Command>,
    payloads: Seq<RenderPayload>,
    result_buf_size: Option<u64>,
    n: int,
) -> Option<Error>
    decreases n,
{
    if n <= 0 {
        None
    } else {
        match spec_submit_state(queue, commands, payloads, result_buf_size, n - 1) {
            None => spec_submit_refusal(queue, commands, payloads, result_buf_size, n - 1),
            Some(q) => spec_command_error(q, commands[n - 1], payloads[n - 1], result_buf_size),
        }
    }
}

/// Behind a command that is refused no command changes the reason.
pub proof fn lemma_submit_refusal_stays(
    queue: Queue,
    commands: Seq<Command>,
    payloads: Seq<RenderPayload>,
    result_buf_size: Option<u64>,
    i: int,
    n: int,
)
    requires
        0 <= i <= n,
        spec_submit_state(queue, commands, payloads, result_buf_size, i) is None,
    ensures
        spec_submit_refusal(queue, commands, payloads, result_buf_size, n) == spec_submit_refusal(
            queue,
            commands,
            payloads,
            result_buf_size,
            i,
        ),
    decreases n - i,
{
    if i < n {
        lemma_submit_state_none(queue, commands, payloads, result_buf_size, i, n - 1);
        lemma_submit_refusal_stays(queue, commands, payloads, result_buf_size, i, n - 1);
    }
}

/// A submission is refused exactly if one of its commands is.
pub proof fn lemma_submit_refused(
    queue: Queue,
    commands: Seq<Command>,
    payloads: Seq<RenderPayload>,
    result_buf_size: Option<u64>,
    n: int,
)
    requires
        0 <= n,
    ensures
        spec_submit_state(queue, commands, payloads, result_buf_size, n) is None
            <==> spec_submit_refusal(queue, commands, payloads, result_buf_size, n) is Some,
    decreases n,
{
    if n > 0 {
        lemma_submit_refused(queue, commands, payloads, result_buf_size, n - 1);
    }
}

/// The number of commands that the first `n` commands of a submission put
/// into the vertex subqueue: a vertex job each, and before it the binding
/// of the tile vertex buffer where a render binds it anew.
pub open spec fn spec_vtx_count(
    queue: Queue,
    commands: Seq<Command>,
    payloads: Seq<RenderPayload>,
    result_buf_size: Option<u64>,
    n: int,
) -> int
    decreases n,
{
    if n <= 0 {
        0
    } else {
        spec_vtx_count(queue, commands, payloads, result_buf_size, n - 1) + 1 + (
        match spec_submit_state(queue, commands, payloads, result_buf_size, n - 1) {
            Some(q) => if spec_render_binds(q, payloads[n - 1].cmdbuf, payloads[n - 1].env) {
                1int
            } else {
                0int
            },
            None => 0int,
        })
    }
}

/// Whether the subqueues `frag` and `vtx` and the result records `results`
/// hold what command `i` of a submission of `total` commands puts there:
/// its commands behind those of the commands before it, see
/// `render_commands_at`, and its result record, if it asks for one. The
/// last command of the submission flushes the stamps.
pub open spec fn command_built(
    queue: Queue,
    vm_slot: u32,
    commands: Seq<Command>,
    payloads: Seq<RenderPayload>,
    result_buf_size: Option<u64>,
    total: int,
    frag: Seq<WorkCommand>,
    vtx: Seq<WorkCommand>,
    results: Seq<Option<RenderResult>>,
    i: int,
) -> bool {
    let q = spec_submit_state(queue, commands, payloads, result_buf_size, i)->0;
    let writer = spec_result_writer(commands[i], result_buf_size)->Ok_0;
    let p = payloads[i];
    &&& i < results.len()
    &&& render_commands_at(
        q,
        vm_slot,
        frag,
        vtx,
        2 * i,
        spec_vtx_count(queue, commands, payloads, result_buf_size, i),
        p.cmdbuf,
        p.attachments@,
        p.env,
        writer is Some,
        i + 1 == total,
    )
    &&& results[i] == (match writer {
        Some(w) => Some(
            spec_initial_result(
                q,
                spec_render_context(q, vm_slot, p.cmdbuf, p.env, true, i + 1 == total),
                w,
            ),
        ),
        None => None,
    })
}

/// Whether a job and its result records hold what a submission builds: for
/// each command in turn what `command_built` says, and nothing else.
pub open spec fn submission_built(
    queue: Queue,
    vm_slot: u32,
    commands: Seq<Command>,
    payloads: Seq<RenderPayload>,
    result_buf_size: Option<u64>,
    frag: Seq<WorkCommand>,
    vtx: Seq<WorkCommand>,
    results: Seq<Option<RenderResult>>,
) -> bool {
    let n = commands.len() as int;
    &&& frag.len() == 2 * n
    &&& vtx.len() == spec_vtx_count(queue, commands, payloads, result_buf_size, n)
    &&& results.len() == n
    &&& forall|i: int|
        0 <= i < n ==> #[trigger] command_built(
            queue,
            vm_slot,
            commands,
            payloads,
            result_buf_size,
            n,
            frag,
            vtx,
            results,
            i,
        )
}

/// The vertex subqueue does not shrink from command to command.
pub proof fn lemma_vtx_count_grows(
    queue: Queue,
    commands: Seq<Command>,
    payloads: Seq<RenderPayload>,
    result_buf_size: Option<u64>,
    i: int,
    n: int,
)
    requires
        0 <= i <= n,
    ensures
        0 <= spec_vtx_count(queue, commands, payloads, result_buf_size, i) <= spec_vtx_count(
            queue,
            commands,
            payloads,
            result_buf_size,
            n,
        ),
    decreases n,
{
    if i < n {
        lemma_vtx_count_grows(queue, commands, payloads, result_buf_size, i, n - 1);
    } else if n > 0 {
        lemma_vtx_count_grows(queue, commands, payloads, result_buf_size, 0, n - 1);
    }
}

/// What a command has put into the job stays there when the next command
/// is built.
pub proof fn lemma_command_built_stays(
    queue: Queue,
    vm_slot: u32,
    commands: Seq<Command>,
    payloads: Seq<RenderPayload>,
    result_buf_size: Option<u64>,
    total: int,
    frag: Seq<WorkCommand>,
    vtx: Seq<WorkCommand>,
    results: Seq<Option<RenderResult>>,
    more_frag: Seq<WorkCommand>,
    more_vtx: Seq<WorkCommand>,
    more_results: Seq<Option<RenderResult>>,
    i: int,
)
    requires
        0 <= i,
        command_built(
            queue,
            vm_slot,
            commands,
            payloads,
            result_buf_size,
            total,
            frag,
            vtx,
            results,
            i,
        ),
        frag.len() <= more_frag.len(),
        more_frag.subrange(0, frag.len() as int) == frag,
        vtx.len() <= more_vtx.len(),
        more_vtx.subrange(0, vtx.len() as int) == vtx,
        results.len() <= more_results.len(),
        more_results.subrange(0, results.len() as int) == results,
    ensures
        command_built(
            queue,
            vm_slot,
            commands,
            payloads,
            result_buf_size,
            total,
            more_frag,
            more_vtx,
            more_results,
            i,
        ),
{
    let q = spec_submit_state(queue, commands, payloads, result_buf_size, i)->0;
    let writer = spec_result_writer(commands[i], result_buf_size)->Ok_0;
    let p = payloads[i];
    lemma_render_commands_stay(
        q,
        vm_slot,
        frag,
        vtx,
        more_frag,
        more_vtx,
        2 * i,
        spec_vtx_count(queue, commands, payloads, result_buf_size, i),
        p.cmdbuf,
        p.attachments@,
        p.env,
        writer is Some,
        i + 1 == total,
    );
    assert(more_results.subrange(0, results.len() as int)[i] == more_results[i]);
}

/// Once a command is refused the submission is.
pub proof fn lemma_submit_state_none(
    queue: Queue,
    commands: Seq<Command>,
    payloads: Seq<RenderPayload>,
    result_buf_size: Option<u64>,
    i: int,
    n: int,
)
    requires
        0 <= i <= n,
        spec_submit_state(queue, commands, payloads, result_buf_size, i) is None,
    ensures
        spec_submit_state(queue, commands, payloads, result_buf_size, n) is None,
    decreases n - i,
{
    if i < n {
        lemma_submit_state_none(queue, commands, payloads, result_buf_size, i, n - 1);
    }
}

impl Queue {
    /// Submits the commands of one submission to the queue.
    ///
    /// `vm_slot` is the context slot that the queue's address space is
    /// bound to. `result_buf_size` is the size of the result buffer, if the
    /// submission has one. `payloads` holds, for each command in order,
    /// what the command points to.
    ///
    /// Only render commands are built here. The last command of the
    /// submission flushes the stamps.
    ///
    /// Fails with `EFAULT` when `payloads` does not match the commands, and
    /// when a command is refused with the reason for that, see
    /// `spec_command_error`. A submission that fails leaves the queue as it
    /// was.
    pub fn submit(
        &mut self,
        vm_slot: u32,
        in_syncs: Vec<SyncItem>,
        out_syncs: Vec<SyncItem>,
        result_buf_size: Option<u64>,
        commands: &Vec<Command>,
        payloads: &Vec<RenderPayload>,
    ) -> (r: Result<Submission>)
        requires
            old(self).wf(),
        ensures
            final(self).wf(),
            r is Ok <==> payloads@.len() == commands@.len() && spec_submit_state(
                *old(self),
                commands@,
                payloads@,
                result_buf_size,
                commands@.len() as int,
            ) is Some,
            r matches Ok(sub) ==> {
                &&& Some(*final(self)) == spec_submit_state(
                    *old(self),
                    commands@,
                    payloads@,
                    result_buf_size,
                    commands@.len() as int,
                )
                &&& sub.job.vm_slot == vm_slot
                &&& submission_built(
                    *old(self),
                    vm_slot,
                    commands@,
                    payloads@,
                    result_buf_size,
                    sub.job.frag@,
                    sub.job.vtx@,
                    sub.results@,
                )
                &&& sub.job.frag@.len() == 2 * commands@.len()
                &&& commands@.len() <= sub.job.vtx@.len() <= 2 * commands@.len()
                &&& sub.results@.len() == commands@.len()
                &&& forall|i: int|
                    0 <= i < commands@.len() ==> ((#[trigger] sub.results@[i]) is Some)
                        == (spec_result_writer(commands@[i], result_buf_size)->Ok_0 is Some)
                &&& sub.in_syncs@ == in_syncs@
                &&& sub.out_syncs@ == out_syncs@
            },
            r matches Err(e) ==> *final(self) == *old(self),
            r matches Err(e) ==> Some(e) == (if payloads@.len() != commands@.len() {
                Some(Error::EFAULT)
            } else {
                spec_submit_refusal(
                    *old(self),
                    commands@,
                    payloads@,
                    result_buf_size,
                    commands@.len() as int,
                )
            }),
    {
        let n: usize = commands.len();
        if payloads.len() != n {
            return Err(Error::EFAULT);
        }
        let mut queue: Queue = *self;
        let mut job = QueueJob { vm_slot, vtx: Vec::new(), frag: Vec::new(), fence_commands: 0 };
        let mut results: Vec<Option<RenderResult>> = Vec::new();
        let mut i: usize = 0;
        while i < n
            invariant
                i <= n,
                n == commands@.len(),
                n == payloads@.len(),
                queue.wf(),
                *self == *old(self),
                self.wf(),
                Some(queue) == spec_submit_state(
                    *old(self),
                    commands@,
                    payloads@,
                    result_buf_size,
                    i as int,
                ),
                job.vm_slot == vm_slot,
                job.frag@.len() == 2 * i,
                i <= job.vtx@.len() <= 2 * i,
                job.vtx@.len() == spec_vtx_count(
                    *old(self),
                    commands@,
                    payloads@,
                    result_buf_size,
                    i as int,
                ),
                forall|j: int|
                    0 <= j < i ==> #[trigger] command_built(
                        *old(self),
                        vm_slot,
                        commands@,
                        payloads@,
                        result_buf_size,
                        n as int,
                        job.frag@,
                        job.vtx@,
                        results@,
                        j,
                    ),
                results@.len() == i,
                forall|j: int|
                    0 <= j < i ==> ((#[trigger] results@[j]) is Some) == (spec_result_writer(
                        commands@[j],
                        result_buf_size,
                    )->Ok_0 is Some),
            decreases n - i,
        {
            let cmd = &commands[i];
            let payload = &payloads[i];
            let ghost q0 = queue;
            let ghost job0 = job;
            let ghost results0 = results@;
            if cmd.extensions != 0 || cmd.flags != 0 {
                proof {
                    lemma_submit_state_none(
                        *old(self),
                        commands@,
                        payloads@,
                        result_buf_size,
                        i + 1,
                        n as int,
                    );
                    lemma_submit_refusal_stays(
                        *old(self),
                        commands@,
                        payloads@,
                        result_buf_size,
                        i + 1,
                        n as int,
                    );
                }
                return Err(Error::EINVAL);
            }
            let writer: Option<ResultWriter> = match result_buf_size {
                None => {
                    if cmd.result_offset != 0 || cmd.result_size != 0 {
                        proof {
                            lemma_submit_state_none(
                                *old(self),
                                commands@,
                                payloads@,
                                result_buf_size,
                                i + 1,
                                n as int,
                            );
                            lemma_submit_refusal_stays(
                                *old(self),
                                commands@,
                                payloads@,
                                result_buf_size,
                                i + 1,
                                n as int,
                            );
                        }
                        return Err(Error::EINVAL);
                    }
                    None
                },
                Some(size) => {
                    if cmd.result_size == 0 {
                        None
                    } else if cmd.result_offset > size || cmd.result_size > size
                        - cmd.result_offset {
                        proof {
                            lemma_submit_state_none(
                                *old(self),
                                commands@,
                                payloads@,
                                result_buf_size,
                                i + 1,
                                n as int,
                            );
                            lemma_submit_refusal_stays(
                                *old(self),
                                commands@,
                                payloads@,
                                result_buf_size,
                                i + 1,
                                n as int,
                            );
                        }
                        return Err(Error::EINVAL);
                    } else {
                        Some(ResultWriter { offset: cmd.result_offset, size: cmd.result_size })
                    }
                },
            };
            if cmd.cmd_type != CMD_RENDER || queue.caps & QUEUE_CAP_RENDER == 0
                || payload.env.num_clusters > MAX_CLUSTERS {
                proof {
                    lemma_submit_state_none(
                        *old(self),
                        commands@,
                        payloads@,
                        result_buf_size,
                        i + 1,
                        n as int,
                    );
                    lemma_submit_refusal_stays(
                        *old(self),
                        commands@,
                        payloads@,
                        result_buf_size,
                        i + 1,
                        n as int,
                    );
                }
                return Err(Error::EINVAL);
            }
            let flush_stamps: bool = i + 1 == n;
            let res = queue.submit_render(
                &mut job,
                cmd,
                &payload.cmdbuf,
                payload.attachments.as_slice(),
                &payload.env,
                writer,
                flush_stamps,
            );
            match res {
                Ok(result) => {
                    results.push(result);
                    proof {
                        lemma_render_submitted_commands(
                            q0,
                            queue,
                            job0,
                            job,
                            payload.cmdbuf,
                            payload.attachments@,
                            payload.env,
                            writer,
                            flush_stamps,
                            result,
                        );
                        assert(results@.subrange(0, results0.len() as int) =~= results0);
                        assert forall|j: int| 0 <= j < i implies #[trigger] command_built(
                            *old(self),
                            vm_slot,
                            commands@,
                            payloads@,
                            result_buf_size,
                            n as int,
                            job.frag@,
                            job.vtx@,
                            results@,
                            j,
                        ) by {
                            lemma_command_built_stays(
                                *old(self),
                                vm_slot,
                                commands@,
                                payloads@,
                                result_buf_size,
                                n as int,
                                job0.frag@,
                                job0.vtx@,
                                results0,
                                job.frag@,
                                job.vtx@,
                                results@,
                                j,
                            );
                        }
                        assert(command_built(
                            *old(self),
                            vm_slot,
                            commands@,
                            payloads@,
                            result_buf_size,
                            n as int,
                            job.frag@,
                            job.vtx@,
                            results@,
                            i as int,
                        ));
                    }
                },
                Err(e) => {
                    proof {
                        lemma_submit_state_none(
                            *old(self),
                            commands@,
                            payloads@,
                            result_buf_size,
                            i + 1,
                            n as int,
                        );
                        lemma_submit_refusal_stays(
                            *old(self),
                            commands@,
                            payloads@,
                            result_buf_size,
                            i + 1,
                            n as int,
                        );
                    }
                    return Err(e);
                },
            }
            i = i + 1;
        }
        *self = queue;
        Ok(Submission { job, results, in_syncs, out_syncs })
    }
}

} // verus!
