use vstd::prelude::*;

verus! {

use crate::error::{Error, Result};

#[verifier::external_type_specification]
#[verifier::external_body]
#[verifier::reject_recursive_types(T)]
pub struct ExSender<T>(flume::Sender<T>);

/// A file that a report writer wants written under the report directory.
#[derive(Debug, Clone, PartialEq, Eq)]
pub struct WriteRequest {
    pub path: String,
    pub content: Vec<u8>,
}

/// What the writer does after the policy has seen a request.
#[derive(Debug, Clone, PartialEq, Eq)]
pub enum WriteInstruction {
    /// Write the file to the working directory.
    DoWrite(WriteRequest),
    /// Leave the working directory alone.
    Skip,
}

/// The sending side of the channel to the git thread, where there is one.
pub type WriteCallbackState = Option<flume::Sender<WriteRequest>>;

/// How report writes reach their destination, chosen once per run.
#[derive(Debug, Clone, Copy, PartialEq, Eq, Structural)]
pub enum WritePolicy {
    /// No git repository: write to the file system only.
    NotAvailable,
    /// A repository with a working tree: hand the write to git and write the file.
    RepoWithWorkingDir,
    /// A bare repository: hand the write to git only.
    RepoBare,
}

/// Relies on `flume::Sender::send`: it blocks while the bounded channel is full and
/// fails, handing the message back, only when every receiver is gone.
#[verifier::external_body]
fn send_request(tx: &flume::Sender<WriteRequest>, req: WriteRequest) -> (sent: bool) {
    tx.send(req).is_ok()
}

/// A copy of a write request: the same path and the same bytes.
pub fn copy_request(r: &WriteRequest) -> (c: WriteRequest)
    ensures
        c.path == r.path,
        c.content@ == r.content@,
{
    let mut content: Vec<u8> = Vec::with_capacity(r.content.len());
    let mut i: usize = 0;
    while i < r.content.len()
        invariant
            i <= r.content@.len(),
            content@ == r.content@.take(i as int),
        decreases r.content@.len() - i,
    {
        content.push(r.content[i]);
        i = i + 1;
        assert(content@ =~= r.content@.take(i as int));
    }
    assert(r.content@.take(i as int) =~= r.content@);
    WriteRequest { path: r.path.clone(), content }
}

/// The result of a policy once its request went to the git thread (`sent`) or could
/// not (the thread is gone).
pub fn after_send(sent: bool, instruction: WriteInstruction) -> (r: Result<WriteInstruction>)
    ensures
        r == if sent {
            Ok::<WriteInstruction, Error>(instruction)
        } else {
            Err::<WriteInstruction, Error>(Error::GitChannelClosed)
        },
{
    if sent {
        Ok(instruction)
    } else {
        Err(Error::GitChannelClosed)
    }
}

/// Forwards a copy of `req` to the git thread and asks for the file to be written as
/// well.
pub fn repo_with_working_dir(req: WriteRequest, send: &WriteCallbackState) -> (r: Result<WriteInstruction>)
    requires
        send is Some,
    ensures
        r matches Ok(i) ==> i == WriteInstruction::DoWrite(req),
        r matches Err(e) ==> e == Error::GitChannelClosed,
{
    match send {
        Some(tx) => {
            let copy = copy_request(&req);
            let sent = send_request(tx, copy);
            after_send(sent, WriteInstruction::DoWrite(req))
        },
        None => Err(Error::GitChannelClosed),
    }
}

/// Forwards `req` to the git thread only.
pub fn repo_bare(req: WriteRequest, send: &WriteCallbackState) -> (r: Result<WriteInstruction>)
    requires
        send is Some,
    ensures
        r matches Ok(i) ==> i == WriteInstruction::Skip,
        r matches Err(e) ==> e == Error::GitChannelClosed,
{
    match send {
        Some(tx) => {
            let sent = send_request(tx, req);
            after_send(sent, WriteInstruction::Skip)
        },
        None => Err(Error::GitChannelClosed),
    }
}

/// Asks for the file to be written; there is no git thread to tell.
pub fn not_available(req: WriteRequest, _state: &WriteCallbackState) -> (r: Result<WriteInstruction>)
    ensures
        r == Ok::<WriteInstruction, Error>(WriteInstruction::DoWrite(req)),
{
    Ok(WriteInstruction::DoWrite(req))
}

impl WritePolicy {
    /// The policy for a report directory: `None` where no git repository opens there,
    /// else whether the repository is bare.
    pub fn select(repo_is_bare: Option<bool>) -> (r: WritePolicy)
        ensures
            r == match repo_is_bare {
                None => WritePolicy::NotAvailable,
                Some(true) => WritePolicy::RepoBare,
                Some(false) => WritePolicy::RepoWithWorkingDir,
            },
    {
        match repo_is_bare {
            None => WritePolicy::NotAvailable,
            Some(true) => WritePolicy::RepoBare,
            Some(false) => WritePolicy::RepoWithWorkingDir,
        }
    }

    /// Whether the policy needs a channel to the git thread.
    pub open spec fn needs_channel(self) -> bool {
        self != WritePolicy::NotAvailable
    }

    /// Applies the policy to one request.
    pub fn dispatch(&self, req: WriteRequest, state: &WriteCallbackState) -> (r: Result<WriteInstruction>)
        requires
            self.needs_channel() ==> state is Some,
        ensures
            r matches Ok(i) ==> i == match self {
                WritePolicy::RepoBare => WriteInstruction::Skip,
                _ => WriteInstruction::DoWrite(req),
            },
            r matches Err(e) ==> e == Error::GitChannelClosed && self.needs_channel(),
    {
        match self {
            WritePolicy::NotAvailable => not_available(req, state),
            WritePolicy::RepoWithWorkingDir => repo_with_working_dir(req, state),
            WritePolicy::RepoBare => repo_bare(req, state),
        }
    }
}

/// The most crates in one report job.
pub const MAX_CHUNK_SIZE: u32 = 500;

/// The number of crates per report job for a store of `num_crates`.
pub fn chunk_size(num_crates: u32) -> (r: u32)
    ensures
        r == if num_crates < MAX_CHUNK_SIZE { num_crates } else { MAX_CHUNK_SIZE },
{
    if num_crates < MAX_CHUNK_SIZE {
        num_crates
    } else {
        MAX_CHUNK_SIZE
    }
}

/// Where the report driver stands in its paging through the crates table.
#[derive(Debug, Clone, Copy, PartialEq, Eq, Structural)]
pub struct ChunkCursor {
    /// Rows fetched so far, the offset of the next page.
    pub fetched: u64,
    /// Rows asked for per page.
    pub chunk_size: u32,
}

impl ChunkCursor {
    pub fn new(chunk_size: u32) -> (r: ChunkCursor)
        ensures
            r.fetched == 0,
            r.chunk_size == chunk_size,
    {
        ChunkCursor { fetched: 0, chunk_size }
    }

    /// Accounts for a page of `len` rows, which is dispatched as one job. Returns
    /// whether it was the last: a page shorter than asked for, or an empty one.
    pub fn after_chunk(&mut self, len: u32) -> (last: bool)
        requires
            len <= old(self).chunk_size,
            old(self).fetched + len <= u64::MAX,
        ensures
            final(self).fetched == old(self).fetched + len,
            final(self).chunk_size == old(self).chunk_size,
            last == (len < old(self).chunk_size || len == 0),
    {
        self.fetched = self.fetched + len as u64;
        len < self.chunk_size || len == 0
    }
}

pub open spec fn sum(s: Seq<u32>) -> int
    decreases s.len(),
{
    if s.len() == 0 {
        0
    } else {
        sum(s.drop_last()) + s.last()
    }
}

/// The sizes of the jobs that the report driver dispatches for a table of
/// `num_crates` rows, in order.
pub fn plan_chunks(num_crates: u32) -> (r: Vec<u32>)
    ensures
        r@.len() >= 1,
        sum(r@) == num_crates,
        forall|i: int| 0 <= i < r@.len() - 1 ==> r@[i] == chunk_size_spec(num_crates),
        r@.last() < chunk_size_spec(num_crates) || r@.last() == 0,
{
    let size = chunk_size(num_crates);
    let mut cursor = ChunkCursor::new(size);
    let mut sizes: Vec<u32> = Vec::new();
    loop
        invariant
            cursor.chunk_size == size,
            size == chunk_size_spec(num_crates),
            cursor.fetched == sum(sizes@),
            cursor.fetched <= num_crates,
            forall|i: int| 0 <= i < sizes@.len() ==> sizes@[i] == size,
        decreases num_crates - cursor.fetched + 1,
    {
        let remaining: u32 = (num_crates as u64 - cursor.fetched) as u32;
        let len: u32 = if remaining < size { remaining } else { size };
        let ghost before = sizes@;
        sizes.push(len);
        assert(sizes@.drop_last() =~= before);
        if cursor.after_chunk(len) {
            return sizes;
        }
    }
}

pub open spec fn chunk_size_spec(num_crates: u32) -> u32 {
    if num_crates < MAX_CHUNK_SIZE { num_crates } else { MAX_CHUNK_SIZE }
}

} // verus!
