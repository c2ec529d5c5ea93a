//! The bidirectional pipe: which objects are asked of the NT kernel, in which order, and
//! what a refusal leads to.
//!
//! The pipe has two ends. The client end is handed to the pseudoconsole, which reads its
//! input from it and writes its output to it. The server end stays with the program.

use crate::status::check_nt;
use crate::status::hresult_of_nt;
use crate::status::outcome_of;
use crate::status::WinError;
use vstd::prelude::*;

verus! {

/// How many bytes the pipe buffers in each direction.
pub const BUFFER_SIZE: u32 = 131_072;

/// The default timeout of the pipe, in units of 100 ns, relative to now.
pub const DEFAULT_TIMEOUT: i64 = -1_000_000_000;

/// The directory under which the kernel keeps named pipes.
pub const PIPE_DEVICE: &'static str = "\\Device\\NamedPipe\\";

/// The name of an object that is asked for.
#[derive(Clone, Copy, Debug, PartialEq, Eq, Structural)]
pub enum ObjectName {
    /// [`PIPE_DEVICE`].
    PipeDevice,
    /// The empty name, which stands for the root object itself.
    Empty,
}

/// The rights that are asked for on an object.
#[derive(Clone, Copy, Debug, PartialEq, Eq, Structural)]
pub struct Access {
    pub read: bool,
    pub write: bool,
    pub synchronize: bool,
}

/// What others may do with an object while it is open.
#[derive(Clone, Copy, Debug, PartialEq, Eq, Structural)]
pub struct Share {
    pub read: bool,
    pub write: bool,
}

/// Whether an object must exist or must not.
#[derive(Clone, Copy, Debug, PartialEq, Eq, Structural)]
pub enum Disposition {
    OpenExisting,
    CreateNew,
}

/// The options of an open or a creation. Without any, the object is overlapped: a call on
/// it may return before it is complete.
#[derive(Clone, Copy, Debug, PartialEq, Eq, Structural)]
pub struct Options {
    /// Calls on the object wait for completion.
    pub synchronous: bool,
    /// The object must not be a directory.
    pub non_directory: bool,
}

/// How a pipe carries what is written to it.
#[derive(Clone, Copy, Debug, PartialEq, Eq, Structural)]
pub enum Format {
    ByteStream,
    Messages,
}

/// What a pipe does with a call that cannot be carried out at once.
#[derive(Clone, Copy, Debug, PartialEq, Eq, Structural)]
pub enum Completion {
    /// The call is queued.
    Queue,
    /// The call is completed with what there is.
    Complete,
}

/// A request to open an object.
#[derive(Clone, Copy, Debug, PartialEq, Eq, Structural)]
pub struct OpenRequest {
    pub root: Option<usize>,
    pub name: ObjectName,
    pub case_insensitive: bool,
    pub access: Access,
    /// How many bytes are set aside for the object, where a number is given.
    pub allocation_size: Option<i64>,
    pub file_attributes: u32,
    pub share: Share,
    pub disposition: Disposition,
    pub options: Options,
    /// The address of the extended attributes, where there are any.
    pub extended_attributes: Option<usize>,
    pub extended_attributes_length: u32,
}

/// A request for the server end of a pipe.
#[derive(Clone, Copy, Debug, PartialEq, Eq, Structural)]
pub struct ServerRequest {
    pub root: Option<usize>,
    pub name: ObjectName,
    pub case_insensitive: bool,
    pub access: Access,
    pub share: Share,
    pub disposition: Disposition,
    pub options: Options,
    pub pipe_type: Format,
    pub read_mode: Format,
    pub completion: Completion,
    pub max_instances: u32,
    pub inbound_quota: u32,
    pub outbound_quota: u32,
    pub timeout: i64,
}

/// What is to be done next.
#[derive(Clone, Copy, Debug, PartialEq, Eq, Structural)]
pub enum PipeAction {
    Open(OpenRequest),
    CreateServer(ServerRequest),
    Close { handle: usize },
    Done { client: usize, server: usize },
    Fail { error: WinError },
}

/// How far the pipe has come. A refused call ends the attempt; what was opened before it
/// stays open.
#[derive(Clone, Copy, Debug, PartialEq, Eq, Structural)]
pub enum PipeSetup {
    OpeningDevice,
    CreatingServer { device: usize },
    OpeningClient { device: usize, server: usize },
    ClosingDevice { device: usize, client: usize, server: usize },
    Ready { client: usize, server: usize },
    Failed { error: WinError },
}

/// Open for reading and writing to all.
pub open spec fn shared() -> Share {
    Share { read: true, write: true }
}

/// The rights on either end of the pipe.
pub open spec fn end_access() -> Access {
    Access { read: true, write: true, synchronize: true }
}

impl PipeSetup {
    /// What is to be done at this point.
    pub open spec fn pending(self) -> PipeAction {
        match self {
            PipeSetup::OpeningDevice => PipeAction::Open(
                OpenRequest {
                    root: None,
                    name: ObjectName::PipeDevice,
                    case_insensitive: false,
                    access: Access { read: true, write: false, synchronize: true },
                    allocation_size: None,
                    file_attributes: 0,
                    share: Share { read: true, write: true },
                    disposition: Disposition::OpenExisting,
                    options: Options { synchronous: true, non_directory: false },
                    extended_attributes: None,
                    extended_attributes_length: 0,
                },
            ),
            PipeSetup::CreatingServer { device } => PipeAction::CreateServer(
                ServerRequest {
                    root: Some(device),
                    name: ObjectName::Empty,
                    case_insensitive: true,
                    access: end_access(),
                    share: Share { read: true, write: true },
                    disposition: Disposition::CreateNew,
                    options: Options { synchronous: false, non_directory: false },
                    pipe_type: Format::ByteStream,
                    read_mode: Format::ByteStream,
                    completion: Completion::Queue,
                    max_instances: 1,
                    inbound_quota: BUFFER_SIZE,
                    outbound_quota: BUFFER_SIZE,
                    timeout: DEFAULT_TIMEOUT,
                },
            ),
            PipeSetup::OpeningClient { device, server } => PipeAction::Open(
                OpenRequest {
                    root: Some(server),
                    name: ObjectName::Empty,
                    case_insensitive: true,
                    access: end_access(),
                    allocation_size: None,
                    file_attributes: 0,
                    share: Share { read: true, write: true },
                    disposition: Disposition::OpenExisting,
                    options: Options { synchronous: false, non_directory: true },
                    extended_attributes: None,
                    extended_attributes_length: 0,
                },
            ),
            PipeSetup::ClosingDevice { device, client, server } => PipeAction::Close {
                handle: device,
            },
            PipeSetup::Ready { client, server } => PipeAction::Done { client, server },
            PipeSetup::Failed { error } => PipeAction::Fail { error },
        }
    }

    /// Where the answer to the pending action leads: the status that the call returned
    /// and the handle that it produced. Whether a handle could be closed is of no account.
    pub open spec fn after(self, status: i32, handle: usize) -> PipeSetup {
        match self {
            PipeSetup::ClosingDevice { device, client, server } => PipeSetup::Ready {
                client,
                server,
            },
            PipeSetup::Ready { .. } => self,
            PipeSetup::Failed { .. } => self,
            _ => match outcome_of(hresult_of_nt(status)) {
                Err(error) => PipeSetup::Failed { error },
                Ok(()) => match self {
                    PipeSetup::OpeningDevice => PipeSetup::CreatingServer { device: handle },
                    PipeSetup::CreatingServer { device } => PipeSetup::OpeningClient {
                        device,
                        server: handle,
                    },
                    PipeSetup::OpeningClient { device, server } => PipeSetup::ClosingDevice {
                        device,
                        client: handle,
                        server,
                    },
                    _ => self,
                },
            },
        }
    }

    /// A pipe of which nothing exists yet.
    pub fn new() -> (setup: PipeSetup)
        ensures
            setup == PipeSetup::OpeningDevice,
    {
        PipeSetup::OpeningDevice
    }

    /// Says what is to be done next.
    pub fn action(&self) -> (action: PipeAction)
        ensures
            action == self.pending(),
    {
        let both = Access { read: true, write: true, synchronize: true };
        match *self {
            PipeSetup::OpeningDevice => PipeAction::Open(
                OpenRequest {
                    root: None,
                    name: ObjectName::PipeDevice,
                    case_insensitive: false,
                    access: Access { read: true, write: false, synchronize: true },
                    allocation_size: None,
                    file_attributes: 0,
                    share: Share { read: true, write: true },
                    disposition: Disposition::OpenExisting,
                    options: Options { synchronous: true, non_directory: false },
                    extended_attributes: None,
                    extended_attributes_length: 0,
                },
            ),
            PipeSetup::CreatingServer { device } => PipeAction::CreateServer(
                ServerRequest {
                    root: Some(device),
                    name: ObjectName::Empty,
                    case_insensitive: true,
                    access: both,
                    share: Share { read: true, write: true },
                    disposition: Disposition::CreateNew,
                    options: Options { synchronous: false, non_directory: false },
                    pipe_type: Format::ByteStream,
                    read_mode: Format::ByteStream,
                    completion: Completion::Queue,
                    max_instances: 1,
                    inbound_quota: BUFFER_SIZE,
                    outbound_quota: BUFFER_SIZE,
                    timeout: DEFAULT_TIMEOUT,
                },
            ),
            PipeSetup::OpeningClient { device: _, server } => PipeAction::Open(
                OpenRequest {
                    root: Some(server),
                    name: ObjectName::Empty,
                    case_insensitive: true,
                    access: both,
                    allocation_size: None,
                    file_attributes: 0,
                    share: Share { read: true, write: true },
                    disposition: Disposition::OpenExisting,
                    options: Options { synchronous: false, non_directory: true },
                    extended_attributes: None,
                    extended_attributes_length: 0,
                },
            ),
            PipeSetup::ClosingDevice { device, client: _, server: _ } => PipeAction::Close {
                handle: device,
            },
            PipeSetup::Ready { client, server } => PipeAction::Done { client, server },
            PipeSetup::Failed { error } => PipeAction::Fail { error },
        }
    }

    /// Takes the answer to the pending action.
    pub fn reply(&mut self, status: i32, handle: usize)
        ensures
            *final(self) == old(self).after(status, handle),
    {
        *self = match *self {
            PipeSetup::ClosingDevice { device: _, client, server } => PipeSetup::Ready {
                client,
                server,
            },
            PipeSetup::Ready { client, server } => PipeSetup::Ready { client, server },
            PipeSetup::Failed { error } => PipeSetup::Failed { error },
            PipeSetup::OpeningDevice => match check_nt(status) {
                Ok(()) => PipeSetup::CreatingServer { device: handle },
                Err(error) => PipeSetup::Failed { error },
            },
            PipeSetup::CreatingServer { device } => match check_nt(status) {
                Ok(()) => PipeSetup::OpeningClient { device, server: handle },
                Err(error) => PipeSetup::Failed { error },
            },
            PipeSetup::OpeningClient { device, server } => match check_nt(status) {
                Ok(()) => PipeSetup::ClosingDevice { device, client: handle, server },
                Err(error) => PipeSetup::Failed { error },
            },
        };
    }
}

/// The pipe is ready exactly where the three kernel calls succeeded; its client and server
/// are then the handles of the third and the second, and the first was closed in between.
/// Otherwise it failed with the error of the first call that did.
pub proof fn pipe_needs_all_three(
    device: (i32, usize),
    server: (i32, usize),
    client: (i32, usize),
    closed: i32,
    ignored: usize,
)
    ensures
        ({
            let s1 = PipeSetup::OpeningDevice.after(device.0, device.1);
            let s2 = s1.after(server.0, server.1);
            let s3 = s2.after(client.0, client.1);
            let end = s3.after(closed, ignored);
            if device.0 < 0 {
                end == (PipeSetup::Failed { error: WinError { code: hresult_of_nt(device.0) } })
            } else if server.0 < 0 {
                end == (PipeSetup::Failed { error: WinError { code: hresult_of_nt(server.0) } })
            } else if client.0 < 0 {
                end == (PipeSetup::Failed { error: WinError { code: hresult_of_nt(client.0) } })
            } else {
                &&& s3.pending() == (PipeAction::Close { handle: device.1 })
                &&& end == (PipeSetup::Ready { client: client.1, server: server.1 })
            }
        }),
{
    crate::status::nt_failure_is_kept(device.0);
    crate::status::nt_failure_is_kept(server.0);
    crate::status::nt_failure_is_kept(client.0);
}

/// The server is made in the directory that was opened, and the client is opened on the
/// server. Each end can be read and written and is shared for both, and the pipe between
/// them is a stream of bytes in either direction.
pub proof fn ends_belong_together(device: usize, server: usize)
    ensures
        (PipeSetup::CreatingServer { device }).pending() matches PipeAction::CreateServer(made) && {
            &&& made.root == Some(device)
            &&& made.access == end_access()
            &&& made.share == shared()
            &&& made.pipe_type == Format::ByteStream
            &&& made.read_mode == Format::ByteStream
        },
        (PipeSetup::OpeningClient { device, server }).pending() matches PipeAction::Open(opened) && {
            &&& opened.root == Some(server)
            &&& opened.access == end_access()
            &&& opened.share == shared()
        },
{
}

} // verus!
