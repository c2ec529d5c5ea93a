//! The processes that are started: bash on the pseudoconsole, and `cat` for the result.

use crate::heredoc::RESULT;
use crate::report::texts;
use crate::status::WinError;
use crate::wide::utf16;
use crate::wide::wide_nul;
use vstd::prelude::*;

verus! {

/// The program that runs commands in a distribution from outside the pseudoconsole.
pub const WSL_EXE: &'static str = "C:\\Windows\\System32\\wsl.exe";

/// The command line that runs bash, in a named distribution or in the default one.
pub open spec fn bash_command(distro: Option<Seq<char>>) -> Seq<char> {
    match distro {
        Some(name) => "wsl.exe --distribution "@ + name + " -- bash --norc --noprofile"@,
        None => "wsl.exe -- bash --norc --noprofile"@,
    }
}

/// Writes the command line that runs bash.
pub fn command_line(distro: Option<&str>) -> (command: String)
    ensures
        command@ == bash_command(
            (match distro {
                Some(name) => Some(name@),
                None => None,
            }),
        ),
{
    match distro {
        Some(name) => {
            let mut command = "wsl.exe --distribution ".to_owned();
            command.append(name);
            command.append(" -- bash --norc --noprofile");
            command
        },
        None => "wsl.exe -- bash --norc --noprofile".to_owned(),
    }
}

/// Writes the command line that runs bash as a terminated UTF-16 string.
pub fn command_units(distro: Option<&str>) -> (units: Vec<u16>)
    ensures
        units@ == utf16(
            bash_command(
                (match distro {
                    Some(name) => Some(name@),
                    None => None,
                }),
            ),
        ).push(0),
{
    let command = command_line(distro);
    wide_nul(command.as_str())
}

/// The arguments with which `wsl.exe` prints the result file.
pub open spec fn cat_arguments(distro: Option<Seq<char>>) -> Seq<Seq<char>> {
    let cat = seq!["--"@, "cat"@, RESULT@];
    match distro {
        Some(name) => seq!["--distribution"@, name] + cat,
        None => cat,
    }
}

/// Lists the arguments with which `wsl.exe` prints the result file.
pub fn cat_args(distro: Option<&str>) -> (args: Vec<String>)
    ensures
        texts(args@) == cat_arguments(
            (match distro {
                Some(name) => Some(name@),
                None => None,
            }),
        ),
{
    let mut args: Vec<String> = Vec::new();
    if let Some(name) = distro {
        args.push("--distribution".to_owned());
        args.push(name.to_owned());
    }
    args.push("--".to_owned());
    args.push("cat".to_owned());
    args.push(RESULT.to_owned());
    assert(texts(args@) =~= cat_arguments(
        (match distro {
            Some(name) => Some(name@),
            None => None,
        }),
    ));
    args
}

/// A command line without a NUL in the distribution's name reaches the system whole.
pub proof fn command_is_read_whole(distro: Option<Seq<char>>)
    requires
        distro matches Some(name) ==> !name.contains('\0'),
    ensures
        crate::wide::until_nul(utf16(bash_command(distro)).push(0)) == utf16(bash_command(distro)),
{
    reveal_strlit("wsl.exe --distribution ");
    reveal_strlit(" -- bash --norc --noprofile");
    reveal_strlit("wsl.exe -- bash --norc --noprofile");
    let command = bash_command(distro);
    assert forall|i: int| 0 <= i < command.len() implies command[i] != '\0' by {
        if let Some(name) = distro {
            let before = "wsl.exe --distribution "@.len();
            if before <= i < before + name.len() {
                assert(command[i] == name[i - before]);
            }
        }
    }
    crate::wide::terminator_ends_the_text(command);
}

/// A process that was started.
#[derive(Clone, Copy, Debug, PartialEq, Eq, Structural)]
pub struct Child {
    pub process: usize,
    pub thread: usize,
    pub pid: u32,
}

/// The size that the startup information gives for itself.
#[derive(Clone, Copy, Debug, PartialEq, Eq, Structural)]
pub enum StartupSize {
    /// That of the plain structure.
    Plain,
    /// That of the structure that ends in a list of attributes.
    Extended,
}

/// How the process is created. What is an address is absent where the system is to choose:
/// the program is then the one that the command line names, and the environment and the
/// directory are those of the caller.
#[derive(Clone, Copy, Debug, PartialEq, Eq, Structural)]
pub struct ProcessRequest {
    pub application: Option<usize>,
    pub process_security: Option<usize>,
    pub thread_security: Option<usize>,
    /// Whether the process gets the handles that are marked for it.
    pub inherit_handles: bool,
    /// Whether the startup information holds a list of attributes.
    pub extended_startup_info: bool,
    /// Whether the environment is in UTF-16.
    pub unicode_environment: bool,
    pub environment: Option<usize>,
    pub directory: Option<usize>,
    pub startup_size: StartupSize,
    /// The list of attributes.
    pub list: usize,
}

/// How a pseudoconsole is put on a list of attributes.
#[derive(Clone, Copy, Debug, PartialEq, Eq, Structural)]
pub struct AttachRequest {
    pub list: usize,
    pub flags: u32,
    /// The console, which is the value of the attribute.
    pub pty: isize,
    /// How many bytes the value has.
    pub size: usize,
    pub previous_value: Option<usize>,
    pub return_size: Option<usize>,
}

/// The request with which a pseudoconsole is put on a list.
pub open spec fn attach_request(list: usize, pty: isize) -> AttachRequest {
    AttachRequest {
        list,
        flags: 0,
        pty,
        size: core::mem::size_of::<isize>(),
        previous_value: None,
        return_size: None,
    }
}

/// The request with which bash is created.
pub open spec fn bash_request(list: usize) -> ProcessRequest {
    ProcessRequest {
        application: None,
        process_security: None,
        thread_security: None,
        inherit_handles: false,
        extended_startup_info: true,
        unicode_environment: true,
        environment: None,
        directory: None,
        startup_size: StartupSize::Extended,
        list,
    }
}

/// What is to be done next to start bash.
#[derive(Clone, Copy, Debug, PartialEq, Eq)]
pub enum SpawnAction {
    /// Ask how many bytes a list of this many attributes takes.
    MeasureAttributes { count: u32, flags: Option<u32> },
    /// Initialise a list of this many attributes in a zeroed buffer.
    InitializeAttributes { count: u32, flags: Option<u32>, bytes: usize },
    /// Put the pseudoconsole on the list.
    AttachConsole { request: AttachRequest },
    /// Create the process with the list.
    CreateProcess { request: ProcessRequest },
    /// Delete the list where one was initialised, and hand on what came of it.
    Finish { delete: Option<usize>, outcome: Result<Child, WinError> },
}

/// How far bash has come.
#[derive(Clone, Copy, Debug, PartialEq, Eq)]
pub enum Spawn {
    Measuring,
    Initializing { bytes: usize },
    Attaching { list: usize },
    Creating { list: usize },
    Ended { list: Option<usize>, outcome: Result<Child, WinError> },
}

/// The answer to an action.
#[derive(Clone, Copy, Debug, PartialEq, Eq, Structural)]
pub enum SpawnReply {
    /// How many bytes the list takes. That the call reports a failure is expected.
    Measured { bytes: usize },
    /// The list was initialised at this address.
    Initialized { list: usize },
    Attached,
    Created { child: Child },
    Failed { error: WinError },
}

impl Spawn {
    /// What is to be done at this point.
    pub open spec fn pending(self, pty: isize) -> SpawnAction {
        match self {
            Spawn::Measuring => SpawnAction::MeasureAttributes { count: 1, flags: None },
            Spawn::Initializing { bytes } => SpawnAction::InitializeAttributes {
                count: 1,
                flags: None,
                bytes,
            },
            Spawn::Attaching { list } => SpawnAction::AttachConsole {
                request: attach_request(list, pty),
            },
            Spawn::Creating { list } => SpawnAction::CreateProcess { request: bash_request(list) },
            Spawn::Ended { list, outcome } => SpawnAction::Finish { delete: list, outcome },
        }
    }

    /// Where an answer leads. One that does not fit the pending action changes nothing.
    pub open spec fn after(self, reply: SpawnReply) -> Spawn {
        match (self, reply) {
            (Spawn::Measuring, SpawnReply::Measured { bytes }) => Spawn::Initializing { bytes },
            (Spawn::Initializing { .. }, SpawnReply::Initialized { list }) => Spawn::Attaching {
                list,
            },
            (Spawn::Initializing { .. }, SpawnReply::Failed { error }) => Spawn::Ended {
                list: None,
                outcome: Err(error),
            },
            (Spawn::Attaching { list }, SpawnReply::Attached) => Spawn::Creating { list },
            (Spawn::Attaching { list }, SpawnReply::Failed { error }) => Spawn::Ended {
                list: Some(list),
                outcome: Err(error),
            },
            (Spawn::Creating { list }, SpawnReply::Created { child }) => Spawn::Ended {
                list: Some(list),
                outcome: Ok(child),
            },
            (Spawn::Creating { list }, SpawnReply::Failed { error }) => Spawn::Ended {
                list: Some(list),
                outcome: Err(error),
            },
            _ => self,
        }
    }

    /// A process of which nothing exists yet.
    pub fn new() -> (spawn: Spawn)
        ensures
            spawn == Spawn::Measuring,
    {
        Spawn::Measuring
    }

    /// Says what is to be done next to start bash on the console `pty`.
    pub fn action(&self, pty: isize) -> (action: SpawnAction)
        ensures
            action == self.pending(pty),
    {
        match *self {
            Spawn::Measuring => SpawnAction::MeasureAttributes { count: 1, flags: None },
            Spawn::Initializing { bytes } => SpawnAction::InitializeAttributes {
                count: 1,
                flags: None,
                bytes,
            },
            Spawn::Attaching { list } => SpawnAction::AttachConsole {
                request: AttachRequest {
                    list,
                    flags: 0,
                    pty,
                    size: core::mem::size_of::<isize>(),
                    previous_value: None,
                    return_size: None,
                },
            },
            Spawn::Creating { list } => SpawnAction::CreateProcess {
                request: ProcessRequest {
                    application: None,
                    process_security: None,
                    thread_security: None,
                    inherit_handles: false,
                    extended_startup_info: true,
                    unicode_environment: true,
                    environment: None,
                    directory: None,
                    startup_size: StartupSize::Extended,
                    list,
                },
            },
            Spawn::Ended { list, outcome } => SpawnAction::Finish { delete: list, outcome },
        }
    }

    /// Takes the answer to the pending action.
    pub fn reply(&mut self, reply: SpawnReply)
        ensures
            *final(self) == old(self).after(reply),
    {
        match (*self, reply) {
            (Spawn::Measuring, SpawnReply::Measured { bytes }) => {
                *self = Spawn::Initializing { bytes };
            },
            (Spawn::Initializing { bytes: _ }, SpawnReply::Initialized { list }) => {
                *self = Spawn::Attaching { list };
            },
            (Spawn::Initializing { bytes: _ }, SpawnReply::Failed { error }) => {
                *self = Spawn::Ended { list: None, outcome: Err(error) };
            },
            (Spawn::Attaching { list }, SpawnReply::Attached) => {
                *self = Spawn::Creating { list };
            },
            (Spawn::Attaching { list }, SpawnReply::Failed { error }) => {
                *self = Spawn::Ended { list: Some(list), outcome: Err(error) };
            },
            (Spawn::Creating { list }, SpawnReply::Created { child }) => {
                *self = Spawn::Ended { list: Some(list), outcome: Ok(child) };
            },
            (Spawn::Creating { list }, SpawnReply::Failed { error }) => {
                *self = Spawn::Ended { list: Some(list), outcome: Err(error) };
            },
            _ => {},
        }
    }

    /// Where a number of answers lead, one after the other.
    pub open spec fn after_all(self, replies: Seq<SpawnReply>) -> Spawn
        decreases replies.len(),
    {
        if replies.len() == 0 {
            self
        } else {
            self.after_all(replies.drop_last()).after(replies.last())
        }
    }
}

/// The buffer in which a list of attributes is initialised.
pub fn attribute_buffer(bytes: usize) -> (buffer: Vec<u8>)
    ensures
        buffer@ == Seq::new(bytes as nat, |i: int| 0u8),
{
    let buffer: Vec<u8> = vec![0u8; bytes];
    assert(buffer@ =~= Seq::new(bytes as nat, |i: int| 0u8));
    buffer
}

/// Whether answer `k` is the one that says that the list was initialised at this address.
pub open spec fn initialized_at(replies: Seq<SpawnReply>, k: int, list: usize) -> bool {
    &&& 0 <= k < replies.len()
    &&& Spawn::Measuring.after_all(replies.take(k)) is Initializing
    &&& replies[k] == (SpawnReply::Initialized { list })
}

/// Whether answer `k` is the one that says that the console was put on the list at this
/// address.
pub open spec fn attached_at(replies: Seq<SpawnReply>, k: int, list: usize, pty: isize) -> bool {
    &&& 0 <= k < replies.len()
    &&& Spawn::Measuring.after_all(replies.take(k)).pending(pty) == (SpawnAction::AttachConsole {
        request: attach_request(list, pty),
    })
    &&& replies[k] == SpawnReply::Attached
}

impl Spawn {
    /// The list that was initialised and not deleted yet.
    pub open spec fn live_list(self) -> Option<usize> {
        match self {
            Spawn::Measuring => None,
            Spawn::Initializing { .. } => None,
            Spawn::Attaching { list } => Some(list),
            Spawn::Creating { list } => Some(list),
            Spawn::Ended { list, outcome } => list,
        }
    }

    /// The list that holds the console.
    spec fn console_list(self) -> Option<usize> {
        match self {
            Spawn::Creating { list } => Some(list),
            Spawn::Ended { list, outcome: Ok(child) } => list,
            _ => None,
        }
    }
}

proof fn lemma_initialized(replies: Seq<SpawnReply>, list: usize)
    ensures
        (exists|k: int| initialized_at(replies, k, list)) <==> Spawn::Measuring.after_all(
            replies,
        ).live_list() == Some(list),
        Spawn::Measuring.after_all(replies) matches Spawn::Ended { list, outcome } ==> (outcome is Ok
            ==> list is Some),
    decreases replies.len(),
{
    if replies.len() > 0 {
        let before = replies.drop_last();
        lemma_initialized(before, list);
        let n = before.len() as int;
        assert(replies.take(n) =~= before);
        assert forall|k: int| 0 <= k < n implies initialized_at(before, k, list) == initialized_at(
            replies,
            k,
            list,
        ) by {
            assert(replies.take(k) =~= before.take(k));
        }
        if exists|k: int| initialized_at(before, k, list) {
            let k = choose|k: int| initialized_at(before, k, list);
            assert(initialized_at(replies, k, list));
        }
        if exists|k: int| initialized_at(replies, k, list) {
            let k = choose|k: int| initialized_at(replies, k, list);
            if k < n {
                assert(initialized_at(before, k, list));
            }
        }
        if Spawn::Measuring.after_all(before) is Initializing && replies.last() == (
        SpawnReply::Initialized { list }) {
            assert(initialized_at(replies, n, list));
        }
    }
}

/// Whatever the answers are, a list is deleted at the end exactly where it was initialised,
/// and a process only exists where one was.
pub proof fn list_is_deleted_if_initialized(replies: Seq<SpawnReply>, list: usize, pty: isize)
    ensures
        Spawn::Measuring.after_all(replies).pending(pty) matches SpawnAction::Finish {
            delete,
            outcome,
        } ==> {
            &&& delete == Some(list) <==> exists|k: int| initialized_at(replies, k, list)
            &&& outcome is Ok ==> delete is Some
        },
{
    lemma_initialized(replies, list);
}

proof fn lemma_attached(replies: Seq<SpawnReply>, list: usize, pty: isize)
    requires
        Spawn::Measuring.after_all(replies).console_list() == Some(list),
    ensures
        exists|k: int| attached_at(replies, k, list, pty),
    decreases replies.len(),
{
    if replies.len() > 0 {
        let before = replies.drop_last();
        let n = before.len() as int;
        assert(replies.take(n) =~= before);
        if Spawn::Measuring.after_all(before) is Attaching {
            assert(attached_at(replies, n, list, pty));
        } else {
            lemma_attached(before, list, pty);
            let k = choose|k: int| attached_at(before, k, list, pty);
            assert(replies.take(k) =~= before.take(k));
            assert(attached_at(replies, k, list, pty));
        }
    }
}

/// The process is created with a list that was initialised, is not deleted yet and holds the
/// console.
pub proof fn process_gets_the_console(replies: Seq<SpawnReply>, pty: isize)
    ensures
        Spawn::Measuring.after_all(replies).pending(pty) matches SpawnAction::CreateProcess {
            request,
        } ==> {
            &&& Spawn::Measuring.after_all(replies).live_list() == Some(request.list)
            &&& exists|k: int| initialized_at(replies, k, request.list)
            &&& exists|k: int| attached_at(replies, k, request.list, pty)
        },
{
    if let SpawnAction::CreateProcess { request } = Spawn::Measuring.after_all(replies).pending(
        pty,
    ) {
        lemma_initialized(replies, request.list);
        lemma_attached(replies, request.list, pty);
    }
}

} // verus!
