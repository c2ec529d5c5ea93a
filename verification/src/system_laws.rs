//! What holds of every request that is made of the system: where the library is looked for,
//! how the pipe is made, and how bash is started.

use crate::conpty::candidate_paths;
use crate::conpty::DllLoad;
use crate::conpty::LoadAction;
use crate::conpty::LoadReply;
use crate::conpty::SearchView;
use crate::conpty::Sibling;
use crate::conpty::Symbol;
use crate::pipe::Completion;
use crate::pipe::Disposition;
use crate::pipe::Format;
use crate::pipe::ObjectName;
use crate::pipe::PipeAction;
use crate::pipe::PipeSetup;
use crate::spawn::bash_command;
use crate::spawn::cat_arguments;
use crate::spawn::Child;
use crate::spawn::Spawn;
use crate::spawn::SpawnAction;
use crate::spawn::SpawnReply;
use crate::spawn::StartupSize;
use crate::status::hresult_of_nt;
use crate::status::WinError;
use vstd::prelude::*;

verus! {

/// The list has one path for each of the override and the sibling that can be had, and one for
/// each installed copy. An override is the first of all. A sibling stands directly before
/// Windows Terminal's copy, be there an override or not, and WezTerm's copy comes last.
pub proof fn every_copy_has_its_place(
    overriding: Option<Seq<char>>,
    sibling: Sibling,
    local_app_data: Seq<char>,
)
    ensures
        ({
            let paths = candidate_paths(overriding, sibling, local_app_data);
            let n = paths.len() as int;
            &&& n == 2 + (if overriding is Some {
                1int
            } else {
                0
            }) + (if sibling is Path {
                1int
            } else {
                0
            })
            &&& overriding matches Some(path) ==> paths[0] == path
            &&& sibling matches Sibling::Path(path) ==> paths[n - 3] == path@
            &&& local_app_data.is_prefix_of(paths[n - 2])
            &&& paths[n - 2].skip(local_app_data.len() as int)
                == "\\Microsoft\\WindowsApps\\conpty.dll"@
            &&& paths[n - 1] == "C:\\Program Files\\WezTerm\\conpty.dll"@
        }),
{
    let paths = candidate_paths(overriding, sibling, local_app_data);
    let n = paths.len() as int;
    assert(paths[n - 2].take(local_app_data.len() as int) =~= local_app_data);
    assert(paths[n - 2].skip(local_app_data.len() as int)
        =~= "\\Microsoft\\WindowsApps\\conpty.dll"@);
}

/// An override adds its own path before the others and changes none of them. A sibling that
/// cannot be had takes nothing but its own path from the list, for whichever reason.
pub proof fn one_copy_does_not_hide_another(
    path: Seq<char>,
    sibling: Sibling,
    beside: String,
    local_app_data: Seq<char>,
    overriding: Option<Seq<char>>,
)
    ensures
        candidate_paths(Some(path), sibling, local_app_data) == seq![path] + candidate_paths(
            None,
            sibling,
            local_app_data,
        ),
        candidate_paths(overriding, Sibling::Unknown, local_app_data) == candidate_paths(
            overriding,
            Sibling::NotUnicode,
            local_app_data,
        ),
        ({
            let without = candidate_paths(overriding, Sibling::Unknown, local_app_data);
            candidate_paths(overriding, Sibling::Path(beside), local_app_data) == without.insert(
                without.len() - 2,
                beside@,
            )
        }),
{
    assert(candidate_paths(Some(path), sibling, local_app_data) =~= seq![path] + candidate_paths(
        None,
        sibling,
        local_app_data,
    ));
    let without = candidate_paths(overriding, Sibling::Unknown, local_app_data);
    assert(candidate_paths(overriding, Sibling::Path(beside), local_app_data) =~= without.insert(
        without.len() - 2,
        beside@,
    ));
}

/// A search goes on to the next path exactly where one is left and the last could not be
/// loaded. Once a path was loaded, or none is left, no answer changes it.
pub proof fn search_goes_on_by_one(search: SearchView, loaded: bool)
    ensures
        search.after(loaded).paths == search.paths,
        search.found || search.rejected >= search.paths.len() ==> search.after(loaded) == search,
        !search.found && search.rejected < search.paths.len() ==> {
            &&& search.after(loaded).found == loaded
            &&& search.after(loaded).rejected == search.rejected + if loaded {
                0int
            } else {
                1
            }
        },
{
}

/// An answer that is none to the pending action changes nothing, and neither does any once
/// the attempt to load has ended.
pub proof fn stray_load_replies_are_ignored(load: DllLoad, reply: LoadReply)
    requires
        match load.pending() {
            LoadAction::LoadLibrary => reply is Found || reply is NotFound,
            LoadAction::FindSymbol { .. } => reply is Loaded || reply is NotLoaded,
            LoadAction::Finish { .. } => true,
        },
    ensures
        load.after(reply) == load,
{
}

/// At each point of the attempt to load, one thing is to be done, and for the library that
/// was loaded.
pub proof fn load_asks_for_one_thing(load: DllLoad)
    ensures
        match load {
            DllLoad::Loading => load.pending() == LoadAction::LoadLibrary,
            DllLoad::FindingCreate { module: loaded } => load.pending() matches LoadAction::FindSymbol {
                module,
                symbol,
            } && module == loaded && symbol == Symbol::Create,
            DllLoad::FindingClose { module: loaded, .. } => load.pending() matches LoadAction::FindSymbol {
                module,
                symbol,
            } && module == loaded && symbol == Symbol::Close,
            DllLoad::Ended { outcome: came } => load.pending() matches LoadAction::Finish { outcome }
                && outcome == came,
        },
{
}

/// The command line for a named distribution holds the whole name, whatever it is, between
/// two fixed parts. So two names never share a command line, and none shares that of the
/// default distribution.
pub proof fn whole_name_is_in_the_command(name: Seq<char>, other: Seq<char>)
    ensures
        ({
            let command = bash_command(Some(name));
            let before = "wsl.exe --distribution "@;
            let after = " -- bash --norc --noprofile"@;
            &&& command.len() == before.len() + name.len() + after.len()
            &&& command.take(before.len() as int) == before
            &&& forall|i: int|
                0 <= i < name.len() ==> command[before.len() + i] == #[trigger] name[i]
            &&& command.skip((before.len() + name.len()) as int) == after
        }),
        name != other ==> bash_command(Some(name)) != bash_command(Some(other)),
        bash_command(None) == "wsl.exe -- bash --norc --noprofile"@,
        bash_command(Some(name)) != bash_command(None),
{
    let command = bash_command(Some(name));
    let before = "wsl.exe --distribution "@;
    let after = " -- bash --norc --noprofile"@;
    assert(command.take(before.len() as int) =~= before);
    assert(command.skip((before.len() + name.len()) as int) =~= after);
    if command == bash_command(Some(other)) {
        assert(name.len() == other.len());
        assert forall|i: int| 0 <= i < name.len() implies name[i] == other[i] by {
            assert(command[before.len() + i] == name[i]);
            assert(bash_command(Some(other))[before.len() + i] == other[i]);
        }
        assert(name =~= other);
    }
    reveal_strlit("wsl.exe --distribution ");
    reveal_strlit("wsl.exe -- bash --norc --noprofile");
    assert(command[10] == 'd');
    assert(bash_command(None)[10] == ' ');
}

/// The result file is printed by the same arguments at the end for every distribution. A named
/// one stands whole before them, directly behind its option, so two names never share their
/// arguments, and none shares those of the default distribution.
pub proof fn result_is_printed_from_the_distribution(name: Seq<char>, other: Seq<char>)
    ensures
        ({
            let named = cat_arguments(Some(name));
            let default = cat_arguments(None);
            &&& default == seq!["--"@, "cat"@, "/tmp/wsl_repro.txt"@]
            &&& named.len() == default.len() + 2
            &&& named[0] == "--distribution"@
            &&& named[1] == name
            &&& named.skip(2) == default
            &&& named != default
        }),
        name != other ==> cat_arguments(Some(name)) != cat_arguments(Some(other)),
{
    let named = cat_arguments(Some(name));
    let default = cat_arguments(None);
    assert(named.skip(2) =~= default);
    assert(named[1] == name);
    assert(cat_arguments(Some(other))[1] == other);
}

/// The list of attributes has room for one, and is initialised in as many bytes as were
/// measured.
pub proof fn list_has_room_for_the_console(bytes: usize, pty: isize)
    ensures
        Spawn::Measuring.pending(pty) matches SpawnAction::MeasureAttributes { count, flags }
            && count == 1 && flags is None,
        Spawn::Measuring.after(SpawnReply::Measured { bytes }).pending(
            pty,
        ) matches SpawnAction::InitializeAttributes { count, flags, bytes: room } && count == 1
            && flags is None && room == bytes,
{
}

/// The console that is put on the list is the one that the process is to run on, as a value of
/// the size of its handle, and nothing else is asked for.
pub proof fn console_is_put_on_the_list(list: usize, pty: isize)
    ensures
        (Spawn::Attaching { list }).pending(pty) matches SpawnAction::AttachConsole { request } && {
            &&& request.list == list
            &&& request.pty == pty
            &&& request.size == core::mem::size_of::<isize>()
            &&& request.flags == 0
            &&& request.previous_value is None
            &&& request.return_size is None
        },
{
}

/// Bash is created with the list and inherits no handle. The program, the environment and the
/// directory are left to the system.
pub proof fn bash_is_created_with_the_list(list: usize, pty: isize)
    ensures
        (Spawn::Creating { list }).pending(pty) matches SpawnAction::CreateProcess { request } && {
            &&& request.list == list
            &&& request.extended_startup_info
            &&& request.startup_size == StartupSize::Extended
            &&& request.unicode_environment
            &&& !request.inherit_handles
            &&& request.application is None
            &&& request.process_security is None
            &&& request.thread_security is None
            &&& request.environment is None
            &&& request.directory is None
        },
{
}

/// Where every call succeeds, the one list is measured, initialised, given the console, used
/// for the process and deleted, and the process that was created is handed on.
pub proof fn bash_is_started_in_order(bytes: usize, list: usize, child: Child, pty: isize)
    ensures
        ({
            let s1 = Spawn::Measuring.after(SpawnReply::Measured { bytes });
            let s2 = s1.after(SpawnReply::Initialized { list });
            let s3 = s2.after(SpawnReply::Attached);
            let s4 = s3.after(SpawnReply::Created { child });
            &&& s1.pending(pty) is InitializeAttributes
            &&& s2.pending(pty) matches SpawnAction::AttachConsole { request } && request.list
                == list && request.pty == pty
            &&& s3.pending(pty) matches SpawnAction::CreateProcess { request } && request.list
                == list
            &&& s4.pending(pty) matches SpawnAction::Finish { delete, outcome } && delete == Some(
                list,
            ) && outcome == Ok::<Child, WinError>(child)
        }),
{
}

/// The first call that fails ends the start with its error. The list is deleted where it had
/// been initialised. That measuring reports a failure changes nothing.
pub proof fn first_failure_ends_the_start(bytes: usize, list: usize, error: WinError, pty: isize)
    ensures
        ({
            let failed = SpawnReply::Failed { error };
            let s1 = Spawn::Measuring.after(SpawnReply::Measured { bytes });
            let s2 = s1.after(SpawnReply::Initialized { list });
            let s3 = s2.after(SpawnReply::Attached);
            let err = Err::<Child, WinError>(error);
            &&& Spawn::Measuring.after(failed) == Spawn::Measuring
            &&& s1.after(failed).pending(pty) matches SpawnAction::Finish { delete, outcome }
                && delete is None && outcome == err
            &&& s2.after(failed).pending(pty) matches SpawnAction::Finish { delete, outcome }
                && delete == Some(list) && outcome == err
            &&& s3.after(failed).pending(pty) matches SpawnAction::Finish { delete, outcome }
                && delete == Some(list) && outcome == err
        }),
{
}

/// An answer that is none to the pending action changes nothing, and neither does any once
/// the start has ended.
pub proof fn stray_start_replies_are_ignored(spawn: Spawn, reply: SpawnReply, pty: isize)
    requires
        match spawn.pending(pty) {
            SpawnAction::MeasureAttributes { .. } => !(reply is Measured),
            SpawnAction::InitializeAttributes { .. } => !(reply is Initialized || reply is Failed),
            SpawnAction::AttachConsole { .. } => !(reply is Attached || reply is Failed),
            SpawnAction::CreateProcess { .. } => !(reply is Created || reply is Failed),
            SpawnAction::Finish { .. } => true,
        },
    ensures
        spawn.after(reply) == spawn,
{
}

/// The directory of the pipes is opened for reading, by its name and without a root.
pub proof fn device_is_opened_first()
    ensures
        PipeSetup::OpeningDevice.pending() matches PipeAction::Open(opened) && {
            &&& opened.root is None
            &&& opened.name == ObjectName::PipeDevice
            &&& !opened.case_insensitive
            &&& opened.access.read && !opened.access.write && opened.access.synchronize
            &&& opened.share.read && opened.share.write
            &&& opened.disposition == Disposition::OpenExisting
            &&& opened.options.synchronous && !opened.options.non_directory
            &&& opened.allocation_size is None
            &&& opened.file_attributes == 0
            &&& opened.extended_attributes is None
            &&& opened.extended_attributes_length == 0
        },
{
}

/// The server end is new, has no name of its own below the directory that was opened, is the
/// only one, and carries bytes both ways without waiting for a call to complete.
pub proof fn server_is_made_in_the_device(status: i32, device: usize)
    requires
        status >= 0,
    ensures
        PipeSetup::OpeningDevice.after(status, device).pending() matches PipeAction::CreateServer(
            made,
        ) && {
            &&& made.root == Some(device)
            &&& made.name == ObjectName::Empty
            &&& made.case_insensitive
            &&& made.access.read && made.access.write && made.access.synchronize
            &&& made.share.read && made.share.write
            &&& made.disposition == Disposition::CreateNew
            &&& !made.options.synchronous && !made.options.non_directory
            &&& made.pipe_type == Format::ByteStream
            &&& made.read_mode == Format::ByteStream
            &&& made.completion == Completion::Queue
            &&& made.max_instances == 1
            &&& made.inbound_quota == 131_072
            &&& made.outbound_quota == 131_072
            &&& made.timeout == -1_000_000_000
        },
{
    crate::status::nt_failure_is_kept(status);
}

/// The client end is opened on the server end that was made, without a name, for reading and
/// writing, and without waiting for a call to complete.
pub proof fn client_is_opened_on_the_server(device: usize, status: i32, server: usize)
    requires
        status >= 0,
    ensures
        (PipeSetup::CreatingServer { device }).after(status, server).pending() matches PipeAction::Open(
            opened,
        ) && {
            &&& opened.root == Some(server)
            &&& opened.name == ObjectName::Empty
            &&& opened.case_insensitive
            &&& opened.access.read && opened.access.write && opened.access.synchronize
            &&& opened.share.read && opened.share.write
            &&& opened.disposition == Disposition::OpenExisting
            &&& !opened.options.synchronous && opened.options.non_directory
            &&& opened.allocation_size is None
            &&& opened.file_attributes == 0
            &&& opened.extended_attributes is None
            &&& opened.extended_attributes_length == 0
        },
{
    crate::status::nt_failure_is_kept(status);
}

/// A refused call ends the attempt with its error at once, whichever of the three it is.
pub proof fn refused_call_ends_the_pipe(setup: PipeSetup, status: i32, handle: usize)
    requires
        setup.pending() is Open || setup.pending() is CreateServer,
    ensures
        setup.after(status, handle).pending() is Fail <==> status < 0,
        status < 0 ==> setup.after(status, handle).pending() == (PipeAction::Fail {
            error: WinError { code: hresult_of_nt(status) },
        }),
{
    crate::status::nt_failure_is_kept(status);
}

/// The pipe is ready once the directory was to be closed, whatever came of that, and a pipe
/// that is ready or has failed stays as it is.
pub proof fn close_cannot_fail_the_pipe(
    device: usize,
    client: usize,
    server: usize,
    error: WinError,
    status: i32,
    handle: usize,
)
    ensures
        ({
            let closing = PipeSetup::ClosingDevice { device, client, server };
            let ready = closing.after(status, handle);
            &&& closing.pending() == (PipeAction::Close { handle: device })
            &&& ready.pending() == (PipeAction::Done { client, server })
            &&& ready.after(status, handle) == ready
            &&& (PipeSetup::Failed { error }).after(status, handle) == (PipeSetup::Failed { error })
            &&& (PipeSetup::Failed { error }).pending() == (PipeAction::Fail { error })
        }),
{
}

} // verus!
