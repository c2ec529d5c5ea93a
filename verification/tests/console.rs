use wsl_stdin_repro::conpty::{
    candidates, missing_message, pty_reply, pty_request, DllLoad, DllSearch, LoadAction,
    LoadOutcome, LoadReply, PtyOutcome, PtyRequest, SearchAction, Sibling, Symbol, DLL_NAME,
    OVERRIDE_VARIABLE,
};
use wsl_stdin_repro::pipe::{
    Access, Completion, Disposition, Format, ObjectName, OpenRequest, Options, PipeAction,
    PipeSetup, ServerRequest, Share, PIPE_DEVICE,
};
use wsl_stdin_repro::status::WinError;

const ENDS: Access = Access { read: true, write: true, synchronize: true };
const SHARED: Share = Share { read: true, write: true };

#[test]
fn pipe_is_made_in_order() {
    let mut setup = PipeSetup::new();
    assert_eq!(
        setup.action(),
        PipeAction::Open(OpenRequest {
            root: None,
            name: ObjectName::PipeDevice,
            case_insensitive: false,
            access: Access { read: true, write: false, synchronize: true },
            allocation_size: None,
            file_attributes: 0,
            share: SHARED,
            disposition: Disposition::OpenExisting,
            options: Options { synchronous: true, non_directory: false },
            extended_attributes: None,
            extended_attributes_length: 0,
        })
    );
    setup.reply(0, 100);
    assert_eq!(
        setup.action(),
        PipeAction::CreateServer(ServerRequest {
            root: Some(100),
            name: ObjectName::Empty,
            case_insensitive: true,
            access: ENDS,
            share: SHARED,
            disposition: Disposition::CreateNew,
            options: Options { synchronous: false, non_directory: false },
            pipe_type: Format::ByteStream,
            read_mode: Format::ByteStream,
            completion: Completion::Queue,
            max_instances: 1,
            inbound_quota: 128 * 1024,
            outbound_quota: 128 * 1024,
            timeout: -1_000_000_000,
        })
    );
    setup.reply(0, 200);
    assert_eq!(
        setup.action(),
        PipeAction::Open(OpenRequest {
            root: Some(200),
            name: ObjectName::Empty,
            case_insensitive: true,
            access: ENDS,
            allocation_size: None,
            file_attributes: 0,
            share: SHARED,
            disposition: Disposition::OpenExisting,
            options: Options { synchronous: false, non_directory: true },
            extended_attributes: None,
            extended_attributes_length: 0,
        })
    );
    setup.reply(0, 300);
    assert_eq!(setup.action(), PipeAction::Close { handle: 100 });
    setup.reply(-1, 0);
    assert_eq!(setup.action(), PipeAction::Done { client: 300, server: 200 });
    setup.reply(-1, 0);
    assert_eq!(setup.action(), PipeAction::Done { client: 300, server: 200 });
    assert_eq!(PIPE_DEVICE, r"\Device\NamedPipe\");
}

#[test]
fn pipe_fails_with_the_first_refusal() {
    let denied = 0xc000_0022u32 as i32;
    let error = WinError { code: 0xd000_0022u32 as i32 };
    for refused in 0..3 {
        let mut setup = PipeSetup::new();
        for call in 0..3 {
            setup.reply(if call == refused { denied } else { 0 }, 7);
        }
        assert_eq!(setup.action(), PipeAction::Fail { error });
        setup.reply(0, 8);
        assert_eq!(setup.action(), PipeAction::Fail { error });
    }
}

#[test]
fn informational_status_is_a_success() {
    let mut setup = PipeSetup::new();
    setup.reply(0x103, 100);
    assert_eq!(setup, PipeSetup::CreatingServer { device: 100 });
}

#[test]
fn candidates_come_in_order() {
    let beside = Sibling::Path(r"C:\repro\conpty.dll".to_string());
    assert_eq!(
        candidates(Some(r"D:\x.dll"), &beside, r"C:\Users\u\AppData\Local"),
        vec![
            r"D:\x.dll",
            r"C:\repro\conpty.dll",
            r"C:\Users\u\AppData\Local\Microsoft\WindowsApps\conpty.dll",
            r"C:\Program Files\WezTerm\conpty.dll",
        ]
    );
    assert_eq!(
        candidates(None, &Sibling::Unknown, ""),
        vec![r"\Microsoft\WindowsApps\conpty.dll", r"C:\Program Files\WezTerm\conpty.dll"]
    );
    assert_eq!(DLL_NAME, "conpty.dll");
    assert_eq!(OVERRIDE_VARIABLE, "CONPTY_DLL_PATH");
}

#[test]
fn installed_copies_are_tried_beside_an_unreadable_sibling() {
    let installed = [r"y\Microsoft\WindowsApps\conpty.dll", r"C:\Program Files\WezTerm\conpty.dll"];
    assert_eq!(candidates(None, &Sibling::NotUnicode, "y"), installed);
    assert_eq!(
        candidates(Some("x"), &Sibling::NotUnicode, "y"),
        ["x", installed[0], installed[1]]
    );

    let mut search = DllSearch::new(candidates(None, &Sibling::NotUnicode, "y"));
    search.reply(false);
    assert_eq!(search.action(), SearchAction::Load { path: installed[1].to_string() });
    search.reply(true);
    assert_eq!(search.action(), SearchAction::Use);
}

fn loaded(replies: &[LoadReply]) -> LoadAction {
    let mut load = DllLoad::new();
    for reply in replies {
        load.reply(*reply);
    }
    load.action()
}

const LIBRARY: LoadReply = LoadReply::Loaded { module: 0x1000 };
const FIRST: LoadReply = LoadReply::Found { address: 0x1234 };
const SECOND: LoadReply = LoadReply::Found { address: 0x5678 };

#[test]
fn library_is_loaded_before_its_functions_are_looked_up() {
    assert_eq!(loaded(&[]), LoadAction::LoadLibrary);
    assert_eq!(
        loaded(&[LIBRARY]),
        LoadAction::FindSymbol { module: 0x1000, symbol: Symbol::Create }
    );
    assert_eq!(
        loaded(&[LIBRARY, FIRST]),
        LoadAction::FindSymbol { module: 0x1000, symbol: Symbol::Close }
    );
    assert_eq!(loaded(&[FIRST]), LoadAction::LoadLibrary);
}

#[test]
fn functions_keep_their_addresses() {
    assert_eq!(
        loaded(&[LIBRARY, FIRST, SECOND]),
        LoadAction::Finish { outcome: LoadOutcome::Loaded { create: 0x1234, close: 0x5678 } }
    );
}

#[test]
fn load_errors_are_handed_on() {
    // The HRESULT of ERROR_MOD_NOT_FOUND.
    let error = WinError { code: 0x8007_007eu32 as i32 };
    let ended = LoadAction::Finish { outcome: LoadOutcome::NotLoaded { error } };
    assert_eq!(loaded(&[LoadReply::NotLoaded { error }]), ended);
    assert_eq!(loaded(&[LoadReply::NotLoaded { error }, LIBRARY]), ended);
}

#[test]
fn libraries_need_both_functions() {
    assert_eq!(
        loaded(&[LIBRARY, LoadReply::NotFound]),
        LoadAction::Finish { outcome: LoadOutcome::Missing { symbol: Symbol::Create } }
    );
    assert_eq!(
        loaded(&[LIBRARY, FIRST, LoadReply::NotFound]),
        LoadAction::Finish { outcome: LoadOutcome::Missing { symbol: Symbol::Close } }
    );
    assert_eq!(missing_message(Symbol::Create), "conpty.dll missing CreatePseudoConsole");
    assert_eq!(missing_message(Symbol::Close), "conpty.dll missing ClosePseudoConsole");
}

fn three() -> DllSearch {
    DllSearch::new(vec!["a".to_string(), "b".to_string(), "c".to_string()])
}

#[test]
fn first_loadable_library_is_used() {
    let mut search = three();
    assert_eq!(search.action(), SearchAction::Load { path: "a".to_string() });
    search.reply(false);
    assert_eq!(search.action(), SearchAction::Load { path: "b".to_string() });
    search.reply(true);
    assert_eq!(search.action(), SearchAction::Use);
    search.reply(false);
    assert_eq!(search.action(), SearchAction::Use);
}

#[test]
fn search_gives_up_after_the_last() {
    let mut search = three();
    for _ in 0..2 {
        search.reply(false);
    }
    assert_eq!(search.action(), SearchAction::Load { path: "c".to_string() });
    search.reply(false);
    assert_eq!(search.action(), SearchAction::GiveUp);
    search.reply(true);
    assert_eq!(search.action(), SearchAction::GiveUp);
    assert_eq!(DllSearch::new(Vec::new()).action(), SearchAction::GiveUp);
}

#[test]
fn console_uses_one_pipe_end_for_both_directions() {
    let request = pty_request(220, 50, 300);
    assert_eq!(
        request,
        PtyRequest { columns: 220, rows: 50, input: 300, output: 300, flags: 0 }
    );
    assert_eq!(pty_reply(&request, 0, 9), PtyOutcome::Created { pty: 9, close: 300 });
    assert_eq!(
        pty_reply(&request, 0x8007_0057u32 as i32, 9),
        PtyOutcome::Failed { error: WinError { code: 0x8007_0057u32 as i32 } }
    );
}
