use wsl_stdin_repro::spawn::{
    attribute_buffer, cat_args, command_line, command_units, AttachRequest, Child, ProcessRequest,
    Spawn, SpawnAction, SpawnReply, StartupSize, WSL_EXE,
};
use wsl_stdin_repro::status::{check_hresult, check_nt, WinError};
use wsl_stdin_repro::wide::wide_nul;

#[test]
fn wide_text_is_utf16_with_a_terminator() {
    for text in ["", "wsl.exe", "\u{e9}\u{ffff}", "a\u{10000}b", "\u{1f600}\u{10ffff}", "\u{d7ff}\u{e000}"] {
        let mut expected: Vec<u16> = text.encode_utf16().collect();
        expected.push(0);
        assert_eq!(wide_nul(text), expected);
    }
    assert_eq!(wide_nul("\u{1f600}"), vec![0xd83d, 0xde00, 0]);
}

#[test]
fn command_line_names_the_distribution() {
    assert_eq!(
        command_line(Some("Ubuntu")),
        "wsl.exe --distribution Ubuntu -- bash --norc --noprofile"
    );
    assert_eq!(command_line(None), "wsl.exe -- bash --norc --noprofile");
    assert_eq!(
        command_line(Some("")),
        "wsl.exe --distribution  -- bash --norc --noprofile"
    );
}

#[test]
fn command_units_have_one_terminator() {
    let units = command_units(Some("Ubuntu"));
    let end = units.iter().position(|unit| *unit == 0);
    assert_eq!(end, Some(units.len() - 1));
    assert_eq!(
        String::from_utf16_lossy(&units[..units.len() - 1]),
        "wsl.exe --distribution Ubuntu -- bash --norc --noprofile"
    );
}

#[test]
fn result_is_printed_with_cat() {
    assert_eq!(cat_args(None), vec!["--", "cat", "/tmp/wsl_repro.txt"]);
    assert_eq!(
        cat_args(Some("Debian")),
        vec!["--distribution", "Debian", "--", "cat", "/tmp/wsl_repro.txt"]
    );
    assert_eq!(WSL_EXE, r"C:\Windows\System32\wsl.exe");
}

#[test]
fn nt_statuses_become_hresults() {
    assert_eq!(check_nt(0), Ok(()));
    assert_eq!(check_nt(0x103), Ok(()));
    assert_eq!(check_nt(i32::MAX), Ok(()));
    // STATUS_ACCESS_DENIED and STATUS_OBJECT_NAME_NOT_FOUND.
    assert_eq!(check_nt(0xc000_0022u32 as i32), Err(WinError { code: 0xd000_0022u32 as i32 }));
    assert_eq!(check_nt(0xc000_0034u32 as i32), Err(WinError { code: 0xd000_0034u32 as i32 }));
    assert_eq!(check_nt(i32::MIN), Err(WinError { code: 0x9000_0000u32 as i32 }));
    assert_eq!(check_nt(-1), Err(WinError { code: -1 }));
}

#[test]
fn hresults_are_read_by_their_sign() {
    assert_eq!(check_hresult(0), Ok(()));
    assert_eq!(check_hresult(1), Ok(()));
    assert_eq!(check_hresult(0x535f_4f4b), Ok(()));
    assert_eq!(check_hresult(0x8007_0057u32 as i32), Err(WinError { code: 0x8007_0057u32 as i32 }));
    assert_eq!(check_hresult(-1), Err(WinError { code: -1 }));
    assert_eq!(windows_result::HRESULT::from_nt(-1).0, -1);
}

#[test]
fn attribute_buffer_is_zeroed() {
    assert_eq!(attribute_buffer(0), Vec::<u8>::new());
    assert_eq!(attribute_buffer(48), vec![0u8; 48]);
}

fn spawned(replies: &[SpawnReply]) -> Spawn {
    let mut spawn = Spawn::new();
    for reply in replies {
        spawn.reply(*reply);
    }
    spawn
}

#[test]
fn bash_is_started_in_four_steps() {
    let child = Child { process: 11, thread: 12, pid: 2512 };
    let mut spawn = Spawn::new();
    assert_eq!(spawn.action(5), SpawnAction::MeasureAttributes { count: 1, flags: None });
    spawn.reply(SpawnReply::Measured { bytes: 48 });
    assert_eq!(
        spawn.action(5),
        SpawnAction::InitializeAttributes { count: 1, flags: None, bytes: 48 }
    );
    spawn.reply(SpawnReply::Initialized { list: 0x7000 });
    assert_eq!(
        spawn.action(5),
        SpawnAction::AttachConsole {
            request: AttachRequest {
                list: 0x7000,
                flags: 0,
                pty: 5,
                size: std::mem::size_of::<isize>(),
                previous_value: None,
                return_size: None,
            },
        }
    );
    spawn.reply(SpawnReply::Attached);
    assert_eq!(
        spawn.action(5),
        SpawnAction::CreateProcess {
            request: ProcessRequest {
                application: None,
                process_security: None,
                thread_security: None,
                inherit_handles: false,
                extended_startup_info: true,
                unicode_environment: true,
                environment: None,
                directory: None,
                startup_size: StartupSize::Extended,
                list: 0x7000,
            },
        }
    );
    spawn.reply(SpawnReply::Created { child });
    assert_eq!(
        spawn.action(5),
        SpawnAction::Finish { delete: Some(0x7000), outcome: Ok(child) }
    );
}

#[test]
fn list_is_deleted_only_if_it_was_initialized() {
    let error = WinError { code: -7 };
    let failed = SpawnReply::Failed { error };
    let measured = SpawnReply::Measured { bytes: 48 };
    let initialized = SpawnReply::Initialized { list: 0x7000 };
    assert_eq!(
        spawned(&[measured, failed]).action(5),
        SpawnAction::Finish { delete: None, outcome: Err(error) }
    );
    assert_eq!(
        spawned(&[measured, initialized, failed]).action(5),
        SpawnAction::Finish { delete: Some(0x7000), outcome: Err(error) }
    );
    assert_eq!(
        spawned(&[measured, initialized, SpawnReply::Attached, failed]).action(5),
        SpawnAction::Finish { delete: Some(0x7000), outcome: Err(error) }
    );
    assert_eq!(
        spawned(&[failed]).action(5),
        SpawnAction::MeasureAttributes { count: 1, flags: None }
    );
}
