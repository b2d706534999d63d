use rustclr::error::ClrError;
use rustclr::session::{
    ClrSource, DomainContext, HostAction, HostEvent, RustClr, RustClrRuntime, SessionState,
};
use rustclr::variant::VariantValue;
use rustclr::reflect::EntryPointInvocation;
use rustclr::version::RuntimeVersion;

fn units_nul(s: &str) -> Vec<u16> {
    s.encode_utf16().chain(Some(0)).collect::<Vec<u16>>()
}

/// A well-formed managed console executable image.
fn managed_exe() -> Vec<u8> {
    let mut b = vec![0u8; 0x200];
    b[0] = 0x4d;
    b[1] = 0x5a;
    let nt: u32 = 0x80;
    b[60..64].copy_from_slice(&nt.to_le_bytes());
    let nt = nt as usize;
    b[nt..nt + 4].copy_from_slice(&0x4550u32.to_le_bytes());
    b[nt + 22..nt + 24].copy_from_slice(&0x0022u16.to_le_bytes());
    let opt = nt + 24;
    b[opt..opt + 2].copy_from_slice(&0x020bu16.to_le_bytes());
    b[opt + 68..opt + 70].copy_from_slice(&3u16.to_le_bytes());
    b[opt + 108..opt + 112].copy_from_slice(&16u32.to_le_bytes());
    let com = opt + 112 + 14 * 8;
    b[com..com + 4].copy_from_slice(&0x2008u32.to_le_bytes());
    b[com + 4..com + 8].copy_from_slice(&0x48u32.to_le_bytes());
    b
}

#[test]
fn test_new_validates_buffer() {
    assert!(matches!(RustClr::new(&managed_exe()), Ok(_)));
    assert!(matches!(RustClr::new(&[1, 2, 3]), Err(ClrError::InvalidNtHeader)));
}

#[test]
fn test_new_starts_created() {
    let clr = RustClr::new(&managed_exe()).unwrap();
    assert_eq!(clr.state(), SessionState::Created);
    assert!(!clr.redirect_output);
    assert!(!clr.patch_exit);
    assert!(clr.args.is_none());
}

#[test]
fn test_builders_set_configuration() {
    let clr = RustClr::new(&managed_exe())
        .unwrap()
        .with_runtime_version(RuntimeVersion::V2)
        .with_domain("CustomDomain")
        .with_args(vec!["x"])
        .with_output()
        .with_patch_exit();
    assert!(matches!(clr.runtime.runtime_version, Some(RuntimeVersion::V2)));
    assert_eq!(clr.runtime.domain_name.as_deref(), Some("CustomDomain"));
    assert_eq!(clr.args.as_deref(), Some(&["x".to_string()][..]));
    assert!(clr.redirect_output);
    assert!(clr.patch_exit);
}

#[test]
fn test_clr_source_variants() {
    let path = ClrSource::File("files/app.exe");
    let buf = [0u8; 4];
    let mem = ClrSource::Buffer(&buf);
    assert!(matches!(path, ClrSource::File(_)));
    assert!(matches!(mem, ClrSource::Buffer(_)));
}

#[test]
fn test_domain_manager_get_and_unload() {
    let mut rt = RustClrRuntime::new(vec![1, 2, 3]);
    assert_eq!(rt.get_app_domain(), Err(ClrError::NoDomainAvailable));
    rt.app_domain = Some(DomainContext { token: 7 });
    assert_eq!(rt.get_app_domain(), Ok(DomainContext { token: 7 }));
    assert_eq!(rt.unload_domain(), Some(DomainContext { token: 7 }));
    assert_eq!(rt.get_app_domain(), Err(ClrError::NoDomainAvailable));
}

#[test]
fn test_unload_twice_is_no_error_and_no_double_release() {
    let mut rt = RustClrRuntime::new(Vec::new());
    rt.app_domain = Some(DomainContext { token: 1 });
    assert!(rt.unload_domain().is_some());
    assert_eq!(rt.unload_domain(), None);
    assert_eq!(rt.unload_domain(), None);
}

#[test]
fn test_unsupported_version_fails_before_any_context() {
    let mut clr = RustClr::new(&managed_exe())
        .unwrap()
        .with_runtime_version(RuntimeVersion::UNKNOWN);
    match clr.next_action() {
        HostAction::LocateRuntime { version } => {
            assert_eq!(version, units_nul("UNKNOWN"));
        }
        a => panic!("unexpected action: {a:?}"),
    }
    clr.step(HostEvent::VersionUnavailable { detail: "0x80131700".to_string() });
    assert_eq!(clr.state(), SessionState::Failed);
    assert!(clr.runtime.app_domain.is_none());
    assert!(matches!(clr.next_action(), HostAction::Finish));
    assert_eq!(
        clr.take_result(),
        Err(ClrError::RuntimeInfoError("0x80131700".to_string()))
    );
}

#[test]
fn test_default_version_is_v4() {
    let clr = RustClr::new(&managed_exe()).unwrap();
    match clr.next_action() {
        HostAction::LocateRuntime { version } => assert_eq!(version, units_nul("v4.0.30319")),
        a => panic!("unexpected action: {a:?}"),
    }
}

#[test]
fn test_full_run_with_output_args_and_patch() {
    let image = managed_exe();
    let mut clr = RustClr::new(&image)
        .unwrap()
        .with_domain("CustomDomain")
        .with_args(vec!["a", "b"])
        .with_output()
        .with_patch_exit();

    assert!(matches!(clr.next_action(), HostAction::LocateRuntime { .. }));
    clr.step(HostEvent::RuntimeLocated { already_started: false });

    match clr.next_action() {
        HostAction::ComputeIdentity { buffer } => assert_eq!(buffer, image),
        a => panic!("unexpected action: {a:?}"),
    }
    clr.step(HostEvent::IdentityComputed { identity: "App, Version=1.0.0.0".to_string() });

    match clr.next_action() {
        HostAction::StageAssembly { buffer, identity } => {
            assert_eq!(buffer, image);
            assert_eq!(identity, "App, Version=1.0.0.0");
        }
        a => panic!("unexpected action: {a:?}"),
    }
    clr.step(HostEvent::Staged);

    assert!(matches!(clr.next_action(), HostAction::StartRuntime));
    clr.step(HostEvent::RuntimeStarted);

    match clr.next_action() {
        HostAction::CreateDomain { name } => assert_eq!(name, units_nul("CustomDomain")),
        a => panic!("unexpected action: {a:?}"),
    }
    assert_eq!(clr.state(), SessionState::Created);
    clr.step(HostEvent::DomainCreated { context: DomainContext { token: 11 } });
    assert_eq!(clr.state(), SessionState::Prepared);

    match clr.next_action() {
        HostAction::LoadAssembly { identity } => assert_eq!(identity, "App, Version=1.0.0.0"),
        a => panic!("unexpected action: {a:?}"),
    }
    clr.step(HostEvent::AssemblyLoaded {
        entry_signature: "Int32 Main(System.String[])".to_string(),
    });

    assert!(matches!(clr.next_action(), HostAction::PatchExit));
    clr.step(HostEvent::Patched);

    assert!(matches!(clr.next_action(), HostAction::RedirectOutput));
    clr.step(HostEvent::Redirected);

    match clr.next_action() {
        HostAction::InvokeEntryPoint {
            invocation: EntryPointInvocation::WithArgs(array),
        } => match &array.elems[..] {
            [VariantValue::StrArray(items)] => {
                let units: Vec<Vec<u16>> = items.iter().map(|b| b.as_units().clone()).collect();
                assert_eq!(units, vec![vec![0x61u16], vec![0x62u16]]);
            }
            _ => panic!("expected one string-array value"),
        },
        a => panic!("unexpected action: {a:?}"),
    }
    assert_eq!(clr.state(), SessionState::Running);
    clr.step(HostEvent::Invoked);

    assert!(matches!(clr.next_action(), HostAction::CaptureOutput));
    clr.step(HostEvent::OutputCaptured { text: "[CLR] Exit was intercepted\n".to_string() });

    assert!(matches!(clr.next_action(), HostAction::CollectGarbage));
    clr.step(HostEvent::Collected);
    assert!(matches!(clr.next_action(), HostAction::WaitForPendingFinalizers));
    clr.step(HostEvent::FinalizersWaited);
    assert!(matches!(clr.next_action(), HostAction::CollectGarbage));
    clr.step(HostEvent::Collected);

    assert!(matches!(clr.next_action(), HostAction::UnloadDomain));
    assert!(clr.runtime.app_domain.is_some());
    clr.step(HostEvent::DomainUnloaded);
    assert!(clr.runtime.app_domain.is_none());

    assert!(matches!(clr.next_action(), HostAction::ClearStaged));
    clr.step(HostEvent::Cleared);

    assert_eq!(clr.state(), SessionState::Completed);
    assert!(matches!(clr.next_action(), HostAction::Finish));
    assert_eq!(clr.take_result(), Ok("[CLR] Exit was intercepted\n".to_string()));
}

#[test]
fn test_no_arg_entry_point_invoked_without_args() {
    let mut clr = RustClr::new(&managed_exe())
        .unwrap()
        .with_domain("D")
        .with_args(vec!["ignored"]);
    clr.step(HostEvent::RuntimeLocated { already_started: true });
    clr.step(HostEvent::IdentityComputed { identity: "App".to_string() });
    clr.step(HostEvent::Staged);
    clr.step(HostEvent::DomainCreated { context: DomainContext { token: 1 } });
    clr.step(HostEvent::AssemblyLoaded { entry_signature: "Void Main()".to_string() });
    assert!(matches!(
        clr.next_action(),
        HostAction::InvokeEntryPoint { invocation: EntryPointInvocation::WithoutArgs }
    ));
}

#[test]
fn test_already_started_runtime_skips_start() {
    let mut clr = RustClr::new(&managed_exe()).unwrap().with_domain("D");
    clr.step(HostEvent::RuntimeLocated { already_started: true });
    clr.step(HostEvent::IdentityComputed { identity: "App".to_string() });
    clr.step(HostEvent::Staged);
    assert!(matches!(clr.next_action(), HostAction::CreateDomain { .. }));
}

#[test]
fn test_generated_domain_name_from_entropy() {
    let mut clr = RustClr::new(&managed_exe()).unwrap();
    clr.step(HostEvent::RuntimeLocated { already_started: true });
    clr.step(HostEvent::IdentityComputed { identity: "App".to_string() });
    clr.step(HostEvent::Staged);
    assert!(matches!(clr.next_action(), HostAction::DrawEntropy));
    clr.step(HostEvent::Entropy { bytes: [0u8; 16] });
    match clr.next_action() {
        HostAction::CreateDomain { name } => {
            assert_eq!(name, units_nul("00000000-0000-0000-0000-000000000000"));
        }
        a => panic!("unexpected action: {a:?}"),
    }
}

#[test]
fn test_unrecognised_entry_point_fails_and_tears_down() {
    let mut clr = RustClr::new(&managed_exe()).unwrap().with_domain("D");
    clr.step(HostEvent::RuntimeLocated { already_started: true });
    clr.step(HostEvent::IdentityComputed { identity: "App".to_string() });
    clr.step(HostEvent::Staged);
    clr.step(HostEvent::DomainCreated { context: DomainContext { token: 1 } });
    clr.step(HostEvent::AssemblyLoaded { entry_signature: "Void Main(Boolean)".to_string() });
    assert_eq!(clr.state(), SessionState::Failed);
    assert!(matches!(clr.next_action(), HostAction::UnloadDomain));
    clr.step(HostEvent::DomainUnloaded);
    assert!(matches!(clr.next_action(), HostAction::ClearStaged));
    clr.step(HostEvent::Cleared);
    assert!(matches!(clr.next_action(), HostAction::Finish));
    assert_eq!(clr.take_result(), Err(ClrError::MethodNotFound));
}

#[test]
fn test_invoke_failure_still_unloads_and_clears() {
    let mut clr = RustClr::new(&managed_exe()).unwrap().with_domain("D");
    clr.step(HostEvent::RuntimeLocated { already_started: true });
    clr.step(HostEvent::IdentityComputed { identity: "App".to_string() });
    clr.step(HostEvent::Staged);
    clr.step(HostEvent::DomainCreated { context: DomainContext { token: 1 } });
    clr.step(HostEvent::AssemblyLoaded { entry_signature: "Void Main()".to_string() });
    clr.step(HostEvent::CallFailed { operation: "Invoke_3".to_string(), status: -2146233088 });
    assert_eq!(clr.state(), SessionState::Failed);
    assert!(matches!(clr.next_action(), HostAction::UnloadDomain));
    clr.step(HostEvent::DomainUnloaded);
    assert!(matches!(clr.next_action(), HostAction::ClearStaged));
    clr.step(HostEvent::Cleared);
    assert_eq!(
        clr.take_result(),
        Err(ClrError::ApiError("Invoke_3".to_string(), -2146233088))
    );
}

#[test]
fn test_unload_failure_keeps_first_error_and_finishes_cleanup() {
    let mut clr = RustClr::new(&managed_exe()).unwrap().with_domain("D");
    clr.step(HostEvent::RuntimeLocated { already_started: true });
    clr.step(HostEvent::IdentityComputed { identity: "App".to_string() });
    clr.step(HostEvent::Staged);
    clr.step(HostEvent::DomainCreated { context: DomainContext { token: 1 } });
    clr.step(HostEvent::CallFailed { operation: "Load_2".to_string(), status: -2147024894 });
    assert!(matches!(clr.next_action(), HostAction::UnloadDomain));
    clr.step(HostEvent::CallFailed { operation: "UnloadDomain".to_string(), status: -1 });
    assert!(clr.runtime.app_domain.is_none());
    assert!(matches!(clr.next_action(), HostAction::ClearStaged));
    clr.step(HostEvent::Cleared);
    assert_eq!(
        clr.take_result(),
        Err(ClrError::ApiError("Load_2".to_string(), -2147024894))
    );
}

#[test]
fn test_missing_meta_host_fails_discovery() {
    let mut clr = RustClr::new(&managed_exe()).unwrap();
    clr.step(HostEvent::MetaHostUnavailable { detail: "0x80070002".to_string() });
    assert_eq!(clr.state(), SessionState::Failed);
    assert_eq!(
        clr.take_result(),
        Err(ClrError::MetaHostCreationError("0x80070002".to_string()))
    );
}

#[test]
fn test_missing_host_surface_fails_discovery() {
    let mut clr = RustClr::new(&managed_exe()).unwrap();
    clr.step(HostEvent::HostUnavailable { detail: "E_NOINTERFACE".to_string() });
    assert_eq!(
        clr.take_result(),
        Err(ClrError::RuntimeHostError("E_NOINTERFACE".to_string()))
    );
}

#[test]
fn test_start_failure_is_fatal_and_clears_staged() {
    let mut clr = RustClr::new(&managed_exe()).unwrap();
    clr.step(HostEvent::RuntimeLocated { already_started: false });
    clr.step(HostEvent::IdentityComputed { identity: "App".to_string() });
    clr.step(HostEvent::Staged);
    assert!(matches!(clr.next_action(), HostAction::StartRuntime));
    clr.step(HostEvent::StartFailed);
    assert_eq!(clr.state(), SessionState::Failed);
    assert!(matches!(clr.next_action(), HostAction::ClearStaged));
    clr.step(HostEvent::Cleared);
    assert_eq!(clr.take_result(), Err(ClrError::RuntimeStartError));
}

#[test]
fn test_patch_failure_is_fatal_and_tears_down() {
    let mut clr = RustClr::new(&managed_exe()).unwrap().with_domain("D").with_patch_exit();
    clr.step(HostEvent::RuntimeLocated { already_started: true });
    clr.step(HostEvent::IdentityComputed { identity: "App".to_string() });
    clr.step(HostEvent::Staged);
    clr.step(HostEvent::DomainCreated { context: DomainContext { token: 1 } });
    clr.step(HostEvent::AssemblyLoaded { entry_signature: "Void Main()".to_string() });
    assert!(matches!(clr.next_action(), HostAction::PatchExit));
    clr.step(HostEvent::PatchFailed {
        message: "failed to change memory protection to RWX".to_string(),
    });
    assert_eq!(clr.state(), SessionState::Failed);
    clr.step(HostEvent::DomainUnloaded);
    clr.step(HostEvent::Cleared);
    assert_eq!(
        clr.take_result(),
        Err(ClrError::Msg("failed to change memory protection to RWX".to_string()))
    );
}

#[test]
fn test_run_without_redirection_returns_empty_output() {
    let mut clr = RustClr::new(&managed_exe()).unwrap().with_domain("D");
    clr.step(HostEvent::RuntimeLocated { already_started: true });
    clr.step(HostEvent::IdentityComputed { identity: "App".to_string() });
    clr.step(HostEvent::Staged);
    clr.step(HostEvent::DomainCreated { context: DomainContext { token: 1 } });
    clr.step(HostEvent::AssemblyLoaded { entry_signature: "Void Main()".to_string() });
    clr.step(HostEvent::Invoked);
    assert!(matches!(clr.next_action(), HostAction::CollectGarbage));
    clr.step(HostEvent::Collected);
    clr.step(HostEvent::FinalizersWaited);
    clr.step(HostEvent::Collected);
    clr.step(HostEvent::DomainUnloaded);
    clr.step(HostEvent::Cleared);
    assert_eq!(clr.state(), SessionState::Completed);
    assert_eq!(clr.take_result(), Ok(String::new()));
}

#[test]
fn test_unexpected_event_changes_nothing() {
    let mut clr = RustClr::new(&managed_exe()).unwrap();
    clr.step(HostEvent::Invoked);
    clr.step(HostEvent::Cleared);
    assert_eq!(clr.state(), SessionState::Created);
    assert!(matches!(clr.next_action(), HostAction::LocateRuntime { .. }));
}
