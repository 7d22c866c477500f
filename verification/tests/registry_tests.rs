use acbr_lib::errors::LoadError;
use acbr_lib::identifier::ACBrLibType;
use acbr_lib::loader::{get_or_load, MemoryLoader};
use acbr_lib::registry::{LibraryRegistry, LoadGate, OpenOutcome};
use acbr_lib::resolver::resolve_symbol;

fn loader_with_library(fail_open: bool) -> MemoryLoader {
    let files = vec![String::from("res/ACBreSocial32.dll")];
    let symbols = vec![String::from("eSocial_Inicializar"), String::from("eSocial_Versao")];
    MemoryLoader::new(files, symbols, fail_open)
}

#[test]
fn get_or_load_twice_returns_same_handle_one_open() {
    let mut reg = LibraryRegistry::new();
    let mut ld = loader_with_library(false);
    let dir = String::from("res");
    let id = ACBrLibType::Esocial;

    let first = get_or_load(&mut reg, &mut ld, &dir, &id).expect("first load");
    let second = get_or_load(&mut reg, &mut ld, &dir, &id).expect("second load");
    assert_eq!(first, second);
    assert_ne!(first, 0);
    assert_eq!(ld.open_count(), 1);
}

#[test]
fn load_while_another_is_in_flight_is_refused() {
    let mut reg = LibraryRegistry::new();
    let mut ld = loader_with_library(false);
    let dir = String::from("res");
    let id = ACBrLibType::Esocial;

    // Acquire the load guard, as a load in flight would hold it.
    match reg.begin_load(&id) {
        LoadGate::Ready => {}
        _ => panic!("expected the guard to be acquired"),
    }
    // Any request arriving now is refused at once, not queued.
    let refused = get_or_load(&mut reg, &mut ld, &dir, &id);
    assert!(matches!(refused, Err(LoadError::AlreadyLoading)));
    assert_eq!(ld.open_count(), 0);
}

#[test]
fn begin_load_answers_from_cache_without_guard() {
    let mut reg = LibraryRegistry::new();
    let mut ld = loader_with_library(false);
    let dir = String::from("res");
    let id = ACBrLibType::Esocial;

    let h = get_or_load(&mut reg, &mut ld, &dir, &id).expect("load");
    match reg.begin_load(&id) {
        LoadGate::Cached(c) => assert_eq!(c, h),
        _ => panic!("expected the cached handle"),
    }
    // The cache answer left the guard free: a fresh begin still succeeds.
    reg.forget(&id);
    assert!(matches!(reg.begin_load(&id), LoadGate::Ready));
}

#[test]
fn forget_then_get_or_load_performs_one_new_open() {
    let mut reg = LibraryRegistry::new();
    let mut ld = loader_with_library(false);
    let dir = String::from("res");
    let id = ACBrLibType::Esocial;

    let first = get_or_load(&mut reg, &mut ld, &dir, &id).expect("first load");
    assert_eq!(ld.open_count(), 1);

    reg.forget(&id);
    assert!(reg.loaded_handle(&id).is_none());

    let second = get_or_load(&mut reg, &mut ld, &dir, &id).expect("reload");
    assert_eq!(ld.open_count(), 2);
    assert_ne!(second, 0);
    assert_ne!(first, second, "a reload must not reuse the stale handle");
}

#[test]
fn missing_file_yields_not_found_without_os_open() {
    let mut reg = LibraryRegistry::new();
    let mut ld = MemoryLoader::new(Vec::new(), Vec::new(), false);
    let dir = String::from("res");
    let id = ACBrLibType::Esocial;

    let r = get_or_load(&mut reg, &mut ld, &dir, &id);
    match r {
        Err(LoadError::NotFound) => {}
        Err(LoadError::LoadFailed(_)) => panic!("a missing file must never read as LoadFailed"),
        other => panic!("unexpected outcome: {:?}", other),
    }
    assert_eq!(ld.open_count(), 0, "the OS open call must not run for a missing file");
}

#[test]
fn failing_os_open_yields_load_failed() {
    let mut reg = LibraryRegistry::new();
    let mut ld = loader_with_library(true);
    let dir = String::from("res");
    let id = ACBrLibType::Esocial;

    let r = get_or_load(&mut reg, &mut ld, &dir, &id);
    assert!(matches!(r, Err(LoadError::LoadFailed(_))));
    assert_eq!(ld.open_count(), 1);
    assert!(reg.loaded_handle(&id).is_none());
    // The guard was released on the error path: a retry is admitted.
    assert!(matches!(reg.begin_load(&id), LoadGate::Ready));
}

#[test]
fn finish_load_stores_only_non_null_handles() {
    let id = ACBrLibType::Esocial;

    let mut reg = LibraryRegistry::new();
    assert!(matches!(reg.begin_load(&id), LoadGate::Ready));
    let r = reg.finish_load(&id, OpenOutcome::Opened(0));
    assert!(matches!(r, Err(LoadError::LoadFailed(_))));
    assert!(reg.loaded_handle(&id).is_none());

    assert!(matches!(reg.begin_load(&id), LoadGate::Ready));
    let r = reg.finish_load(&id, OpenOutcome::Failed(String::from("no such device")));
    match r {
        Err(LoadError::LoadFailed(m)) => assert_eq!(m, "no such device"),
        other => panic!("unexpected outcome: {:?}", other),
    }

    assert!(matches!(reg.begin_load(&id), LoadGate::Ready));
    let r = reg.finish_load(&id, OpenOutcome::Opened(41));
    assert_eq!(r.expect("stored"), 41);
    assert_eq!(reg.loaded_handle(&id), Some(41));
}

#[test]
fn end_to_end_missing_then_present_then_absent_symbol() {
    let dir = String::from("res");
    let id = ACBrLibType::Esocial;

    // The resources directory holds no library file at first.
    let mut reg = LibraryRegistry::new();
    let mut ld = MemoryLoader::new(Vec::new(), Vec::new(), false);
    assert!(matches!(get_or_load(&mut reg, &mut ld, &dir, &id), Err(LoadError::NotFound)));
    assert_eq!(ld.open_count(), 0);

    // After the library file is placed at its path, the load succeeds...
    ld.add_file(format!("res/{}", id.filename()));
    let handle = get_or_load(&mut reg, &mut ld, &dir, &id).expect("load");
    assert_ne!(handle, 0);
    assert_eq!(ld.open_count(), 1);

    // ...and resolving an entry point the library does not export names it.
    let missing = String::from("DoesNotExist");
    let r = resolve_symbol(&mut ld, handle, &missing);
    match r {
        Err(e @ LoadError::SymbolNotFound(_)) => {
            assert_eq!(e.message(), "function not found: DoesNotExist");
        }
        other => panic!("unexpected outcome: {:?}", other),
    }
}
