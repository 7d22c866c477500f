use acbr_lib::errors::LoadError;
use acbr_lib::identifier::{lib_kinds, ACBrLibType};
use acbr_lib::loader::MemoryLoader;
use acbr_lib::registry::{classify_init_result, InitDecision};
use acbr_lib::resolver::{classify_symbol_address, resolve_symbol, validate_handle};

fn loader_with_symbols() -> MemoryLoader {
    let symbols = vec![
        String::from("eSocial_Inicializar"),
        String::from("eSocial_Versao"),
        String::from("eSocial_UltimoRetorno"),
    ];
    MemoryLoader::new(Vec::new(), symbols, false)
}

#[test]
fn null_handle_is_rejected_before_the_platform_layer() {
    let mut ld = loader_with_symbols();
    let name = String::from("eSocial_Versao");
    let r = resolve_symbol(&mut ld, 0, &name);
    assert!(matches!(r, Err(LoadError::InvalidHandle)));
    assert_eq!(ld.resolve_count(), 0, "the platform lookup must never see a null handle");
}

#[test]
fn exported_symbol_resolves_to_non_null_address() {
    let mut ld = loader_with_symbols();
    let name = String::from("eSocial_Versao");
    let addr = resolve_symbol(&mut ld, 7, &name).expect("exported symbol");
    assert_ne!(addr, 0);
    assert_eq!(ld.resolve_count(), 1);
}

#[test]
fn absent_symbol_is_reported_by_name() {
    let mut ld = loader_with_symbols();
    let name = String::from("eSocial_Enviar");
    let r = resolve_symbol(&mut ld, 7, &name);
    match r {
        Err(LoadError::SymbolNotFound(n)) => assert_eq!(n, "eSocial_Enviar"),
        other => panic!("unexpected outcome: {:?}", other),
    }
    assert_eq!(ld.resolve_count(), 1);
}

#[test]
fn validate_handle_accepts_exactly_non_null() {
    assert!(validate_handle(1).is_ok());
    assert!(validate_handle(u64::MAX).is_ok());
    assert!(matches!(validate_handle(0), Err(LoadError::InvalidHandle)));
}

#[test]
fn classify_symbol_address_maps_null_to_error() {
    let name = String::from("eSocial_Nome");
    assert_eq!(classify_symbol_address(&name, 93).unwrap(), 93);
    match classify_symbol_address(&name, 0) {
        Err(LoadError::SymbolNotFound(n)) => assert_eq!(n, "eSocial_Nome"),
        other => panic!("unexpected outcome: {:?}", other),
    }
}

#[test]
fn init_result_classification() {
    assert!(matches!(classify_init_result(0, 0x1000), InitDecision::Accept));
    assert!(matches!(classify_init_result(0, 0), InitDecision::RejectNullContext));
    match classify_init_result(-7, 0x1000) {
        InitDecision::RejectStatus(s) => assert_eq!(s, -7),
        other => panic!("unexpected decision: {:?}", decision_name(&other)),
    }
}

fn decision_name(d: &InitDecision) -> &'static str {
    match d {
        InitDecision::Accept => "Accept",
        InitDecision::RejectNullContext => "RejectNullContext",
        InitDecision::RejectStatus(_) => "RejectStatus",
    }
}

#[test]
fn identifier_maps_to_its_canonical_filename() {
    let id = ACBrLibType::Esocial;
    assert_eq!(id.filename(), "ACBreSocial32.dll");
    assert_eq!(id.code(), 0);
    assert_eq!(lib_kinds(), 1);
}
