use enarx_cli::proto::{
    debug_bytes, BackendInfo, BootRequest, BootResult, Code, InfoRequest, KeepldrInfo,
    KeepldrState, VERSION,
};

// Check for expected public struct names / behaviors
#[test]
fn pub_names() {
    let r = BootResult {
        code: Code::Okay as i32,
        message: "it worked! here, have a hot dog: 🌭".to_string(),
        details: vec![],
    };
    assert_eq!(r.code(), Code::Okay);
    assert_eq!(Code::from_i32(0), Some(Code::Okay));
    assert_eq!(Code::Okay as i32, 0);
}

#[test]
fn code_numbers() {
    assert_eq!(Code::Okay.to_i32(), 0);
    assert_eq!(Code::Unknown.to_i32(), 1);
    assert_eq!(Code::Unknown.to_i32(), Code::Unknown as i32);
    assert_eq!(Code::from_i32(1), Some(Code::Unknown));
    assert_eq!(Code::from_i32(2), None);
    assert_eq!(Code::from_i32(-1), None);
    let r = BootResult { code: 77, message: String::new(), details: vec![] };
    assert_eq!(r.code(), Code::Okay);
    let r = BootResult { code: 1, message: String::new(), details: vec![] };
    assert_eq!(r.code(), Code::Unknown);
}

#[test]
fn info_reports_the_build() {
    let info: KeepldrInfo = KeepldrState::default().info(&InfoRequest {});
    assert_eq!(info.name, "enarx serve");
    assert_eq!(info.version, VERSION);
    assert_eq!(info.version, "0.1.0");
    assert_eq!(info.sallyport_version, "0.1.0");
    assert_eq!(info.backend, Some(BackendInfo { sgx: None, kvm: None, sev: None }));
}

#[test]
fn boot_answers_any_blobs() {
    let state = KeepldrState::default();
    let r = state.boot(&BootRequest { shim: vec![], executable: vec![] });
    assert_eq!(r.code(), Code::Unknown);
    assert_eq!(r.message, "shim: [] exec: []");
    assert!(r.details.is_empty());

    let shim: Vec<u8> = vec![0, 255, 7];
    let executable: Vec<u8> = vec![0x7f, b'E', b'L', b'F'];
    let expected = format!("shim: {:?} exec: {:?}", shim, executable);
    let r = state.boot(&BootRequest { shim, executable });
    assert_eq!(r.code, 1);
    assert_eq!(r.message, "shim: [0, 255, 7] exec: [127, 69, 76, 70]");
    assert_eq!(r.message, expected);
    assert!(!r.message.is_empty());
}

#[test]
fn bytes_are_shown_as_a_list() {
    assert_eq!(debug_bytes(&[]), "[]");
    assert_eq!(debug_bytes(&[9]), "[9]");
    assert_eq!(debug_bytes(&[10, 99, 100]), "[10, 99, 100]");
    let all: Vec<u8> = (0..=255).collect();
    assert_eq!(debug_bytes(&all), format!("{:?}", all));
}
