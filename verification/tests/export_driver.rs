use podo_std_eye::client::{client_get_response, client_start_response};
use podo_std_eye::driver::{any_running, status_of};
use podo_std_eye::export::{export_names, DispatchAction, ExportRegistry};
use podo_std_eye::{
    DriverRunningState, DriverState, Error, EyeRequest, EyeRequestType, EyeResponse, Frame,
    VideoMeta, PORT,
};

fn registry() -> ExportRegistry {
    ExportRegistry::new(vec!["front".to_string(), "rear".to_string()])
}

fn req(name: &str, typ: EyeRequestType) -> EyeRequest {
    EyeRequest { reader: name.to_string(), typ }
}

#[test]
fn port_is_stable() {
    assert_eq!(PORT, 9804);
}

#[test]
fn export_refcount_interleaving() {
    // Start, Start, Stop, Stop: the reader runs exactly while the net
    // count of starts minus stops is at least one.
    let mut r = registry();
    assert!(matches!(
        r.dispatch(&req("front", EyeRequestType::Start)),
        DispatchAction::StartReader { idx: 0 }
    ));
    assert_eq!(r.entry(0).count, 1);
    assert!(r.entry(0).running);

    assert!(matches!(
        r.dispatch(&req("front", EyeRequestType::Start)),
        DispatchAction::StartReader { idx: 0 }
    ));
    assert_eq!(r.entry(0).count, 2);
    assert!(r.entry(0).running);

    // The first Stop leaves one client: the reader keeps running.
    assert!(matches!(
        r.dispatch(&req("front", EyeRequestType::Stop)),
        DispatchAction::StopReader { idx: 0, stop: false }
    ));
    assert_eq!(r.entry(0).count, 1);
    assert!(r.entry(0).running);

    // The last Stop asks for the reader to be stopped.
    assert!(matches!(
        r.dispatch(&req("front", EyeRequestType::Stop)),
        DispatchAction::StopReader { idx: 0, stop: true }
    ));
    assert_eq!(r.entry(0).count, 0);
    assert!(!r.entry(0).running);

    // The other reader was never touched.
    assert_eq!(r.entry(1).count, 0);
    assert!(!r.entry(1).running);
}

#[test]
fn export_get_leaves_counts_alone() {
    let mut r = registry();
    assert!(matches!(
        r.dispatch(&req("rear", EyeRequestType::Get)),
        DispatchAction::GetFrame { idx: 1 }
    ));
    assert_eq!(r.entry(1).count, 0);
    assert!(!r.entry(1).running);
}

#[test]
fn export_unbalanced_stop_clamps() {
    // A Stop with no client in: the count clamps at zero instead of
    // wrapping around.
    let mut r = registry();
    assert!(matches!(
        r.dispatch(&req("front", EyeRequestType::Stop)),
        DispatchAction::StopReader { idx: 0, stop: true }
    ));
    assert_eq!(r.entry(0).count, 0);
    assert!(!r.entry(0).running);
}

#[test]
fn export_no_such_reader() {
    let mut r = registry();
    assert!(matches!(
        r.dispatch(&req("absent", EyeRequestType::Start)),
        DispatchAction::RespondNoSuchReader
    ));
    assert_eq!(r.find(&"absent".to_string()), None);
    assert_eq!(r.find(&"rear".to_string()), Some(1));
}

#[test]
fn client_start_fails_on_no_such_reader() {
    // The remote side does not export the configured name: the start is a
    // protocol failure.
    let resp = EyeResponse::NoSuchReader("main".to_string());
    assert_eq!(client_start_response(&resp), Err(Error::Protocol));
    assert_eq!(client_start_response(&EyeResponse::Awk), Ok(()));
}

#[test]
fn client_get_classifies_responses() {
    let meta = VideoMeta { codec: None, color: None, width: 1, height: 1, fps: 1 };
    let frame = Frame::new(meta).unwrap();
    let got = client_get_response(EyeResponse::Frame(Ok(frame)));
    assert_eq!(got.unwrap().count, 0);
    assert_eq!(
        client_get_response(EyeResponse::Frame(Err("boom".to_string()))).unwrap_err(),
        Error::Internal
    );
    assert_eq!(client_get_response(EyeResponse::Awk).unwrap_err(), Error::Protocol);
    assert_eq!(
        client_get_response(EyeResponse::NoSuchReader("x".to_string())).unwrap_err(),
        Error::Protocol
    );
}

#[test]
fn status_priorities() {
    let busy = DriverState::Running(DriverRunningState::Busy);
    let normal = DriverState::Running(DriverRunningState::Normal);
    let lazy = DriverState::Running(DriverRunningState::Lazy);
    assert_eq!(status_of(true, true, true), busy);
    assert_eq!(status_of(true, false, false), busy);
    assert_eq!(status_of(false, true, false), normal);
    assert_eq!(status_of(false, true, true), normal);
    assert_eq!(status_of(false, false, true), lazy);
    assert_eq!(status_of(false, false, false), DriverState::Idle);
}

#[test]
fn hibernate_then_wake_reports_lazy_idle_lazy() {
    // With no readers started and no connections, the report follows the
    // export server alone across hibernate and wake.
    let readers = vec![false, false];
    let busy = false;
    let mut export_alive = true;
    assert_eq!(
        status_of(busy, any_running(&readers), export_alive),
        DriverState::Running(DriverRunningState::Lazy)
    );
    export_alive = false;  // hibernate stops the export server
    assert_eq!(status_of(busy, any_running(&readers), export_alive), DriverState::Idle);
    export_alive = true;  // wake_up starts it again
    assert_eq!(
        status_of(busy, any_running(&readers), export_alive),
        DriverState::Running(DriverRunningState::Lazy)
    );
}

#[test]
fn any_running_finds_a_flag() {
    assert!(!any_running(&vec![]));
    assert!(!any_running(&vec![false, false]));
    assert!(any_running(&vec![false, true, false]));
}

#[test]
fn export_names_filters_in_order() {
    let readers = vec![
        ("front".to_string(), true),
        ("file".to_string(), false),
        ("rear".to_string(), true),
        ("remote".to_string(), false),
    ];
    assert_eq!(export_names(&readers), vec!["front".to_string(), "rear".to_string()]);
    assert_eq!(export_names(&vec![]), Vec::<String>::new());
    assert_eq!(export_names(&vec![("a".to_string(), false)]), Vec::<String>::new());
}
