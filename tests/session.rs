use fdp::{Action, FDPError, Operation, Session, Setup, MAX_READ_LEN};

fn ready_session() -> Session {
    let mut setup = Setup::start("vm0").unwrap();
    while setup.outcome().is_none() {
        let _ = setup.action();
        setup.advance(true);
    }
    setup.into_session().unwrap()
}

#[test]
fn mock_end_to_end() {
    let canned: [u8; 16] = [0x4d, 0x5a, 0x90, 0, 3, 0, 0, 0, 4, 0, 0, 0, 0xff, 0xff, 0, 0];
    let session = ready_session();
    let mut buf = [0u8; 16];
    let len = session.read_len(buf.len()).unwrap();
    assert_eq!(len, 16);
    // the native read fills the buffer and reports success
    buf.copy_from_slice(&canned);
    assert_eq!(session.complete(Operation::Read, true), Ok(()));
    assert_eq!(buf, canned);
    assert_eq!(session.complete(Operation::Pause, true), Ok(()));
    assert_eq!(session.complete(Operation::Resume, true), Ok(()));
    let rip = 0xfffff800_0265_4321u64;
    assert_eq!(session.complete_value(Operation::Register, true, rip), Ok(rip));
}

#[test]
fn oversized_buffer_is_refused() {
    let session = ready_session();
    assert_eq!(session.read_len(MAX_READ_LEN), Ok(u32::MAX));
    assert_eq!(session.read_len(0), Ok(0));
    if usize::BITS > 32 {
        let over = (MAX_READ_LEN as u64 + 1) as usize;
        assert_eq!(session.read_len(over), Err(FDPError::SizeOverflow));
        assert_eq!(session.read_len(usize::MAX), Err(FDPError::SizeOverflow));
    }
}

#[test]
fn pause_then_resume_report_independently() {
    let session = ready_session();
    assert_eq!(session.complete(Operation::Pause, false), Err(FDPError::Operation(Operation::Pause)));
    assert_eq!(session.complete(Operation::Resume, true), Ok(()));
    assert_eq!(session.complete(Operation::Pause, true), Ok(()));
    assert_eq!(session.complete(Operation::Resume, false), Err(FDPError::Operation(Operation::Resume)));
    assert_eq!(session.complete(Operation::Pause, true), Ok(()));
}

#[test]
fn each_operation_has_its_error() {
    let session = ready_session();
    assert_eq!(session.complete(Operation::Read, false), Err(FDPError::Operation(Operation::Read)));
    assert_eq!(
        session.complete_value(Operation::Register, false, 7),
        Err(FDPError::Operation(Operation::Register))
    );
    assert_eq!(
        session.complete_value(Operation::MemorySize, false, 7),
        Err(FDPError::Operation(Operation::MemorySize))
    );
}

#[test]
fn memory_size_is_passed_through() {
    let session = ready_session();
    let size = 0x1_0000_0000u64;
    let got = session.complete_value(Operation::MemorySize, true, size).unwrap();
    assert_eq!(got, size);
    assert!(got > 0);
}

#[test]
fn session_only_from_ready_setup() {
    let mut setup = Setup::start("vm0").unwrap();
    while setup.outcome().is_none() {
        let init = setup.action() == Action::InitSession;
        setup.advance(!init);
    }
    assert_eq!(setup.into_session().err(), Some(FDPError::Initialization));
}
