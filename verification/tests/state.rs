use rdc_sessions::RemoteDesktopSessionState;
use rdc_sessions::SessionError;

#[test]
fn classify_maps_each_code() {
    let expected = [
        RemoteDesktopSessionState::Active,
        RemoteDesktopSessionState::Connected,
        RemoteDesktopSessionState::ConnectQuery,
        RemoteDesktopSessionState::Shadow,
        RemoteDesktopSessionState::Disconnected,
        RemoteDesktopSessionState::Idle,
        RemoteDesktopSessionState::Listen,
        RemoteDesktopSessionState::Reset,
        RemoteDesktopSessionState::Down,
        RemoteDesktopSessionState::Init,
    ];
    for code in 0..10i32 {
        assert_eq!(
            RemoteDesktopSessionState::classify(code),
            Ok(expected[code as usize])
        );
        assert_eq!(
            RemoteDesktopSessionState::get_variant(code),
            expected[code as usize]
        );
    }
}

#[test]
fn classify_rejects_out_of_range() {
    for code in [-1i32, 10, 11, 255, i32::MIN, i32::MAX] {
        assert_eq!(
            RemoteDesktopSessionState::classify(code),
            Err(SessionError::InvalidStateCode(code))
        );
    }
}

#[test]
fn classify_codes_are_distinct() {
    for i in 0..10i32 {
        for j in 0..10i32 {
            if i != j {
                assert_ne!(
                    RemoteDesktopSessionState::classify(i),
                    RemoteDesktopSessionState::classify(j)
                );
            }
        }
    }
}
