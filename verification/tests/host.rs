use rdc_sessions::get_host_name;
use rdc_sessions::SessionError;

fn wide(s: &str) -> Vec<u16> {
    let mut v: Vec<u16> = s.encode_utf16().collect();
    v.push(0);
    v
}

#[test]
fn host_name_is_decoded() {
    assert_eq!(get_host_name(Ok(wide("SERVER01"))), Ok(String::from("SERVER01")));
}

#[test]
fn host_name_failure_code_is_surfaced() {
    assert_eq!(get_host_name(Err(87)), Err(SessionError::HostNameQueryFailed(87)));
}

#[test]
fn host_name_stops_at_terminator() {
    assert_eq!(
        get_host_name(Ok(vec![0x41, 0x42, 0, 0x43, 0])),
        Ok(String::from("AB"))
    );
}

#[test]
fn host_name_empty_buffer() {
    assert_eq!(get_host_name(Ok(vec![0u16; 4])), Ok(String::new()));
    assert_eq!(get_host_name(Ok(Vec::new())), Ok(String::new()));
}

#[test]
fn host_name_combines_surrogate_pair() {
    // 0xD83D 0xDE00 encodes the single character U+1F600.
    assert_eq!(
        get_host_name(Ok(vec![0xD83D, 0xDE00, 0])),
        Ok(String::from("\u{1F600}"))
    );
}

#[test]
fn host_name_rejects_unpaired_surrogates() {
    // A lone low surrogate.
    assert_eq!(
        get_host_name(Ok(vec![0xDC00, 0])),
        Err(SessionError::HostNameDecodeFailed)
    );
    // A high surrogate followed by a plain unit.
    assert_eq!(
        get_host_name(Ok(vec![0xD800, 0x41, 0])),
        Err(SessionError::HostNameDecodeFailed)
    );
    // A high surrogate at the very end of the buffer.
    assert_eq!(
        get_host_name(Ok(vec![0x41, 0xD800])),
        Err(SessionError::HostNameDecodeFailed)
    );
    // A high surrogate stopped by the terminator.
    assert_eq!(
        get_host_name(Ok(vec![0xD800, 0])),
        Err(SessionError::HostNameDecodeFailed)
    );
}
