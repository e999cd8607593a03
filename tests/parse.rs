use yaxi::display::error::Error;
use yaxi::display::parse::{self, DisplayInfo, Protocol};

#[test]
fn test_simple() -> Result<(), Error> {
    let display = parse::parse(Some(":69"))?;

    assert_eq!(
        display,
        DisplayInfo::new(String::new(), Protocol::UnixSocket, 69, 0)
    );

    Ok(())
}

#[test]
fn test_unix() -> Result<(), Error> {
    let display = parse::parse(Some("unix:/some/file/path"))?;

    assert_eq!(
        display,
        DisplayInfo::new(String::from("/some/file/path"), Protocol::UnixSocket, 0, 0)
    );

    Ok(())
}

#[test]
fn test_tcp() -> Result<(), Error> {
    let display = parse::parse(Some("13.37.13.37/tcp:69.420"))?;

    assert_eq!(
        display,
        DisplayInfo::new(String::from("13.37.13.37"), Protocol::TcpSocket, 69, 420)
    );

    Ok(())
}

#[test]
fn parse_without_name_is_invalid() {
    assert_eq!(parse::parse(None), Err(Error::InvalidDisplay));
}

#[test]
fn parse_rejects_unknown_protocol() {
    assert_eq!(
        parse::parse(Some("host/udp:0")),
        Err(Error::InvalidProtocol { protocol: String::from("udp") })
    );
}

#[test]
fn parse_protocol_ignores_case() {
    let display = parse::parse(Some("host/TCP:1")).unwrap();
    assert_eq!(display.protocol, Protocol::TcpSocket);
    assert_eq!(display.display, 1);
}

#[test]
fn parse_rejects_missing_display_number() {
    assert_eq!(parse::parse(Some("host")), Err(Error::InvalidDisplay));
    assert_eq!(parse::parse(Some(":")), Err(Error::InvalidDisplay));
    assert_eq!(parse::parse(Some(":70000")), Err(Error::InvalidDisplay));
    assert_eq!(parse::parse(Some(":1.x")), Err(Error::InvalidDisplay));
}

#[test]
fn parse_accepts_largest_display_number() {
    let display = parse::parse(Some(":65535.+2")).unwrap();
    assert_eq!(display.display, 65535);
    assert_eq!(display.screen, 2);
}
