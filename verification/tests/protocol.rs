use secure_exec::protocol::{Envelope, Message, StreamType, PROTOCOL_VERSION};

#[test]
fn envelopes_carry_version_one() {
    assert_eq!(PROTOCOL_VERSION, 1);
    let e = Envelope::new(Message::Hello);
    assert_eq!(e.version, 1);
    assert_eq!(e.message, Message::Hello);
    assert_eq!(e.into_message(), Message::Hello);
}

#[test]
fn an_envelope_gives_back_its_message() {
    for m in [Message::Hello, Message::Shutdown] {
        assert_eq!(Envelope::new(m.clone()).into_message(), m);
    }
    let any_version = Envelope { version: 7, message: Message::Shutdown };
    assert_eq!(any_version.into_message(), Message::Shutdown);
}

#[test]
fn stream_types_differ() {
    assert_ne!(StreamType::Stdin, StreamType::Stdout);
    assert_ne!(StreamType::Stdout, StreamType::Stderr);
}
