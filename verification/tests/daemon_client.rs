use mentci_egui::daemon_client::{DaemonClient, DaemonFrame, SocketKind, MAXIMUM_FRAME_BYTES};
use mentci_egui::error::Error;
use mentci_egui::sockets::SocketEnvironment;

#[test]
fn client_sockets_follow_the_environment() {
    let mut environment = SocketEnvironment::default();
    let client = DaemonClient::from_environment(&environment);
    assert_eq!(client.ordinary_socket(), "/tmp/mentci.socket");
    assert_eq!(client.meta_socket(), "/tmp/mentci-meta.socket");

    environment.runtime_directory = Some("/run/user/7".to_string());
    let client = DaemonClient::from_environment(&environment);
    assert_eq!(client.ordinary_socket(), "/run/user/7/mentci.socket");
    assert_eq!(client.meta_socket(), "/run/user/7/mentci-meta.socket");

    environment.mentci_socket = Some("/a.socket".to_string());
    environment.mentci_meta_socket = Some("/b.socket".to_string());
    let client = DaemonClient::from_environment(&environment);
    assert_eq!(client.ordinary_socket(), "/a.socket");
    assert_eq!(client.meta_socket(), "/b.socket");
}

#[test]
fn new_client_has_default_meta_socket_and_limit() {
    let client = DaemonClient::new("/run/mentci.socket");
    assert_eq!(client.ordinary_socket(), "/run/mentci.socket");
    assert_eq!(client.meta_socket(), "/tmp/mentci-meta.socket");
    assert_eq!(client.maximum_frame_bytes(), 16 * 1024 * 1024);
    let client = client.with_meta_socket("/run/meta.socket");
    assert_eq!(client.meta_socket(), "/run/meta.socket");
    assert_eq!(client.ordinary_socket(), "/run/mentci.socket");
}

#[test]
fn frame_length_is_big_endian_and_bounded() {
    let client = DaemonClient::new("/s");
    assert_eq!(client.frame_length([0, 0, 1, 2]), Ok(258));
    assert_eq!(client.frame_length([0, 0x0, 0, 0]), Ok(0));
    assert_eq!(client.frame_length([0x01, 0, 0, 0]), Ok(MAXIMUM_FRAME_BYTES));
    assert_eq!(
        client.frame_length([0x01, 0, 0, 1]),
        Err(Error::FrameTooLarge {
            maximum: MAXIMUM_FRAME_BYTES,
            found: 16_777_217
        })
    );
    assert_eq!(
        client.frame_length([0xff, 0xff, 0xff, 0xff]),
        Err(Error::FrameTooLarge {
            maximum: MAXIMUM_FRAME_BYTES,
            found: 4_294_967_295
        })
    );
    assert_eq!(
        Error::FrameTooLarge {
            maximum: 16,
            found: 17
        }
        .message(),
        "daemon frame too large: maximum 16 bytes, found 17"
    );
    assert_eq!(
        Error::UnexpectedDaemonFrame("x".to_string()).message(),
        "unexpected daemon frame: x"
    );
}

#[test]
fn reply_frames_read_as_the_transcript_shows_them() {
    let client = DaemonClient::new("/s");
    let text = |frame: DaemonFrame<String, String>| client.reply_nota(frame);
    assert_eq!(text(DaemonFrame::AcceptedOk("(Reply)".to_string())), Ok("(Reply)".to_string()));
    assert_eq!(text(DaemonFrame::AcceptedOther("Failed".to_string())), Ok("Failed".to_string()));
    assert_eq!(text(DaemonFrame::Rejected("Busy".to_string())), Ok("Busy".to_string()));
    assert_eq!(
        text(DaemonFrame::SubscriptionEvent("(Event)".to_string(), "Body".to_string())),
        Ok("(Event)".to_string())
    );
    assert_eq!(
        text(DaemonFrame::Other("Request".to_string())),
        Err(Error::UnexpectedDaemonFrame("Request".to_string()))
    );

    let typed = |frame: DaemonFrame<u8, u8>| client.reply_output(frame);
    assert_eq!(typed(DaemonFrame::AcceptedOk(7)), Ok(7));
    assert_eq!(
        typed(DaemonFrame::Rejected("Busy".to_string())),
        Err(Error::UnexpectedDaemonFrame("rejected: Busy".to_string()))
    );
    assert_eq!(
        typed(DaemonFrame::SubscriptionEvent(1, "Event".to_string())),
        Err(Error::UnexpectedDaemonFrame("Event".to_string()))
    );
    assert_eq!(
        typed(DaemonFrame::AcceptedOther("Failed".to_string())),
        Err(Error::UnexpectedDaemonFrame("Failed".to_string()))
    );
}

#[test]
fn transcript_entries_name_socket_and_operation() {
    let client = DaemonClient::new("/run/mentci.socket").with_meta_socket("/run/meta.socket");
    let entry = client.interface_state_entry("(Observe)".to_string(), "(Opened)".to_string());
    assert_eq!(entry.socket_kind, SocketKind::Mentci);
    assert_eq!(entry.operation, "ObserveInterfaceState");
    assert_eq!(entry.socket_path, "/run/mentci.socket");
    assert_eq!(entry.request_nota, "(Observe)");
    assert_eq!(entry.reply_nota, "(Opened)");

    let placeholder = client.meta_mode_placeholder();
    assert_eq!(placeholder.socket_kind, SocketKind::MetaMentci);
    assert_eq!(placeholder.operation, "MetaMode");
    assert_eq!(placeholder.socket_path, "/run/meta.socket");
    assert_eq!(placeholder.request_nota, "(meta mode selected)");
    assert!(placeholder.reply_nota.starts_with("mentci-daemon does not expose a live meta socket yet"));
    assert_eq!(SocketKind::Mentci.label(), "Mentci");
    assert_eq!(SocketKind::MetaMentci.label(), "MetaMentci");
}
