use trillium_acme::{Step, Transport};

type Socket = Vec<u8>;

#[test]
fn empty_transport_is_empty() {
    assert!(Transport::<Socket>::empty().is_empty());
}

#[test]
fn closed_transport_reads_end_of_stream_every_time() {
    let mut transport = Transport::<Socket>::empty();
    for _ in 0..5 {
        assert!(matches!(transport.poll_read(), Step::Ready(0)));
        assert!(matches!(transport.poll_read_vectored(), Step::Ready(0)));
        assert!(transport.is_empty());
    }
}

#[test]
fn closed_transport_takes_writes_and_sends_nothing() {
    let mut transport = Transport::<Socket>::empty();
    for _ in 0..5 {
        assert!(matches!(transport.poll_write(), Step::Ready(0)));
        assert!(matches!(transport.poll_write_vectored(), Step::Ready(0)));
        assert!(matches!(transport.poll_flush(), Step::Ready(())));
        assert!(transport.is_empty());
    }
}

#[test]
fn closed_transport_closes_again() {
    let mut transport = Transport::<Socket>::empty();
    assert!(matches!(transport.poll_close(), Step::Ready(())));
    assert!(matches!(transport.poll_close(), Step::Ready(())));
    assert!(matches!(transport.poll_read(), Step::Ready(0)));
}

#[test]
fn closed_transport_accepts_every_socket_setting() {
    let mut transport = Transport::<Socket>::empty();
    assert!(matches!(transport.set_nodelay(), Step::Ready(())));
    assert!(matches!(transport.set_linger(), Step::Ready(())));
    assert!(matches!(transport.set_ip_ttl(), Step::Ready(())));
    assert!(matches!(transport.set_nodelay(), Step::Ready(())));
    assert!(transport.is_empty());
}

#[test]
fn closed_transport_has_no_peer() {
    let transport = Transport::<Socket>::empty();
    assert!(matches!(transport.peer_addr::<String>(), Step::Ready(None)));
    assert!(matches!(transport.peer_addr::<(u32, u16)>(), Step::Ready(None)));
}
