use tls_bench::{ConnectedBuffer, Mode, S2NHarness};

#[test]
fn send_callback_queues_the_bytes_and_reports_their_number() {
    let mut channel = ConnectedBuffer::new();
    assert_eq!(S2NHarness::send_cb(&mut channel, Mode::Client, &[1, 2, 3, 4, 5]), 5);
    assert_eq!(S2NHarness::send_cb(&mut channel, Mode::Client, &[]), 0);
    assert_eq!(channel.pending(Mode::Server), 5);
    assert_eq!(channel.pending(Mode::Client), 0);
}

#[test]
fn receive_callback_hands_over_what_the_peer_sent() {
    let mut channel = ConnectedBuffer::new();
    S2NHarness::send_cb(&mut channel, Mode::Server, &[9, 8, 7]);
    let mut data = [0u8; 2];
    assert_eq!(S2NHarness::recv_cb(&mut channel, Mode::Client, &mut data), 2);
    assert_eq!(data, [9, 8]);
    assert_eq!(S2NHarness::recv_cb(&mut channel, Mode::Client, &mut data), 1);
    assert_eq!(data, [7, 8]);
}

#[test]
fn receive_callback_on_empty_queue_asks_for_a_retry() {
    let mut channel = ConnectedBuffer::new();
    let mut data = [5u8; 16];
    errno::set_errno(errno::Errno(0));
    assert_eq!(S2NHarness::recv_cb(&mut channel, Mode::Server, &mut data), -1);
    assert_eq!(errno::errno().0, libc::EWOULDBLOCK);
    assert_eq!(data, [5u8; 16]);
}

#[test]
fn receive_callback_leaves_errno_alone_when_it_delivers() {
    let mut channel = ConnectedBuffer::new();
    S2NHarness::send_cb(&mut channel, Mode::Client, &[1]);
    let mut data = [0u8; 4];
    errno::set_errno(errno::Errno(0));
    assert_eq!(S2NHarness::recv_cb(&mut channel, Mode::Server, &mut data), 1);
    assert_eq!(errno::errno().0, 0);
    assert_eq!(data, [1, 0, 0, 0]);
}

#[test]
fn receive_callback_does_not_read_its_own_writes() {
    let mut channel = ConnectedBuffer::new();
    S2NHarness::send_cb(&mut channel, Mode::Client, &[1, 2, 3]);
    let mut data = [0u8; 4];
    assert_eq!(S2NHarness::recv_cb(&mut channel, Mode::Client, &mut data), -1);
    assert_eq!(channel.pending(Mode::Server), 3);
}

#[test]
fn callbacks_carry_a_record_from_one_role_to_the_other() {
    let mut channel = ConnectedBuffer::new();
    let mut record = Vec::new();
    for i in 0..4096u32 {
        record.push((i * 7 % 256) as u8);
    }
    assert_eq!(S2NHarness::send_cb(&mut channel, Mode::Client, &record), 4096);
    let mut data = vec![0u8; 4096];
    assert_eq!(S2NHarness::recv_cb(&mut channel, Mode::Server, &mut data), 4096);
    assert_eq!(data, record);
}
