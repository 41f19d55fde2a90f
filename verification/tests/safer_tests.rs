use oneshot::misuse::MisuseError;
use oneshot::safer_oneshot::Channel;
use std::cell::Cell;
use std::rc::Rc;

struct Token {
    hits: Rc<Cell<usize>>,
}

impl Drop for Token {
    fn drop(&mut self) {
        self.hits.set(self.hits.get() + 1);
    }
}

#[test]
fn safer_round_trip() {
    let mut channel = Channel::new();
    assert_eq!(channel.send(7_u64), Ok(()));
    assert_eq!(channel.receive(), Ok(7));
}

#[test]
fn safer_scenario_hello_world() {
    let mut channel = Channel::new();
    assert_eq!(channel.send("Hello World!"), Ok(()));
    while !channel.is_ready() {}
    assert_eq!(channel.receive(), Ok("Hello World!"));
}

#[test]
fn safer_second_send_rejected() {
    let mut channel = Channel::new();
    assert_eq!(channel.send(1_i32), Ok(()));
    assert_eq!(channel.send(2_i32), Err(MisuseError::SecondSend));
    assert_eq!(
        MisuseError::SecondSend.reason(),
        "Can't send more than one message!"
    );
}

#[test]
fn safer_failed_send_keeps_first_message() {
    let mut channel = Channel::new();
    assert_eq!(channel.send(1_i32), Ok(()));
    assert_eq!(channel.send(2_i32), Err(MisuseError::SecondSend));
    assert!(channel.is_ready());
    assert_eq!(channel.receive(), Ok(1));
}

#[test]
fn safer_double_receive_rejected() {
    let mut channel = Channel::new();
    assert_eq!(channel.send(5_u8), Ok(()));
    assert_eq!(channel.receive(), Ok(5));
    assert_eq!(channel.receive(), Err(MisuseError::NoMessage));
}

#[test]
fn safer_premature_receive_rejected() {
    let mut channel: Channel<String> = Channel::new();
    assert_eq!(channel.receive(), Err(MisuseError::NoMessage));
    assert_eq!(MisuseError::NoMessage.reason(), "No message available!");
}

#[test]
fn safer_is_ready_tracks_lifecycle() {
    let mut channel = Channel::new();
    assert!(!channel.is_ready());
    assert_eq!(channel.send(3_u16), Ok(()));
    assert!(channel.is_ready());
    assert_eq!(channel.receive(), Ok(3));
    assert!(!channel.is_ready());
}

#[test]
fn safer_unread_message_dropped_exactly_once() {
    let hits = Rc::new(Cell::new(0_usize));
    let mut channel = Channel::new();
    assert!(channel.send(Token { hits: hits.clone() }).is_ok());
    assert_eq!(hits.get(), 0);
    drop(channel);
    assert_eq!(hits.get(), 1);
}

#[test]
fn safer_received_message_dropped_exactly_once() {
    let hits = Rc::new(Cell::new(0_usize));
    let mut channel = Channel::new();
    assert!(channel.send(Token { hits: hits.clone() }).is_ok());
    let token = channel.receive();
    assert!(token.is_ok());
    assert_eq!(hits.get(), 0);
    drop(token);
    assert_eq!(hits.get(), 1);
    drop(channel);
    assert_eq!(hits.get(), 1);
}

#[test]
fn safer_rejected_second_message_dropped_exactly_once() {
    let first = Rc::new(Cell::new(0_usize));
    let second = Rc::new(Cell::new(0_usize));
    let mut channel = Channel::new();
    assert!(channel.send(Token { hits: first.clone() }).is_ok());
    assert!(channel.send(Token { hits: second.clone() }).is_err());
    assert_eq!(second.get(), 1);
    assert_eq!(first.get(), 0);
    drop(channel);
    assert_eq!(first.get(), 1);
    assert_eq!(second.get(), 1);
}

#[test]
fn safer_many_fresh_channels_deliver_exactly_once() {
    let mut delivered = 0_usize;
    for i in 0..100_u64 {
        let mut channel = Channel::new();
        assert_eq!(channel.send(i), Ok(()));
        assert_eq!(channel.receive(), Ok(i));
        assert_eq!(channel.receive(), Err(MisuseError::NoMessage));
        delivered += 1;
    }
    assert_eq!(delivered, 100);
}
