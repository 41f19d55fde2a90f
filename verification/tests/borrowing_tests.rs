use oneshot::borrowing_oneshot::Channel;
use oneshot::misuse::MisuseError;
use std::cell::Cell;
use std::rc::Rc;

struct Tally {
    hits: Rc<Cell<usize>>,
}

impl Drop for Tally {
    fn drop(&mut self) {
        self.hits.set(self.hits.get() + 1);
    }
}

#[test]
fn borrowing_round_trip() {
    let mut channel = Channel::new();
    let (sender, receiver) = channel.split();
    assert_eq!(sender.send(&mut channel, 11_u32), Ok(()));
    assert_eq!(receiver.receive(&mut channel), Ok(11));
}

#[test]
fn borrowing_scenario_hello_world() {
    let mut channel = Channel::new();
    let (sender, receiver) = channel.split();
    assert_eq!(sender.send(&mut channel, "Hello World!"), Ok(()));
    while !channel.is_ready() {}
    assert_eq!(receiver.receive(&mut channel), Ok("Hello World!"));
}

#[test]
fn borrowing_second_send_rejected() {
    let mut channel = Channel::new();
    let (first, _receiver) = channel.split();
    let (second, receiver) = channel.split();
    assert_eq!(first.send(&mut channel, 1_i32), Ok(()));
    assert_eq!(second.send(&mut channel, 2_i32), Err(MisuseError::SecondSend));
    assert_eq!(receiver.receive(&mut channel), Ok(1));
}

#[test]
fn borrowing_premature_receive_rejected() {
    let mut channel: Channel<String> = Channel::new();
    let (_sender, receiver) = channel.split();
    assert_eq!(receiver.receive(&mut channel), Err(MisuseError::NoMessage));
}

#[test]
fn borrowing_double_receive_rejected() {
    let mut channel = Channel::new();
    let (sender, first) = channel.split();
    let (_sender, second) = channel.split();
    assert_eq!(sender.send(&mut channel, 9_u8), Ok(()));
    assert_eq!(first.receive(&mut channel), Ok(9));
    assert_eq!(second.receive(&mut channel), Err(MisuseError::NoMessage));
}

#[test]
fn borrowing_unread_message_dropped_exactly_once() {
    let hits = Rc::new(Cell::new(0_usize));
    let mut channel = Channel::new();
    let (sender, _receiver) = channel.split();
    assert!(sender.send(&mut channel, Tally { hits: hits.clone() }).is_ok());
    assert_eq!(hits.get(), 0);
    drop(channel);
    assert_eq!(hits.get(), 1);
}
