use oneshot::unchecked_oneshot::Channel;

#[test]
fn unchecked_round_trip() {
    let mut channel = Channel::new();
    assert!(!channel.is_ready());
    channel.send(21_u64);
    assert!(channel.is_ready());
    assert_eq!(channel.receive(), 21);
}

#[test]
fn unchecked_scenario_hello_world() {
    let mut channel = Channel::new();
    channel.send("Hello World!");
    while !channel.is_ready() {}
    assert_eq!(channel.receive(), "Hello World!");
}

#[test]
fn unchecked_many_fresh_channels_deliver_exactly_once() {
    let mut delivered = 0_usize;
    for i in 0..100_u32 {
        let mut channel = Channel::new();
        channel.send(i);
        assert_eq!(channel.receive(), i);
        delivered += 1;
    }
    assert_eq!(delivered, 100);
}
