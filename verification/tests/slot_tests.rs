use oneshot::slot::Slot;

#[test]
fn slot_starts_empty() {
    let slot: Slot<u32> = Slot::empty();
    assert!(!slot.is_full());
}

#[test]
fn slot_write_then_read_round_trips() {
    let mut slot = Slot::empty();
    slot.write(String::from("payload"));
    assert!(slot.is_full());
    assert_eq!(slot.read(), "payload");
    assert!(!slot.is_full());
}
