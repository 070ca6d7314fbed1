use msvisor::buffer::{BufferError, BufferHost, BufferOwner, DataBuffer, Verify};

#[test]
fn buffer_round_trip() {
    let mut host = BufferHost::new();
    let mut sent: DataBuffer<u64> = DataBuffer::with_slot(&mut host, String::from("answer"));
    assert_eq!(sent.value, 0);
    sent.set_value(&mut host, 0x1122334455667788);
    let got = DataBuffer::<u64>::from_buffer_slot(&host, String::from("answer"))
        .expect("type check failed")
        .expect("no buffer registered");
    assert_eq!(got.value, 0x1122334455667788);
    assert_eq!(got.owner, BufferOwner::ChannelOwned);
    assert_eq!(sent.owner, BufferOwner::LocallyOwned);
    // exactly one deallocation across the pair: the accessing side's
    got.release(&mut host);
    assert!(matches!(
        DataBuffer::<u64>::from_buffer_slot(&host, String::from("answer")),
        Ok(None)
    ));
    sent.release(&mut host);
    assert!(matches!(
        DataBuffer::<u64>::from_buffer_slot(&host, String::from("answer")),
        Ok(None)
    ));
}

#[test]
fn unnamed_slot_round_trip() {
    let mut host = BufferHost::new();
    let mut sent: DataBuffer<u64> = DataBuffer::new(&mut host);
    sent.set_value(&mut host, 7);
    let got = DataBuffer::<u64>::from_buffer(&host)
        .expect("type check failed")
        .expect("no buffer registered");
    assert_eq!(got.value, 7);
}

#[test]
fn from_value_registers_the_value() {
    let mut host = BufferHost::new();
    let sent = DataBuffer::from_value(&mut host, 42u64);
    assert_eq!(sent.value, 42);
    assert_eq!(sent.owner, BufferOwner::LocallyOwned);
    let got = DataBuffer::<u64>::from_buffer(&host)
        .expect("type check failed")
        .expect("no buffer registered");
    assert_eq!(got.value, 42);
}

#[test]
fn fingerprint_mismatch_fails() {
    let mut host = BufferHost::new();
    let _sent: DataBuffer<()> = DataBuffer::new(&mut host);
    let got = DataBuffer::<u64>::from_buffer(&host);
    assert!(matches!(got, Err(BufferError::FingerprintMismatch)));
}

#[test]
fn missing_slot_yields_nothing() {
    let host = BufferHost::new();
    assert!(matches!(
        DataBuffer::<u64>::from_buffer_slot(&host, String::from("nowhere")),
        Ok(None)
    ));
}

#[test]
fn malformed_bytes_fail() {
    let mut host = BufferHost::new();
    host.register(
        &String::from("bad"),
        <u64 as Verify>::__fingerprint(),
        vec![1, 2, 3],
    );
    let got = DataBuffer::<u64>::from_buffer_slot(&host, String::from("bad"));
    assert!(matches!(got, Err(BufferError::MalformedData)));
}

#[test]
fn fingerprints_and_encodings() {
    assert_ne!(
        <() as Verify>::__fingerprint(),
        <u64 as Verify>::__fingerprint()
    );
    let v: u64 = 0x1122334455667788;
    assert_eq!(
        v.encode(),
        vec![0x88, 0x77, 0x66, 0x55, 0x44, 0x33, 0x22, 0x11]
    );
    assert_eq!(
        u64::decode(&vec![0x88, 0x77, 0x66, 0x55, 0x44, 0x33, 0x22, 0x11]),
        Some(v)
    );
    assert_eq!(u64::decode(&vec![1, 2, 3]), None);
    assert_eq!(().encode(), Vec::<u8>::new());
    assert_eq!(<() as Verify>::decode(&Vec::new()), Some(()));
}
