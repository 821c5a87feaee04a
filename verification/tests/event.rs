use zloader::error::Error;
use zloader::event::{EbpfEvent, RECORD_SIZE};

fn record(tag: u32, pid: i32, word: u32, long: u64) -> Vec<u8> {
    let mut bytes = Vec::new();
    bytes.extend_from_slice(&tag.to_le_bytes());
    bytes.extend_from_slice(&[0xaa; 4]);
    bytes.extend_from_slice(&pid.to_le_bytes());
    bytes.extend_from_slice(&word.to_le_bytes());
    bytes.extend_from_slice(&long.to_le_bytes());
    bytes
}

#[test]
fn record_has_twenty_four_bytes() {
    assert_eq!(RECORD_SIZE, 24);
    assert_eq!(EbpfEvent::ZygoteStarted(1).encode().len(), 24);
}

#[test]
fn events_are_read_by_tag() {
    assert!(matches!(EbpfEvent::decode(&record(0, 100, 7, 9)), Ok(EbpfEvent::ZygoteStarted(100))));
    assert!(matches!(EbpfEvent::decode(&record(1, 200, 7, 9)), Ok(EbpfEvent::ZygoteForked(200))));
    assert!(matches!(EbpfEvent::decode(&record(2, 100, 7, 9)), Ok(EbpfEvent::ZygoteCrashed(100))));
    assert!(matches!(
        EbpfEvent::decode(&record(3, 200, 7, 9)),
        Ok(EbpfEvent::RequireUprobeAttach(200))
    ));
    assert!(matches!(
        EbpfEvent::decode(&record(4, 200, 7, 0x7ff1_2345_6789)),
        Ok(EbpfEvent::RequireInject(200, 0x7ff1_2345_6789))
    ));
    assert!(matches!(
        EbpfEvent::decode(&record(5, 300, 10123, 9)),
        Ok(EbpfEvent::RequireUmount(300, 10123))
    ));
}

#[test]
fn unknown_tag_is_refused() {
    assert!(matches!(EbpfEvent::decode(&record(6, 1, 0, 0)), Err(Error::ChannelDecodeFailed)));
    assert!(matches!(
        EbpfEvent::decode(&record(u32::MAX, 1, 0, 0)),
        Err(Error::ChannelDecodeFailed)
    ));
    assert!(matches!(EbpfEvent::decode(&record(0x100, 1, 0, 0)), Err(Error::ChannelDecodeFailed)));
}

#[test]
fn record_of_wrong_size_is_refused() {
    let bytes = record(0, 1, 0, 0);
    assert!(matches!(EbpfEvent::decode(&bytes[..23]), Err(Error::ChannelDecodeFailed)));
    assert!(matches!(EbpfEvent::decode(&[]), Err(Error::ChannelDecodeFailed)));
    let mut longer = bytes.clone();
    longer.push(0);
    assert!(matches!(EbpfEvent::decode(&longer), Err(Error::ChannelDecodeFailed)));
}

#[test]
fn record_is_written_field_by_field() {
    assert_eq!(
        EbpfEvent::RequireInject(200, 0x1122_3344_5566_7788).encode(),
        vec![
            4, 0, 0, 0, 0, 0, 0, 0, 200, 0, 0, 0, 0, 0, 0, 0, 0x88, 0x77, 0x66, 0x55, 0x44,
            0x33, 0x22, 0x11,
        ]
    );
    assert_eq!(
        EbpfEvent::RequireUmount(0x0102_0304, 0x0a0b_0c0d).encode(),
        vec![5, 0, 0, 0, 0, 0, 0, 0, 4, 3, 2, 1, 0x0d, 0x0c, 0x0b, 0x0a, 0, 0, 0, 0, 0, 0, 0, 0]
    );
    assert_eq!(
        EbpfEvent::ZygoteCrashed(-2).encode(),
        vec![2, 0, 0, 0, 0, 0, 0, 0, 0xfe, 0xff, 0xff, 0xff, 0, 0, 0, 0, 0, 0, 0, 0, 0, 0, 0, 0]
    );
}

#[test]
fn written_record_is_read_back() {
    let events = [
        EbpfEvent::ZygoteStarted(100),
        EbpfEvent::ZygoteForked(i32::MAX),
        EbpfEvent::ZygoteCrashed(i32::MIN),
        EbpfEvent::RequireUprobeAttach(-1),
        EbpfEvent::RequireInject(0, u64::MAX),
        EbpfEvent::RequireInject(200, 0x8000_0000_0000_0000),
        EbpfEvent::RequireUmount(300, u32::MAX),
        EbpfEvent::RequireUmount(0x7fff_ffff, 0x8000_0000),
    ];
    for event in events {
        assert_eq!(EbpfEvent::decode(&event.encode()).ok(), Some(event));
        assert_eq!(
            event.pid(),
            match event {
                EbpfEvent::ZygoteStarted(pid)
                | EbpfEvent::ZygoteForked(pid)
                | EbpfEvent::ZygoteCrashed(pid)
                | EbpfEvent::RequireUprobeAttach(pid)
                | EbpfEvent::RequireInject(pid, _)
                | EbpfEvent::RequireUmount(pid, _) => pid,
            }
        );
    }
}
