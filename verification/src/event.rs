//! Events of the kernel-side tracer and their records on the event channel.

use crate::error::Error;
use vstd::prelude::*;

verus! {

/// What the kernel-side tracer tells the reactor.
#[derive(Clone, Copy, Debug, PartialEq, Eq, Structural)]
pub enum EbpfEvent {
    /// A task renamed itself to the name of the zygote.
    ZygoteStarted(i32),
    /// The zygote created a new process.
    ZygoteForked(i32),
    /// The zygote exited.
    ZygoteCrashed(i32),
    /// A forked child has entered its own code and is stopped.
    RequireUprobeAttach(i32),
    /// A child has hit the probe on the specialization function and is
    /// stopped; the second field is the address to which that function was
    /// to return.
    RequireInject(i32, u64),
    /// A child has left the zygote's mount namespace and is stopped; the
    /// second field is its user id.
    RequireUmount(i32, u32),
}

/// Size of a record on the channel.
pub const RECORD_SIZE: usize = 24;

/// The byte of `value` at position `k` when it is stored with its low byte
/// first.
pub open spec fn byte_at(value: u64, k: int) -> u8
    recommends
        0 <= k < 8,
{
    crate::remote::le_byte(value, k)
}

/// The 32-bit number stored at `at` with its low byte first.
pub open spec fn le32(bytes: Seq<u8>, at: int) -> u32
    recommends
        0 <= at,
        at + 4 <= bytes.len(),
{
    (bytes[at] + bytes[at + 1] * 0x100 + bytes[at + 2] * 0x1_0000 + bytes[at + 3] * 0x100_0000) as u32
}

/// The 64-bit number stored at `at` with its low byte first.
pub open spec fn le64(bytes: Seq<u8>, at: int) -> u64
    recommends
        0 <= at,
        at + 8 <= bytes.len(),
{
    (le32(bytes, at) + le32(bytes, at + 4) * 0x1_0000_0000) as u64
}

/// The bits of a process id.
pub open spec fn pid_bits(pid: i32) -> u32 {
    if pid >= 0 {
        pid as u32
    } else {
        (pid + 0x1_0000_0000) as u32
    }
}

/// The process id that bits stand for.
pub open spec fn bits_pid(bits: u32) -> i32 {
    if bits < 0x8000_0000 {
        bits as i32
    } else {
        (bits - 0x1_0000_0000) as i32
    }
}

impl EbpfEvent {
    /// The number by which a record names the kind of its event.
    pub open spec fn tag(self) -> u32 {
        match self {
            EbpfEvent::ZygoteStarted(_) => 0,
            EbpfEvent::ZygoteForked(_) => 1,
            EbpfEvent::ZygoteCrashed(_) => 2,
            EbpfEvent::RequireUprobeAttach(_) => 3,
            EbpfEvent::RequireInject(_, _) => 4,
            EbpfEvent::RequireUmount(_, _) => 5,
        }
    }

    /// The process that the event is about.
    pub open spec fn subject(self) -> i32 {
        match self {
            EbpfEvent::ZygoteStarted(pid) => pid,
            EbpfEvent::ZygoteForked(pid) => pid,
            EbpfEvent::ZygoteCrashed(pid) => pid,
            EbpfEvent::RequireUprobeAttach(pid) => pid,
            EbpfEvent::RequireInject(pid, _) => pid,
            EbpfEvent::RequireUmount(pid, _) => pid,
        }
    }

    /// The second field of the event, where it is 32 bits wide.
    pub open spec fn word(self) -> u32 {
        match self {
            EbpfEvent::RequireUmount(_, uid) => uid,
            _ => 0,
        }
    }

    /// The second field of the event, where it is 64 bits wide.
    pub open spec fn long(self) -> u64 {
        match self {
            EbpfEvent::RequireInject(_, addr) => addr,
            _ => 0,
        }
    }

    /// Whether the event tells of a child that the tracer has stopped, and
    /// that waits to be continued.
    pub open spec fn stops(self) -> bool {
        self is RequireUprobeAttach || self is RequireInject || self is RequireUmount
    }

    /// The process that the event is about.
    pub fn pid(&self) -> (pid: i32)
        ensures
            pid == self.subject(),
    {
        match self {
            EbpfEvent::ZygoteStarted(pid) => *pid,
            EbpfEvent::ZygoteForked(pid) => *pid,
            EbpfEvent::ZygoteCrashed(pid) => *pid,
            EbpfEvent::RequireUprobeAttach(pid) => *pid,
            EbpfEvent::RequireInject(pid, _) => *pid,
            EbpfEvent::RequireUmount(pid, _) => *pid,
        }
    }
}

/// The record of an event: the tag in the first four bytes, the process id
/// in bytes 8 to 11, a 32-bit second field in bytes 12 to 15, a 64-bit
/// second field in bytes 16 to 23, every number with its low byte first,
/// and zero wherever the event has nothing to store.
pub open spec fn encoded(event: EbpfEvent) -> Seq<u8> {
    Seq::new(
        24,
        |i: int|
            if i < 4 {
                byte_at(event.tag() as u64, i)
            } else if i < 8 {
                0u8
            } else if i < 12 {
                byte_at(pid_bits(event.subject()) as u64, i - 8)
            } else if i < 16 {
                byte_at(event.word() as u64, i - 12)
            } else {
                byte_at(event.long(), i - 16)
            },
    )
}

/// The event that a record stands for: `None` for a record of the wrong
/// size or with a tag that names no event. Bytes that the kind of the event
/// does not use are not looked at.
pub open spec fn decoded(bytes: Seq<u8>) -> Option<EbpfEvent> {
    if bytes.len() != 24 {
        None
    } else {
        let tag = le32(bytes, 0);
        let pid = bits_pid(le32(bytes, 8));
        if tag == 0 {
            Some(EbpfEvent::ZygoteStarted(pid))
        } else if tag == 1 {
            Some(EbpfEvent::ZygoteForked(pid))
        } else if tag == 2 {
            Some(EbpfEvent::ZygoteCrashed(pid))
        } else if tag == 3 {
            Some(EbpfEvent::RequireUprobeAttach(pid))
        } else if tag == 4 {
            Some(EbpfEvent::RequireInject(pid, le64(bytes, 16)))
        } else if tag == 5 {
            Some(EbpfEvent::RequireUmount(pid, le32(bytes, 12)))
        } else {
            None
        }
    }
}

/// Reads the 32-bit number stored at `at` with its low byte first.
pub fn read32(bytes: &[u8], at: usize) -> (value: u32)
    requires
        at + 4 <= bytes@.len(),
    ensures
        value == le32(bytes@, at as int),
{
    let b0: u32 = bytes[at] as u32;
    let b1: u32 = bytes[at + 1] as u32;
    let b2: u32 = bytes[at + 2] as u32;
    let b3: u32 = bytes[at + 3] as u32;
    b0 + b1 * 0x100 + b2 * 0x1_0000 + b3 * 0x100_0000
}

/// Reads the 64-bit number stored at `at` with its low byte first.
pub fn read64(bytes: &[u8], at: usize) -> (value: u64)
    requires
        at + 8 <= bytes@.len(),
    ensures
        value == le64(bytes@, at as int),
{
    let size: usize = bytes.len();
    let low: u64 = read32(bytes, at) as u64;
    let high: u64 = read32(bytes, at + 4) as u64;
    low + high * 0x1_0000_0000
}

fn to_pid(bits: u32) -> (pid: i32)
    ensures
        pid == bits_pid(bits),
{
    if bits < 0x8000_0000 {
        bits as i32
    } else {
        let rest: i32 = (bits - 0x8000_0000) as i32;
        rest - 0x4000_0000 - 0x4000_0000
    }
}

fn of_pid(pid: i32) -> (bits: u32)
    ensures
        bits == pid_bits(pid),
{
    if pid >= 0 {
        pid as u32
    } else {
        let rest: u32 = (pid + 0x4000_0000 + 0x4000_0000) as u32;
        rest + 0x8000_0000
    }
}

impl EbpfEvent {
    /// Reads an event from a record of the channel.
    pub fn decode(bytes: &[u8]) -> (event: Result<EbpfEvent, Error>)
        ensures
            match decoded(bytes@) {
                Some(e) => event matches Ok(read) && read == e,
                None => event matches Err(Error::ChannelDecodeFailed),
            },
    {
        if bytes.len() != RECORD_SIZE {
            return Err(Error::ChannelDecodeFailed);
        }
        let tag: u32 = read32(bytes, 0);
        let pid: i32 = to_pid(read32(bytes, 8));
        if tag == 0 {
            Ok(EbpfEvent::ZygoteStarted(pid))
        } else if tag == 1 {
            Ok(EbpfEvent::ZygoteForked(pid))
        } else if tag == 2 {
            Ok(EbpfEvent::ZygoteCrashed(pid))
        } else if tag == 3 {
            Ok(EbpfEvent::RequireUprobeAttach(pid))
        } else if tag == 4 {
            Ok(EbpfEvent::RequireInject(pid, read64(bytes, 16)))
        } else if tag == 5 {
            Ok(EbpfEvent::RequireUmount(pid, read32(bytes, 12)))
        } else {
            Err(Error::ChannelDecodeFailed)
        }
    }

    /// The record of the event.
    pub fn encode(&self) -> (bytes: Vec<u8>)
        ensures
            bytes@ == encoded(*self),
    {
        let (tag, word, long): (u32, u32, u64) = match self {
            EbpfEvent::ZygoteStarted(_) => (0, 0, 0),
            EbpfEvent::ZygoteForked(_) => (1, 0, 0),
            EbpfEvent::ZygoteCrashed(_) => (2, 0, 0),
            EbpfEvent::RequireUprobeAttach(_) => (3, 0, 0),
            EbpfEvent::RequireInject(_, addr) => (4, 0, *addr),
            EbpfEvent::RequireUmount(_, uid) => (5, *uid, 0),
        };
        let first = crate::remote::word_bytes(tag as u64);
        let second = crate::remote::word_bytes(of_pid(self.pid()) as u64);
        let third = crate::remote::word_bytes(word as u64);
        let fourth = crate::remote::word_bytes(long);
        let mut bytes: Vec<u8> = Vec::new();
        bytes.push(first[0]);
        bytes.push(first[1]);
        bytes.push(first[2]);
        bytes.push(first[3]);
        bytes.push(0);
        bytes.push(0);
        bytes.push(0);
        bytes.push(0);
        bytes.push(second[0]);
        bytes.push(second[1]);
        bytes.push(second[2]);
        bytes.push(second[3]);
        bytes.push(third[0]);
        bytes.push(third[1]);
        bytes.push(third[2]);
        bytes.push(third[3]);
        bytes.push(fourth[0]);
        bytes.push(fourth[1]);
        bytes.push(fourth[2]);
        bytes.push(fourth[3]);
        bytes.push(fourth[4]);
        bytes.push(fourth[5]);
        bytes.push(fourth[6]);
        bytes.push(fourth[7]);
        assert(bytes@ =~= encoded(*self));
        bytes
    }
}

/// A 32-bit number is the sum of its bytes, each at its place.
proof fn lemma_bytes_make_word(value: u32)
    ensures
        value == byte_at(value as u64, 0) + byte_at(value as u64, 1) * 0x100 + byte_at(
            value as u64,
            2,
        ) * 0x1_0000 + byte_at(value as u64, 3) * 0x100_0000,
{
    let wide = value as u64;
    assert(wide == wide % 0x100 + (wide / 0x100 % 0x100) * 0x100 + (wide / 0x1_0000 % 0x100)
        * 0x1_0000 + (wide / 0x100_0000 % 0x100) * 0x100_0000) by (bit_vector)
        requires
            wide < 0x1_0000_0000,
    ;
}

/// The bytes of a 64-bit number are those of its two halves.
proof fn lemma_bytes_of_halves(value: u64)
    ensures
        forall|k: int|
            0 <= k < 4 ==> #[trigger] byte_at(value, k) == byte_at(value % 0x1_0000_0000, k),
        forall|k: int|
            4 <= k < 8 ==> #[trigger] byte_at(value, k) == byte_at(value / 0x1_0000_0000, k - 4),
{
    let low = value % 0x1_0000_0000;
    let high = value / 0x1_0000_0000;
    assert(value % 0x100 == low % 0x100 && value / 0x100 % 0x100 == low / 0x100 % 0x100 && value
        / 0x1_0000 % 0x100 == low / 0x1_0000 % 0x100 && value / 0x100_0000 % 0x100 == low
        / 0x100_0000 % 0x100) by (bit_vector)
        requires
            low == value % 0x1_0000_0000,
    ;
    assert(value / 0x1_0000_0000 % 0x100 == high % 0x100 && value / 0x100_0000_0000 % 0x100 == high
        / 0x100 % 0x100 && value / 0x1_0000_0000_0000 % 0x100 == high / 0x1_0000 % 0x100 && value
        / 0x100_0000_0000_0000 % 0x100 == high / 0x100_0000 % 0x100) by (bit_vector)
        requires
            high == value / 0x1_0000_0000,
    ;
}

proof fn lemma_le32_of_bytes(bytes: Seq<u8>, at: int, value: u32)
    requires
        0 <= at,
        at + 4 <= bytes.len(),
        forall|k: int| 0 <= k < 4 ==> bytes[at + k] == #[trigger] byte_at(value as u64, k),
    ensures
        le32(bytes, at) == value,
{
    assert(bytes[at] == byte_at(value as u64, 0));
    assert(bytes[at + 1] == byte_at(value as u64, 1));
    assert(bytes[at + 2] == byte_at(value as u64, 2));
    assert(bytes[at + 3] == byte_at(value as u64, 3));
    lemma_bytes_make_word(value);
}

/// Bytes that are those of a number are read as that number.
pub proof fn lemma_le64_of_bytes(bytes: Seq<u8>, at: int, value: u64)
    requires
        0 <= at,
        at + 8 <= bytes.len(),
        forall|k: int| 0 <= k < 8 ==> bytes[at + k] == #[trigger] byte_at(value, k),
    ensures
        le64(bytes, at) == value,
{
    let low = (value % 0x1_0000_0000) as u32;
    let high = (value / 0x1_0000_0000) as u32;
    lemma_bytes_of_halves(value);
    assert forall|k: int| 0 <= k < 4 implies bytes[at + k] == #[trigger] byte_at(
        low as u64,
        k,
    ) by {
        assert(bytes[at + k] == byte_at(value, k));
    }
    assert forall|k: int| 0 <= k < 4 implies bytes[at + 4 + k] == #[trigger] byte_at(
        high as u64,
        k,
    ) by {
        assert(bytes[at + (k + 4)] == byte_at(value, k + 4));
    }
    lemma_le32_of_bytes(bytes, at, low);
    lemma_le32_of_bytes(bytes, at + 4, high);
}

/// A record that was written for an event is read as that event.
pub proof fn lemma_decode_encode(event: EbpfEvent)
    ensures
        decoded(encoded(event)) == Some(event),
{
    let bytes = encoded(event);
    lemma_le32_of_bytes(bytes, 0, event.tag());
    lemma_le32_of_bytes(bytes, 8, pid_bits(event.subject()));
    lemma_le32_of_bytes(bytes, 12, event.word());
    lemma_le64_of_bytes(bytes, 16, event.long());
}

} // verus!
