//! Frames on the stream between a proxy and the game server: eight bytes that give the
//! length, most significant byte first, and then that many bytes of content.
//!
//! The readers hold the buffer for the content. The bytes themselves are read outside: first
//! the prefix, which is handed to the reader, and then the content, for which the reader
//! hands out the place.
use vstd::arithmetic::div_mod::lemma_div_denominator;
use vstd::prelude::*;

verus! {

/// The number of bytes that give a frame's length.
pub const FRAME_LENGTH_PREFIX_SIZE: usize = 8;

/// The size of the buffer that a [`ProxyReader`] starts with.
pub const DEFAULT_PROXY_READ_BUFFER_SIZE: usize = 1_048_576;

/// The room that an [`IngressHandler`] sets aside for its buffer.
pub const DEFAULT_BUFFER_SIZE: usize = 4096;

/// The content of a frame is longer than this machine can address.
#[derive(Clone, Copy, Debug, PartialEq, Eq, Structural)]
pub struct FrameTooLong;

/// The number that bytes stand for, most significant byte first.
pub open spec fn big_endian(bytes: Seq<u8>) -> nat
    decreases bytes.len(),
{
    if bytes.len() == 0 {
        0
    } else {
        big_endian(bytes.drop_last()) * 256 + bytes.last() as nat
    }
}

/// Whether a reader can take in a length prefix: the frame is not longer than a buffer can be, or
/// it is so long that the reader refuses it.
pub open spec fn admits(prefix: Seq<u8>) -> bool {
    big_endian(prefix) <= isize::MAX || big_endian(prefix) > usize::MAX
}

/// Decides whether a reader can take in a length prefix.
pub fn admits_prefix(prefix: [u8; 8]) -> (admitted: bool)
    ensures
        admitted == admits(prefix@),
{
    match usize::try_from(length_of_prefix(prefix)) {
        Ok(len) => len <= isize::MAX as usize,
        Err(_) => true,
    }
}

/// Reads the length that a prefix announces.
pub fn length_of_prefix(prefix: [u8; 8]) -> (length: u64)
    ensures
        length == big_endian(prefix@),
        length == prefix@[0] * 0x100_0000_0000_0000 + prefix@[1] * 0x1_0000_0000_0000 + prefix@[2]
            * 0x100_0000_0000 + prefix@[3] * 0x1_0000_0000 + prefix@[4] * 0x100_0000 + prefix@[5]
            * 0x1_0000 + prefix@[6] * 0x100 + prefix@[7],
{
    let mut length: u64 = 0;
    let mut i: usize = 0;
    let ghost mut bound: nat = 1;
    proof {
        assert(prefix@.take(0) =~= Seq::empty());
    }
    while i < 8
        invariant
            i <= 8,
            length == big_endian(prefix@.take(i as int)),
            length < bound,
            i == 0 ==> bound == 1,
            i == 1 ==> bound == 0x100,
            i == 2 ==> bound == 0x1_0000,
            i == 3 ==> bound == 0x100_0000,
            i == 4 ==> bound == 0x1_0000_0000,
            i == 5 ==> bound == 0x100_0000_0000,
            i == 6 ==> bound == 0x1_0000_0000_0000,
            i == 7 ==> bound == 0x100_0000_0000_0000,
            i == 8 ==> bound == 0x1_0000_0000_0000_0000,
        decreases 8 - i,
    {
        assert(prefix@.take(i + 1).drop_last() =~= prefix@.take(i as int));
        length = length * 256 + prefix[i] as u64;
        proof {
            bound = bound * 256;
        }
        i = i + 1;
    }
    assert(prefix@.take(8) =~= prefix@);
    proof {
        prefix_announces_the_sum_of_its_bytes(prefix@);
    }
    length
}

/// A buffer made at least `len` bytes long: what it held, then zeros.
pub open spec fn grown(bytes: Seq<u8>, len: nat) -> Seq<u8> {
    if bytes.len() < len {
        bytes + Seq::new((len - bytes.len()) as nat, |i: int| 0u8)
    } else {
        bytes
    }
}

/// Makes room in a buffer for the content of the frame that a length prefix announces, and
/// hands out that room: exactly as many bytes as the frame is long. What the buffer held
/// stays until it is written over; new bytes are zero.
fn room_for_frame(buffer: &mut Vec<u8>, prefix: [u8; 8]) -> (room: Result<&mut [u8], FrameTooLong>)
    requires
        admits(prefix@),
    ensures
        match room {
            Ok(room) => {
                let len = big_endian(prefix@);
                &&& len <= usize::MAX
                &&& room@ == grown(old(buffer)@, len).take(len as int)
                &&& final(buffer)@ == final(room)@ + grown(old(buffer)@, len).skip(len as int)
            },
            Err(_) => big_endian(prefix@) > usize::MAX && final(buffer)@ == old(buffer)@,
        },
{
    match usize::try_from(length_of_prefix(prefix)) {
        Ok(len) => {
            let ghost before = buffer@;
            if len > buffer.len() {
                buffer.resize(len, 0);
            }
            proof {
                let after = buffer@;
                if before.len() < len {
                    assert forall|i: int| 0 <= i < before.len() implies after[i] == before[i] by {
                        assert(after.subrange(0, before.len() as int)[i] == before[i]);
                    }
                }
                assert(after =~= grown(before, len as nat));
            }
            let (room, _rest) = buffer.as_mut_slice().split_at_mut(len);
            Ok(room)
        },
        Err(_) => Err(FrameTooLong),
    }
}

/// The game server's reader of frames from a proxy.
#[derive(Debug)]
pub struct ProxyReader {
    buffer: Vec<u8>,
}

impl ProxyReader {
    /// All bytes of the buffer.
    pub closed spec fn bytes(self) -> Seq<u8> {
        self.buffer@
    }

    /// A reader whose buffer holds zeros.
    pub fn new() -> (reader: Self)
        ensures
            reader.bytes() == Seq::new(1_048_576, |i: int| 0u8),
    {
        let mut buffer: Vec<u8> = Vec::new();
        buffer.resize(DEFAULT_PROXY_READ_BUFFER_SIZE, 0);
        assert(buffer@ =~= Seq::new(DEFAULT_PROXY_READ_BUFFER_SIZE as nat, |i: int| 0u8));
        ProxyReader { buffer }
    }

    /// Takes in the length prefix of the next frame and hands out the place for its content:
    /// exactly as many bytes as the frame is long. The buffer grows if it has to, and never
    /// shrinks.
    pub fn next_server_packet_buffer(&mut self, prefix: [u8; 8]) -> (room: Result<
        &mut [u8],
        FrameTooLong,
    >)
        requires
            admits(prefix@),
        ensures
            match room {
                Ok(room) => {
                    let len = big_endian(prefix@);
                    &&& len <= usize::MAX
                    &&& room@ == grown(old(self).bytes(), len).take(len as int)
                    &&& final(self).bytes() == final(room)@ + grown(old(self).bytes(), len).skip(
                        len as int,
                    )
                },
                Err(_) => {
                    &&& big_endian(prefix@) > usize::MAX
                    &&& final(self).bytes() == old(self).bytes()
                },
            },
    {
        room_for_frame(&mut self.buffer, prefix)
    }
}

/// The proxy's reader of frames from the game server.
#[derive(Debug)]
pub struct IngressHandler {
    buffer: Vec<u8>,
}

impl IngressHandler {
    /// All bytes of the buffer.
    pub closed spec fn bytes(self) -> Seq<u8> {
        self.buffer@
    }

    /// A handler with an empty buffer.
    pub fn new() -> (handler: Self)
        ensures
            handler.bytes() == Seq::<u8>::empty(),
    {
        IngressHandler { buffer: Vec::with_capacity(DEFAULT_BUFFER_SIZE) }
    }

    /// Takes in the length prefix of the next frame and hands out the place for its content:
    /// exactly as many bytes as the frame is long. The buffer grows if it has to, and never
    /// shrinks.
    pub fn handle_next(&mut self, prefix: [u8; 8]) -> (room: Result<&mut [u8], FrameTooLong>)
        requires
            admits(prefix@),
        ensures
            match room {
                Ok(room) => {
                    let len = big_endian(prefix@);
                    &&& len <= usize::MAX
                    &&& room@ == grown(old(self).bytes(), len).take(len as int)
                    &&& final(self).bytes() == final(room)@ + grown(old(self).bytes(), len).skip(
                        len as int,
                    )
                },
                Err(_) => {
                    &&& big_endian(prefix@) > usize::MAX
                    &&& final(self).bytes() == old(self).bytes()
                },
            },
    {
        room_for_frame(&mut self.buffer, prefix)
    }
}

/// The place for a frame is as long as the frame, and once it is filled the buffer begins
/// with the frame, is no shorter than before, and keeps what it held behind the frame.
pub proof fn frame_fills_the_front_of_the_buffer(bytes: Seq<u8>, content: Seq<u8>)
    ensures
        ({
            let len = content.len();
            let after = content + grown(bytes, len).skip(len as int);
            &&& grown(bytes, len).take(len as int).len() == len
            &&& after.take(len as int) == content
            &&& after.len() == grown(bytes, len).len()
            &&& after.len() >= bytes.len()
            &&& forall|i: int| len <= i < bytes.len() ==> after[i] == bytes[i]
        }),
{
    let len = content.len();
    let after = content + grown(bytes, len).skip(len as int);
    assert(after.take(len as int) =~= content);
}

/// The length that a prefix announces is the sum of its bytes, each times the power of two
/// hundred and fifty-six that its place has.
pub proof fn prefix_announces_the_sum_of_its_bytes(prefix: Seq<u8>)
    requires
        prefix.len() == 8,
    ensures
        big_endian(prefix) == prefix[0] * 0x100_0000_0000_0000 + prefix[1] * 0x1_0000_0000_0000
            + prefix[2] * 0x100_0000_0000 + prefix[3] * 0x1_0000_0000 + prefix[4] * 0x100_0000
            + prefix[5] * 0x1_0000 + prefix[6] * 0x100 + prefix[7],
{
    assert(prefix.take(8) =~= prefix);
    assert(prefix.take(0) =~= Seq::empty());
    big_endian_of_one_more(prefix, 0);
    big_endian_of_one_more(prefix, 1);
    big_endian_of_one_more(prefix, 2);
    big_endian_of_one_more(prefix, 3);
    big_endian_of_one_more(prefix, 4);
    big_endian_of_one_more(prefix, 5);
    big_endian_of_one_more(prefix, 6);
    big_endian_of_one_more(prefix, 7);
}

proof fn big_endian_of_one_more(bytes: Seq<u8>, len: int)
    requires
        0 <= len < bytes.len(),
    ensures
        big_endian(bytes.take(len + 1)) == big_endian(bytes.take(len)) * 256 + bytes[len],
{
    assert(bytes.take(len + 1).drop_last() =~= bytes.take(len));
}

/// A length that is written in eight bytes, the most significant one first, reads back.
pub proof fn written_length_reads_back(length: u64)
    ensures
        big_endian(
            seq![
                (length / 0x100_0000_0000_0000 % 0x100) as u8,
                (length / 0x1_0000_0000_0000 % 0x100) as u8,
                (length / 0x100_0000_0000 % 0x100) as u8,
                (length / 0x1_0000_0000 % 0x100) as u8,
                (length / 0x100_0000 % 0x100) as u8,
                (length / 0x1_0000 % 0x100) as u8,
                (length / 0x100 % 0x100) as u8,
                (length % 0x100) as u8,
            ],
        ) == length,
{
    let n = length as int;
    lemma_div_denominator(n, 0x100, 0x100);
    lemma_div_denominator(n, 0x1_0000, 0x100);
    lemma_div_denominator(n, 0x100_0000, 0x100);
    lemma_div_denominator(n, 0x1_0000_0000, 0x100);
    lemma_div_denominator(n, 0x100_0000_0000, 0x100);
    lemma_div_denominator(n, 0x1_0000_0000_0000, 0x100);
    let (q1, q2, q3) = (n / 0x100, n / 0x1_0000, n / 0x100_0000);
    let (q4, q5) = (n / 0x1_0000_0000, n / 0x100_0000_0000);
    let (q6, q7) = (n / 0x1_0000_0000_0000, n / 0x100_0000_0000_0000);
    assert(n == q1 * 0x100 + n % 0x100);
    assert(q1 == q2 * 0x100 + q1 % 0x100);
    assert(q2 == q3 * 0x100 + q2 % 0x100);
    assert(q3 == q4 * 0x100 + q3 % 0x100);
    assert(q4 == q5 * 0x100 + q4 % 0x100);
    assert(q5 == q6 * 0x100 + q5 % 0x100);
    assert(q6 == q7 * 0x100 + q6 % 0x100);
    assert(0 <= q7 < 0x100);
    prefix_announces_the_sum_of_its_bytes(
        seq![
            (length / 0x100_0000_0000_0000 % 0x100) as u8,
            (length / 0x1_0000_0000_0000 % 0x100) as u8,
            (length / 0x100_0000_0000 % 0x100) as u8,
            (length / 0x1_0000_0000 % 0x100) as u8,
            (length / 0x100_0000 % 0x100) as u8,
            (length / 0x1_0000 % 0x100) as u8,
            (length / 0x100 % 0x100) as u8,
            (length % 0x100) as u8,
        ],
    );
}

/// Two prefixes that announce the same length are the same.
pub proof fn prefixes_are_told_apart(first: Seq<u8>, second: Seq<u8>)
    requires
        first.len() == second.len(),
        big_endian(first) == big_endian(second),
    ensures
        first == second,
    decreases first.len(),
{
    if first.len() > 0 {
        prefixes_are_told_apart(first.drop_last(), second.drop_last());
        assert(first =~= first.drop_last().push(first.last()));
        assert(second =~= second.drop_last().push(second.last()));
    } else {
        assert(first =~= second);
    }
}

/// A prefix is admitted unless it announces more bytes than a buffer can hold and still no more
/// than this machine can count.
pub proof fn only_unaddressable_frames_are_not_admitted(prefix: Seq<u8>)
    requires
        prefix.len() == 8,
    ensures
        !admits(prefix) <==> isize::MAX < prefix[0] * 0x100_0000_0000_0000 + prefix[1]
            * 0x1_0000_0000_0000 + prefix[2] * 0x100_0000_0000 + prefix[3] * 0x1_0000_0000
            + prefix[4] * 0x100_0000 + prefix[5] * 0x1_0000 + prefix[6] * 0x100 + prefix[7]
            <= usize::MAX,
{
    prefix_announces_the_sum_of_its_bytes(prefix);
}

/// Growing a buffer keeps every byte that it held, fills the rest with zeros, and makes it
/// exactly as long as is asked for, unless it is longer already.
pub proof fn growing_keeps_bytes_and_adds_zeros(bytes: Seq<u8>, len: nat, i: int)
    requires
        0 <= i < bytes.len() || 0 <= i < len,
    ensures
        grown(bytes, len).len() >= bytes.len(),
        grown(bytes, len).len() >= len,
        grown(bytes, len).len() == bytes.len() || grown(bytes, len).len() == len,
        i < bytes.len() ==> grown(bytes, len)[i] == bytes[i],
        i >= bytes.len() ==> grown(bytes, len)[i] == 0,
{
}

/// The length that is read from a prefix tells the prefix, and so no two prefixes are read as the
/// same length; and a prefix is admitted unless its length is more than a buffer can hold and no
/// more than this machine can count.
pub proof fn a_length_tells_its_prefix(
    first: [u8; 8],
    second: [u8; 8],
    length: u64,
    admitted: bool,
)
    requires
        call_ensures(length_of_prefix, (first,), length),
        call_ensures(length_of_prefix, (second,), length),
        call_ensures(admits_prefix, (first,), admitted),
    ensures
        first@ == second@,
        admitted <==> length <= isize::MAX || length > usize::MAX,
        first@ == seq![
            (length / 0x100_0000_0000_0000 % 0x100) as u8,
            (length / 0x1_0000_0000_0000 % 0x100) as u8,
            (length / 0x100_0000_0000 % 0x100) as u8,
            (length / 0x1_0000_0000 % 0x100) as u8,
            (length / 0x100_0000 % 0x100) as u8,
            (length / 0x1_0000 % 0x100) as u8,
            (length / 0x100 % 0x100) as u8,
            (length % 0x100) as u8,
        ],
{
    let written = seq![
        (length / 0x100_0000_0000_0000 % 0x100) as u8,
        (length / 0x1_0000_0000_0000 % 0x100) as u8,
        (length / 0x100_0000_0000 % 0x100) as u8,
        (length / 0x1_0000_0000 % 0x100) as u8,
        (length / 0x100_0000 % 0x100) as u8,
        (length / 0x1_0000 % 0x100) as u8,
        (length / 0x100 % 0x100) as u8,
        (length % 0x100) as u8,
    ];
    written_length_reads_back(length);
    prefixes_are_told_apart(first@, second@);
    prefixes_are_told_apart(first@, written);
}

} // verus!
