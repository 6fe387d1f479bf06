//! The transfer engine: a file crosses the channel as its length, written
//! as eight bytes with the most significant first, and then its content.
//! The receiving side takes exactly the declared number of bytes, however
//! the stream is cut into reads, and leaves what follows untouched.
use crate::error::TransferError;
use vstd::prelude::*;
use vstd::slice::{slice_subrange, slice_to_vec};

verus! {

/// The number of bytes of a size prefix.
pub const PREFIX_LEN: usize = 8;

/// The eight bytes that declare `size`, most significant first.
pub open spec fn spec_size_prefix(size: u64) -> Seq<u8> {
    seq![
        (size / 0x100_0000_0000_0000) as u8,
        (size / 0x1_0000_0000_0000 % 256) as u8,
        (size / 0x100_0000_0000 % 256) as u8,
        (size / 0x1_0000_0000 % 256) as u8,
        (size / 0x100_0000 % 256) as u8,
        (size / 0x1_0000 % 256) as u8,
        (size / 0x100 % 256) as u8,
        (size % 256) as u8,
    ]
}

/// The size that eight bytes declare, read with the most significant first.
pub open spec fn spec_declared_size(prefix: Seq<u8>) -> int
    recommends
        prefix.len() == 8,
{
    prefix[0] * 0x100_0000_0000_0000 + prefix[1] * 0x1_0000_0000_0000 + prefix[2]
        * 0x100_0000_0000 + prefix[3] * 0x1_0000_0000 + prefix[4] * 0x100_0000 + prefix[5]
        * 0x1_0000 + prefix[6] * 0x100 + prefix[7]
}

/// What a whole transfer puts on the wire: the size prefix, then the content.
pub open spec fn spec_frame(content: Seq<u8>) -> Seq<u8>
    recommends
        content.len() <= u64::MAX,
{
    spec_size_prefix(content.len() as u64) + content
}

/// The part of a read that belongs to the file when `remaining` bytes are
/// still owed: all of it, or its first `remaining` bytes if it holds more.
pub open spec fn spec_take_chunk(remaining: nat, chunk: Seq<u8>) -> Seq<u8> {
    if chunk.len() <= remaining {
        chunk
    } else {
        chunk.take(remaining as int)
    }
}

/// The bytes that go to the file when `declared` bytes are owed and the
/// reads deliver `chunks` one after the other.
pub open spec fn spec_accepted(declared: nat, chunks: Seq<Seq<u8>>) -> Seq<u8>
    decreases chunks.len(),
{
    if chunks.len() == 0 {
        Seq::empty()
    } else {
        let taken = spec_take_chunk(declared, chunks.first());
        taken + spec_accepted((declared - taken.len()) as nat, chunks.drop_first())
    }
}

/// A size comes back from its own prefix.
pub proof fn lemma_prefix_declares_size(size: u64)
    ensures
        spec_size_prefix(size).len() == 8,
        spec_declared_size(spec_size_prefix(size)) == size,
{
    let q0 = size as int;
    let q1 = q0 / 0x100;
    let q2 = q0 / 0x1_0000;
    let q3 = q0 / 0x100_0000;
    let q4 = q0 / 0x1_0000_0000;
    let q5 = q0 / 0x100_0000_0000;
    let q6 = q0 / 0x1_0000_0000_0000;
    let q7 = q0 / 0x100_0000_0000_0000;
    assert(q1 % 256 == q1 - 256 * q2);
    assert(q2 % 256 == q2 - 256 * q3);
    assert(q3 % 256 == q3 - 256 * q4);
    assert(q4 % 256 == q4 - 256 * q5);
    assert(q5 % 256 == q5 - 256 * q6);
    assert(q6 % 256 == q6 - 256 * q7);
    assert(q0 % 256 == q0 - 256 * q1);
    assert(0 <= q7 < 256);
    let prefix = spec_size_prefix(size);
    assert(prefix[0] == q7);
    assert(prefix[1] == q6 - 256 * q7);
    assert(prefix[2] == q5 - 256 * q6);
    assert(prefix[3] == q4 - 256 * q5);
    assert(prefix[4] == q3 - 256 * q4);
    assert(prefix[5] == q2 - 256 * q3);
    assert(prefix[6] == q1 - 256 * q2);
    assert(prefix[7] == q0 - 256 * q1);
}

/// Eight bytes are the prefix of the size they declare, so no two prefixes
/// declare the same size.
pub proof fn lemma_declared_size_has_prefix(prefix: Seq<u8>)
    requires
        prefix.len() == 8,
    ensures
        0 <= spec_declared_size(prefix) <= u64::MAX,
        spec_size_prefix(spec_declared_size(prefix) as u64) == prefix,
{
    let size = spec_declared_size(prefix);
    let t7 = prefix[0] as int;
    let t6 = t7 * 256 + prefix[1];
    let t5 = t6 * 256 + prefix[2];
    let t4 = t5 * 256 + prefix[3];
    let t3 = t4 * 256 + prefix[4];
    let t2 = t3 * 256 + prefix[5];
    let t1 = t2 * 256 + prefix[6];
    let t0 = t1 * 256 + prefix[7];
    assert(t0 == size);
    assert(0 <= size <= u64::MAX);
    assert(size / 0x100 == t1 && size % 256 == prefix[7]);
    assert(size / 0x1_0000 == t2 && t1 % 256 == prefix[6]) by {
        assert(size == t2 * 0x1_0000 + (prefix[6] * 256 + prefix[7]));
    }
    assert(size / 0x100_0000 == t3 && t2 % 256 == prefix[5]) by {
        assert(size == t3 * 0x100_0000 + (prefix[5] * 0x1_0000 + prefix[6] * 256 + prefix[7]));
    }
    assert(size / 0x1_0000_0000 == t4 && t3 % 256 == prefix[4]) by {
        assert(size == t4 * 0x1_0000_0000 + (prefix[4] * 0x100_0000 + prefix[5] * 0x1_0000
            + prefix[6] * 256 + prefix[7]));
    }
    assert(size / 0x100_0000_0000 == t5 && t4 % 256 == prefix[3]) by {
        assert(size == t5 * 0x100_0000_0000 + (prefix[3] * 0x1_0000_0000 + prefix[4]
            * 0x100_0000 + prefix[5] * 0x1_0000 + prefix[6] * 256 + prefix[7]));
    }
    assert(size / 0x1_0000_0000_0000 == t6 && t5 % 256 == prefix[2]) by {
        assert(size == t6 * 0x1_0000_0000_0000 + (prefix[2] * 0x100_0000_0000 + prefix[3]
            * 0x1_0000_0000 + prefix[4] * 0x100_0000 + prefix[5] * 0x1_0000 + prefix[6] * 256
            + prefix[7]));
    }
    assert(size / 0x100_0000_0000_0000 == t7 && t6 % 256 == prefix[1]) by {
        assert(size == t7 * 0x100_0000_0000_0000 + (prefix[1] * 0x1_0000_0000_0000 + prefix[2]
            * 0x100_0000_0000 + prefix[3] * 0x1_0000_0000 + prefix[4] * 0x100_0000 + prefix[5]
            * 0x1_0000 + prefix[6] * 256 + prefix[7]));
    }
    let again = spec_size_prefix(size as u64);
    assert(again[0] == prefix[0]);
    assert(again[1] == prefix[1]);
    assert(again[2] == prefix[2]);
    assert(again[3] == prefix[3]);
    assert(again[4] == prefix[4]);
    assert(again[5] == prefix[5]);
    assert(again[6] == prefix[6]);
    assert(again[7] == prefix[7]);
    assert(again =~= prefix);
}

/// Once nothing is owed, nothing more is taken.
pub proof fn lemma_accepted_nothing_owed(chunks: Seq<Seq<u8>>)
    ensures
        spec_accepted(0, chunks) == Seq::<u8>::empty(),
    decreases chunks.len(),
{
    if chunks.len() > 0 {
        lemma_accepted_nothing_owed(chunks.drop_first());
        assert(spec_take_chunk(0, chunks.first()) =~= Seq::<u8>::empty());
        assert(spec_accepted(0, chunks) =~= Seq::<u8>::empty());
    }
}

/// However the stream is cut into reads, what goes to the file is the
/// stream's first `declared` bytes, or all of the stream if it is shorter.
pub proof fn lemma_accepted_is_stream_prefix(declared: nat, chunks: Seq<Seq<u8>>)
    ensures
        spec_accepted(declared, chunks) == if chunks.flatten().len() <= declared {
            chunks.flatten()
        } else {
            chunks.flatten().take(declared as int)
        },
    decreases chunks.len(),
{
    if chunks.len() == 0 {
        assert(chunks.flatten() =~= Seq::<u8>::empty());
    } else {
        let first = chunks.first();
        let rest = chunks.drop_first();
        let taken = spec_take_chunk(declared, first);
        let owed = (declared - taken.len()) as nat;
        lemma_accepted_is_stream_prefix(owed, rest);
        assert(chunks.flatten() =~= first + rest.flatten());
        if first.len() <= declared {
            if rest.flatten().len() <= owed {
                assert(spec_accepted(declared, chunks) =~= chunks.flatten());
            } else {
                assert(spec_accepted(declared, chunks) =~= chunks.flatten().take(
                    declared as int,
                ));
            }
        } else {
            lemma_accepted_nothing_owed(rest);
            assert(spec_accepted(declared, chunks) =~= chunks.flatten().take(declared as int));
        }
    }
}

/// Transfer integrity. Let a file of any content (empty too) be framed, and
/// let the stream behind the prefix arrive in reads of any sizes, followed
/// by whatever the sender writes next. Then the prefix declares the
/// content's length, and what goes to the destination file is the content,
/// byte for byte: nothing is lost and nothing of what follows is taken.
pub proof fn lemma_transfer_integrity(content: Seq<u8>, following: Seq<u8>, chunks: Seq<Seq<u8>>)
    requires
        content.len() <= u64::MAX,
        chunks.flatten() == content + following,
    ensures
        spec_frame(content).len() == 8 + content.len(),
        spec_declared_size(spec_frame(content).take(8)) == content.len(),
        spec_frame(content).skip(8) == content,
        spec_accepted(content.len(), chunks) == content,
{
    let prefix = spec_size_prefix(content.len() as u64);
    lemma_prefix_declares_size(content.len() as u64);
    assert(spec_frame(content).take(8) =~= prefix);
    assert(spec_frame(content).skip(8) =~= content);
    lemma_accepted_is_stream_prefix(content.len(), chunks);
    assert((content + following).take(content.len() as int) =~= content);
    if following.len() == 0 {
        assert(content + following =~= content);
    }
}

/// The size prefix to write before a file of `size` bytes.
pub fn size_prefix(size: u64) -> (prefix: [u8; 8])
    ensures
        prefix@ == spec_size_prefix(size),
{
    let prefix: [u8; 8] = [
        (size / 0x100_0000_0000_0000) as u8,
        (size / 0x1_0000_0000_0000 % 256) as u8,
        (size / 0x100_0000_0000 % 256) as u8,
        (size / 0x1_0000_0000 % 256) as u8,
        (size / 0x100_0000 % 256) as u8,
        (size / 0x1_0000 % 256) as u8,
        (size / 0x100 % 256) as u8,
        (size % 256) as u8,
    ];
    assert(prefix@ =~= spec_size_prefix(size));
    prefix
}

/// The size that a prefix declares. `None` unless it has exactly eight
/// bytes.
pub fn declared_size(prefix: &[u8]) -> (size: Option<u64>)
    ensures
        match size {
            Some(declared) => prefix@.len() == 8 && declared == spec_declared_size(prefix@),
            None => prefix@.len() != 8,
        },
{
    if prefix.len() != PREFIX_LEN {
        return None;
    }
    let size: u64 = (prefix[0] as u64) * 0x100_0000_0000_0000 + (prefix[1] as u64)
        * 0x1_0000_0000_0000 + (prefix[2] as u64) * 0x100_0000_0000 + (prefix[3] as u64)
        * 0x1_0000_0000 + (prefix[4] as u64) * 0x100_0000 + (prefix[5] as u64) * 0x1_0000 + (
    prefix[6] as u64) * 0x100 + (prefix[7] as u64);
    Some(size)
}

/// A whole transfer in memory: the size prefix, then the content.
pub fn frame(content: &[u8]) -> (framed: Vec<u8>)
    ensures
        framed@ == spec_frame(content@),
{
    let prefix = size_prefix(content.len() as u64);
    let mut framed: Vec<u8> = Vec::new();
    let mut i: usize = 0;
    while i < 8
        invariant
            i <= 8,
            prefix@.len() == 8,
            framed@ == prefix@.subrange(0, i as int),
        decreases 8 - i,
    {
        framed.push(prefix[i]);
        i = i + 1;
        assert(prefix@.subrange(0, i as int) =~= prefix@.subrange(0, i - 1).push(prefix@[i - 1]));
    }
    assert(prefix@.subrange(0, 8) =~= prefix@);
    let mut j: usize = 0;
    while j < content.len()
        invariant
            j <= content@.len(),
            framed@ == prefix@ + content@.subrange(0, j as int),
        decreases content@.len() - j,
    {
        framed.push(content[j]);
        j = j + 1;
        assert(content@.subrange(0, j as int) =~= content@.subrange(0, j - 1).push(
            content@[j - 1],
        ));
    }
    assert(content@.subrange(0, j as int) =~= content@);
    framed
}

/// The part of one read that belongs to the file when `remaining` bytes are
/// still owed. It never reaches past the declared length: bytes of the read
/// beyond it are left for whoever reads next.
pub fn take_chunk(remaining: u64, chunk: &[u8]) -> (taken: Vec<u8>)
    ensures
        taken@ == spec_take_chunk(remaining as nat, chunk@),
        taken@.len() <= remaining,
        taken@.len() <= chunk@.len(),
{
    if chunk.len() as u64 <= remaining {
        let taken = slice_to_vec(chunk);
        taken
    } else {
        let count: usize = remaining as usize;
        let taken = slice_to_vec(slice_subrange(chunk, 0, count));
        taken
    }
}

/// The receiving side on a stream held in memory: `chunks` are the reads in
/// the order they came, and the stream ends behind the last of them. The
/// file is the first `declared` bytes of the stream, whatever the sizes of
/// the reads. If the stream ends before that many bytes have come, the
/// transfer fails with `ShortRead`.
pub fn receive_body(declared: u64, chunks: &Vec<Vec<u8>>) -> (received: Result<
    Vec<u8>,
    TransferError,
>)
    ensures
        match received {
            Ok(body) => {
                &&& chunks.deep_view().flatten().len() >= declared
                &&& body@ == chunks.deep_view().flatten().take(declared as int)
                &&& body@ == spec_accepted(declared as nat, chunks.deep_view())
            },
            Err(error) => {
                &&& error == TransferError::ShortRead
                &&& chunks.deep_view().flatten().len() < declared
            },
        },
{
    let ghost stream = chunks.deep_view();
    let mut body: Vec<u8> = Vec::new();
    let mut remaining: u64 = declared;
    let mut i: usize = 0;
    assert(stream.skip(0) =~= stream);
    while i < chunks.len() && remaining > 0
        invariant
            i <= chunks.len(),
            stream == chunks.deep_view(),
            stream.len() == chunks.len(),
            remaining == declared - body@.len(),
            body@.len() <= declared,
            body@ + spec_accepted(remaining as nat, stream.skip(i as int)) == spec_accepted(
                declared as nat,
                stream,
            ),
        decreases chunks.len() - i,
    {
        let chunk = &chunks[i];
        let mut taken = take_chunk(remaining, chunk.as_slice());
        proof {
            let tail = stream.skip(i as int);
            assert(tail.first() == chunk@);
            assert(tail.drop_first() =~= stream.skip(i + 1));
            assert(body@ + (taken@ + spec_accepted(
                (remaining - taken@.len()) as nat,
                stream.skip(i + 1),
            )) =~= (body@ + taken@) + spec_accepted(
                (remaining - taken@.len()) as nat,
                stream.skip(i + 1),
            ));
        }
        remaining = remaining - taken.len() as u64;
        body.append(&mut taken);
        i = i + 1;
    }
    proof {
        lemma_accepted_is_stream_prefix(declared as nat, stream);
        if remaining == 0 {
            lemma_accepted_nothing_owed(stream.skip(i as int));
        } else {
            assert(stream.skip(i as int) =~= Seq::<Seq<u8>>::empty());
        }
        assert(body@ + Seq::<u8>::empty() =~= body@);
    }
    if remaining == 0 {
        Ok(body)
    } else {
        Err(TransferError::ShortRead)
    }
}

} // verus!
