//! AACP framing for the AirPods proprietary hi-res microphone stream
//! (AAC-ELD @ 64 kHz, message_type 0x58 over L2CAP PSM 0x1001).
use vstd::prelude::*;

verus! {

/// type-0x58 audio SDU layout: 22-byte header, then N x [ts:u32 LE][len:u8][au].
pub const TYPE58_HEADER_LEN: usize = 22;

/// The little-endian 16-bit number whose low byte stands at `off`.
pub open spec fn le16(b: Seq<u8>, off: int) -> int {
    b[off] + 256 * b[off + 1]
}

/// Reads the little-endian 16-bit number at `off`.
pub fn u16le(b: &[u8], off: usize) -> (v: u16)
    requires
        off + 1 < b@.len(),
    ensures
        v == le16(b@, off as int),
        v == b@[off as int] + 256 * b@[off + 1],
{
    let lo: u8 = b[off];
    let hi: u8 = b[off + 1];
    assert((lo as u16) | ((hi as u16) << 8) == lo + 256 * hi) by (bit_vector);
    (lo as u16) | ((hi as u16) << 8)
}

/// What the first eight bytes of a 0x58 *audio* frame (subtype 0x0001) hold.
/// Bytes 1 and 3 are free, and so is everything after the eighth byte.
pub open spec fn is_audio_sdu(sdu: Seq<u8>) -> bool {
    &&& sdu.len() >= 8
    &&& sdu[0] == 0x04
    &&& sdu[2] == 0x04
    &&& le16(sdu, 4) == 0x58
    &&& le16(sdu, 6) == 0x0001
}

/// Predicate for 0x58 *audio* frames (subtype 0x0001)
pub fn is_audio(sdu: &[u8]) -> (audio: bool)
    ensures
        audio == is_audio_sdu(sdu@),
        audio <==> sdu@.len() >= 8 && sdu@[0] == 0x04 && sdu@[2] == 0x04 && sdu@[4] == 0x58
            && sdu@[5] == 0x00 && sdu@[6] == 0x01 && sdu@[7] == 0x00,
{
    sdu.len() >= 8 && sdu[0] == 0x04 && sdu[2] == 0x04 && u16le(sdu, 4) == 0x58 && u16le(sdu, 6)
        == 0x0001
}

/// One record of a 0x58 audio SDU: four timestamp bytes and an AAC-ELD access
/// unit (AU), whose length is written as one byte between the two.
#[verifier::ext_equal]
pub struct SubFrame {
    pub timestamp: Seq<u8>,
    pub au: Seq<u8>,
}

impl SubFrame {
    /// Whether the record can be written down at all.
    pub open spec fn wf(self) -> bool {
        self.timestamp.len() == 4 && self.au.len() <= 255
    }

    /// The record's bytes on the wire.
    pub open spec fn encode(self) -> Seq<u8> {
        self.timestamp + seq![self.au.len() as u8] + self.au
    }
}

/// The bytes of several records, one after the other.
pub open spec fn encode_all(frames: Seq<SubFrame>) -> Seq<u8>
    decreases frames.len(),
{
    if frames.len() == 0 {
        Seq::empty()
    } else {
        frames.first().encode() + encode_all(frames.drop_first())
    }
}

/// Whether `bytes` begins with a whole record.
pub open spec fn starts_with_record(bytes: Seq<u8>) -> bool {
    bytes.len() >= 5 && bytes.len() >= 5 + bytes[4]
}

/// The records that `bytes` begins with, up to the first place where no whole
/// record follows.
pub open spec fn records(bytes: Seq<u8>) -> Seq<SubFrame>
    decreases bytes.len(),
{
    if starts_with_record(bytes) {
        let end = 5 + bytes[4] as int;
        seq![SubFrame { timestamp: bytes.take(4), au: bytes.subrange(5, end) }] + records(
            bytes.skip(end),
        )
    } else {
        Seq::empty()
    }
}

/// What is left of `bytes` behind its records.
pub open spec fn leftover(bytes: Seq<u8>) -> Seq<u8>
    decreases bytes.len(),
{
    if starts_with_record(bytes) {
        leftover(bytes.skip(5 + bytes[4] as int))
    } else {
        bytes
    }
}

/// The access units of some records.
pub open spec fn aus_of(frames: Seq<SubFrame>) -> Seq<Seq<u8>> {
    frames.map_values(|f: SubFrame| f.au)
}

/// The access units of one SDU, in order: those of the whole records that
/// follow its header. An SDU shorter than the header has none.
pub open spec fn type58_aus(sdu: Seq<u8>) -> Seq<Seq<u8>> {
    if sdu.len() < TYPE58_HEADER_LEN {
        Seq::empty()
    } else {
        aus_of(records(sdu.skip(TYPE58_HEADER_LEN as int)))
    }
}

/// The byte strings that a sequence of slices refers to.
pub open spec fn slice_views(slices: Seq<&[u8]>) -> Seq<Seq<u8>> {
    Seq::new(slices.len(), |i: int| slices[i]@)
}

/// Walk the sub-frames of one 0x58 audio SDU, appending each AAC-ELD AU to
/// `aus`. Returns the number of AUs appended.
pub fn demux_type58<'a>(sdu: &'a [u8], aus: &mut Vec<&'a [u8]>) -> (n: usize)
    ensures
        slice_views(final(aus)@) == slice_views(old(aus)@) + type58_aus(sdu@),
        n == type58_aus(sdu@).len(),
        final(aus)@.len() == old(aus)@.len() + n,
        forall|i: int|
            0 <= i < old(aus)@.len() ==> (#[trigger] final(aus)@[i])@ == old(aus)@[i]@,
        forall|i: int|
            old(aus)@.len() <= i < final(aus)@.len() ==> (#[trigger] final(aus)@[i])@
                == type58_aus(sdu@)[i - old(aus)@.len()],
{
    let mut off: usize = TYPE58_HEADER_LEN;
    let mut n: usize = 0;
    let ghost before = slice_views(aus@);
    let ghost given = aus@;
    let ghost mut done: Seq<SubFrame> = Seq::empty();
    if sdu.len() < off {
        assert(slice_views(aus@) =~= before + type58_aus(sdu@));
        return 0;
    }
    let ghost body = sdu@.skip(TYPE58_HEADER_LEN as int);
    assert(body =~= sdu@.skip(off as int));
    assert(records(body) =~= done + records(body));
    assert(slice_views(aus@) =~= before + aus_of(done));
    while sdu.len() - off >= 5
        invariant
            off <= sdu@.len(),
            n <= off,
            n == done.len(),
            body == sdu@.skip(TYPE58_HEADER_LEN as int),
            records(body) == done + records(sdu@.skip(off as int)),
            slice_views(aus@) == before + aus_of(done),
        ensures
            off <= sdu@.len(),
            n == done.len(),
            slice_views(aus@) == before + aus_of(done),
            records(body) == done,
        decreases sdu@.len() - off,
    {
        let ghost rest = sdu@.skip(off as int);
        let au_len: usize = sdu[off + 4] as usize;
        assert(rest[4] == sdu@[off + 4]);
        let start: usize = off + 5;
        if au_len > sdu.len() - start {
            assert(records(body) =~= done);
            break;
        }
        let end: usize = start + au_len;
        let au: &'a [u8] = &sdu[start..end];
        let ghost seen = aus@;
        aus.push(au);
        n += 1;
        proof {
            let frame = SubFrame { timestamp: rest.take(4), au: rest.subrange(5, 5 + au_len) };
            assert(au@ =~= frame.au);
            assert(rest.skip(5 + au_len as int) =~= sdu@.skip(end as int));
            assert(done + (seq![frame] + records(sdu@.skip(end as int))) =~= done.push(frame)
                + records(sdu@.skip(end as int)));
            assert(slice_views(aus@) =~= slice_views(seen).push(frame.au));
            assert(aus_of(done.push(frame)) =~= aus_of(done).push(frame.au));
            assert(slice_views(aus@) =~= before + aus_of(done.push(frame)));
            done = done.push(frame);
        }
        off = end;
        if sdu.len() - off < 5 {
            assert(records(body) =~= done);
        }
    }
    assert(slice_views(aus@).len() == given.len() + n);
    assert forall|i: int| 0 <= i < given.len() implies (#[trigger] aus@[i])@ == given[i]@ by {
        assert(slice_views(aus@)[i] == slice_views(given)[i]);
    }
    assert forall|i: int| given.len() <= i < aus@.len() implies (#[trigger] aus@[i])@ == type58_aus(
        sdu@,
    )[i - given.len()] by {
        assert(slice_views(aus@)[i] == type58_aus(sdu@)[i - given.len()]);
    }
    n
}

/// Records whose bytes are followed by something that is no whole record are
/// read back as they were written, and what follows them is left over.
pub proof fn records_read_back(frames: Seq<SubFrame>, tail: Seq<u8>)
    requires
        forall|i: int| 0 <= i < frames.len() ==> (#[trigger] frames[i]).wf(),
        !starts_with_record(tail),
    ensures
        records(encode_all(frames) + tail) == frames,
        leftover(encode_all(frames) + tail) == tail,
    decreases frames.len(),
{
    let bytes = encode_all(frames) + tail;
    if frames.len() == 0 {
        assert(bytes =~= tail);
        assert(records(bytes) =~= frames);
    } else {
        let first = frames.first();
        let others = frames.drop_first();
        assert(frames[0].wf());
        assert forall|i: int| 0 <= i < others.len() implies (#[trigger] others[i]).wf() by {
            assert(frames[i + 1].wf());
        }
        records_read_back(others, tail);
        let end = 5 + first.au.len() as int;
        assert(bytes[4] == first.au.len());
        assert(bytes.take(4) =~= first.timestamp);
        assert(bytes.subrange(5, end) =~= first.au);
        assert(bytes.skip(end) =~= encode_all(others) + tail);
        assert(seq![first] + others =~= frames);
    }
}

/// What a sender puts into an SDU is what the receiver gets out of it: the
/// access units come out whole, in order and nothing besides, whatever the
/// header and the timestamps hold, and an incomplete record at the end (one
/// that was cut off) adds none.
pub proof fn sdu_reads_back(header: Seq<u8>, frames: Seq<SubFrame>, tail: Seq<u8>)
    requires
        header.len() == TYPE58_HEADER_LEN,
        forall|i: int| 0 <= i < frames.len() ==> (#[trigger] frames[i]).wf(),
        !starts_with_record(tail),
    ensures
        type58_aus(header + encode_all(frames) + tail) == aus_of(frames),
{
    let sdu = header + encode_all(frames) + tail;
    assert(sdu.skip(TYPE58_HEADER_LEN as int) =~= encode_all(frames) + tail);
    records_read_back(frames, tail);
}

/// Every byte string is some well-formed records followed by something that is
/// no whole record, so the walk accounts for each byte.
pub proof fn bytes_are_records_and_leftover(bytes: Seq<u8>)
    ensures
        bytes == encode_all(records(bytes)) + leftover(bytes),
        !starts_with_record(leftover(bytes)),
        forall|i: int| 0 <= i < records(bytes).len() ==> (#[trigger] records(bytes)[i]).wf(),
    decreases bytes.len(),
{
    if starts_with_record(bytes) {
        let end = 5 + bytes[4] as int;
        let first = SubFrame { timestamp: bytes.take(4), au: bytes.subrange(5, end) };
        let rest = bytes.skip(end);
        bytes_are_records_and_leftover(rest);
        assert(records(bytes) =~= seq![first] + records(rest));
        assert(records(bytes).first() == first);
        assert(records(bytes).drop_first() =~= records(rest));
        assert(bytes =~= first.encode() + rest);
        assert(bytes =~= encode_all(records(bytes)) + leftover(bytes));
        assert forall|i: int| 0 <= i < records(bytes).len() implies (#[trigger] records(
            bytes,
        )[i]).wf() by {
            if i > 0 {
                assert(records(bytes)[i] == records(rest)[i - 1]);
            }
        }
    } else {
        assert(bytes =~= encode_all(records(bytes)) + leftover(bytes));
    }
}

/// Each access unit costs the SDU at least the five bytes in front of it, and
/// none is longer than its length byte can say.
pub proof fn aus_are_bounded(sdu: Seq<u8>)
    ensures
        type58_aus(sdu).len() > 0 ==> TYPE58_HEADER_LEN + 5 * type58_aus(sdu).len() <= sdu.len(),
        forall|i: int|
            0 <= i < type58_aus(sdu).len() ==> (#[trigger] type58_aus(sdu)[i]).len() <= 255,
{
    if sdu.len() >= TYPE58_HEADER_LEN {
        let body = sdu.skip(TYPE58_HEADER_LEN as int);
        bytes_are_records_and_leftover(body);
        encoded_length(records(body));
        assert forall|i: int| 0 <= i < type58_aus(sdu).len() implies (#[trigger] type58_aus(
            sdu,
        )[i]).len() <= 255 by {
            assert(records(body)[i].wf());
        }
    }
}

proof fn encoded_length(frames: Seq<SubFrame>)
    requires
        forall|i: int| 0 <= i < frames.len() ==> (#[trigger] frames[i]).wf(),
    ensures
        encode_all(frames).len() >= 5 * frames.len(),
    decreases frames.len(),
{
    if frames.len() > 0 {
        assert(frames[0].wf());
        assert forall|i: int| 0 <= i < frames.drop_first().len() implies (
        #[trigger] frames.drop_first()[i]).wf() by {
            assert(frames[i + 1].wf());
        }
        encoded_length(frames.drop_first());
    }
}

/// Whether an SDU carries audio is settled by its first eight bytes.
pub proof fn audio_is_decided_by_the_first_eight_bytes(sdu: Seq<u8>, other: Seq<u8>)
    requires
        sdu.len() >= 8,
        other.len() >= 8,
        sdu.take(8) == other.take(8),
    ensures
        is_audio_sdu(sdu) == is_audio_sdu(other),
{
    assert forall|i: int| 0 <= i < 8 implies sdu[i] == other[i] by {
        assert(sdu[i] == sdu.take(8)[i]);
        assert(other[i] == other.take(8)[i]);
    }
}

/// An SDU carries audio exactly if it has eight bytes and six of them are as
/// they must be.
pub proof fn audio_is_told_by_six_bytes(sdu: Seq<u8>)
    ensures
        is_audio_sdu(sdu) <==> sdu.len() >= 8 && sdu[0] == 0x04 && sdu[2] == 0x04 && sdu[4] == 0x58
            && sdu[5] == 0x00 && sdu[6] == 0x01 && sdu[7] == 0x00,
{
}

/// A record is its four timestamp bytes, one length byte and that many bytes of
/// the access unit. If a whole one stands behind the 22 bytes of the header, its
/// access unit comes out first, followed by what comes out of the SDU without
/// that record. If none stands there, nothing comes out.
pub proof fn first_record_comes_out_first(sdu: Seq<u8>)
    ensures
        sdu.len() >= 27 && sdu.len() >= 27 + sdu[26] ==> type58_aus(sdu) == seq![
            sdu.subrange(27, 27 + sdu[26]),
        ] + type58_aus(sdu.take(22) + sdu.skip(27 + sdu[26])),
        !(sdu.len() >= 27 && sdu.len() >= 27 + sdu[26]) ==> type58_aus(sdu) == Seq::<
            Seq<u8>,
        >::empty(),
{
    if sdu.len() >= 22 {
        let body = sdu.skip(22);
        if sdu.len() >= 27 && sdu.len() >= 27 + sdu[26] {
            let end = 5 + sdu[26] as int;
            let shorter = sdu.take(22) + sdu.skip(22 + end);
            assert(body[4] == sdu[26]);
            assert(shorter.skip(22) =~= body.skip(end));
            assert(body.subrange(5, end) =~= sdu.subrange(27, 22 + end));
            let first = SubFrame { timestamp: body.take(4), au: body.subrange(5, end) };
            assert(aus_of(seq![first] + records(body.skip(end))) =~= seq![first.au] + aus_of(
                records(body.skip(end)),
            ));
        } else {
            assert(body.len() >= 5 ==> body[4] == sdu[26]);
            assert(type58_aus(sdu) =~= Seq::<Seq<u8>>::empty());
        }
    } else {
        assert(type58_aus(sdu) =~= Seq::<Seq<u8>>::empty());
    }
}

proof fn encodings_are_flattened(frames: Seq<SubFrame>, encodings: Seq<Seq<u8>>)
    requires
        frames.len() == encodings.len(),
        forall|i: int| 0 <= i < frames.len() ==> #[trigger] encodings[i] == frames[i].encode(),
    ensures
        encode_all(frames) == encodings.flatten(),
    decreases frames.len(),
{
    if frames.len() > 0 {
        encodings_are_flattened(frames.drop_first(), encodings.drop_first());
    }
}

/// An SDU that was made of any header of 22 bytes and any number of access
/// units, each behind four bytes of timestamp and a byte with its length, gives
/// back exactly these access units, all of them, whole and in order. What stands
/// at the end and is no whole record adds nothing.
pub proof fn sdu_gives_back_what_it_was_made_of(
    header: Seq<u8>,
    timestamps: Seq<Seq<u8>>,
    aus: Seq<Seq<u8>>,
    tail: Seq<u8>,
)
    requires
        header.len() == 22,
        timestamps.len() == aus.len(),
        forall|i: int| 0 <= i < aus.len() ==> (#[trigger] timestamps[i]).len() == 4,
        forall|i: int| 0 <= i < aus.len() ==> (#[trigger] aus[i]).len() <= 255,
        tail.len() < 5 || tail.len() < 5 + tail[4],
    ensures
        type58_aus(
            header + Seq::new(
                aus.len(),
                |i: int| timestamps[i] + seq![aus[i].len() as u8] + aus[i],
            ).flatten() + tail,
        ) == aus,
{
    let frames = Seq::new(
        aus.len(),
        |i: int| SubFrame { timestamp: timestamps[i], au: aus[i] },
    );
    let encodings = Seq::new(
        aus.len(),
        |i: int| timestamps[i] + seq![aus[i].len() as u8] + aus[i],
    );
    encodings_are_flattened(frames, encodings);
    assert forall|i: int| 0 <= i < frames.len() implies (#[trigger] frames[i]).wf() by {
        assert(timestamps[i].len() == 4);
        assert(aus[i].len() <= 255);
    }
    sdu_reads_back(header, frames, tail);
    assert(aus_of(frames) =~= aus);
}

} // verus!
