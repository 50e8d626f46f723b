//! The 802.11 data frames that the two boards exchange, as bytes.

use vstd::prelude::*;

verus! {

/// Bytes of the MAC header in front of the payload.
pub const HDR: usize = 24;

/// Capacity of the buffer that a frame is built in.
pub const FRAME_CAP: usize = 256;

/// `bytes` written over `s` from position `at` on.
pub open spec fn overwrite(s: Seq<u8>, at: int, bytes: Seq<u8>) -> Seq<u8> {
    s.take(at) + bytes + s.skip(at + bytes.len())
}

/// A minimal data frame:
/// `FC(2) | Duration(2) | DA(6) | SA(6) | BSSID(6) | SeqCtrl(2) | payload`.
///
/// The BSSID repeats the destination. Duration and SeqCtrl are zero; the radio fills in
/// the sequence number on transmission.
pub open spec fn data_frame(dst: Seq<u8>, src: Seq<u8>, payload: Seq<u8>) -> Seq<u8> {
    seq![0x08u8, 0u8, 0u8, 0u8] + dst + src + dst + seq![0u8, 0u8] + payload
}

/// Address 1 of a frame: the destination.
pub open spec fn destination(mpdu: Seq<u8>) -> Seq<u8> {
    mpdu.subrange(4, 10)
}

/// Address 2 of a frame: the source.
pub open spec fn source(mpdu: Seq<u8>) -> Seq<u8> {
    mpdu.subrange(10, 16)
}

/// Address 3 of a frame: the BSSID.
pub open spec fn bssid(mpdu: Seq<u8>) -> Seq<u8> {
    mpdu.subrange(16, 22)
}

/// What follows the MAC header of a frame.
pub open spec fn body(mpdu: Seq<u8>) -> Seq<u8> {
    mpdu.skip(HDR as int)
}

/// Whether a received frame is long enough to have a source address, and that is `mac`.
pub open spec fn sent_by(mpdu: Seq<u8>, mac: Seq<u8>) -> bool {
    mpdu.len() >= 16 && source(mpdu) == mac
}

/// `mpdu` with other destination and source addresses.
pub open spec fn readdressed(mpdu: Seq<u8>, dst: Seq<u8>, src: Seq<u8>) -> Seq<u8> {
    overwrite(overwrite(mpdu, 4, dst), 10, src)
}

/// `mpdu` as the radio puts it on the air when it numbers frames itself: with `number` in
/// SeqCtrl.
pub open spec fn numbered(mpdu: Seq<u8>, number: (u8, u8)) -> Seq<u8> {
    overwrite(mpdu, 22, seq![number.0, number.1])
}

/// Copies `src` into `buf` from position `at` on; the rest of `buf` stays.
fn copy_at(buf: &mut [u8], at: usize, src: &[u8])
    requires
        at + src@.len() <= old(buf)@.len(),
    ensures
        final(buf)@ == overwrite(old(buf)@, at as int, src@),
{
    let ghost before = buf@;
    let len: usize = buf.len();
    let mut i: usize = 0;
    while i < src.len()
        invariant
            i <= src@.len(),
            at + src@.len() <= len,
            len == before.len(),
            buf@ == overwrite(before, at as int, src@.take(i as int)),
        decreases src@.len() - i,
    {
        buf[at + i] = src[i];
        i = i + 1;
    }
    proof {
        assert(src@.take(i as int) == src@);
    }
}

/// Writes a minimal data frame from `src` to `dst` around `payload` into `buf` and
/// returns the number of bytes written. What lies behind them in `buf` stays.
pub fn build_frame(dst: &[u8; 6], src: &[u8; 6], payload: &[u8], buf: &mut [u8]) -> (total: usize)
    requires
        HDR + payload@.len() <= old(buf)@.len(),
    ensures
        total == HDR + payload@.len(),
        final(buf)@ == overwrite(old(buf)@, 0, data_frame(dst@, src@, payload@)),
{
    let total: usize = HDR + payload.len();
    // Frame Control: Data.
    buf[0] = 0x08;
    buf[1] = 0x00;
    // Duration/ID.
    buf[2] = 0x00;
    buf[3] = 0x00;
    copy_at(buf, 4, dst);
    copy_at(buf, 10, src);
    copy_at(buf, 16, dst);
    // Sequence Control.
    buf[22] = 0x00;
    buf[23] = 0x00;
    copy_at(buf, HDR, payload);
    total
}

/// Whether `mpdu` carries `mac` as its source address.
pub fn is_sent_by(mpdu: &[u8], mac: &[u8; 6]) -> (yes: bool)
    ensures
        yes == sent_by(mpdu@, mac@),
{
    if mpdu.len() < 16 {
        return false;
    }
    let mut i: usize = 0;
    while i < 6
        invariant
            i <= 6,
            mpdu@.len() >= 16,
            forall|j: int| 0 <= j < i ==> mpdu@[10 + j] == mac@[j],
        decreases 6 - i,
    {
        if mpdu[10 + i] != mac[i] {
            assert(source(mpdu@)[i as int] != mac@[i as int]);
            return false;
        }
        i = i + 1;
    }
    assert(source(mpdu@) == mac@) by {
        assert forall|j: int| 0 <= j < 6 implies source(mpdu@)[j] == mac@[j] by {
            assert(mpdu@[10 + j] == mac@[j]);
        }
    }
    true
}

/// Gives a frame other destination and source addresses, in place.
pub fn readdress(mpdu: &mut [u8], dst: &[u8; 6], src: &[u8; 6])
    requires
        old(mpdu)@.len() >= 16,
    ensures
        final(mpdu)@ == readdressed(old(mpdu)@, dst@, src@),
{
    copy_at(mpdu, 4, dst);
    copy_at(mpdu, 10, src);
}

/// A frame in a buffer of fixed capacity: the first `len` of `bytes`.
#[derive(Clone, Copy, Debug)]
pub struct FrameBuf {
    pub bytes: [u8; 256],
    pub len: usize,
}

impl View for FrameBuf {
    type V = Seq<u8>;

    open spec fn view(&self) -> Seq<u8> {
        self.bytes@.take(self.len as int)
    }
}

impl FrameBuf {
    /// The frame lies within the buffer.
    pub open spec fn wf(self) -> bool {
        self.len <= FRAME_CAP
    }

    /// A data frame from `src` to `dst` around `payload`.
    pub fn data(dst: &[u8; 6], src: &[u8; 6], payload: &[u8]) -> (frame: FrameBuf)
        requires
            HDR + payload@.len() <= FRAME_CAP,
        ensures
            frame.wf(),
            frame@ == data_frame(dst@, src@, payload@),
    {
        let mut bytes: [u8; 256] = [0u8; 256];
        let len: usize = build_frame(dst, src, payload, &mut bytes);
        FrameBuf { bytes, len }
    }
}

/// Rates that frames are sent at.
#[derive(Clone, Copy, Debug)]
pub enum TxRate {
    /// 1 Mbit/s with the long preamble.
    OneMbpsLong,
}

/// How the radio is to send a frame.
#[derive(Clone, Copy, Debug)]
pub struct TxOptions {
    pub rate: TxRate,
    /// The radio is to write the sequence number into the frame.
    pub override_seq_num: bool,
}

/// How both boards send: at 1 Mbit/s, numbered by the radio.
pub open spec fn usual_options() -> TxOptions {
    TxOptions { rate: TxRate::OneMbpsLong, override_seq_num: true }
}

impl TxOptions {
    /// How both boards send.
    pub fn usual() -> (options: TxOptions)
        ensures
            options == usual_options(),
    {
        TxOptions { rate: TxRate::OneMbpsLong, override_seq_num: true }
    }
}

/// A frame to be handed to the radio, with how it is to be sent.
#[derive(Clone, Copy, Debug)]
pub struct TxRequest {
    pub frame: FrameBuf,
    pub options: TxOptions,
}

impl TxRequest {
    /// The request puts `mpdu` on the air, in the usual way.
    pub open spec fn sends(self, mpdu: Seq<u8>) -> bool {
        &&& self.frame.wf()
        &&& self.frame@ == mpdu
        &&& self.options == usual_options()
    }

    /// A request to send `frame`.
    pub fn new(frame: FrameBuf) -> (request: TxRequest)
        requires
            frame.wf(),
        ensures
            request.sends(frame@),
    {
        TxRequest { frame, options: TxOptions::usual() }
    }
}

/// A built frame has the fields that it was built from, where the layout puts them:
/// 24 bytes of header with the addresses, then the payload.
pub proof fn law_data_frame_fields(dst: Seq<u8>, src: Seq<u8>, payload: Seq<u8>)
    requires
        dst.len() == 6,
        src.len() == 6,
    ensures
        data_frame(dst, src, payload).len() == HDR + payload.len(),
        data_frame(dst, src, payload).take(4) == seq![0x08u8, 0u8, 0u8, 0u8],
        destination(data_frame(dst, src, payload)) == dst,
        source(data_frame(dst, src, payload)) == src,
        bssid(data_frame(dst, src, payload)) == dst,
        data_frame(dst, src, payload).subrange(22, 24) == seq![0u8, 0u8],
        body(data_frame(dst, src, payload)) == payload,
        sent_by(data_frame(dst, src, payload), src),
{
    assert(source(data_frame(dst, src, payload)) == src);
}

/// Readdressing a frame sets its two addresses and changes nothing else.
pub proof fn law_readdressed_fields(mpdu: Seq<u8>, dst: Seq<u8>, src: Seq<u8>)
    requires
        mpdu.len() >= 16,
        dst.len() == 6,
        src.len() == 6,
    ensures
        readdressed(mpdu, dst, src).len() == mpdu.len(),
        destination(readdressed(mpdu, dst, src)) == dst,
        source(readdressed(mpdu, dst, src)) == src,
        readdressed(mpdu, dst, src).take(4) == mpdu.take(4),
        readdressed(mpdu, dst, src).skip(16) == mpdu.skip(16),
        sent_by(readdressed(mpdu, dst, src), src),
{
    assert(source(readdressed(mpdu, dst, src)) == src);
}

/// Numbering a frame sets SeqCtrl and changes nothing else.
pub proof fn law_numbered_fields(mpdu: Seq<u8>, number: (u8, u8))
    requires
        mpdu.len() >= HDR,
    ensures
        numbered(mpdu, number).len() == mpdu.len(),
        numbered(mpdu, number).take(22) == mpdu.take(22),
        numbered(mpdu, number).subrange(22, 24) == seq![number.0, number.1],
        destination(numbered(mpdu, number)) == destination(mpdu),
        source(numbered(mpdu, number)) == source(mpdu),
        bssid(numbered(mpdu, number)) == bssid(mpdu),
        body(numbered(mpdu, number)) == body(mpdu),
{
}

/// What `build_frame` leaves in a buffer, octet by octet: frame control 08 00, duration 0,
/// destination, source, the destination again as BSSID, sequence control 0, the payload, and
/// behind it what was in the buffer.
pub proof fn law_built_octets(dst: Seq<u8>, src: Seq<u8>, payload: Seq<u8>, buf: Seq<u8>)
    requires
        dst.len() == 6,
        src.len() == 6,
        24 + payload.len() <= buf.len(),
    ensures
        ({
            let built = overwrite(buf, 0, data_frame(dst, src, payload));
            &&& built.len() == buf.len()
            &&& built[0] == 0x08 && built[1] == 0 && built[2] == 0 && built[3] == 0
            &&& forall|i: int| 0 <= i < 6 ==> built[4 + i] == #[trigger] dst[i]
            &&& forall|i: int| 0 <= i < 6 ==> built[10 + i] == #[trigger] src[i]
            &&& forall|i: int| 0 <= i < 6 ==> built[16 + i] == #[trigger] dst[i]
            &&& built[22] == 0 && built[23] == 0
            &&& forall|i: int| 0 <= i < payload.len() ==> built[24 + i] == #[trigger] payload[i]
            &&& forall|i: int|
                24 + payload.len() <= i < buf.len() ==> #[trigger] built[i] == buf[i]
        }),
        HDR == 24,
        data_frame(dst, src, payload).len() == 24 + payload.len(),
        forall|i: int|
            0 <= i < 24 + payload.len() ==> #[trigger] data_frame(dst, src, payload)[i]
                == overwrite(buf, 0, data_frame(dst, src, payload))[i],
{
}

/// Where the fields of a frame lie, octet by octet.
pub proof fn law_field_octets(mpdu: Seq<u8>, i: int)
    requires
        mpdu.len() >= 24,
    ensures
        destination(mpdu).len() == 6 && source(mpdu).len() == 6 && bssid(mpdu).len() == 6,
        0 <= i < 6 ==> destination(mpdu)[i] == mpdu[4 + i],
        0 <= i < 6 ==> source(mpdu)[i] == mpdu[10 + i],
        0 <= i < 6 ==> bssid(mpdu)[i] == mpdu[16 + i],
        body(mpdu).len() == mpdu.len() - 24,
        0 <= i < mpdu.len() - 24 ==> body(mpdu)[i] == mpdu[24 + i],
{
}

/// A frame is a board's exactly when its octets 10 to 15 are the board's address; no other
/// octet matters, and a frame without all of these is nobody's.
pub proof fn law_source_decides(mpdu: Seq<u8>, mac: Seq<u8>)
    requires
        mac.len() == 6,
    ensures
        sent_by(mpdu, mac) <==> {
            &&& mpdu.len() >= 16
            &&& mpdu[10] == mac[0]
            &&& mpdu[11] == mac[1]
            &&& mpdu[12] == mac[2]
            &&& mpdu[13] == mac[3]
            &&& mpdu[14] == mac[4]
            &&& mpdu[15] == mac[5]
        },
{
    if mpdu.len() >= 16 {
        let from = mpdu.subrange(10, 16);
        assert(forall|i: int| 0 <= i < 6 ==> from[i] == #[trigger] mpdu[10 + i]);
        if mpdu[10] == mac[0] && mpdu[11] == mac[1] && mpdu[12] == mac[2] && mpdu[13] == mac[3]
            && mpdu[14] == mac[4] && mpdu[15] == mac[5] {
            assert(from =~= mac);
        } else {
            assert(from[0] == mpdu[10] && from[1] == mpdu[11] && from[2] == mpdu[12] && from[3]
                == mpdu[13] && from[4] == mpdu[14] && from[5] == mpdu[15]);
        }
    }
}

/// What readdressing leaves, octet by octet: the new addresses in octets 4 to 15, and
/// everywhere else what was there.
pub proof fn law_readdressed_octets(mpdu: Seq<u8>, dst: Seq<u8>, src: Seq<u8>)
    requires
        mpdu.len() >= 16,
        dst.len() == 6,
        src.len() == 6,
    ensures
        readdressed(mpdu, dst, src).len() == mpdu.len(),
        forall|i: int| 0 <= i < 6 ==> readdressed(mpdu, dst, src)[4 + i] == #[trigger] dst[i],
        forall|i: int| 0 <= i < 6 ==> readdressed(mpdu, dst, src)[10 + i] == #[trigger] src[i],
        forall|i: int|
            0 <= i < 4 || 16 <= i < mpdu.len() ==> #[trigger] readdressed(mpdu, dst, src)[i]
                == mpdu[i],
{
}

/// What numbering leaves, octet by octet: the number in octets 22 and 23, and everywhere else
/// what was there.
pub proof fn law_numbered_octets(mpdu: Seq<u8>, number: (u8, u8))
    requires
        mpdu.len() >= 24,
    ensures
        numbered(mpdu, number).len() == mpdu.len(),
        numbered(mpdu, number)[22] == number.0,
        numbered(mpdu, number)[23] == number.1,
        forall|i: int|
            0 <= i < 22 || 24 <= i < mpdu.len() ==> #[trigger] numbered(mpdu, number)[i]
                == mpdu[i],
{
}

/// What a request that sends `mpdu` holds: exactly the octets of `mpdu`, in the first `len` of
/// a buffer of 256, to be sent at 1 Mbit/s and numbered by the radio.
pub proof fn law_request_octets(request: TxRequest, mpdu: Seq<u8>)
    requires
        request.sends(mpdu),
    ensures
        request.frame.len == mpdu.len(),
        mpdu.len() <= 256,
        forall|i: int| 0 <= i < mpdu.len() ==> #[trigger] request.frame.bytes@[i] == mpdu[i],
        request.options.rate is OneMbpsLong,
        request.options.override_seq_num,
{
    assert(forall|i: int|
        0 <= i < mpdu.len() ==> #[trigger] request.frame.bytes@[i] == request.frame@[i]);
}

/// What the usual options are: 1 Mbit/s, numbered by the radio.
pub proof fn law_usual_options(options: TxOptions)
    ensures
        options == usual_options() <==> options.rate is OneMbpsLong && options.override_seq_num,
{
}

} // verus!
