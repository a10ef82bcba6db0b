//! Framing of the batched binary command transport.
//!
//! Request:  `count: u32`, then per command `cmd_type: u16`,
//! `payload_len: u32`, `payload`.
//! Response: `count: u32` (the number of responses), then per response `resp_type: u8`,
//! `payload_len: u32`, `payload` (all little-endian).

use vstd::prelude::*;
use crate::wire::{
    le16, le32, u16_bytes, u32_bytes, u32s_bytes, u64_bytes, read_u16, read_u32, push_u32, push_u64,
    lemma_u16_bytes_roundtrip, lemma_u32_bytes_roundtrip, lemma_le32_of_written,
    lemma_le32_of_written_run, lemma_le64_of_written, lemma_u32s_bytes_len, le64,
};

verus! {

/// Response types of the binary protocol.
#[derive(Clone, Copy, Debug, PartialEq, Eq, Structural)]
pub enum BatchResponseType {
    Success,
    Error,
    Float32,
    Int32,
    Uint32,
    Uint64,
    String,
    Bytes,
    Bool,
    Float32Array,
    Uint32Pair,
    Uint32Triple,
    VideoInfo,
}

/// The byte that stands for each response type on the wire.
pub open spec fn response_type_code(t: BatchResponseType) -> u8 {
    match t {
        BatchResponseType::Success => 0,
        BatchResponseType::Error => 1,
        BatchResponseType::Float32 => 2,
        BatchResponseType::Int32 => 3,
        BatchResponseType::Uint32 => 4,
        BatchResponseType::Uint64 => 5,
        BatchResponseType::String => 6,
        BatchResponseType::Bytes => 7,
        BatchResponseType::Bool => 8,
        BatchResponseType::Float32Array => 9,
        BatchResponseType::Uint32Pair => 10,
        BatchResponseType::Uint32Triple => 11,
        BatchResponseType::VideoInfo => 12,
    }
}

impl BatchResponseType {
    /// The wire byte of this response type.
    pub fn code(self) -> (r: u8)
        ensures
            r == response_type_code(self),
    {
        match self {
            BatchResponseType::Success => 0,
            BatchResponseType::Error => 1,
            BatchResponseType::Float32 => 2,
            BatchResponseType::Int32 => 3,
            BatchResponseType::Uint32 => 4,
            BatchResponseType::Uint64 => 5,
            BatchResponseType::String => 6,
            BatchResponseType::Bytes => 7,
            BatchResponseType::Bool => 8,
            BatchResponseType::Float32Array => 9,
            BatchResponseType::Uint32Pair => 10,
            BatchResponseType::Uint32Triple => 11,
            BatchResponseType::VideoInfo => 12,
        }
    }
}

/// One command frame of a request: its type and its payload bytes.
pub struct RawCommand {
    pub cmd_type: u16,
    pub payload: Vec<u8>,
}

/// A parsed request: the count written in its header, and the command
/// frames that could be read whole.
pub struct BatchRequest {
    pub declared_count: u32,
    pub commands: Vec<RawCommand>,
}

/// The (type, payload) pairs of a list of command frames.
pub open spec fn frames_of(cs: Seq<RawCommand>) -> Seq<(u16, Seq<u8>)> {
    cs.map_values(|c: RawCommand| (c.cmd_type, c.payload@))
}

/// The command frames found from `off` on, reading at most `remaining`
/// of them and stopping at the first one that does not fit in `req`.
pub open spec fn parse_frames(req: Seq<u8>, off: int, remaining: nat) -> Seq<(u16, Seq<u8>)>
    decreases remaining,
{
    if remaining == 0 || off < 0 || off + 6 > req.len() {
        Seq::empty()
    } else {
        let len = le32(req, off + 2);
        if off + 6 + len > req.len() {
            Seq::empty()
        } else {
            seq![(le16(req, off) as u16, req.subrange(off + 6, off + 6 + len))] + parse_frames(
                req,
                off + 6 + len,
                (remaining - 1) as nat,
            )
        }
    }
}

/// At most `remaining` frames are read.
pub proof fn lemma_parse_frames_len(req: Seq<u8>, off: int, remaining: nat)
    ensures
        parse_frames(req, off, remaining).len() <= remaining,
    decreases remaining,
{
    if remaining > 0 && off >= 0 && off + 6 <= req.len() {
        lemma_parse_frames_len(req, off + 6 + le32(req, off + 2), (remaining - 1) as nat);
    }
}

/// Splits a request buffer into its command frames. `None` when the buffer
/// is shorter than its 4-byte header.
pub fn parse_batch_request(request: &[u8]) -> (r: Option<BatchRequest>)
    ensures
        r is None <==> request@.len() < 4,
        r matches Some(b) ==> {
            &&& b.declared_count == le32(request@, 0)
            &&& frames_of(b.commands@) == parse_frames(request@, 4, le32(request@, 0) as nat)
        },
{
    let n = request.len();
    if n < 4 {
        return None;
    }
    let count = read_u32(request, 0);
    let mut off: usize = 4;
    let mut i: u32 = 0;
    let mut cmds: Vec<RawCommand> = Vec::new();
    while i < count
        invariant
            n == request@.len(),
            4 <= off <= n,
            i <= count,
            count == le32(request@, 0),
            frames_of(cmds@) + parse_frames(request@, off as int, (count - i) as nat)
                == parse_frames(request@, 4, count as nat),
        decreases count - i,
    {
        if n - off < 6 {
            assert(parse_frames(request@, off as int, (count - i) as nat) =~= Seq::empty());
            assert(frames_of(cmds@) =~= frames_of(cmds@) + Seq::<(u16, Seq<u8>)>::empty());
            return Some(BatchRequest { declared_count: count, commands: cmds });
        }
        let t = read_u16(request, off);
        let len = read_u32(request, off + 2) as usize;
        if len > n - off - 6 {
            assert(parse_frames(request@, off as int, (count - i) as nat) =~= Seq::empty());
            assert(frames_of(cmds@) =~= frames_of(cmds@) + Seq::<(u16, Seq<u8>)>::empty());
            return Some(BatchRequest { declared_count: count, commands: cmds });
        }
        let payload = vstd::slice::slice_to_vec(&request[off + 6..off + 6 + len]);
        let ghost old_cmds = cmds@;
        cmds.push(RawCommand { cmd_type: t, payload });
        proof {
            let head = (t, request@.subrange(off + 6, off + 6 + len));
            assert(frames_of(cmds@) =~= frames_of(old_cmds).push(head));
            assert(parse_frames(request@, off as int, (count - i) as nat) =~= seq![head]
                + parse_frames(request@, off + 6 + len, (count - i - 1) as nat));
            assert(frames_of(old_cmds) + (seq![head] + parse_frames(request@, off + 6 + len, (count - i - 1) as nat))
                =~= frames_of(old_cmds).push(head) + parse_frames(request@, off + 6 + len, (count - i - 1) as nat));
        }
        off = off + 6 + len;
        i = i + 1;
    }
    assert(parse_frames(request@, off as int, 0) =~= Seq::empty());
    assert(frames_of(cmds@) =~= frames_of(cmds@) + Seq::<(u16, Seq<u8>)>::empty());
    Some(BatchRequest { declared_count: count, commands: cmds })
}

/// The bytes of one command frame.
pub open spec fn encode_frame(f: (u16, Seq<u8>)) -> Seq<u8> {
    u16_bytes(f.0) + u32_bytes(f.1.len() as u32) + f.1
}

/// The bytes of a list of command frames, in order.
pub open spec fn encode_frames(fs: Seq<(u16, Seq<u8>)>) -> Seq<u8>
    decreases fs.len(),
{
    if fs.len() == 0 {
        Seq::empty()
    } else {
        encode_frame(fs[0]) + encode_frames(fs.drop_first())
    }
}

/// A request carrying the given command frames.
pub open spec fn encode_request(fs: Seq<(u16, Seq<u8>)>) -> Seq<u8> {
    u32_bytes(fs.len() as u32) + encode_frames(fs)
}

/// Every payload's length fits the 32-bit length field.
pub open spec fn payloads_fit(fs: Seq<(u16, Seq<u8>)>) -> bool {
    forall|i: int| 0 <= i < fs.len() ==> #[trigger] fs[i].1.len() <= u32::MAX
}

proof fn lemma_frames_after(pre: Seq<u8>, fs: Seq<(u16, Seq<u8>)>)
    requires
        payloads_fit(fs),
    ensures
        parse_frames(pre + encode_frames(fs), pre.len() as int, fs.len()) == fs,
    decreases fs.len(),
{
    let req = pre + encode_frames(fs);
    let off = pre.len() as int;
    if fs.len() == 0 {
        assert(parse_frames(req, off, 0) =~= Seq::<(u16, Seq<u8>)>::empty());
    } else {
        let f = fs[0];
        let tail = fs.drop_first();
        let head = encode_frame(f);
        let len = f.1.len();
        assert(payloads_fit(tail)) by {
            assert forall|i: int| 0 <= i < tail.len() implies #[trigger] tail[i].1.len() <= u32::MAX by {
                assert(tail[i] == fs[i + 1]);
            }
        }
        assert(fs[0].1.len() <= u32::MAX);
        lemma_u16_bytes_roundtrip(f.0);
        lemma_u32_bytes_roundtrip(len as u32);
        let pre2 = pre + head;
        assert(req =~= pre2 + encode_frames(tail));
        assert(head.len() == 6 + len);
        assert(req.subrange(off, off + 6 + len) =~= head);
        assert(le16(req, off) == le16(head, 0));
        assert(le32(req, off + 2) == le32(u32_bytes(len as u32), 0)) by {
            assert(req[off + 2] == head[2]);
            assert(req[off + 3] == head[3]);
            assert(req[off + 4] == head[4]);
            assert(req[off + 5] == head[5]);
            assert(head[2] == u32_bytes(len as u32)[0]);
            assert(head[3] == u32_bytes(len as u32)[1]);
            assert(head[4] == u32_bytes(len as u32)[2]);
            assert(head[5] == u32_bytes(len as u32)[3]);
        }
        assert(le16(req, off) == f.0) by {
            assert(req[off] == head[0]);
            assert(req[off + 1] == head[1]);
            assert(head[0] == u16_bytes(f.0)[0]);
            assert(head[1] == u16_bytes(f.0)[1]);
        }
        assert(req.subrange(off + 6, off + 6 + len) =~= f.1);
        lemma_frames_after(pre2, tail);
        assert(pre2.len() == off + 6 + len);
        assert(fs =~= seq![(le16(req, off) as u16, req.subrange(off + 6, off + 6 + len))] + tail);
    }
}

/// A request written with the frames `fs` is read back as exactly those
/// frames, in order.
pub proof fn lemma_request_roundtrip(fs: Seq<(u16, Seq<u8>)>)
    requires
        fs.len() <= u32::MAX,
        payloads_fit(fs),
    ensures
        le32(encode_request(fs), 0) == fs.len(),
        parse_frames(encode_request(fs), 4, le32(encode_request(fs), 0) as nat) == fs,
{
    lemma_u32_bytes_roundtrip(fs.len() as u32);
    let req = encode_request(fs);
    assert(le32(req, 0) == le32(u32_bytes(fs.len() as u32), 0)) by {
        assert(req[0] == u32_bytes(fs.len() as u32)[0]);
        assert(req[1] == u32_bytes(fs.len() as u32)[1]);
        assert(req[2] == u32_bytes(fs.len() as u32)[2]);
        assert(req[3] == u32_bytes(fs.len() as u32)[3]);
    }
    lemma_frames_after(u32_bytes(fs.len() as u32), fs);
}

/// The bytes of one response frame.
pub open spec fn encode_record(r: (u8, Seq<u8>)) -> Seq<u8> {
    seq![r.0] + u32_bytes(r.1.len() as u32) + r.1
}

/// The bytes of a list of response frames, in order.
pub open spec fn encode_records(rs: Seq<(u8, Seq<u8>)>) -> Seq<u8>
    decreases rs.len(),
{
    if rs.len() == 0 {
        Seq::empty()
    } else {
        encode_records(rs.drop_last()) + encode_record(rs.last())
    }
}

/// Collects response frames for a response buffer of a fixed capacity.
pub struct ResponseWriter {
    bytes: Vec<u8>,
    capacity: usize,
    count: usize,
    records: Ghost<Seq<(u8, Seq<u8>)>>,
}

/// Every response frame takes at least its 5 header bytes.
proof fn lemma_records_len(rs: Seq<(u8, Seq<u8>)>)
    ensures
        encode_records(rs).len() >= 5 * rs.len(),
    decreases rs.len(),
{
    if rs.len() > 0 {
        lemma_records_len(rs.drop_last());
    }
}

impl ResponseWriter {
    /// The response frames written so far.
    pub closed spec fn records(&self) -> Seq<(u8, Seq<u8>)> {
        self.records@
    }

    /// The capacity of the response buffer.
    pub closed spec fn capacity(&self) -> usize {
        self.capacity
    }

    /// Bytes used so far, the 4-byte count included.
    pub open spec fn used(&self) -> int {
        4 + encode_records(self.records()).len() as int
    }

    pub closed spec fn wf(&self) -> bool {
        &&& self.bytes@ == seq![0u8, 0u8, 0u8, 0u8] + encode_records(self.records@)
        &&& self.records@.len() > 0 ==> self.bytes@.len() <= self.capacity
        &&& self.count == self.records@.len()
    }

    /// The number of response frames written so far.
    pub fn count(&self) -> (n: usize)
        requires
            self.wf(),
        ensures
            n == self.records().len(),
    {
        self.count
    }

    /// An empty response for a buffer of `capacity` bytes.
    pub fn new(capacity: usize) -> (w: Self)
        ensures
            w.wf(),
            w.records() == Seq::<(u8, Seq<u8>)>::empty(),
            w.capacity() == capacity,
    {
        let mut bytes: Vec<u8> = Vec::new();
        bytes.push(0);
        bytes.push(0);
        bytes.push(0);
        bytes.push(0);
        let w = ResponseWriter { bytes, capacity, count: 0, records: Ghost(Seq::empty()) };
        assert(w.bytes@ =~= seq![0u8, 0u8, 0u8, 0u8] + encode_records(Seq::empty()));
        w
    }

    /// Appends one response frame; `false` (and nothing written) when the
    /// frame would not fit in the buffer.
    pub fn push(&mut self, resp_type: BatchResponseType, payload: &[u8]) -> (ok: bool)
        requires
            old(self).wf(),
        ensures
            final(self).wf(),
            final(self).capacity() == old(self).capacity(),
            ok == (old(self).used() + 5 + payload@.len() <= old(self).capacity()),
            ok ==> final(self).records() == old(self).records().push(
                (response_type_code(resp_type), payload@),
            ),
            !ok ==> final(self).records() == old(self).records(),
    {
        let used = self.bytes.len();
        if (used as u128) + 5 + (payload.len() as u128) > (self.capacity as u128) {
            return false;
        }
        let ghost old_bytes = self.bytes@;
        let code = resp_type.code();
        self.bytes.push(code);
        push_u32(&mut self.bytes, payload.len() as u32);
        let mut k: usize = 0;
        while k < payload.len()
            invariant
                k <= payload@.len(),
                self.capacity == old(self).capacity,
                self.records == old(self).records,
                self.count == old(self).count,
                self.bytes@ == old_bytes + seq![code] + u32_bytes(payload@.len() as u32)
                    + payload@.subrange(0, k as int),
            decreases payload@.len() - k,
        {
            self.bytes.push(payload[k]);
            assert(payload@.subrange(0, k + 1) =~= payload@.subrange(0, k as int).push(payload@[k as int]));
            k = k + 1;
        }
        let ghost rec = (code, payload@);
        proof {
            lemma_records_len(old(self).records@);
        }
        self.count = self.count + 1;
        self.records = Ghost(self.records@.push(rec));
        proof {
            assert(payload@.subrange(0, payload@.len() as int) =~= payload@);
            assert(self.records@.drop_last() =~= old(self).records@);
            assert(self.bytes@ =~= seq![0u8, 0u8, 0u8, 0u8] + encode_records(self.records@));
        }
        true
    }

    /// The finished response: the given count followed by the frames.
    pub fn finish(self, count: u32) -> (out: Vec<u8>)
        requires
            self.wf(),
            self.capacity() >= 4,
        ensures
            out@ == u32_bytes(count) + encode_records(self.records()),
            out@.len() <= self.capacity() || self.records().len() == 0,
    {
        let mut bytes = self.bytes;
        let mut head: Vec<u8> = Vec::new();
        push_u32(&mut head, count);
        bytes.set(0, head[0]);
        bytes.set(1, head[1]);
        bytes.set(2, head[2]);
        bytes.set(3, head[3]);
        assert(bytes@ =~= u32_bytes(count) + encode_records(self.records()));
        bytes
    }
}

/// The answer to one command.
pub enum BatchResponse {
    Success,
    /// Failure, with an optional message.
    Error(Vec<u8>),
    /// The bits of an `f32`.
    Float32(u32),
    Int32(i32),
    Uint32(u32),
    Uint64(u64),
    /// Text sent as a 32-bit length and its UTF-8 bytes.
    Text(Vec<u8>),
    Bool(bool),
    /// `f32` bits, sent after their count.
    Float32Array(Vec<u32>),
    Uint32Pair(u32, u32),
    /// Duration in milliseconds, sample rate and channel count.
    AudioInfo(u64, u32, u32),
    /// Width, height and duration in milliseconds.
    VideoInfo(u32, u32, u64),
}

/// The response type and payload bytes of a response.
pub open spec fn response_frame(r: BatchResponse) -> (BatchResponseType, Seq<u8>) {
    match r {
        BatchResponse::Success => (BatchResponseType::Success, Seq::empty()),
        BatchResponse::Error(m) => (BatchResponseType::Error, m@),
        BatchResponse::Float32(b) => (BatchResponseType::Float32, u32_bytes(b)),
        BatchResponse::Int32(v) => (BatchResponseType::Int32, u32_bytes(v as u32)),
        BatchResponse::Uint32(v) => (BatchResponseType::Uint32, u32_bytes(v)),
        BatchResponse::Uint64(v) => (BatchResponseType::Uint64, u64_bytes(v)),
        BatchResponse::Text(t) => (BatchResponseType::String, u32_bytes(t@.len() as u32) + t@),
        BatchResponse::Bool(b) => (BatchResponseType::Bool, seq![if b { 1u8 } else { 0u8 }]),
        BatchResponse::Float32Array(ws) => (
            BatchResponseType::Float32Array,
            u32_bytes(ws@.len() as u32) + u32s_bytes(ws@),
        ),
        BatchResponse::Uint32Pair(a, b) => (BatchResponseType::Uint32Pair, u32_bytes(a) + u32_bytes(b)),
        BatchResponse::AudioInfo(d, sr, ch) => (
            BatchResponseType::Uint32Triple,
            u64_bytes(d) + u32_bytes(sr) + u32_bytes(ch),
        ),
        BatchResponse::VideoInfo(w, h, d) => (
            BatchResponseType::VideoInfo,
            u32_bytes(w) + u32_bytes(h) + u64_bytes(d),
        ),
    }
}

impl BatchResponse {
    /// The response type and payload bytes of this response.
    pub fn encode(self) -> (r: (BatchResponseType, Vec<u8>))
        ensures
            r.0 == response_frame(self).0,
            r.1@ == response_frame(self).1,
    {
        let ghost me = self;
        let mut out: Vec<u8> = Vec::new();
        match self {
            BatchResponse::Success => (BatchResponseType::Success, out),
            BatchResponse::Error(m) => (BatchResponseType::Error, m),
            BatchResponse::Float32(b) => {
                push_u32(&mut out, b);
                assert(out@ =~= u32_bytes(b));
                (BatchResponseType::Float32, out)
            },
            BatchResponse::Int32(v) => {
                push_u32(&mut out, v as u32);
                assert(out@ =~= u32_bytes(v as u32));
                (BatchResponseType::Int32, out)
            },
            BatchResponse::Uint32(v) => {
                push_u32(&mut out, v);
                assert(out@ =~= u32_bytes(v));
                (BatchResponseType::Uint32, out)
            },
            BatchResponse::Uint64(v) => {
                push_u64(&mut out, v);
                assert(out@ =~= u64_bytes(v));
                (BatchResponseType::Uint64, out)
            },
            BatchResponse::Text(t) => {
                push_u32(&mut out, t.len() as u32);
                let mut k: usize = 0;
                while k < t.len()
                    invariant
                        k <= t@.len(),
                        out@ == u32_bytes(t@.len() as u32) + t@.subrange(0, k as int),
                    decreases t@.len() - k,
                {
                    out.push(t[k]);
                    assert(t@.subrange(0, k + 1) =~= t@.subrange(0, k as int).push(t@[k as int]));
                    k = k + 1;
                }
                assert(t@.subrange(0, t@.len() as int) =~= t@);
                (BatchResponseType::String, out)
            },
            BatchResponse::Bool(b) => {
                out.push(if b { 1u8 } else { 0u8 });
                assert(out@ =~= seq![if b { 1u8 } else { 0u8 }]);
                (BatchResponseType::Bool, out)
            },
            BatchResponse::Float32Array(ws) => {
                push_u32(&mut out, ws.len() as u32);
                let mut k: usize = 0;
                while k < ws.len()
                    invariant
                        k <= ws@.len(),
                        out@ == u32_bytes(ws@.len() as u32) + u32s_bytes(ws@.subrange(0, k as int)),
                    decreases ws@.len() - k,
                {
                    let ghost before = out@;
                    push_u32(&mut out, ws[k]);
                    assert(ws@.subrange(0, k + 1).drop_last() =~= ws@.subrange(0, k as int));
                    assert(out@ =~= u32_bytes(ws@.len() as u32) + u32s_bytes(ws@.subrange(0, k + 1)));
                    k = k + 1;
                }
                assert(ws@.subrange(0, ws@.len() as int) =~= ws@);
                (BatchResponseType::Float32Array, out)
            },
            BatchResponse::Uint32Pair(a, b) => {
                push_u32(&mut out, a);
                push_u32(&mut out, b);
                assert(out@ =~= u32_bytes(a) + u32_bytes(b));
                (BatchResponseType::Uint32Pair, out)
            },
            BatchResponse::AudioInfo(d, sr, ch) => {
                push_u64(&mut out, d);
                push_u32(&mut out, sr);
                push_u32(&mut out, ch);
                assert(out@ =~= u64_bytes(d) + u32_bytes(sr) + u32_bytes(ch));
                (BatchResponseType::Uint32Triple, out)
            },
            BatchResponse::VideoInfo(w, h, d) => {
                push_u32(&mut out, w);
                push_u32(&mut out, h);
                push_u64(&mut out, d);
                assert(out@ =~= u32_bytes(w) + u32_bytes(h) + u64_bytes(d));
                (BatchResponseType::VideoInfo, out)
            },
        }
    }
}


/// A measured text width: the bits of the `f32` width, or 0.0 when the
/// font could not be loaded (`None`).
pub open spec fn width_or_zero(m: Option<u32>) -> u32 {
    match m {
        Some(w) => w,
        None => 0,
    }
}

/// The widths of a batch of measurements, 0.0 where the font could not be
/// loaded.
pub open spec fn widths_of(ms: Seq<Option<u32>>) -> Seq<u32> {
    ms.map_values(|m: Option<u32>| width_or_zero(m))
}

/// The answer to a text measurement: its width as a `Float32` response.
pub fn measure_answer(measured: Option<u32>) -> (r: BatchResponse)
    ensures
        r matches BatchResponse::Float32(w) && w == width_or_zero(measured),
        response_frame(r) == (BatchResponseType::Float32, u32_bytes(width_or_zero(measured))),
{
    match measured {
        Some(w) => BatchResponse::Float32(w),
        None => BatchResponse::Float32(0),
    }
}

/// The answer to a batch of text measurements, one per request in order:
/// a `Float32Array` response whose payload is the count, then each width.
pub fn measure_batch_answer(measured: Vec<Option<u32>>) -> (r: BatchResponse)
    ensures
        r matches BatchResponse::Float32Array(ws) && ws@ == widths_of(measured@),
        response_frame(r) == (
            BatchResponseType::Float32Array,
            u32_bytes(measured@.len() as u32) + u32s_bytes(widths_of(measured@)),
        ),
{
    let mut ws: Vec<u32> = Vec::new();
    let mut i: usize = 0;
    while i < measured.len()
        invariant
            i <= measured@.len(),
            ws@ == widths_of(measured@).subrange(0, i as int),
        decreases measured@.len() - i,
    {
        let w = match measured[i] {
            Some(w) => w,
            None => 0,
        };
        ws.push(w);
        assert(ws@ =~= widths_of(measured@).subrange(0, i + 1));
        i = i + 1;
    }
    assert(ws@ =~= widths_of(measured@));
    BatchResponse::Float32Array(ws)
}


/// The answer to a yes/no query whose C status is 1 for yes.
pub fn flag_answer(status: i32) -> (r: BatchResponse)
    ensures
        r matches BatchResponse::Bool(b) && b == (status == 1),
{
    BatchResponse::Bool(status == 1)
}

/// The answer to an audio info query: the info when the C status is 0,
/// an empty Error response otherwise.
pub fn info_answer(status: i32, duration_ms: u64, sample_rate: u32, channels: u32) -> (r: BatchResponse)
    ensures
        status == 0 ==> (r matches BatchResponse::AudioInfo(d, sr, ch) && d == duration_ms && sr
            == sample_rate && ch == channels),
        status != 0 ==> (r matches BatchResponse::Error(m) && m@.len() == 0),
{
    if status == 0 {
        BatchResponse::AudioInfo(duration_ms, sample_rate, channels)
    } else {
        BatchResponse::Error(Vec::new())
    }
}

/// Reading a response's payload back field by field gives the values it
/// answers with, in their order: each 32-bit field little endian at its
/// offset, each 64-bit field likewise, a text after its length, an array
/// after its count.
pub proof fn lemma_response_fields_read_back(r: BatchResponse)
    ensures
        ({
            let b = response_frame(r).1;
            match r {
                BatchResponse::Success => b.len() == 0,
                BatchResponse::Error(m) => b == m@,
                BatchResponse::Float32(v) => b.len() == 4 && le32(b, 0) == v,
                BatchResponse::Int32(v) => b.len() == 4 && le32(b, 0) == v as u32,
                BatchResponse::Uint32(v) => b.len() == 4 && le32(b, 0) == v,
                BatchResponse::Uint64(v) => b.len() == 8 && le64(b, 0) == v,
                BatchResponse::Text(t) => t@.len() <= u32::MAX ==> (le32(b, 0) == t@.len()
                    && b.subrange(4, b.len() as int) == t@),
                BatchResponse::Bool(f) => b == seq![
                    if f {
                        1u8
                    } else {
                        0u8
                    },
                ],
                BatchResponse::Float32Array(ws) => ws@.len() <= u32::MAX ==> (b.len() == 4 + 4
                    * ws@.len() && le32(b, 0) == ws@.len() && forall|k: int|
                    0 <= k < ws@.len() ==> le32(b, 4 + 4 * k) == #[trigger] ws@[k]),
                BatchResponse::Uint32Pair(x, y) => b.len() == 8 && le32(b, 0) == x && le32(b, 4) == y,
                BatchResponse::AudioInfo(d, sr, ch) => b.len() == 16 && le64(b, 0) == d && le32(b, 8)
                    == sr && le32(b, 12) == ch,
                BatchResponse::VideoInfo(w, h, d) => b.len() == 16 && le32(b, 0) == w && le32(b, 4)
                    == h && le64(b, 8) == d,
            }
        }),
{
    let e = Seq::<u8>::empty();
    match r {
        BatchResponse::Float32(v) => {
            lemma_le32_of_written(e, v, e);
            assert(u32_bytes(v) =~= e + u32_bytes(v) + e);
        },
        BatchResponse::Int32(v) => {
            lemma_le32_of_written(e, v as u32, e);
            assert(u32_bytes(v as u32) =~= e + u32_bytes(v as u32) + e);
        },
        BatchResponse::Uint32(v) => {
            lemma_le32_of_written(e, v, e);
            assert(u32_bytes(v) =~= e + u32_bytes(v) + e);
        },
        BatchResponse::Uint64(v) => {
            lemma_le64_of_written(e, v, e);
            assert(u64_bytes(v) =~= e + u64_bytes(v) + e);
        },
        BatchResponse::Text(t) => {
            let b = u32_bytes(t@.len() as u32) + t@;
            lemma_le32_of_written(e, t@.len() as u32, t@);
            assert(b =~= e + u32_bytes(t@.len() as u32) + t@);
            assert(b.subrange(4, b.len() as int) =~= t@);
        },
        BatchResponse::Float32Array(ws) => {
            let b = u32_bytes(ws@.len() as u32) + u32s_bytes(ws@);
            lemma_u32s_bytes_len(ws@);
            lemma_le32_of_written(e, ws@.len() as u32, u32s_bytes(ws@));
            assert(b =~= e + u32_bytes(ws@.len() as u32) + u32s_bytes(ws@));
            assert forall|k: int| 0 <= k < ws@.len() implies le32(b, 4 + 4 * k) == #[trigger] ws@[k] by {
                lemma_le32_of_written_run(u32_bytes(ws@.len() as u32), ws@, e, k);
                assert(b =~= u32_bytes(ws@.len() as u32) + u32s_bytes(ws@) + e);
            }
        },
        BatchResponse::Uint32Pair(x, y) => {
            let b = u32_bytes(x) + u32_bytes(y);
            lemma_le32_of_written(e, x, u32_bytes(y));
            assert(b =~= e + u32_bytes(x) + u32_bytes(y));
            lemma_le32_of_written(u32_bytes(x), y, e);
            assert(b =~= u32_bytes(x) + u32_bytes(y) + e);
        },
        BatchResponse::AudioInfo(d, sr, ch) => {
            let b = u64_bytes(d) + u32_bytes(sr) + u32_bytes(ch);
            lemma_le64_of_written(e, d, u32_bytes(sr) + u32_bytes(ch));
            assert(b =~= e + u64_bytes(d) + (u32_bytes(sr) + u32_bytes(ch)));
            lemma_le32_of_written(u64_bytes(d), sr, u32_bytes(ch));
            lemma_le32_of_written(u64_bytes(d) + u32_bytes(sr), ch, e);
            assert(b =~= u64_bytes(d) + u32_bytes(sr) + u32_bytes(ch) + e);
        },
        BatchResponse::VideoInfo(w, h, d) => {
            let b = u32_bytes(w) + u32_bytes(h) + u64_bytes(d);
            lemma_le32_of_written(e, w, u32_bytes(h) + u64_bytes(d));
            assert(b =~= e + u32_bytes(w) + (u32_bytes(h) + u64_bytes(d)));
            lemma_le32_of_written(u32_bytes(w), h, u64_bytes(d));
            lemma_le64_of_written(u32_bytes(w) + u32_bytes(h), d, e);
            assert(b =~= u32_bytes(w) + u32_bytes(h) + u64_bytes(d) + e);
        },
        _ => {},
    }
}

/// A response frame written anywhere in the response reads back as its
/// type byte, then its payload's length as a 32-bit field, then the
/// payload; the frames of a response follow one another in the order they
/// were written.
pub proof fn lemma_record_read_back(pre: Seq<u8>, r: (u8, Seq<u8>), post: Seq<u8>, rs: Seq<(u8, Seq<u8>)>)
    requires
        r.1.len() <= u32::MAX,
    ensures
        ({
            let p = pre + encode_record(r) + post;
            let o = pre.len() as int;
            &&& p[o] == r.0
            &&& le32(p, o + 1) == r.1.len()
            &&& p.subrange(o + 5, o + 5 + r.1.len()) == r.1
        }),
        encode_records(rs.push(r)) == encode_records(rs) + encode_record(r),
{
    let p = pre + encode_record(r) + post;
    let o = pre.len() as int;
    lemma_le32_of_written(pre + seq![r.0], r.1.len() as u32, r.1 + post);
    assert(p =~= (pre + seq![r.0]) + u32_bytes(r.1.len() as u32) + (r.1 + post));
    assert(p.subrange(o + 5, o + 5 + r.1.len()) =~= r.1);
    assert(rs.push(r).drop_last() =~= rs);
}

} // verus!
