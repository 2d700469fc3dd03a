//! ESP3 synchronization, framing, and error detection.
//!
//! A frame on the wire is `0x55, len_hi, len_lo, opt_len, packet_type,
//! crc8_header, data.., optional_data.., crc8_data`: the header CRC covers
//! the four bytes after the sync byte, the data CRC covers the two data
//! sections.  [`ESP3Frame::read_from`] synchronizes on a byte buffer,
//! discarding noise one byte at a time, and only ever hands out frames
//! whose both CRCs validated.  [`ESP3FrameRef::write_to`] is the exact
//! inverse: it serializes packet type, data and optional data back to
//! frame bytes.

use vstd::prelude::*;

use crate::crc8::{compute_crc8, crc8_of, lemma_crc8_seq_concat, CRC8};
use crate::FrameReadError;

verus! {

/// The data length announced by a frame header starting at `i`.
pub open spec fn data_len_at(s: Seq<u8>, i: int) -> int
    recommends
        0 <= i,
        i + 6 <= s.len(),
{
    s[i + 1] * 256 + s[i + 2]
}

/// The optional-data length announced by a frame header starting at `i`.
pub open spec fn opt_len_at(s: Seq<u8>, i: int) -> int
    recommends
        0 <= i,
        i + 6 <= s.len(),
{
    s[i + 3] as int
}

/// The total length of the frame announced by a header starting at `i`:
/// six header bytes, the two data sections, and the trailing CRC byte.
pub open spec fn frame_len_at(s: Seq<u8>, i: int) -> int
    recommends
        0 <= i,
        i + 6 <= s.len(),
{
    7 + data_len_at(s, i) + opt_len_at(s, i)
}

/// The header CRC stored at `i + 5` matches the CRC8 of the four header
/// bytes after the sync byte.
pub open spec fn header_crc_ok(s: Seq<u8>, i: int) -> bool
    recommends
        0 <= i,
        i + 6 <= s.len(),
{
    crc8_of(s.subrange(i + 1, i + 5)) == s[i + 5]
}

/// Synchronization stops at `i`: a sync byte whose header either cannot be
/// checked yet (fewer than six bytes available) or has a valid header CRC.
/// Everything before such a position is noise, skipped one byte at a time.
pub open spec fn sync_candidate(s: Seq<u8>, i: int) -> bool
    recommends
        0 <= i < s.len(),
{
    s[i] == 0x55 && (i + 6 > s.len() || header_crc_ok(s, i))
}

/// The position where synchronization starting at `i` stops: the first
/// candidate position at or after `i`, or the end of the buffer.
pub open spec fn scan_pos(s: Seq<u8>, i: int) -> int
    recommends
        0 <= i <= s.len(),
    decreases s.len() - i,
{
    if i >= s.len() {
        i
    } else if sync_candidate(s, i) {
        i
    } else {
        scan_pos(s, i + 1)
    }
}

/// The data CRC stored in the last byte of the frame at `i` matches the
/// CRC8 of its data and optional-data sections.
pub open spec fn data_crc_ok(s: Seq<u8>, i: int) -> bool
    recommends
        0 <= i,
        i + frame_len_at(s, i) <= s.len(),
        i + 6 <= s.len(),
{
    crc8_of(s.subrange(i + 6, i + frame_len_at(s, i) - 1)) == s[i + frame_len_at(s, i) - 1]
}

/// A complete, CRC-valid frame starts at `i`.
pub open spec fn valid_frame_at(s: Seq<u8>, i: int) -> bool {
    &&& 0 <= i
    &&& i + 6 <= s.len()
    &&& sync_candidate(s, i)
    &&& i + frame_len_at(s, i) <= s.len()
    &&& data_crc_ok(s, i)
}

/// The serialized bytes of a frame with the given packet type and data
/// sections: the exact inverse of frame decoding.
pub open spec fn frame_bytes(packet_type: u8, data: Seq<u8>, optional_data: Seq<u8>) -> Seq<u8>
    recommends
        data.len() <= 0xffff,
        optional_data.len() <= 0xff,
{
    let header = seq![
        (data.len() / 256) as u8,
        (data.len() % 256) as u8,
        optional_data.len() as u8,
        packet_type,
    ];
    seq![0x55u8] + header + seq![crc8_of(header)] + data + optional_data + seq![
        crc8_of(data + optional_data),
    ]
}

/// The position where synchronization over the buffer stops: noise is
/// skipped one byte at a time until a sync byte is found whose header
/// either validates or cannot be checked yet, or the buffer ends.
pub fn sync_scan(input: &[u8]) -> (j: usize)
    ensures
        0 <= j <= input@.len(),
        j == scan_pos(input@, 0),
{
    let ghost s = input@;
    let n = input.len();
    let mut j: usize = 0;
    let mut found = false;
    while !found && j < n
        invariant
            0 <= j <= n,
            n == s.len(),
            s == input@,
            scan_pos(s, 0) == scan_pos(s, j as int),
            found ==> j < n && sync_candidate(s, j as int),
        decreases 2 * (n - j) + (if found { 0int } else { 1int }),
    {
        if input[j] == 0x55 {
            if n - j < 6 {
                found = true;
            } else {
                let c = compute_crc8(&input[j + 1..j + 5]);
                if c == input[j + 5] {
                    found = true;
                } else {
                    j = j + 1;
                }
            }
        } else {
            j = j + 1;
        }
    }
    proof {
        if found {
            assert(scan_pos(s, j as int) == j);
        } else {
            assert(j == n);
            assert(scan_pos(s, j as int) == j);
        }
    }
    j
}

/// An owned ESP3 frame that has been CRC-checked, backed by a single byte
/// vector that includes the sync byte and both CRCs.  Values of this type
/// only ever exist with both CRCs valid: there is no unchecked frame.
#[derive(Clone, Debug)]
pub struct ESP3Frame {
    packet_type: u8,
    data_length: usize,
    optional_data_length: usize,
    frame: Vec<u8>,
}

/// Borrowed contents of an ESP3 frame; can also be used to assemble a new
/// frame.
pub struct ESP3FrameRef<'a> {
    /// The packet type byte.
    pub packet_type: u8,
    /// Data section; its layout depends on the packet type.
    pub data: &'a [u8],
    /// Optional-data section.
    pub optional_data: &'a [u8],
}

impl ESP3Frame {
    /// The complete frame bytes, sync byte and CRCs included.
    pub closed spec fn spec_bytes(&self) -> Seq<u8> {
        self.frame@
    }

    /// The packet type byte.
    pub closed spec fn spec_packet_type(&self) -> u8 {
        self.packet_type
    }

    /// The data section.
    pub closed spec fn spec_data(&self) -> Seq<u8> {
        self.frame@.subrange(6, 6 + self.data_length as int)
    }

    /// The optional-data section.
    pub closed spec fn spec_optional_data(&self) -> Seq<u8> {
        self.frame@.subrange(
            6 + self.data_length as int,
            6 + self.data_length + self.optional_data_length,
        )
    }

    /// Both CRCs validated, and the stored lengths and packet type agree
    /// with the frame bytes.
    pub closed spec fn wf(&self) -> bool {
        &&& self.frame@.len() == 7 + self.data_length + self.optional_data_length
        &&& self.data_length <= 0xffff
        &&& self.optional_data_length <= 0xff
        &&& self.frame@[0] == 0x55
        &&& self.frame@[1] == self.data_length as int / 256
        &&& self.frame@[2] == self.data_length as int % 256
        &&& self.frame@[3] == self.optional_data_length
        &&& self.frame@[4] == self.packet_type
        &&& header_crc_ok(self.frame@, 0)
        &&& data_crc_ok(self.frame@, 0)
    }

    /// A well-formed frame's bytes are exactly the serialization of its
    /// packet type and data sections.
    pub proof fn lemma_bytes_are_serialization(&self)
        requires
            self.wf(),
        ensures
            self.spec_bytes() == frame_bytes(
                self.spec_packet_type(),
                self.spec_data(),
                self.spec_optional_data(),
            ),
            self.spec_data().len() <= 0xffff,
            self.spec_optional_data().len() <= 0xff,
    {
        let s = self.frame@;
        let d = self.spec_data();
        let o = self.spec_optional_data();
        assert(d.len() == self.data_length);
        assert(o.len() == self.optional_data_length);
        let header = seq![
            (d.len() / 256) as u8,
            (d.len() % 256) as u8,
            o.len() as u8,
            self.packet_type,
        ];
        assert(s[1] == (d.len() / 256) as u8);
        assert(s[2] == (d.len() % 256) as u8);
        assert(s.subrange(1, 5) =~= header);
        assert(s.subrange(6, s.len() as int - 1) =~= d + o);
        assert(frame_len_at(s, 0) == s.len()) by {
            assert(s[1] * 256 + s[2] == self.data_length) by {
                vstd::arithmetic::div_mod::lemma_fundamental_div_mod(
                    self.data_length as int,
                    256,
                );
            }
        }
        assert(s[s.len() - 1] == crc8_of(d + o));
        assert(s[5] == crc8_of(header));
        assert(s =~= seq![0x55u8] + header + seq![crc8_of(header)] + d + o + seq![
            crc8_of(d + o),
        ]);
    }

    /// Build an owned frame from its components; this copies the data.
    pub fn assemble(packet_type: u8, data: &[u8], optional_data: &[u8]) -> (r: Self)
        requires
            data@.len() <= 0xffff,
            optional_data@.len() <= 0xff,
        ensures
            r.wf(),
            r.spec_packet_type() == packet_type,
            r.spec_data() == data@,
            r.spec_optional_data() == optional_data@,
            r.spec_bytes() == frame_bytes(packet_type, data@, optional_data@),
    {
        (ESP3FrameRef { packet_type, data, optional_data }).to_owned()
    }

    /// Read one frame from a byte buffer, synchronizing first: noise
    /// before the frame is discarded one byte at a time.  Returns the
    /// frame together with the number of bytes consumed (noise included),
    /// `EOF` when the buffer holds no complete frame yet, or `DataCRC`
    /// when a frame arrived whose data checksum does not match.
    pub fn read_from(input: &[u8]) -> (r: Result<(ESP3Frame, usize), FrameReadError>)
        ensures
            ({
                let s = input@;
                let j = scan_pos(s, 0);
                if j + 6 > s.len() {
                    r matches Err(FrameReadError::EOF)
                } else if j + frame_len_at(s, j) > s.len() {
                    r matches Err(FrameReadError::EOF)
                } else if data_crc_ok(s, j) {
                    &&& r matches Ok((f, consumed))
                    &&& f.wf()
                    &&& f.spec_bytes() == s.subrange(j, j + frame_len_at(s, j))
                    &&& f.spec_packet_type() == s[j + 4]
                    &&& f.spec_data() == s.subrange(j + 6, j + 6 + data_len_at(s, j))
                    &&& f.spec_optional_data() == s.subrange(
                        j + 6 + data_len_at(s, j),
                        j + 6 + data_len_at(s, j) + opt_len_at(s, j),
                    )
                    &&& consumed == j + frame_len_at(s, j)
                } else {
                    &&& r matches Err(FrameReadError::DataCRC { frame, data_crc })
                    &&& frame@ == s.subrange(j, j + frame_len_at(s, j))
                    &&& data_crc == crc8_of(
                        s.subrange(j + 6, j + frame_len_at(s, j) - 1),
                    )
                }
            }),
    {
        let ghost s = input@;
        let n = input.len();
        let j = sync_scan(input);
        proof {
            lemma_scan_pos_candidate(s, 0);
        }
        if n - j < 6 {
            return Err(FrameReadError::EOF);
        }
        let data_length: usize = (input[j + 1] as usize) * 256 + (input[j + 2] as usize);
        let optional_data_length: usize = input[j + 3] as usize;
        let body_len: usize = data_length + optional_data_length;
        if body_len + 7 > n - j {
            return Err(FrameReadError::EOF);
        }
        let frame = vstd::slice::slice_to_vec(&input[j..j + body_len + 7]);
        let computed = compute_crc8(&input[j + 6..j + 6 + body_len]);
        proof {
            assert(frame_len_at(s, j as int) == 7 + body_len);
            assert(s.subrange(j + 6, j + frame_len_at(s, j as int) - 1) =~= input@.subrange(
                j + 6,
                j + 6 + body_len,
            ));
        }
        if computed != input[j + 6 + body_len] {
            return Err(FrameReadError::DataCRC { frame, data_crc: computed });
        }
        let packet_type = input[j + 4];
        let r = ESP3Frame { packet_type, data_length, optional_data_length, frame };
        proof {
            let f = r.frame@;
            let jj = j as int;
            assert(f =~= s.subrange(jj, jj + frame_len_at(s, jj)));
            assert(f.len() == 7 + data_length + optional_data_length);
            assert(f[0] == s[jj] && f[1] == s[jj + 1] && f[2] == s[jj + 2] && f[3] == s[jj + 3]
                && f[4] == s[jj + 4] && f[5] == s[jj + 5]);
            assert(f[1] == data_length as int / 256 && f[2] == data_length as int % 256) by {
                vstd::arithmetic::div_mod::lemma_fundamental_div_mod(data_length as int, 256);
            }
            assert(f.subrange(1, 5) =~= s.subrange(jj + 1, jj + 5));
            assert(header_crc_ok(f, 0));
            assert(frame_len_at(f, 0) == f.len());
            assert(f.subrange(6, f.len() - 1) =~= s.subrange(jj + 6, jj + 6 + body_len));
            assert(f[f.len() - 1] == s[jj + 6 + body_len]);
            assert(data_crc_ok(f, 0));
            assert(r.spec_data() =~= s.subrange(jj + 6, jj + 6 + data_len_at(s, jj)));
            assert(r.spec_optional_data() =~= s.subrange(
                jj + 6 + data_len_at(s, jj),
                jj + 6 + data_len_at(s, jj) + opt_len_at(s, jj),
            ));
        }
        Ok((r, j + body_len + 7))
    }

    /// The packet type, as a single byte.
    pub fn packet_type(&self) -> (r: u8)
        ensures
            r == self.spec_packet_type(),
    {
        self.packet_type
    }

    /// The frame's mandatory data section.
    pub fn data(&self) -> (r: &[u8])
        requires
            self.wf(),
        ensures
            r@ == self.spec_data(),
    {
        &self.frame.as_slice()[6..6 + self.data_length]
    }

    /// The frame's optional-data section.
    pub fn optional_data(&self) -> (r: &[u8])
        requires
            self.wf(),
        ensures
            r@ == self.spec_optional_data(),
    {
        &self.frame.as_slice()[6 + self.data_length..6 + self.data_length
            + self.optional_data_length]
    }

    /// Borrow the frame's contents as an [`ESP3FrameRef`].
    pub fn as_ref(&self) -> (r: ESP3FrameRef<'_>)
        requires
            self.wf(),
        ensures
            r.packet_type == self.spec_packet_type(),
            r.data@ == self.spec_data(),
            r.optional_data@ == self.spec_optional_data(),
    {
        ESP3FrameRef {
            packet_type: self.packet_type,
            data: self.data(),
            optional_data: self.optional_data(),
        }
    }

    /// Append the complete frame bytes to an output buffer.
    pub fn write_to(&self, out: &mut Vec<u8>)
        ensures
            final(out)@ == old(out)@ + self.spec_bytes(),
    {
        out.extend_from_slice(self.frame.as_slice());
    }
}

impl<'a> ESP3FrameRef<'a> {
    /// Serialize the frame and append its bytes to an output buffer:
    /// header with both lengths, header CRC, the two data sections, and
    /// the data CRC.
    pub fn write_to(&self, out: &mut Vec<u8>)
        requires
            self.data@.len() <= 0xffff,
            self.optional_data@.len() <= 0xff,
        ensures
            final(out)@ == old(out)@ + frame_bytes(
                self.packet_type,
                self.data@,
                self.optional_data@,
            ),
    {
        let data_len = self.data.len();
        let opt_len = self.optional_data.len();
        let data_high: u8 = (data_len / 256) as u8;
        let data_low: u8 = (data_len % 256) as u8;
        let header: [u8; 4] = [data_high, data_low, opt_len as u8, self.packet_type];
        let header_crc = compute_crc8(header.as_slice());
        let mut data_acc = CRC8::start();
        data_acc.feed_slice(self.data);
        data_acc.feed_slice(self.optional_data);
        let data_crc = data_acc.finish();
        proof {
            lemma_crc8_seq_concat(0, self.data@, self.optional_data@);
        }
        out.push(0x55);
        out.push(data_high);
        out.push(data_low);
        out.push(opt_len as u8);
        out.push(self.packet_type);
        out.push(header_crc);
        out.extend_from_slice(self.data);
        out.extend_from_slice(self.optional_data);
        out.push(data_crc);
        proof {
            assert(header@ =~= seq![
                (self.data@.len() / 256) as u8,
                (self.data@.len() % 256) as u8,
                self.optional_data@.len() as u8,
                self.packet_type,
            ]);
            assert(final(out)@ =~= old(out)@ + frame_bytes(
                self.packet_type,
                self.data@,
                self.optional_data@,
            ));
        }
    }

    /// Copy the borrowed pieces into a single-buffer owned [`ESP3Frame`].
    pub fn to_owned(&self) -> (r: ESP3Frame)
        requires
            self.data@.len() <= 0xffff,
            self.optional_data@.len() <= 0xff,
        ensures
            r.wf(),
            r.spec_packet_type() == self.packet_type,
            r.spec_data() == self.data@,
            r.spec_optional_data() == self.optional_data@,
            r.spec_bytes() == frame_bytes(self.packet_type, self.data@, self.optional_data@),
    {
        let mut frame: Vec<u8> = Vec::new();
        self.write_to(&mut frame);
        let r = ESP3Frame {
            packet_type: self.packet_type,
            data_length: self.data.len(),
            optional_data_length: self.optional_data.len(),
            frame,
        };
        proof {
            let s = r.frame@;
            let d = self.data@;
            let o = self.optional_data@;
            assert(s =~= frame_bytes(self.packet_type, d, o));
            let header = seq![
                (d.len() / 256) as u8,
                (d.len() % 256) as u8,
                o.len() as u8,
                self.packet_type,
            ];
            assert(s.len() == 7 + d.len() + o.len());
            assert(s.subrange(1, 5) =~= header);
            assert(header_crc_ok(s, 0));
            assert(s[1] == d.len() as int / 256 && s[2] == d.len() as int % 256);
            assert(frame_len_at(s, 0) == s.len()) by {
                vstd::arithmetic::div_mod::lemma_fundamental_div_mod(d.len() as int, 256);
            }
            assert(s.subrange(6, s.len() - 1) =~= d + o);
            assert(data_crc_ok(s, 0));
            assert(r.spec_data() =~= d);
            assert(r.spec_optional_data() =~= o);
        }
        r
    }
}

/// Skipping one byte shifts every header-derived quantity by one: used to
/// relate scanning a buffer to scanning the same buffer with one byte of
/// noise in front.
proof fn lemma_prefix_shift(g: u8, s: Seq<u8>, j: int)
    requires
        0 <= j,
        j + 6 <= s.len(),
    ensures
        data_len_at(seq![g] + s, j + 1) == data_len_at(s, j),
        opt_len_at(seq![g] + s, j + 1) == opt_len_at(s, j),
        frame_len_at(seq![g] + s, j + 1) == frame_len_at(s, j),
        header_crc_ok(seq![g] + s, j + 1) == header_crc_ok(s, j),
        sync_candidate(seq![g] + s, j + 1) == sync_candidate(s, j),
{
    let t = seq![g] + s;
    assert(t.subrange(j + 2, j + 6) =~= s.subrange(j + 1, j + 5));
}

/// Scanning past one leading byte that is not a candidate lands exactly
/// one position later than scanning the unprefixed buffer.
proof fn lemma_scan_shift(g: u8, s: Seq<u8>, j: int)
    requires
        0 <= j <= s.len(),
        !sync_candidate(seq![g] + s, 0),
    ensures
        scan_pos(seq![g] + s, j + 1) == 1 + scan_pos(s, j),
    decreases s.len() - j,
{
    let t = seq![g] + s;
    if j >= s.len() {
        assert(scan_pos(t, j + 1) == j + 1);
    } else {
        if j + 6 <= s.len() {
            lemma_prefix_shift(g, s, j);
        } else {
            assert(t[j + 1] == s[j]);
            assert(sync_candidate(t, j + 1) == sync_candidate(s, j));
        }
        if sync_candidate(s, j) {
        } else {
            lemma_scan_shift(g, s, j + 1);
        }
    }
}

/// Resynchronization law: one byte of garbage in front of a valid frame
/// does not change the frame that is read, only the skip cost.  The one
/// family of inputs left out: a garbage `0x55` that together with the
/// next five bytes happens to look like a valid header, which captures
/// the scanner at position zero instead.
pub proof fn lemma_resync_one_garbage_byte(g: u8, s: Seq<u8>)
    requires
        valid_frame_at(s, 0),
        !sync_candidate(seq![g] + s, 0),
    ensures
        scan_pos(seq![g] + s, 0) == 1,
        scan_pos(s, 0) == 0,
        valid_frame_at(seq![g] + s, 1),
        frame_len_at(seq![g] + s, 1) == frame_len_at(s, 0),
        (seq![g] + s).subrange(1, 1 + frame_len_at(s, 0)) == s.subrange(0, frame_len_at(s, 0)),
{
    let t = seq![g] + s;
    lemma_scan_shift(g, s, 0);
    lemma_prefix_shift(g, s, 0);
    assert(scan_pos(s, 0) == 0);
    assert(t.subrange(7, 1 + frame_len_at(s, 0) - 1) =~= s.subrange(6, frame_len_at(s, 0) - 1));
    assert(data_crc_ok(t, 1));
    assert(t.subrange(1, 1 + frame_len_at(s, 0)) =~= s.subrange(0, frame_len_at(s, 0)));
}

/// Corruption law: flipping the last byte of a complete, valid frame
/// makes reading it report the data-CRC error, carrying exactly the
/// corrupted bytes and the checksum computed over its data sections.
pub proof fn lemma_corrupted_data_crc(s: Seq<u8>, b: u8)
    requires
        valid_frame_at(s, 0),
        s.len() == frame_len_at(s, 0),
        b != s[s.len() - 1],
    ensures
        ({
            let t = s.update(s.len() - 1, b);
            &&& scan_pos(t, 0) == 0
            &&& frame_len_at(t, 0) == t.len()
            &&& !data_crc_ok(t, 0)
            &&& t.subrange(0, frame_len_at(t, 0)) == t
            &&& crc8_of(t.subrange(6, frame_len_at(t, 0) - 1)) == crc8_of(
                s.subrange(6, frame_len_at(s, 0) - 1),
            )
        }),
{
    let t = s.update(s.len() - 1, b);
    assert(t.subrange(1, 5) =~= s.subrange(1, 5));
    assert(sync_candidate(t, 0));
    assert(scan_pos(t, 0) == 0);
    assert(t.subrange(6, frame_len_at(t, 0) - 1) =~= s.subrange(6, frame_len_at(s, 0) - 1));
    assert(t.subrange(0, frame_len_at(t, 0)) =~= t);
}

/// Serialized frame bytes scan from their very start, pass both CRC
/// checks, and give every section back: together with
/// [`ESP3Frame::lemma_bytes_are_serialization`] this is the frame-level
/// round trip.
pub proof fn lemma_frame_bytes_read_back(packet_type: u8, d: Seq<u8>, o: Seq<u8>)
    requires
        d.len() <= 0xffff,
        o.len() <= 0xff,
    ensures
        ({
            let s = frame_bytes(packet_type, d, o);
            &&& s.len() == 7 + d.len() + o.len()
            &&& scan_pos(s, 0) == 0
            &&& valid_frame_at(s, 0)
            &&& frame_len_at(s, 0) == s.len()
            &&& data_len_at(s, 0) == d.len()
            &&& opt_len_at(s, 0) == o.len()
            &&& s[4] == packet_type
            &&& s.subrange(6, 6 + d.len() as int) == d
            &&& s.subrange(6 + d.len() as int, 6 + d.len() as int + o.len() as int) == o
        }),
{
    let s = frame_bytes(packet_type, d, o);
    let header = seq![(d.len() / 256) as u8, (d.len() % 256) as u8, o.len() as u8, packet_type];
    assert(s.len() == 7 + d.len() + o.len());
    assert(s[1] == (d.len() / 256) as u8 && s[2] == (d.len() % 256) as u8);
    assert(s[1] * 256 + s[2] == d.len()) by {
        vstd::arithmetic::div_mod::lemma_fundamental_div_mod(d.len() as int, 256);
    }
    assert(s.subrange(1, 5) =~= header);
    assert(s[5] == crc8_of(header));
    assert(sync_candidate(s, 0));
    assert(scan_pos(s, 0) == 0);
    assert(s.subrange(6, 6 + d.len() as int + o.len() as int) =~= d + o);
    assert(s[6 + d.len() as int + o.len() as int] == crc8_of(d + o));
    assert(data_crc_ok(s, 0));
    assert(s.subrange(6, 6 + d.len() as int) =~= d);
    assert(s.subrange(6 + d.len() as int, 6 + d.len() as int + o.len() as int) =~= o);
}

/// The scan position is either the buffer's end or a candidate.
proof fn lemma_scan_pos_candidate(s: Seq<u8>, i: int)
    requires
        0 <= i <= s.len(),
    ensures
        i <= scan_pos(s, i) <= s.len(),
        scan_pos(s, i) < s.len() ==> sync_candidate(s, scan_pos(s, i)),
    decreases s.len() - i,
{
    if i < s.len() && !sync_candidate(s, i) {
        lemma_scan_pos_candidate(s, i + 1);
    }
}

/// Dropping the noise before the scan position leaves a buffer that
/// scans from its very start, with every header-derived quantity
/// carried over: the streaming framer may trim its buffer safely.
pub proof fn lemma_scan_skip(s: Seq<u8>, j: int)
    requires
        0 <= j <= s.len(),
        j == scan_pos(s, 0),
    ensures
        scan_pos(s.skip(j), 0) == 0,
        j + 6 <= s.len() ==> {
            let t = s.skip(j);
            &&& data_len_at(t, 0) == data_len_at(s, j)
            &&& opt_len_at(t, 0) == opt_len_at(s, j)
            &&& frame_len_at(t, 0) == frame_len_at(s, j)
            &&& (j + frame_len_at(s, j) <= s.len() ==> (data_crc_ok(t, 0) == data_crc_ok(s, j)
                && t.subrange(0, frame_len_at(s, j)) == s.subrange(j, j + frame_len_at(s, j))))
        },
{
    let t = s.skip(j);
    lemma_scan_pos_candidate(s, 0);
    if j < s.len() {
        assert(sync_candidate(s, j));
        if j + 6 <= s.len() {
            assert(t.subrange(1, 5) =~= s.subrange(j + 1, j + 5));
            assert(sync_candidate(t, 0));
            if j + frame_len_at(s, j) <= s.len() {
                assert(t.subrange(6, frame_len_at(s, j) - 1) =~= s.subrange(
                    j + 6,
                    j + frame_len_at(s, j) - 1,
                ));
                assert(t.subrange(0, frame_len_at(s, j)) =~= s.subrange(
                    j,
                    j + frame_len_at(s, j),
                ));
            }
        } else {
            assert(sync_candidate(t, 0));
        }
        assert(scan_pos(t, 0) == 0);
    } else {
        assert(t.len() == 0);
    }
}

} // verus!
