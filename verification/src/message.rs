//! Framing and integrity checking of protocol messages.
//!
//! A frame on the wire is `[0xAA, 0xAA][len][command][control][params..][checksum]`
//! where `len` counts the command byte, the control byte and the parameter
//! bytes, `control = (queued << 1) | read_write`, and the checksum is the
//! two's-complement negation of the 8-bit wraparound sum of the command byte,
//! the control byte and every parameter byte. Encoding is pure and total for
//! any parameter list of at most 253 bytes; decoding never panics and reports
//! every malformed input as a typed error.

use vstd::prelude::*;
use vstd::wrapping::u8_specs;

use crate::command::{command_id_byte, spec_command_id_from_byte, CommandID};
use crate::error::Error;

verus! {

/// The control byte packs the queued flag (bit 1) and the read/write flag
/// (bit 0).
pub open spec fn ctrl_byte(rw: bool, is_queued: bool) -> u8 {
    match (is_queued, rw) {
        (false, false) => 0,
        (false, true) => 1,
        (true, false) => 2,
        (true, true) => 3,
    }
}

/// The read/write flag carried by a control byte (bit 0).
pub open spec fn ctrl_rw(ctrl: u8) -> bool {
    ctrl % 2 == 1
}

/// The queued flag carried by a control byte (bit 1).
pub open spec fn ctrl_queued(ctrl: u8) -> bool {
    (ctrl / 2) % 2 == 1
}

/// 8-bit wraparound sum of a byte sequence.
pub open spec fn byte_sum(s: Seq<u8>) -> u8
    decreases s.len(),
{
    if s.len() == 0 {
        0
    } else {
        u8_specs::wrapping_add(byte_sum(s.drop_last()), s.last())
    }
}

/// The frame checksum: two's-complement negation of the wraparound sum of the
/// command byte, the control byte and the parameter bytes.
pub open spec fn spec_checksum(id: CommandID, rw: bool, is_queued: bool, params: Seq<u8>) -> u8 {
    u8_specs::wrapping_sub(
        0,
        u8_specs::wrapping_add(
            byte_sum(params),
            u8_specs::wrapping_add(command_id_byte(id), ctrl_byte(rw, is_queued)),
        ),
    )
}

/// Mathematical model of one frame: what a `DobotMessage` says, with the
/// parameter bytes as a sequence.
#[verifier::ext_equal]
pub struct MessageModel {
    pub header: Seq<u8>,
    pub len: u8,
    pub id: CommandID,
    pub rw: bool,
    pub is_queued: bool,
    pub params: Seq<u8>,
    pub checksum: u8,
}

impl MessageModel {
    /// The declared length and the checksum agree with the contents: what
    /// holds of every frame that decoding accepts, whatever its header bytes.
    pub open spec fn frame_consistent(self) -> bool {
        &&& self.params.len() <= 253
        &&& self.len == self.params.len() + 2
        &&& self.checksum == spec_checksum(self.id, self.rw, self.is_queued, self.params)
    }

    /// A model is well formed when its header, declared length and checksum
    /// all agree with its contents.
    pub open spec fn wf(self) -> bool {
        &&& self.header == seq![0xaau8, 0xaau8]
        &&& self.frame_consistent()
    }

    /// The exact byte sequence this frame occupies on the wire.
    pub open spec fn wire(self) -> Seq<u8> {
        self.header + seq![
            self.len,
            command_id_byte(self.id),
            ctrl_byte(self.rw, self.is_queued),
        ] + self.params + seq![self.checksum]
    }
}

/// The frame a valid encode call produces.
pub open spec fn spec_encode(id: CommandID, rw: bool, is_queued: bool, params: Seq<u8>) -> MessageModel {
    MessageModel {
        header: seq![0xaau8, 0xaau8],
        len: (params.len() + 2) as u8,
        id,
        rw,
        is_queued,
        params,
        checksum: spec_checksum(id, rw, is_queued, params),
    }
}

/// What decoding a byte sequence yields: the frame, or the first typed error
/// in checking order (size, declared length, command byte, checksum).
pub open spec fn spec_decode(s: Seq<u8>) -> Result<MessageModel, Error> {
    if s.len() < 6 {
        Err(Error::Truncated)
    } else if s.len() != s[2] + 4 {
        Err(Error::Truncated)
    } else if spec_command_id_from_byte(s[3]) is None {
        Err(Error::UnknownCommand)
    } else {
        let id = spec_command_id_from_byte(s[3])->Some_0;
        let rw = ctrl_rw(s[4]);
        let is_queued = ctrl_queued(s[4]);
        let params = s.subrange(5, s.len() - 1);
        let expected = spec_checksum(id, rw, is_queued, params);
        let received = s.last();
        if expected != received {
            Err(Error::Integrity { expected, received })
        } else {
            Ok(MessageModel {
                header: seq![s[0], s[1]],
                len: s[2],
                id,
                rw,
                is_queued,
                params,
                checksum: received,
            })
        }
    }
}

/// One protocol frame, as held in memory.
#[derive(Clone, Debug)]
pub struct DobotMessage {
    pub header: [u8; 2],
    pub len: u8,
    pub id: CommandID,
    pub rw: bool,
    pub is_queued: bool,
    pub params: Vec<u8>,
    pub checksum: u8,
}

impl View for DobotMessage {
    type V = MessageModel;

    open spec fn view(&self) -> MessageModel {
        MessageModel {
            header: self.header@,
            len: self.len,
            id: self.id,
            rw: self.rw,
            is_queued: self.is_queued,
            params: self.params@,
            checksum: self.checksum,
        }
    }
}

impl PartialEq for DobotMessage {
    fn eq(&self, other: &DobotMessage) -> (r: bool) {
        let r = self.header[0] == other.header[0] && self.header[1] == other.header[1]
            && self.len == other.len && self.id == other.id && self.rw == other.rw
            && self.is_queued == other.is_queued && vec_u8_eq(&self.params, &other.params)
            && self.checksum == other.checksum;
        proof {
            if r {
                assert(self.header@ =~= other.header@);
                assert(self@ =~= other@);
            }
        }
        r
    }
}

impl vstd::std_specs::cmp::PartialEqSpecImpl for DobotMessage {
    open spec fn obeys_eq_spec() -> bool {
        true
    }

    open spec fn eq_spec(&self, other: &DobotMessage) -> bool {
        self@ == other@
    }
}

/// Byte-for-byte equality of two parameter vectors.
fn vec_u8_eq(a: &Vec<u8>, b: &Vec<u8>) -> (r: bool)
    ensures
        r == (a@ == b@),
{
    if a.len() != b.len() {
        assert(a@ != b@);
        return false;
    }
    let mut i: usize = 0;
    while i < a.len()
        invariant
            i <= a.len(),
            a@.len() == b@.len(),
            forall|j: int| 0 <= j < i ==> a@[j] == b@[j],
        decreases a.len() - i,
    {
        if a[i] != b[i] {
            return false;
        }
        i += 1;
    }
    proof {
        assert(a@ =~= b@);
    }
    true
}

/// The view of a frame result, for stating codec contracts.
pub open spec fn result_view(r: Result<DobotMessage, Error>) -> Result<MessageModel, Error> {
    match r {
        Ok(m) => Ok(m@),
        Err(e) => Err(e),
    }
}

impl DobotMessage {
    /// Build a frame for the given command. Fails with `ParamsTooLong`, and
    /// does nothing else, when more than 253 parameter bytes are given.
    pub fn new(id: CommandID, rw: bool, is_queued: bool, params: Vec<u8>) -> (r: Result<
        DobotMessage,
        Error,
    >)
        ensures
            params@.len() <= 253 ==> (r matches Ok(m) && m@ == spec_encode(
                id,
                rw,
                is_queued,
                params@,
            )),
            params@.len() > 253 ==> r == Err::<DobotMessage, Error>(Error::ParamsTooLong),
    {
        if params.len() > 253 {
            return Err(Error::ParamsTooLong);
        }
        let len = (params.len() + 2) as u8;
        let checksum = Self::compute_checksum(id, rw, is_queued, params.as_slice());
        Ok(DobotMessage { header: [0xaa, 0xaa], len, id, rw, is_queued, params, checksum })
    }

    /// Serialize this frame to its wire bytes.
    pub fn to_bytes(&self) -> (r: Vec<u8>)
        ensures
            r@ == self@.wire(),
    {
        let ctrl: u8 = if self.is_queued {
            if self.rw {
                3
            } else {
                2
            }
        } else {
            if self.rw {
                1
            } else {
                0
            }
        };
        let mut out: Vec<u8> = Vec::new();
        out.push(self.header[0]);
        out.push(self.header[1]);
        out.push(self.len);
        out.push(self.id.to_byte());
        out.push(ctrl);
        let mut i: usize = 0;
        while i < self.params.len()
            invariant
                i <= self.params@.len(),
                out@ == seq![
                    self.header@[0],
                    self.header@[1],
                    self.len,
                    command_id_byte(self.id),
                    ctrl_byte(self.rw, self.is_queued),
                ] + self.params@.take(i as int),
            decreases self.params@.len() - i,
        {
            out.push(self.params[i]);
            proof {
                assert(self.params@.take(i + 1) =~= self.params@.take(i as int).push(
                    self.params@[i as int],
                ));
            }
            i += 1;
        }
        out.push(self.checksum);
        proof {
            assert(self.params@.take(self.params@.len() as int) =~= self.params@);
            assert(out@ =~= self@.wire());
        }
        out
    }

    /// Parse a frame from wire bytes. Reports `Truncated` when fewer than six
    /// bytes are present or the declared length does not match the buffer,
    /// `UnknownCommand` for an unmapped command byte, and `Integrity` when the
    /// recomputed checksum disagrees with the transmitted one.
    pub fn from_bytes(bytes: &[u8]) -> (r: Result<DobotMessage, Error>)
        ensures
            result_view(r) == spec_decode(bytes@),
    {
        if bytes.len() < 6 {
            return Err(Error::Truncated);
        }
        let declared = bytes[2];
        if bytes.len() != declared as usize + 4 {
            return Err(Error::Truncated);
        }
        let id = match CommandID::from_byte(bytes[3]) {
            Some(id) => id,
            None => {
                return Err(Error::UnknownCommand);
            },
        };
        let ctrl = bytes[4];
        let rw = ctrl % 2 == 1;
        let is_queued = (ctrl / 2) % 2 == 1;
        let params = vstd::slice::slice_to_vec(
            vstd::slice::slice_subrange(bytes, 5, bytes.len() - 1),
        );
        let received = bytes[bytes.len() - 1];
        let expected = Self::compute_checksum(id, rw, is_queued, params.as_slice());
        if expected != received {
            return Err(Error::Integrity { expected, received });
        }
        Ok(
            DobotMessage {
                header: [bytes[0], bytes[1]],
                len: declared,
                id,
                rw,
                is_queued,
                params,
                checksum: received,
            },
        )
    }

    /// The frame checksum over the command byte, the control byte and the
    /// parameter bytes, in 8-bit wraparound arithmetic.
    pub fn compute_checksum(id: CommandID, rw: bool, is_queued: bool, params: &[u8]) -> (r: u8)
        ensures
            r == spec_checksum(id, rw, is_queued, params@),
    {
        let ctrl: u8 = if is_queued {
            if rw {
                3
            } else {
                2
            }
        } else {
            if rw {
                1
            } else {
                0
            }
        };
        let mut acc: u8 = 0;
        let mut i: usize = 0;
        while i < params.len()
            invariant
                i <= params@.len(),
                acc == byte_sum(params@.take(i as int)),
            decreases params@.len() - i,
        {
            acc = acc.wrapping_add(*vstd::slice::slice_index_get(params, i));
            proof {
                assert(params@.take(i + 1).drop_last() =~= params@.take(i as int));
                assert(params@.take(i + 1).last() == params@[i as int]);
            }
            i += 1;
        }
        proof {
            assert(params@.take(params@.len() as int) =~= params@);
        }
        let total = acc.wrapping_add(id.to_byte().wrapping_add(ctrl));
        0u8.wrapping_sub(total)
    }

    /// The parameter bytes of this frame.
    pub fn params(&self) -> (r: &[u8])
        ensures
            r@ == self.params@,
    {
        self.params.as_slice()
    }

    /// Read one frame from the serial link with a two-phase read: first a
    /// fixed five-byte prefix (two header bytes, the declared length, the
    /// command byte and the control byte), then exactly the remainder the
    /// declared length calls for. The two phases avoid over- or under-reading
    /// a stream that has no message boundaries of its own; whatever arrives
    /// is then checked by the full decoder.
    pub fn from_async_reader(port: &serial2::SerialPort) -> (r: Result<DobotMessage, Error>)
        ensures
            r matches Ok(m) ==> m@.frame_consistent(),
    {
        let prefix = match crate::serial::serial_read_exact(port, 5) {
            Ok(v) => v,
            Err(e) => {
                return Err(e);
            },
        };
        let declared = prefix[2];
        if declared < 1 {
            return Err(Error::Truncated);
        }
        let mut suffix = match crate::serial::serial_read_exact(port, declared as usize - 1) {
            Ok(v) => v,
            Err(e) => {
                return Err(e);
            },
        };
        let mut bytes = prefix;
        bytes.append(&mut suffix);
        let msg = match Self::from_bytes(bytes.as_slice()) {
            Ok(m) => m,
            Err(e) => {
                return Err(e);
            },
        };
        proof {
            lemma_decode_consistent(bytes@);
        }
        Ok(msg)
    }
}

/// Every frame that decoding accepts is internally consistent: its declared
/// length and checksum agree with its contents.
pub proof fn lemma_decode_consistent(s: Seq<u8>)
    requires
        spec_decode(s) is Ok,
    ensures
        spec_decode(s)->Ok_0.frame_consistent(),
{
}

/// Encoding any valid frame and decoding its wire bytes yields the frame back:
/// the codec round-trips for every command, flag pair and parameter list of at
/// most 253 bytes.
pub proof fn lemma_encode_decode_round_trip(
    id: CommandID,
    rw: bool,
    is_queued: bool,
    params: Seq<u8>,
)
    requires
        params.len() <= 253,
    ensures
        spec_decode(spec_encode(id, rw, is_queued, params).wire()) == Ok::<MessageModel, Error>(
            spec_encode(id, rw, is_queued, params),
        ),
{
    let m = spec_encode(id, rw, is_queued, params);
    let w = m.wire();
    assert(w.len() == params.len() + 6);
    assert(w[2] == m.len);
    assert(w[3] == command_id_byte(id));
    assert(w[4] == ctrl_byte(rw, is_queued));
    crate::command::lemma_command_id_byte_round_trip(id);
    assert(ctrl_rw(ctrl_byte(rw, is_queued)) == rw);
    assert(ctrl_queued(ctrl_byte(rw, is_queued)) == is_queued);
    assert(w.subrange(5, w.len() - 1) =~= params);
    assert(w.last() == m.checksum);
    assert(w[0] == 0xaa && w[1] == 0xaa);
    assert(spec_decode(w)->Ok_0 =~= m);
}

/// Every frame a valid encode call produces is well formed: its header is the
/// frame marker and its declared length and checksum agree with its contents.
pub proof fn lemma_encode_wf(id: CommandID, rw: bool, is_queued: bool, params: Seq<u8>)
    requires
        params.len() <= 253,
    ensures
        spec_encode(id, rw, is_queued, params).wf(),
{
}

/// Corrupting the checksum byte of a valid encoded frame to any other value
/// makes decoding fail with `Integrity`, carrying the expected and the
/// received byte.
pub proof fn lemma_checksum_flip_rejected(
    id: CommandID,
    rw: bool,
    is_queued: bool,
    params: Seq<u8>,
    flipped: u8,
)
    requires
        params.len() <= 253,
        flipped != spec_checksum(id, rw, is_queued, params),
    ensures
        spec_decode(spec_encode(id, rw, is_queued, params).wire().update(
            spec_encode(id, rw, is_queued, params).wire().len() - 1,
            flipped,
        )) == Err::<MessageModel, Error>(
            Error::Integrity {
                expected: spec_checksum(id, rw, is_queued, params),
                received: flipped,
            },
        ),
{
    let m = spec_encode(id, rw, is_queued, params);
    let w = m.wire().update(m.wire().len() - 1, flipped);
    assert(w.len() == params.len() + 6);
    assert(w[2] == m.len);
    assert(w[3] == command_id_byte(id));
    assert(w[4] == ctrl_byte(rw, is_queued));
    crate::command::lemma_command_id_byte_round_trip(id);
    assert(w.subrange(5, w.len() - 1) =~= params);
    assert(w.last() == flipped);
}

/// Dropping the final byte of a valid encoded frame makes decoding fail with
/// `Truncated`: the declared length no longer matches the buffer.
pub proof fn lemma_truncation_rejected(id: CommandID, rw: bool, is_queued: bool, params: Seq<u8>)
    requires
        params.len() <= 253,
    ensures
        spec_decode(spec_encode(id, rw, is_queued, params).wire().drop_last()) == Err::<
            MessageModel,
            Error,
        >(Error::Truncated),
{
    let m = spec_encode(id, rw, is_queued, params);
    let w = m.wire().drop_last();
    assert(w.len() == params.len() + 5);
    if w.len() >= 6 {
        assert(w[2] == m.len);
        assert(w.len() != w[2] + 4);
    }
}

/// The checksum balances the frame: adding it to the wraparound sum of the
/// command byte, the control byte and the parameter bytes yields zero, which
/// is what the receiving device checks.
pub proof fn lemma_checksum_balances(id: CommandID, rw: bool, is_queued: bool, params: Seq<u8>)
    ensures
        u8_specs::wrapping_add(
            u8_specs::wrapping_add(
                byte_sum(params),
                u8_specs::wrapping_add(command_id_byte(id), ctrl_byte(rw, is_queued)),
            ),
            spec_checksum(id, rw, is_queued, params),
        ) == 0,
{
}

} // verus!
