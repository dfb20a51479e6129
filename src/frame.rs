use vstd::prelude::*;

verus! {

/// Length in bytes of one controller input frame.
pub const FRAME_LEN: usize = 13;

/// Number of logical buttons carried by a frame.
pub const NUM_BUTTONS: usize = 17;

/// Big-endian 16-bit value of two bytes.
pub open spec fn be_u16(hi: u8, lo: u8) -> u16 {
    (hi as int * 256 + lo as int) as u16
}

/// State of logical button `i` in the frame bytes `b`: bit `i % 8` of byte `2 + i / 8`.
pub open spec fn button_bit(b: Seq<u8>, i: int) -> bool {
    (b[2 + i / 8] >> ((i % 8) as u8)) & 1u8 == 1u8
}

/// The payload of a frame: everything but the player id and the sequence number.
pub open spec fn payload(b: Seq<u8>) -> Seq<u8> {
    b.subrange(2, 13)
}

proof fn lemma_be_u16(hi: u8, lo: u8)
    ensures
        ((hi as u16) << 8) | (lo as u16) == be_u16(hi, lo),
{
    assert(((hi as u16) << 8) | (lo as u16) == (hi as u16) * 256 + (lo as u16)) by (bit_vector);
}

/// Bytes `2..upto` of two frames agree.
spec fn payload_agrees_upto(a: Seq<u8>, b: Seq<u8>, upto: int) -> bool {
    forall|j: int| 2 <= j < upto ==> a[j] == b[j]
}

/// Errors of the input codec.
#[derive(Debug, Clone, Copy, PartialEq, Eq, Structural)]
pub enum InputError {
    /// The frame is not exactly `FRAME_LEN` bytes long.
    FormatError,
    /// The frame addresses a player slot that does not exist.
    InvalidPlayer,
}

/// One fixed-layout controller input frame.
#[derive(Debug, Clone, Copy)]
pub struct NetworkControllerState(pub [u8; 13]);

impl NetworkControllerState {
    pub open spec fn bytes(&self) -> Seq<u8> {
        self.0@
    }

    /// Decodes a frame; fails unless `bytes` is exactly `FRAME_LEN` long.
    pub fn decode(bytes: &[u8]) -> (r: Result<NetworkControllerState, InputError>)
        ensures
            bytes@.len() == 13 <==> r is Ok,
            r is Ok ==> r->Ok_0.bytes() == bytes@,
            r is Err ==> r->Err_0 == InputError::FormatError,
    {
        if bytes.len() != FRAME_LEN {
            return Err(InputError::FormatError);
        }
        let a: [u8; 13] = [
            bytes[0], bytes[1], bytes[2], bytes[3], bytes[4], bytes[5], bytes[6],
            bytes[7], bytes[8], bytes[9], bytes[10], bytes[11], bytes[12],
        ];
        assert(a@ =~= bytes@);
        Ok(NetworkControllerState(a))
    }

    pub fn get_u16(&self, offset: usize) -> (r: u16)
        requires
            offset < 12,
        ensures
            r == be_u16(self.bytes()[offset as int], self.bytes()[offset as int + 1]),
    {
        let hi = self.0[offset];
        let lo = self.0[offset + 1];
        proof {
            lemma_be_u16(hi, lo);
        }
        ((hi as u16) << 8) | (lo as u16)
    }

    /// Player slot the frame is addressed to.
    pub fn player_id(&self) -> (r: usize)
        ensures
            r == self.bytes()[0],
    {
        self.0[0] as usize
    }

    /// Advisory sequence number; not used for ordering.
    pub fn sequence_no(&self) -> (r: u8)
        ensures
            r == self.bytes()[1],
    {
        self.0[1]
    }

    pub fn num_buttons(&self) -> (r: usize)
        ensures
            r == NUM_BUTTONS,
    {
        NUM_BUTTONS
    }

    /// State of logical button `index`.
    pub fn get_button(&self, index: usize) -> (r: bool)
        requires
            index < NUM_BUTTONS,
        ensures
            r == button_bit(self.bytes(), index as int),
    {
        assert(index >> 3 == index / 8 && index & 7 == index % 8) by (bit_vector);
        let byte = 2 + (index >> 3);
        let byte_ind = (index & 7) as u8;
        ((self.0[byte] >> byte_ind) & 1) == 1
    }

    /// The decoded fields of the frame.
    pub fn fields(&self) -> (r: ControllerFields)
        ensures
            r.decoded_from(self.bytes()),
    {
        let mut buttons: Vec<bool> = Vec::new();
        let mut i: usize = 0;
        while i < NUM_BUTTONS
            invariant
                i <= 17,
                buttons@.len() == i,
                forall|k: int| 0 <= k < i ==> buttons@[k] == button_bit(self.bytes(), k),
            decreases 17 - i,
        {
            buttons.push(self.get_button(i));
            i = i + 1;
        }
        ControllerFields {
            player_id: self.0[0],
            sequence_no: self.0[1],
            buttons,
            lh: self.lh(),
            lv: self.lv(),
            rh: self.rh(),
            rv: self.rv(),
        }
    }

    /// Left stick, horizontal axis.
    pub fn lh(&self) -> (r: u16)
        ensures
            r == be_u16(self.bytes()[5], self.bytes()[6]),
    {
        self.get_u16(5)
    }

    /// Left stick, vertical axis.
    pub fn lv(&self) -> (r: u16)
        ensures
            r == be_u16(self.bytes()[7], self.bytes()[8]),
    {
        self.get_u16(7)
    }

    /// Right stick, horizontal axis.
    pub fn rh(&self) -> (r: u16)
        ensures
            r == be_u16(self.bytes()[9], self.bytes()[10]),
    {
        self.get_u16(9)
    }

    /// Right stick, vertical axis.
    pub fn rv(&self) -> (r: u16)
        ensures
            r == be_u16(self.bytes()[11], self.bytes()[12]),
    {
        self.get_u16(11)
    }

    /// Whether the payloads (buttons and axes) of two frames differ, judged by
    /// the sum of the bytewise XOR of the payload bytes.
    pub fn diff(&self, other: &NetworkControllerState) -> (r: bool)
        ensures
            r == (payload(self.bytes()) != payload(other.bytes())),
    {
        let mut acc: u32 = 0;
        let mut i: usize = 2;
        while i < FRAME_LEN
            invariant
                2 <= i <= 13,
                acc <= 255 * (i - 2),
                acc == 0 <==> payload_agrees_upto(self.bytes(), other.bytes(), i as int),
            decreases 13 - i,
        {
            let x = self.0[i];
            let y = other.0[i];
            assert((x ^ y == 0) == (x == y)) by (bit_vector);
            let d = (x ^ y) as u32;
            assert(d == 0 <==> x == y);
            assert(d <= 255);
            acc = acc + d;
            proof {
                assert(self.bytes()[i as int] == x && other.bytes()[i as int] == y);
                if x == y && payload_agrees_upto(self.bytes(), other.bytes(), i as int) {
                    assert(payload_agrees_upto(self.bytes(), other.bytes(), i + 1));
                }
            }
            i = i + 1;
        }
        proof {
            if acc == 0 {
                assert(payload(self.bytes()) =~= payload(other.bytes()));
            } else {
                let j = choose|j: int| 2 <= j < 13 && self.bytes()[j] != other.bytes()[j];
                assert(payload(self.bytes())[j - 2] != payload(other.bytes())[j - 2]);
            }
        }
        acc != 0
    }
}

/// The value of bit `k` of a byte that holds flag `b` there.
pub open spec fn flag_bit(b: bool, k: u8) -> u8 {
    if b {
        (1u8 << k) as u8
    } else {
        0u8
    }
}

/// Eight flags packed into one byte, flag `k` at bit `k`.
pub open spec fn pack8(f: Seq<bool>) -> u8 {
    flag_bit(f[0], 0) | flag_bit(f[1], 1) | flag_bit(f[2], 2) | flag_bit(f[3], 3) | flag_bit(
        f[4],
        4,
    ) | flag_bit(f[5], 5) | flag_bit(f[6], 6) | flag_bit(f[7], 7)
}

/// The decoded fields of a frame.
#[derive(Debug)]
pub struct ControllerFields {
    pub player_id: u8,
    pub sequence_no: u8,
    pub buttons: Vec<bool>,
    pub lh: u16,
    pub lv: u16,
    pub rh: u16,
    pub rv: u16,
}

impl ControllerFields {
    /// The fields are those that decoding the frame bytes `b` gives.
    pub open spec fn decoded_from(&self, b: Seq<u8>) -> bool {
        &&& b.len() == 13
        &&& self.player_id == b[0]
        &&& self.sequence_no == b[1]
        &&& self.buttons@.len() == 17
        &&& forall|i: int| 0 <= i < 17 ==> self.buttons@[i] == button_bit(b, i)
        &&& self.lh == be_u16(b[5], b[6])
        &&& self.lv == be_u16(b[7], b[8])
        &&& self.rh == be_u16(b[9], b[10])
        &&& self.rv == be_u16(b[11], b[12])
    }

    /// The frame bytes that encode these fields.
    pub open spec fn encoded(&self) -> Seq<u8> {
        let bs = self.buttons@;
        seq![
            self.player_id,
            self.sequence_no,
            pack8(bs.subrange(0, 8)),
            pack8(bs.subrange(8, 16)),
            flag_bit(bs[16], 0),
            (self.lh / 256) as u8,
            (self.lh % 256) as u8,
            (self.lv / 256) as u8,
            (self.lv % 256) as u8,
            (self.rh / 256) as u8,
            (self.rh % 256) as u8,
            (self.rv / 256) as u8,
            (self.rv % 256) as u8,
        ]
    }

    /// Packs the fields into a frame.
    pub fn encode(&self) -> (r: NetworkControllerState)
        requires
            self.buttons@.len() == NUM_BUTTONS,
        ensures
            r.bytes() == self.encoded(),
    {
        let b2 = pack_flags(&self.buttons, 0);
        let b3 = pack_flags(&self.buttons, 8);
        let b4 = flag(self.buttons[16], 0);
        let a: [u8; 13] = [
            self.player_id,
            self.sequence_no,
            b2,
            b3,
            b4,
            (self.lh / 256) as u8,
            (self.lh % 256) as u8,
            (self.lv / 256) as u8,
            (self.lv % 256) as u8,
            (self.rh / 256) as u8,
            (self.rh % 256) as u8,
            (self.rv / 256) as u8,
            (self.rv % 256) as u8,
        ];
        assert(a@ =~= self.encoded());
        NetworkControllerState(a)
    }
}

proof fn lemma_pack_bits(x: u8)
    by (bit_vector)
    ensures
        flag_bit((x >> 0u8) & 1u8 == 1u8, 0) | flag_bit((x >> 1u8) & 1u8 == 1u8, 1) | flag_bit(
            (x >> 2u8) & 1u8 == 1u8,
            2,
        ) | flag_bit((x >> 3u8) & 1u8 == 1u8, 3) | flag_bit((x >> 4u8) & 1u8 == 1u8, 4) | flag_bit(
            (x >> 5u8) & 1u8 == 1u8,
            5,
        ) | flag_bit((x >> 6u8) & 1u8 == 1u8, 6) | flag_bit((x >> 7u8) & 1u8 == 1u8, 7) == x,
        x & 0xFEu8 == 0 ==> flag_bit((x >> 0u8) & 1u8 == 1u8, 0) == x,
{
}

/// Eight flags that are the bits of byte `b[at]`, in order, pack back into that byte.
proof fn lemma_pack_byte(f: Seq<bool>, b: Seq<u8>, at: int, first: int)
    requires
        f.len() == 8,
        0 <= at < b.len(),
        first >= 0,
        first % 8 == 0,
        2 + first / 8 == at,
        forall|k: int| 0 <= k < 8 ==> f[k] == button_bit(b, first + k),
    ensures
        pack8(f) == b[at],
{
    let x = b[at];
    assert forall|k: int| 0 <= k < 8 implies f[k] == ((x >> (k as u8)) & 1u8 == 1u8) by {
        assert((first + k) / 8 == first / 8);
        assert((first + k) % 8 == k);
    }
    lemma_pack_bits(x);
}

/// Re-encoding the decoded fields of a frame reproduces its bytes, for every
/// frame whose unused bits (bits 1 to 7 of byte 4) are clear.
pub proof fn lemma_decode_encode_round_trip(f: ControllerFields, b: Seq<u8>)
    requires
        f.decoded_from(b),
        b[4] & 0xFEu8 == 0,
    ensures
        f.encoded() == b,
{
    let bs = f.buttons@;
    lemma_pack_byte(bs.subrange(0, 8), b, 2, 0);
    lemma_pack_byte(bs.subrange(8, 16), b, 3, 8);
    let x = b[4];
    assert(16int / 8 == 2 && 16int % 8 == 0);
    assert(bs[16] == button_bit(b, 16));
    assert(bs[16] == ((x >> 0u8) & 1u8 == 1u8));
    lemma_pack_bits(x);
    assert(f.encoded() =~= b);
}

fn flag(b: bool, k: u8) -> (r: u8)
    requires
        k < 8,
    ensures
        r == flag_bit(b, k),
{
    if b {
        1u8 << k
    } else {
        0
    }
}

/// Packs the eight flags `f[start..start + 8]` into one byte.
fn pack_flags(f: &Vec<bool>, start: usize) -> (r: u8)
    requires
        start <= 8,
        start + 8 <= f@.len(),
    ensures
        r == pack8(f@.subrange(start as int, start + 8)),
{
    let r = flag(f[start], 0) | flag(f[start + 1], 1) | flag(f[start + 2], 2) | flag(f[start + 3], 3)
        | flag(f[start + 4], 4) | flag(f[start + 5], 5) | flag(f[start + 6], 6) | flag(
        f[start + 7],
        7,
    );
    assert(f@.subrange(start as int, start + 8)[0] == f@[start as int]);
    r
}

} // verus!
