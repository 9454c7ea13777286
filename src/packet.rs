use vstd::prelude::*;

verus! {

/// Number of synchronisation bytes at the start of a magic packet.
pub const HEADER_LEN: usize = 6;

/// Number of bytes in a hardware (MAC) address.
pub const ADDRESS_LEN: usize = 6;

/// Number of times the reversed address is repeated after the header.
pub const REPETITIONS: usize = 16;

/// Total length of a magic packet: the header and sixteen copies of the address.
pub const PACKET_LEN: usize = 102;

/// Value of every byte of the synchronisation header.
pub const SYNC_BYTE: u8 = 0xff;

/// A six-byte hardware address of a network interface.
#[derive(Clone, Copy, Debug, PartialEq, Eq)]
pub struct HardwareAddress {
    pub bytes: [u8; 6],
}

impl View for HardwareAddress {
    type V = Seq<u8>;

    open spec fn view(&self) -> Seq<u8> {
        self.bytes@
    }
}

impl HardwareAddress {
    /// Wraps the six bytes of an address, in their natural order.
    pub fn new(bytes: [u8; 6]) -> (r: HardwareAddress)
        ensures
            r.bytes == bytes,
    {
        HardwareAddress { bytes }
    }

    /// The address with its byte order reversed: last byte first.
    pub fn reversed(&self) -> (r: [u8; 6])
        ensures
            r@ == reversed(self@),
    {
        let b = self.bytes;
        let r: [u8; 6] = [b[5], b[4], b[3], b[2], b[1], b[0]];
        assert(r@ =~= reversed(self@));
        r
    }
}

/// The bytes of `s` in reverse order.
pub open spec fn reversed(s: Seq<u8>) -> Seq<u8> {
    Seq::new(s.len(), |i: int| s[s.len() - 1 - i])
}

/// The byte that a magic packet for `mac` holds at offset `i`: the sync byte
/// in the header, then the reversed address over and over.
pub open spec fn expected_byte(mac: Seq<u8>, i: int) -> u8 {
    if i < HEADER_LEN {
        SYNC_BYTE
    } else {
        reversed(mac)[(i - HEADER_LEN) % (ADDRESS_LEN as int)]
    }
}

/// The one magic packet that wakes (here: puts to sleep) the host with address `mac`.
pub open spec fn magic_packet(mac: Seq<u8>) -> Seq<u8> {
    Seq::new(PACKET_LEN as nat, |i: int| expected_byte(mac, i))
}

/// Whether `buf` is a valid trigger for the host with address `mac`.
pub open spec fn is_magic(mac: Seq<u8>, buf: Seq<u8>) -> bool {
    buf == magic_packet(mac)
}

/// The synchronisation header: six sync bytes.
pub open spec fn header() -> Seq<u8> {
    Seq::new(HEADER_LEN as nat, |i: int| SYNC_BYTE)
}

/// `n` copies of `s`, one after the other.
pub open spec fn repeat(s: Seq<u8>, n: nat) -> Seq<u8>
    decreases n,
{
    if n == 0 {
        Seq::empty()
    } else {
        repeat(s, (n - 1) as nat) + s
    }
}

/// A packet laid out as the header followed by sixteen copies of `unit`.
pub open spec fn packet_with_body(unit: Seq<u8>) -> Seq<u8> {
    header() + repeat(unit, REPETITIONS as nat)
}

proof fn lemma_repeat_index(s: Seq<u8>, n: nat, k: int)
    requires
        s.len() == ADDRESS_LEN,
        0 <= k < n * ADDRESS_LEN,
    ensures
        repeat(s, n).len() == n * ADDRESS_LEN,
        repeat(s, n)[k] == s[k % (ADDRESS_LEN as int)],
    decreases n,
{
    lemma_repeat_len(s, n);
    let m = (n - 1) as nat;
    lemma_repeat_len(s, m);
    if k < m * ADDRESS_LEN {
        lemma_repeat_index(s, m, k);
    } else {
        let j = k - m * ADDRESS_LEN;
        assert(0 <= j < 6) by (nonlinear_arith)
            requires j == k - m * 6, m * 6 <= k < n * 6, m == n - 1;
        assert(k % 6 == j) by (nonlinear_arith)
            requires j == k - m * 6, 0 <= j < 6, m >= 0;
    }
}

proof fn lemma_repeat_len(s: Seq<u8>, n: nat)
    requires
        s.len() == ADDRESS_LEN,
    ensures
        repeat(s, n).len() == n * ADDRESS_LEN,
    decreases n,
{
    if n > 0 {
        lemma_repeat_len(s, (n - 1) as nat);
        assert((n - 1) * 6 + 6 == n * 6) by (nonlinear_arith);
    }
}

/// The packet laid out as six sync bytes followed by sixteen copies of the
/// reversed address is exactly the magic packet of that address, so it matches.
pub proof fn lemma_reversed_layout_matches(mac: HardwareAddress)
    ensures
        packet_with_body(reversed(mac@)) == magic_packet(mac@),
        is_magic(mac@, packet_with_body(reversed(mac@))),
{
    let unit = reversed(mac@);
    let p = packet_with_body(unit);
    lemma_repeat_len(unit, REPETITIONS as nat);
    assert forall|i: int| 0 <= i < PACKET_LEN implies p[i] == magic_packet(mac@)[i] by {
        if i >= HEADER_LEN {
            lemma_repeat_index(unit, REPETITIONS as nat, i - HEADER_LEN);
        }
    }
    assert(p =~= magic_packet(mac@));
}

/// An address that is not its own reverse does not match a packet that
/// carries it in natural byte order.
pub proof fn lemma_natural_order_rejected(mac: HardwareAddress)
    requires
        mac@ != reversed(mac@),
    ensures
        !is_magic(mac@, packet_with_body(mac@)),
{
    let rev = reversed(mac@);
    if forall|i: int| 0 <= i < ADDRESS_LEN ==> #[trigger] mac@[i] == rev[i] {
        assert(mac@ =~= rev);
    }
    let i = choose|i: int| 0 <= i < ADDRESS_LEN && #[trigger] mac@[i] != rev[i];
    let p = packet_with_body(mac@);
    lemma_repeat_len(mac@, REPETITIONS as nat);
    lemma_repeat_index(mac@, REPETITIONS as nat, i);
    assert(p[HEADER_LEN + i] != magic_packet(mac@)[HEADER_LEN + i]);
}

/// Changing any one byte of a valid packet, in the header or in the body,
/// makes it no longer match.
pub proof fn lemma_single_byte_change_rejected(mac: HardwareAddress, j: int, v: u8)
    requires
        0 <= j < PACKET_LEN,
        v != magic_packet(mac@)[j],
    ensures
        !is_magic(mac@, magic_packet(mac@).update(j, v)),
{
    assert(magic_packet(mac@).update(j, v)[j] != magic_packet(mac@)[j]);
}

} // verus!
