//! The device identity: a 48-bit identifier read once at connection start
//! from the 6-byte handshake, with its canonical lowercase hex form.

use vstd::prelude::*;
use vstd::string::StringExecFns;

verus! {

/// The big-endian 48-bit integer held in a 6-byte handshake, zero-extended
/// to 64 bits.
pub open spec fn be_u48_of(b: Seq<u8>) -> u64
    recommends
        b.len() == 6,
{
    (b[0] * 0x10000000000 + b[1] * 0x100000000 + b[2] * 0x1000000 + b[3] * 0x10000 + b[4] * 0x100
        + b[5]) as u64
}

/// The lowercase hex digit for a value below 16.
pub open spec fn hex_digit_char(d: int) -> char {
    if d == 0 {
        '0'
    } else if d == 1 {
        '1'
    } else if d == 2 {
        '2'
    } else if d == 3 {
        '3'
    } else if d == 4 {
        '4'
    } else if d == 5 {
        '5'
    } else if d == 6 {
        '6'
    } else if d == 7 {
        '7'
    } else if d == 8 {
        '8'
    } else if d == 9 {
        '9'
    } else if d == 10 {
        'a'
    } else if d == 11 {
        'b'
    } else if d == 12 {
        'c'
    } else if d == 13 {
        'd'
    } else if d == 14 {
        'e'
    } else {
        'f'
    }
}

/// The hex digits of `n`, most significant first, with no leading zeros
/// (`0` itself is the single digit `0`).
pub open spec fn hex_chars(n: nat) -> Seq<char>
    decreases n,
{
    if n < 16 {
        seq![hex_digit_char(n as int)]
    } else {
        hex_chars(n / 16) + seq![hex_digit_char((n % 16) as int)]
    }
}

/// The canonical rendering of an identity: `0x` followed by the hex digits.
pub open spec fn canonical_hex(n: nat) -> Seq<char> {
    seq!['0', 'x'] + hex_chars(n)
}

/// The hex digits of a digit stack read from the top down (digits are
/// pushed least significant first, so reading back gives most significant
/// first).
pub open spec fn popped_digit_chars(ds: Seq<u8>) -> Seq<char>
    decreases ds.len(),
{
    if ds.len() == 0 {
        Seq::empty()
    } else {
        seq![hex_digit_char(ds.last() as int)] + popped_digit_chars(ds.drop_last())
    }
}

proof fn lemma_popped_digit_chars_prepend(x: u8, t: Seq<u8>)
    ensures
        popped_digit_chars(seq![x] + t) == popped_digit_chars(t) + seq![
            hex_digit_char(x as int),
        ],
    decreases t.len(),
{
    if t.len() == 0 {
        assert(seq![x] + t =~= seq![x]);
        assert(seq![x].drop_last() =~= Seq::<u8>::empty());
        assert(popped_digit_chars(Seq::<u8>::empty()) =~= Seq::<char>::empty());
        assert(popped_digit_chars(seq![x]) =~= seq![hex_digit_char(x as int)]);
        assert(popped_digit_chars(t) + seq![hex_digit_char(x as int)] =~= seq![
            hex_digit_char(x as int),
        ]);
    } else {
        let s = seq![x] + t;
        assert(s.last() == t.last());
        assert(s.drop_last() =~= seq![x] + t.drop_last());
        lemma_popped_digit_chars_prepend(x, t.drop_last());
        assert(popped_digit_chars(s) =~= popped_digit_chars(t) + seq![hex_digit_char(x as int)]);
    }
}

/// Returns the one-character string for a hex digit.
fn hex_digit_str(d: u8) -> (r: &'static str)
    requires
        d < 16,
    ensures
        r@ == seq![hex_digit_char(d as int)],
{
    proof {
        reveal_strlit("0");
        reveal_strlit("1");
        reveal_strlit("2");
        reveal_strlit("3");
        reveal_strlit("4");
        reveal_strlit("5");
        reveal_strlit("6");
        reveal_strlit("7");
        reveal_strlit("8");
        reveal_strlit("9");
        reveal_strlit("a");
        reveal_strlit("b");
        reveal_strlit("c");
        reveal_strlit("d");
        reveal_strlit("e");
        reveal_strlit("f");
    }
    if d == 0 {
        "0"
    } else if d == 1 {
        "1"
    } else if d == 2 {
        "2"
    } else if d == 3 {
        "3"
    } else if d == 4 {
        "4"
    } else if d == 5 {
        "5"
    } else if d == 6 {
        "6"
    } else if d == 7 {
        "7"
    } else if d == 8 {
        "8"
    } else if d == 9 {
        "9"
    } else if d == 10 {
        "a"
    } else if d == 11 {
        "b"
    } else if d == 12 {
        "c"
    } else if d == 13 {
        "d"
    } else if d == 14 {
        "e"
    } else {
        "f"
    }
}

/// An opaque 48-bit device identifier, extracted once at connection start
/// and used as the location tag of every forwarded reading.
#[derive(Clone, Copy, Debug, PartialEq, Eq, Structural)]
pub struct DeviceIdentity {
    raw: u64,
}

impl DeviceIdentity {
    /// The identifier as a zero-extended 64-bit integer.
    pub closed spec fn raw_spec(&self) -> u64 {
        self.raw
    }

    /// A well-formed identity fits in 48 bits.
    pub open spec fn wf(&self) -> bool {
        self.raw_spec() < 0x1000000000000
    }

    /// Reads the identity from the 6 handshake bytes, big-endian.
    pub fn from_bytes(b: &Vec<u8>) -> (r: DeviceIdentity)
        requires
            b@.len() == 6,
        ensures
            r.raw_spec() == be_u48_of(b@),
            r.wf(),
    {
        let raw: u64 = (b[0] as u64) * 0x10000000000 + (b[1] as u64) * 0x100000000 + (b[2]
            as u64) * 0x1000000 + (b[3] as u64) * 0x10000 + (b[4] as u64) * 0x100 + (b[5] as u64);
        DeviceIdentity { raw }
    }

    /// The identifier as an integer.
    pub fn raw(&self) -> (r: u64)
        ensures
            r == self.raw_spec(),
    {
        self.raw
    }

    /// Renders the canonical form: `0x` followed by the lowercase hex
    /// digits of the identifier, without leading zeros.
    pub fn hex_string(&self) -> (r: String)
        ensures
            r@ == canonical_hex(self.raw_spec() as nat),
    {
        let mut digits: Vec<u8> = Vec::new();
        let mut n: u64 = self.raw;
        let d0: u8 = (n % 16) as u8;
        digits.push(d0);
        n = n / 16;
        proof {
            assert(digits@ =~= seq![d0]);
            assert(seq![d0].drop_last() =~= Seq::<u8>::empty());
            assert(popped_digit_chars(Seq::<u8>::empty()) =~= Seq::<char>::empty());
            assert(popped_digit_chars(seq![d0]) =~= seq![hex_digit_char(d0 as int)]);
            if n == 0 {
                assert(hex_chars(self.raw_spec() as nat) =~= popped_digit_chars(digits@));
            } else {
                assert(hex_chars(self.raw_spec() as nat) =~= hex_chars(n as nat)
                    + popped_digit_chars(digits@));
            }
        }
        while n > 0
            invariant
                digits@.len() >= 1,
                forall|k: int| 0 <= k < digits@.len() ==> digits@[k] < 16,
                n > 0 ==> hex_chars(self.raw_spec() as nat) == hex_chars(n as nat)
                    + popped_digit_chars(digits@),
                n == 0 ==> hex_chars(self.raw_spec() as nat) == popped_digit_chars(digits@),
            decreases n,
        {
            let ghost prev_digits = digits@;
            let ghost prev_n = n as nat;
            let d: u8 = (n % 16) as u8;
            digits.push(d);
            n = n / 16;
            proof {
                assert(digits@.last() == d);
                assert(digits@.drop_last() =~= prev_digits);
                assert(popped_digit_chars(digits@) =~= seq![hex_digit_char(d as int)]
                    + popped_digit_chars(prev_digits));
                if prev_n < 16 {
                    assert(hex_chars(prev_n) =~= seq![hex_digit_char(d as int)]);
                    assert(hex_chars(self.raw_spec() as nat) =~= popped_digit_chars(digits@));
                } else {
                    assert(hex_chars(prev_n) =~= hex_chars(n as nat) + seq![
                        hex_digit_char(d as int),
                    ]);
                    assert(hex_chars(self.raw_spec() as nat) =~= hex_chars(n as nat)
                        + popped_digit_chars(digits@));
                }
            }
        }
        let mut s = String::new();
        s.append("0x");
        proof {
            reveal_strlit("0x");
            assert(s@ =~= seq!['0', 'x']);
            assert(digits@.subrange(digits@.len() as int, digits@.len() as int)
                =~= Seq::<u8>::empty());
            assert(s@ =~= seq!['0', 'x'] + popped_digit_chars(
                digits@.subrange(digits@.len() as int, digits@.len() as int),
            ));
        }
        let mut i: usize = digits.len();
        while i > 0
            invariant
                i <= digits@.len(),
                forall|k: int| 0 <= k < digits@.len() ==> digits@[k] < 16,
                hex_chars(self.raw_spec() as nat) == popped_digit_chars(digits@),
                s@ == seq!['0', 'x'] + popped_digit_chars(
                    digits@.subrange(i as int, digits@.len() as int),
                ),
            decreases i,
        {
            i = i - 1;
            let piece = hex_digit_str(digits[i]);
            s.append(piece);
            proof {
                let tail = digits@.subrange(i + 1, digits@.len() as int);
                assert(digits@.subrange(i as int, digits@.len() as int) =~= seq![digits@[i as int]]
                    + tail);
                lemma_popped_digit_chars_prepend(digits@[i as int], tail);
                assert(s@ =~= seq!['0', 'x'] + popped_digit_chars(
                    digits@.subrange(i as int, digits@.len() as int),
                ));
            }
        }
        proof {
            assert(digits@.subrange(0, digits@.len() as int) =~= digits@);
            assert(s@ =~= canonical_hex(self.raw_spec() as nat));
        }
        s
    }
}

} // verus!
