use crate::checkers::{all_hex, valid_sha1_hex};
use vstd::prelude::*;
use vstd::string::*;

verus! {

/// The upper-case character that writes the digit `d` of base 16.
pub open spec fn hex_char(d: nat) -> char {
    if d == 0 {
        '0'
    } else if d == 1 {
        '1'
    } else if d == 2 {
        '2'
    } else if d == 3 {
        '3'
    } else if d == 4 {
        '4'
    } else if d == 5 {
        '5'
    } else if d == 6 {
        '6'
    } else if d == 7 {
        '7'
    } else if d == 8 {
        '8'
    } else if d == 9 {
        '9'
    } else if d == 10 {
        'A'
    } else if d == 11 {
        'B'
    } else if d == 12 {
        'C'
    } else if d == 13 {
        'D'
    } else if d == 14 {
        'E'
    } else {
        'F'
    }
}

/// The lowest `width` digits of `n` in base 16, most significant first.
pub open spec fn hex_digits(n: nat, width: nat) -> Seq<char>
    decreases width,
{
    if width == 0 {
        Seq::empty()
    } else {
        hex_digits(n / 16, (width - 1) as nat).push(hex_char(n % 16))
    }
}

/// 16 to the power `width`.
pub open spec fn pow16(width: nat) -> nat
    decreases width,
{
    if width == 0 {
        1
    } else {
        16 * pow16((width - 1) as nat)
    }
}

/// The filler that brings a fabricated hash to the length of a digest.
pub open spec fn filler() -> Seq<char> {
    seq!['0', '0', '0', '0', '0', '0', '0', '0']
}

/// The hash fabricated from a seed and a serial number: 16 digits of the one,
/// 16 of the other, and the filler.
pub open spec fn fabricated(seed: u64, serial: u64) -> Seq<char> {
    hex_digits(seed as nat, 16) + hex_digits(serial as nat, 16) + filler()
}

/// `hex_digits` writes `width` hexadecimal digits.
pub proof fn lemma_hex_digits_shape(n: nat, width: nat)
    ensures
        hex_digits(n, width).len() == width,
        all_hex(hex_digits(n, width)),
    decreases width,
{
    if width > 0 {
        lemma_hex_digits_shape(n / 16, (width - 1) as nat);
    }
}

/// Numbers below 16 to the `width` that `hex_digits` writes alike are equal.
pub proof fn lemma_hex_digits_injective(n: nat, m: nat, width: nat)
    requires
        n < pow16(width),
        m < pow16(width),
        hex_digits(n, width) == hex_digits(m, width),
    ensures
        n == m,
    decreases width,
{
    if width > 0 {
        let a = hex_digits(n / 16, (width - 1) as nat);
        let b = hex_digits(m / 16, (width - 1) as nat);
        assert(hex_digits(n, width).last() == hex_char(n % 16));
        assert(hex_digits(m, width).last() == hex_char(m % 16));
        assert(hex_digits(n, width).drop_last() =~= a);
        assert(hex_digits(m, width).drop_last() =~= b);
        lemma_hex_digits_injective(n / 16, m / 16, (width - 1) as nat);
    }
}

/// Every fabricated hash has the shape of a SHA-1 digest, and two of them are
/// equal only if seed and serial number both are: one fabricator never hands
/// out the same hash for two serial numbers.
pub proof fn lemma_fabricated_fresh(seed: u64, serial: u64, other_seed: u64, other_serial: u64)
    ensures
        valid_sha1_hex(fabricated(seed, serial)),
        fabricated(seed, serial) == fabricated(other_seed, other_serial) ==> seed == other_seed
            && serial == other_serial,
{
    lemma_hex_digits_shape(seed as nat, 16);
    lemma_hex_digits_shape(serial as nat, 16);
    lemma_hex_digits_shape(other_seed as nat, 16);
    lemma_hex_digits_shape(other_serial as nat, 16);
    let x = fabricated(seed, serial);
    let y = fabricated(other_seed, other_serial);
    assert(pow16(16) == 0x1_0000_0000_0000_0000) by {
        reveal_with_fuel(pow16, 17);
    }
    if x == y {
        assert(x.subrange(0, 16) =~= hex_digits(seed as nat, 16));
        assert(y.subrange(0, 16) =~= hex_digits(other_seed as nat, 16));
        assert(x.subrange(16, 32) =~= hex_digits(serial as nat, 16));
        assert(y.subrange(16, 32) =~= hex_digits(other_serial as nat, 16));
        lemma_hex_digits_injective(seed as nat, other_seed as nat, 16);
        lemma_hex_digits_injective(serial as nat, other_serial as nat, 16);
    }
}

fn hex_text(d: u64) -> (text: &'static str)
    requires
        d < 16,
    ensures
        text@ == seq![hex_char(d as nat)],
{
    proof {
        reveal_strlit("0");
        reveal_strlit("1");
        reveal_strlit("2");
        reveal_strlit("3");
        reveal_strlit("4");
        reveal_strlit("5");
        reveal_strlit("6");
        reveal_strlit("7");
        reveal_strlit("8");
        reveal_strlit("9");
        reveal_strlit("A");
        reveal_strlit("B");
        reveal_strlit("C");
        reveal_strlit("D");
        reveal_strlit("E");
        reveal_strlit("F");
    }
    let text = if d == 0 {
        "0"
    } else if d == 1 {
        "1"
    } else if d == 2 {
        "2"
    } else if d == 3 {
        "3"
    } else if d == 4 {
        "4"
    } else if d == 5 {
        "5"
    } else if d == 6 {
        "6"
    } else if d == 7 {
        "7"
    } else if d == 8 {
        "8"
    } else if d == 9 {
        "9"
    } else if d == 10 {
        "A"
    } else if d == 11 {
        "B"
    } else if d == 12 {
        "C"
    } else if d == 13 {
        "D"
    } else if d == 14 {
        "E"
    } else {
        "F"
    };
    assert(text@ =~= seq![hex_char(d as nat)]);
    text
}

/// The 16 hexadecimal digits of `n`.
fn hex16(n: u64) -> (text: String)
    ensures
        text@ == hex_digits(n as nat, 16),
{
    let mut text = String::new();
    let mut rest: u64 = n;
    let mut left: u32 = 16;
    assert(hex_digits(rest as nat, 0) + text@ =~= text@);
    while left > 0
        invariant
            left <= 16,
            hex_digits(n as nat, 16) == hex_digits(rest as nat, left as nat) + text@,
        decreases left,
    {
        let ghost tail = text@;
        let digit = hex_text(rest % 16);
        text = String::from_str(digit).concat(text.as_str());
        assert(hex_digits(rest as nat, left as nat) + tail =~= hex_digits(
            (rest / 16) as nat,
            (left - 1) as nat,
        ) + text@);
        rest = rest / 16;
        left = left - 1;
    }
    assert(hex_digits(rest as nat, 0) + text@ =~= text@);
    text
}

/// The hash fabricated from `seed` and `serial`.
pub fn fabricate(seed: u64, serial: u64) -> (hash: String)
    ensures
        hash@ == fabricated(seed, serial),
        valid_sha1_hex(hash@),
{
    proof {
        lemma_fabricated_fresh(seed, serial, seed, serial);
        reveal_strlit("00000000");
    }
    let mut hash = hex16(seed);
    hash.append(hex16(serial).as_str());
    hash.append("00000000");
    assert(hash@ =~= fabricated(seed, serial));
    hash
}

/// A source of hashes that stand for content the provider has never seen.
/// Each has the shape of a SHA-1 digest; a fabricator hands out a new one on
/// every call, until its serial numbers run out after 2^64 calls.
#[derive(Clone, Copy, Debug, PartialEq, Eq, Structural)]
pub struct HashFabricator {
    pub seed: u64,
    pub serial: u64,
}

impl HashFabricator {
    /// The serial number that follows `serial`.
    pub open spec fn following(serial: u64) -> u64 {
        if serial < u64::MAX {
            (serial + 1) as u64
        } else {
            0
        }
    }

    /// The fabricator after one more hash.
    pub open spec fn advanced(self) -> HashFabricator {
        HashFabricator { seed: self.seed, serial: Self::following(self.serial) }
    }

    /// A fabricator that starts at serial number 0 under `seed`, which the
    /// caller draws from a clock or another source that differs from run to
    /// run.
    pub fn new(seed: u64) -> (fabricator: HashFabricator)
        ensures
            fabricator == (HashFabricator { seed, serial: 0 }),
    {
        HashFabricator { seed, serial: 0 }
    }

    /// The next hash.
    pub fn get_a_hash(&mut self) -> (hash: String)
        ensures
            hash@ == fabricated(old(self).seed, old(self).serial),
            valid_sha1_hex(hash@),
            *final(self) == old(self).advanced(),
    {
        let hash = fabricate(self.seed, self.serial);
        self.serial = if self.serial < u64::MAX {
            self.serial + 1
        } else {
            0
        };
        hash
    }
}

} // verus!
