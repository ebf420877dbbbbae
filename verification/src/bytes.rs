//! Numbers in memory, in either byte order.

use vstd::prelude::*;
use zerocopy::FromBytes;

verus! {

/// The order of the bytes of a number in memory.
#[derive(Clone, Copy, Debug, PartialEq, Eq)]
pub enum ByteOrder {
    /// The least significant byte comes first.
    Little,
    /// The most significant byte comes first.
    Big,
}

/// The number whose bytes are `bytes`, least significant first.
pub open spec fn little_endian(bytes: Seq<u8>) -> nat
    decreases bytes.len(),
{
    if bytes.len() == 0 {
        0
    } else {
        bytes[0] as nat + 256 * little_endian(bytes.drop_first())
    }
}

/// The number whose bytes are `bytes`, most significant first.
pub open spec fn big_endian(bytes: Seq<u8>) -> nat
    decreases bytes.len(),
{
    if bytes.len() == 0 {
        0
    } else {
        256 * big_endian(bytes.drop_last()) + bytes.last() as nat
    }
}

/// How many numbers `n` bytes can hold.
pub open spec fn capacity(n: nat) -> nat
    decreases n,
{
    if n == 0 {
        1
    } else {
        256 * capacity((n - 1) as nat)
    }
}

/// The byte order of a machine that reads two bytes, one and zero, as `value`.
pub open spec fn probed(value: Option<u16>) -> ByteOrder {
    if value == Some(1u16) {
        ByteOrder::Little
    } else {
        ByteOrder::Big
    }
}

impl ByteOrder {
    /// The number whose bytes are `bytes`.
    pub open spec fn value(self, bytes: Seq<u8>) -> nat {
        match self {
            ByteOrder::Little => little_endian(bytes),
            ByteOrder::Big => big_endian(bytes),
        }
    }

    /// This is the order that the machine's own reading of two bytes, one and zero,
    /// tells of.
    pub closed spec fn is_native(self) -> bool {
        exists|bytes: &[u8], value: Option<u16>|
            {
                &&& #[trigger] call_ensures(native_u16, (bytes,), value)
                &&& bytes@ == seq![1u8, 0u8]
                &&& self == probed(value)
            }
    }

    /// The number whose bytes are `bytes`.
    pub fn read(&self, bytes: &[u8]) -> (value: u64)
        requires
            bytes@.len() <= 8,
        ensures
            value == self.value(bytes@),
    {
        match self {
            ByteOrder::Little => {
                let mut value: u64 = 0;
                let mut i: usize = bytes.len();
                assert(bytes@.skip(i as int) =~= seq![]);
                while i > 0
                    invariant
                        i <= bytes@.len() <= 8,
                        value == little_endian(bytes@.skip(i as int)),
                    decreases i,
                {
                    i -= 1;
                    let ghost rest = bytes@.skip(i as int);
                    assert(rest.drop_first() =~= bytes@.skip(i + 1));
                    proof {
                        lemma_value_fits(ByteOrder::Little, rest);
                        lemma_capacity_grows(rest.len(), 8);
                    }
                    value = 256 * value + bytes[i] as u64;
                }
                assert(bytes@.skip(0) =~= bytes@);
                value
            },
            ByteOrder::Big => {
                let mut value: u64 = 0;
                let mut i: usize = 0;
                assert(bytes@.take(0) =~= seq![]);
                while i < bytes.len()
                    invariant
                        i <= bytes@.len() <= 8,
                        value == big_endian(bytes@.take(i as int)),
                    decreases bytes@.len() - i,
                {
                    let ghost front = bytes@.take(i + 1);
                    assert(front.drop_last() =~= bytes@.take(i as int));
                    proof {
                        lemma_value_fits(ByteOrder::Big, front);
                        lemma_capacity_grows(front.len(), 8);
                    }
                    value = 256 * value + bytes[i] as u64;
                    i += 1;
                }
                assert(bytes@.take(i as int) =~= bytes@);
                value
            },
        }
    }

    /// The number whose two bytes are `bytes`.
    pub fn read_u16(&self, bytes: &[u8]) -> (value: u16)
        requires
            bytes@.len() == 2,
        ensures
            value == self.value(bytes@),
    {
        proof {
            lemma_value_fits(*self, bytes@);
            reveal_with_fuel(capacity, 3);
        }
        self.read(bytes) as u16
    }

    /// The number whose four bytes are `bytes`.
    pub fn read_u32(&self, bytes: &[u8]) -> (value: u32)
        requires
            bytes@.len() == 4,
        ensures
            value == self.value(bytes@),
    {
        proof {
            lemma_value_fits(*self, bytes@);
            reveal_with_fuel(capacity, 5);
        }
        self.read(bytes) as u32
    }

    /// The byte order of this machine, by how it reads two bytes, one and zero.
    /// Which order that is is left unsaid: it differs from machine to machine.
    pub(crate) fn native() -> (order: Self)
        ensures
            order.is_native(),
    {
        Self::native_by(native_u16)
    }

    /// The byte order of a machine on which `read` reads two bytes as a number: by
    /// what it makes of one and zero.
    pub fn native_by<F: FnOnce(&[u8]) -> Option<u16>>(read: F) -> (order: Self)
        requires
            forall|bytes: &[u8]|
                bytes@ == seq![1u8, 0u8] ==> #[trigger] call_requires(read, (bytes,)),
        ensures
            exists|bytes: &[u8], value: Option<u16>|
                {
                    &&& #[trigger] call_ensures(read, (bytes,), value)
                    &&& bytes@ == seq![1u8, 0u8]
                    &&& order == probed(value)
                },
    {
        let probe: [u8; 2] = [1, 0];
        let bytes: &[u8] = probe.as_slice();
        assert(bytes@ =~= seq![1u8, 0u8]);
        let value = read(bytes);
        assert(call_ensures(read, (bytes,), value));
        Self::of_probe(value)
    }

    /// The byte order of a machine that reads two bytes, one and zero, as `value`:
    /// little-endian exactly if it reads them as the number one.
    pub fn of_probe(value: Option<u16>) -> (order: Self)
        ensures
            order == probed(value),
            value matches Some(v) ==> {
                let probe = seq![1u8, 0u8];
                v == little_endian(probe) || v == big_endian(probe) ==> order.value(probe) == v
            },
    {
        proof {
            let probe = seq![1u8, 0u8];
            reveal_with_fuel(little_endian, 3);
            reveal_with_fuel(big_endian, 3);
            assert(probe.drop_first() =~= seq![0u8]);
            assert(probe.drop_last() =~= seq![1u8]);
        }
        match value {
            Some(value) => if value == 1 {
                ByteOrder::Little
            } else {
                ByteOrder::Big
            },
            None => ByteOrder::Big,
        }
    }
}

/// Calls `<u16 as zerocopy::FromBytes>::read_from_bytes`. Trusted: two bytes, and
/// nothing else, are read as a number, in one of the two orders. Which of them is
/// the machine's is left unsaid.
#[verifier::external_body]
fn native_u16(bytes: &[u8]) -> (value: Option<u16>)
    ensures
        value is Some <==> bytes@.len() == 2,
        value matches Some(v) ==> v == little_endian(bytes@) || v == big_endian(bytes@),
{
    u16::read_from_bytes(bytes).ok()
}

proof fn lemma_value_fits(order: ByteOrder, bytes: Seq<u8>)
    ensures
        order.value(bytes) < capacity(bytes.len()),
    decreases bytes.len(),
{
    if bytes.len() > 0 {
        match order {
            ByteOrder::Little => lemma_value_fits(order, bytes.drop_first()),
            ByteOrder::Big => lemma_value_fits(order, bytes.drop_last()),
        }
    }
}

proof fn lemma_capacity_grows(n: nat, m: nat)
    requires
        n <= m <= 8,
    ensures
        capacity(n) <= capacity(m) <= 0x1_0000_0000_0000_0000,
    decreases m,
{
    reveal_with_fuel(capacity, 9);
    if n < m {
        lemma_capacity_grows(n, (m - 1) as nat);
    }
}

/// Two bytes, read in either order.
pub proof fn law_two_bytes(a: u8, b: u8)
    ensures
        ByteOrder::Little.value(seq![a, b]) == a + 256 * b,
        ByteOrder::Big.value(seq![a, b]) == 256 * a + b,
{
    let bytes = seq![a, b];
    reveal_with_fuel(little_endian, 3);
    reveal_with_fuel(big_endian, 3);
    assert(bytes.drop_first() =~= seq![b]);
    assert(bytes.drop_last() =~= seq![a]);
}

/// Four bytes, read in either order.
pub proof fn law_four_bytes(a: u8, b: u8, c: u8, d: u8)
    ensures
        ByteOrder::Little.value(seq![a, b, c, d]) == a + 0x100 * b + 0x1_0000 * c + 0x100_0000 * d,
        ByteOrder::Big.value(seq![a, b, c, d]) == 0x100_0000 * a + 0x1_0000 * b + 0x100 * c + d,
{
    let bytes = seq![a, b, c, d];
    law_two_bytes(c, d);
    law_two_bytes(a, b);
    assert(bytes.drop_first().drop_first() =~= seq![c, d]);
    assert(bytes.drop_last().drop_last() =~= seq![a, b]);
    reveal_with_fuel(little_endian, 3);
    reveal_with_fuel(big_endian, 3);
}

/// A byte more significant than all others adds its multiple of the power of 256
/// that its place stands for.
pub proof fn law_byte_at_its_place(bytes: Seq<u8>, b: u8)
    ensures
        ByteOrder::Little.value(bytes.push(b)) == ByteOrder::Little.value(bytes) + b
            * vstd::arithmetic::power::pow(256, bytes.len()),
    decreases bytes.len(),
{
    vstd::arithmetic::power::lemma_pow0(256);
    let pow = vstd::arithmetic::power::pow(256, bytes.len());
    if bytes.len() == 0 {
        assert(bytes.push(b).drop_first() =~= seq![]);
        reveal_with_fuel(little_endian, 2);
        assert(b * pow == b) by (nonlinear_arith)
            requires
                pow == 1,
        ;
    } else {
        let rest = bytes.drop_first();
        law_byte_at_its_place(rest, b);
        assert(bytes.push(b).drop_first() =~= rest.push(b));
        let part = vstd::arithmetic::power::pow(256, rest.len());
        reveal(vstd::arithmetic::power::pow);
        assert(pow == 256 * part);
        assert(256 * (b * part) == b * pow) by (nonlinear_arith)
            requires
                pow == 256 * part,
        ;
    }
}

/// The one order reads bytes as the other reads them backwards.
pub proof fn law_orders_mirror_each_other(bytes: Seq<u8>)
    ensures
        ByteOrder::Big.value(bytes) == ByteOrder::Little.value(bytes.reverse()),
    decreases bytes.len(),
{
    if bytes.len() > 0 {
        law_orders_mirror_each_other(bytes.drop_last());
        assert(bytes.reverse().drop_first() =~= bytes.drop_last().reverse());
        assert(bytes.reverse()[0] == bytes.last());
    }
}

/// Eight bytes, read in either order.
pub proof fn law_eight_bytes(a: u8, b: u8, c: u8, d: u8, e: u8, f: u8, g: u8, h: u8)
    ensures
        ByteOrder::Little.value(seq![a, b, c, d, e, f, g, h]) == a + 0x100 * b + 0x1_0000 * c
            + 0x100_0000 * d + 0x1_0000_0000 * e + 0x100_0000_0000 * f + 0x1_0000_0000_0000 * g
            + 0x100_0000_0000_0000 * h,
        ByteOrder::Big.value(seq![a, b, c, d, e, f, g, h]) == h + 0x100 * g + 0x1_0000 * f
            + 0x100_0000 * e + 0x1_0000_0000 * d + 0x100_0000_0000 * c + 0x1_0000_0000_0000 * b
            + 0x100_0000_0000_0000 * a,
{
    let bytes = seq![a, b, c, d, e, f, g, h];
    law_four_bytes(e, f, g, h);
    law_four_bytes(a, b, c, d);
    assert(bytes.drop_first().drop_first().drop_first().drop_first() =~= seq![e, f, g, h]);
    assert(bytes.drop_last().drop_last().drop_last().drop_last() =~= seq![a, b, c, d]);
    reveal_with_fuel(little_endian, 5);
    reveal_with_fuel(big_endian, 5);
}

/// No bytes make the number zero in either order, and a machine that reads one and
/// zero as the number one, and no other, is taken for a little-endian one.
pub proof fn law_probe_tells_the_order(value: Option<u16>)
    ensures
        ByteOrder::Little.value(Seq::empty()) == 0,
        ByteOrder::Big.value(Seq::empty()) == 0,
        probed(value) is Little <==> value == Some(1u16),
        value matches Some(v) && v == ByteOrder::Little.value(seq![1u8, 0u8]) ==> probed(value)
            is Little,
        value matches Some(v) && v == ByteOrder::Big.value(seq![1u8, 0u8]) ==> probed(value) is Big,
{
    law_two_bytes(1, 0);
}

} // verus!
