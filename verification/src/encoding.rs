//! Numbers as bytes, least significant byte first: the form in which records
//! keep their integers and in which a ticket's number keys its address.

use vstd::prelude::*;

verus! {

/// The number that `bytes` spell with the least significant byte first.
pub open spec fn little_endian(bytes: Seq<u8>) -> nat
    decreases bytes.len(),
{
    if bytes.len() == 0 {
        0
    } else {
        bytes[0] as nat + 256 * little_endian(bytes.drop_first())
    }
}

/// Two runs of bytes of one length that spell the same number are the same
/// bytes: a number has one spelling of a given length.
pub proof fn lemma_little_endian_is_injective(a: Seq<u8>, b: Seq<u8>)
    requires
        a.len() == b.len(),
        little_endian(a) == little_endian(b),
    ensures
        a == b,
    decreases a.len(),
{
    if a.len() == 0 {
        assert(a =~= b);
    } else {
        let x = little_endian(a.drop_first());
        let y = little_endian(b.drop_first());
        assert(a[0] as nat + 256 * x == b[0] as nat + 256 * y);
        assert(a[0] == b[0] && x == y) by (nonlinear_arith)
            requires
                a[0] as nat + 256 * x == b[0] as nat + 256 * y,
                a[0] < 256,
                b[0] < 256,
        ;
        lemma_little_endian_is_injective(a.drop_first(), b.drop_first());
        assert(a =~= seq![a[0]] + a.drop_first());
        assert(b =~= seq![b[0]] + b.drop_first());
    }
}

/// The eight bytes that key the address of the ticket with the given number:
/// the number itself, least significant byte first.
pub fn ticket_seed(number: u64) -> (seed: [u8; 8])
    ensures
        little_endian(seed@) == number,
{
    let mut seed = [0u8; 8];
    let mut rest: u64 = number;
    let mut place: usize = 0;
    proof {
        assert(seed@.subrange(0, 0) =~= Seq::<u8>::empty());
        assert(little_endian(seed@.subrange(0, 0)) == 0);
        assert(rest * pow256(0) == rest) by (nonlinear_arith)
            requires
                pow256(0) == 1,
        ;
    }
    while place < 8
        invariant
            place <= 8,
            number == little_endian(seed@.subrange(0, place as int)) + rest * pow256(place as nat),
        decreases 8 - place,
    {
        let byte = (rest % 256) as u8;
        let ghost written = seed@.subrange(0, place as int);
        proof {
            lemma_little_endian_push(written, byte);
            let lower = little_endian(written);
            let p = pow256(place as nat);
            assert(pow256((place + 1) as nat) == 256 * p);
            assert(lower + rest * p == lower + byte * p + (rest / 256) * (256 * p))
                by (nonlinear_arith)
                requires
                    byte == rest % 256,
            ;
        }
        seed[place] = byte;
        proof {
            assert(seed@.subrange(0, place + 1) =~= written.push(byte));
        }
        rest = rest / 256;
        place += 1;
    }
    proof {
        assert(seed@.subrange(0, 8) =~= seed@);
        lemma_little_endian_bound(seed@);
        lemma_pow256_8();
        let lower = little_endian(seed@);
        assert(rest == 0) by (nonlinear_arith)
            requires
                number == lower + rest * 0x1_0000_0000_0000_0000,
                number < 0x1_0000_0000_0000_0000,
                lower >= 0,
                rest >= 0,
        ;
    }
    seed
}

/// The weight of the byte at position `n`: 256 to the power `n`.
pub open spec fn pow256(n: nat) -> nat
    decreases n,
{
    if n == 0 {
        1
    } else {
        256 * pow256((n - 1) as nat)
    }
}

proof fn lemma_pow256_8()
    ensures
        pow256(8) == 0x1_0000_0000_0000_0000,
{
    reveal_with_fuel(pow256, 9);
}

/// A byte appended to a run of bytes adds its value at the weight of its
/// position.
proof fn lemma_little_endian_push(bytes: Seq<u8>, byte: u8)
    ensures
        little_endian(bytes.push(byte)) == little_endian(bytes) + byte * pow256(bytes.len()),
    decreases bytes.len(),
{
    let longer = bytes.push(byte);
    if bytes.len() == 0 {
        assert(longer.drop_first() =~= Seq::<u8>::empty());
        assert(little_endian(longer.drop_first()) == 0);
        assert(longer[0] == byte);
        assert(byte * pow256(0) == byte) by (nonlinear_arith)
            requires
                pow256(0) == 1,
        ;
    } else {
        assert(longer.drop_first() =~= bytes.drop_first().push(byte));
        assert(longer[0] == bytes[0]);
        lemma_little_endian_push(bytes.drop_first(), byte);
        let p = pow256((bytes.len() - 1) as nat);
        let upper = little_endian(bytes.drop_first());
        assert(pow256(bytes.len()) == 256 * p);
        assert(256 * (upper + byte * p) == 256 * upper + byte * (256 * p)) by (nonlinear_arith);
    }
}

/// A run of bytes spells a number below the weight of the position after it.
proof fn lemma_little_endian_bound(bytes: Seq<u8>)
    ensures
        little_endian(bytes) < pow256(bytes.len()),
    decreases bytes.len(),
{
    if bytes.len() > 0 {
        lemma_little_endian_bound(bytes.drop_first());
    }
}

} // verus!
