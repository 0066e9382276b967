//! Random identifiers: version-4 UUIDs from the uuid crate, their textual
//! forms, and the appeal codes of bans derived from them.

use vstd::prelude::*;
use vstd::string::*;

use crate::text::digit_str;

verus! {

/// Calls `uuid::Uuid::new_v4` and hands back its sixteen bytes
/// (`Uuid::into_bytes`, big-endian field order). The bytes are random;
/// the crate fixes the version nibble to 4 and the variant bits to `10`,
/// which is all that is claimed here.
#[verifier::external_body]
pub(crate) fn random_uuid_bytes() -> (b: [u8; 16])
    ensures
        b@.len() == 16,
        b@[6] & 0xF0u8 == 0x40u8,
        b@[8] & 0xC0u8 == 0x80u8,
{
    uuid::Uuid::new_v4().into_bytes()
}

/// Sixteen bytes of a version-4 UUID: version nibble 4 and variant bits `10`.
pub open spec fn is_v4_bytes(b: Seq<u8>) -> bool {
    &&& b.len() == 16
    &&& b[6] & 0xF0u8 == 0x40u8
    &&& b[8] & 0xC0u8 == 0x80u8
}

/// The hexadecimal digit for `n` (meant for `0 <= n < 16`), in lower or upper case.
pub open spec fn hex_char(n: int, upper: bool) -> char {
    if n < 10 {
        (48 + n) as char
    } else if upper {
        (55 + n) as char
    } else {
        (87 + n) as char
    }
}

/// Two hexadecimal digits per byte, most significant nibble first.
pub open spec fn hex_text(b: Seq<u8>, upper: bool) -> Seq<char>
    decreases b.len(),
{
    if b.len() == 0 {
        Seq::empty()
    } else {
        hex_text(b.drop_last(), upper) + seq![
            hex_char((b.last() / 16) as int, upper),
            hex_char((b.last() % 16) as int, upper),
        ]
    }
}

/// The hyphenated form of a UUID, as uuid's `Display` writes it: lowercase
/// hex in groups of 8-4-4-4-12 digits.
pub open spec fn uuid_text(b: Seq<u8>) -> Seq<char> {
    hex_text(b.subrange(0, 4), false) + seq!['-'] + hex_text(b.subrange(4, 6), false) + seq!['-']
        + hex_text(b.subrange(6, 8), false) + seq!['-'] + hex_text(b.subrange(8, 10), false)
        + seq!['-'] + hex_text(b.subrange(10, 16), false)
}

/// The appeal code of a ban: `BAN-` and the first six digits of the UUID's
/// simple form in upper case.
pub open spec fn ban_code(b: Seq<u8>) -> Seq<char> {
    seq!['B', 'A', 'N', '-'] + hex_text(b.subrange(0, 3), true)
}

/// `s` has the form of an appeal code: the code of some sixteen bytes.
pub open spec fn is_appeal_code(s: Seq<char>) -> bool {
    exists|b: Seq<u8>| b.len() == 16 && s == ban_code(b)
}

fn hex_digit(n: u8, upper: bool) -> (r: &'static str)
    requires
        n < 16,
    ensures
        r@ == seq![hex_char(n as int, upper)],
{
    if n < 10 {
        return digit_str(n as u64);
    }
    proof {
        reveal_strlit("a");
        reveal_strlit("b");
        reveal_strlit("c");
        reveal_strlit("d");
        reveal_strlit("e");
        reveal_strlit("f");
        reveal_strlit("A");
        reveal_strlit("B");
        reveal_strlit("C");
        reveal_strlit("D");
        reveal_strlit("E");
        reveal_strlit("F");
    }
    if upper {
        if n == 10 {
            "A"
        } else if n == 11 {
            "B"
        } else if n == 12 {
            "C"
        } else if n == 13 {
            "D"
        } else if n == 14 {
            "E"
        } else {
            "F"
        }
    } else {
        if n == 10 {
            "a"
        } else if n == 11 {
            "b"
        } else if n == 12 {
            "c"
        } else if n == 13 {
            "d"
        } else if n == 14 {
            "e"
        } else {
            "f"
        }
    }
}

/// Appends the hexadecimal digits of `b[from..to]` to `s`.
fn append_hex(s: &mut String, b: &[u8; 16], from: usize, to: usize, upper: bool)
    requires
        from <= to <= 16,
    ensures
        final(s)@ == old(s)@ + hex_text(b@.subrange(from as int, to as int), upper),
{
    let mut i = from;
    while i < to
        invariant
            from <= i <= to <= 16,
            b@.len() == 16,
            s@ == old(s)@ + hex_text(b@.subrange(from as int, i as int), upper),
        decreases to - i,
    {
        let x = b[i];
        s.append(hex_digit(x / 16, upper));
        s.append(hex_digit(x % 16, upper));
        proof {
            let t = b@.subrange(from as int, i + 1);
            assert(t.drop_last() =~= b@.subrange(from as int, i as int));
            assert(t.last() == x);
        }
        i = i + 1;
    }
}

/// The hyphenated text of a UUID.
pub fn format_uuid(b: &[u8; 16]) -> (s: String)
    ensures
        s@ == uuid_text(b@),
{
    let mut s = String::new();
    append_hex(&mut s, b, 0, 4, false);
    s.append("-");
    append_hex(&mut s, b, 4, 6, false);
    s.append("-");
    append_hex(&mut s, b, 6, 8, false);
    s.append("-");
    append_hex(&mut s, b, 8, 10, false);
    s.append("-");
    append_hex(&mut s, b, 10, 16, false);
    proof {
        reveal_strlit("-");
    }
    s
}

/// The appeal code for the UUID `b`.
pub fn format_ban_code(b: &[u8; 16]) -> (s: String)
    ensures
        s@ == ban_code(b@),
{
    let mut s = String::from_str("BAN-");
    append_hex(&mut s, b, 0, 3, true);
    proof {
        reveal_strlit("BAN-");
    }
    s
}

/// A fresh appeal code for a ban: `BAN-` and six upper-case hexadecimal
/// digits of a random UUID.
pub fn generate_ban_id() -> (s: String)
    ensures
        exists|b: Seq<u8>| b.len() == 16 && s@ == ban_code(b),
{
    let b = random_uuid_bytes();
    format_ban_code(&b)
}

/// Distinct digits below sixteen are written differently.
proof fn lemma_hex_char_injective(a: int, c: int)
    requires
        0 <= a < 16,
        0 <= c < 16,
        hex_char(a, true) == hex_char(c, true),
    ensures
        a == c,
{
    assert((hex_char(a, true) as int) == (if a < 10 { 48 + a } else { 55 + a }));
    assert((hex_char(c, true) as int) == (if c < 10 { 48 + c } else { 55 + c }));
}

/// The sixteen bytes behind the `n`-th spare appeal code: `n` in the first
/// three bytes, most significant first, and zeros after.
pub open spec fn spare_code_bytes(n: int) -> Seq<u8> {
    seq![(n / 65536) as u8, ((n / 256) % 256) as u8, (n % 256) as u8] + Seq::new(13, |k: int| 0u8)
}

/// The `n`-th spare appeal code, for when random codes keep coming up taken.
pub fn spare_ban_id(n: u32) -> (s: String)
    requires
        n < 0x1000000,
    ensures
        s@ == ban_code(spare_code_bytes(n as int)),
        is_appeal_code(s@),
{
    let b: [u8; 16] = [
        (n / 65536) as u8,
        ((n / 256) % 256) as u8,
        (n % 256) as u8,
        0u8,
        0u8,
        0u8,
        0u8,
        0u8,
        0u8,
        0u8,
        0u8,
        0u8,
        0u8,
        0u8,
        0u8,
        0u8,
    ];
    proof {
        assert(b@ =~= spare_code_bytes(n as int));
    }
    format_ban_code(&b)
}

/// Spare appeal codes with different numbers below `16^6` differ.
pub proof fn lemma_spare_codes_distinct(i: int, j: int)
    requires
        0 <= i < 0x1000000,
        0 <= j < 0x1000000,
        i != j,
    ensures
        ban_code(spare_code_bytes(i)) != ban_code(spare_code_bytes(j)),
{
    let bi = spare_code_bytes(i).subrange(0, 3);
    let bj = spare_code_bytes(j).subrange(0, 3);
    if ban_code(spare_code_bytes(i)) == ban_code(spare_code_bytes(j)) {
        let ti = hex_text(bi, true);
        let tj = hex_text(bj, true);
        reveal_with_fuel(hex_text, 4);
        assert(bi.drop_last().drop_last().drop_last() =~= Seq::<u8>::empty());
        assert(bj.drop_last().drop_last().drop_last() =~= Seq::<u8>::empty());
        assert(ti.len() == 6 && tj.len() == 6);
        assert(ti =~= ban_code(spare_code_bytes(i)).subrange(4, 10));
        assert(tj =~= ban_code(spare_code_bytes(j)).subrange(4, 10));
        assert forall|k: int| 0 <= k < 3 implies bi[k] == bj[k] by {
            let x = bi[k];
            let y = bj[k];
            assert(ti[2 * k] == hex_char((x / 16) as int, true));
            assert(tj[2 * k] == hex_char((y / 16) as int, true));
            assert(ti[2 * k + 1] == hex_char((x % 16) as int, true));
            assert(tj[2 * k + 1] == hex_char((y % 16) as int, true));
            lemma_hex_char_injective((x / 16) as int, (y / 16) as int);
            lemma_hex_char_injective((x % 16) as int, (y % 16) as int);
        }
        assert(i == 65536 * (i / 65536) + 256 * ((i / 256) % 256) + i % 256);
        assert(j == 65536 * (j / 65536) + 256 * ((j / 256) % 256) + j % 256);
    }
}

} // verus!
