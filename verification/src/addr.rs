//! The address codec: the three wire address forms, decoded to text.
//!
//! An IPv4 address arrives as four bytes and becomes dotted-decimal text; an
//! IPv6 address arrives as sixteen bytes and becomes eight colon-separated
//! four-digit hex groups in brackets, without zero compression; a domain
//! name arrives length-prefixed and is decoded as UTF-8 with lossy
//! substitution, so decoding never fails.

use vstd::prelude::*;

verus! {

/// True when every byte is ASCII.
pub open spec fn all_ascii(bytes: Seq<u8>) -> bool {
    forall|i: int| 0 <= i < bytes.len() ==> bytes[i] < 0x80
}

/// The characters that a sequence of ASCII bytes spells.
pub open spec fn ascii_chars(bytes: Seq<u8>) -> Seq<char> {
    bytes.map_values(|b: u8| b as char)
}

/// The ASCII byte of one decimal digit value.
pub open spec fn dec_digit(n: u8) -> u8
    recommends
        n < 10,
{
    (48 + n) as u8
}

/// The ASCII byte of one lowercase hex digit value.
pub open spec fn hex_digit(n: u8) -> u8
    recommends
        n < 16,
{
    if n < 10 {
        (48 + n) as u8
    } else {
        (87 + n) as u8
    }
}

/// The decimal ASCII text of one byte, without leading zeroes.
pub open spec fn spec_u8_dec(n: u8) -> Seq<u8> {
    if n < 10 {
        seq![dec_digit(n)]
    } else if n < 100 {
        seq![dec_digit(n / 10), dec_digit(n % 10)]
    } else {
        seq![dec_digit(n / 100), dec_digit((n / 10) % 10), dec_digit(n % 10)]
    }
}

/// The dotted-decimal ASCII text of four IPv4 address bytes.
pub open spec fn spec_ipv4_ascii(a: Seq<u8>) -> Seq<u8>
    recommends
        a.len() == 4,
{
    spec_u8_dec(a[0]) + seq![46u8] + spec_u8_dec(a[1]) + seq![46u8] + spec_u8_dec(a[2])
        + seq![46u8] + spec_u8_dec(a[3])
}

/// The four hex ASCII bytes of one 16-bit group, given as its two bytes.
pub open spec fn spec_hex_group(hi: u8, lo: u8) -> Seq<u8> {
    seq![hex_digit(hi / 16), hex_digit(hi % 16), hex_digit(lo / 16), hex_digit(lo % 16)]
}

/// The first `k` colon-separated hex groups of an IPv6 address.
pub open spec fn spec_ipv6_groups(a: Seq<u8>, k: int) -> Seq<u8>
    recommends
        a.len() == 16,
        0 <= k <= 8,
    decreases k,
{
    if k <= 0 {
        Seq::empty()
    } else if k == 1 {
        spec_hex_group(a[0], a[1])
    } else {
        spec_ipv6_groups(a, k - 1) + seq![58u8] + spec_hex_group(a[2 * (k - 1)], a[2 * (k - 1)
            + 1])
    }
}

/// The bracketed ASCII text of sixteen IPv6 address bytes.
pub open spec fn spec_ipv6_ascii(a: Seq<u8>) -> Seq<u8>
    recommends
        a.len() == 16,
{
    seq![91u8] + spec_ipv6_groups(a, 8) + seq![93u8]
}

/// The text an IPv4 address decodes to.
pub open spec fn spec_ipv4_text(a: Seq<u8>) -> Seq<char>
    recommends
        a.len() == 4,
{
    ascii_chars(spec_ipv4_ascii(a))
}

/// The text an IPv6 address decodes to.
pub open spec fn spec_ipv6_text(a: Seq<u8>) -> Seq<char>
    recommends
        a.len() == 16,
{
    ascii_chars(spec_ipv6_ascii(a))
}

/// What `String::from_utf8_lossy` yields on a byte sequence.
pub uninterp spec fn lossy_text(bytes: Seq<u8>) -> Seq<char>;

/// Relies on `String::from_utf8_lossy`: the result depends on the bytes
/// alone (invalid sequences become replacement characters), and all-ASCII
/// bytes are valid UTF-8, so they decode to themselves.
#[verifier::external_body]
fn utf8_lossy(bytes: &Vec<u8>) -> (r: String)
    ensures
        r@ == lossy_text(bytes@),
        all_ascii(bytes@) ==> r@ == ascii_chars(bytes@),
{
    String::from_utf8_lossy(bytes).into_owned()
}

/// Appends the decimal text of one byte.
fn push_u8_dec(out: &mut Vec<u8>, n: u8)
    ensures
        final(out)@ == old(out)@ + spec_u8_dec(n),
{
    if n < 10 {
        out.push(48 + n);
        proof {
            assert(out@ =~= old(out)@ + spec_u8_dec(n));
        }
    } else if n < 100 {
        out.push(48 + n / 10);
        out.push(48 + n % 10);
        proof {
            assert(out@ =~= old(out)@ + spec_u8_dec(n));
        }
    } else {
        out.push(48 + n / 100);
        out.push(48 + (n / 10) % 10);
        out.push(48 + n % 10);
        proof {
            assert(out@ =~= old(out)@ + spec_u8_dec(n));
        }
    }
}

/// Appends the four hex digits of one 16-bit group.
fn push_hex_group(out: &mut Vec<u8>, hi: u8, lo: u8)
    ensures
        final(out)@ == old(out)@ + spec_hex_group(hi, lo),
{
    out.push(hex_digit_byte(hi / 16));
    out.push(hex_digit_byte(hi % 16));
    out.push(hex_digit_byte(lo / 16));
    out.push(hex_digit_byte(lo % 16));
    proof {
        assert(out@ =~= old(out)@ + spec_hex_group(hi, lo));
    }
}

/// The executable form of one hex digit.
fn hex_digit_byte(n: u8) -> (r: u8)
    requires
        n < 16,
    ensures
        r == hex_digit(n),
{
    if n < 10 {
        48 + n
    } else {
        87 + n
    }
}

/// Every byte of a decimal rendering is ASCII.
proof fn lemma_u8_dec_ascii(n: u8)
    ensures
        all_ascii(spec_u8_dec(n)),
{
    let s = spec_u8_dec(n);
    assert forall|i: int| 0 <= i < s.len() implies s[i] < 0x80 by {
        if n < 10 {
            assert(s[i] == dec_digit(n));
        } else if n < 100 {
            assert(i == 0 || i == 1);
        } else {
            assert(i == 0 || i == 1 || i == 2);
        }
    }
}

/// Every byte of a hex group is ASCII.
proof fn lemma_hex_group_ascii(hi: u8, lo: u8)
    ensures
        all_ascii(spec_hex_group(hi, lo)),
{
    let s = spec_hex_group(hi, lo);
    assert forall|i: int| 0 <= i < s.len() implies s[i] < 0x80 by {
        assert(i == 0 || i == 1 || i == 2 || i == 3);
    }
}

/// ASCII survives concatenation, in both directions.
proof fn lemma_all_ascii_concat(s: Seq<u8>, t: Seq<u8>)
    ensures
        all_ascii(s + t) == (all_ascii(s) && all_ascii(t)),
{
    if all_ascii(s) && all_ascii(t) {
        assert forall|i: int| 0 <= i < (s + t).len() implies (s + t)[i] < 0x80 by {
            if i < s.len() {
                assert((s + t)[i] == s[i]);
            } else {
                assert((s + t)[i] == t[i - s.len()]);
            }
        }
    }
    if all_ascii(s + t) {
        assert forall|i: int| 0 <= i < s.len() implies s[i] < 0x80 by {
            assert(s[i] == (s + t)[i]);
        }
        assert forall|i: int| 0 <= i < t.len() implies t[i] < 0x80 by {
            assert(t[i] == (s + t)[i + s.len()]);
        }
    }
}

/// Every byte of the dotted-decimal text is ASCII.
proof fn lemma_ipv4_ascii(a: Seq<u8>)
    requires
        a.len() == 4,
    ensures
        all_ascii(spec_ipv4_ascii(a)),
{
    lemma_u8_dec_ascii(a[0]);
    lemma_u8_dec_ascii(a[1]);
    lemma_u8_dec_ascii(a[2]);
    lemma_u8_dec_ascii(a[3]);
    let dot = seq![46u8];
    assert(all_ascii(dot)) by {
        assert(dot[0] == 46u8);
    }
    lemma_all_ascii_concat(spec_u8_dec(a[0]), dot);
    lemma_all_ascii_concat(spec_u8_dec(a[0]) + dot, spec_u8_dec(a[1]));
    lemma_all_ascii_concat(spec_u8_dec(a[0]) + dot + spec_u8_dec(a[1]), dot);
    lemma_all_ascii_concat(spec_u8_dec(a[0]) + dot + spec_u8_dec(a[1]) + dot, spec_u8_dec(a[2]));
    lemma_all_ascii_concat(
        spec_u8_dec(a[0]) + dot + spec_u8_dec(a[1]) + dot + spec_u8_dec(a[2]),
        dot,
    );
    lemma_all_ascii_concat(
        spec_u8_dec(a[0]) + dot + spec_u8_dec(a[1]) + dot + spec_u8_dec(a[2]) + dot,
        spec_u8_dec(a[3]),
    );
}

/// Every byte of the first `k` hex groups is ASCII.
proof fn lemma_ipv6_groups_ascii(a: Seq<u8>, k: int)
    requires
        a.len() == 16,
        0 <= k <= 8,
    ensures
        all_ascii(spec_ipv6_groups(a, k)),
    decreases k,
{
    if k <= 0 {
    } else if k == 1 {
        lemma_hex_group_ascii(a[0], a[1]);
    } else {
        lemma_ipv6_groups_ascii(a, k - 1);
        let colon = seq![58u8];
        assert(all_ascii(colon)) by {
            assert(colon[0] == 58u8);
        }
        lemma_hex_group_ascii(a[2 * (k - 1)], a[2 * (k - 1) + 1]);
        lemma_all_ascii_concat(spec_ipv6_groups(a, k - 1), colon);
        lemma_all_ascii_concat(
            spec_ipv6_groups(a, k - 1) + colon,
            spec_hex_group(a[2 * (k - 1)], a[2 * (k - 1) + 1]),
        );
    }
}

/// Decodes four IPv4 address bytes to dotted-decimal text.
pub fn decode_ipv4(a: &Vec<u8>) -> (r: String)
    requires
        a@.len() == 4,
    ensures
        r@ == spec_ipv4_text(a@),
{
    let mut out: Vec<u8> = Vec::new();
    push_u8_dec(&mut out, a[0]);
    out.push(46);
    push_u8_dec(&mut out, a[1]);
    out.push(46);
    push_u8_dec(&mut out, a[2]);
    out.push(46);
    push_u8_dec(&mut out, a[3]);
    proof {
        assert(out@ =~= spec_ipv4_ascii(a@));
        lemma_ipv4_ascii(a@);
    }
    utf8_lossy(&out)
}

/// Decodes sixteen IPv6 address bytes to bracketed hex-group text.
pub fn decode_ipv6(a: &Vec<u8>) -> (r: String)
    requires
        a@.len() == 16,
    ensures
        r@ == spec_ipv6_text(a@),
{
    let mut out: Vec<u8> = Vec::new();
    out.push(91);
    let mut k: usize = 0;
    while k < 8
        invariant
            a@.len() == 16,
            k <= 8,
            out@ == seq![91u8] + spec_ipv6_groups(a@, k as int),
        decreases 8 - k,
    {
        if k > 0 {
            out.push(58);
        }
        push_hex_group(&mut out, a[2 * k], a[2 * k + 1]);
        proof {
            assert(out@ =~= seq![91u8] + spec_ipv6_groups(a@, k as int + 1));
        }
        k = k + 1;
    }
    out.push(93);
    proof {
        assert(out@ =~= spec_ipv6_ascii(a@));
        lemma_ipv6_groups_ascii(a@, 8);
        let open = seq![91u8];
        let close = seq![93u8];
        assert(all_ascii(open)) by {
            assert(open[0] == 91u8);
        }
        assert(all_ascii(close)) by {
            assert(close[0] == 93u8);
        }
        lemma_all_ascii_concat(open, spec_ipv6_groups(a@, 8));
        lemma_all_ascii_concat(open + spec_ipv6_groups(a@, 8), close);
    }
    utf8_lossy(&out)
}

/// Decodes the bytes of a domain name as UTF-8, substituting the
/// replacement character for invalid sequences; decoding never fails, and
/// all-ASCII bytes decode to themselves.
pub fn decode_domain(bytes: &Vec<u8>) -> (r: String)
    ensures
        r@ == lossy_text(bytes@),
        all_ascii(bytes@) ==> r@ == ascii_chars(bytes@),
{
    utf8_lossy(bytes)
}

} // verus!
