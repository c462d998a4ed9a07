//! Loopback socket address text.
//!
//! The trailing bytes of a rendezvous record are the canonical
//! decimal form of an IPv4 loopback socket address, `127.0.0.1:`
//! followed by the port in decimal with no leading zeros, no sign,
//! and no trailing bytes.  This module holds the address as a plain
//! port number and proves that formatting and parsing are exact
//! inverses.

use vstd::prelude::*;
use vstd::arithmetic::div_mod::lemma_fundamental_div_mod_converse;

verus! {

/// A loopback socket address, `127.0.0.1:<port>`.
#[derive(Clone, Copy, Debug, PartialEq, Eq, Structural)]
pub struct Addr {
    /// The TCP port.
    pub port: u16,
}

/// The bytes of the canonical text prefix, `127.0.0.1:`.
pub open spec fn loopback_prefix() -> Seq<u8> {
    seq![49u8, 50u8, 55u8, 46u8, 48u8, 46u8, 48u8, 46u8, 49u8, 58u8]
}

/// Whether `b` is an ASCII decimal digit.
pub open spec fn is_ascii_digit(b: u8) -> bool {
    48 <= b && b <= 57
}

/// The canonical decimal digits of `n`, most significant first.
pub open spec fn dec_rep(n: nat) -> Seq<u8>
    decreases n,
{
    if n < 10 {
        seq![(48 + n) as u8]
    } else {
        dec_rep(n / 10).push((48 + n % 10) as u8)
    }
}

/// The numeric value of a sequence of ASCII decimal digits.
pub open spec fn digits_val(s: Seq<u8>) -> int
    decreases s.len(),
{
    if s.len() == 0 {
        0
    } else {
        digits_val(s.drop_last()) * 10 + (s.last() - 48)
    }
}

/// Whether `s` is a canonical decimal numeral: non-empty, all
/// digits, and no leading zero except for `0` itself.
pub open spec fn canonical_digits(s: Seq<u8>) -> bool {
    &&& s.len() > 0
    &&& (forall|i: int| 0 <= i < s.len() ==> is_ascii_digit(s[i]))
    &&& (s.len() > 1 ==> s[0] != 48)
}

/// The canonical text of address `a`: `127.0.0.1:` then the port in
/// decimal.
pub open spec fn addr_text(a: Addr) -> Seq<u8> {
    loopback_prefix() + dec_rep(a.port as nat)
}

/// The decimal digits of any number form a canonical numeral with
/// that number as value.
pub proof fn lemma_dec_rep_canonical(n: nat)
    ensures
        canonical_digits(dec_rep(n)),
        digits_val(dec_rep(n)) == n,
    decreases n,
{
    if n < 10 {
        let s = dec_rep(n);
        assert(s =~= seq![(48 + n) as u8]);
        assert(s.drop_last().len() == 0);
        assert(digits_val(s.drop_last()) == 0);
        assert(digits_val(s) == digits_val(s.drop_last()) * 10 + (s.last() - 48));
        assert forall|i: int| 0 <= i < s.len() implies is_ascii_digit(s[i]) by {
            assert(i == 0);
            assert(s[0] == (48 + n) as u8);
        }
    } else {
        lemma_dec_rep_canonical(n / 10);
        let s = dec_rep(n);
        let s0 = dec_rep(n / 10);
        assert(s =~= s0.push((48 + n % 10) as u8));
        assert(s.drop_last() =~= s0);
        assert(s[0] == s0[0]);
        assert forall|i: int| 0 <= i < s.len() implies is_ascii_digit(s[i]) by {
            if i < s0.len() {
                assert(s[i] == s0[i]);
            } else {
                assert(s[i] == (48 + n % 10) as u8);
            }
        }
        assert(n / 10 >= 1) by (nonlinear_arith)
            requires n >= 10;
        if n / 10 < 10 {
            assert(s0 =~= seq![(48 + n / 10) as u8]);
            assert(s0[0] != 48);
        } else {
            lemma_dec_rep_canonical(n / 10 / 10);
            assert(s0 == dec_rep(n / 10 / 10).push((48 + (n / 10) % 10) as u8));
            assert(s0.len() > 1);
            assert(s0[0] != 48);
        }
        assert(digits_val(s) == digits_val(s0) * 10 + (n % 10));
        assert(n / 10 * 10 + n % 10 == n) by {
            vstd::arithmetic::div_mod::lemma_fundamental_div_mod(n as int, 10);
        }
    }
}

/// The value of a digit sequence is never negative.
pub proof fn lemma_digits_val_nonneg(s: Seq<u8>)
    requires
        forall|i: int| 0 <= i < s.len() ==> is_ascii_digit(s[i]),
    ensures
        digits_val(s) >= 0,
    decreases s.len(),
{
    if s.len() > 0 {
        lemma_digits_val_nonneg(s.drop_last());
    }
}

/// A digit sequence that does not start with `0` has value at least
/// one, and at least ten when it has more than one digit.
pub proof fn lemma_digits_val_lower(s: Seq<u8>)
    requires
        s.len() > 0,
        forall|i: int| 0 <= i < s.len() ==> is_ascii_digit(s[i]),
        s[0] != 48,
    ensures
        digits_val(s) >= 1,
        s.len() > 1 ==> digits_val(s) >= 10,
    decreases s.len(),
{
    if s.len() == 1 {
        assert(s.drop_last().len() == 0);
        assert(digits_val(s.drop_last()) == 0);
        assert(digits_val(s) == digits_val(s.drop_last()) * 10 + (s.last() - 48));
        assert(s.last() == s[0]);
    } else {
        lemma_digits_val_lower(s.drop_last());
        assert(digits_val(s) == digits_val(s.drop_last()) * 10 + (s.last() - 48));
    }
}

/// A canonical numeral is the decimal representation of its value.
pub proof fn lemma_canonical_dec_rep(s: Seq<u8>)
    requires
        canonical_digits(s),
    ensures
        digits_val(s) >= 0,
        dec_rep(digits_val(s) as nat) == s,
    decreases s.len(),
{
    lemma_digits_val_nonneg(s);
    let v = digits_val(s);
    if s.len() == 1 {
        assert(s.drop_last().len() == 0);
        assert(digits_val(s.drop_last()) == 0);
        assert(digits_val(s) == digits_val(s.drop_last()) * 10 + (s.last() - 48));
        assert(s.last() == s[0]);
        assert(v == s[0] - 48);
        assert(v < 10);
        assert(dec_rep(v as nat) =~= seq![(48 + v) as u8]);
        assert(dec_rep(v as nat) =~= s);
    } else {
        let s0 = s.drop_last();
        let d = s.last() - 48;
        lemma_canonical_dec_rep(s0);
        lemma_digits_val_lower(s0);
        let v0 = digits_val(s0);
        assert(v == v0 * 10 + d);
        lemma_fundamental_div_mod_converse(v, 10, v0, d);
        assert(v >= 10);
        assert(dec_rep(v as nat) =~= dec_rep(v0 as nat).push((48 + d) as u8));
        assert(dec_rep(v as nat) =~= s);
    }
}

/// Appending digits to a digit sequence never lowers its value.
pub proof fn lemma_digits_val_extend(s: Seq<u8>, k: int)
    requires
        0 <= k <= s.len(),
        forall|i: int| 0 <= i < s.len() ==> is_ascii_digit(s[i]),
    ensures
        digits_val(s) >= digits_val(s.subrange(0, k)),
    decreases s.len() - k,
{
    if k == s.len() {
        assert(s.subrange(0, k) =~= s);
    } else {
        let t = s.drop_last();
        lemma_digits_val_nonneg(t);
        lemma_digits_val_extend(t, k);
        assert(t.subrange(0, k) =~= s.subrange(0, k));
        assert(digits_val(s) == digits_val(t) * 10 + (s.last() - 48));
        lemma_digits_val_nonneg(s.subrange(0, k));
    }
}

/// Two distinct addresses never share their canonical text.
pub proof fn lemma_addr_text_injective(a1: Addr, a2: Addr)
    requires
        addr_text(a1) == addr_text(a2),
    ensures
        a1 == a2,
{
    lemma_dec_rep_canonical(a1.port as nat);
    lemma_dec_rep_canonical(a2.port as nat);
    let t1 = addr_text(a1);
    let t2 = addr_text(a2);
    assert(t1.subrange(10, t1.len() as int) =~= dec_rep(a1.port as nat));
    assert(t2.subrange(10, t2.len() as int) =~= dec_rep(a2.port as nat));
    assert(dec_rep(a1.port as nat) == dec_rep(a2.port as nat));
    assert(digits_val(dec_rep(a1.port as nat)) == digits_val(dec_rep(a2.port as nat)));
}

/// Whether the first ten bytes are `127.0.0.1:`.
fn has_loopback_prefix(bytes: &[u8]) -> (r: bool)
    requires
        bytes@.len() >= 10,
    ensures
        r == (bytes@.subrange(0, 10) == loopback_prefix()),
{
    let r = bytes[0] == 49 && bytes[1] == 50 && bytes[2] == 55 && bytes[3] == 46
        && bytes[4] == 48 && bytes[5] == 46 && bytes[6] == 48 && bytes[7] == 46
        && bytes[8] == 49 && bytes[9] == 58;
    proof {
        let s = bytes@.subrange(0, 10);
        if r {
            assert(s =~= loopback_prefix());
        }
        if s == loopback_prefix() {
            assert(bytes@[0] == s[0]);
            assert(bytes@[1] == s[1]);
            assert(bytes@[2] == s[2]);
            assert(bytes@[3] == s[3]);
            assert(bytes@[4] == s[4]);
            assert(bytes@[5] == s[5]);
            assert(bytes@[6] == s[6]);
            assert(bytes@[7] == s[7]);
            assert(bytes@[8] == s[8]);
            assert(bytes@[9] == s[9]);
        }
    }
    r
}

/// Writes the decimal digits of `n` onto `out`.
fn push_dec(n: u16, out: &mut Vec<u8>)
    ensures
        final(out)@ == old(out)@ + dec_rep(n as nat),
    decreases n,
{
    if n < 10 {
        out.push(48 + n as u8);
        assert(final(out)@ =~= old(out)@ + dec_rep(n as nat));
    } else {
        push_dec(n / 10, out);
        out.push(48 + (n % 10) as u8);
        assert(final(out)@ =~= old(out)@ + dec_rep(n as nat));
    }
}

impl Addr {
    /// The canonical text of this address, `127.0.0.1:<port>`.
    pub fn format(&self) -> (r: Vec<u8>)
        ensures
            r@ == addr_text(*self),
    {
        let mut r: Vec<u8> = Vec::new();
        r.push(49);
        r.push(50);
        r.push(55);
        r.push(46);
        r.push(48);
        r.push(46);
        r.push(48);
        r.push(46);
        r.push(49);
        r.push(58);
        assert(r@ =~= loopback_prefix());
        push_dec(self.port, &mut r);
        r
    }

    /// Parses canonical loopback address text.
    ///
    /// Returns the address exactly when `bytes` is `127.0.0.1:`
    /// followed by a canonical decimal port, and `None` for every
    /// other byte string.
    pub fn parse(bytes: &[u8]) -> (r: Option<Addr>)
        ensures
            r matches Some(a) ==> bytes@ == addr_text(a),
            r is None ==> forall|a: Addr| bytes@ != addr_text(a),
    {
        proof {
            assert forall|a: Addr| #[trigger] addr_text(a).len() >= 11 by {
                lemma_dec_rep_canonical(a.port as nat);
            }
        }
        if bytes.len() < 11 {
            return None;
        }
        if !has_loopback_prefix(bytes) {
            proof {
                assert forall|a: Addr| bytes@ != addr_text(a) by {
                    if bytes@ == addr_text(a) {
                        assert(bytes@.subrange(0, 10) =~= loopback_prefix());
                    }
                }
            }
            return None;
        }
        let ghost digits_all = bytes@.subrange(10, bytes@.len() as int);
        proof {
            assert forall|a: Addr| bytes@ == addr_text(a) implies digits_all == dec_rep(
                a.port as nat,
            ) by {
                assert(digits_all =~= dec_rep(a.port as nat));
            }
        }
        if bytes.len() > 11 && bytes[10] == 48 {
            proof {
                assert forall|a: Addr| bytes@ != addr_text(a) by {
                    if bytes@ == addr_text(a) {
                        lemma_dec_rep_canonical(a.port as nat);
                        assert(digits_all[0] == 48);
                    }
                }
            }
            return None;
        }
        let mut val: u32 = 0;
        let mut i: usize = 10;
        while i < bytes.len()
            invariant
                10 <= i <= bytes@.len(),
                11 <= bytes@.len(),
                digits_all == bytes@.subrange(10, bytes@.len() as int),
                forall|k: int| 10 <= k < i ==> is_ascii_digit(bytes@[k]),
                val <= 65535,
                val == digits_val(bytes@.subrange(10, i as int)),
            decreases bytes@.len() - i,
        {
            let d = bytes[i];
            if d < 48 || d > 57 {
                proof {
                    assert forall|a: Addr| bytes@ != addr_text(a) by {
                        if bytes@ == addr_text(a) {
                            lemma_dec_rep_canonical(a.port as nat);
                            assert(digits_all[i - 10] == bytes@[i as int]);
                        }
                    }
                }
                return None;
            }
            proof {
                let pre = bytes@.subrange(10, i as int);
                let cur = bytes@.subrange(10, i + 1 as int);
                assert(cur.drop_last() =~= pre);
                assert(cur.last() == bytes@[i as int]);
            }
            val = val * 10 + (d - 48) as u32;
            i = i + 1;
            proof {
                let cur = bytes@.subrange(10, i as int);
                assert(digits_val(cur) == digits_val(cur.drop_last()) * 10 + (cur.last() - 48));
            }
            if val > 65535 {
                proof {
                    assert forall|a: Addr| bytes@ != addr_text(a) by {
                        if bytes@ == addr_text(a) {
                            lemma_dec_rep_canonical(a.port as nat);
                            assert(digits_all == dec_rep(a.port as nat));
                            assert(forall|k: int|
                                0 <= k < digits_all.len() ==> is_ascii_digit(digits_all[k]));
                            assert(bytes@.subrange(10, i as int) =~= digits_all.subrange(
                                0,
                                i - 10,
                            ));
                            lemma_digits_val_extend(digits_all, i - 10);
                            assert(digits_val(digits_all) >= val);
                            assert(digits_val(digits_all) == a.port);
                        }
                    }
                }
                return None;
            }
        }
        proof {
            assert(bytes@.subrange(10, i as int) =~= digits_all);
            assert(canonical_digits(digits_all));
            lemma_canonical_dec_rep(digits_all);
            assert(bytes@ =~= loopback_prefix() + digits_all);
        }
        Some(Addr { port: val as u16 })
    }
}

} // verus!
