//! Plain text helpers: rendering the notification body template and parsing
//! unsigned decimal numbers from configuration values.

use vstd::prelude::*;

verus! {

/// The placeholder that the body template replaces with the fetched URL.
pub open spec fn placeholder() -> Seq<char> {
    seq!['{', 'u', 'r', 'l', '}']
}

/// The template with every occurrence of the placeholder replaced by `url`,
/// scanning left to right and never rescanning replaced text.
pub open spec fn spec_render(template: Seq<char>, url: Seq<char>) -> Seq<char>
    decreases template.len(),
{
    if template.len() == 0 {
        Seq::empty()
    } else if template.len() >= 5 && template.subrange(0, 5) == placeholder() {
        url + spec_render(template.subrange(5, template.len() as int), url)
    } else {
        seq![template[0]] + spec_render(template.subrange(1, template.len() as int), url)
    }
}

proof fn lemma_render_at_placeholder(t: Seq<char>, u: Seq<char>, i: int)
    requires
        0 <= i,
        i + 5 <= t.len(),
        t.subrange(i, i + 5) == placeholder(),
    ensures
        spec_render(t.skip(i), u) == u + spec_render(t.skip(i + 5), u),
{
    assert(t.skip(i).subrange(0, 5) =~= t.subrange(i, i + 5));
    assert(t.skip(i).subrange(5, t.skip(i).len() as int) =~= t.skip(i + 5));
}

proof fn lemma_render_at_char(t: Seq<char>, u: Seq<char>, i: int)
    requires
        0 <= i < t.len(),
        !(i + 5 <= t.len() && t.subrange(i, i + 5) == placeholder()),
    ensures
        spec_render(t.skip(i), u) == t.subrange(i, i + 1) + spec_render(t.skip(i + 1), u),
{
    if t.skip(i).len() >= 5 {
        assert(t.skip(i).subrange(0, 5) =~= t.subrange(i, i + 5));
    }
    assert(seq![t.skip(i)[0]] =~= t.subrange(i, i + 1));
    assert(t.skip(i).subrange(1, t.skip(i).len() as int) =~= t.skip(i + 1));
}

/// Whether the placeholder occurs in `t` starting at character position `i`.
fn placeholder_at(t: &str, i: usize, n: usize) -> (b: bool)
    requires
        n == t@.len(),
        i < n,
    ensures
        b == (i + 5 <= t@.len() && t@.subrange(i as int, i as int + 5) == placeholder()),
{
    if n - i < 5 {
        return false;
    }
    let b = t.get_char(i) == '{' && t.get_char(i + 1) == 'u' && t.get_char(i + 2) == 'r'
        && t.get_char(i + 3) == 'l' && t.get_char(i + 4) == '}';
    proof {
        if b {
            assert(t@.subrange(i as int, i as int + 5) =~= placeholder());
        } else {
            if t@.subrange(i as int, i as int + 5) == placeholder() {
                assert(t@[i as int] == placeholder()[0]);
                assert(t@[i as int + 1] == placeholder()[1]);
                assert(t@[i as int + 2] == placeholder()[2]);
                assert(t@[i as int + 3] == placeholder()[3]);
                assert(t@[i as int + 4] == placeholder()[4]);
            }
        }
    }
    b
}

/// Renders the notification body: every occurrence of `{url}` in `template`
/// is replaced by `url`.
pub fn render_body(template: &str, url: &str) -> (r: String)
    ensures
        r@ == spec_render(template@, url@),
{
    let n = template.unicode_len();
    let mut r = String::new();
    let mut i: usize = 0;
    proof {
        assert(template@.skip(0) =~= template@);
        assert(r@ + spec_render(template@, url@) =~= spec_render(template@, url@));
    }
    while i < n
        invariant
            n == template@.len(),
            i <= n,
            r@ + spec_render(template@.skip(i as int), url@) == spec_render(template@, url@),
        decreases n - i,
    {
        if placeholder_at(template, i, n) {
            let ghost r0 = r@;
            r.append(url);
            proof {
                lemma_render_at_placeholder(template@, url@, i as int);
                assert(r@ + spec_render(template@.skip(i as int + 5), url@) =~= r0
                    + spec_render(template@.skip(i as int), url@));
            }
            i = i + 5;
        } else {
            let piece = template.substring_char(i, i + 1);
            let ghost r0 = r@;
            r.append(piece);
            proof {
                lemma_render_at_char(template@, url@, i as int);
                assert(r@ + spec_render(template@.skip(i as int + 1), url@) =~= r0
                    + spec_render(template@.skip(i as int), url@));
            }
            i = i + 1;
        }
    }
    proof {
        assert(template@.skip(n as int) =~= Seq::<char>::empty());
        assert(r@ + Seq::<char>::empty() =~= r@);
    }
    r
}

/// Whether `c` is a decimal digit.
pub open spec fn is_dec_digit(c: char) -> bool {
    48 <= c as u32 && c as u32 <= 57
}

/// The value of the decimal digit `c`.
pub open spec fn dec_digit_val(c: char) -> nat {
    (c as u32 - 48) as nat
}

/// Whether every character of `s` is a decimal digit.
pub open spec fn all_dec_digits(s: Seq<char>) -> bool {
    forall|k: int| 0 <= k < s.len() ==> is_dec_digit(#[trigger] s[k])
}

/// The value of `s` read as a decimal numeral.
pub open spec fn dec_val(s: Seq<char>) -> nat
    decreases s.len(),
{
    if s.len() == 0 {
        0
    } else {
        dec_val(s.drop_last()) * 10 + dec_digit_val(s.last())
    }
}

/// `s` with one leading plus sign removed, as unsigned parsing accepts it.
pub open spec fn unsigned_digits(s: Seq<char>) -> Seq<char> {
    if s.len() > 0 && s[0] == '+' {
        s.skip(1)
    } else {
        s
    }
}

/// What parsing `s` as a `u64` yields: the decimal value of the digits after
/// an optional leading plus sign, or nothing when a character is not a digit,
/// no digit is present, or the value does not fit.
pub open spec fn parse_u64_spec(s: Seq<char>) -> Option<u64> {
    let d = unsigned_digits(s);
    if d.len() > 0 && all_dec_digits(d) && dec_val(d) <= u64::MAX {
        Some(dec_val(d) as u64)
    } else {
        None
    }
}

proof fn lemma_dec_val_prefix(s: Seq<char>, i: int)
    requires
        0 <= i <= s.len(),
    ensures
        dec_val(s) >= dec_val(s.take(i)),
    decreases s.len(),
{
    if s.len() > i {
        assert(s.drop_last().take(i) =~= s.take(i));
        lemma_dec_val_prefix(s.drop_last(), i);
    } else {
        assert(s.take(i) =~= s);
    }
}

/// Parses `s` as an unsigned decimal number, accepting exactly what
/// `parse_u64_spec` accepts.
pub fn parse_u64(s: &str) -> (r: Option<u64>)
    ensures
        r == parse_u64_spec(s@),
{
    let n = s.unicode_len();
    if n == 0 {
        return None;
    }
    let start: usize = if s.get_char(0) == '+' {
        1
    } else {
        0
    };
    let ghost d = unsigned_digits(s@);
    proof {
        if start == 0 {
            assert(d =~= s@.skip(0));
        }
    }
    if start == n {
        return None;
    }
    let mut acc: u64 = 0;
    let mut i: usize = start;
    proof {
        assert(d.take(0) =~= Seq::<char>::empty());
    }
    while i < n
        invariant
            n == s@.len(),
            start <= i <= n,
            start < n,
            d == s@.skip(start as int),
            d == unsigned_digits(s@),
            all_dec_digits(d.take(i - start)),
            acc == dec_val(d.take(i - start)),
        decreases n - i,
    {
        let c = s.get_char(i);
        let cv = c as u32;
        if cv < 48 || cv > 57 {
            proof {
                assert(d[i - start] == s@[i as int]);
                assert(!all_dec_digits(d));
            }
            return None;
        }
        let dig = (cv - 48) as u64;
        let ghost p = d.take(i - start);
        proof {
            assert(d.take(i + 1 - start).drop_last() =~= p);
            assert(d.take(i + 1 - start).last() == d[i - start]);
            assert(d[i - start] == s@[i as int]);
            assert(dec_val(d.take(i + 1 - start)) == dec_val(p) * 10 + dec_digit_val(
                s@[i as int],
            ));
        }
        match acc.checked_mul(10) {
            None => {
                proof {
                    assert(dec_val(d.take(i + 1 - start)) > u64::MAX);
                    lemma_dec_val_prefix(d, i + 1 - start);
                }
                return None;
            },
            Some(x) => {
                match x.checked_add(dig) {
                    None => {
                        proof {
                            assert(dec_val(d.take(i + 1 - start)) > u64::MAX);
                            lemma_dec_val_prefix(d, i + 1 - start);
                        }
                        return None;
                    },
                    Some(y) => {
                        acc = y;
                        i = i + 1;
                    },
                }
            },
        }
    }
    proof {
        assert(d.take(n - start) =~= d);
    }
    Some(acc)
}

/// What parsing `s` as a `u16` yields: as for `u64`, further requiring the
/// value to fit in 16 bits.
pub open spec fn parse_u16_spec(s: Seq<char>) -> Option<u16> {
    match parse_u64_spec(s) {
        Some(v) => if v <= u16::MAX {
            Some(v as u16)
        } else {
            None
        },
        None => None,
    }
}

/// Parses `s` as an unsigned 16-bit decimal number.
pub fn parse_u16(s: &str) -> (r: Option<u16>)
    ensures
        r == parse_u16_spec(s@),
{
    match parse_u64(s) {
        Some(v) => if v <= 65535 {
            Some(v as u16)
        } else {
            None
        },
        None => None,
    }
}

} // verus!
