//! Small verified text utilities the handlers are built from.

use vstd::prelude::*;
use vstd::seq_lib::*;

verus! {

/// Relies on String::push: appends the character to the end of the string.
#[verifier::external_body]
pub(crate) fn push_char(s: &mut String, c: char)
    ensures
        final(s)@ == old(s)@.push(c),
{
    s.push(c);
}

/// Text equality, stated over the views.
pub fn str_equal(a: &str, b: &str) -> (r: bool)
    ensures
        r == (a@ == b@),
{
    let sa = String::from_str(a);
    let sb = String::from_str(b);
    sa == sb
}

/// Whether `prefix` is a prefix of `s`.
pub fn str_starts_with(s: &str, prefix: &str) -> (r: bool)
    ensures
        r == prefix@.is_prefix_of(s@),
{
    let pn = prefix.unicode_len();
    let sn = s.unicode_len();
    if pn > sn {
        return false;
    }
    let mut i: usize = 0;
    while i < pn
        invariant
            i <= pn,
            pn == prefix@.len(),
            sn == s@.len(),
            pn <= sn,
            forall|k: int| 0 <= k < i ==> s@[k] == prefix@[k],
        decreases pn - i,
    {
        if s.get_char(i) != prefix.get_char(i) {
            assert(!prefix@.is_prefix_of(s@)) by {
                assert(s@.subrange(0, pn as int)[i as int] == s@[i as int]);
            }
            return false;
        }
        i = i + 1;
    }
    assert(prefix@ =~= s@.subrange(0, pn as int));
    true
}

/// A decimal digit.
pub open spec fn spec_is_digit(c: char) -> bool {
    48 <= c as u32 && c as u32 <= 57
}

/// The value of a decimal digit.
pub open spec fn spec_digit_val(c: char) -> int {
    c as u32 - 48
}

/// Whether every character of `s` is a decimal digit.
pub open spec fn spec_all_digits(s: Seq<char>) -> bool {
    forall|i: int| 0 <= i < s.len() ==> spec_is_digit(#[trigger] s[i])
}

/// The value of a digit string, most significant digit first.
pub open spec fn spec_digits_val(s: Seq<char>) -> int
    decreases s.len(),
{
    if s.len() == 0 {
        0
    } else {
        spec_digits_val(s.drop_last()) * 10 + spec_digit_val(s.last())
    }
}

/// The digits of a decimal text: everything after an optional leading `+`.
pub open spec fn spec_num_body(s: Seq<char>) -> Seq<char> {
    if s.len() > 0 && s[0] == '+' {
        s.drop_first()
    } else {
        s
    }
}

/// What `str::parse::<u32>` yields: an optional leading `+`, then one or
/// more digits whose value fits.
pub open spec fn spec_parse_u32(s: Seq<char>) -> Option<u32> {
    let body = spec_num_body(s);
    if body.len() > 0 && spec_all_digits(body) && spec_digits_val(body) <= u32::MAX {
        Some(spec_digits_val(body) as u32)
    } else {
        None
    }
}

/// The value of a digit string is no less than the value of any prefix,
/// and never negative.
proof fn lemma_digits_val_prefix(s: Seq<char>, m: int)
    requires
        spec_all_digits(s),
        0 <= m <= s.len(),
    ensures
        0 <= spec_digits_val(s.take(m)),
        spec_digits_val(s.take(m)) <= spec_digits_val(s),
    decreases s.len(),
{
    if s.len() == 0 {
        assert(s.take(m) =~= s);
    } else if m == s.len() {
        assert(s.take(m) =~= s);
        assert(s.drop_last().take(s.len() - 1) =~= s.drop_last());
        lemma_digits_val_prefix(s.drop_last(), s.len() - 1);
        assert(spec_digit_val(s.last()) >= 0);
    } else {
        assert(s.take(m) =~= s.drop_last().take(m));
        lemma_digits_val_prefix(s.drop_last(), m);
        assert(spec_digits_val(s) == spec_digits_val(s.drop_last()) * 10 + spec_digit_val(
            s.last(),
        ));
        assert(spec_digit_val(s.last()) >= 0);
        assert(spec_digits_val(s.drop_last()) <= spec_digits_val(s.drop_last()) * 10);
    }
}

/// Parses a decimal `u32` exactly as the standard parser does: an
/// optional leading `+`, then digits; fails on anything else and on
/// overflow.
pub fn parse_u32(s: &str) -> (r: Option<u32>)
    ensures
        r == spec_parse_u32(s@),
{
    let n = s.unicode_len();
    let start: usize = if n > 0 && s.get_char(0) == '+' {
        1
    } else {
        0
    };
    let ghost body: Seq<char> = spec_num_body(s@);
    assert(body.len() == n - start);
    assert(forall|k: int| 0 <= k < body.len() ==> body[k] == s@[k + start]);
    if start >= n {
        return None;
    }
    let mut acc: u32 = 0;
    let mut i: usize = start;
    while i < n
        invariant
            start <= i <= n,
            n == s@.len(),
            start < n,
            body == spec_num_body(s@),
            body.len() == n - start,
            forall|k: int| 0 <= k < body.len() ==> body[k] == s@[k + start],
            forall|k: int| 0 <= k < i - start ==> spec_is_digit(#[trigger] body[k]),
            acc == spec_digits_val(body.take(i - start)),
        decreases n - i,
    {
        let c = s.get_char(i);
        let cv = c as u32;
        if cv < 48 || cv > 57 {
            assert(!spec_is_digit(body[i - start]));
            return None;
        }
        let d: u32 = cv - 48;
        let wide: u64 = (acc as u64) * 10 + (d as u64);
        proof {
            assert(body.take(i - start + 1).drop_last() =~= body.take(i - start));
            assert(body.take(i - start + 1).last() == body[i - start]);
            assert(spec_digits_val(body.take(i - start + 1)) == wide);
        }
        if wide > 0xffff_ffffu64 {
            proof {
                if spec_all_digits(body) {
                    lemma_digits_val_prefix(body, i - start + 1);
                }
            }
            return None;
        }
        acc = wide as u32;
        i = i + 1;
    }
    proof {
        assert(body.take(n - start) =~= body);
    }
    Some(acc)
}

/// The value a segment contributes to a batch of identifiers: its parse,
/// defaulted to zero when it fails.
pub open spec fn spec_parse_or_zero(s: Seq<char>) -> u32 {
    match spec_parse_u32(s) {
        Some(v) => v,
        None => 0,
    }
}

/// The segments of `s` between commas, in order; always at least one.
pub open spec fn spec_split(s: Seq<char>) -> Seq<Seq<char>>
    decreases s.len(),
{
    if s.len() == 0 {
        seq![Seq::<char>::empty()]
    } else if s[0] == ',' {
        seq![Seq::<char>::empty()] + spec_split(s.drop_first())
    } else {
        let rest = spec_split(s.drop_first());
        seq![seq![s[0]] + rest[0]] + rest.drop_first()
    }
}

/// The views of a vector of texts.
pub open spec fn views_of(v: Seq<String>) -> Seq<Seq<char>> {
    v.map_values(|t: String| t@)
}

/// A split always yields at least one segment.
proof fn lemma_split_nonempty(s: Seq<char>)
    ensures
        spec_split(s).len() >= 1,
    decreases s.len(),
{
    if s.len() > 0 {
        lemma_split_nonempty(s.drop_first());
    }
}

/// Splits a text on commas.
pub fn split_commas(s: &str) -> (r: Vec<String>)
    ensures
        views_of(r@) == spec_split(s@),
{
    let n = s.unicode_len();
    let mut out: Vec<String> = Vec::new();
    let mut cur: String = String::new();
    let mut i: usize = 0;
    proof {
        lemma_split_nonempty(s@);
        assert(s@.skip(0) =~= s@);
        assert(views_of(out@) =~= Seq::<Seq<char>>::empty());
        assert(cur@ + spec_split(s@)[0] =~= spec_split(s@)[0]);
        assert(spec_split(s@) =~= seq![spec_split(s@)[0]] + spec_split(s@).drop_first());
    }
    while i < n
        invariant
            i <= n,
            n == s@.len(),
            spec_split(s@) =~= views_of(out@) + seq![cur@ + spec_split(s@.skip(i as int))[0]]
                + spec_split(s@.skip(i as int)).drop_first(),
        decreases n - i,
    {
        proof {
            lemma_split_nonempty(s@.skip(i + 1));
            assert(s@.skip(i as int).drop_first() =~= s@.skip(i + 1));
        }
        let c = s.get_char(i);
        if c == ',' {
            let done = cur;
            cur = String::new();
            proof {
                assert(done@ + spec_split(s@.skip(i as int))[0] =~= done@);
                assert(views_of(out@ + seq![done]) =~= views_of(out@) + seq![done@]);
            }
            out.push(done);
        } else {
            proof {
                let rest = spec_split(s@.skip(i + 1));
                assert(spec_split(s@.skip(i as int))[0] =~= seq![s@[i as int]] + rest[0]);
                assert(cur@ + spec_split(s@.skip(i as int))[0] =~= cur@.push(s@[i as int])
                    + rest[0]);
            }
            push_char(&mut cur, c);
        }
        i = i + 1;
    }
    proof {
        assert(s@.skip(n as int) =~= Seq::<char>::empty());
        assert(cur@ + spec_split(s@.skip(n as int))[0] =~= cur@);
        assert(views_of(out@ + seq![cur]) =~= views_of(out@) + seq![cur@]);
    }
    let last = cur;
    out.push(last);
    assert(views_of(out@) =~= spec_split(s@));
    out
}

/// The identifiers named by a comma-separated list, unparsable segments
/// counting as zero.
pub open spec fn spec_ids(s: Seq<char>) -> Seq<u32> {
    spec_split(s).map_values(|seg| spec_parse_or_zero(seg))
}

/// Splits a comma-separated list of identifiers, each segment parsed as
/// the batch endpoints do: unparsable segments count as zero.
pub fn parse_ids(s: &str) -> (r: Vec<u32>)
    ensures
        r@ == spec_ids(s@),
{
    let segs = split_commas(s);
    let mut out: Vec<u32> = Vec::new();
    let mut i: usize = 0;
    while i < segs.len()
        invariant
            i <= segs@.len(),
            views_of(segs@) == spec_split(s@),
            out@ =~= spec_ids(s@).take(i as int),
        decreases segs@.len() - i,
    {
        let v = match parse_u32(segs[i].as_str()) {
            Some(v) => v,
            None => 0,
        };
        proof {
            assert(spec_split(s@)[i as int] == views_of(segs@)[i as int]);
            assert(views_of(segs@)[i as int] == segs@[i as int]@);
            assert(spec_ids(s@)[i as int] == spec_parse_or_zero(spec_split(s@)[i as int]));
        }
        out.push(v);
        i = i + 1;
    }
    assert(out@ =~= spec_ids(s@));
    out
}

/// Whether some character of `s` is a dot.
pub open spec fn spec_has_dot(s: Seq<char>) -> bool {
    exists|i: int| 0 <= i < s.len() && s[i] == '.'
}

/// The file extension of a name: what follows the last dot, empty when
/// there is no dot or nothing follows it.
pub open spec fn spec_ext(s: Seq<char>) -> Seq<char>
    decreases s.len(),
{
    if s.len() == 0 {
        Seq::empty()
    } else if s.last() == '.' {
        Seq::empty()
    } else if spec_has_dot(s.drop_last()) {
        spec_ext(s.drop_last()).push(s.last())
    } else {
        Seq::empty()
    }
}

/// After the last dot, the extension is exactly the remaining suffix.
proof fn lemma_ext_after_last_dot(s: Seq<char>, j: int)
    requires
        0 <= j < s.len(),
        s[j] == '.',
        forall|k: int| j < k < s.len() ==> s[k] != '.',
    ensures
        spec_ext(s) =~= s.subrange(j + 1, s.len() as int),
    decreases s.len(),
{
    if j == s.len() - 1 {
    } else {
        assert(s.last() != '.');
        assert(s.drop_last()[j] == '.');
        assert(spec_has_dot(s.drop_last()));
        lemma_ext_after_last_dot(s.drop_last(), j);
        assert(s.drop_last().subrange(j + 1, s.len() - 1).push(s.last()) =~= s.subrange(
            j + 1,
            s.len() as int,
        ));
    }
}

/// Without a dot anywhere, the extension is empty.
proof fn lemma_ext_no_dot(s: Seq<char>)
    requires
        !spec_has_dot(s),
    ensures
        spec_ext(s) =~= Seq::<char>::empty(),
    decreases s.len(),
{
    if s.len() > 0 {
        assert(s.last() != '.');
    }
}

/// The extension of a file name: the text after its last dot, or the
/// empty text when no dot occurs or the name ends in one.
pub fn get_extension(name: &str) -> (r: String)
    ensures
        r@ == spec_ext(name@),
{
    let n = name.unicode_len();
    let mut j: usize = n;
    while j > 0
        invariant
            j <= n,
            n == name@.len(),
            forall|k: int| j <= k < n ==> name@[k] != '.',
        decreases j,
    {
        if name.get_char(j - 1) == '.' {
            let tail = name.substring_char(j, n);
            proof {
                lemma_ext_after_last_dot(name@, j - 1);
            }
            return String::from_str(tail);
        }
        j = j - 1;
    }
    proof {
        lemma_ext_no_dot(name@);
    }
    String::new()
}

/// The decimal rendering of a non-negative number, as bytes.
pub open spec fn spec_dec_bytes(n: int) -> Seq<u8>
    decreases n,
{
    if n < 0 {
        Seq::empty()
    } else if n < 10 {
        seq![(48 + n) as u8]
    } else {
        spec_dec_bytes(n / 10).push((48 + n % 10) as u8)
    }
}

/// Appends the decimal rendering of `n`.
fn push_dec(n: u32, out: &mut Vec<u8>)
    ensures
        final(out)@ == old(out)@ + spec_dec_bytes(n as int),
    decreases n,
{
    let ghost base = out@;
    if n >= 10 {
        push_dec(n / 10, out);
    }
    out.push(48 + (n % 10) as u8);
    assert(out@ =~= base + spec_dec_bytes(n as int));
}

/// The decimal rendering of a number, as the byte string its text form
/// hashes to.
pub fn u32_dec_bytes(n: u32) -> (r: Vec<u8>)
    ensures
        r@ == spec_dec_bytes(n as int),
{
    let mut out: Vec<u8> = Vec::new();
    push_dec(n, &mut out);
    assert(out@ =~= spec_dec_bytes(n as int));
    out
}

} // verus!
