//! The visual challenge: drawing, binding to the session, and the
//! case-insensitive comparison of a submitted answer.

use vstd::prelude::*;
use vstd::utf8::encode_utf8;
use crate::session::SessionData;

verus! {

/// Length, in characters, of an issued challenge answer; a submitted
/// answer shorter than this is rejected before anything else runs.
pub const CHALLENGE_LEN: usize = 4;

/// A character the challenge alphabet can draw: an ASCII letter or digit.
pub open spec fn spec_challenge_char(c: char) -> bool {
    (48 <= c as u32 && c as u32 <= 57) || (65 <= c as u32 && c as u32 <= 90) || (97 <= c as u32
        && c as u32 <= 122)
}

/// Relies on captcha::Captcha (add_chars, view, as_tuple, and the Dots
/// filter): a freshly drawn challenge as its answer text and a PNG
/// rendering, or nothing when rendering fails.  add_chars draws one
/// glyph per requested character and the default font's characters are
/// ASCII letters and digits, so the answer's length and alphabet are
/// stated; which characters come up is random.  The crop is centred on
/// the drawn text with unsigned arithmetic, and it stays inside the
/// backing image only when the glyph count is exactly this one — with
/// fewer glyphs the left edge underflows even under the narrowest
/// glyphs of the font, with more the right edge can pass the image
/// bound — so every other count is left out.
#[verifier::external_body]
pub(crate) fn draw_challenge(chars: u32) -> (r: Option<(String, Vec<u8>)>)
    requires
        chars == CHALLENGE_LEN as u32,
    ensures
        r matches Some(t) ==> t.0@.len() == chars as nat && forall|i: int|
            0 <= i < t.0@.len() ==> spec_challenge_char(#[trigger] t.0@[i]),
{
    let mut c = captcha::Captcha::new();
    c.add_chars(chars);
    c.apply_filter(captcha::filters::Dots::new(15));
    c.view(248, 96);
    c.as_tuple()
}

/// A byte folded to upper case, ASCII letters only.
pub open spec fn spec_upper8(b: u8) -> u8 {
    if 97 <= b && b <= 122 {
        (b - 32) as u8
    } else {
        b
    }
}

/// A byte string folded to upper case.
pub open spec fn spec_fold_upper(s: Seq<u8>) -> Seq<u8> {
    s.map_values(|b: u8| spec_upper8(b))
}

/// Whether a submitted answer matches a stored one: their byte strings
/// agree once both are folded to upper case.
pub open spec fn spec_challenge_match(submitted: Seq<char>, stored: Seq<char>) -> bool {
    spec_fold_upper(encode_utf8(submitted)) == spec_fold_upper(encode_utf8(stored))
}

/// A byte folded to upper case.
fn upper8(b: u8) -> (r: u8)
    ensures
        r == spec_upper8(b),
{
    if 97 <= b && b <= 122 {
        b - 32
    } else {
        b
    }
}

/// Compares a submitted challenge answer against the stored one,
/// ignoring ASCII letter case.
pub fn challenge_matches(submitted: &str, stored: &str) -> (r: bool)
    ensures
        r == spec_challenge_match(submitted@, stored@),
{
    let a = submitted.as_bytes_vec();
    let b = stored.as_bytes_vec();
    if a.len() != b.len() {
        assert(spec_fold_upper(a@).len() != spec_fold_upper(b@).len());
        return false;
    }
    let n = a.len();
    let mut i: usize = 0;
    while i < n
        invariant
            i <= n,
            n == a@.len(),
            n == b@.len(),
            a@ == encode_utf8(submitted@),
            b@ == encode_utf8(stored@),
            forall|k: int|
                0 <= k < i ==> spec_fold_upper(a@)[k] == spec_fold_upper(b@)[k],
        decreases n - i,
    {
        if upper8(a[i]) != upper8(b[i]) {
            assert(spec_fold_upper(a@)[i as int] != spec_fold_upper(b@)[i as int]);
            return false;
        }
        i = i + 1;
    }
    assert(spec_fold_upper(a@) =~= spec_fold_upper(b@));
    true
}

/// Case-insensitivity of the challenge comparison: two answers match
/// exactly when their byte strings have the same length and agree at
/// every position up to ASCII letter case.
pub proof fn lemma_challenge_case_insensitive(submitted: Seq<char>, stored: Seq<char>)
    ensures
        spec_challenge_match(submitted, stored) <==> {
            let a = encode_utf8(submitted);
            let b = encode_utf8(stored);
            a.len() == b.len() && forall|k: int|
                0 <= k < a.len() ==> spec_upper8(#[trigger] a[k]) == spec_upper8(b[k])
        },
{
    let a = encode_utf8(submitted);
    let b = encode_utf8(stored);
    if spec_fold_upper(a) == spec_fold_upper(b) {
        assert(a.len() == spec_fold_upper(a).len());
        assert(b.len() == spec_fold_upper(b).len());
        assert forall|k: int| 0 <= k < a.len() implies spec_upper8(#[trigger] a[k]) == spec_upper8(
            b[k],
        ) by {
            assert(spec_fold_upper(a)[k] == spec_fold_upper(b)[k]);
        }
    } else {
        if a.len() == b.len() && (forall|k: int|
            0 <= k < a.len() ==> spec_upper8(#[trigger] a[k]) == spec_upper8(b[k])) {
            assert(spec_fold_upper(a) =~= spec_fold_upper(b));
        }
    }
}

/// The outcome of issuing a challenge: its PNG rendering, or a degraded
/// textual reply when rendering fails.
pub enum ChallengeOutcome {
    Image(Vec<u8>),
    NoData,
}

/// Issues a fresh challenge: draws one, binds its answer — a text of
/// exactly `CHALLENGE_LEN` ASCII letters and digits — to the session,
/// replacing any previously bound answer, and returns the rendering.
/// When drawing fails the session is left untouched and the caller
/// serves the degraded `NoData` reply.
pub fn captcha(session: &mut SessionData) -> (r: ChallengeOutcome)
    ensures
        r is Image ==> (final(session).captcha matches Some(a) && a@.len() == CHALLENGE_LEN
            && forall|i: int| 0 <= i < a@.len() ==> spec_challenge_char(#[trigger] a@[i])),
        r is NoData ==> *final(session) == *old(session),
        final(session).login_id == old(session).login_id,
        final(session).auth_key == old(session).auth_key,
{
    match draw_challenge(CHALLENGE_LEN as u32) {
        Some((answer, png)) => {
            session.set_captcha(answer);
            ChallengeOutcome::Image(png)
        },
        None => ChallengeOutcome::NoData,
    }
}

} // verus!
