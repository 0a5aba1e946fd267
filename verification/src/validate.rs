use vstd::prelude::*;

use crate::error::ApiError;

verus! {

/// A password is acceptable when its character count lies in this range.
pub const MIN_PASSWORD_CHARS: usize = 10;
pub const MAX_PASSWORD_CHARS: usize = 60;

pub open spec fn password_length_ok(p: Seq<char>) -> bool {
    MIN_PASSWORD_CHARS <= p.len() <= MAX_PASSWORD_CHARS
}

/// Rejects passwords outside the accepted length range.
pub fn password_length_check(p: &str) -> (r: Result<(), ApiError>)
    ensures
        r is Ok <==> password_length_ok(p@),
        r is Err ==> r->Err_0 == ApiError::InvalidPassword,
{
    let l = p.unicode_len();
    if MIN_PASSWORD_CHARS <= l && l <= MAX_PASSWORD_CHARS {
        Ok(())
    } else {
        Err(ApiError::InvalidPassword)
    }
}

pub open spec fn valid_username_char(c: char) -> bool {
    ('a' <= c && c <= 'z') || ('A' <= c && c <= 'Z') || ('0' <= c && c <= '9') || c == '_'
}

/// A federated handle: 3 to 20 characters, each alphanumeric or underscore.
pub open spec fn valid_username(s: Seq<char>) -> bool {
    &&& 3 <= s.len() <= 20
    &&& forall|i: int| 0 <= i < s.len() ==> valid_username_char(#[trigger] s[i])
}

pub fn is_valid_username(s: &str) -> (r: bool)
    ensures
        r == valid_username(s@),
{
    let l = s.unicode_len();
    if l < 3 || l > 20 {
        return false;
    }
    let mut i: usize = 0;
    while i < l
        invariant
            i <= l,
            l == s@.len(),
            forall|j: int| 0 <= j < i ==> valid_username_char(#[trigger] s@[j]),
        decreases l - i,
    {
        let c = s.get_char(i);
        if !(('a' <= c && c <= 'z') || ('A' <= c && c <= 'Z') || ('0' <= c && c <= '9') || c
            == '_') {
            return false;
        }
        i += 1;
    }
    true
}

/// A display name may hold more than a handle does, but must not start with
/// '@' (it would be read as a remote handle) and keeps the same length range.
pub open spec fn valid_display_name(s: Seq<char>) -> bool {
    &&& 3 <= s.len() <= 20
    &&& s[0] != '@'
}

pub fn is_valid_display_name(s: &str) -> (r: bool)
    ensures
        r == valid_display_name(s@),
{
    let l = s.unicode_len();
    if l < 3 || l > 20 {
        return false;
    }
    s.get_char(0) != '@'
}

/// Word `w` occurs in `s` starting at position `i`.
pub open spec fn matches_at(s: Seq<char>, w: Seq<char>, i: int) -> bool {
    &&& 0 <= i
    &&& i + w.len() <= s.len()
    &&& s.subrange(i, i + w.len()) == w
}

/// Some word of the filter list occurs somewhere in `s`.
pub open spec fn contains_forbidden(s: Seq<char>, ws: Seq<String>) -> bool {
    exists|k: int, i: int| 0 <= k < ws.len() && matches_at(s, ws[k]@, i)
}

/// Position `i` of `s` lies inside an occurrence of some word of the list.
/// An empty word covers nothing.
pub open spec fn covered(s: Seq<char>, ws: Seq<String>, i: int) -> bool {
    exists|k: int, j: int|
        0 <= k < ws.len() && #[trigger] matches_at(s, ws[k]@, j) && j <= i < j + ws[k]@.len()
}

/// The filtered form of `s`: every character inside an occurrence of a
/// forbidden word is masked by `'*'`; all other characters stay.
pub open spec fn filtered(s: Seq<char>, ws: Seq<String>) -> Seq<char> {
    Seq::new(s.len(), |i: int| if covered(s, ws, i) { '*' } else { s[i] })
}

/// Does `w` occur in `s` at position `i`? (exec form of `matches_at`)
fn match_at(s: &str, w: &String, i: usize) -> (r: bool)
    requires
        i + w@.len() <= s@.len() <= usize::MAX,
    ensures
        r == matches_at(s@, w@, i as int),
{
    let wl = w.as_str().unicode_len();
    let mut j: usize = 0;
    while j < wl
        invariant
            j <= wl,
            wl == w@.len(),
            i + wl <= s@.len(),
            s@.len() <= usize::MAX,
            forall|t: int| 0 <= t < j ==> s@[i + t] == w@[t],
        decreases wl - j,
    {
        if s.get_char(i + j) != w.as_str().get_char(j) {
            assert(s@.subrange(i as int, i + w@.len())[j as int] != w@[j as int]);
            return false;
        }
        j += 1;
    }
    assert(s@.subrange(i as int, i + w@.len()) =~= w@);
    true
}

/// Does any word of the list occur anywhere in `s`?
pub fn contains_forbidden_word(s: &str, ws: &Vec<String>) -> (r: bool)
    ensures
        r == contains_forbidden(s@, ws@),
{
    let sl = s.unicode_len();
    let mut k: usize = 0;
    while k < ws.len()
        invariant
            k <= ws@.len(),
            sl == s@.len(),
            forall|kk: int, i: int| 0 <= kk < k ==> !matches_at(s@, ws@[kk]@, i),
        decreases ws@.len() - k,
    {
        let w = &ws[k];
        let wl = w.as_str().unicode_len();
        if wl == 0 {
            assert(matches_at(s@, w@, 0)) by {
                assert(s@.subrange(0, 0) =~= w@);
            }
            return true;
        }
        if wl <= sl {
            let mut i: usize = 0;
            while i <= sl - wl
                invariant
                    k < ws@.len(),
                    w == ws@[k as int],
                    wl == w@.len(),
                    sl == s@.len(),
                    0 < wl <= sl,
                    i <= sl - wl + 1,
                    forall|t: int| 0 <= t < i ==> !matches_at(s@, w@, t),
                decreases sl - wl + 1 - i,
            {
                if match_at(s, w, i) {
                    return true;
                }
                i += 1;
            }
            assert forall|t: int| !(#[trigger] matches_at(s@, w@, t)) by {
                if matches_at(s@, w@, t) {
                    assert(0 <= t && t + wl <= sl);
                }
            }
        } else {
            assert forall|t: int| !(#[trigger] matches_at(s@, w@, t)) by {}
        }
        k += 1;
    }
    false
}

/// Is position `i` of `s` inside an occurrence of a word of the list?
fn position_covered(s: &str, ws: &Vec<String>, i: usize) -> (r: bool)
    requires
        i < s@.len(),
    ensures
        r == covered(s@, ws@, i as int),
{
    let sl = s.unicode_len();
    let mut k: usize = 0;
    while k < ws.len()
        invariant
            k <= ws@.len(),
            sl == s@.len(),
            i < sl,
            forall|kk: int, j: int|
                0 <= kk < k && #[trigger] matches_at(s@, ws@[kk]@, j) ==> !(j <= i < j
                    + ws@[kk]@.len()),
        decreases ws@.len() - k,
    {
        let w = &ws[k];
        let wl = w.as_str().unicode_len();
        if 0 < wl && wl <= sl {
            // an occurrence covering i starts at some j with i - wl < j <= i
            let lo: usize = if i + 1 >= wl {
                i + 1 - wl
            } else {
                0
            };
            let hi: usize = if i <= sl - wl {
                i
            } else {
                sl - wl
            };
            let mut j: usize = lo;
            while j <= hi
                invariant
                    k < ws@.len(),
                    w == ws@[k as int],
                    wl == w@.len(),
                    0 < wl <= sl,
                    sl == s@.len(),
                    i < sl,
                    lo == (if i + 1 >= wl {
                        i + 1 - wl
                    } else {
                        0
                    }),
                    hi <= sl - wl,
                    hi == (if i <= sl - wl {
                        i as int
                    } else {
                        sl - wl
                    }),
                    lo <= j <= hi + 1,
                    forall|t: int|
                        lo <= t < j && #[trigger] matches_at(s@, w@, t) ==> !(t <= i < t + wl),
                decreases hi + 1 - j,
            {
                if match_at(s, w, j) {
                    return true;
                }
                j += 1;
            }
            assert forall|t: int| #[trigger]
                matches_at(s@, w@, t) && t <= i < t + wl implies false by {
                assert(t + wl <= sl);
                assert(lo <= t <= hi);
            }
        }
        k += 1;
    }
    false
}

/// Builds the filtered form of `s`: characters inside occurrences of
/// forbidden words are masked by `'*'`.
pub fn filter_forbidden_words(s: &str, ws: &Vec<String>) -> (r: String)
    ensures
        r@ == filtered(s@, ws@),
{
    let sl = s.unicode_len();
    let mut out = String::new();
    let mut i: usize = 0;
    while i < sl
        invariant
            i <= sl,
            sl == s@.len(),
            out@ =~= filtered(s@, ws@).take(i as int),
        decreases sl - i,
    {
        if position_covered(s, ws, i) {
            proof {
                reveal_strlit("*");
            }
            out.append("*");
        } else {
            let piece = s.substring_char(i, i + 1);
            out.append(piece);
        }
        i += 1;
        assert(out@ =~= filtered(s@, ws@).take(i as int));
    }
    assert(filtered(s@, ws@).take(sl as int) =~= filtered(s@, ws@));
    out
}

} // verus!
