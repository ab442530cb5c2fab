//! Character-level helpers on strings.

use vstd::prelude::*;
use vstd::string::*;

verus! {

/// Whether two strings hold the same characters.
pub fn text_eq(a: &str, b: &str) -> (r: bool)
    ensures
        r == (a@ == b@),
{
    let n = a.unicode_len();
    if n != b.unicode_len() {
        return false;
    }
    let mut i: usize = 0;
    while i < n
        invariant
            n == a@.len(),
            n == b@.len(),
            i <= n,
            forall|k: int| 0 <= k < i ==> a@[k] == b@[k],
        decreases n - i,
    {
        if a.get_char(i) != b.get_char(i) {
            return false;
        }
        i += 1;
    }
    assert(a@ =~= b@);
    true
}


/// Whether `tok` occurs in `s` starting at position `i`.
pub open spec fn occurs_at(s: Seq<char>, tok: Seq<char>, i: int) -> bool {
    0 <= i && i + tok.len() <= s.len() && s.subrange(i, i + tok.len()) == tok
}

/// `s` with every occurrence of the non-empty `tok` replaced by `v`,
/// scanning from the left; replaced text is not scanned again. An empty
/// `tok` leaves `s` as it is.
pub open spec fn replace_all(s: Seq<char>, tok: Seq<char>, v: Seq<char>) -> Seq<char>
    decreases s.len(),
{
    if tok.len() == 0 || s.len() < tok.len() {
        s
    } else if s.subrange(0, tok.len() as int) == tok {
        v + replace_all(s.subrange(tok.len() as int, s.len() as int), tok, v)
    } else {
        seq![s[0]] + replace_all(s.drop_first(), tok, v)
    }
}

/// Replacing a token that does not occur changes nothing.
pub proof fn lemma_replace_absent(s: Seq<char>, tok: Seq<char>, v: Seq<char>)
    requires
        forall|i: int| !occurs_at(s, tok, i),
    ensures
        replace_all(s, tok, v) == s,
    decreases s.len(),
{
    if tok.len() == 0 || s.len() < tok.len() {
    } else {
        assert(!occurs_at(s, tok, 0));
        let rest = s.drop_first();
        assert forall|i: int| !occurs_at(rest, tok, i) by {
            if occurs_at(rest, tok, i) {
                assert(s.subrange(i + 1, i + 1 + tok.len()) =~= rest.subrange(i, i + tok.len()));
                assert(occurs_at(s, tok, i + 1));
            }
        }
        lemma_replace_absent(rest, tok, v);
        assert(seq![s[0]] + rest =~= s);
    }
}

fn occurs_in(s: &Vec<char>, tok: &Vec<char>, i: usize) -> (r: bool)
    requires
        i + tok@.len() <= s@.len(),
    ensures
        r == (s@.subrange(i as int, i + tok@.len()) == tok@),
{
    let m = tok.len();
    let n = s.len();
    let mut k: usize = 0;
    while k < m
        invariant
            m == tok@.len(),
            n == s@.len(),
            i + m <= n,
            k <= m,
            forall|j: int| 0 <= j < k ==> s@[i + j] == tok@[j],
        decreases m - k,
    {
        if s[i + k] != tok[k] {
            assert(s@.subrange(i as int, i + m)[k as int] != tok@[k as int]);
            return false;
        }
        k += 1;
    }
    assert(s@.subrange(i as int, i + m) =~= tok@);
    true
}

/// The characters of a string.
pub fn chars_of(s: &str) -> (r: Vec<char>)
    ensures
        r@ == s@,
{
    let n = s.unicode_len();
    let mut r: Vec<char> = Vec::new();
    let mut i: usize = 0;
    while i < n
        invariant
            n == s@.len(),
            i <= n,
            r@ == s@.subrange(0, i as int),
        decreases n - i,
    {
        r.push(s.get_char(i));
        i += 1;
        assert(r@ =~= s@.subrange(0, i as int));
    }
    assert(s@.subrange(0, n as int) =~= s@);
    r
}

/// `s` with every occurrence of the non-empty `tok` replaced by `v`; see
/// [`replace_all`].
pub fn replace_text(s: &str, tok: &str, v: &str) -> (r: String)
    ensures
        r@ == replace_all(s@, tok@, v@),
{
    let sc = chars_of(s);
    let tc = chars_of(tok);
    let n = sc.len();
    let m = tc.len();
    if m == 0 || n < m {
        return s.to_owned();
    }
    let mut out = String::new();
    let mut start: usize = 0;
    let mut i: usize = 0;
    assert(s@.subrange(0, n as int) =~= s@);
    assert(out@ + s@.subrange(0, 0) =~= Seq::<char>::empty());
    while i <= n - m
        invariant
            sc@ == s@,
            tc@ == tok@,
            n == s@.len(),
            m == tok@.len(),
            0 < m <= n,
            start <= i <= n,
            replace_all(s@, tok@, v@) == out@ + s@.subrange(start as int, i as int) + replace_all(
                s@.subrange(i as int, n as int),
                tok@,
                v@,
            ),
        decreases n - i,
    {
        let ghost rest = s@.subrange(i as int, n as int);
        assert(rest.subrange(0, m as int) =~= s@.subrange(i as int, i + m));
        if occurs_in(&sc, &tc, i) {
            assert(rest.subrange(m as int, rest.len() as int) =~= s@.subrange(i + m, n as int));
            let piece = s.substring_char(start, i);
            out.append(piece);
            out.append(v);
            assert(out@ + s@.subrange(i + m, i + m) =~= out@);
            i = i + m;
            start = i;
        } else {
            assert(rest.drop_first() =~= s@.subrange(i + 1, n as int));
            assert(s@.subrange(start as int, i + 1) =~= s@.subrange(start as int, i as int) + seq![
                s@[i as int],
            ]);
            i = i + 1;
        }
    }
    let ghost rest = s@.subrange(i as int, n as int);
    assert(replace_all(rest, tok@, v@) == rest);
    assert(s@.subrange(start as int, i as int) + rest =~= s@.subrange(start as int, n as int));
    let piece = s.substring_char(start, n);
    out.append(piece);
    out
}


/// Whether a string can be handed to the operating system as a
/// NUL-terminated string: it holds no NUL character.
pub open spec fn representable(s: Seq<char>) -> bool {
    !s.contains('\0')
}

/// Whether a string holds no NUL character.
pub fn is_representable(s: &str) -> (r: bool)
    ensures
        r == representable(s@),
{
    let n = s.unicode_len();
    let mut i: usize = 0;
    while i < n
        invariant
            n == s@.len(),
            i <= n,
            forall|k: int| 0 <= k < i ==> s@[k] != '\0',
        decreases n - i,
    {
        if s.get_char(i) == '\0' {
            assert(s@.contains('\0'));
            return false;
        }
        i += 1;
    }
    true
}

/// Whether `s` ends with `suffix`.
pub open spec fn ends_with(s: Seq<char>, suffix: Seq<char>) -> bool {
    suffix.len() <= s.len() && s.subrange(s.len() - suffix.len(), s.len() as int) == suffix
}

/// Whether `s` ends with `suffix`.
pub fn ends_with_text(s: &str, suffix: &str) -> (r: bool)
    ensures
        r == ends_with(s@, suffix@),
{
    let n = s.unicode_len();
    let m = suffix.unicode_len();
    if m > n {
        return false;
    }
    let mut k: usize = 0;
    while k < m
        invariant
            n == s@.len(),
            m == suffix@.len(),
            m <= n,
            k <= m,
            forall|j: int| 0 <= j < k ==> s@[n - m + j] == suffix@[j],
        decreases m - k,
    {
        if s.get_char(n - m + k) != suffix.get_char(k) {
            assert(s@.subrange(n - m, n as int)[k as int] != suffix@[k as int]);
            return false;
        }
        k += 1;
    }
    assert(s@.subrange(n - m, n as int) =~= suffix@);
    true
}

} // verus!
