//! Text helpers shared by the provider and the routes: building strings
//! piece by piece, comparing them, and replacing every occurrence of a
//! pattern.
use vstd::prelude::*;
use vstd::string::*;

verus! {

/// `String::push` of std: appends one character.
#[verifier::external_body]
pub fn push_char(s: &mut String, c: char)
    ensures
        final(s)@ == old(s)@.push(c),
{
    s.push(c);
}

/// The characters of `s`, in order.
pub fn chars_of(s: &str) -> (v: Vec<char>)
    ensures
        v@ == s@,
{
    let n = s.unicode_len();
    let mut v: Vec<char> = Vec::new();
    let mut i: usize = 0;
    while i < n
        invariant
            n == s@.len(),
            i <= n,
            v@ == s@.take(i as int),
        decreases n - i,
    {
        let c = s.get_char(i);
        v.push(c);
        i = i + 1;
        assert(v@ =~= s@.take(i as int));
    }
    assert(s@.take(n as int) =~= s@);
    v
}

/// Whether two string slices hold the same characters.
pub fn same_text(a: &str, b: &str) -> (r: bool)
    ensures
        r == (a@ == b@),
{
    let x = a.as_bytes();
    let y = b.as_bytes();
    proof {
        vstd::utf8::encode_utf8_decode_utf8(a@);
        vstd::utf8::encode_utf8_decode_utf8(b@);
    }
    if x.len() != y.len() {
        return false;
    }
    let mut i: usize = 0;
    while i < x.len()
        invariant
            x@ == a.spec_bytes(),
            y@ == b.spec_bytes(),
            x@.len() == y@.len(),
            i <= x@.len(),
            forall|j: int| 0 <= j < i ==> x@[j] == y@[j],
        decreases x@.len() - i,
    {
        if x[i] != y[i] {
            return false;
        }
        i = i + 1;
    }
    assert(x@ =~= y@);
    true
}

/// `s` with every occurrence of `from` replaced by `to`, scanning from the
/// left and never re-reading replaced text (what `str::replace` does for a
/// non-empty pattern).
pub open spec fn replace_all(s: Seq<char>, from: Seq<char>, to: Seq<char>) -> Seq<char>
    decreases s.len(),
{
    if s.len() == 0 {
        Seq::empty()
    } else if 0 < from.len() <= s.len() && s.take(from.len() as int) == from {
        to + replace_all(s.skip(from.len() as int), from, to)
    } else {
        seq![s[0]] + replace_all(s.skip(1), from, to)
    }
}

/// `pattern` occurs in `s` at position `at`.
pub open spec fn occurs_at(s: Seq<char>, pattern: Seq<char>, at: int) -> bool {
    0 <= at && at + pattern.len() <= s.len() && s.subrange(at, at + pattern.len()) == pattern
}

/// `pattern` occurs somewhere in `s`.
pub open spec fn occurs_in(s: Seq<char>, pattern: Seq<char>) -> bool {
    exists|at: int| occurs_at(s, pattern, at)
}

/// `to` cannot take part in an occurrence of `from`: no position of `to`
/// starts a stretch that agrees with `from` for as long as both last.
pub open spec fn no_overlap(from: Seq<char>, to: Seq<char>) -> bool {
    forall|k: int| 0 <= k < to.len() ==> !#[trigger] agrees_from(from, to, k)
}

/// From position `k` on, `to` agrees with the start of `from` for as long
/// as both last.
pub open spec fn agrees_from(from: Seq<char>, to: Seq<char>, k: int) -> bool {
    let n = if to.len() - k < from.len() { to.len() - k } else { from.len() as int };
    to.subrange(k, k + n) == from.take(n)
}

/// A prefix of the replaced text that avoids the first character of the
/// replacement was copied from the scanned text.
proof fn lemma_prefix_copied(s: Seq<char>, from: Seq<char>, to: Seq<char>, q: Seq<char>)
    requires
        from.len() > 0,
        to.len() > 0,
        forall|i: int| 0 <= i < q.len() ==> #[trigger] q[i] != to[0],
        q.len() <= replace_all(s, from, to).len(),
        replace_all(s, from, to).take(q.len() as int) == q,
    ensures
        q.len() <= s.len(),
        s.take(q.len() as int) == q,
    decreases s.len(),
{
    if q.len() == 0 {
        assert(s.take(0) =~= q);
    } else {
        let out = replace_all(s, from, to);
        assert(out.take(q.len() as int)[0] == q[0]);
        if s.len() == 0 {
        } else if 0 < from.len() <= s.len() && s.take(from.len() as int) == from {
            assert(out[0] == to[0]);
        } else {
            let rest = replace_all(s.skip(1), from, to);
            assert(out == seq![s[0]] + rest);
            let q1 = q.skip(1);
            assert(rest.take(q1.len() as int) =~= q1) by {
                assert forall|i: int| 0 <= i < q1.len() implies rest.take(q1.len() as int)[i] == q1[i] by {
                    assert(out.take(q.len() as int)[i + 1] == q[i + 1]);
                }
            }
            lemma_prefix_copied(s.skip(1), from, to, q1);
            assert(s.take(q.len() as int) =~= q) by {
                assert forall|i: int| 0 <= i < q.len() implies s.take(q.len() as int)[i] == q[i] by {
                    if i > 0 {
                        assert(s.skip(1).take(q1.len() as int)[i - 1] == q1[i - 1]);
                    }
                }
            }
        }
    }
}

/// Replacing every occurrence leaves none behind, when the replacement
/// cannot take part in an occurrence and no character of the pattern is
/// the replacement's first.
pub proof fn lemma_replace_leaves_none(s: Seq<char>, from: Seq<char>, to: Seq<char>)
    requires
        from.len() > 0,
        to.len() > 0,
        forall|i: int| 0 <= i < from.len() ==> #[trigger] from[i] != to[0],
        no_overlap(from, to),
    ensures
        !occurs_in(replace_all(s, from, to), from),
    decreases s.len(),
{
    let out = replace_all(s, from, to);
    if s.len() == 0 {
        assert forall|at: int| !occurs_at(out, from, at) by {}
    } else if 0 < from.len() <= s.len() && s.take(from.len() as int) == from {
        let rest = replace_all(s.skip(from.len() as int), from, to);
        lemma_replace_leaves_none(s.skip(from.len() as int), from, to);
        assert(out == to + rest);
        assert forall|at: int| !occurs_at(out, from, at) by {
            if occurs_at(out, from, at) {
                if at < to.len() {
                    let n = if to.len() - at < from.len() { to.len() - at } else { from.len() as int };
                    assert(to.subrange(at, at + n) =~= from.take(n)) by {
                        assert forall|i: int| 0 <= i < n implies to.subrange(at, at + n)[i] == from.take(n)[i] by {
                            assert(out.subrange(at, at + from.len())[i] == from[i]);
                        }
                    }
                    assert(agrees_from(from, to, at));
                } else {
                    assert(rest.subrange(at - to.len(), at - to.len() + from.len()) =~= out.subrange(
                        at,
                        at + from.len(),
                    ));
                    assert(occurs_at(rest, from, at - to.len()));
                }
            }
        }
    } else {
        let rest = replace_all(s.skip(1), from, to);
        lemma_replace_leaves_none(s.skip(1), from, to);
        assert(out == seq![s[0]] + rest);
        assert forall|at: int| !occurs_at(out, from, at) by {
            if occurs_at(out, from, at) {
                if at >= 1 {
                    assert(rest.subrange(at - 1, at - 1 + from.len()) =~= out.subrange(
                        at,
                        at + from.len(),
                    ));
                    assert(occurs_at(rest, from, at - 1));
                } else {
                    let q = from.skip(1);
                    assert forall|i: int| 0 <= i < q.len() implies #[trigger] q[i] != to[0] by {
                        assert(q[i] == from[i + 1]);
                    }
                    assert(rest.take(q.len() as int) =~= q) by {
                        assert forall|i: int| 0 <= i < q.len() implies rest.take(q.len() as int)[i] == q[i] by {
                            assert(out.subrange(0, from.len() as int)[i + 1] == from[i + 1]);
                        }
                    }
                    lemma_prefix_copied(s.skip(1), from, to, q);
                    assert(s.take(from.len() as int) =~= from) by {
                        assert forall|i: int| 0 <= i < from.len() implies s.take(from.len() as int)[i] == from[i] by {
                            if i == 0 {
                                assert(out.subrange(0, from.len() as int)[0] == from[0]);
                            } else {
                                assert(s.skip(1).take(q.len() as int)[i - 1] == q[i - 1]);
                            }
                        }
                    }
                }
            }
        }
    }
}

/// Text in which the pattern does not occur comes out of the replacement
/// unchanged.
pub proof fn lemma_replace_without_occurrence(s: Seq<char>, from: Seq<char>, to: Seq<char>)
    requires
        from.len() > 0,
        !occurs_in(s, from),
    ensures
        replace_all(s, from, to) == s,
    decreases s.len(),
{
    if s.len() == 0 {
        assert(replace_all(s, from, to) =~= s);
    } else {
        if from.len() <= s.len() && s.take(from.len() as int) == from {
            assert(s.subrange(0, from.len() as int) =~= s.take(from.len() as int));
            assert(occurs_at(s, from, 0));
        }
        let rest = s.skip(1);
        assert forall|at: int| !occurs_at(rest, from, at) by {
            if occurs_at(rest, from, at) {
                assert(s.subrange(at + 1, at + 1 + from.len()) =~= rest.subrange(at, at + from.len()));
                assert(occurs_at(s, from, at + 1));
            }
        }
        lemma_replace_without_occurrence(rest, from, to);
        assert(seq![s[0]] + rest =~= s);
    }
}

/// Whether `pattern` occurs in `text` at position `at`.
fn found_at(text: &Vec<char>, at: usize, pattern: &Vec<char>) -> (r: bool)
    requires
        at <= text@.len(),
    ensures
        r == (at + pattern@.len() <= text@.len() && text@.subrange(
            at as int,
            at + pattern@.len(),
        ) == pattern@),
{
    if pattern.len() > text.len() - at {
        return false;
    }
    let mut j: usize = 0;
    while j < pattern.len()
        invariant
            text@.len() <= usize::MAX,
            at + pattern@.len() <= text@.len(),
            j <= pattern@.len(),
            forall|k: int| 0 <= k < j ==> text@[at + k] == pattern@[k],
        decreases pattern@.len() - j,
    {
        if text[at + j] != pattern[j] {
            assert(text@.subrange(at as int, at + pattern@.len())[j as int] != pattern@[j as int]);
            return false;
        }
        j = j + 1;
    }
    assert(text@.subrange(at as int, at + pattern@.len()) =~= pattern@);
    true
}

/// The characters of `text` with every occurrence of `from` replaced by
/// `to`, as a `String`.
pub fn replace_chars(text: &Vec<char>, from: &str, to: &str) -> (r: String)
    requires
        from@.len() > 0,
    ensures
        r@ == replace_all(text@, from@, to@),
{
    let pattern = chars_of(from);
    let mut out = String::new();
    let mut i: usize = 0;
    assert(text@.skip(0) =~= text@);
    assert(out@ + replace_all(text@, from@, to@) =~= replace_all(text@, from@, to@));
    while i < text.len()
        invariant
            pattern@ == from@,
            pattern@.len() > 0,
            i <= text@.len(),
            replace_all(text@, from@, to@) == out@ + replace_all(text@.skip(i as int), from@, to@),
        decreases text@.len() - i,
    {
        let ghost rest = text@.skip(i as int);
        if found_at(text, i, &pattern) {
            assert(rest.take(from@.len() as int) =~= text@.subrange(i as int, i + from@.len()));
            assert(rest.skip(from@.len() as int) =~= text@.skip(i + from@.len()));
            out.append(to);
            i = i + pattern.len();
        } else {
            assert(from@.len() <= rest.len() ==> rest.take(from@.len() as int) =~= text@.subrange(
                i as int,
                i + from@.len(),
            ));
            assert(rest.skip(1) =~= text@.skip(i + 1));
            assert(rest[0] == text@[i as int]);
            push_char(&mut out, text[i]);
            i = i + 1;
        }
    }
    assert(text@.skip(i as int) =~= Seq::<char>::empty());
    out
}

} // verus!
