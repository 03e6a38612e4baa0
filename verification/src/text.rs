//! Character-level string operations: search, replacement and joining.
use vstd::prelude::*;

verus! {

/// `pat` occurs in `s` starting at index `i`.
pub open spec fn occurs_at(s: Seq<char>, pat: Seq<char>, i: int) -> bool {
    0 <= i && i + pat.len() <= s.len() && s.subrange(i, i + pat.len()) == pat
}

/// `pat` occurs somewhere in `s`.
pub open spec fn contains_seq(s: Seq<char>, pat: Seq<char>) -> bool {
    exists|i: int| occurs_at(s, pat, i)
}

/// Every occurrence of `pat` in `s` replaced by `rep`, scanning left to
/// right without overlaps (the behaviour of `str::replace`). The empty
/// pattern occurs before every character and at the end, so there `rep`
/// goes in front of each character and once more at the end.
pub open spec fn replace_all(s: Seq<char>, pat: Seq<char>, rep: Seq<char>) -> Seq<char>
    decreases s.len(),
{
    if pat.len() == 0 {
        if s.len() == 0 {
            rep
        } else {
            rep + seq![s[0]] + replace_all(s.skip(1), pat, rep)
        }
    } else if s.len() < pat.len() {
        s
    } else if s.take(pat.len() as int) == pat {
        rep + replace_all(s.skip(pat.len() as int), pat, rep)
    } else {
        seq![s[0]] + replace_all(s.skip(1), pat, rep)
    }
}

/// The items joined with one space between neighbours.
pub open spec fn join_spaced(items: Seq<Seq<char>>) -> Seq<char>
    decreases items.len(),
{
    if items.len() == 0 {
        Seq::empty()
    } else if items.len() == 1 {
        items[0]
    } else {
        join_spaced(items.drop_last()) + seq![' '] + items.last()
    }
}

/// `String::push`: the character is appended.
#[verifier::external_body]
fn push_char(s: &mut String, c: char)
    ensures
        final(s)@ == old(s)@.push(c),
{
    s.push(c)
}

/// The characters of `s`, in order.
pub fn chars_of(s: &str) -> (v: Vec<char>)
    ensures
        v@ == s@,
{
    let n = s.unicode_len();
    let mut v: Vec<char> = Vec::new();
    for i in 0..n
        invariant
            n == s@.len(),
            v@ == s@.take(i as int),
    {
        v.push(s.get_char(i));
        assert(s@.take(i + 1) =~= s@.take(i as int).push(s@[i as int]));
    }
    assert(s@.take(n as int) =~= s@);
    v
}

/// Does `pat` occur in `s` at index `i`?
fn occurs_at_exec(s: &Vec<char>, pat: &Vec<char>, i: usize) -> (r: bool)
    requires
        i <= s@.len(),
    ensures
        r == occurs_at(s@, pat@, i as int),
{
    if pat.len() > s.len() - i {
        return false;
    }
    let mut j: usize = 0;
    while j < pat.len()
        invariant
            i + pat@.len() <= s@.len(),
            s@.len() == s.len(),
            pat@.len() == pat.len(),
            j <= pat@.len(),
            forall|k: int| 0 <= k < j ==> s@[i + k] == pat@[k],
        decreases pat@.len() - j,
    {
        if s[i + j] != pat[j] {
            assert(s@.subrange(i as int, i + pat@.len())[j as int] != pat@[j as int]);
            return false;
        }
        j += 1;
    }
    assert(s@.subrange(i as int, i + pat@.len()) =~= pat@);
    true
}

/// Does `pat` occur anywhere in `s`? (`str::contains`)
pub fn contains_str(s: &str, pat: &str) -> (r: bool)
    ensures
        r == contains_seq(s@, pat@),
{
    let sv = chars_of(s);
    let pv = chars_of(pat);
    let mut i: usize = 0;
    loop
        invariant
            sv@ == s@,
            pv@ == pat@,
            i <= sv@.len(),
            forall|k: int| 0 <= k < i ==> !occurs_at(s@, pat@, k),
        ensures
            forall|k: int| 0 <= k <= s@.len() ==> !occurs_at(s@, pat@, k),
        decreases sv@.len() - i,
    {
        if occurs_at_exec(&sv, &pv, i) {
            return true;
        }
        if i == sv.len() {
            break;
        }
        i += 1;
    }
    assert forall|k: int| !occurs_at(s@, pat@, k) by {
        if k > s@.len() {
            assert(!occurs_at(s@, pat@, k));
        }
    }
    false
}

/// `replace_all` of a sequence shorter than the pattern is the sequence.
proof fn lemma_replace_short(s: Seq<char>, pat: Seq<char>, rep: Seq<char>)
    requires
        s.len() < pat.len(),
    ensures
        replace_all(s, pat, rep) == s,
{
}

/// `rep` in front of every character of `s` and once more at the end
/// (replacing the empty pattern).
fn interleave(s: &str, rep: &str) -> (r: String)
    ensures
        r@ == replace_all(s@, Seq::empty(), rep@),
{
    let sv = chars_of(s);
    let mut out = String::new();
    let mut i: usize = 0;
    assert(sv@.skip(0) =~= sv@);
    while i < sv.len()
        invariant
            sv@ == s@,
            i <= sv@.len(),
            replace_all(s@, Seq::empty(), rep@) == out@ + replace_all(s@.skip(i as int), Seq::empty(), rep@),
        decreases sv@.len() - i,
    {
        assert(s@.skip(i as int).skip(1) =~= s@.skip(i + 1));
        assert(s@.skip(i as int)[0] == sv@[i as int]);
        out.append(rep);
        push_char(&mut out, sv[i]);
        i = i + 1;
    }
    assert(s@.skip(i as int) =~= Seq::<char>::empty());
    out.append(rep);
    out
}

/// Every occurrence of `pat` in `s` replaced by `rep`. (`str::replace`)
pub fn replace_str(s: &str, pat: &str, rep: &str) -> (r: String)
    ensures
        r@ == replace_all(s@, pat@, rep@),
{
    let sv = chars_of(s);
    let pv = chars_of(pat);
    if pv.len() == 0 {
        assert(pat@ =~= Seq::<char>::empty());
        return interleave(s, rep);
    }
    let mut out = String::new();
    let mut i: usize = 0;
    assert(sv@.skip(0) =~= sv@);
    while i < sv.len()
        invariant
            sv@ == s@,
            pv@ == pat@,
            pat@.len() > 0,
            i <= sv@.len(),
            replace_all(s@, pat@, rep@) == out@ + replace_all(s@.skip(i as int), pat@, rep@),
        decreases sv@.len() - i,
    {
        let ghost t = s@.skip(i as int);
        if occurs_at_exec(&sv, &pv, i) {
            assert(t.take(pat@.len() as int) =~= pat@);
            assert(t.skip(pat@.len() as int) =~= s@.skip(i + pat@.len()));
            out.append(rep);
            i = i + pv.len();
        } else {
            proof {
                if t.len() < pat@.len() {
                    lemma_replace_short(t, pat@, rep@);
                    lemma_replace_short(t.skip(1), pat@, rep@);
                    assert(t =~= seq![t[0]] + t.skip(1));
                } else {
                    assert(t.take(pat@.len() as int) =~= s@.subrange(i as int, i + pat@.len()));
                }
                assert(t.skip(1) =~= s@.skip(i + 1));
            }
            push_char(&mut out, sv[i]);
            i = i + 1;
        }
    }
    assert(s@.skip(i as int) =~= Seq::<char>::empty());
    out
}

/// The strings joined with single spaces. (`[String]::join(" ")`)
pub fn join_with_spaces(items: &Vec<String>) -> (r: String)
    ensures
        r@ == join_spaced(items@.map_values(|s: String| s@)),
{
    let ghost views = items@.map_values(|s: String| s@);
    let mut out = String::new();
    let n = items.len();
    for i in 0..n
        invariant
            n == items@.len(),
            views == items@.map_values(|s: String| s@),
            out@ == join_spaced(views.take(i as int)),
    {
        assert(views.take(i + 1).drop_last() =~= views.take(i as int));
        if i != 0 {
            out.append(" ");
            proof { reveal_strlit(" "); }
        }
        out.append(items[i].as_str());
    }
    assert(views.take(n as int) =~= views);
    out
}

/// A string that does not contain the pattern is left as it is.
pub proof fn lemma_replace_absent(s: Seq<char>, pat: Seq<char>, rep: Seq<char>)
    requires
        !contains_seq(s, pat),
    ensures
        replace_all(s, pat, rep) == s,
    decreases s.len(),
{
    if pat.len() == 0 {
        assert(s.subrange(0, 0) =~= pat);
        assert(occurs_at(s, pat, 0));
    } else if s.len() < pat.len() {
    } else {
        assert(!occurs_at(s, pat, 0));
        assert(s.take(pat.len() as int) =~= s.subrange(0, pat.len() as int));
        assert(!contains_seq(s.skip(1), pat)) by {
            assert forall|k: int| !occurs_at(s.skip(1), pat, k) by {
                if occurs_at(s.skip(1), pat, k) {
                    assert(s.skip(1).subrange(k, k + pat.len()) =~= s.subrange(k + 1, k + 1 + pat.len()));
                    assert(occurs_at(s, pat, k + 1));
                }
            }
        }
        lemma_replace_absent(s.skip(1), pat, rep);
        assert(s =~= seq![s[0]] + s.skip(1));
    }
}

/// Text before the first occurrence of the pattern is kept as it is:
/// when the pattern does not occur at any index below `k`, replacing in `s`
/// keeps its first `k` characters and replaces in the rest.
pub proof fn lemma_replace_keeps_prefix(s: Seq<char>, pat: Seq<char>, rep: Seq<char>, k: int)
    requires
        pat.len() > 0,
        0 <= k <= s.len(),
        forall|i: int| 0 <= i < k ==> !occurs_at(s, pat, i),
    ensures
        replace_all(s, pat, rep) == s.take(k) + replace_all(s.skip(k), pat, rep),
    decreases k,
{
    if k == 0 {
        assert(s.take(0) + s.skip(0) =~= s);
        assert(s.skip(0) =~= s);
        assert(s.take(0) + replace_all(s.skip(0), pat, rep) =~= replace_all(s, pat, rep));
    } else {
        let t = s.skip(1);
        assert forall|i: int| 0 <= i < k - 1 implies !occurs_at(t, pat, i) by {
            if occurs_at(t, pat, i) {
                assert(t.subrange(i, i + pat.len()) =~= s.subrange(i + 1, i + 1 + pat.len()));
                assert(occurs_at(s, pat, i + 1));
            }
        }
        lemma_replace_keeps_prefix(t, pat, rep, k - 1);
        assert(t.skip(k - 1) =~= s.skip(k));
        if s.len() < pat.len() {
            lemma_replace_short(s, pat, rep);
            lemma_replace_short(s.skip(k), pat, rep);
            assert(s =~= s.take(k) + s.skip(k));
        } else {
            assert(!occurs_at(s, pat, 0));
            assert(s.take(pat.len() as int) =~= s.subrange(0, pat.len() as int));
            assert(replace_all(s, pat, rep) == seq![s[0]] + replace_all(t, pat, rep));
            assert(seq![s[0]] + t.take(k - 1) =~= s.take(k));
        }
    }
}

/// Replacing in `a + pat + b`, where the first occurrence of the pattern
/// starts right after `a`, gives `a`, then `rep`, then the replacement in `b`.
pub proof fn lemma_replace_first_occurrence(a: Seq<char>, pat: Seq<char>, b: Seq<char>, rep: Seq<char>)
    requires
        pat.len() > 0,
        forall|i: int| 0 <= i < a.len() ==> !occurs_at(a + pat + b, pat, i),
    ensures
        replace_all(a + pat + b, pat, rep) == a + rep + replace_all(b, pat, rep),
{
    let s = a + pat + b;
    lemma_replace_keeps_prefix(s, pat, rep, a.len() as int);
    assert(s.take(a.len() as int) =~= a);
    let t = s.skip(a.len() as int);
    assert(t =~= pat + b);
    assert(t.take(pat.len() as int) =~= pat);
    assert(t.skip(pat.len() as int) =~= b);
    assert(replace_all(t, pat, rep) == rep + replace_all(b, pat, rep));
    assert(a + (rep + replace_all(b, pat, rep)) =~= a + rep + replace_all(b, pat, rep));
}

} // verus!
