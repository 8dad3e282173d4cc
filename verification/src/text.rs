//! Text primitives: whitespace tokenising, first-occurrence replacement,
//! and the std string operations the rest of the library builds on.
use vstd::prelude::*;

verus! {

broadcast use vstd::string::group_string_axioms;

/// The Unicode `White_Space` property, which `char::is_whitespace` documents
/// as its meaning: U+0009..U+000D, U+0020, U+0085, U+00A0, U+1680,
/// U+2000..U+200A, U+2028, U+2029, U+202F, U+205F and U+3000.
pub open spec fn is_white_space(c: char) -> bool {
    let n = c as u32;
    ||| 0x09 <= n <= 0x0d
    ||| n == 0x20
    ||| n == 0x85
    ||| n == 0xa0
    ||| n == 0x1680
    ||| 0x2000 <= n <= 0x200a
    ||| n == 0x2028
    ||| n == 0x2029
    ||| n == 0x202f
    ||| n == 0x205f
    ||| n == 0x3000
}

/// What `str::to_lowercase` returns for a string (Unicode lowercase mapping).
pub uninterp spec fn lowercase(s: Seq<char>) -> Seq<char>;

/// `char::is_whitespace`: true exactly on the `White_Space` code points.
#[verifier::external_body]
pub(crate) fn char_is_whitespace(c: char) -> (r: bool)
    ensures
        r == is_white_space(c),
{
    c.is_whitespace()
}

/// `str::to_lowercase`: the result is named by `lowercase`.
#[verifier::external_body]
pub(crate) fn str_to_lowercase(s: &str) -> (r: String)
    ensures
        r@ == lowercase(s@),
{
    s.to_lowercase()
}

/// `String::push`: appends one character.
#[verifier::external_body]
pub(crate) fn push_char(s: &mut String, c: char)
    ensures
        final(s)@ == old(s)@.push(c),
{
    s.push(c)
}

/// The view of an optional string.
pub open spec fn opt_view(o: Option<String>) -> Option<Seq<char>> {
    match o {
        Some(s) => Some(s@),
        None => None,
    }
}

/// Lowercases a string the way `str::to_lowercase` does.
pub fn lower(s: &str) -> (r: String)
    ensures
        r@ == lowercase(s@),
{
    str_to_lowercase(s)
}

/// A fresh `String` holding the characters of `s`.
pub fn owned(s: &str) -> (r: String)
    ensures
        r@ == s@,
{
    String::from_str(s)
}

/// The concatenation of two pieces.
pub fn concat2(a: &str, b: &str) -> (r: String)
    ensures
        r@ == a@ + b@,
{
    let mut r = String::from_str(a);
    r.append(b);
    r
}

/// The concatenation of three pieces.
pub fn concat3(a: &str, b: &str, c: &str) -> (r: String)
    ensures
        r@ == a@ + b@ + c@,
{
    let mut r = String::from_str(a);
    r.append(b);
    r.append(c);
    r
}

/// The characters of `s`, in order.
pub fn chars_of(s: &str) -> (v: Vec<char>)
    ensures
        v@ == s@,
{
    let mut v: Vec<char> = Vec::new();
    for c in it: s.chars()
        invariant
            v@ == it.seq().take(it.index() as int),
    {
        v.push(c);
    }
    v
}

/// Builds a `String` from a run of characters.
pub fn string_from_chars(v: &Vec<char>, from: usize, to: usize) -> (r: String)
    requires
        from <= to <= v.len(),
    ensures
        r@ == v@.subrange(from as int, to as int),
{
    let mut r = String::new();
    let mut i = from;
    while i < to
        invariant
            from <= i <= to <= v.len(),
            r@ == v@.subrange(from as int, i as int),
        decreases to - i,
    {
        push_char(&mut r, v[i]);
        i += 1;
        assert(r@ =~= v@.subrange(from as int, i as int));
    }
    r
}

// ---------------------------------------------------------------------
// Whitespace tokenising (what `str::split_whitespace` yields).
/// One step of the left-to-right scan: `done` holds the finished words,
/// `cur` the word being read.
pub open spec fn scan_step(done: Seq<Seq<char>>, cur: Seq<char>, c: char) -> (Seq<Seq<char>>, Seq<char>) {
    if is_white_space(c) {
        if cur.len() > 0 {
            (done.push(cur), Seq::empty())
        } else {
            (done, cur)
        }
    } else {
        (done, cur.push(c))
    }
}

/// The scan state after reading all of `s`.
pub open spec fn scan(s: Seq<char>) -> (Seq<Seq<char>>, Seq<char>)
    decreases s.len(),
{
    if s.len() == 0 {
        (Seq::empty(), Seq::empty())
    } else {
        let (done, cur) = scan(s.drop_last());
        scan_step(done, cur, s.last())
    }
}

/// The maximal runs of non-whitespace characters of `s`, in order.
pub open spec fn words(s: Seq<char>) -> Seq<Seq<char>> {
    let (done, cur) = scan(s);
    if cur.len() > 0 {
        done.push(cur)
    } else {
        done
    }
}

/// The views of a vector of strings.
pub open spec fn views(v: Seq<String>) -> Seq<Seq<char>> {
    v.map_values(|w: String| w@)
}

proof fn lemma_scan_take_step(s: Seq<char>, i: int)
    requires
        0 <= i < s.len(),
    ensures
        scan(s.take(i + 1)) == scan_step(scan(s.take(i)).0, scan(s.take(i)).1, s[i]),
{
    assert(s.take(i + 1).drop_last() =~= s.take(i));
}

/// No character of `w` is whitespace.
pub open spec fn blank_free(w: Seq<char>) -> bool {
    forall|j: int| 0 <= j < w.len() ==> !is_white_space(#[trigger] w[j])
}

/// The characters of `s` that are not whitespace, in order.
pub open spec fn non_blank(s: Seq<char>) -> Seq<char> {
    s.filter(|c: char| !is_white_space(c))
}

proof fn lemma_scan_invariant(s: Seq<char>)
    ensures
        forall|i: int| 0 <= i < scan(s).0.len() ==> (#[trigger] scan(s).0[i]).len() > 0 && blank_free(scan(s).0[i]),
        blank_free(scan(s).1),
        scan(s).0.flatten() + scan(s).1 == non_blank(s),
    decreases s.len(),
{
    reveal_with_fuel(Seq::filter, 1);
    if s.len() == 0 {
        assert(Seq::<Seq<char>>::empty().flatten() =~= Seq::<char>::empty());
        assert(non_blank(s) =~= Seq::<char>::empty());
    } else {
        let t = s.drop_last();
        let x = s.last();
        lemma_scan_invariant(t);
        let (d, c) = scan(t);
        assert(non_blank(s) == if !is_white_space(x) { non_blank(t).push(x) } else { non_blank(t) });
        if is_white_space(x) {
            if c.len() > 0 {
                d.lemma_flatten_push(c);
                assert(d.push(c).flatten() + Seq::<char>::empty() =~= d.flatten() + c);
            }
        } else {
            assert(d.flatten() + c.push(x) =~= (d.flatten() + c).push(x));
        }
    }
}

/// Every word is non-empty and holds no whitespace.
pub proof fn words_are_blank_free(s: Seq<char>)
    ensures
        forall|i: int| 0 <= i < words(s).len() ==> (#[trigger] words(s)[i]).len() > 0 && blank_free(words(s)[i]),
{
    lemma_scan_invariant(s);
}

/// The words, put back together, are exactly the characters of `s` that
/// are not whitespace: splitting drops only whitespace.
pub proof fn words_keep_every_other_char(s: Seq<char>)
    ensures
        words(s).flatten() == non_blank(s),
{
    lemma_scan_invariant(s);
    let (d, c) = scan(s);
    if c.len() > 0 {
        d.lemma_flatten_push(c);
    } else {
        assert(d.flatten() + c =~= d.flatten());
    }
}

proof fn lemma_scan_concat(x: Seq<char>, y: Seq<char>)
    requires
        scan(x).1.len() == 0,
    ensures
        scan(x + y) == (scan(x).0 + scan(y).0, scan(y).1),
    decreases y.len(),
{
    if y.len() == 0 {
        assert(x + y =~= x);
        assert(scan(x).0 + Seq::<Seq<char>>::empty() =~= scan(x).0);
        assert(scan(x).1 =~= Seq::<char>::empty());
    } else {
        let t = y.drop_last();
        let c = y.last();
        assert((x + y).drop_last() =~= x + t);
        assert((x + y).last() == c);
        lemma_scan_concat(x, t);
        let (d, cur) = scan(t);
        if is_white_space(c) && cur.len() > 0 {
            assert((scan(x).0 + d).push(cur) =~= scan(x).0 + d.push(cur));
        }
    }
}

proof fn lemma_scan_blank_free(s: Seq<char>)
    requires
        blank_free(s),
    ensures
        scan(s) == (Seq::<Seq<char>>::empty(), s),
    decreases s.len(),
{
    if s.len() == 0 {
        assert(s =~= Seq::<char>::empty());
    } else {
        assert(blank_free(s.drop_last()));
        lemma_scan_blank_free(s.drop_last());
        assert(!is_white_space(s.last()));
        assert(s.drop_last().push(s.last()) =~= s);
    }
}

/// A non-empty run without whitespace is a single word.
pub proof fn words_of_blank_free(s: Seq<char>)
    requires
        s.len() > 0,
        blank_free(s),
    ensures
        words(s) == seq![s],
{
    lemma_scan_blank_free(s);
    assert(Seq::<Seq<char>>::empty().push(s) =~= seq![s]);
}

/// A whitespace character separates words: the words of `a`, a whitespace
/// character, then `b`, are the words of `a` followed by the words of `b`.
/// With `words_of_blank_free` this says that the words are exactly the
/// maximal runs of non-whitespace characters.
pub proof fn words_split_at_blank(a: Seq<char>, w: char, b: Seq<char>)
    requires
        is_white_space(w),
    ensures
        words(a + seq![w] + b) == words(a) + words(b),
{
    let aw = a + seq![w];
    assert(aw.drop_last() =~= a);
    assert(aw.last() == w);
    assert(scan(aw).1.len() == 0);
    assert(scan(aw).0 == words(a));
    lemma_scan_concat(aw, b);
    let (d, c) = scan(b);
    if c.len() > 0 {
        assert(words(a) + d.push(c) =~= (words(a) + d).push(c));
    }
}

/// Splits `s` into its whitespace-separated words, as `split_whitespace` does.
pub fn split_words(s: &str) -> (r: Vec<String>)
    ensures
        views(r@) == words(s@),
{
    let cs = chars_of(s);
    let mut done: Vec<String> = Vec::new();
    let mut cur = String::new();
    let mut i: usize = 0;
    assert(cs@.take(0) =~= Seq::<char>::empty());
    while i < cs.len()
        invariant
            i <= cs.len(),
            cs@ == s@,
            (views(done@), cur@) == scan(cs@.take(i as int)),
        decreases cs.len() - i,
    {
        let c = cs[i];
        proof {
            lemma_scan_take_step(cs@, i as int);
        }
        if char_is_whitespace(c) {
            if !cur.as_str().is_empty() {
                let w = cur;
                done.push(w);
                cur = String::new();
                assert(views(done@) =~= scan(cs@.take(i as int)).0.push(scan(cs@.take(i as int)).1));
            }
        } else {
            push_char(&mut cur, c);
        }
        i += 1;
    }
    assert(cs@.take(cs.len() as int) =~= cs@);
    if !cur.as_str().is_empty() {
        done.push(cur);
        assert(views(done@) =~= words(s@));
    }
    done
}

// ---------------------------------------------------------------------
// Replacing the first occurrence of a literal.
/// `pat` stands in `text` at position `i`.
pub open spec fn occurs_at(text: Seq<char>, pat: Seq<char>, i: int) -> bool {
    0 <= i && i + pat.len() <= text.len() && text.subrange(i, i + pat.len()) == pat
}

/// The first position at or after `i` where `pat` stands in `text`.
pub open spec fn first_from(text: Seq<char>, pat: Seq<char>, i: int) -> Option<int>
    decreases text.len() + 1 - i,
{
    if i < 0 || i + pat.len() > text.len() {
        None
    } else if occurs_at(text, pat, i) {
        Some(i)
    } else {
        first_from(text, pat, i + 1)
    }
}

/// `text` with the leftmost occurrence of `pat` replaced by `rep`;
/// `text` itself when `pat` does not occur.
pub open spec fn replace_first_spec(text: Seq<char>, pat: Seq<char>, rep: Seq<char>) -> Seq<char> {
    match first_from(text, pat, 0) {
        Some(i) => text.take(i) + rep + text.skip(i + pat.len()),
        None => text,
    }
}

fn occurs_at_exec(t: &Vec<char>, p: &Vec<char>, i: usize) -> (r: bool)
    requires
        i + p.len() <= t.len(),
    ensures
        r == occurs_at(t@, p@, i as int),
{
    let m = p.len();
    let mut k: usize = 0;
    while k < m
        invariant
            k <= m == p.len(),
            i + m <= t.len(),
            forall|j: int| 0 <= j < k ==> t@[i + j] == p@[j],
        decreases m - k,
    {
        if t[i + k] != p[k] {
            assert(t@.subrange(i as int, i + m)[k as int] != p@[k as int]);
            return false;
        }
        k += 1;
    }
    assert(t@.subrange(i as int, i + m) =~= p@);
    true
}

/// Replaces the leftmost occurrence of `pat` in `text` by `rep`.
pub fn replace_first(text: &str, pat: &str, rep: &str) -> (r: String)
    ensures
        r@ == replace_first_spec(text@, pat@, rep@),
{
    let t = chars_of(text);
    let p = chars_of(pat);
    let n = t.len();
    let m = p.len();
    if m > n {
        return owned(text);
    }
    if m == 0 {
        let mut r = owned(rep);
        r.append(text);
        assert(t@.subrange(0, 0) =~= p@);
        assert(occurs_at(t@, p@, 0));
        assert(t@.skip(0) =~= t@);
        return r;
    }
    let mut i: usize = 0;
    while i <= n - m
        invariant
            0 < m <= n,
            i <= n - m + 1,
            n == t.len(),
            m == p.len(),
            t@ == text@,
            p@ == pat@,
            first_from(t@, p@, 0) == first_from(t@, p@, i as int),
        decreases n - i,
    {
        if occurs_at_exec(&t, &p, i) {
            let mut r = string_from_chars(&t, 0, i);
            r.append(rep);
            let tail = string_from_chars(&t, i + m, n);
            r.append(tail.as_str());
            assert(t@.take(i as int) =~= t@.subrange(0, i as int));
            assert(t@.skip(i + m) =~= t@.subrange(i + m, n as int));
            return r;
        }
        i += 1;
    }
    owned(text)
}

} // verus!
