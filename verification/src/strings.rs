//! Verified string building blocks: character classification, substring
//! search, prefix tests, trimming, splitting and joining.
//!
//! The specification side works on `Seq<char>` views; the executable side
//! works on `&str` / `String` and is proved to agree with the specs.

use vstd::prelude::*;
use vstd::string::*;

verus! {

/// The whitespace characters recognised when trimming a command line.
pub open spec fn is_space(c: char) -> bool {
    c == ' ' || c == '\t' || c == '\n' || c == '\r'
}

/// Whitespace as a predicate, for the trimming functions.
pub open spec fn space_pred() -> spec_fn(char) -> bool {
    |c: char| is_space(c)
}

/// Double quotes as a predicate, for unquoting a configuration value.
pub open spec fn quote_pred() -> spec_fn(char) -> bool {
    |c: char| c == '"'
}

/// `pat` occurs in `s` starting at position `i`.
pub open spec fn contains_at(s: Seq<char>, pat: Seq<char>, i: int) -> bool {
    0 <= i && i + pat.len() <= s.len() && s.subrange(i, i + pat.len()) == pat
}

/// `pat` occurs somewhere in `s`.
pub open spec fn contains_substr(s: Seq<char>, pat: Seq<char>) -> bool {
    exists|i: int| contains_at(s, pat, i)
}

/// `s` begins with `p`.
pub open spec fn starts_with(s: Seq<char>, p: Seq<char>) -> bool {
    p.len() <= s.len() && s.subrange(0, p.len() as int) == p
}

/// Character-for-character equality of two string slices.
pub fn str_eq(a: &str, b: &str) -> (r: bool)
    ensures
        r == (a@ == b@),
{
    let alen = a.unicode_len();
    let blen = b.unicode_len();
    if alen != blen {
        return false;
    }
    let mut i: usize = 0;
    while i < alen
        invariant
            alen == a@.len(),
            alen == b@.len(),
            0 <= i <= alen,
            forall|j: int| 0 <= j < i ==> a@[j] == b@[j],
        decreases alen - i,
    {
        if a.get_char(i) != b.get_char(i) {
            return false;
        }
        i += 1;
    }
    proof {
        assert(a@ =~= b@);
    }
    true
}

/// `s` begins with `p`, decided executably.
pub fn str_starts_with(s: &str, p: &str) -> (r: bool)
    ensures
        r == starts_with(s@, p@),
{
    let slen = s.unicode_len();
    let plen = p.unicode_len();
    if plen > slen {
        return false;
    }
    let mut i: usize = 0;
    while i < plen
        invariant
            slen == s@.len(),
            plen == p@.len(),
            plen <= slen,
            0 <= i <= plen,
            forall|j: int| 0 <= j < i ==> s@[j] == p@[j],
        decreases plen - i,
    {
        if s.get_char(i) != p.get_char(i) {
            return false;
        }
        i += 1;
    }
    proof {
        assert(s@.subrange(0, p@.len() as int) =~= p@);
    }
    true
}

/// `pat` occurs as a substring of `s`, decided executably.
pub fn has_substr(s: &str, pat: &str) -> (r: bool)
    ensures
        r == contains_substr(s@, pat@),
{
    let slen = s.unicode_len();
    let plen = pat.unicode_len();
    if plen > slen {
        return false;
    }
    if plen == 0 {
        proof {
            assert(s@.subrange(0, 0) =~= pat@);
            assert(contains_at(s@, pat@, 0));
        }
        return true;
    }
    let mut i: usize = 0;
    while i <= slen - plen
        invariant
            slen == s@.len(),
            plen == pat@.len(),
            plen <= slen,
            0 <= i <= slen - plen + 1,
            1 <= plen,
            forall|k: int| 0 <= k < i ==> !contains_at(s@, pat@, k),
        decreases slen + 1 - plen - i,
    {
        let mut j: usize = 0;
        let mut matches_here = true;
        while j < plen
            invariant
                slen == s@.len(),
                plen == pat@.len(),
                plen <= slen,
                0 <= i <= slen - plen,
                0 <= j <= plen,
                matches_here ==> forall|m: int| 0 <= m < j ==> s@[i + m] == pat@[m],
                !matches_here ==> !contains_at(s@, pat@, i as int),
            decreases plen - j,
        {
            if s.get_char(i + j) != pat.get_char(j) {
                proof {
                    if contains_at(s@, pat@, i as int) {
                        assert(s@.subrange(i as int, i + pat@.len())[j as int] == pat@[j as int]);
                    }
                }
                matches_here = false;
                j = plen;
            } else {
                j += 1;
            }
        }
        if matches_here {
            proof {
                assert(s@.subrange(i as int, i + pat@.len()) =~= pat@);
                assert(contains_at(s@, pat@, i as int));
            }
            return true;
        }
        i += 1;
    }
    proof {
        assert forall|k: int| !contains_at(s@, pat@, k) by {
            if 0 <= k && k + pat@.len() <= s@.len() {
                assert(k < i);
            }
        }
    }
    false
}

/// Number of leading characters of `s` satisfying `p`.
pub open spec fn count_leading(s: Seq<char>, p: spec_fn(char) -> bool) -> int
    decreases s.len(),
{
    if s.len() == 0 || !p(s[0]) {
        0
    } else {
        1 + count_leading(s.drop_first(), p)
    }
}

/// Number of trailing characters of `s` satisfying `p`.
pub open spec fn count_trailing(s: Seq<char>, p: spec_fn(char) -> bool) -> int
    decreases s.len(),
{
    if s.len() == 0 || !p(s.last()) {
        0
    } else {
        1 + count_trailing(s.drop_last(), p)
    }
}

/// `s` with the characters satisfying `p` removed from both ends.
pub open spec fn trim_spec(s: Seq<char>, p: spec_fn(char) -> bool) -> Seq<char> {
    if count_leading(s, p) == s.len() {
        Seq::empty()
    } else {
        s.subrange(count_leading(s, p), s.len() - count_trailing(s, p))
    }
}

pub proof fn lemma_count_leading(s: Seq<char>, p: spec_fn(char) -> bool)
    ensures
        0 <= count_leading(s, p) <= s.len(),
        forall|j: int| 0 <= j < count_leading(s, p) ==> p(s[j]),
        count_leading(s, p) < s.len() ==> !p(s[count_leading(s, p)]),
    decreases s.len(),
{
    if s.len() == 0 || !p(s[0]) {
    } else {
        lemma_count_leading(s.drop_first(), p);
        assert forall|j: int| 0 <= j < count_leading(s, p) implies p(s[j]) by {
            if j > 0 {
                assert(s.drop_first()[j - 1] == s[j]);
            }
        }
        if count_leading(s, p) < s.len() {
            assert(s.drop_first()[count_leading(s, p) - 1] == s[count_leading(s, p)]);
        }
    }
}

pub proof fn lemma_count_trailing(s: Seq<char>, p: spec_fn(char) -> bool)
    ensures
        0 <= count_trailing(s, p) <= s.len(),
        forall|j: int| s.len() - count_trailing(s, p) <= j < s.len() ==> p(s[j]),
        count_trailing(s, p) < s.len() ==> !p(s[s.len() - count_trailing(s, p) - 1]),
    decreases s.len(),
{
    if s.len() == 0 || !p(s.last()) {
    } else {
        lemma_count_trailing(s.drop_last(), p);
        assert forall|j: int| s.len() - count_trailing(s, p) <= j < s.len() implies p(s[j]) by {
            if j < s.len() - 1 {
                assert(s.drop_last()[j] == s[j]);
            }
        }
        if count_trailing(s, p) < s.len() {
            assert(s.drop_last()[s.len() - count_trailing(s, p) - 1] == s[s.len() - count_trailing(
                s,
                p,
            ) - 1]);
        }
    }
}

/// When `s` is not made of `p`-characters alone, the two trimmed ends do not
/// overlap.
pub proof fn lemma_counts_fit(s: Seq<char>, p: spec_fn(char) -> bool)
    requires
        count_leading(s, p) < s.len(),
    ensures
        count_leading(s, p) + count_trailing(s, p) <= s.len(),
{
    lemma_count_leading(s, p);
    lemma_count_trailing(s, p);
    if count_leading(s, p) + count_trailing(s, p) > s.len() {
        assert(p(s[count_leading(s, p)]));
    }
}

/// Trim whitespace from both ends of a string slice.
pub fn trim_ws(s: &str) -> (r: &str)
    ensures
        r@ == trim_spec(s@, space_pred()),
{
    let n = s.unicode_len();
    let mut a: usize = 0;
    while a < n && is_space_char(s.get_char(a))
        invariant
            n == s@.len(),
            0 <= a <= n,
            forall|j: int| 0 <= j < a ==> is_space(s@[j]),
        decreases n - a,
    {
        a += 1;
    }
    proof {
        lemma_count_leading(s@, space_pred());
        let cl = count_leading(s@, space_pred());
        if cl < a {
            assert(is_space(s@[cl]));
        }
        if cl > a {
            assert(space_pred()(s@[a as int]));
        }
        assert(cl == a);
    }
    if a == n {
        let r = "";
        proof {
            reveal_strlit("");
        }
        return r;
    }
    let mut b: usize = 0;
    while b < n - a && is_space_char(s.get_char(n - 1 - b))
        invariant
            n == s@.len(),
            0 <= a < n,
            0 <= b <= n - a,
            !is_space(s@[a as int]),
            forall|j: int| n - b <= j < n ==> is_space(s@[j]),
        decreases n - a - b,
    {
        b += 1;
    }
    proof {
        lemma_count_trailing(s@, space_pred());
        lemma_counts_fit(s@, space_pred());
        let ct = count_trailing(s@, space_pred());
        if ct < b {
            assert(is_space(s@[n - ct - 1]));
        }
        if ct > b {
            if b < n - a {
                assert(space_pred()(s@[n as int - b - 1]));
            } else {
                assert(is_space(s@[a as int]));
            }
        }
        assert(ct == b);
    }
    s.substring_char(a, n - b)
}

/// Trim double quotes from both ends of a string slice.
pub fn trim_quotes(s: &str) -> (r: &str)
    ensures
        r@ == trim_spec(s@, quote_pred()),
{
    let n = s.unicode_len();
    let mut a: usize = 0;
    while a < n && s.get_char(a) == '"'
        invariant
            n == s@.len(),
            0 <= a <= n,
            forall|j: int| 0 <= j < a ==> s@[j] == '"',
        decreases n - a,
    {
        a += 1;
    }
    proof {
        lemma_count_leading(s@, quote_pred());
        let cl = count_leading(s@, quote_pred());
        if cl < a {
            assert(quote_pred()(s@[cl]));
        }
        if cl > a {
            assert(quote_pred()(s@[a as int]));
        }
        assert(cl == a);
    }
    if a == n {
        let r = "";
        proof {
            reveal_strlit("");
        }
        return r;
    }
    let mut b: usize = 0;
    while b < n - a && s.get_char(n - 1 - b) == '"'
        invariant
            n == s@.len(),
            0 <= a < n,
            0 <= b <= n - a,
            s@[a as int] != '"',
            forall|j: int| n - b <= j < n ==> s@[j] == '"',
        decreases n - a - b,
    {
        b += 1;
    }
    proof {
        lemma_count_trailing(s@, quote_pred());
        lemma_counts_fit(s@, quote_pred());
        let ct = count_trailing(s@, quote_pred());
        if ct < b {
            assert(quote_pred()(s@[n - ct - 1]));
        }
        if ct > b {
            if b < n - a {
                assert(quote_pred()(s@[n as int - b - 1]));
            } else {
                assert(quote_pred()(s@[a as int]));
            }
        }
        assert(ct == b);
    }
    s.substring_char(a, n - b)
}

/// The pieces of `s` between occurrences of `sep`, in order.  As with Rust's
/// `split`, there is always at least one piece, and empty pieces are kept.
pub open spec fn split_spec(s: Seq<char>, sep: char) -> Seq<Seq<char>>
    decreases s.len(),
{
    if s.len() == 0 {
        seq![s]
    } else if s[0] == sep {
        seq![Seq::<char>::empty()] + split_spec(s.drop_first(), sep)
    } else {
        let rest = split_spec(s.drop_first(), sep);
        seq![seq![s[0]] + rest[0]] + rest.drop_first()
    }
}

/// The pieces of `ts` joined with `sep` between them.
pub open spec fn join_spec(ts: Seq<Seq<char>>, sep: char) -> Seq<char>
    decreases ts.len(),
{
    if ts.len() == 0 {
        Seq::empty()
    } else if ts.len() == 1 {
        ts[0]
    } else {
        ts[0] + seq![sep] + join_spec(ts.drop_first(), sep)
    }
}

pub proof fn lemma_split_nonempty(s: Seq<char>, sep: char)
    ensures
        split_spec(s, sep).len() >= 1,
    decreases s.len(),
{
    if s.len() == 0 {
    } else if s[0] == sep {
        lemma_split_nonempty(s.drop_first(), sep);
    } else {
        lemma_split_nonempty(s.drop_first(), sep);
    }
}

/// Joining the pieces of a split restores the original sequence.
pub proof fn lemma_join_split(s: Seq<char>, sep: char)
    ensures
        join_spec(split_spec(s, sep), sep) == s,
    decreases s.len(),
{
    if s.len() == 0 {
        assert(join_spec(split_spec(s, sep), sep) =~= s);
    } else if s[0] == sep {
        lemma_join_split(s.drop_first(), sep);
        lemma_split_nonempty(s.drop_first(), sep);
        let parts = seq![Seq::<char>::empty()] + split_spec(s.drop_first(), sep);
        assert(parts.drop_first() =~= split_spec(s.drop_first(), sep));
        assert(parts[0] + seq![sep] + join_spec(parts.drop_first(), sep) =~= s);
    } else {
        lemma_join_split(s.drop_first(), sep);
        lemma_split_nonempty(s.drop_first(), sep);
        let rest = split_spec(s.drop_first(), sep);
        let parts = seq![seq![s[0]] + rest[0]] + rest.drop_first();
        if rest.len() == 1 {
            assert(join_spec(rest, sep) == rest[0]);
            assert(parts.len() == 1);
            assert(parts[0] =~= seq![s[0]] + rest[0]);
            assert(seq![s[0]] + rest[0] =~= s);
        } else {
            assert(parts.drop_first() =~= rest.drop_first());
            assert(join_spec(parts, sep) == parts[0] + seq![sep] + join_spec(
                rest.drop_first(),
                sep,
            ));
            assert(join_spec(rest, sep) == rest[0] + seq![sep] + join_spec(rest.drop_first(), sep));
            assert(seq![s[0]] + join_spec(rest, sep) =~= s);
            assert(parts[0] + seq![sep] + join_spec(rest.drop_first(), sep) =~= seq![s[0]] + (
            rest[0] + seq![sep] + join_spec(rest.drop_first(), sep)));
        }
    }
}

/// A nonempty sequence of pieces whose first piece is extended in front by
/// `prefix`.
pub open spec fn prepend_first(prefix: Seq<char>, ps: Seq<Seq<char>>) -> Seq<Seq<char>> {
    if ps.len() == 0 {
        seq![prefix]
    } else {
        seq![prefix + ps[0]] + ps.drop_first()
    }
}

/// Split a string slice on a separator character, keeping empty pieces.
pub fn split_char(s: &str, sep: char) -> (r: Vec<String>)
    ensures
        r.deep_view() == split_spec(s@, sep),
{
    let n = s.unicode_len();
    let mut out: Vec<String> = Vec::new();
    let mut start: usize = 0;
    let mut i: usize = 0;
    proof {
        lemma_split_nonempty(s@, sep);
        assert(s@.subrange(0, n as int) =~= s@);
        assert(s@.subrange(0, 0) =~= Seq::<char>::empty());
        assert(out.deep_view() =~= Seq::<Seq<char>>::empty());
        assert(prepend_first(Seq::<char>::empty(), split_spec(s@, sep)) =~~= split_spec(s@, sep));
        assert(Seq::<Seq<char>>::empty() + split_spec(s@, sep) =~= split_spec(s@, sep));
    }
    while i < n
        invariant
            n == s@.len(),
            0 <= start <= i <= n,
            split_spec(s@, sep) == out.deep_view() + prepend_first(
                s@.subrange(start as int, i as int),
                split_spec(s@.subrange(i as int, n as int), sep),
            ),
        decreases n - i,
    {
        proof {
            lemma_split_nonempty(s@.subrange(i as int, n as int), sep);
            lemma_split_nonempty(s@.subrange(i + 1, n as int), sep);
            assert(s@.subrange(i as int, n as int).drop_first() =~= s@.subrange(i + 1, n as int));
            assert(s@.subrange(i as int, n as int)[0] == s@[i as int]);
        }
        if s.get_char(i) == sep {
            let piece = s.substring_char(start, i);
            let ghost old_out = out.deep_view();
            out.push(piece.to_owned());
            proof {
                let cur = s@.subrange(start as int, i as int);
                let tail = split_spec(s@.subrange(i + 1, n as int), sep);
                let here = split_spec(s@.subrange(i as int, n as int), sep);
                assert(out.deep_view() =~= old_out.push(cur));
                assert(here == seq![Seq::<char>::empty()] + tail);
                assert(prepend_first(cur, here) =~~= seq![cur] + tail);
                assert(prepend_first(Seq::<char>::empty(), tail) =~~= tail);
                assert(old_out + (seq![cur] + tail) =~~= old_out.push(cur) + tail);
            }
            start = i + 1;
        } else {
            proof {
                let cur = s@.subrange(start as int, i as int);
                let restsplit = split_spec(s@.subrange(i + 1, n as int), sep);
                let here = split_spec(s@.subrange(i as int, n as int), sep);
                assert(here == seq![seq![s@[i as int]] + restsplit[0]] + restsplit.drop_first());
                assert(prepend_first(cur, here) =~~= seq![cur + seq![s@[i as int]] + restsplit[0]]
                    + restsplit.drop_first());
                assert(cur + seq![s@[i as int]] =~= s@.subrange(start as int, i + 1));
                assert(prepend_first(cur, here) =~~= prepend_first(
                    s@.subrange(start as int, i + 1),
                    restsplit,
                ));
            }
        }
        i += 1;
    }
    let last = s.substring_char(start, n);
    let ghost old_out = out.deep_view();
    out.push(last.to_owned());
    proof {
        let cur = s@.subrange(start as int, n as int);
        assert(s@.subrange(n as int, n as int) =~= Seq::<char>::empty());
        assert(split_spec(s@.subrange(n as int, n as int), sep) == seq![
            s@.subrange(n as int, n as int),
        ]);
        assert(prepend_first(cur, split_spec(s@.subrange(n as int, n as int), sep)) =~~= seq![cur]);
        assert(out.deep_view() =~= old_out.push(cur));
        assert(old_out + seq![cur] =~= old_out.push(cur));
    }
    out
}

/// The lines of `s`, split on newline characters; a trailing newline does
/// not produce a final empty line.
pub open spec fn lines_spec(s: Seq<char>) -> Seq<Seq<char>> {
    if s.len() == 0 {
        Seq::empty()
    } else if s.last() == '\n' {
        split_spec(s.drop_last(), '\n')
    } else {
        split_spec(s, '\n')
    }
}

/// Split a string slice into its lines.
pub fn lines_of(s: &str) -> (r: Vec<String>)
    ensures
        r.deep_view() == lines_spec(s@),
{
    let n = s.unicode_len();
    if n == 0 {
        let r: Vec<String> = Vec::new();
        proof {
            assert(r.deep_view() =~= Seq::<Seq<char>>::empty());
        }
        return r;
    }
    if s.get_char(n - 1) == '\n' {
        let body = s.substring_char(0, n - 1);
        proof {
            assert(body@ =~= s@.drop_last());
        }
        split_char(body, '\n')
    } else {
        split_char(s, '\n')
    }
}

/// Join pieces with a one-character separator.
pub fn join_with(pieces: &Vec<String>, sep: &str) -> (r: String)
    requires
        sep@.len() == 1,
    ensures
        r@ == join_spec(pieces.deep_view(), sep@[0]),
{
    let n = pieces.len();
    let mut r = String::new();
    let mut i: usize = 0;
    proof {
        assert(pieces.deep_view().skip(0) =~= pieces.deep_view());
        assert(Seq::<char>::empty() + join_spec(pieces.deep_view(), sep@[0]) =~= join_spec(
            pieces.deep_view(),
            sep@[0],
        ));
    }
    while i < n
        invariant
            n == pieces.len(),
            sep@.len() == 1,
            0 <= i <= n,
            join_spec(pieces.deep_view(), sep@[0]) == r@ + join_spec(
                pieces.deep_view().skip(i as int),
                sep@[0],
            ),
        decreases n - i,
    {
        let ghost views = pieces.deep_view();
        let ghost suffix = views.skip(i as int);
        let ghost r0 = r@;
        let ghost c = sep@[0];
        proof {
            assert(suffix.len() == n - i);
            assert(views[i as int] == pieces[i as int]@);
            assert(suffix[0] == views[i as int]);
        }
        r.append(pieces[i].as_str());
        if i + 1 < n {
            r.append(sep);
            proof {
                assert(suffix.len() >= 2);
                assert(suffix.drop_first() =~= views.skip(i + 1));
                assert(join_spec(suffix, c) == suffix[0] + seq![c] + join_spec(
                    views.skip(i + 1),
                    c,
                ));
                assert(sep@ =~= seq![c]);
                assert(r@ =~= r0 + suffix[0] + seq![c]);
                assert(r0 + join_spec(suffix, c) =~= r@ + join_spec(views.skip(i + 1), c));
            }
        } else {
            proof {
                assert(suffix.len() == 1);
                assert(join_spec(suffix, c) == suffix[0]);
                assert(views.skip(i + 1) =~= Seq::<Seq<char>>::empty());
                assert(r0 + join_spec(suffix, c) =~= r@ + join_spec(views.skip(i + 1), c));
            }
        }
        i += 1;
    }
    proof {
        assert(pieces.deep_view().skip(n as int) =~= Seq::<Seq<char>>::empty());
        assert(r@ + join_spec(Seq::<Seq<char>>::empty(), sep@[0]) =~= r@);
    }
    r
}

/// Whether a vector of strings holds a string with the given contents.
pub fn vec_contains_string(v: &Vec<String>, x: &String) -> (r: bool)
    ensures
        r == v.deep_view().contains(x@),
{
    let mut i: usize = 0;
    while i < v.len()
        invariant
            0 <= i <= v.len(),
            forall|j: int| 0 <= j < i ==> v.deep_view()[j] != x@,
        decreases v.len() - i,
    {
        if str_eq(v[i].as_str(), x.as_str()) {
            proof {
                assert(v.deep_view()[i as int] == x@);
            }
            return true;
        }
        i += 1;
    }
    proof {
        assert(forall|j: int| 0 <= j < v.deep_view().len() ==> v.deep_view()[j] != x@);
    }
    false
}

/// Whitespace test on a single character.
pub fn is_space_char(c: char) -> (b: bool)
    ensures
        b == is_space(c),
{
    c == ' ' || c == '\t' || c == '\n' || c == '\r'
}

} // verus!
