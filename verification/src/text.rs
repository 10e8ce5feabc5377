//! Character-level text helpers: conversions between strings and character
//! vectors, whitespace trimming, splitting, joining, prefix tests, and
//! ASCII-case-insensitive comparison and search.

use vstd::prelude::*;

verus! {

/// Relies on `String::push`: appends one character to the string.
#[verifier::external_body]
pub fn push_char(s: &mut String, c: char)
    ensures
        final(s)@ == old(s)@ + seq![c],
{
    s.push(c);
}

/// The characters of a string, as a vector.
pub fn chars_vec(s: &str) -> (r: Vec<char>)
    ensures
        r@ == s@,
{
    let n = s.unicode_len();
    let mut r: Vec<char> = Vec::new();
    let mut i: usize = 0;
    while i < n
        invariant
            i <= n,
            n == s@.len(),
            r@ == s@.take(i as int),
        decreases n - i,
    {
        let c = s.get_char(i);
        r.push(c);
        i = i + 1;
        proof {
            assert(s@.take(i as int) =~= s@.take(i - 1).push(s@[i - 1]));
        }
    }
    proof {
        assert(s@.take(n as int) =~= s@);
    }
    r
}

/// A string holding exactly the given characters.
pub fn string_of(v: &Vec<char>) -> (r: String)
    ensures
        r@ == v@,
{
    let mut s = String::new();
    let mut i: usize = 0;
    while i < v.len()
        invariant
            i <= v@.len(),
            s@ == v@.take(i as int),
        decreases v@.len() - i,
    {
        push_char(&mut s, v[i]);
        i = i + 1;
        proof {
            assert(v@.take(i as int) =~= v@.take(i - 1) + seq![v@[i - 1]]);
        }
    }
    proof {
        assert(v@.take(v@.len() as int) =~= v@);
    }
    s
}

/// A copy of `v[from..to]`.
pub fn subvec(v: &Vec<char>, from: usize, to: usize) -> (r: Vec<char>)
    requires
        from <= to <= v@.len(),
    ensures
        r@ == v@.subrange(from as int, to as int),
{
    let mut r: Vec<char> = Vec::new();
    let mut i: usize = from;
    while i < to
        invariant
            from <= i <= to <= v@.len(),
            r@ == v@.subrange(from as int, i as int),
        decreases to - i,
    {
        r.push(v[i]);
        i = i + 1;
        proof {
            assert(v@.subrange(from as int, i as int) =~= v@.subrange(from as int, i - 1).push(
                v@[i - 1],
            ));
        }
    }
    r
}

/// Whether two string slices hold the same characters.
pub fn str_eq(a: &str, b: &str) -> (r: bool)
    ensures
        r == (a@ == b@),
{
    let n = a.unicode_len();
    if n != b.unicode_len() {
        return false;
    }
    let mut i: usize = 0;
    while i < n
        invariant
            i <= n,
            n == a@.len() == b@.len(),
            forall|j: int| 0 <= j < i ==> a@[j] == b@[j],
        decreases n - i,
    {
        if a.get_char(i) != b.get_char(i) {
            return false;
        }
        i = i + 1;
    }
    proof {
        assert(a@ =~= b@);
    }
    true
}

/// Whether a character vector holds the same characters as a string slice.
pub fn vec_eq_str(v: &Vec<char>, s: &str) -> (r: bool)
    ensures
        r == (v@ == s@),
{
    let n = s.unicode_len();
    if v.len() != n {
        return false;
    }
    let mut i: usize = 0;
    while i < n
        invariant
            i <= n,
            n == v@.len() == s@.len(),
            forall|j: int| 0 <= j < i ==> v@[j] == s@[j],
        decreases n - i,
    {
        if v[i] != s.get_char(i) {
            return false;
        }
        i = i + 1;
    }
    proof {
        assert(v@ =~= s@);
    }
    true
}

/// Whether `p` is a prefix of `s`.
pub open spec fn has_prefix(s: Seq<char>, p: Seq<char>) -> bool {
    p.len() <= s.len() && s.take(p.len() as int) == p
}

/// Whether the vector starts with the characters of `p`.
pub fn starts_with_str(v: &Vec<char>, p: &str) -> (r: bool)
    ensures
        r == has_prefix(v@, p@),
{
    let n = p.unicode_len();
    if v.len() < n {
        proof {
            assert(!has_prefix(v@, p@));
        }
        return false;
    }
    let mut i: usize = 0;
    while i < n
        invariant
            i <= n,
            n == p@.len() <= v@.len(),
            forall|j: int| 0 <= j < i ==> v@[j] == p@[j],
        decreases n - i,
    {
        if v[i] != p.get_char(i) {
            proof {
                assert(v@.take(p@.len() as int)[i as int] != p@[i as int]);
            }
            return false;
        }
        i = i + 1;
    }
    proof {
        assert(v@.take(p@.len() as int) =~= p@);
    }
    true
}

/// The characters Rust's `char::is_whitespace` accepts.
pub open spec fn is_ws_char(c: char) -> bool {
    c == ' ' || c == '\t' || c == '\n' || c == '\u{000B}' || c == '\u{000C}' || c == '\r' || c
        == '\u{0085}' || c == '\u{00A0}' || c == '\u{1680}' || ('\u{2000}' <= c && c
        <= '\u{200A}') || c == '\u{2028}' || c == '\u{2029}' || c == '\u{202F}' || c == '\u{205F}'
        || c == '\u{3000}'
}

/// Whitespace test for a single character.
pub fn is_ws(c: char) -> (r: bool)
    ensures
        r == is_ws_char(c),
{
    c == ' ' || c == '\t' || c == '\n' || c == '\u{000B}' || c == '\u{000C}' || c == '\r' || c
        == '\u{0085}' || c == '\u{00A0}' || c == '\u{1680}' || ('\u{2000}' <= c && c
        <= '\u{200A}') || c == '\u{2028}' || c == '\u{2029}' || c == '\u{202F}' || c == '\u{205F}'
        || c == '\u{3000}'
}

/// `s` with leading whitespace removed.
pub open spec fn trim_start_spec(s: Seq<char>) -> Seq<char>
    decreases s.len(),
{
    if s.len() > 0 && is_ws_char(s[0]) {
        trim_start_spec(s.skip(1))
    } else {
        s
    }
}

/// `s` with trailing whitespace removed.
pub open spec fn trim_end_spec(s: Seq<char>) -> Seq<char>
    decreases s.len(),
{
    if s.len() > 0 && is_ws_char(s[s.len() - 1]) {
        trim_end_spec(s.drop_last())
    } else {
        s
    }
}

/// `s` with whitespace removed from both ends.
pub open spec fn trim_spec(s: Seq<char>) -> Seq<char> {
    trim_end_spec(trim_start_spec(s))
}

/// Removes whitespace from both ends of a character vector.
pub fn trim_vec(v: &Vec<char>) -> (r: Vec<char>)
    ensures
        r@ == trim_spec(v@),
{
    let mut start: usize = 0;
    proof {
        assert(v@.skip(0) =~= v@);
    }
    while start < v.len() && is_ws(v[start])
        invariant
            start <= v@.len(),
            trim_start_spec(v@) == trim_start_spec(v@.skip(start as int)),
        decreases v@.len() - start,
    {
        proof {
            assert(v@.skip(start as int).skip(1) =~= v@.skip(start + 1));
        }
        start = start + 1;
    }
    let ghost rest = v@.skip(start as int);
    proof {
        assert(trim_start_spec(rest) == rest);
        assert(rest =~= v@.subrange(start as int, v@.len() as int));
    }
    let mut end: usize = v.len();
    while end > start && is_ws(v[end - 1])
        invariant
            start <= end <= v@.len(),
            rest == v@.skip(start as int),
            trim_start_spec(v@) == rest,
            trim_end_spec(rest) == trim_end_spec(v@.subrange(start as int, end as int)),
        decreases end,
    {
        proof {
            assert(v@.subrange(start as int, end as int).drop_last() =~= v@.subrange(
                start as int,
                end - 1,
            ));
        }
        end = end - 1;
    }
    proof {
        assert(trim_end_spec(v@.subrange(start as int, end as int)) == v@.subrange(
            start as int,
            end as int,
        ));
    }
    subvec(v, start, end)
}

/// The non-overlapping, leftmost-first split of `s` on a two-character
/// separator `[a, b]`, as `str::split` performs it.
pub open spec fn split2(s: Seq<char>, a: char, b: char) -> Seq<Seq<char>>
    decreases s.len(),
{
    if s.len() >= 2 && s[0] == a && s[1] == b {
        seq![Seq::<char>::empty()] + split2(s.skip(2), a, b)
    } else if s.len() == 0 {
        seq![Seq::<char>::empty()]
    } else {
        let rest = split2(s.skip(1), a, b);
        seq![seq![s[0]] + rest[0]] + rest.skip(1)
    }
}

/// The split of `s` on a single-character separator.
pub open spec fn split1(s: Seq<char>, a: char) -> Seq<Seq<char>>
    decreases s.len(),
{
    if s.len() >= 1 && s[0] == a {
        seq![Seq::<char>::empty()] + split1(s.skip(1), a)
    } else if s.len() == 0 {
        seq![Seq::<char>::empty()]
    } else {
        let rest = split1(s.skip(1), a);
        seq![seq![s[0]] + rest[0]] + rest.skip(1)
    }
}

pub proof fn lemma_split2_nonempty(s: Seq<char>, a: char, b: char)
    ensures
        split2(s, a, b).len() >= 1,
    decreases s.len(),
{
    if s.len() >= 2 && s[0] == a && s[1] == b {
    } else if s.len() == 0 {
    } else {
        lemma_split2_nonempty(s.skip(1), a, b);
    }
}

pub proof fn lemma_split1_nonempty(s: Seq<char>, a: char)
    ensures
        split1(s, a).len() >= 1,
    decreases s.len(),
{
    if s.len() >= 1 && s[0] == a {
    } else if s.len() == 0 {
    } else {
        lemma_split1_nonempty(s.skip(1), a);
    }
}

/// `ss` with `p` prepended to its first element.
pub open spec fn prepend_first(p: Seq<char>, ss: Seq<Seq<char>>) -> Seq<Seq<char>> {
    seq![p + ss[0]] + ss.skip(1)
}

/// Splits a character vector on the two-character separator `[a, b]`.
pub fn split2_vec(v: &Vec<char>, a: char, b: char) -> (r: Vec<Vec<char>>)
    ensures
        r@.map_values(|x: Vec<char>| x@) == split2(v@, a, b),
{
    let mut pieces: Vec<Vec<char>> = Vec::new();
    let mut cur: Vec<char> = Vec::new();
    let mut i: usize = 0;
    proof {
        lemma_split2_nonempty(v@, a, b);
        assert(v@.skip(0) =~= v@);
        assert(prepend_first(Seq::<char>::empty(), split2(v@, a, b)) =~~= split2(v@, a, b));
    }
    while i < v.len()
        invariant
            i <= v@.len(),
            split2(v@, a, b) =~~= pieces@.map_values(|x: Vec<char>| x@) + prepend_first(
                cur@,
                split2(v@.skip(i as int), a, b),
            ),
        decreases v@.len() - i,
    {
        proof {
            lemma_split2_nonempty(v@.skip(i as int), a, b);
        }
        if v[i] == a && i + 1 < v.len() && v[i + 1] == b {
            let ghost old_pieces = pieces@;
            let ghost old_cur = cur@;
            pieces.push(cur);
            cur = Vec::new();
            proof {
                assert(v@.skip(i as int).skip(2) =~= v@.skip(i + 2));
                lemma_split2_nonempty(v@.skip(i + 2), a, b);
                let ss = split2(v@.skip(i + 2), a, b);
                assert(split2(v@.skip(i as int), a, b) =~~= seq![Seq::<char>::empty()] + ss);
                assert(prepend_first(old_cur, seq![Seq::<char>::empty()] + ss) =~~= seq![old_cur]
                    + ss);
                assert(pieces@.map_values(|x: Vec<char>| x@) =~~= old_pieces.map_values(
                    |x: Vec<char>| x@,
                ).push(old_cur));
                assert(prepend_first(Seq::<char>::empty(), ss) =~~= ss);
            }
            i = i + 2;
        } else {
            let ghost old_cur = cur@;
            let c = v[i];
            cur.push(c);
            proof {
                let tail = v@.skip(i as int);
                assert(tail.skip(1) =~= v@.skip(i + 1));
                lemma_split2_nonempty(v@.skip(i + 1), a, b);
                let ss = split2(v@.skip(i + 1), a, b);
                assert(tail[0] == v@[i as int]);
                assert(split2(tail, a, b) =~~= seq![seq![tail[0]] + ss[0]] + ss.skip(1));
                assert(prepend_first(old_cur, split2(tail, a, b)) =~~= prepend_first(
                    old_cur.push(c),
                    ss,
                ));
            }
            i = i + 1;
        }
    }
    proof {
        assert(v@.skip(v@.len() as int) =~= Seq::<char>::empty());
        assert(split2(Seq::<char>::empty(), a, b) =~~= seq![Seq::<char>::empty()]);
        assert(prepend_first(cur@, seq![Seq::<char>::empty()]) =~~= seq![cur@]);
    }
    let ghost final_pieces = pieces@;
    let ghost final_cur = cur@;
    pieces.push(cur);
    proof {
        assert(pieces@.map_values(|x: Vec<char>| x@) =~~= final_pieces.map_values(
            |x: Vec<char>| x@,
        ).push(final_cur));
    }
    pieces
}

/// Splits a character vector on a single-character separator.
pub fn split1_vec(v: &Vec<char>, a: char) -> (r: Vec<Vec<char>>)
    ensures
        r@.map_values(|x: Vec<char>| x@) == split1(v@, a),
{
    let mut pieces: Vec<Vec<char>> = Vec::new();
    let mut cur: Vec<char> = Vec::new();
    let mut i: usize = 0;
    proof {
        lemma_split1_nonempty(v@, a);
        assert(v@.skip(0) =~= v@);
        assert(prepend_first(Seq::<char>::empty(), split1(v@, a)) =~~= split1(v@, a));
    }
    while i < v.len()
        invariant
            i <= v@.len(),
            split1(v@, a) =~~= pieces@.map_values(|x: Vec<char>| x@) + prepend_first(
                cur@,
                split1(v@.skip(i as int), a),
            ),
        decreases v@.len() - i,
    {
        proof {
            lemma_split1_nonempty(v@.skip(i as int), a);
        }
        if v[i] == a {
            let ghost old_pieces = pieces@;
            let ghost old_cur = cur@;
            pieces.push(cur);
            cur = Vec::new();
            proof {
                assert(v@.skip(i as int).skip(1) =~= v@.skip(i + 1));
                lemma_split1_nonempty(v@.skip(i + 1), a);
                let ss = split1(v@.skip(i + 1), a);
                assert(split1(v@.skip(i as int), a) =~~= seq![Seq::<char>::empty()] + ss);
                assert(prepend_first(old_cur, seq![Seq::<char>::empty()] + ss) =~~= seq![old_cur]
                    + ss);
                assert(pieces@.map_values(|x: Vec<char>| x@) =~~= old_pieces.map_values(
                    |x: Vec<char>| x@,
                ).push(old_cur));
                assert(prepend_first(Seq::<char>::empty(), ss) =~~= ss);
            }
            i = i + 1;
        } else {
            let ghost old_cur = cur@;
            let c = v[i];
            cur.push(c);
            proof {
                let tail = v@.skip(i as int);
                assert(tail.skip(1) =~= v@.skip(i + 1));
                lemma_split1_nonempty(v@.skip(i + 1), a);
                let ss = split1(v@.skip(i + 1), a);
                assert(tail[0] == v@[i as int]);
                assert(split1(tail, a) =~~= seq![seq![tail[0]] + ss[0]] + ss.skip(1));
                assert(prepend_first(old_cur, split1(tail, a)) =~~= prepend_first(
                    old_cur.push(c),
                    ss,
                ));
            }
            i = i + 1;
        }
    }
    proof {
        assert(v@.skip(v@.len() as int) =~= Seq::<char>::empty());
        assert(split1(Seq::<char>::empty(), a) =~~= seq![Seq::<char>::empty()]);
        assert(prepend_first(cur@, seq![Seq::<char>::empty()]) =~~= seq![cur@]);
    }
    let ghost final_pieces = pieces@;
    let ghost final_cur = cur@;
    pieces.push(cur);
    proof {
        assert(pieces@.map_values(|x: Vec<char>| x@) =~~= final_pieces.map_values(
            |x: Vec<char>| x@,
        ).push(final_cur));
    }
    pieces
}

/// The pieces joined with the single character `c` between them.
pub open spec fn join1(ss: Seq<Seq<char>>, c: char) -> Seq<char>
    decreases ss.len(),
{
    if ss.len() == 0 {
        Seq::<char>::empty()
    } else if ss.len() == 1 {
        ss[0]
    } else {
        ss[0] + seq![c] + join1(ss.skip(1), c)
    }
}

pub proof fn lemma_join1_push(ss: Seq<Seq<char>>, x: Seq<char>, c: char)
    ensures
        ss.len() == 0 ==> join1(ss.push(x), c) == x,
        ss.len() > 0 ==> join1(ss.push(x), c) == join1(ss, c) + seq![c] + x,
    decreases ss.len(),
{
    if ss.len() == 0 {
        assert(ss.push(x)[0] == x);
        assert(join1(ss.push(x), c) == x);
    } else {
        assert(ss.push(x).skip(1) =~~= ss.skip(1).push(x));
        lemma_join1_push(ss.skip(1), x, c);
        if ss.len() == 1 {
            assert(ss.skip(1).len() == 0);
            assert(join1(ss.push(x), c) == ss[0] + seq![c] + x);
            assert(join1(ss, c) == ss[0]);
        } else {
            assert(join1(ss.push(x), c) == ss[0] + seq![c] + (join1(ss.skip(1), c) + seq![c] + x));
            assert(ss[0] + seq![c] + (join1(ss.skip(1), c) + seq![c] + x) =~= (ss[0] + seq![c]
                + join1(ss.skip(1), c)) + seq![c] + x);
        }
    }
}

/// Joins the pieces with the single character `c` between them.
pub fn join1_vec(parts: &Vec<Vec<char>>, c: char) -> (r: Vec<char>)
    ensures
        r@ == join1(parts@.map_values(|x: Vec<char>| x@), c),
{
    let ghost views = parts@.map_values(|x: Vec<char>| x@);
    let mut r: Vec<char> = Vec::new();
    let mut i: usize = 0;
    while i < parts.len()
        invariant
            i <= parts@.len(),
            views == parts@.map_values(|x: Vec<char>| x@),
            r@ == join1(views.take(i as int), c),
        decreases parts@.len() - i,
    {
        let ghost old_r = r@;
        if i > 0 {
            r.push(c);
        }
        let mut j: usize = 0;
        let ghost mid_r = r@;
        while j < parts[i].len()
            invariant
                0 <= i < parts@.len(),
                j <= parts@[i as int]@.len(),
                r@ == mid_r + parts@[i as int]@.take(j as int),
            decreases parts@[i as int]@.len() - j,
        {
            let c2 = parts[i][j];
            r.push(c2);
            j = j + 1;
            proof {
                assert(parts@[i as int]@.take(j as int) =~= parts@[i as int]@.take(j - 1).push(
                    parts@[i as int]@[j - 1],
                ));
            }
        }
        proof {
            assert(parts@[i as int]@.take(parts@[i as int]@.len() as int) =~= parts@[i as int]@);
            lemma_join1_push(views.take(i as int), views[i as int], c);
            assert(views.take(i as int).push(views[i as int]) =~~= views.take(i + 1));
            if i == 0 {
                assert(r@ =~= join1(views.take(i + 1), c));
            } else {
                assert(r@ =~= join1(views.take(i as int), c) + seq![c] + views[i as int]);
            }
        }
        i = i + 1;
    }
    proof {
        assert(views.take(views.len() as int) =~~= views);
    }
    r
}

/// The lowercase image of a character under ASCII case folding, as a code
/// point.
pub open spec fn lower_u32(c: char) -> u32 {
    if 'A' as u32 <= c as u32 && c as u32 <= 'Z' as u32 {
        (c as u32 + 32) as u32
    } else {
        c as u32
    }
}

/// ASCII case folding for one character, as a code point.
pub fn lower_code(c: char) -> (r: u32)
    ensures
        r == lower_u32(c),
{
    let x = c as u32;
    if 65 <= x && x <= 90 {
        x + 32
    } else {
        x
    }
}

/// Whether `pat` occurs in `s` at position `i`, comparing characters under
/// ASCII case folding.
pub open spec fn match_ci_at(s: Seq<char>, pat: Seq<char>, i: int) -> bool {
    forall|j: int| 0 <= j < pat.len() ==> lower_u32(s[i + j]) == lower_u32(pat[j])
}

/// Whether `s` contains `pat`, comparing characters under ASCII case folding.
pub open spec fn contains_ci(s: Seq<char>, pat: Seq<char>) -> bool {
    exists|i: int| 0 <= i && i + pat.len() <= s.len() && match_ci_at(s, pat, i)
}

/// Case-insensitive substring search over a character vector.
#[verifier::loop_isolation(false)]
pub fn find_ci(v: &Vec<char>, pat: &str) -> (r: bool)
    ensures
        r == contains_ci(v@, pat@),
{
    let n = pat.unicode_len();
    let pc = chars_vec(pat);
    let vn = v.len();
    if vn < n {
        return false;
    }
    let mut i: usize = 0;
    while i <= vn - n
        invariant
            i <= vn - n + 1,
            forall|i2: int| 0 <= i2 < i ==> !match_ci_at(v@, pat@, i2),
        decreases vn - n - i + 1,
    {
        let mut j: usize = 0;
        let mut ok = true;
        while j < n
            invariant
                i <= vn - n,
                j <= n,
                ok ==> forall|j2: int| 0 <= j2 < j ==> lower_u32(v@[i + j2]) == lower_u32(pat@[j2]),
                !ok ==> j == n && !match_ci_at(v@, pat@, i as int),
            decreases n - j,
        {
            if lower_code(v[i + j]) != lower_code(pc[j]) {
                proof {
                    let jw = j as int;
                    assert(lower_u32(v@[i + jw]) != lower_u32(pat@[jw]));
                    assert(!match_ci_at(v@, pat@, i as int));
                }
                ok = false;
                j = n;
            } else {
                proof {
                    assert forall|j2: int|
                        0 <= j2 < j + 1 implies lower_u32(v@[i + j2]) == lower_u32(
                        pat@[j2],
                    ) by {}
                }
                j = j + 1;
            }
        }
        if ok {
            proof {
                assert(match_ci_at(v@, pat@, i as int));
            }
            return true;
        }
        i = i + 1;
    }
    proof {
        assert forall|i2: int| 0 <= i2 && i2 + pat@.len() <= v@.len() implies !match_ci_at(
            v@,
            pat@,
            i2,
        ) by {
            assert(i2 < i);
        }
    }
    false
}

/// Whether `s` and `pat` are equal under ASCII case folding.
pub open spec fn eq_ci(s: Seq<char>, pat: Seq<char>) -> bool {
    s.len() == pat.len() && match_ci_at(s, pat, 0)
}

/// Case-insensitive equality of a character vector and a string slice.
pub fn vec_eq_ci(v: &Vec<char>, pat: &str) -> (r: bool)
    ensures
        r == eq_ci(v@, pat@),
{
    let n = pat.unicode_len();
    if v.len() != n {
        return false;
    }
    let mut j: usize = 0;
    while j < n
        invariant
            n == pat@.len() == v@.len(),
            j <= n,
            forall|j2: int| 0 <= j2 < j ==> lower_u32(v@[j2]) == lower_u32(pat@[j2]),
        decreases n - j,
    {
        if lower_code(v[j]) != lower_code(pat.get_char(j)) {
            proof {
                assert(!match_ci_at(v@, pat@, 0));
            }
            return false;
        }
        j = j + 1;
    }
    proof {
        assert(match_ci_at(v@, pat@, 0));
    }
    true
}

} // verus!
