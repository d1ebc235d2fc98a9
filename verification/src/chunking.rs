use vstd::prelude::*;

use vstd::string::{StringExecFns, StringSliceAdditionalSpecFns};
use vstd::utf8::{decode_utf8, encode_utf8, is_char_boundary};

use crate::digest::{sha256_hex, sha256_spec};
use crate::text::{blen, chars_of, dec_nat, extend_chars, extend_vec, hex_lower, push_dec_u64, string_of};

verus! {

// ---------------------------------------------------------------------------
// HTML to plain text
// ---------------------------------------------------------------------------

/// The characters of `s` that lie outside markup: `<` starts a tag, `>`
/// ends one, and everything read while inside a tag is dropped.
pub open spec fn drop_tags(s: Seq<char>, in_tag: bool) -> Seq<char>
    decreases s.len(),
{
    if s.len() == 0 {
        Seq::empty()
    } else if s[0] == '<' {
        drop_tags(s.drop_first(), true)
    } else if s[0] == '>' {
        drop_tags(s.drop_first(), false)
    } else if !in_tag {
        seq![s[0]] + drop_tags(s.drop_first(), in_tag)
    } else {
        drop_tags(s.drop_first(), in_tag)
    }
}

/// Every occurrence of `pat` in `s` replaced by `rep`, matching leftmost
/// first and without overlap (as `str::replace` does).
pub open spec fn replace_all(s: Seq<char>, pat: Seq<char>, rep: Seq<char>) -> Seq<char>
    decreases s.len(),
{
    if s.len() == 0 || pat.len() == 0 {
        s
    } else if pat.is_prefix_of(s) {
        rep + replace_all(s.skip(pat.len() as int), pat, rep)
    } else {
        seq![s[0]] + replace_all(s.drop_first(), pat, rep)
    }
}

/// Unicode White_Space, the set `char::is_whitespace` tests.
pub open spec fn is_ws(c: char) -> bool {
    let u = c as u32;
    (0x9 <= u && u <= 0xD) || u == 0x20 || u == 0x85 || u == 0xA0 || u == 0x1680 || (0x2000 <= u
        && u <= 0x200A) || u == 0x2028 || u == 0x2029 || u == 0x202F || u == 0x205F || u == 0x3000
}

pub open spec fn trim_start(s: Seq<char>) -> Seq<char>
    decreases s.len(),
{
    if s.len() > 0 && is_ws(s[0]) {
        trim_start(s.drop_first())
    } else {
        s
    }
}

pub open spec fn trim_end(s: Seq<char>) -> Seq<char>
    decreases s.len(),
{
    if s.len() > 0 && is_ws(s.last()) {
        trim_end(s.drop_last())
    } else {
        s
    }
}

/// `str::trim`: leading and trailing whitespace removed.
pub open spec fn trim(s: Seq<char>) -> Seq<char> {
    trim_end(trim_start(s))
}

/// The pieces of `s` between `sep` characters (one more piece than there
/// are separators).
pub open spec fn split_on(s: Seq<char>, sep: char) -> Seq<Seq<char>>
    decreases s.len(),
{
    if s.len() == 0 {
        seq![Seq::empty()]
    } else {
        let r = split_on(s.drop_last(), sep);
        if s.last() == sep {
            r.push(Seq::empty())
        } else {
            r.update(r.len() - 1, r.last().push(s.last()))
        }
    }
}

/// `s.split(sep)`: the pieces of `s` between occurrences of `sep`.
pub fn split_chars(s: &str, sep: char) -> (r: Vec<Vec<char>>)
    ensures
        texts_of(r@) == split_on(s@, sep),
{
    let v = chars_of(s);
    let mut done: Vec<Vec<char>> = Vec::new();
    let mut cur: Vec<char> = Vec::new();
    let mut i: usize = 0;
    proof {
        assert(v@.take(0) =~= Seq::<char>::empty());
        assert(texts_of(done@).push(cur@) =~= seq![Seq::<char>::empty()]);
    }
    while i < v.len()
        invariant
            v@ == s@,
            0 <= i <= v@.len(),
            texts_of(done@).push(cur@) == split_on(v@.take(i as int), sep),
        decreases v@.len() - i,
    {
        let c = v[i];
        let ghost prev = split_on(v@.take(i as int), sep);
        proof {
            assert(v@.take(i + 1).drop_last() =~= v@.take(i as int));
            assert(v@.take(i + 1).last() == c);
        }
        if c == sep {
            let ghost before = texts_of(done@);
            done.push(cur);
            cur = Vec::new();
            proof {
                assert(texts_of(done@) =~= before.push(prev.last()));
                assert(texts_of(done@).push(cur@) =~= prev.push(Seq::empty()));
            }
        } else {
            let ghost before = texts_of(done@);
            cur.push(c);
            proof {
                assert(texts_of(done@).push(cur@) =~= prev.update(prev.len() - 1, prev.last().push(c)));
            }
        }
        i = i + 1;
    }
    proof {
        assert(v@.take(i as int) =~= v@);
    }
    let ghost before = texts_of(done@);
    done.push(cur);
    proof {
        assert(texts_of(done@) =~= before.push(cur@));
    }
    done
}

/// The items of `parts` with `sep` between consecutive ones.
pub open spec fn join_with(parts: Seq<Seq<char>>, sep: Seq<char>) -> Seq<char>
    decreases parts.len(),
{
    if parts.len() == 0 {
        Seq::empty()
    } else if parts.len() == 1 {
        parts[0]
    } else {
        join_with(parts.drop_last(), sep) + sep + parts.last()
    }
}

pub open spec fn trim_fn() -> spec_fn(Seq<char>) -> Seq<char> {
    |l: Seq<char>| trim(l)
}

pub open spec fn nonempty_fn() -> spec_fn(Seq<char>) -> bool {
    |l: Seq<char>| l.len() > 0
}

/// The given lines trimmed, with the blank ones dropped.
pub open spec fn kept_lines(lines: Seq<Seq<char>>) -> Seq<Seq<char>> {
    lines.map_values(trim_fn()).filter(nonempty_fn())
}

/// Lines of `s` trimmed, blank ones dropped, rejoined with `\n`.
pub open spec fn collapse_lines(s: Seq<char>) -> Seq<char> {
    join_with(kept_lines(split_on(s, '\n')), seq!['\n'])
}

/// The entity decodings `strip_html` applies, in order.
pub open spec fn decode_entities(s: Seq<char>) -> Seq<char> {
    let s1 = replace_all(s, "&amp;"@, "&"@);
    let s2 = replace_all(s1, "&lt;"@, "<"@);
    let s3 = replace_all(s2, "&gt;"@, ">"@);
    let s4 = replace_all(s3, "&quot;"@, "\""@);
    let s5 = replace_all(s4, "&#x27;"@, "'"@);
    let s6 = replace_all(s5, "&nbsp;"@, " "@);
    replace_all(s6, "&#39;"@, "'"@)
}

/// Plain text of an HTML fragment: tags dropped, common entities decoded,
/// each line trimmed and blank lines removed.
pub open spec fn spec_strip_html(html: Seq<char>) -> Seq<char> {
    collapse_lines(decode_entities(drop_tags(html, false)))
}

fn drop_tags_exec(s: &Vec<char>) -> (r: Vec<char>)
    ensures
        r@ == drop_tags(s@, false),
{
    let mut out: Vec<char> = Vec::new();
    let mut in_tag = false;
    let mut i: usize = 0;
    proof {
        assert(s@.skip(0) =~= s@);
        assert(out@ + drop_tags(s@, false) =~= drop_tags(s@, false));
    }
    while i < s.len()
        invariant
            0 <= i <= s@.len(),
            drop_tags(s@, false) == out@ + drop_tags(s@.skip(i as int), in_tag),
        decreases s@.len() - i,
    {
        let c = s[i];
        proof {
            assert(s@.skip(i as int).drop_first() =~= s@.skip(i + 1));
            assert(s@.skip(i as int)[0] == c);
        }
        if c == '<' {
            in_tag = true;
        } else if c == '>' {
            in_tag = false;
        } else if !in_tag {
            out.push(c);
            proof {
                assert(out@ + drop_tags(s@.skip(i + 1), in_tag) =~= out@.drop_last() + (seq![c]
                    + drop_tags(s@.skip(i + 1), in_tag)));
            }
        }
        i = i + 1;
    }
    proof {
        assert(s@.skip(s@.len() as int) =~= Seq::<char>::empty());
        assert(out@ + Seq::<char>::empty() =~= out@);
    }
    out
}

fn matches_at(s: &Vec<char>, i: usize, pat: &Vec<char>) -> (r: bool)
    requires
        i <= s@.len(),
    ensures
        r == pat@.is_prefix_of(s@.skip(i as int)),
{
    if pat.len() > s.len() - i {
        return false;
    }
    let mut k: usize = 0;
    while k < pat.len()
        invariant
            i <= s@.len(),
            i + pat@.len() <= s@.len(),
            0 <= k <= pat@.len(),
            forall|j: int| 0 <= j < k ==> pat@[j] == s@[i + j],
        decreases pat@.len() - k,
    {
        assert(i + k < s.len());
        if pat[k] != s[i + k] {
            proof {
                assert(s@.skip(i as int).subrange(0, pat@.len() as int)[k as int] == s@[i + k]);
            }
            return false;
        }
        k = k + 1;
    }
    proof {
        assert(pat@ =~= s@.skip(i as int).subrange(0, pat@.len() as int));
    }
    true
}

fn replace_all_exec(s: &Vec<char>, pat: &Vec<char>, rep: &Vec<char>) -> (r: Vec<char>)
    requires
        pat@.len() > 0,
    ensures
        r@ == replace_all(s@, pat@, rep@),
{
    let mut out: Vec<char> = Vec::new();
    let mut i: usize = 0;
    proof {
        assert(s@.skip(0) =~= s@);
        assert(out@ + replace_all(s@, pat@, rep@) =~= replace_all(s@, pat@, rep@));
    }
    while i < s.len()
        invariant
            pat@.len() > 0,
            0 <= i <= s@.len(),
            replace_all(s@, pat@, rep@) == out@ + replace_all(s@.skip(i as int), pat@, rep@),
        decreases s@.len() - i,
    {
        let ghost rest = s@.skip(i as int);
        if matches_at(s, i, pat) {
            let ghost before = out@;
            extend_vec(&mut out, rep);
            proof {
                assert(rest.skip(pat@.len() as int) =~= s@.skip(i + pat@.len()));
                assert(before + (rep@ + replace_all(s@.skip(i + pat@.len()), pat@, rep@)) =~= out@
                    + replace_all(s@.skip(i + pat@.len()), pat@, rep@));
            }
            i = i + pat.len();
        } else {
            let c = s[i];
            out.push(c);
            proof {
                assert(rest.drop_first() =~= s@.skip(i + 1));
                assert(rest[0] == c);
                assert(out@.drop_last() + (seq![c] + replace_all(s@.skip(i + 1), pat@, rep@))
                    =~= out@ + replace_all(s@.skip(i + 1), pat@, rep@));
            }
            i = i + 1;
        }
    }
    proof {
        assert(s@.skip(s@.len() as int) =~= Seq::<char>::empty());
        assert(out@ + Seq::<char>::empty() =~= out@);
    }
    out
}

fn replace_str(s: &Vec<char>, pat: &str, rep: &str) -> (r: Vec<char>)
    requires
        pat@.len() > 0,
    ensures
        r@ == replace_all(s@, pat@, rep@),
{
    let p = chars_of(pat);
    let q = chars_of(rep);
    replace_all_exec(s, &p, &q)
}

fn is_whitespace_char(c: char) -> (r: bool)
    ensures
        r == is_ws(c),
{
    let u = c as u32;
    (0x9 <= u && u <= 0xD) || u == 0x20 || u == 0x85 || u == 0xA0 || u == 0x1680 || (0x2000 <= u
        && u <= 0x200A) || u == 0x2028 || u == 0x2029 || u == 0x202F || u == 0x205F || u == 0x3000
}

fn trim_exec(v: &Vec<char>) -> (r: Vec<char>)
    ensures
        r@ == trim(v@),
{
    let mut a: usize = 0;
    proof {
        assert(v@.skip(0) =~= v@);
    }
    while a < v.len() && is_whitespace_char(v[a])
        invariant
            0 <= a <= v@.len(),
            trim_start(v@) == trim_start(v@.skip(a as int)),
        decreases v@.len() - a,
    {
        proof {
            assert(v@.skip(a as int).drop_first() =~= v@.skip(a + 1));
        }
        a = a + 1;
    }
    let ghost t = v@.skip(a as int);
    proof {
        if a == v@.len() {
            assert(t =~= Seq::<char>::empty());
        }
        assert(trim_start(v@) == t);
        assert(t.take(t.len() as int) =~= t);
    }
    let mut b: usize = v.len();
    while b > a && is_whitespace_char(v[b - 1])
        invariant
            a <= b <= v@.len(),
            t == v@.skip(a as int),
            trim_end(t) == trim_end(t.take(b - a)),
        decreases b,
    {
        proof {
            assert(t.take(b - a).drop_last() =~= t.take(b - 1 - a));
            assert(t.take(b - a).last() == v@[b - 1]);
        }
        b = b - 1;
    }
    let mut out: Vec<char> = Vec::new();
    let mut k: usize = a;
    while k < b
        invariant
            a <= k <= b <= v@.len(),
            t == v@.skip(a as int),
            out@ == t.take(k - a),
        decreases b - k,
    {
        out.push(v[k]);
        proof {
            assert(t.take(k + 1 - a) =~= t.take(k - a).push(v@[k as int]));
        }
        k = k + 1;
    }
    proof {
        if b == a {
            assert(t.take(0) =~= Seq::<char>::empty());
        } else {
            assert(!is_ws(t.take(b - a).last()));
        }
        assert(trim_end(t.take(b - a)) == t.take(b - a));
    }
    out
}

proof fn lemma_map_push<A, B>(s: Seq<A>, x: A, f: spec_fn(A) -> B)
    ensures
        s.push(x).map_values(f) == s.map_values(f).push(f(x)),
{
    assert(s.push(x).map_values(f) =~= s.map_values(f).push(f(x)));
}

proof fn lemma_kept_push(lines: Seq<Seq<char>>, l: Seq<char>)
    ensures
        kept_lines(lines.push(l)) == if trim(l).len() > 0 {
            kept_lines(lines).push(trim(l))
        } else {
            kept_lines(lines)
        },
{
    lemma_map_push(lines, l, trim_fn());
    lines.map_values(trim_fn()).lemma_filter_push(trim(l), nonempty_fn());
}

proof fn lemma_join_push(parts: Seq<Seq<char>>, x: Seq<char>, sep: Seq<char>)
    ensures
        join_with(parts.push(x), sep) == if parts.len() == 0 {
            x
        } else {
            join_with(parts, sep) + sep + x
        },
{
    assert(parts.push(x).drop_last() =~= parts);
    if parts.len() == 0 {
        assert(parts.push(x)[0] == x);
    }
}

fn collapse_lines_exec(s: &Vec<char>) -> (r: Vec<char>)
    ensures
        r@ == collapse_lines(s@),
{
    let mut out: Vec<char> = Vec::new();
    let mut cur: Vec<char> = Vec::new();
    let mut i: usize = 0;
    proof {
        assert(s@.take(0) =~= Seq::<char>::empty());
        assert(split_on(Seq::<char>::empty(), '\n') =~= seq![Seq::<char>::empty()]);
        assert(split_on(s@.take(0), '\n').drop_last() =~= Seq::<Seq<char>>::empty());
        assert(kept_lines(Seq::<Seq<char>>::empty()) =~= Seq::<Seq<char>>::empty());
    }
    while i < s.len()
        invariant
            0 <= i <= s@.len(),
            split_on(s@.take(i as int), '\n').len() > 0,
            cur@ == split_on(s@.take(i as int), '\n').last(),
            out@ == join_with(kept_lines(split_on(s@.take(i as int), '\n').drop_last()), seq!['\n']),
            (out@.len() == 0) == (kept_lines(split_on(s@.take(i as int), '\n').drop_last()).len() == 0),
        decreases s@.len() - i,
    {
        let c = s[i];
        let ghost lines = split_on(s@.take(i as int), '\n');
        proof {
            assert(s@.take(i + 1).drop_last() =~= s@.take(i as int));
            assert(s@.take(i + 1).last() == c);
        }
        if c == '\n' {
            let t = trim_exec(&cur);
            proof {
                assert(split_on(s@.take(i + 1), '\n') == lines.push(Seq::<char>::empty()));
                assert(lines.push(Seq::<char>::empty()).drop_last() =~= lines);
                assert(lines =~= lines.drop_last().push(lines.last()));
                lemma_kept_push(lines.drop_last(), lines.last());
            }
            if t.len() > 0 {
                let ghost prev = out@;
                if out.len() > 0 {
                    out.push('\n');
                }
                extend_vec(&mut out, &t);
                proof {
                    lemma_join_push(kept_lines(lines.drop_last()), t@, seq!['\n']);
                    if prev.len() > 0 {
                        assert(out@ =~= prev + seq!['\n'] + t@);
                    } else {
                        assert(out@ =~= t@);
                    }
                }
            }
            cur = Vec::new();
        } else {
            cur.push(c);
            proof {
                assert(split_on(s@.take(i + 1), '\n') == lines.update(lines.len() - 1, lines.last().push(c)));
                assert(lines.update(lines.len() - 1, lines.last().push(c)).drop_last() =~= lines.drop_last());
            }
        }
        i = i + 1;
    }
    let ghost lines = split_on(s@.take(i as int), '\n');
    proof {
        assert(s@.take(i as int) =~= s@);
        assert(lines =~= lines.drop_last().push(lines.last()));
        lemma_kept_push(lines.drop_last(), lines.last());
    }
    let t = trim_exec(&cur);
    if t.len() > 0 {
        let ghost prev = out@;
        if out.len() > 0 {
            out.push('\n');
        }
        extend_vec(&mut out, &t);
        proof {
            lemma_join_push(kept_lines(lines.drop_last()), t@, seq!['\n']);
            if prev.len() > 0 {
                assert(out@ =~= prev + seq!['\n'] + t@);
            } else {
                assert(out@ =~= t@);
            }
        }
    }
    out
}

/// Strip HTML tags from a string, producing plain text: markup is dropped,
/// the common entities (`&amp;`, `&lt;`, `&gt;`, `&quot;`, `&#x27;`,
/// `&nbsp;`, `&#39;`) are decoded in that order, and each line is trimmed
/// with blank lines removed.
pub fn strip_html(html: &str) -> (r: String)
    ensures
        r@ == spec_strip_html(html@),
{
    proof {
        reveal_strlit("&amp;");
        reveal_strlit("&lt;");
        reveal_strlit("&gt;");
        reveal_strlit("&quot;");
        reveal_strlit("&#x27;");
        reveal_strlit("&nbsp;");
        reveal_strlit("&#39;");
    }
    let chars = chars_of(html);
    let t = drop_tags_exec(&chars);
    let s1 = replace_str(&t, "&amp;", "&");
    let s2 = replace_str(&s1, "&lt;", "<");
    let s3 = replace_str(&s2, "&gt;", ">");
    let s4 = replace_str(&s3, "&quot;", "\"");
    let s5 = replace_str(&s4, "&#x27;", "'");
    let s6 = replace_str(&s5, "&nbsp;", " ");
    let s7 = replace_str(&s6, "&#39;", "'");
    let out = collapse_lines_exec(&s7);
    string_of(&out)
}

// ---------------------------------------------------------------------------
// Stripping twice
// ---------------------------------------------------------------------------

/// `s` has no occurrence of `c`.
pub open spec fn lacks(s: Seq<char>, c: char) -> bool {
    forall|i: int| 0 <= i < s.len() ==> s[i] != c
}

proof fn lemma_lacks_add(a: Seq<char>, b: Seq<char>, c: char)
    requires
        lacks(a, c),
        lacks(b, c),
    ensures
        lacks(a + b, c),
{
    assert forall|i: int| 0 <= i < (a + b).len() implies (a + b)[i] != c by {
        if i >= a.len() {
            assert((a + b)[i] == b[i - a.len()]);
        }
    }
}

proof fn lemma_lacks_subrange(s: Seq<char>, lo: int, hi: int, c: char)
    requires
        lacks(s, c),
        0 <= lo <= hi <= s.len(),
    ensures
        lacks(s.subrange(lo, hi), c),
{
    assert forall|i: int| 0 <= i < hi - lo implies s.subrange(lo, hi)[i] != c by {
        assert(s.subrange(lo, hi)[i] == s[lo + i]);
    }
}

proof fn lemma_drop_tags_lacks(s: Seq<char>, in_tag: bool, c: char)
    requires
        c == '<' || c == '>' || lacks(s, c),
    ensures
        lacks(drop_tags(s, in_tag), c),
    decreases s.len(),
{
    if s.len() > 0 {
        let rest = s.drop_first();
        if lacks(s, c) {
            lemma_lacks_subrange(s, 1, s.len() as int, c);
            assert(rest =~= s.subrange(1, s.len() as int));
        }
        lemma_drop_tags_lacks(rest, true, c);
        lemma_drop_tags_lacks(rest, false, c);
        if s[0] != '<' && s[0] != '>' && !in_tag {
            lemma_lacks_add(seq![s[0]], drop_tags(rest, in_tag), c);
        }
    }
}

proof fn lemma_drop_tags_plain(s: Seq<char>)
    requires
        lacks(s, '<'),
        lacks(s, '>'),
    ensures
        drop_tags(s, false) == s,
    decreases s.len(),
{
    if s.len() > 0 {
        let rest = s.drop_first();
        lemma_lacks_subrange(s, 1, s.len() as int, '<');
        lemma_lacks_subrange(s, 1, s.len() as int, '>');
        assert(rest =~= s.subrange(1, s.len() as int));
        lemma_drop_tags_plain(rest);
        assert(seq![s[0]] + rest =~= s);
    }
}

proof fn lemma_replace_absent(s: Seq<char>, pat: Seq<char>, rep: Seq<char>)
    requires
        pat.len() > 0,
        lacks(s, pat[0]),
    ensures
        replace_all(s, pat, rep) == s,
    decreases s.len(),
{
    if s.len() > 0 {
        if pat.is_prefix_of(s) {
            assert(s.subrange(0, pat.len() as int)[0] == s[0]);
        }
        let rest = s.drop_first();
        lemma_lacks_subrange(s, 1, s.len() as int, pat[0]);
        assert(rest =~= s.subrange(1, s.len() as int));
        lemma_replace_absent(rest, pat, rep);
        assert(seq![s[0]] + rest =~= s);
    }
}

proof fn lemma_decode_plain(s: Seq<char>)
    requires
        lacks(s, '&'),
    ensures
        decode_entities(s) == s,
{
    reveal_strlit("&amp;");
    reveal_strlit("&lt;");
    reveal_strlit("&gt;");
    reveal_strlit("&quot;");
    reveal_strlit("&#x27;");
    reveal_strlit("&nbsp;");
    reveal_strlit("&#39;");
    lemma_replace_absent(s, "&amp;"@, "&"@);
    lemma_replace_absent(s, "&lt;"@, "<"@);
    lemma_replace_absent(s, "&gt;"@, ">"@);
    lemma_replace_absent(s, "&quot;"@, "\""@);
    lemma_replace_absent(s, "&#x27;"@, "'"@);
    lemma_replace_absent(s, "&nbsp;"@, " "@);
    lemma_replace_absent(s, "&#39;"@, "'"@);
}

proof fn lemma_trim_start_suffix(s: Seq<char>)
    ensures
        trim_start(s).len() <= s.len(),
        trim_start(s) == s.subrange(s.len() - trim_start(s).len(), s.len() as int),
        trim_start(s).len() > 0 ==> !is_ws(trim_start(s)[0]),
    decreases s.len(),
{
    if s.len() > 0 && is_ws(s[0]) {
        lemma_trim_start_suffix(s.drop_first());
        let t = trim_start(s.drop_first());
        assert(s.drop_first().subrange(s.len() - 1 - t.len(), s.len() - 1) =~= s.subrange(
            s.len() - t.len(),
            s.len() as int,
        ));
    } else {
        assert(s.subrange(0, s.len() as int) =~= s);
    }
}

proof fn lemma_trim_end_prefix(s: Seq<char>)
    ensures
        trim_end(s).len() <= s.len(),
        trim_end(s) == s.subrange(0, trim_end(s).len() as int),
        trim_end(s).len() > 0 ==> !is_ws(trim_end(s).last()),
    decreases s.len(),
{
    if s.len() > 0 && is_ws(s.last()) {
        lemma_trim_end_prefix(s.drop_last());
        let t = trim_end(s.drop_last());
        assert(s.drop_last().subrange(0, t.len() as int) =~= s.subrange(0, t.len() as int));
    } else {
        assert(s.subrange(0, s.len() as int) =~= s);
    }
}

proof fn lemma_trim_facts(s: Seq<char>, c: char)
    ensures
        trim(trim(s)) == trim(s),
        lacks(s, c) ==> lacks(trim(s), c),
{
    let u = trim_start(s);
    let t = trim_end(u);
    lemma_trim_start_suffix(s);
    lemma_trim_end_prefix(u);
    if t.len() > 0 {
        assert(t[0] == u[0]);
        assert(trim_start(t) == t);
        lemma_trim_end_prefix(t);
        assert(trim_end(t) == t);
    }
    if lacks(s, c) {
        lemma_lacks_subrange(s, s.len() - u.len(), s.len() as int, c);
        lemma_lacks_subrange(u, 0, t.len() as int, c);
    }
}

proof fn lemma_split_lacks(s: Seq<char>, sep: char, c: char)
    requires
        c == sep || lacks(s, c),
    ensures
        split_on(s, sep).len() >= 1,
        forall|k: int| 0 <= k < split_on(s, sep).len() ==> lacks(#[trigger] split_on(s, sep)[k], c),
    decreases s.len(),
{
    if s.len() > 0 {
        let init = s.drop_last();
        if lacks(s, c) {
            lemma_lacks_subrange(s, 0, s.len() - 1, c);
            assert(init =~= s.subrange(0, s.len() - 1));
        }
        lemma_split_lacks(init, sep, c);
        let r = split_on(init, sep);
        if s.last() != sep {
            lemma_lacks_add(r.last(), seq![s.last()], c);
            assert(r.last().push(s.last()) =~= r.last() + seq![s.last()]);
        }
    }
}

proof fn lemma_join_lacks(parts: Seq<Seq<char>>, sep: Seq<char>, c: char)
    requires
        lacks(sep, c),
        forall|k: int| 0 <= k < parts.len() ==> lacks(#[trigger] parts[k], c),
    ensures
        lacks(join_with(parts, sep), c),
    decreases parts.len(),
{
    if parts.len() > 1 {
        lemma_join_lacks(parts.drop_last(), sep, c);
        lemma_lacks_add(join_with(parts.drop_last(), sep), sep, c);
        lemma_lacks_add(join_with(parts.drop_last(), sep) + sep, parts.last(), c);
    }
}

proof fn lemma_filter_keeps(s: Seq<Seq<char>>, pred: spec_fn(Seq<char>) -> bool, prop: spec_fn(Seq<char>) -> bool)
    requires
        forall|k: int| 0 <= k < s.len() ==> prop(#[trigger] s[k]),
    ensures
        forall|k: int| 0 <= k < s.filter(pred).len() ==> prop(#[trigger] s.filter(pred)[k]),
    decreases s.len(),
{
    reveal(Seq::filter);
    if s.len() > 0 {
        assert forall|k: int| 0 <= k < s.drop_last().len() implies prop(#[trigger] s.drop_last()[k]) by {
            assert(s.drop_last()[k] == s[k]);
        }
        lemma_filter_keeps(s.drop_last(), pred, prop);
        let sub = s.drop_last().filter(pred);
        assert(prop(s.last()));
        assert forall|k: int| 0 <= k < s.filter(pred).len() implies prop(#[trigger] s.filter(pred)[k]) by {
            if pred(s.last()) && k == sub.len() {
                assert(s.filter(pred)[k] == s.last());
            } else {
                assert(s.filter(pred)[k] == sub[k]);
            }
        }
    }
}

proof fn lemma_filter_all(s: Seq<Seq<char>>, pred: spec_fn(Seq<char>) -> bool)
    requires
        forall|k: int| 0 <= k < s.len() ==> pred(#[trigger] s[k]),
    ensures
        s.filter(pred) == s,
    decreases s.len(),
{
    reveal(Seq::filter);
    if s.len() > 0 {
        assert forall|k: int| 0 <= k < s.drop_last().len() implies pred(#[trigger] s.drop_last()[k]) by {
            assert(s.drop_last()[k] == s[k]);
        }
        lemma_filter_all(s.drop_last(), pred);
        assert(pred(s.last()));
        assert(s.drop_last().push(s.last()) =~= s);
    }
}

/// The kept lines are trimmed, nonempty, and lack whatever the text lacks.
proof fn lemma_kept_lines_facts(y: Seq<char>, c: char)
    requires
        c == '\n' || lacks(y, c),
    ensures
        forall|k: int|
            0 <= k < kept_lines(split_on(y, '\n')).len() ==> {
                &&& (#[trigger] kept_lines(split_on(y, '\n'))[k]).len() > 0
                &&& trim(kept_lines(split_on(y, '\n'))[k]) == kept_lines(split_on(y, '\n'))[k]
                &&& lacks(kept_lines(split_on(y, '\n'))[k], c)
            },
{
    let lines = split_on(y, '\n');
    lemma_split_lacks(y, '\n', c);
    let mapped = lines.map_values(trim_fn());
    let prop = |l: Seq<char>| trim(l) == l && lacks(l, c);
    assert forall|k: int| 0 <= k < mapped.len() implies prop(#[trigger] mapped[k]) by {
        lemma_trim_facts(lines[k], c);
    }
    lemma_filter_keeps(mapped, nonempty_fn(), prop);
    let kept = mapped.filter(nonempty_fn());
    assert forall|k: int| 0 <= k < kept.len() implies (#[trigger] kept[k]).len() > 0 by {
        mapped.lemma_filter_pred(nonempty_fn(), k);
    }
}

proof fn lemma_split_extend(p: Seq<char>, q: Seq<char>, sep: char)
    requires
        lacks(q, sep),
    ensures
        split_on(p + q, sep) == split_on(p, sep).update(
            split_on(p, sep).len() - 1,
            split_on(p, sep).last() + q,
        ),
    decreases q.len(),
{
    lemma_split_lacks(p, sep, sep);
    let r = split_on(p, sep);
    if q.len() == 0 {
        assert(p + q =~= p);
        assert(r.last() + q =~= r.last());
        assert(r.update(r.len() - 1, r.last()) =~= r);
    } else {
        let q0 = q.drop_last();
        lemma_lacks_subrange(q, 0, q.len() - 1, sep);
        assert(q0 =~= q.subrange(0, q.len() - 1));
        lemma_split_extend(p, q0, sep);
        assert((p + q).drop_last() =~= p + q0);
        assert((p + q).last() == q.last());
        assert(q.last() != sep);
        assert((r.last() + q0).push(q.last()) =~= r.last() + q);
        let r0 = r.update(r.len() - 1, r.last() + q0);
        assert(r0.update(r0.len() - 1, r0.last().push(q.last())) =~= r.update(r.len() - 1, r.last() + q));
    }
}

/// Joining lines that hold no newline with `\n` and splitting again at
/// `\n` gives the lines back.
proof fn lemma_split_join(lines: Seq<Seq<char>>)
    requires
        lines.len() > 0,
        forall|k: int| 0 <= k < lines.len() ==> lacks(#[trigger] lines[k], '\n'),
    ensures
        split_on(join_with(lines, seq!['\n']), '\n') == lines,
    decreases lines.len(),
{
    if lines.len() == 1 {
        lemma_split_extend(Seq::empty(), lines[0], '\n');
        assert(Seq::<char>::empty() + lines[0] =~= lines[0]);
        assert(split_on(Seq::<char>::empty(), '\n') == seq![Seq::<char>::empty()]);
        assert(seq![Seq::<char>::empty()].update(0, Seq::<char>::empty() + lines[0]) =~= lines);
    } else {
        let init = lines.drop_last();
        lemma_split_join(init);
        let j = join_with(init, seq!['\n']);
        assert(j + seq!['\n'] =~= j.push('\n'));
        assert(j.push('\n').drop_last() =~= j);
        let r = split_on(j.push('\n'), '\n');
        assert(r == init.push(Seq::<char>::empty()));
        lemma_split_extend(j.push('\n'), lines.last(), '\n');
        assert(Seq::<char>::empty() + lines.last() =~= lines.last());
        assert(init.push(Seq::<char>::empty()).update(init.len() as int, lines.last()) =~= lines);
    }
}

proof fn lemma_collapse_lacks(y: Seq<char>, c: char)
    requires
        c != '\n',
        lacks(y, c),
    ensures
        lacks(collapse_lines(y), c),
{
    lemma_kept_lines_facts(y, c);
    let kept = kept_lines(split_on(y, '\n'));
    assert forall|k: int| 0 <= k < kept.len() implies lacks(#[trigger] kept[k], c) by {}
    lemma_join_lacks(kept, seq!['\n'], c);
}

proof fn lemma_collapse_idempotent(y: Seq<char>)
    ensures
        collapse_lines(collapse_lines(y)) == collapse_lines(y),
{
    let lines = kept_lines(split_on(y, '\n'));
    lemma_kept_lines_facts(y, '\n');
    let x = collapse_lines(y);
    if lines.len() == 0 {
        assert(x == Seq::<char>::empty());
        let one = seq![Seq::<char>::empty()];
        assert(split_on(x, '\n') == one);
        let mapped = one.map_values(trim_fn());
        assert(trim_start(Seq::<char>::empty()) == Seq::<char>::empty());
        assert(trim(Seq::<char>::empty()) == Seq::<char>::empty());
        assert(mapped =~= one);
        assert(mapped.drop_last() =~= Seq::<Seq<char>>::empty());
        reveal(Seq::filter);
        assert(mapped.drop_last().filter(nonempty_fn()) =~= Seq::<Seq<char>>::empty());
        assert(!nonempty_fn()(mapped.last()));
        assert(mapped.filter(nonempty_fn()) =~= Seq::<Seq<char>>::empty());
    } else {
        assert forall|k: int| 0 <= k < lines.len() implies lacks(#[trigger] lines[k], '\n') by {}
        lemma_split_join(lines);
        let mapped = lines.map_values(trim_fn());
        assert(mapped =~= lines);
        lemma_filter_all(lines, nonempty_fn());
    }
}

/// Law: on text without `&`, stripping twice gives what stripping once
/// gives. (An entity-like sequence such as `&amp;lt;` decodes one level per
/// pass, so text with `&` is left out.)
pub proof fn lemma_strip_html_idempotent(html: Seq<char>)
    requires
        !html.contains('&'),
    ensures
        spec_strip_html(spec_strip_html(html)) == spec_strip_html(html),
{
    assert(lacks(html, '&'));
    let d = drop_tags(html, false);
    lemma_drop_tags_lacks(html, false, '&');
    lemma_drop_tags_lacks(html, false, '<');
    lemma_drop_tags_lacks(html, false, '>');
    lemma_decode_plain(d);
    let x = collapse_lines(d);
    lemma_collapse_lacks(d, '&');
    lemma_collapse_lacks(d, '<');
    lemma_collapse_lacks(d, '>');
    lemma_drop_tags_plain(x);
    lemma_decode_plain(x);
    lemma_collapse_idempotent(d);
}

/// The characters `char::is_whitespace` accepts (Unicode White_Space):
/// tab, line feed, vertical tab, form feed, carriage return, space, next
/// line, no-break space, ogham space mark, the spaces U+2000 to U+200A,
/// line and paragraph separators, narrow no-break space, medium
/// mathematical space and ideographic space.
pub open spec fn is_white_space(c: char) -> bool {
    c == '\t' || c == '\n' || c == '\u{b}' || c == '\u{c}' || c == '\r' || c == ' ' || c == '\u{85}'
        || c == '\u{a0}' || c == '\u{1680}' || ('\u{2000}' <= c && c <= '\u{200a}') || c == '\u{2028}'
        || c == '\u{2029}' || c == '\u{202f}' || c == '\u{205f}' || c == '\u{3000}'
}

proof fn lemma_white_space_is_trimmed(c: char)
    ensures
        is_white_space(c) <==> is_ws(c),
{
}

proof fn lemma_trimmed_ends(l: Seq<char>)
    requires
        l.len() > 0,
        trim(l) == l,
    ensures
        !is_ws(l[0]),
        !is_ws(l.last()),
{
    lemma_trim_start_suffix(l);
    let u = trim_start(l);
    lemma_trim_end_prefix(u);
    assert(u.len() == l.len());
    assert(u =~= l);
    if is_ws(l[0]) {
        lemma_trim_start_suffix(l.drop_first());
        assert(false);
    }
    if is_ws(l.last()) {
        lemma_trim_end_prefix(l.drop_last());
        assert(trim_end(l) == trim_end(l.drop_last()));
        assert(false);
    }
}

/// Law: in the plain text of any HTML, when it is not empty, every line
/// holds something, and no line starts or ends with a whitespace
/// character (tab and carriage return included).
pub proof fn lemma_stripped_lines_are_trimmed(html: Seq<char>)
    ensures
        spec_strip_html(html).len() == 0 || forall|k: int|
            0 <= k < split_on(spec_strip_html(html), '\n').len() ==> {
                let line = #[trigger] split_on(spec_strip_html(html), '\n')[k];
                &&& line.len() > 0
                &&& !is_white_space(line[0])
                &&& !is_white_space(line.last())
            },
{
    let y = decode_entities(drop_tags(html, false));
    let lines = kept_lines(split_on(y, '\n'));
    lemma_kept_lines_facts(y, '\n');
    if lines.len() > 0 {
        assert forall|k: int| 0 <= k < lines.len() implies lacks(#[trigger] lines[k], '\n') by {}
        lemma_split_join(lines);
        assert forall|k: int| 0 <= k < lines.len() implies {
            let line = #[trigger] lines[k];
            &&& line.len() > 0
            &&& !is_white_space(line[0])
            &&& !is_white_space(line.last())
        } by {
            lemma_trimmed_ends(lines[k]);
            lemma_white_space_is_trimmed(lines[k][0]);
            lemma_white_space_is_trimmed(lines[k].last());
        }
    } else {
        assert(spec_strip_html(html) == join_with(lines, seq!['\n']));
    }
}

/// Law: a nonempty text with no markup characters (`<`, `>`, `&`) and no
/// whitespace at all is its own plain text: trimming removes whitespace
/// and nothing else.
pub proof fn lemma_plain_word_is_kept(text: Seq<char>)
    requires
        text.len() > 0,
        !text.contains('<'),
        !text.contains('>'),
        !text.contains('&'),
        forall|i: int| 0 <= i < text.len() ==> !is_white_space(#[trigger] text[i]),
    ensures
        spec_strip_html(text) == text,
{
    assert(lacks(text, '<') && lacks(text, '>') && lacks(text, '&'));
    lemma_drop_tags_plain(text);
    lemma_decode_plain(text);
    assert(lacks(text, '\n')) by {
        assert forall|i: int| 0 <= i < text.len() implies text[i] != '\n' by {
            assert(!is_white_space(text[i]));
        }
    }
    lemma_white_space_is_trimmed(text[0]);
    lemma_white_space_is_trimmed(text.last());
    assert(trim_start(text) == text);
    assert(trim_end(text) == text);
    lemma_split_extend(Seq::empty(), text, '\n');
    assert(Seq::<char>::empty() + text =~= text);
    assert(split_on(Seq::<char>::empty(), '\n') == seq![Seq::<char>::empty()]);
    let one = seq![text];
    assert(split_on(text, '\n') =~= one);
    let mapped = one.map_values(trim_fn());
    assert(mapped =~= one);
    lemma_filter_all(one, nonempty_fn());
    assert(kept_lines(one) == one);
    assert(join_with(one, seq!['\n']) == text);
}

// ---------------------------------------------------------------------------
// Chunks
// ---------------------------------------------------------------------------

/// Current chunk version. Bump to trigger full re-index.
pub const CHUNK_VERSION: u32 = 1;

/// Byte length above which content is split into paragraphs.
pub const MAX_CHUNK_SIZE: usize = 1200;

/// Shortest (in bytes) final piece or action note that becomes a chunk.
pub const MIN_CHUNK_SIZE: usize = 50;

/// Bytes of the previous piece carried into the next one.
pub const OVERLAP_SIZE: usize = 150;

/// A chunk of ticket content ready for embedding.
pub struct Chunk {
    pub content: String,
    pub heading_path: String,
    pub content_hash: String,
}

/// A chunk as text: its content, its heading and the hex SHA-256 of its content.
pub struct ChunkView {
    pub content: Seq<char>,
    pub heading_path: Seq<char>,
    pub content_hash: Seq<char>,
}

impl View for Chunk {
    type V = ChunkView;

    open spec fn view(&self) -> ChunkView {
        ChunkView {
            content: self.content@,
            heading_path: self.heading_path@,
            content_hash: self.content_hash@,
        }
    }
}

/// Lowercase hex SHA-256 of the UTF-8 bytes of `s`.
pub open spec fn hash_of(s: Seq<char>) -> Seq<char> {
    hex_lower(sha256_spec(encode_utf8(s)))
}

/// The chunk holding `content` under `heading`.
pub open spec fn chunk_of(content: Seq<char>, heading: Seq<char>) -> ChunkView {
    ChunkView { content, heading_path: heading, content_hash: hash_of(content) }
}

/// The views of a list of chunks.
pub open spec fn chunk_views(v: Seq<Chunk>) -> Seq<ChunkView> {
    v.map_values(|c: Chunk| c@)
}

/// The pieces of `s` between occurrences of a blank line (`"\n\n"`),
/// matched leftmost first without overlap, as `str::split("\n\n")` yields them.
pub open spec fn split_paragraphs(s: Seq<char>) -> Seq<Seq<char>>
    decreases s.len(),
{
    if s.len() == 0 {
        seq![Seq::empty()]
    } else if s.len() >= 2 && s[0] == '\n' && s[1] == '\n' {
        seq![Seq::empty()] + split_paragraphs(s.skip(2))
    } else {
        let r = split_paragraphs(s.drop_first());
        r.update(0, seq![s[0]] + r[0])
    }
}

/// `"{heading} (part {part})"`.
pub open spec fn part_heading(heading: Seq<char>, part: nat) -> Seq<char> {
    heading + " (part "@ + dec_nat(part) + ")"@
}

/// The state of the paragraph packer: chunks emitted so far, the piece being
/// filled, the number of the next part, and whether every overlap cut so far
/// fell on a character boundary.
pub struct SplitState {
    pub chunks: Seq<ChunkView>,
    pub current: Seq<char>,
    pub part: nat,
    pub intact: bool,
}

pub open spec fn blank_line() -> Seq<char> {
    seq!['\n', '\n']
}

/// The last `OVERLAP_SIZE` bytes of `s`, read back as text.
pub open spec fn overlap_tail(s: Seq<char>) -> Seq<char> {
    let bytes = encode_utf8(s);
    decode_utf8(bytes.subrange(bytes.len() - OVERLAP_SIZE, bytes.len() as int))
}

/// Whether the overlap cut of `s` falls on a character boundary.
pub open spec fn overlap_cut_ok(s: Seq<char>) -> bool {
    let bytes = encode_utf8(s);
    is_char_boundary(bytes, bytes.len() - OVERLAP_SIZE)
}

/// One paragraph fed to the packer: when it would push the piece past
/// `MAX_CHUNK_SIZE` bytes (counting the blank line between), the piece is
/// emitted as a numbered part and only its last `OVERLAP_SIZE` bytes are
/// kept; then the paragraph is appended after a blank line.
pub open spec fn split_step(heading: Seq<char>, st: SplitState, para: Seq<char>) -> SplitState {
    let emit = blen(st.current) + blen(para) + 2 > MAX_CHUNK_SIZE && st.current.len() > 0;
    let st1 = if emit {
        let chunks = st.chunks.push(chunk_of(st.current, part_heading(heading, st.part)));
        if blen(st.current) > OVERLAP_SIZE {
            SplitState {
                chunks,
                current: overlap_tail(st.current),
                part: st.part + 1,
                intact: st.intact && overlap_cut_ok(st.current),
            }
        } else {
            SplitState { chunks, current: st.current, part: st.part + 1, intact: st.intact }
        }
    } else {
        st
    };
    let sep = if st1.current.len() > 0 { blank_line() } else { Seq::empty() };
    SplitState { chunks: st1.chunks, current: st1.current + sep + para, part: st1.part, intact: st1.intact }
}

pub open spec fn split_start() -> SplitState {
    SplitState { chunks: Seq::empty(), current: Seq::empty(), part: 1, intact: true }
}

/// The packer after feeding it `paras` in order.
pub open spec fn split_fold(heading: Seq<char>, paras: Seq<Seq<char>>) -> SplitState
    decreases paras.len(),
{
    if paras.len() == 0 {
        split_start()
    } else {
        split_step(heading, split_fold(heading, paras.drop_last()), paras.last())
    }
}

/// The chunks `content` becomes under `heading`: the whole content when it
/// fits in `MAX_CHUNK_SIZE` bytes, otherwise the packed parts, the last one
/// kept only when it holds at least `MIN_CHUNK_SIZE` bytes.
pub open spec fn split_chunks(content: Seq<char>, heading: Seq<char>) -> Seq<ChunkView> {
    if blen(content) <= MAX_CHUNK_SIZE {
        seq![chunk_of(content, heading)]
    } else {
        let st = split_fold(heading, split_paragraphs(content));
        if st.current.len() > 0 && blen(st.current) >= MIN_CHUNK_SIZE {
            st.chunks.push(
                chunk_of(
                    st.current,
                    if st.part > 1 { part_heading(heading, st.part) } else { heading },
                ),
            )
        } else {
            st.chunks
        }
    }
}

/// Splitting `content` never cuts an overlap inside a character (where
/// slicing a `str` at that byte would panic).
pub open spec fn split_is_safe(content: Seq<char>) -> bool {
    blen(content) <= MAX_CHUNK_SIZE || split_fold(Seq::empty(), split_paragraphs(content)).intact
}

/// The texts held by a list of character vectors.
pub open spec fn texts_of(v: Seq<Vec<char>>) -> Seq<Seq<char>> {
    v.map_values(|p: Vec<char>| p@)
}

/// `r` with `prefix` put in front of its first piece.
pub open spec fn attach_first(prefix: Seq<char>, r: Seq<Seq<char>>) -> Seq<Seq<char>> {
    r.update(0, prefix + r[0])
}

proof fn lemma_split_paragraphs_nonempty(s: Seq<char>)
    ensures
        split_paragraphs(s).len() >= 1,
    decreases s.len(),
{
    if s.len() == 0 {
    } else if s.len() >= 2 && s[0] == '\n' && s[1] == '\n' {
        lemma_split_paragraphs_nonempty(s.skip(2));
    } else {
        lemma_split_paragraphs_nonempty(s.drop_first());
    }
}

fn split_paragraphs_exec(v: &Vec<char>) -> (r: Vec<Vec<char>>)
    ensures
        texts_of(r@) == split_paragraphs(v@),
{
    let mut out: Vec<Vec<char>> = Vec::new();
    let mut cur: Vec<char> = Vec::new();
    let mut i: usize = 0;
    proof {
        assert(v@.skip(0) =~= v@);
        lemma_split_paragraphs_nonempty(v@);
        assert(attach_first(Seq::<char>::empty(), split_paragraphs(v@)) =~= split_paragraphs(v@));
        assert(texts_of(out@) =~= Seq::<Seq<char>>::empty());
    }
    while i < v.len()
        invariant
            0 <= i <= v@.len(),
            split_paragraphs(v@) == texts_of(out@) + attach_first(cur@, split_paragraphs(v@.skip(i as int))),
        decreases v@.len() - i,
    {
        let ghost rest = v@.skip(i as int);
        proof {
            lemma_split_paragraphs_nonempty(rest);
        }
        if i + 1 < v.len() && v[i] == '\n' && v[i + 1] == '\n' {
            let ghost tail = split_paragraphs(v@.skip(i + 2));
            proof {
                assert(rest.skip(2) =~= v@.skip(i + 2));
                assert(rest[0] == '\n' && rest[1] == '\n');
                lemma_split_paragraphs_nonempty(v@.skip(i + 2));
                assert(attach_first(cur@, split_paragraphs(rest)) =~= seq![cur@] + tail);
                assert(attach_first(Seq::<char>::empty(), tail) =~= tail);
            }
            let ghost before = texts_of(out@);
            let ghost pv = cur@;
            out.push(cur);
            proof {
                assert(texts_of(out@) =~= before.push(pv));
                assert(before + seq![pv] + tail =~= before.push(pv) + tail);
            }
            cur = Vec::new();
            i = i + 2;
        } else {
            let c = v[i];
            let ghost tail = split_paragraphs(v@.skip(i + 1));
            proof {
                assert(rest.drop_first() =~= v@.skip(i + 1));
                assert(rest[0] == c);
                lemma_split_paragraphs_nonempty(v@.skip(i + 1));
                if rest.len() >= 2 && rest[0] == '\n' && rest[1] == '\n' {
                    assert(v@[i + 1] == rest[1]);
                }
                assert(split_paragraphs(rest) == tail.update(0, seq![c] + tail[0]));
                assert(cur@ + (seq![c] + tail[0]) =~= cur@.push(c) + tail[0]);
                assert(attach_first(cur@, split_paragraphs(rest)) =~= attach_first(cur@.push(c), tail));
            }
            cur.push(c);
            i = i + 1;
        }
    }
    proof {
        assert(v@.skip(i as int) =~= Seq::<char>::empty());
        assert(attach_first(cur@, seq![Seq::<char>::empty()]) =~= seq![cur@]);
    }
    let ghost before = texts_of(out@);
    let ghost pv = cur@;
    out.push(cur);
    proof {
        assert(texts_of(out@) =~= before + seq![pv]);
    }
    out
}

proof fn lemma_fold_heading_free(h1: Seq<char>, h2: Seq<char>, paras: Seq<Seq<char>>)
    ensures
        split_fold(h1, paras).current == split_fold(h2, paras).current,
        split_fold(h1, paras).part == split_fold(h2, paras).part,
        split_fold(h1, paras).intact == split_fold(h2, paras).intact,
    decreases paras.len(),
{
    if paras.len() > 0 {
        lemma_fold_heading_free(h1, h2, paras.drop_last());
    }
}

proof fn lemma_fold_intact_prefix(h: Seq<char>, paras: Seq<Seq<char>>, k: int)
    requires
        0 <= k <= paras.len(),
        split_fold(h, paras).intact,
    ensures
        split_fold(h, paras.take(k)).intact,
    decreases paras.len(),
{
    if k == paras.len() {
        assert(paras.take(k) =~= paras);
    } else {
        lemma_fold_intact_prefix(h, paras.drop_last(), k);
        assert(paras.drop_last().take(k) =~= paras.take(k));
    }
}

proof fn lemma_blen_zero(s: Seq<char>)
    ensures
        (blen(s) == 0) == (s.len() == 0),
{
    crate::text::lemma_blen_ge_len(s);
}

/// `"{heading} (part {part})"`.
fn heading_with_part(heading: &str, part: usize) -> (r: String)
    ensures
        r@ == part_heading(heading@, part as nat),
{
    let mut v: Vec<char> = Vec::new();
    extend_chars(&mut v, heading);
    extend_chars(&mut v, " (part ");
    push_dec_u64(&mut v, part as u64);
    extend_chars(&mut v, ")");
    proof {
        assert(v@ =~= part_heading(heading@, part as nat));
    }
    string_of(&v)
}

fn make_chunk(content: &String, heading: String) -> (r: Chunk)
    ensures
        r@ == chunk_of(content@, heading@),
{
    let hash = sha256_hex(content.as_str());
    Chunk { content: content.clone(), heading_path: heading, content_hash: hash }
}

proof fn lemma_views_push(v: Seq<Chunk>, c: Chunk)
    ensures
        chunk_views(v.push(c)) == chunk_views(v).push(c@),
{
    assert(chunk_views(v.push(c)) =~= chunk_views(v).push(c@));
}

/// Appends the chunks of `content` under `heading` (see `split_chunks`).
/// Returns `false`, with `chunks` partly filled, exactly when an overlap cut
/// would fall inside a character (where slicing the string panics).
fn split_and_add(content: &str, heading: &str, chunks: &mut Vec<Chunk>) -> (ok: bool)
    ensures
        ok == split_is_safe(content@),
        ok ==> chunk_views(final(chunks)@) == chunk_views(old(chunks)@) + split_chunks(
            content@,
            heading@,
        ),
{
    let ghost base = chunk_views(chunks@);
    let total = content.as_bytes().len();
    if total <= MAX_CHUNK_SIZE {
        let whole = content.to_owned();
        let c = make_chunk(&whole, heading.to_owned());
        chunks.push(c);
        proof {
            lemma_views_push(old(chunks)@, c);
        }
        return true;
    }
    let cv = chars_of(content);
    let paras = split_paragraphs_exec(&cv);
    let ghost ps = texts_of(paras@);
    let ghost h = heading@;
    proof {
        lemma_fold_heading_free(Seq::<char>::empty(), h, ps);
        reveal_strlit("\n\n");
        assert("\n\n"@ =~= blank_line());
        assert(ps.take(0) =~= Seq::<Seq<char>>::empty());
        assert(base + Seq::<ChunkView>::empty() =~= base);
    }
    let mut current = String::new();
    let mut part: usize = 1;
    let mut i: usize = 0;
    while i < paras.len()
        invariant
            ps == texts_of(paras@),
            h == heading@,
            "\n\n"@ == blank_line(),
            split_is_safe(content@) == split_fold(h, ps).intact,
            blen(content@) > MAX_CHUNK_SIZE,
            ps == split_paragraphs(content@),
            0 <= i <= ps.len(),
            part == 1 || part <= i,
            split_fold(h, ps.take(i as int)).intact,
            chunk_views(chunks@) == base + split_fold(h, ps.take(i as int)).chunks,
            current@ == split_fold(h, ps.take(i as int)).current,
            part as nat == split_fold(h, ps.take(i as int)).part,
        decreases ps.len() - i,
    {
        let ghost st = split_fold(h, ps.take(i as int));
        proof {
            assert(ps.take(i + 1).drop_last() =~= ps.take(i as int));
            assert(ps.take(i + 1).last() == ps[i as int]);
            lemma_blen_zero(current@);
        }
        let para = string_of(&paras[i]);
        let cur_len = current.as_str().as_bytes().len();
        let para_len = para.as_str().as_bytes().len();
        let too_big = para_len > MAX_CHUNK_SIZE - 2 || cur_len > MAX_CHUNK_SIZE - 2 - para_len;
        if too_big && cur_len > 0 {
            let hd = heading_with_part(heading, part);
            let c = make_chunk(&current, hd);
            let ghost before = chunks@;
            chunks.push(c);
            proof {
                lemma_views_push(before, c);
            }
            part = part + 1;
            if cur_len > OVERLAP_SIZE {
                let cut = cur_len - OVERLAP_SIZE;
                if !current.as_str().is_char_boundary(cut) {
                    proof {
                        assert(!split_fold(h, ps.take(i + 1)).intact);
                        if split_fold(h, ps).intact {
                            lemma_fold_intact_prefix(h, ps, i + 1);
                        }
                    }
                    return false;
                }
                let ghost cur_view = current@;
                let (_head, tail) = current.as_str().split_at(cut);
                proof {
                    let bytes = encode_utf8(cur_view);
                    assert(cut == bytes.len() - OVERLAP_SIZE);
                    assert(tail.spec_bytes() == bytes.subrange(cut as int, bytes.len() as int));
                    vstd::utf8::encode_utf8_decode_utf8(tail@);
                    assert(tail@ == overlap_tail(cur_view));
                }
                current = tail.to_owned();
            }
        }
        proof {
            lemma_blen_zero(current@);
        }
        if current.as_str().as_bytes().len() > 0 {
            current.append("\n\n");
        }
        current.append(para.as_str());
        i = i + 1;
    }
    let ghost st = split_fold(h, ps.take(i as int));
    proof {
        assert(ps.take(i as int) =~= ps);
        lemma_blen_zero(current@);
    }
    let cur_len = current.as_str().as_bytes().len();
    if cur_len > 0 && cur_len >= MIN_CHUNK_SIZE {
        let hd = if part > 1 {
            heading_with_part(heading, part)
        } else {
            heading.to_owned()
        };
        let c = make_chunk(&current, hd);
        let ghost before = chunks@;
        chunks.push(c);
        proof {
            lemma_views_push(before, c);
        }
    }
    true
}

/// Input for chunking an action.
pub struct ActionChunkInput {
    pub note: String,
    pub who: Option<String>,
    pub outcome: Option<String>,
    pub date: Option<String>,
}

/// Metadata context for a ticket (used in chunk prefix).
pub struct TicketMetadataInput {
    pub client_name: Option<String>,
    pub site_name: Option<String>,
    pub agent_name: Option<String>,
    pub team: Option<String>,
    pub status: Option<String>,
    pub priority: Option<String>,
    pub category: Option<String>,
    pub custom_fields: Vec<(String, String)>,
    pub assets: Vec<String>,
}

/// `"{label}{value}\n"` when the value is present, nothing otherwise.
pub open spec fn opt_line(label: Seq<char>, v: Option<String>) -> Seq<char> {
    match v {
        Some(x) => label + x@ + "\n"@,
        None => Seq::empty(),
    }
}

/// One `"{name}: {value}\n"` line per custom field, in order.
pub open spec fn custom_field_lines(fields: Seq<(String, String)>) -> Seq<char>
    decreases fields.len(),
{
    if fields.len() == 0 {
        Seq::empty()
    } else {
        custom_field_lines(fields.drop_last()) + fields.last().0@ + ": "@ + fields.last().1@ + "\n"@
    }
}

pub open spec fn string_texts(v: Seq<String>) -> Seq<Seq<char>> {
    v.map_values(|s: String| s@)
}

/// `"Assets: a, b, c\n"` when there are assets, nothing otherwise.
pub open spec fn assets_line(assets: Seq<String>) -> Seq<char> {
    if assets.len() == 0 {
        Seq::empty()
    } else {
        "Assets: "@ + join_with(string_texts(assets), ", "@) + "\n"@
    }
}

/// `"Ticket #{id}"`.
pub open spec fn ticket_heading(ticket_id: i64) -> Seq<char> {
    "Ticket #"@ + crate::text::dec_int(ticket_id as int)
}

/// The main chunk text: the summary line, one line per known metadata
/// field, custom fields and assets, a blank line, then the plain-text details.
pub open spec fn ticket_main_content(
    ticket_id: i64,
    summary: Seq<char>,
    details: Seq<char>,
    meta: TicketMetadataInput,
) -> Seq<char> {
    ticket_heading(ticket_id) + ": "@ + summary + "\n"@
        + opt_line("Client: "@, meta.client_name)
        + opt_line("Site: "@, meta.site_name)
        + opt_line("Agent: "@, meta.agent_name)
        + opt_line("Team/Queue: "@, meta.team)
        + opt_line("Status: "@, meta.status)
        + opt_line("Priority: "@, meta.priority)
        + opt_line("Category: "@, meta.category)
        + custom_field_lines(meta.custom_fields@)
        + assets_line(meta.assets@)
        + "\n"@
        + spec_strip_html(details)
}

/// `"Ticket #{id} > Action"`.
pub open spec fn action_heading(ticket_id: i64) -> Seq<char> {
    ticket_heading(ticket_id) + " > Action"@
}

/// The text of an action chunk: who acted (or "Unknown"), outcome and date
/// when present, a blank line, then the plain-text note.
pub open spec fn action_content(ticket_id: i64, a: ActionChunkInput) -> Seq<char> {
    let who = match a.who {
        Some(w) => w@,
        None => "Unknown"@,
    };
    ticket_heading(ticket_id) + " > Action by "@ + who + "\n"@ + opt_line("Outcome: "@, a.outcome)
        + opt_line("Date: "@, a.date) + "\n"@ + spec_strip_html(a.note@)
}

/// The line naming who acted: `"Ticket #{id} > Action by {who}\n"`, with
/// `Unknown` when nobody is named.
pub open spec fn action_who_line(ticket_id: i64, a: ActionChunkInput) -> Seq<char> {
    "Ticket #"@ + crate::text::dec_int(ticket_id as int) + " > Action by "@ + (match a.who {
        Some(w) => w@,
        None => "Unknown"@,
    }) + "\n"@
}

/// Law: the text of an action chunk is its header, a blank line and the
/// note's plain text. The header is the line naming who acted; then, when
/// the action has an outcome, `"Outcome: {outcome}"` as the next line; then,
/// when it has a date, `"Date: {date}"` as the line after that. Taking the
/// date (or the outcome) away removes exactly that line.
pub proof fn lemma_action_text_lines(ticket_id: i64, a: ActionChunkInput)
    ensures
        ({
            let note = spec_strip_html(a.note@);
            let bare = ActionChunkInput { outcome: None, date: None, ..a };
            let undated = ActionChunkInput { date: None, ..a };
            &&& action_content(ticket_id, bare) == action_who_line(ticket_id, a) + "\n"@ + note
            &&& (a.outcome matches Some(o) ==> action_content(ticket_id, undated) == action_who_line(ticket_id, a)
                + "Outcome: "@ + o@ + "\n"@ + "\n"@ + note)
            &&& (a.outcome is None ==> action_content(ticket_id, undated) == action_content(ticket_id, bare))
            &&& (a.date matches Some(d) ==> action_content(ticket_id, a) == action_content(ticket_id, undated).take(
                action_content(ticket_id, undated).len() - note.len() - 1,
            ) + "Date: "@ + d@ + "\n"@ + "\n"@ + note)
            &&& (a.date is None ==> action_content(ticket_id, a) == action_content(ticket_id, undated))
        }),
{
    let note = spec_strip_html(a.note@);
    let who = action_who_line(ticket_id, a);
    let bare = ActionChunkInput { outcome: None, date: None, ..a };
    let undated = ActionChunkInput { date: None, ..a };
    let ol = opt_line("Outcome: "@, a.outcome);
    let dl = opt_line("Date: "@, a.date);
    reveal_strlit("\n");
    assert(action_content(ticket_id, bare) =~= who + "\n"@ + note);
    assert(action_content(ticket_id, undated) =~= who + ol + "\n"@ + note);
    assert(action_content(ticket_id, a) =~= who + ol + dl + "\n"@ + note);
    let u = action_content(ticket_id, undated);
    assert(u.take(u.len() - note.len() - 1) =~= who + ol);
    if let Some(o) = a.outcome {
        assert(u =~= who + "Outcome: "@ + o@ + "\n"@ + "\n"@ + note);
    }
    if let Some(d) = a.date {
        assert(action_content(ticket_id, a) =~= who + ol + "Date: "@ + d@ + "\n"@ + "\n"@ + note);
    }
}

/// An action is chunked only when its plain-text note has at least
/// `MIN_CHUNK_SIZE` bytes.
pub open spec fn action_is_significant(a: ActionChunkInput) -> bool {
    blen(spec_strip_html(a.note@)) >= MIN_CHUNK_SIZE
}

/// The chunks of the significant actions, in order.
pub open spec fn action_chunks(ticket_id: i64, actions: Seq<ActionChunkInput>) -> Seq<ChunkView>
    decreases actions.len(),
{
    if actions.len() == 0 {
        Seq::empty()
    } else {
        let a = actions.last();
        action_chunks(ticket_id, actions.drop_last()) + if action_is_significant(a) {
            split_chunks(action_content(ticket_id, a), action_heading(ticket_id))
        } else {
            Seq::empty()
        }
    }
}

/// Every text that gets split is split without cutting inside a character.
pub open spec fn ticket_chunking_is_safe(
    ticket_id: i64,
    summary: Seq<char>,
    details: Seq<char>,
    actions: Seq<ActionChunkInput>,
    meta: TicketMetadataInput,
) -> bool {
    &&& split_is_safe(ticket_main_content(ticket_id, summary, details, meta))
    &&& forall|i: int|
        0 <= i < actions.len() && action_is_significant(#[trigger] actions[i]) ==> split_is_safe(
            action_content(ticket_id, actions[i]),
        )
}

/// The chunks of a ticket: its main content, then each significant action.
pub open spec fn spec_chunk_ticket(
    ticket_id: i64,
    summary: Seq<char>,
    details: Seq<char>,
    actions: Seq<ActionChunkInput>,
    meta: TicketMetadataInput,
) -> Seq<ChunkView> {
    split_chunks(ticket_main_content(ticket_id, summary, details, meta), ticket_heading(ticket_id))
        + action_chunks(ticket_id, actions)
}

fn push_opt_line(v: &mut Vec<char>, label: &str, value: &Option<String>)
    ensures
        final(v)@ == old(v)@ + opt_line(label@, *value),
{
    match value {
        Some(x) => {
            extend_chars(v, label);
            extend_chars(v, x.as_str());
            extend_chars(v, "\n");
            proof {
                assert(final(v)@ =~= old(v)@ + opt_line(label@, *value));
            }
        },
        None => {
            proof {
                assert(final(v)@ =~= old(v)@ + opt_line(label@, *value));
            }
        },
    }
}

fn push_ticket_heading(v: &mut Vec<char>, ticket_id: i64)
    ensures
        final(v)@ == old(v)@ + ticket_heading(ticket_id),
{
    extend_chars(v, "Ticket #");
    crate::text::push_dec_i64(v, ticket_id);
    proof {
        assert(final(v)@ =~= old(v)@ + ticket_heading(ticket_id));
    }
}

fn main_content_exec(ticket_id: i64, summary: &str, details: &str, meta: &TicketMetadataInput) -> (r: String)
    ensures
        r@ == ticket_main_content(ticket_id, summary@, details@, *meta),
{
    let mut v: Vec<char> = Vec::new();
    push_ticket_heading(&mut v, ticket_id);
    extend_chars(&mut v, ": ");
    extend_chars(&mut v, summary);
    extend_chars(&mut v, "\n");
    push_opt_line(&mut v, "Client: ", &meta.client_name);
    push_opt_line(&mut v, "Site: ", &meta.site_name);
    push_opt_line(&mut v, "Agent: ", &meta.agent_name);
    push_opt_line(&mut v, "Team/Queue: ", &meta.team);
    push_opt_line(&mut v, "Status: ", &meta.status);
    push_opt_line(&mut v, "Priority: ", &meta.priority);
    push_opt_line(&mut v, "Category: ", &meta.category);
    let ghost before_custom = v@;
    let mut k: usize = 0;
    while k < meta.custom_fields.len()
        invariant
            0 <= k <= meta.custom_fields@.len(),
            v@ == before_custom + custom_field_lines(meta.custom_fields@.take(k as int)),
        decreases meta.custom_fields@.len() - k,
    {
        let ghost prev = v@;
        extend_chars(&mut v, meta.custom_fields[k].0.as_str());
        extend_chars(&mut v, ": ");
        extend_chars(&mut v, meta.custom_fields[k].1.as_str());
        extend_chars(&mut v, "\n");
        proof {
            let t = meta.custom_fields@.take(k + 1);
            assert(t.drop_last() =~= meta.custom_fields@.take(k as int));
            assert(t.last() == meta.custom_fields@[k as int]);
            assert(v@ =~= before_custom + custom_field_lines(t));
        }
        k = k + 1;
    }
    proof {
        assert(meta.custom_fields@.take(k as int) =~= meta.custom_fields@);
    }
    let ghost before_assets = v@;
    if meta.assets.len() > 0 {
        extend_chars(&mut v, "Assets: ");
        let ghost start = v@;
        let mut j: usize = 0;
        while j < meta.assets.len()
            invariant
                0 <= j <= meta.assets@.len(),
                v@ == start + join_with(string_texts(meta.assets@.take(j as int)), ", "@),
            decreases meta.assets@.len() - j,
        {
            let ghost parts = string_texts(meta.assets@.take(j as int));
            if j > 0 {
                extend_chars(&mut v, ", ");
            }
            extend_chars(&mut v, meta.assets[j].as_str());
            proof {
                assert(string_texts(meta.assets@.take(j + 1)) =~= parts.push(meta.assets@[j as int]@));
                lemma_join_push(parts, meta.assets@[j as int]@, ", "@);
                assert(v@ =~= start + join_with(string_texts(meta.assets@.take(j + 1)), ", "@));
            }
            j = j + 1;
        }
        extend_chars(&mut v, "\n");
        proof {
            assert(meta.assets@.take(j as int) =~= meta.assets@);
            assert(v@ =~= before_assets + assets_line(meta.assets@));
        }
    } else {
        proof {
            assert(v@ =~= before_assets + assets_line(meta.assets@));
        }
    }
    extend_chars(&mut v, "\n");
    let clean = strip_html(details);
    extend_chars(&mut v, clean.as_str());
    proof {
        assert(v@ =~= ticket_main_content(ticket_id, summary@, details@, *meta));
    }
    string_of(&v)
}

fn action_content_exec(ticket_id: i64, a: &ActionChunkInput, clean_note: &String) -> (r: String)
    requires
        clean_note@ == spec_strip_html(a.note@),
    ensures
        r@ == action_content(ticket_id, *a),
{
    let mut v: Vec<char> = Vec::new();
    push_ticket_heading(&mut v, ticket_id);
    extend_chars(&mut v, " > Action by ");
    match &a.who {
        Some(w) => extend_chars(&mut v, w.as_str()),
        None => extend_chars(&mut v, "Unknown"),
    }
    extend_chars(&mut v, "\n");
    push_opt_line(&mut v, "Outcome: ", &a.outcome);
    push_opt_line(&mut v, "Date: ", &a.date);
    extend_chars(&mut v, "\n");
    extend_chars(&mut v, clean_note.as_str());
    proof {
        assert(v@ =~= action_content(ticket_id, *a));
    }
    string_of(&v)
}

fn action_heading_exec(ticket_id: i64) -> (r: String)
    ensures
        r@ == action_heading(ticket_id),
{
    let mut v: Vec<char> = Vec::new();
    push_ticket_heading(&mut v, ticket_id);
    extend_chars(&mut v, " > Action");
    proof {
        assert(v@ =~= action_heading(ticket_id));
    }
    string_of(&v)
}

fn ticket_heading_exec(ticket_id: i64) -> (r: String)
    ensures
        r@ == ticket_heading(ticket_id),
{
    let mut v: Vec<char> = Vec::new();
    push_ticket_heading(&mut v, ticket_id);
    proof {
        assert(v@ =~= ticket_heading(ticket_id));
    }
    string_of(&v)
}

/// Chunks a ticket for embedding, or `None` exactly when splitting some text
/// would cut an overlap inside a multi-byte character (where slicing the
/// text at that byte would panic).
pub fn try_chunk_ticket(
    ticket_id: i64,
    summary: &str,
    details: &str,
    actions: &[ActionChunkInput],
    metadata: &TicketMetadataInput,
) -> (r: Option<Vec<Chunk>>)
    ensures
        r is Some == ticket_chunking_is_safe(ticket_id, summary@, details@, actions@, *metadata),
        r matches Some(v) ==> chunk_views(v@) == spec_chunk_ticket(
            ticket_id,
            summary@,
            details@,
            actions@,
            *metadata,
        ),
{
    let mut chunks: Vec<Chunk> = Vec::new();
    let main = main_content_exec(ticket_id, summary, details, metadata);
    let heading = ticket_heading_exec(ticket_id);
    if !split_and_add(main.as_str(), heading.as_str(), &mut chunks) {
        return None;
    }
    proof {
        assert(chunk_views(Seq::<Chunk>::empty()) =~= Seq::<ChunkView>::empty());
        assert(actions@.take(0) =~= Seq::<ActionChunkInput>::empty());
    }
    let ghost main_chunks = chunk_views(chunks@);
    let action_head = action_heading_exec(ticket_id);
    let mut i: usize = 0;
    while i < actions.len()
        invariant
            0 <= i <= actions@.len(),
            action_head@ == action_heading(ticket_id),
            main_chunks == split_chunks(
                ticket_main_content(ticket_id, summary@, details@, *metadata),
                ticket_heading(ticket_id),
            ),
            split_is_safe(ticket_main_content(ticket_id, summary@, details@, *metadata)),
            forall|j: int|
                0 <= j < i && action_is_significant(#[trigger] actions@[j]) ==> split_is_safe(
                    action_content(ticket_id, actions@[j]),
                ),
            chunk_views(chunks@) == main_chunks + action_chunks(ticket_id, actions@.take(i as int)),
        decreases actions@.len() - i,
    {
        let a = &actions[i];
        let ghost prev = chunk_views(chunks@);
        proof {
            let t = actions@.take(i + 1);
            assert(t.drop_last() =~= actions@.take(i as int));
            assert(t.last() == actions@[i as int]);
        }
        let clean_note = strip_html(a.note.as_str());
        let note_len = clean_note.as_str().as_bytes().len();
        if note_len >= MIN_CHUNK_SIZE {
            let content = action_content_exec(ticket_id, a, &clean_note);
            if !split_and_add(content.as_str(), action_head.as_str(), &mut chunks) {
                proof {
                    assert(action_is_significant(actions@[i as int]));
                }
                return None;
            }
            proof {
                assert(chunk_views(chunks@) =~= main_chunks + action_chunks(ticket_id, actions@.take(i + 1)));
            }
        } else {
            proof {
                assert(action_chunks(ticket_id, actions@.take(i + 1)) =~= action_chunks(ticket_id, actions@.take(i as int)) + Seq::<ChunkView>::empty());
            }
        }
        i = i + 1;
    }
    proof {
        assert(actions@.take(i as int) =~= actions@);
    }
    Some(chunks)
}

/// Chunk a ticket into pieces suitable for embedding: one run of chunks for
/// the summary, metadata and details, then one per significant action.
/// Texts whose overlap cut would land inside a character are left out:
/// slicing there panics, and `try_chunk_ticket` reports those texts.
pub fn chunk_ticket(
    ticket_id: i64,
    summary: &str,
    details: &str,
    actions: &[ActionChunkInput],
    metadata: &TicketMetadataInput,
) -> (r: Vec<Chunk>)
    requires
        ticket_chunking_is_safe(ticket_id, summary@, details@, actions@, *metadata),
    ensures
        chunk_views(r@) == spec_chunk_ticket(ticket_id, summary@, details@, actions@, *metadata),
{
    match try_chunk_ticket(ticket_id, summary, details, actions, metadata) {
        Some(v) => v,
        None => Vec::new(),
    }
}

/// Every chunk of `cs` carries the hash of its own content.
pub open spec fn hashes_consistent(cs: Seq<ChunkView>) -> bool {
    forall|i: int| 0 <= i < cs.len() ==> (#[trigger] cs[i]).content_hash == hash_of(cs[i].content)
}

proof fn lemma_split_fold_hashes(heading: Seq<char>, paras: Seq<Seq<char>>)
    ensures
        hashes_consistent(split_fold(heading, paras).chunks),
    decreases paras.len(),
{
    if paras.len() > 0 {
        lemma_split_fold_hashes(heading, paras.drop_last());
    }
}

proof fn lemma_split_chunks_hashes(content: Seq<char>, heading: Seq<char>)
    ensures
        hashes_consistent(split_chunks(content, heading)),
{
    if blen(content) > MAX_CHUNK_SIZE {
        lemma_split_fold_hashes(heading, split_paragraphs(content));
    }
}

proof fn lemma_action_chunks_hashes(ticket_id: i64, actions: Seq<ActionChunkInput>)
    ensures
        hashes_consistent(action_chunks(ticket_id, actions)),
    decreases actions.len(),
{
    if actions.len() > 0 {
        lemma_action_chunks_hashes(ticket_id, actions.drop_last());
        lemma_split_chunks_hashes(action_content(ticket_id, actions.last()), action_heading(ticket_id));
    }
}

/// Law: every chunk of a ticket is stored with the SHA-256 hex digest of
/// its own content, so an unchanged chunk is recognised by its hash.
pub proof fn lemma_chunk_hashes_match_content(
    ticket_id: i64,
    summary: Seq<char>,
    details: Seq<char>,
    actions: Seq<ActionChunkInput>,
    meta: TicketMetadataInput,
)
    ensures
        hashes_consistent(spec_chunk_ticket(ticket_id, summary, details, actions, meta)),
{
    lemma_split_chunks_hashes(
        ticket_main_content(ticket_id, summary, details, meta),
        ticket_heading(ticket_id),
    );
    lemma_action_chunks_hashes(ticket_id, actions);
}

} // verus!
