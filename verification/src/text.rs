//! Character-level text operations used to build log lines and error messages.
//!
//! Text is reasoned about through its view, a `Seq<char>`.
use vstd::prelude::*;
use vstd::string::StringExecFns;

verus! {

/// The Unicode `White_Space` characters.
pub open spec fn is_white_space(c: char) -> bool {
    let n = c as u32;
    ||| 0x09 <= n <= 0x0d
    ||| n == 0x20
    ||| n == 0x85
    ||| n == 0xa0
    ||| n == 0x1680
    ||| 0x2000 <= n <= 0x200a
    ||| n == 0x2028
    ||| n == 0x2029
    ||| n == 0x202f
    ||| n == 0x205f
    ||| n == 0x3000
}

/// Index of the first character at or after `i` that is not white space (`s.len()` if none).
pub open spec fn skip_white_from(s: Seq<char>, i: int) -> int
    decreases s.len() - i,
{
    if 0 <= i < s.len() && is_white_space(s[i]) {
        skip_white_from(s, i + 1)
    } else {
        i
    }
}

/// End of `s[lo..j]` once the white space at its back is dropped.
pub open spec fn drop_white_back(s: Seq<char>, lo: int, j: int) -> int
    decreases j - lo,
{
    if lo < j && is_white_space(s[j - 1]) {
        drop_white_back(s, lo, j - 1)
    } else {
        j
    }
}

/// `s` without its leading and trailing white space.
pub open spec fn trimmed(s: Seq<char>) -> Seq<char> {
    let a = skip_white_from(s, 0);
    s.subrange(a, drop_white_back(s, a, s.len() as int))
}

/// Every occurrence of `pat` in `text`, taken from the left without overlap, replaced by `with`.
pub open spec fn replace_all(text: Seq<char>, pat: Seq<char>, with: Seq<char>) -> Seq<char>
    recommends
        pat.len() > 0,
    decreases text.len(),
{
    if pat.len() == 0 || text.len() == 0 {
        text
    } else if pat.len() <= text.len() && text.subrange(0, pat.len() as int) == pat {
        with + replace_all(text.skip(pat.len() as int), pat, with)
    } else {
        seq![text[0]] + replace_all(text.drop_first(), pat, with)
    }
}

/// The parts, in order, with `sep` between each two of them.
pub open spec fn join(parts: Seq<Seq<char>>, sep: Seq<char>) -> Seq<char>
    decreases parts.len(),
{
    if parts.len() == 0 {
        Seq::empty()
    } else if parts.len() == 1 {
        parts[0]
    } else {
        join(parts.drop_last(), sep) + sep + parts.last()
    }
}

/// `part` stands somewhere in `whole` as a contiguous run of characters.
pub open spec fn occurs_in(part: Seq<char>, whole: Seq<char>) -> bool {
    exists|i: int| 0 <= i <= whole.len() - part.len() && #[trigger] whole.subrange(i, i + part.len()) == part
}

/// A relative file name placed in a directory, as `PathBuf::join` places it on Unix.
pub open spec fn joined_path(dir: Seq<char>, name: Seq<char>) -> Seq<char> {
    if dir.len() == 0 {
        name
    } else if dir.last() == '/' {
        dir + name
    } else {
        dir + seq!['/'] + name
    }
}

/// The views of a list of strings.
pub open spec fn views(v: Seq<String>) -> Seq<Seq<char>> {
    v.map_values(|s: String| s@)
}

/// Appends one character (`String::push`).
#[verifier::external_body]
pub(crate) fn push_char(s: &mut String, c: char)
    ensures
        final(s)@ == old(s)@.push(c),
{
    s.push(c);
}

/// Whether `c` is Unicode white space.
pub fn is_white_space_char(c: char) -> (r: bool)
    ensures
        r == is_white_space(c),
{
    let n = c as u32;
    (0x09 <= n && n <= 0x0d) || n == 0x20 || n == 0x85 || n == 0xa0 || n == 0x1680 || (0x2000
        <= n && n <= 0x200a) || n == 0x2028 || n == 0x2029 || n == 0x202f || n == 0x205f || n
        == 0x3000
}

/// The characters of `s`.
pub fn chars_of(s: &str) -> (r: Vec<char>)
    ensures
        r@ == s@,
{
    let mut r: Vec<char> = Vec::new();
    for c in it: s.chars()
        invariant
            it.seq() == s@,
            r@ == it.seq().take(it.index() as int),
    {
        r.push(c);
        assert(r@ =~= it.seq().take(it.index() + 1));
    }
    assert(r@ =~= s@);
    r
}

/// The text made of `v[from..to]`.
pub fn string_of(v: &Vec<char>, from: usize, to: usize) -> (r: String)
    requires
        from <= to <= v.len(),
    ensures
        r@ == v@.subrange(from as int, to as int),
{
    let mut r = String::new();
    let mut i = from;
    while i < to
        invariant
            from <= i <= to <= v.len(),
            r@ == v@.subrange(from as int, i as int),
        decreases to - i,
    {
        push_char(&mut r, v[i]);
        assert(r@ =~= v@.subrange(from as int, i + 1));
        i = i + 1;
    }
    r
}

/// A copy of `s`.
pub fn copy_str(s: &str) -> (r: String)
    ensures
        r@ == s@,
{
    String::from_str(s)
}

/// `a` followed by `b`.
pub fn concat2(a: &str, b: &str) -> (r: String)
    ensures
        r@ == a@ + b@,
{
    let mut r = String::from_str(a);
    r.append(b);
    r
}

/// `a`, `b` and `c` one after another.
pub fn concat3(a: &str, b: &str, c: &str) -> (r: String)
    ensures
        r@ == a@ + b@ + c@,
{
    let mut r = String::from_str(a);
    r.append(b);
    r.append(c);
    r
}

/// Places the relative file name `name` in the directory `dir` (`Path::join` on Unix).
pub fn join_path(dir: &str, name: &str) -> (r: String)
    ensures
        r@ == joined_path(dir@, name@),
{
    let d = chars_of(dir);
    if d.len() == 0 {
        copy_str(name)
    } else if d[d.len() - 1] == '/' {
        concat2(dir, name)
    } else {
        let r = concat3(dir, "/", name);
        proof {
            reveal_strlit("/");
            assert(r@ =~= dir@ + seq!['/'] + name@);
        }
        r
    }
}

/// Whether two texts hold the same characters.
pub fn same_text(a: &str, b: &str) -> (r: bool)
    ensures
        r == (a@ == b@),
{
    let x = chars_of(a);
    let y = chars_of(b);
    if x.len() != y.len() {
        return false;
    }
    let mut i: usize = 0;
    while i < x.len()
        invariant
            x@ == a@,
            y@ == b@,
            x.len() == y.len(),
            i <= x.len(),
            forall|k: int| 0 <= k < i ==> x@[k] == y@[k],
        decreases x.len() - i,
    {
        if x[i] != y[i] {
            return false;
        }
        i = i + 1;
    }
    assert(x@ =~= y@);
    true
}

proof fn lemma_skip_white_from(s: Seq<char>, i: int)
    requires
        0 <= i <= s.len(),
    ensures
        i <= skip_white_from(s, i) <= s.len(),
        forall|k: int| i <= k < skip_white_from(s, i) ==> is_white_space(#[trigger] s[k]),
        skip_white_from(s, i) < s.len() ==> !is_white_space(s[skip_white_from(s, i)]),
    decreases s.len() - i,
{
    if i < s.len() && is_white_space(s[i]) {
        lemma_skip_white_from(s, i + 1);
    }
}

proof fn lemma_drop_white_back(s: Seq<char>, lo: int, j: int)
    requires
        0 <= lo <= j <= s.len(),
    ensures
        lo <= drop_white_back(s, lo, j) <= j,
        forall|k: int| drop_white_back(s, lo, j) <= k < j ==> is_white_space(#[trigger] s[k]),
        drop_white_back(s, lo, j) > lo ==> !is_white_space(s[drop_white_back(s, lo, j) - 1]),
    decreases j - lo,
{
    if lo < j && is_white_space(s[j - 1]) {
        lemma_drop_white_back(s, lo, j - 1);
    }
}

/// Trimming keeps the text between a run of white space at the front and one at the back,
/// and what it keeps neither starts nor ends with white space.
pub proof fn lemma_trimmed_shape(s: Seq<char>)
    ensures
        exists|a: int, b: int|
            0 <= a <= b <= s.len() && #[trigger] s.subrange(a, b) == trimmed(s) && (forall|k: int|
                0 <= k < a ==> is_white_space(#[trigger] s[k])) && (forall|k: int|
                b <= k < s.len() ==> is_white_space(#[trigger] s[k])),
        trimmed(s).len() > 0 ==> !is_white_space(trimmed(s)[0]) && !is_white_space(
            trimmed(s).last(),
        ),
{
    lemma_skip_white_from(s, 0);
    let a = skip_white_from(s, 0);
    lemma_drop_white_back(s, a, s.len() as int);
    let b = drop_white_back(s, a, s.len() as int);
    assert(s.subrange(a, b) == trimmed(s));
}

/// Trims the white space off both ends of `s`.
pub fn trim(s: &str) -> (r: String)
    ensures
        r@ == trimmed(s@),
{
    let v = chars_of(s);
    let n = v.len();
    let mut i: usize = 0;
    while i < n && is_white_space_char(v[i])
        invariant
            v@ == s@,
            n == v.len(),
            i <= n,
            skip_white_from(v@, i as int) == skip_white_from(v@, 0),
        decreases n - i,
    {
        i = i + 1;
    }
    let mut j: usize = n;
    while j > i && is_white_space_char(v[j - 1])
        invariant
            v@ == s@,
            n == v.len(),
            i <= j <= n,
            skip_white_from(v@, 0) == i,
            drop_white_back(v@, i as int, j as int) == drop_white_back(v@, i as int, n as int),
        decreases j - i,
    {
        j = j - 1;
    }
    string_of(&v, i, j)
}

/// Whether `p` stands in `t` at index `i`.
fn matches_at(t: &Vec<char>, i: usize, p: &Vec<char>) -> (r: bool)
    requires
        i <= t.len(),
    ensures
        r == (p.len() <= t.len() - i && t@.subrange(i as int, i + p.len()) == p@),
{
    if p.len() > t.len() - i {
        return false;
    }
    let mut k: usize = 0;
    while k < p.len()
        invariant
            i <= t.len(),
            p.len() <= t.len() - i,
            k <= p.len(),
            forall|m: int| 0 <= m < k ==> t@[i + m] == p@[m],
        decreases p.len() - k,
    {
        if t[i + k] != p[k] {
            assert(t@.subrange(i as int, i + p.len())[k as int] != p@[k as int]);
            return false;
        }
        k = k + 1;
    }
    assert(t@.subrange(i as int, i + p.len()) =~= p@);
    true
}

proof fn lemma_replace_step(t: Seq<char>, p: Seq<char>, w: Seq<char>, i: int)
    requires
        p.len() > 0,
        0 <= i < t.len(),
    ensures
        replace_all(t.skip(i), p, w) == if p.len() <= t.len() - i && t.subrange(i, i + p.len())
            == p {
            w + replace_all(t.skip(i + p.len()), p, w)
        } else {
            seq![t[i]] + replace_all(t.skip(i + 1), p, w)
        },
{
    let s = t.skip(i);
    assert(s.len() > 0);
    if p.len() <= t.len() - i {
        assert(s.subrange(0, p.len() as int) =~= t.subrange(i, i + p.len()));
        assert(s.skip(p.len() as int) =~= t.skip(i + p.len()));
    }
    assert(s.drop_first() =~= t.skip(i + 1));
}

/// Replaces, from the left, every occurrence of `pat` in `text` by `with` (`str::replace`).
pub fn replace_all_exec(text: &str, pat: &str, with: &str) -> (r: String)
    requires
        pat@.len() > 0,
    ensures
        r@ == replace_all(text@, pat@, with@),
{
    let t = chars_of(text);
    let p = chars_of(pat);
    let n = t.len();
    let mut out = String::new();
    let mut i: usize = 0;
    assert(t@.skip(0) =~= t@);
    while i < n
        invariant
            t@ == text@,
            p@ == pat@,
            p@.len() > 0,
            n == t.len(),
            i <= n,
            replace_all(text@, pat@, with@) == out@ + replace_all(t@.skip(i as int), p@, with@),
        decreases n - i,
    {
        proof {
            lemma_replace_step(t@, p@, with@, i as int);
        }
        if matches_at(&t, i, &p) {
            let ghost before = out@;
            out.append(with);
            assert(before + (with@ + replace_all(t@.skip(i + p.len()), p@, with@)) =~= out@
                + replace_all(t@.skip(i + p.len()), p@, with@));
            i = i + p.len();
        } else {
            let ghost before = out@;
            push_char(&mut out, t[i]);
            assert(before + (seq![t@[i as int]] + replace_all(t@.skip(i + 1), p@, with@))
                =~= out@ + replace_all(t@.skip(i + 1), p@, with@));
            i = i + 1;
        }
    }
    assert(t@.skip(n as int) =~= Seq::<char>::empty());
    assert(out@ + Seq::<char>::empty() =~= out@);
    out
}

/// The strings of `parts` with `sep` between each two (`[String]::join`).
pub fn join_exec(parts: &[String], sep: &str) -> (r: String)
    ensures
        r@ == join(views(parts@), sep@),
{
    let ghost vs = views(parts@);
    let mut r = String::new();
    let mut i: usize = 0;
    while i < parts.len()
        invariant
            vs == views(parts@),
            i <= parts.len(),
            r@ == join(vs.take(i as int), sep@),
        decreases parts.len() - i,
    {
        if i == 0 {
            r.append(parts[i].as_str());
            assert(vs.take(1) =~= seq![vs[0]]);
        } else {
            r.append(sep);
            r.append(parts[i].as_str());
            assert(vs.take(i + 1).drop_last() =~= vs.take(i as int));
        }
        i = i + 1;
    }
    assert(vs.take(parts.len() as int) =~= vs);
    r
}

proof fn lemma_occurs_prefix(part: Seq<char>, whole: Seq<char>, more: Seq<char>)
    requires
        occurs_in(part, whole),
    ensures
        occurs_in(part, whole + more),
{
    let i = choose|i: int|
        0 <= i <= whole.len() - part.len() && #[trigger] whole.subrange(i, i + part.len())
            == part;
    assert((whole + more).subrange(i, i + part.len()) =~= whole.subrange(i, i + part.len()));
}

/// A text occurs in any text that starts with it.
pub proof fn lemma_occurs_at_start(part: Seq<char>, more: Seq<char>)
    ensures
        occurs_in(part, part + more),
{
    let i: int = 0;
    assert((part + more).subrange(i, i + part.len()) =~= part);
}

/// A text occurs in any text that ends with it.
pub proof fn lemma_occurs_at_end(before: Seq<char>, part: Seq<char>)
    ensures
        occurs_in(part, before + part),
{
    let w = before + part;
    let i = before.len() as int;
    assert(w.subrange(i, i + part.len()) =~= part);
}

/// Whatever occurs in a text occurs in any text that contains that text.
pub proof fn lemma_occurs_within(part: Seq<char>, before: Seq<char>, mid: Seq<char>, after: Seq<char>)
    requires
        occurs_in(part, mid),
    ensures
        occurs_in(part, before + mid + after),
{
    let i = choose|i: int|
        0 <= i <= mid.len() - part.len() && #[trigger] mid.subrange(i, i + part.len()) == part;
    let w = before + mid + after;
    let j = before.len() + i;
    assert(w.subrange(j, j + part.len()) =~= mid.subrange(i, i + part.len()));
}

/// Every part of a joined list occurs in the joined text.
pub proof fn lemma_join_contains_parts(parts: Seq<Seq<char>>, sep: Seq<char>, k: int)
    requires
        0 <= k < parts.len(),
    ensures
        occurs_in(parts[k], join(parts, sep)),
    decreases parts.len(),
{
    if parts.len() == 1 {
        lemma_occurs_at_start(parts[0], Seq::empty());
        assert(parts[0] + Seq::<char>::empty() =~= parts[0]);
    } else if k == parts.len() - 1 {
        lemma_occurs_at_end(join(parts.drop_last(), sep) + sep, parts.last());
    } else {
        lemma_join_contains_parts(parts.drop_last(), sep, k);
        assert(parts.drop_last()[k] == parts[k]);
        lemma_occurs_prefix(parts[k], join(parts.drop_last(), sep), sep + parts.last());
        assert(join(parts.drop_last(), sep) + (sep + parts.last()) =~= join(parts, sep));
    }
}

/// A text without `'{'` is left as it is by replacing any pattern that starts with `'{'`.
pub proof fn lemma_replace_absent(text: Seq<char>, pat: Seq<char>, with: Seq<char>)
    requires
        pat.len() > 0,
        pat[0] == '{',
        forall|k: int| 0 <= k < text.len() ==> text[k] != '{',
    ensures
        replace_all(text, pat, with) == text,
    decreases text.len(),
{
    if text.len() > 0 {
        if pat.len() <= text.len() {
            assert(text.subrange(0, pat.len() as int)[0] != pat[0]);
        }
        lemma_replace_absent(text.drop_first(), pat, with);
        assert(seq![text[0]] + text.drop_first() =~= text);
    }
}

} // verus!
