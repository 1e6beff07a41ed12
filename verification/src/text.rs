//! Character-level text utilities: substring search, line splitting,
//! comment stripping and joining, all over `Seq<char>` models.
use vstd::prelude::*;

verus! {

broadcast use vstd::string::group_string_axioms;

// ---------------------------------------------------------------------------
// Substring search
// ---------------------------------------------------------------------------

/// `needle` occurs in `hay` starting at position `i`.
pub open spec fn occurs_at(hay: Seq<char>, needle: Seq<char>, i: int) -> bool {
    &&& 0 <= i
    &&& i + needle.len() <= hay.len()
    &&& hay.subrange(i, i + needle.len()) == needle
}

/// `needle` occurs somewhere in `hay`.
pub open spec fn has_substring(hay: Seq<char>, needle: Seq<char>) -> bool {
    exists|i: int| occurs_at(hay, needle, i)
}

/// `i` is the leftmost position at which `needle` occurs in `hay`.
pub open spec fn is_first_occurrence(hay: Seq<char>, needle: Seq<char>, i: int) -> bool {
    &&& occurs_at(hay, needle, i)
    &&& forall|j: int| 0 <= j < i ==> !occurs_at(hay, needle, j)
}

/// The leftmost position at which `needle` occurs in `hay`, if any.
pub open spec fn first_occurrence(hay: Seq<char>, needle: Seq<char>) -> Option<int> {
    if has_substring(hay, needle) {
        Some(choose|i: int| is_first_occurrence(hay, needle, i))
    } else {
        None
    }
}

/// A leftmost occurrence is the one `first_occurrence` names.
pub proof fn lemma_first_occurrence_unique(hay: Seq<char>, needle: Seq<char>, i: int)
    requires
        is_first_occurrence(hay, needle, i),
    ensures
        first_occurrence(hay, needle) == Some(i),
{
    assert(has_substring(hay, needle));
    let k = choose|k: int| is_first_occurrence(hay, needle, k);
    assert(is_first_occurrence(hay, needle, k));
    if k < i {
        assert(!occurs_at(hay, needle, k));
    }
    if i < k {
        assert(!occurs_at(hay, needle, i));
    }
}

/// Whatever `first_occurrence` names is a leftmost occurrence.
pub proof fn lemma_first_occurrence_some(hay: Seq<char>, needle: Seq<char>)
    requires
        has_substring(hay, needle),
    ensures
        first_occurrence(hay, needle) is Some,
        is_first_occurrence(hay, needle, first_occurrence(hay, needle)->0),
{
    let w = choose|w: int| occurs_at(hay, needle, w);
    lemma_least_occurrence_exists(hay, needle, w);
}

proof fn lemma_least_occurrence_exists(hay: Seq<char>, needle: Seq<char>, w: int)
    requires
        occurs_at(hay, needle, w),
    ensures
        exists|i: int| is_first_occurrence(hay, needle, i),
    decreases w,
{
    if exists|j: int| 0 <= j < w && occurs_at(hay, needle, j) {
        let j = choose|j: int| 0 <= j < w && occurs_at(hay, needle, j);
        lemma_least_occurrence_exists(hay, needle, j);
    } else {
        assert(is_first_occurrence(hay, needle, w));
    }
}

/// Whether `needle` occurs in `hay` at position `i`.
fn occurs_at_exec(hay: &Vec<char>, needle: &Vec<char>, i: usize) -> (r: bool)
    ensures
        r == occurs_at(hay@, needle@, i as int),
{
    if i > hay.len() || needle.len() > hay.len() - i {
        return false;
    }
    let hay_len = hay.len();
    let mut k: usize = 0;
    while k < needle.len()
        invariant
            hay_len == hay@.len(),
            i + needle@.len() <= hay@.len(),
            k <= needle@.len(),
            forall|m: int| 0 <= m < k ==> hay@[i + m] == needle@[m],
        decreases needle@.len() - k,
    {
        assert(i + k < hay@.len());
        if hay[i + k] != needle[k] {
            assert(hay@.subrange(i as int, i + needle@.len())[k as int] != needle@[k as int]);
            return false;
        }
        k = k + 1;
    }
    assert(hay@.subrange(i as int, i + needle@.len()) =~= needle@);
    true
}

/// The leftmost position at which `needle` occurs in `hay`.
pub fn find(hay: &Vec<char>, needle: &Vec<char>) -> (r: Option<usize>)
    ensures
        r matches Some(i) ==> is_first_occurrence(hay@, needle@, i as int),
        r is None ==> !has_substring(hay@, needle@),
        r == (match first_occurrence(hay@, needle@) {
            Some(i) => Some(i as usize),
            None => None,
        }),
{
    let mut i: usize = 0;
    while i < hay.len()
        invariant
            i <= hay@.len(),
            forall|j: int| 0 <= j < i ==> !occurs_at(hay@, needle@, j),
        decreases hay@.len() - i,
    {
        if occurs_at_exec(hay, needle, i) {
            proof {
                lemma_first_occurrence_unique(hay@, needle@, i as int);
            }
            return Some(i);
        }
        i = i + 1;
    }
    if occurs_at_exec(hay, needle, i) {
        proof {
            lemma_first_occurrence_unique(hay@, needle@, i as int);
        }
        return Some(i);
    }
    assert forall|j: int| !occurs_at(hay@, needle@, j) by {
        if 0 <= j && j <= hay@.len() {
            assert(!occurs_at(hay@, needle@, j));
        }
    }
    None
}

/// Whether the literal `needle` occurs in `hay`.
pub fn contains(hay: &Vec<char>, needle: &str) -> (r: bool)
    ensures
        r == has_substring(hay@, needle@),
{
    let n = chars_of(needle);
    find(hay, &n).is_some()
}

/// Whether `needle` occurs in `hay`.
pub fn contains_chars(hay: &Vec<char>, needle: &Vec<char>) -> (r: bool)
    ensures
        r == has_substring(hay@, needle@),
{
    find(hay, needle).is_some()
}

/// The text `a` followed by the text `b`, as characters.
pub fn joined_chars(a: &str, b: &str) -> (r: Vec<char>)
    ensures
        r@ == a@ + b@,
{
    let mut r = chars_of(a);
    append_chars(&mut r, &chars_of(b));
    r
}

/// The characters of `s`, in order.
pub fn chars_of(s: &str) -> (r: Vec<char>)
    ensures
        r@ == s@,
{
    let mut r: Vec<char> = Vec::new();
    for c in it: s.chars()
        invariant
            it.seq() == s@,
            r@ == it.seq().take(it.index()),
    {
        r.push(c);
    }
    r
}

/// Whether `a` is exactly the text `b`.
pub fn same_text(a: &Vec<char>, b: &str) -> (r: bool)
    ensures
        r == (a@ == b@),
{
    let bc = chars_of(b);
    if a.len() != bc.len() {
        assert(a@.len() != bc@.len());
        return false;
    }
    let mut k: usize = 0;
    while k < a.len()
        invariant
            bc@ == b@,
            a@.len() == bc@.len(),
            k <= a@.len(),
            forall|m: int| 0 <= m < k ==> a@[m] == bc@[m],
        decreases a@.len() - k,
    {
        if a[k] != bc[k] {
            assert(a@[k as int] != bc@[k as int]);
            return false;
        }
        k = k + 1;
    }
    assert(a@ =~= bc@);
    true
}

// ---------------------------------------------------------------------------
// Lines
// ---------------------------------------------------------------------------

/// A line as `str::lines` yields it: a `'\r'` just before the line feed is
/// not part of the line.
pub open spec fn drop_carriage_return(l: Seq<char>) -> Seq<char> {
    if l.len() > 0 && l.last() == '\r' {
        l.drop_last()
    } else {
        l
    }
}

/// The lines of `s`, as `str::lines` documents them: split at `'\n'`, a
/// `"\r\n"` pair ends a line as `'\n'` does, and a final line ending is
/// optional (it adds no empty line).
pub open spec fn lines(s: Seq<char>) -> Seq<Seq<char>>
    decreases s.len(),
{
    if s.len() == 0 {
        seq![]
    } else {
        match first_occurrence(s, seq!['\n']) {
            Some(i) => {
                proof {
                    lemma_first_occurrence_some(s, seq!['\n']);
                }
                seq![drop_carriage_return(s.take(i))] + lines(s.skip(i + 1))
            },
            None => seq![s],
        }
    }
}

proof fn lemma_lines_split(t: Seq<char>, k: int)
    requires
        0 <= k < t.len(),
        t[k] == '\n',
        forall|m: int| 0 <= m < k ==> t[m] != '\n',
    ensures
        lines(t) == seq![drop_carriage_return(t.take(k))] + lines(t.skip(k + 1)),
{
    assert(t.subrange(k, k + 1) =~= seq!['\n']);
    assert forall|j: int| 0 <= j < k implies !occurs_at(t, seq!['\n'], j) by {
        assert(t.subrange(j, j + 1)[0] == t[j]);
    }
    lemma_first_occurrence_unique(t, seq!['\n'], k);
}

proof fn lemma_lines_last(t: Seq<char>)
    requires
        forall|m: int| 0 <= m < t.len() ==> t[m] != '\n',
    ensures
        lines(t) == (if t.len() == 0 { Seq::<Seq<char>>::empty() } else { seq![t] }),
{
    assert forall|j: int| !occurs_at(t, seq!['\n'], j) by {
        if 0 <= j && j + 1 <= t.len() {
            assert(t.subrange(j, j + 1)[0] == t[j]);
        }
    }
}

/// The texts held by a sequence of character vectors.
pub open spec fn texts(v: Seq<Vec<char>>) -> Seq<Seq<char>> {
    v.map_values(|x: Vec<char>| x@)
}

/// The lines of `s` (see `lines`).
pub fn split_lines(s: &Vec<char>) -> (r: Vec<Vec<char>>)
    ensures
        texts(r@) == lines(s@),
{
    let mut out: Vec<Vec<char>> = Vec::new();
    let mut cur: Vec<char> = Vec::new();
    let mut start: usize = 0;
    let mut i: usize = 0;
    assert(s@.skip(0) =~= s@);
    while i < s.len()
        invariant
            start <= i <= s@.len(),
            cur@ == s@.subrange(start as int, i as int),
            forall|m: int| start <= m < i ==> s@[m] != '\n',
            texts(out@) + lines(s@.skip(start as int)) == lines(s@),
        decreases s@.len() - i,
    {
        if s[i] == '\n' {
            proof {
                let t = s@.skip(start as int);
                lemma_lines_split(t, i - start);
                assert(t.take(i - start) =~= cur@);
                assert(t.skip(i - start + 1) =~= s@.skip(i + 1));
            }
            let mut line = cur;
            if line.len() > 0 && line[line.len() - 1] == '\r' {
                line.pop();
            }
            let ghost before = texts(out@);
            out.push(line);
            assert(texts(out@) =~= before.push(drop_carriage_return(s@.subrange(start as int, i as int))));
            cur = Vec::new();
            start = i + 1;
        } else {
            cur.push(s[i]);
        }
        i = i + 1;
        assert(cur@ =~= s@.subrange(start as int, i as int));
    }
    proof {
        let t = s@.skip(start as int);
        assert(t =~= cur@);
        lemma_lines_last(t);
    }
    if cur.len() > 0 {
        let ghost before = texts(out@);
        out.push(cur);
        assert(texts(out@) =~= before.push(s@.skip(start as int)));
    } else {
        assert(texts(out@) =~= texts(out@) + Seq::<Seq<char>>::empty());
    }
    out
}

/// A line without its `//` comment: everything before the first `"//"`.
pub open spec fn before_comment(line: Seq<char>) -> Seq<char> {
    match first_occurrence(line, seq!['/', '/']) {
        Some(p) => line.take(p),
        None => line,
    }
}

/// The first `n` characters of `v`.
pub fn prefix_of(v: &Vec<char>, n: usize) -> (r: Vec<char>)
    requires
        n <= v@.len(),
    ensures
        r@ == v@.take(n as int),
{
    let mut r: Vec<char> = Vec::new();
    let mut k: usize = 0;
    while k < n
        invariant
            n <= v@.len(),
            k <= n,
            r@ == v@.take(k as int),
        decreases n - k,
    {
        r.push(v[k]);
        k = k + 1;
        assert(r@ =~= v@.take(k as int));
    }
    r
}

/// The characters of `v` from position `k` on.
pub fn suffix_from(v: &Vec<char>, k: usize) -> (r: Vec<char>)
    requires
        k <= v@.len(),
    ensures
        r@ == v@.skip(k as int),
{
    let mut r: Vec<char> = Vec::new();
    let mut i: usize = k;
    while i < v.len()
        invariant
            k <= i <= v@.len(),
            r@ == v@.subrange(k as int, i as int),
        decreases v@.len() - i,
    {
        r.push(v[i]);
        i = i + 1;
        assert(r@ =~= v@.subrange(k as int, i as int));
    }
    r
}

/// The characters of `v` from position `from` up to (not including) `to`.
pub fn slice_of(v: &Vec<char>, from: usize, to: usize) -> (r: Vec<char>)
    requires
        from <= to <= v@.len(),
    ensures
        r@ == v@.subrange(from as int, to as int),
{
    let mut r: Vec<char> = Vec::new();
    let mut i: usize = from;
    while i < to
        invariant
            from <= i <= to,
            to <= v@.len(),
            r@ == v@.subrange(from as int, i as int),
        decreases to - i,
    {
        r.push(v[i]);
        i = i + 1;
        assert(r@ =~= v@.subrange(from as int, i as int));
    }
    r
}

/// `line` without its `//` comment (see `before_comment`).
pub fn strip_line_comment(line: &Vec<char>) -> (r: Vec<char>)
    ensures
        r@ == before_comment(line@),
{
    let marker = chars_of("//");
    proof {
        reveal_strlit("//");
        assert(marker@ =~= seq!['/', '/']);
    }
    match find(line, &marker) {
        Some(p) => {
            proof {
                lemma_first_occurrence_unique(line@, marker@, p as int);
            }
            prefix_of(line, p)
        },
        None => {
            let mut r: Vec<char> = Vec::new();
            let mut k: usize = 0;
            while k < line.len()
                invariant
                    k <= line@.len(),
                    r@ == line@.take(k as int),
                decreases line@.len() - k,
            {
                r.push(line[k]);
                k = k + 1;
                assert(r@ =~= line@.take(k as int));
            }
            assert(r@ =~= line@);
            r
        },
    }
}

/// The lines `ls` joined with `sep` between consecutive lines.
pub open spec fn join_with(ls: Seq<Seq<char>>, sep: char) -> Seq<char>
    decreases ls.len(),
{
    if ls.len() == 0 {
        seq![]
    } else if ls.len() == 1 {
        ls[0]
    } else {
        join_with(ls.drop_last(), sep) + seq![sep] + ls.last()
    }
}

/// The lines `ls` joined with `'\n'` between consecutive lines.
pub open spec fn join_lines(ls: Seq<Seq<char>>) -> Seq<char> {
    join_with(ls, '\n')
}

/// Each line of `ls` without its `//` comment.
pub open spec fn strip_comments(ls: Seq<Seq<char>>) -> Seq<Seq<char>> {
    ls.map_values(|l: Seq<char>| before_comment(l))
}

/// The text of `ls` with each line's `//` comment removed, lines joined
/// with `'\n'`.
pub open spec fn comment_free(ls: Seq<Seq<char>>) -> Seq<char> {
    join_lines(strip_comments(ls))
}

/// Appends `src` to `dst`.
pub fn append_chars(dst: &mut Vec<char>, src: &Vec<char>)
    ensures
        final(dst)@ == old(dst)@ + src@,
{
    let mut k: usize = 0;
    let ghost start = dst@;
    while k < src.len()
        invariant
            k <= src@.len(),
            dst@ == start + src@.take(k as int),
        decreases src@.len() - k,
    {
        dst.push(src[k]);
        k = k + 1;
        assert(dst@ =~= start + src@.take(k as int));
    }
    assert(src@.take(src@.len() as int) =~= src@);
}

/// The lines `ls[from..end]` joined with `sep`; with `strip`, each line
/// loses its `//` comment first.
pub fn join_range(ls: &Vec<Vec<char>>, from: usize, end: usize, strip: bool, sep: char) -> (r:
    Vec<char>)
    requires
        from <= end <= ls@.len(),
    ensures
        r@ == join_with(
            if strip {
                strip_comments(texts(ls@).subrange(from as int, end as int))
            } else {
                texts(ls@).subrange(from as int, end as int)
            },
            sep,
        ),
{
    let ghost sel = texts(ls@).subrange(from as int, end as int);
    let ghost parts = if strip {
        strip_comments(sel)
    } else {
        sel
    };
    let mut r: Vec<char> = Vec::new();
    let mut i: usize = from;
    assert(parts.take(0) =~= Seq::<Seq<char>>::empty());
    while i < end
        invariant
            from <= i <= end,
            end <= ls@.len(),
            sel == texts(ls@).subrange(from as int, end as int),
            parts == (if strip {
                strip_comments(sel)
            } else {
                sel
            }),
            r@ == join_with(parts.take(i - from), sep),
        decreases end - i,
    {
        let line = if strip {
            strip_line_comment(&ls[i])
        } else {
            prefix_of(&ls[i], ls[i].len())
        };
        assert(line@ == parts[i - from]) by {
            assert(ls[i as int]@.take(ls[i as int]@.len() as int) =~= ls[i as int]@);
        }
        let ghost prev = r@;
        if i > from {
            r.push(sep);
        }
        append_chars(&mut r, &line);
        proof {
            let t = parts.take(i + 1 - from);
            assert(t.drop_last() =~= parts.take(i - from));
            if i == from {
                assert(prev =~= Seq::<char>::empty());
                assert(r@ =~= line@);
            }
        }
        i = i + 1;
    }
    assert(parts.take(end - from) =~= parts);
    r
}

/// The lines `start..=end` of `src`, or none when either index is past the
/// last line.
pub open spec fn line_span(src: Seq<char>, start: int, end: int) -> Seq<Seq<char>> {
    let ls = lines(src);
    if start < ls.len() && end < ls.len() {
        ls.subrange(start, end + 1)
    } else {
        seq![]
    }
}

/// Taking the lines `start..=end` of `src` is defined: when both indices
/// name lines, `start` is at most one past `end`.
pub open spec fn span_ok(src: Seq<char>, start: int, end: int) -> bool {
    let ls = lines(src);
    start < ls.len() && end < ls.len() ==> start <= end + 1
}

/// The text of the lines `start..=end` of `src` (see `line_span`), joined
/// with `'\n'`; with `strip`, without their `//` comments.
pub fn span_text(src: &Vec<char>, start: usize, end: usize, strip: bool) -> (r: Vec<char>)
    requires
        span_ok(src@, start as int, end as int),
    ensures
        r@ == (if strip {
            comment_free(line_span(src@, start as int, end as int))
        } else {
            join_lines(line_span(src@, start as int, end as int))
        }),
{
    let ls = split_lines(src);
    if start < ls.len() && end < ls.len() {
        join_range(&ls, start, end + 1, strip, '\n')
    } else {
        let r: Vec<char> = Vec::new();
        proof {
            let e = Seq::<Seq<char>>::empty();
            assert(strip_comments(e) =~= e);
        }
        r
    }
}

// ---------------------------------------------------------------------------
// Case (Unicode, from std) and whitespace (Unicode White_Space)
// ---------------------------------------------------------------------------

/// What `str::to_lowercase` gives for the text `s`: Unicode lowercase
/// mapping of the whole string.
pub uninterp spec fn lowercase(s: Seq<char>) -> Seq<char>;

/// Calls `str::to_lowercase` on the text `s`; the contract claims only that
/// the result is the fixed function `lowercase` of the text, which the
/// Unicode case tables of std determine.
#[verifier::external_body]
pub(crate) fn to_lowercase(s: &Vec<char>) -> (r: Vec<char>)
    ensures
        r@ == lowercase(s@),
{
    let text: String = s.iter().collect();
    text.to_lowercase().chars().collect()
}

/// `c` has the Unicode `White_Space` property, as `char::is_whitespace`
/// tests it: U+0009 to U+000D, U+0020, U+0085, U+00A0, U+1680, U+2000 to
/// U+200A, U+2028, U+2029, U+202F, U+205F and U+3000.
pub open spec fn is_white_space(c: char) -> bool {
    let v = c as u32;
    ||| 0x09 <= v <= 0x0d
    ||| v == 0x20
    ||| v == 0x85
    ||| v == 0xa0
    ||| v == 0x1680
    ||| 0x2000 <= v <= 0x200a
    ||| v == 0x2028
    ||| v == 0x2029
    ||| v == 0x202f
    ||| v == 0x205f
    ||| v == 0x3000
}

/// Whether `c` is Unicode whitespace (see `is_white_space`).
pub fn char_is_whitespace(c: char) -> (r: bool)
    ensures
        r == is_white_space(c),
{
    let v = c as u32;
    (0x09 <= v && v <= 0x0d) || v == 0x20 || v == 0x85 || v == 0xa0 || v == 0x1680 || (0x2000
        <= v && v <= 0x200a) || v == 0x2028 || v == 0x2029 || v == 0x202f || v == 0x205f || v
        == 0x3000
}

/// `s` without its leading whitespace, as `str::trim_start` gives it.
pub open spec fn trim_start(s: Seq<char>) -> Seq<char>
    decreases s.len(),
{
    if s.len() > 0 && is_white_space(s[0]) {
        trim_start(s.skip(1))
    } else {
        s
    }
}

/// The number of leading whitespace characters of `s`.
pub fn leading_whitespace(s: &Vec<char>) -> (r: usize)
    ensures
        r <= s@.len(),
        trim_start(s@) == s@.skip(r as int),
{
    let mut i: usize = 0;
    assert(s@.skip(0) =~= s@);
    while i < s.len() && char_is_whitespace(s[i])
        invariant
            i <= s@.len(),
            trim_start(s@) == trim_start(s@.skip(i as int)),
        decreases s@.len() - i,
    {
        assert(s@.skip(i as int).skip(1) =~= s@.skip(i + 1));
        i = i + 1;
    }
    i
}

/// The text `a`, then `b`, then `c`.
pub fn concat3(a: &str, b: &str, c: &str) -> (r: String)
    ensures
        r@ == a@ + b@ + c@,
{
    let mut r = String::from_str(a);
    r.append(b);
    r.append(c);
    r
}

/// The length in bytes of the UTF-8 encoding of `s`, as `u32`.
pub open spec fn byte_len_u32(s: Seq<char>) -> u32 {
    vstd::utf8::encode_utf8(s).len() as usize as u32
}

/// The length in bytes of `s`, as `u32` (wrapping as `as u32` does).
pub fn byte_length(s: &String) -> (r: u32)
    ensures
        r == byte_len_u32(s@),
{
    s.as_str().len() as u32
}

/// `s` begins with `prefix`.
pub open spec fn starts_with(s: Seq<char>, prefix: Seq<char>) -> bool {
    occurs_at(s, prefix, 0)
}

/// Whether `s`, without its leading whitespace, begins with `prefix`.
pub fn trimmed_starts_with(s: &Vec<char>, prefix: &str) -> (r: bool)
    ensures
        r == starts_with(trim_start(s@), prefix@),
{
    let k = leading_whitespace(s);
    let p = chars_of(prefix);
    let r = occurs_at_exec(s, &p, k);
    proof {
        let t = s@.skip(k as int);
        if occurs_at(s@, p@, k as int) {
            assert(t.subrange(0, p@.len() as int) =~= s@.subrange(k as int, k + p@.len()));
        }
        if occurs_at(t, p@, 0) {
            assert(t.subrange(0, p@.len() as int) =~= s@.subrange(k as int, k + p@.len()));
        }
    }
    r
}

/// The first `k` lines of `ls`, or all of them when there are fewer.
pub open spec fn first_lines(ls: Seq<Seq<char>>, k: int) -> Seq<Seq<char>> {
    if ls.len() <= k {
        ls
    } else {
        ls.take(k)
    }
}

/// The first five lines of `s` (see `lines`) joined with single spaces.
pub fn head_lines_spaced(s: &Vec<char>) -> (r: Vec<char>)
    ensures
        r@ == join_with(first_lines(lines(s@), 5), ' '),
{
    let ls = split_lines(s);
    let k: usize = if ls.len() <= 5 {
        ls.len()
    } else {
        5
    };
    let r = join_range(&ls, 0, k, false, ' ');
    assert(texts(ls@).subrange(0, k as int) =~= first_lines(lines(s@), 5));
    r
}

} // verus!
