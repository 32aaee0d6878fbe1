//! Character-level string helpers used throughout the library.
use vstd::prelude::*;

verus! {

/// The characters that have the Unicode `White_Space` property, which is what
/// `char::is_whitespace` tests for.
pub open spec fn is_ws(c: char) -> bool {
    ||| ('\u{9}' <= c && c <= '\u{d}')
    ||| c == ' '
    ||| c == '\u{85}'
    ||| c == '\u{a0}'
    ||| c == '\u{1680}'
    ||| ('\u{2000}' <= c && c <= '\u{200a}')
    ||| c == '\u{2028}'
    ||| c == '\u{2029}'
    ||| c == '\u{202f}'
    ||| c == '\u{205f}'
    ||| c == '\u{3000}'
}

/// Tests whether a character is white space in the sense of `char::is_whitespace`.
pub fn is_whitespace(c: char) -> (r: bool)
    ensures
        r == is_ws(c),
{
    ('\u{9}' <= c && c <= '\u{d}') || c == ' ' || c == '\u{85}' || c == '\u{a0}' || c == '\u{1680}'
        || ('\u{2000}' <= c && c <= '\u{200a}') || c == '\u{2028}' || c == '\u{2029}' || c
        == '\u{202f}' || c == '\u{205f}' || c == '\u{3000}'
}


/// The characters of a string slice.
#[verifier::external_body]
pub fn chars_of(s: &str) -> (v: Vec<char>)
    ensures
        v@ == s@,
{
    s.chars().collect()
}

/// The string made of these characters.
#[verifier::external_body]
pub fn string_of(v: &[char]) -> (s: String)
    ensures
        s@ == v@,
{
    v.iter().collect()
}

/// Tests two character sequences for equality.
pub fn chars_eq(a: &[char], b: &[char]) -> (r: bool)
    ensures
        r == (a@ == b@),
{
    if a.len() != b.len() {
        return false;
    }
    let mut i: usize = 0;
    while i < a.len()
        invariant
            a@.len() == b@.len(),
            i <= a@.len(),
            forall|j: int| 0 <= j < i ==> a@[j] == b@[j],
        decreases a@.len() - i,
    {
        if a[i] != b[i] {
            return false;
        }
        i += 1;
    }
    assert(a@ =~= b@);
    true
}

/// Tests whether a string slice equals another.
pub fn str_eq(a: &str, b: &str) -> (r: bool)
    ensures
        r == (a@ == b@),
{
    let av = chars_of(a);
    let bv = chars_of(b);
    chars_eq(av.as_slice(), bv.as_slice())
}

/// `s` without its leading white space.
pub open spec fn trim_start(s: Seq<char>) -> Seq<char>
    decreases s.len(),
{
    if s.len() > 0 && is_ws(s[0]) {
        trim_start(s.drop_first())
    } else {
        s
    }
}

/// `s` without its trailing white space.
pub open spec fn trim_end(s: Seq<char>) -> Seq<char>
    decreases s.len(),
{
    if s.len() > 0 && is_ws(s.last()) {
        trim_end(s.drop_last())
    } else {
        s
    }
}

/// `s` without leading and trailing white space, as `str::trim` returns it.
pub open spec fn trim(s: Seq<char>) -> Seq<char> {
    trim_end(trim_start(s))
}

/// Whether `n` occurs in `h` as a contiguous run.
pub open spec fn contains(h: Seq<char>, n: Seq<char>) -> bool {
    exists|i: int| 0 <= i && i + n.len() <= h.len() && #[trigger] h.subrange(i, i + n.len()) == n
}

/// Whether `h` begins with `p`.
pub open spec fn starts_with(h: Seq<char>, p: Seq<char>) -> bool {
    p.len() <= h.len() && h.subrange(0, p.len() as int) == p
}

/// Whether `h` ends with `p`.
pub open spec fn ends_with(h: Seq<char>, p: Seq<char>) -> bool {
    p.len() <= h.len() && h.subrange(h.len() - p.len(), h.len() as int) == p
}

/// Whether the character `c` occurs in `s`.
pub open spec fn has_char(s: Seq<char>, c: char) -> bool {
    exists|i: int| 0 <= i < s.len() && s[i] == c
}

/// `c` with ASCII upper-case letters mapped to lower case.
pub open spec fn ascii_lower(c: char) -> char {
    if 'A' <= c && c <= 'Z' {
        ((c as u32) + 32) as char
    } else {
        c
    }
}

/// `c` with ASCII lower-case letters mapped to upper case.
pub open spec fn ascii_upper(c: char) -> char {
    if 'a' <= c && c <= 'z' {
        ((c as u32) - 32) as char
    } else {
        c
    }
}

/// Whether every character of `s` is ASCII.
pub open spec fn all_ascii(s: Seq<char>) -> bool {
    forall|i: int| 0 <= i < s.len() ==> (s[i] as u32) < 0x80
}

/// What `str::to_lowercase` returns for a string with these characters (the
/// Unicode lower-case mapping).
pub uninterp spec fn str_lower(s: Seq<char>) -> Seq<char>;

/// `str::to_lowercase`: the lower-case form of `s` under Unicode's
/// case mapping, which is a function of the characters of `s`.
#[verifier::external_body]
pub fn to_lowercase(s: &str) -> (r: String)
    ensures
        r@ == str_lower(s@),
        s@.len() == 0 ==> r@.len() == 0,
        all_ascii(s@) ==> r@ == s@.map_values(|c: char| ascii_lower(c)),
{
    s.to_lowercase()
}

proof fn lemma_trim_start_skip(s: Seq<char>, i: int)
    requires
        0 <= i <= s.len(),
        forall|j: int| 0 <= j < i ==> is_ws(s[j]),
    ensures
        trim_start(s) == trim_start(s.subrange(i, s.len() as int)),
    decreases i,
{
    if i > 0 {
        assert(s.drop_first() =~= s.subrange(1, s.len() as int));
        lemma_trim_start_skip(s.drop_first(), i - 1);
        assert(s.drop_first().subrange(i - 1, s.drop_first().len() as int) =~= s.subrange(
            i,
            s.len() as int,
        ));
    } else {
        assert(s.subrange(0, s.len() as int) =~= s);
    }
}

proof fn lemma_trim_end_skip(s: Seq<char>, e: int)
    requires
        0 <= e <= s.len(),
        forall|j: int| e <= j < s.len() ==> is_ws(s[j]),
    ensures
        trim_end(s) == trim_end(s.subrange(0, e)),
    decreases s.len() - e,
{
    if e < s.len() {
        assert(s.drop_last() =~= s.subrange(0, s.len() - 1));
        lemma_trim_end_skip(s.drop_last(), e);
        assert(s.drop_last().subrange(0, e) =~= s.subrange(0, e));
    } else {
        assert(s.subrange(0, e) =~= s);
    }
}

/// The bounds `(start, end)` of `v` without leading and trailing white space.
pub fn trim_bounds(v: &[char]) -> (r: (usize, usize))
    ensures
        r.0 <= r.1 <= v@.len(),
        v@.subrange(r.0 as int, r.1 as int) == trim(v@),
{
    let mut start: usize = 0;
    while start < v.len() && is_whitespace(v[start])
        invariant
            start <= v@.len(),
            forall|j: int| 0 <= j < start ==> is_ws(v@[j]),
        decreases v@.len() - start,
    {
        start += 1;
    }
    proof {
        lemma_trim_start_skip(v@, start as int);
    }
    let ghost rest = v@.subrange(start as int, v@.len() as int);
    assert(rest.len() == 0 || !is_ws(rest[0]));
    assert(trim_start(rest) == rest);
    let mut end: usize = v.len();
    while end > start && is_whitespace(v[end - 1])
        invariant
            start <= end <= v@.len(),
            forall|j: int| end <= j < v@.len() ==> is_ws(v@[j]),
        decreases end,
    {
        end -= 1;
    }
    proof {
        lemma_trim_end_skip(rest, end - start);
        assert(rest.subrange(0, end - start) =~= v@.subrange(start as int, end as int));
        let r = v@.subrange(start as int, end as int);
        assert(r.len() == 0 || !is_ws(r.last()));
    }
    (start, end)
}

/// The characters of `v` from `start` to `end`.
pub fn slice_chars(v: &[char], start: usize, end: usize) -> (r: Vec<char>)
    requires
        start <= end <= v@.len(),
    ensures
        r@ == v@.subrange(start as int, end as int),
{
    let mut r: Vec<char> = Vec::new();
    let mut i = start;
    while i < end
        invariant
            start <= i <= end <= v@.len(),
            r@ == v@.subrange(start as int, i as int),
        decreases end - i,
    {
        r.push(v[i]);
        i += 1;
        assert(r@ =~= v@.subrange(start as int, i as int));
    }
    r
}

/// `v` without leading and trailing white space.
pub fn trim_chars(v: &[char]) -> (r: Vec<char>)
    ensures
        r@ == trim(v@),
{
    let (s, e) = trim_bounds(v);
    slice_chars(v, s, e)
}

/// `str::trim`: `s` without leading and trailing white space.
pub fn trim_str(s: &str) -> (r: String)
    ensures
        r@ == trim(s@),
{
    let v = chars_of(s);
    let t = trim_chars(v.as_slice());
    string_of(t.as_slice())
}

/// Whether `n` occurs in `h` at position `i`.
pub fn occurs_at(h: &[char], n: &[char], i: usize) -> (r: bool)
    requires
        i + n@.len() <= h@.len(),
    ensures
        r == (h@.subrange(i as int, i + n@.len()) == n@),
{
    let mut j: usize = 0;
    while j < n.len()
        invariant
            i + n@.len() <= h@.len(),
            h@.len() == h.len(),
            j <= n@.len(),
            forall|k: int| 0 <= k < j ==> h@[i + k] == n@[k],
        decreases n@.len() - j,
    {
        if h[i + j] != n[j] {
            assert(h@.subrange(i as int, i + n@.len())[j as int] != n@[j as int]);
            return false;
        }
        j += 1;
    }
    assert(h@.subrange(i as int, i + n@.len()) =~= n@);
    true
}

/// Whether `n` occurs in `h`.
pub fn contains_chars(h: &[char], n: &[char]) -> (r: bool)
    ensures
        r == contains(h@, n@),
{
    if n.len() > h.len() {
        return false;
    }
    let last = h.len() - n.len();
    let mut i: usize = 0;
    loop
        invariant
            n@.len() <= h@.len(),
            last == h@.len() - n@.len(),
            i <= last,
            forall|k: int| 0 <= k < i ==> #[trigger] h@.subrange(k, k + n@.len()) != n@,
        decreases last - i,
    {
        if occurs_at(h, n, i) {
            return true;
        }
        if i == last {
            assert(forall|k: int|
                0 <= k && k + n@.len() <= h@.len() ==> #[trigger] h@.subrange(k, k + n@.len())
                    != n@);
            return false;
        }
        i += 1;
    }
}

/// Whether the string `n` occurs in `h`.
pub fn contains_str(h: &[char], n: &str) -> (r: bool)
    ensures
        r == contains(h@, n@),
{
    let nv = chars_of(n);
    contains_chars(h, nv.as_slice())
}

/// Whether `h` ends with `p`.
pub fn ends_with_chars(h: &[char], p: &[char]) -> (r: bool)
    ensures
        r == ends_with(h@, p@),
{
    if p.len() > h.len() {
        return false;
    }
    occurs_at(h, p, h.len() - p.len())
}

/// Whether `h` begins with `p`.
pub fn starts_with_chars(h: &[char], p: &[char]) -> (r: bool)
    ensures
        r == starts_with(h@, p@),
{
    if p.len() > h.len() {
        return false;
    }
    occurs_at(h, p, 0)
}

/// Whether `c` occurs in `v`.
pub fn has_char_in(v: &[char], c: char) -> (r: bool)
    ensures
        r == has_char(v@, c),
{
    let mut i: usize = 0;
    while i < v.len()
        invariant
            i <= v@.len(),
            forall|j: int| 0 <= j < i ==> v@[j] != c,
        decreases v@.len() - i,
    {
        if v[i] == c {
            return true;
        }
        i += 1;
    }
    false
}

/// Appends the characters of `s` to `v`.
pub fn push_str(v: &mut Vec<char>, s: &str)
    ensures
        final(v)@ == old(v)@ + s@,
{
    let cs = chars_of(s);
    let mut i: usize = 0;
    while i < cs.len()
        invariant
            i <= cs@.len(),
            cs@ == s@,
            v@ == old(v)@ + cs@.subrange(0, i as int),
        decreases cs@.len() - i,
    {
        v.push(cs[i]);
        i += 1;
        assert(v@ =~= old(v)@ + cs@.subrange(0, i as int));
    }
    assert(cs@.subrange(0, cs@.len() as int) =~= cs@);
}

/// Appends the characters of `s` to `v`.
pub fn push_chars(v: &mut Vec<char>, s: &[char])
    ensures
        final(v)@ == old(v)@ + s@,
{
    let mut i: usize = 0;
    while i < s.len()
        invariant
            i <= s@.len(),
            v@ == old(v)@ + s@.subrange(0, i as int),
        decreases s@.len() - i,
    {
        v.push(s[i]);
        i += 1;
        assert(v@ =~= old(v)@ + s@.subrange(0, i as int));
    }
    assert(s@.subrange(0, s@.len() as int) =~= s@);
}

/// The string `a` followed by `b`.
pub fn concat2(a: &str, b: &str) -> (r: String)
    ensures
        r@ == a@ + b@,
{
    let mut v = chars_of(a);
    push_str(&mut v, b);
    string_of(v.as_slice())
}

/// The string `a`, `b`, `c` in this order.
pub fn concat3(a: &str, b: &str, c: &str) -> (r: String)
    ensures
        r@ == a@ + b@ + c@,
{
    let mut v = chars_of(a);
    push_str(&mut v, b);
    push_str(&mut v, c);
    string_of(v.as_slice())
}

/// An owned copy of a string slice.
pub fn owned(s: &str) -> (r: String)
    ensures
        r@ == s@,
{
    s.to_owned()
}


/// Whether `n` is a contiguous part of `h`.
pub open spec fn is_substring(n: Seq<char>, h: Seq<char>) -> bool {
    contains(h, n)
}

/// A path that is relative, names no drive and uses only `/` as separator:
/// such a path has the same components on every platform.
pub open spec fn simple_relative(p: Seq<char>) -> bool {
    &&& p.len() > 0
    &&& p[0] != '/'
    &&& !has_char(p, '\\')
    &&& !has_char(p, ':')
}

/// The part of `p` before and after its last `/`, if it has one.
pub open spec fn split_last_slash(p: Seq<char>) -> Option<(Seq<char>, Seq<char>)>
    decreases p.len(),
{
    if p.len() == 0 {
        None
    } else if p.last() == '/' {
        Some((p.drop_last(), Seq::<char>::empty()))
    } else {
        match split_last_slash(p.drop_last()) {
            Some(parts) => Some((parts.0, parts.1.push(p.last()))),
            None => None,
        }
    }
}

pub proof fn lemma_split_last_slash_shorter(p: Seq<char>)
    ensures
        split_last_slash(p) matches Some(parts) ==> parts.0.len() < p.len(),
    decreases p.len(),
{
    if p.len() > 0 && p.last() != '/' {
        lemma_split_last_slash_shorter(p.drop_last());
    }
}

/// The last component of a simple relative path, as `Path::file_name`
/// returns it: trailing `/` and `.` components do not count, and a path
/// that ends in `..` (or has no component) has none.
pub open spec fn file_name_spec(p: Seq<char>) -> Option<Seq<char>>
    decreases p.len(),
{
    match split_last_slash(p) {
        None => if p.len() == 0 || p == "."@ || p == ".."@ {
            None
        } else {
            Some(p)
        },
        Some(parts) => {
            proof {
                lemma_split_last_slash_shorter(p);
            }
            if parts.1.len() == 0 || parts.1 == "."@ {
                file_name_spec(parts.0)
            } else if parts.1 == ".."@ {
                None
            } else {
                Some(parts.1)
            }
        },
    }
}

/// What a file-name lookup may give for `p`: its last component where `p` is
/// a simple relative path (or `p` itself where it has none), and in any case a
/// part of `p`.
pub open spec fn basename_outcome(p: Seq<char>, b: Seq<char>) -> bool {
    &&& simple_relative(p) ==> b == (match file_name_spec(p) {
        Some(n) => n,
        None => p,
    })
    &&& is_substring(b, p)
}

/// `Path::file_name` of the path `p`, as a string. On every platform the
/// result is a part of `p`; for a simple relative path it is the last
/// component (see `file_name_spec`). The result for other paths depends on
/// the platform and is not stated.
#[verifier::external_body]
pub fn path_file_name(p: &str) -> (r: Option<String>)
    ensures
        simple_relative(p@) ==> opt_chars(r) == file_name_spec(p@),
        r matches Some(n) ==> is_substring(n@, p@),
{
    std::path::Path::new(p).file_name().and_then(|n| n.to_str()).map(|n| n.to_string())
}

pub open spec fn opt_chars(o: Option<String>) -> Option<Seq<char>> {
    match o {
        Some(s) => Some(s@),
        None => None,
    }
}

/// The base name of `p`: its file name where it has one, else `p` itself.
pub fn base_name(p: &str) -> (r: String)
    ensures
        basename_outcome(p@, r@),
{
    match path_file_name(p) {
        Some(n) => n,
        None => {
            let r = owned(p);
            assert(p@.subrange(0, 0 + r@.len() as int) =~= r@);
            assert(contains(p@, r@));
            r
        },
    }
}

/// What `char::to_uppercase` yields for `c` (the Unicode upper-case
/// mapping, which may have several characters).
pub uninterp spec fn char_upper(c: char) -> Seq<char>;

/// `char::to_uppercase`, collected: the upper-case mapping of `c`, a
/// function of `c` alone.
#[verifier::external_body]
pub fn char_to_uppercase(c: char) -> (r: Vec<char>)
    ensures
        r@ == char_upper(c),
        (c as u32) < 0x80 ==> r@ == seq![ascii_upper(c)],
{
    c.to_uppercase().collect()
}


/// A name that `Path::join` appends as it stands: not empty, without
/// separators, and without a drive or other prefix.
pub open spec fn plain_name(n: Seq<char>) -> bool {
    &&& n.len() > 0
    &&& !has_char(n, '/')
    &&& !has_char(n, '\\')
    &&& !has_char(n, ':')
}

/// A path separator on some platform: `/` everywhere, `\\` on Windows.
pub open spec fn is_sep(c: char) -> bool {
    c == '/' || c == '\\'
}

/// A base path to which `Path::join` appends a plain name in the same way on
/// every platform: it does not begin with two separators (as verbatim,
/// device and network paths do on Windows), is not a bare drive such as
/// `C:`, and does not end in `\\` (a separator only on Windows).
pub open spec fn ordinary_base(b: Seq<char>) -> bool {
    &&& !(b.len() >= 2 && is_sep(b[0]) && is_sep(b[1]))
    &&& !(b.len() == 2 && b[1] == ':')
    &&& !(b.len() > 0 && b.last() == '\\')
}

/// Whether `r` is what joining the plain name `name` onto the ordinary base
/// `base` gives: the base and the name, with one separator (`/`, or `\\` on
/// Windows) between them unless the base is empty or already ends in `/`.
pub open spec fn joined(base: Seq<char>, name: Seq<char>, r: Seq<char>) -> bool {
    plain_name(name) && ordinary_base(base) ==> if base.len() == 0 || base.last() == '/' {
        r == base + name
    } else {
        exists|sep: char| is_sep(sep) && r == base.push(sep) + name
    }
}

/// Joining a plain name onto an ordinary base gives an ordinary base again.
pub proof fn lemma_joined_ordinary(base: Seq<char>, name: Seq<char>, r: Seq<char>)
    requires
        plain_name(name),
        ordinary_base(base),
        joined(base, name, r),
    ensures
        ordinary_base(r),
        r.len() > 0,
        r.last() == name.last(),
{
    let sep: Seq<char> = if base.len() == 0 || base.last() == '/' {
        seq![]
    } else {
        let c = choose|c: char| is_sep(c) && r == base.push(c) + name;
        assert(base.push(c) + name =~= base + seq![c] + name);
        seq![c]
    };
    assert(r =~= base + sep + name);
    assert(r.last() == name.last());
    assert(!has_char(name, '\\') ==> name.last() != '\\') by {
        if name.last() == '\\' {
            assert(name[name.len() - 1] == '\\');
        }
    }
    assert(name.last() != ':') by {
        assert(name[name.len() - 1] == name.last());
    }
    if r.len() >= 2 {
        if base.len() == 0 {
            assert(r =~= name);
            assert(r[0] == name[0] && r[1] == name[1]);
            assert(!is_sep(name[0]) || !is_sep(name[1])) by {
                assert(name[0] != '/' && name[0] != '\\');
            }
        } else if base.len() == 1 {
            assert(r[1] == (sep + name)[0]);
            if sep.len() == 0 {
                assert(r[1] == name[0]);
                assert(name[0] != '/' && name[0] != '\\');
            } else {
                assert(base[0] == '/' || !is_sep(base[0]));
                assert(base.last() != '/');
                assert(base[0] == base.last());
            }
        } else {
            assert(r[0] == base[0] && r[1] == base[1]);
        }
    }
    if r.len() == 2 {
        assert(r[1] == r.last());
    }
}

/// `Path::join`, as text: `name` appended to `base` with the platform's
/// separator where one is needed. For a plain name and an ordinary base this
/// is the base, a separator unless the base is empty or ends in `/`, and the
/// name; what it gives otherwise depends on the platform and is not stated.
#[verifier::external_body]
pub fn join_path(base: &str, name: &str) -> (r: String)
    ensures
        joined(base@, name@, r@),
{
    std::path::Path::new(base).join(name).to_string_lossy().into_owned()
}

/// Whether `r` is `base` with the plain names of `parts` joined on in turn.
pub open spec fn joined_all(base: Seq<char>, parts: Seq<Seq<char>>, r: Seq<char>) -> bool
    decreases parts.len(),
{
    if parts.len() == 0 {
        r == base
    } else {
        exists|mid: Seq<char>|
            joined_all(base, parts.drop_last(), mid) && #[trigger] joined(mid, parts.last(), r)
    }
}

/// Joining plain names one after another onto an ordinary base gives an
/// ordinary base that ends in the last name.
pub proof fn lemma_joined_all_ordinary(base: Seq<char>, parts: Seq<Seq<char>>, r: Seq<char>)
    requires
        ordinary_base(base),
        forall|i: int| 0 <= i < parts.len() ==> plain_name(#[trigger] parts[i]),
        joined_all(base, parts, r),
    ensures
        ordinary_base(r),
        parts.len() > 0 ==> ends_with(r, parts.last()),
    decreases parts.len(),
{
    if parts.len() > 0 {
        let mid = choose|mid: Seq<char>|
            joined_all(base, parts.drop_last(), mid) && #[trigger] joined(mid, parts.last(), r);
        assert forall|i: int| 0 <= i < parts.drop_last().len() implies plain_name(
            #[trigger] parts.drop_last()[i],
        ) by {
            assert(parts.drop_last()[i] == parts[i]);
        }
        lemma_joined_all_ordinary(base, parts.drop_last(), mid);
        assert(plain_name(parts[parts.len() - 1]));
        lemma_joined_ordinary(mid, parts.last(), r);
        let n = parts.last();
        if mid.len() == 0 || mid.last() == '/' {
            assert(r.subrange(r.len() - n.len(), r.len() as int) =~= n);
        } else {
            let c = choose|c: char| is_sep(c) && r == mid.push(c) + n;
            assert(r.subrange(r.len() - n.len(), r.len() as int) =~= n);
        }
    }
}

/// Joining plain names onto an ordinary base ends in the last two names with
/// a separator between them.
pub proof fn lemma_joined_all_tail(base: Seq<char>, parts: Seq<Seq<char>>, r: Seq<char>)
    requires
        ordinary_base(base),
        parts.len() >= 2,
        forall|i: int| 0 <= i < parts.len() ==> plain_name(#[trigger] parts[i]),
        joined_all(base, parts, r),
    ensures
        exists|sep: char|
            is_sep(sep) && ends_with(r, parts[parts.len() - 2].push(sep) + parts.last()),
{
    let mid = choose|mid: Seq<char>|
        joined_all(base, parts.drop_last(), mid) && #[trigger] joined(mid, parts.last(), r);
    let init = parts.drop_last();
    assert forall|i: int| 0 <= i < init.len() implies plain_name(#[trigger] init[i]) by {
        assert(init[i] == parts[i]);
    }
    lemma_joined_all_ordinary(base, init, mid);
    let p = init.last();
    assert(p == parts[parts.len() - 2]);
    assert(plain_name(p));
    assert(plain_name(parts[parts.len() - 1]));
    assert(mid.last() == p.last()) by {
        assert(mid.subrange(mid.len() - p.len(), mid.len() as int)[p.len() - 1] == p[p.len() - 1]);
    }
    assert(p.last() != '/') by {
        assert(p[p.len() - 1] == p.last());
    }
    let n = parts.last();
    let c = choose|c: char| is_sep(c) && r == mid.push(c) + n;
    let tail = p.push(c) + n;
    assert(r.subrange(r.len() - tail.len(), r.len() as int) =~= tail) by {
        assert forall|k: int| 0 <= k < tail.len() implies r.subrange(
            r.len() - tail.len(),
            r.len() as int,
        )[k] == tail[k] by {
            if k < p.len() {
                assert(mid.subrange(mid.len() - p.len(), mid.len() as int)[k] == p[k]);
            }
        }
    }
}

pub fn join_all(base: &str, parts: &Vec<&str>) -> (r: String)
    ensures
        joined_all(base@, parts@.map_values(|p: &str| p@), r@),
{
    let ghost ps = parts@.map_values(|p: &str| p@);
    let mut cur = owned(base);
    let mut i: usize = 0;
    while i < parts.len()
        invariant
            i <= parts@.len(),
            ps == parts@.map_values(|p: &str| p@),
            joined_all(base@, ps.subrange(0, i as int), cur@),
        decreases parts@.len() - i,
    {
        let ghost prev = cur@;
        let next = join_path(cur.as_str(), parts[i]);
        proof {
            let sub = ps.subrange(0, i + 1);
            assert(sub.drop_last() =~= ps.subrange(0, i as int));
            assert(sub.last() == parts@[i as int]@);
            assert(joined(prev, sub.last(), next@));
        }
        cur = next;
        i += 1;
    }
    assert(ps.subrange(0, parts@.len() as int) =~= ps);
    cur
}

} // verus!
