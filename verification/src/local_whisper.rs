//! Local transcription with whisper.cpp models: where a configured model is
//! looked for, and the language hint handed to the model.
use vstd::prelude::*;

use crate::model_manager::lex_le;
use crate::text::{
    all_ascii, ascii_lower, is_ws, trim_end, trim_start, chars_of, contains, ends_with, ends_with_chars, has_char, has_char_in, join_all,
    join_path, joined, joined_all, owned, push_str, starts_with, starts_with_chars, str_lower,
    string_of, to_lowercase, trim, trim_chars,
};

verus! {

/// Whether `s` and `t` are equal when ASCII letters are compared without
/// regard to case (`str::eq_ignore_ascii_case`).
pub open spec fn eq_ignore_ascii_case(s: Seq<char>, t: Seq<char>) -> bool {
    s.len() == t.len() && forall|i: int| 0 <= i < s.len() ==> ascii_lower(s[i]) == ascii_lower(t[i])
}

fn lower_ascii(c: char) -> (r: char)
    ensures
        r == ascii_lower(c),
{
    if 'A' <= c && c <= 'Z' {
        assert(((c as u32) + 32) as char == ascii_lower(c));
        ((c as u32 + 32) as u8) as char
    } else {
        c
    }
}

fn eq_ignore_ascii_case_chars(s: &[char], t: &[char]) -> (r: bool)
    ensures
        r == eq_ignore_ascii_case(s@, t@),
{
    if s.len() != t.len() {
        return false;
    }
    let mut i: usize = 0;
    while i < s.len()
        invariant
            i <= s@.len(),
            s@.len() == t@.len(),
            forall|j: int| 0 <= j < i ==> ascii_lower(s@[j]) == ascii_lower(t@[j]),
        decreases s@.len() - i,
    {
        if lower_ascii(s[i]) != lower_ascii(t[i]) {
            return false;
        }
        i += 1;
    }
    true
}

/// The part of `s` before its first `-` or `_` (all of `s` where it has none).
pub open spec fn primary_subtag(s: Seq<char>) -> Seq<char>
    decreases s.len(),
{
    if s.len() == 0 {
        s
    } else if s[0] == '-' || s[0] == '_' {
        seq![]
    } else {
        seq![s[0]] + primary_subtag(s.drop_first())
    }
}

/// The language Whisper is told to expect for a BCP 47 language tag: the
/// primary subtag, trimmed and lower-cased; none for an empty tag, for
/// `auto`, or where the primary subtag is empty.
pub open spec fn normalize_language_spec(language: Seq<char>) -> Option<Seq<char>> {
    let t = trim(language);
    if t.len() == 0 || eq_ignore_ascii_case(t, "auto"@) {
        None
    } else {
        let p = str_lower(trim(primary_subtag(t)));
        if p.len() == 0 {
            None
        } else {
            Some(p)
        }
    }
}

fn primary_subtag_chars(s: &[char]) -> (r: Vec<char>)
    ensures
        r@ == primary_subtag(s@),
{
    let mut i: usize = 0;
    while i < s.len() && s[i] != '-' && s[i] != '_'
        invariant
            i <= s@.len(),
            forall|j: int| 0 <= j < i ==> s@[j] != '-' && s@[j] != '_',
        decreases s@.len() - i,
    {
        i += 1;
    }
    proof {
        lemma_primary_subtag(s@, i as int);
    }
    crate::text::slice_chars(s, 0, i)
}

proof fn lemma_primary_subtag(s: Seq<char>, i: int)
    requires
        0 <= i <= s.len(),
        forall|j: int| 0 <= j < i ==> s[j] != '-' && s[j] != '_',
        i < s.len() ==> s[i] == '-' || s[i] == '_',
    ensures
        primary_subtag(s) == s.subrange(0, i),
    decreases s.len(),
{
    if s.len() > 0 && i > 0 {
        lemma_primary_subtag(s.drop_first(), i - 1);
        assert(seq![s[0]] + s.drop_first().subrange(0, i - 1) =~= s.subrange(0, i));
    } else if s.len() > 0 {
        assert(s.subrange(0, 0) =~= Seq::<char>::empty());
    }
}

proof fn lemma_trim_start_ascii(s: Seq<char>)
    requires
        all_ascii(s),
    ensures
        all_ascii(trim_start(s)),
    decreases s.len(),
{
    if s.len() > 0 && is_ws(s[0]) {
        assert(all_ascii(s.drop_first())) by {
            assert forall|i: int| 0 <= i < s.drop_first().len() implies (s.drop_first()[i] as u32)
                < 0x80 by {
                assert(s.drop_first()[i] == s[i + 1]);
            }
        }
        lemma_trim_start_ascii(s.drop_first());
    }
}

proof fn lemma_trim_end_ascii(s: Seq<char>)
    requires
        all_ascii(s),
    ensures
        all_ascii(trim_end(s)),
    decreases s.len(),
{
    if s.len() > 0 && is_ws(s.last()) {
        assert(all_ascii(s.drop_last())) by {
            assert forall|i: int| 0 <= i < s.drop_last().len() implies (s.drop_last()[i] as u32)
                < 0x80 by {
                assert(s.drop_last()[i] == s[i]);
            }
        }
        lemma_trim_end_ascii(s.drop_last());
    }
}

proof fn lemma_trim_ascii(s: Seq<char>)
    requires
        all_ascii(s),
    ensures
        all_ascii(trim(s)),
{
    lemma_trim_start_ascii(s);
    lemma_trim_end_ascii(trim_start(s));
}

proof fn lemma_primary_subtag_ascii(s: Seq<char>)
    requires
        all_ascii(s),
    ensures
        all_ascii(primary_subtag(s)),
    decreases s.len(),
{
    if s.len() > 0 && s[0] != '-' && s[0] != '_' {
        assert(all_ascii(s.drop_first())) by {
            assert forall|i: int| 0 <= i < s.drop_first().len() implies (s.drop_first()[i] as u32)
                < 0x80 by {
                assert(s.drop_first()[i] == s[i + 1]);
            }
        }
        lemma_primary_subtag_ascii(s.drop_first());
        let rest = primary_subtag(s.drop_first());
        assert forall|i: int| 0 <= i < primary_subtag(s).len() implies (primary_subtag(s)[i] as u32)
            < 0x80 by {
            if i > 0 {
                assert(primary_subtag(s)[i] == rest[i - 1]);
            }
        }
    }
}

/// The language hint for Whisper: the primary subtag of a BCP 47 tag,
/// lower-cased (`en-US` gives `en`); none for an empty tag or `auto`.
pub fn normalize_language(language: &str) -> (r: Option<String>)
    ensures
        match r {
            Some(p) => normalize_language_spec(language@) == Some(p@),
            None => normalize_language_spec(language@) is None,
        },
        all_ascii(language@) ==> (r is Some <==> (trim(language@).len() > 0 && !eq_ignore_ascii_case(
            trim(language@),
            "auto"@,
        ) && trim(primary_subtag(trim(language@))).len() > 0)),
        all_ascii(language@) ==> (r matches Some(p) ==> p@ == trim(
            primary_subtag(trim(language@)),
        ).map_values(|c: char| ascii_lower(c))),
{
    let v = chars_of(language);
    let t = trim_chars(v.as_slice());
    let auto = chars_of("auto");
    if t.len() == 0 || eq_ignore_ascii_case_chars(t.as_slice(), auto.as_slice()) {
        return None;
    }
    let primary = primary_subtag_chars(t.as_slice());
    let trimmed = trim_chars(primary.as_slice());
    let ts = string_of(trimmed.as_slice());
    proof {
        if all_ascii(language@) {
            lemma_trim_ascii(language@);
            lemma_primary_subtag_ascii(trim(language@));
            lemma_trim_ascii(primary_subtag(trim(language@)));
        }
    }
    let lower = to_lowercase(ts.as_str());
    let lv = chars_of(lower.as_str());
    if lv.len() == 0 {
        None
    } else {
        Some(lower)
    }
}

/// Whether a configured model is a bare identifier (such as `base.en`)
/// rather than a path: no separators, and not starting with `.` or `~`.
pub open spec fn looks_like_identifier_spec(model: Seq<char>) -> bool {
    &&& !has_char(model, '/')
    &&& !has_char(model, '\\')
    &&& !starts_with(model, "."@)
    &&& !starts_with(model, "~"@)
}

/// Whether a configured model is a bare identifier rather than a path.
pub fn looks_like_identifier(model: &str) -> (r: bool)
    ensures
        r == looks_like_identifier_spec(model@),
{
    let v = chars_of(model);
    let dot = chars_of(".");
    let tilde = chars_of("~");
    !has_char_in(v.as_slice(), '/') && !has_char_in(v.as_slice(), '\\') && !starts_with_chars(
        v.as_slice(),
        dot.as_slice(),
    ) && !starts_with_chars(v.as_slice(), tilde.as_slice())
}

/// The model file an identifier names: the identifier itself where it ends
/// in `.bin`, else the identifier with `.bin` added.
pub open spec fn identifier_file_name(model: Seq<char>) -> Seq<char> {
    if ends_with(model, ".bin"@) {
        model
    } else {
        model + ".bin"@
    }
}

fn identifier_file(model: &str) -> (r: String)
    ensures
        r@ == identifier_file_name(model@),
{
    let v = chars_of(model);
    let bin = chars_of(".bin");
    if ends_with_chars(v.as_slice(), bin.as_slice()) {
        owned(model)
    } else {
        crate::text::concat2(model, ".bin")
    }
}

/// `dirs::home_dir`: the user's home directory, where it is known. It is
/// read from the environment, so nothing is stated of it.
#[verifier::external_body]
fn home_dir() -> (r: Option<String>) {
    dirs::home_dir().map(|p| p.to_string_lossy().into_owned())
}

/// `dirs::cache_dir`: the platform's cache directory for the user, where it
/// is known. It is read from the environment, so nothing is stated of it.
#[verifier::external_body]
fn cache_dir() -> (r: Option<String>) {
    dirs::cache_dir().map(|p| p.to_string_lossy().into_owned())
}

/// What `~` and a leading `~/` expand to, given the home directory.
pub open spec fn expanded(path: Seq<char>, home: Option<String>, r: Seq<char>) -> bool {
    if path == "~"@ {
        r == match home {
            Some(h) => h@,
            None => path,
        }
    } else if starts_with(path, "~/"@) {
        match home {
            Some(h) => joined(h@, path.subrange(2, path.len() as int), r),
            None => r == path,
        }
    } else {
        r == path
    }
}

/// Expands `~` and a leading `~/` to the home directory `home`; a path
/// without them, or with no home directory known, stays as it is.
pub fn expand_home(path: &str, home: Option<String>) -> (r: String)
    ensures
        expanded(path@, home, r@),
{
    let v = chars_of(path);
    let tilde = chars_of("~");
    let tilde_slash = chars_of("~/");
    if crate::text::chars_eq(v.as_slice(), tilde.as_slice()) {
        return match home {
            Some(h) => h,
            None => owned(path),
        };
    }
    if starts_with_chars(v.as_slice(), tilde_slash.as_slice()) {
        match home {
            Some(h) => {
                proof {
                    reveal_strlit("~/");
                }
                let rest = crate::text::slice_chars(v.as_slice(), 2, v.len());
                let rs = string_of(rest.as_slice());
                return join_path(h.as_str(), rs.as_str());
            },
            None => {
                return owned(path);
            },
        }
    }
    owned(path)
}

/// The directories a model identifier is looked for in besides the cache:
/// the configuration directory, where there is one, and the cache directory
/// Yap uses.
#[derive(Clone, Debug)]
pub struct ModelDirs {
    /// Yap's configuration directory, where it is known.
    pub config_dir: Option<String>,
    /// The directory where Yap keeps downloaded models.
    pub whisper_cache_dir: String,
}

/// The places a configured model is looked for, before they are sorted:
/// the model's path (with `~` expanded), and for a bare identifier the
/// identifier's file in the configuration directory (under `whisper` and
/// under `models/whisper`), in the model cache, and in the two places
/// earlier versions kept models (`yap/whisper` in the platform cache
/// directory and `.cache/yap/whisper` in the home directory).
pub open spec fn candidate_list(
    model: Seq<char>,
    dirs: ModelDirs,
    home: Option<String>,
    platform_cache: Option<String>,
    c: Seq<Seq<char>>,
) -> bool {
    let f = identifier_file_name(model);
    &&& c.len() > 0
    &&& expanded(model, home, c[0])
    &&& if !looks_like_identifier_spec(model) {
        c.len() == 1
    } else {
        let cfg: Seq<Seq<Seq<char>>> = match dirs.config_dir {
            Some(_) => seq![seq!["whisper"@, f], seq!["models"@, "whisper"@, f]],
            None => seq![],
        };
        let legacy: Seq<(Seq<char>, Seq<Seq<char>>)> = match platform_cache {
            Some(p) => seq![(p@, seq!["yap"@, "whisper"@, f])],
            None => seq![],
        } + match home {
            Some(h) => seq![(h@, seq![".cache"@, "yap"@, "whisper"@, f])],
            None => seq![],
        };
        &&& c.len() == 1 + cfg.len() + 1 + legacy.len()
        &&& forall|i: int|
            0 <= i < cfg.len() ==> joined_all(
                dirs.config_dir->Some_0@,
                cfg[i],
                #[trigger] c[1 + i],
            )
        &&& joined_all(dirs.whisper_cache_dir@, seq![f], c[1 + cfg.len() as int])
        &&& forall|i: int|
            0 <= i < legacy.len() ==> joined_all(
                legacy[i].0,
                legacy[i].1,
                #[trigger] c[2 + cfg.len() + i],
            )
    }
}

/// The places a configured model is looked for, in the order they are
/// found, before they are sorted (see `candidate_list`); `home` and
/// `platform_cache` are the home and cache directories of the user.
pub fn candidate_paths(
    model: &str,
    dirs: &ModelDirs,
    home: Option<String>,
    platform_cache: Option<String>,
) -> (r: Vec<String>)
    ensures
        candidate_list(model@, *dirs, home, platform_cache, r@.map_values(|p: String| p@)),
{
    let home_copy = match &home {
        Some(h) => Some(h.clone()),
        None => None,
    };
    let first = expand_home(model, home_copy);
    let mut c: Vec<String> = Vec::new();
    c.push(first);
    if !looks_like_identifier(model) {
        assert(c@.map_values(|p: String| p@) =~= seq![c@[0]@]);
        return c;
    }
    let f = identifier_file(model);
    let ghost fv = f@;
    proof {
        reveal_strlit("whisper");
        reveal_strlit("models");
        reveal_strlit("yap");
        reveal_strlit(".cache");
    }
    let ghost mut cv: Seq<Seq<char>> = seq![c@[0]@];
    match &dirs.config_dir {
        Some(cd) => {
            let parts1 = vec!["whisper", f.as_str()];
            assert(parts1@.map_values(|p: &str| p@) =~= seq!["whisper"@, fv]);
            let p1 = join_all(cd.as_str(), &parts1);
            let parts2 = vec!["models", "whisper", f.as_str()];
            assert(parts2@.map_values(|p: &str| p@) =~= seq!["models"@, "whisper"@, fv]);
            let p2 = join_all(cd.as_str(), &parts2);
            proof {
                cv = cv.push(p1@).push(p2@);
            }
            c.push(p1);
            c.push(p2);
        },
        None => {},
    }
    let parts3 = vec![f.as_str()];
    assert(parts3@.map_values(|p: &str| p@) =~= seq![fv]);
    let pc = join_all(dirs.whisper_cache_dir.as_str(), &parts3);
    proof {
        cv = cv.push(pc@);
    }
    c.push(pc);
    match &platform_cache {
        Some(p) => {
            let parts4 = vec!["yap", "whisper", f.as_str()];
            assert(parts4@.map_values(|p: &str| p@) =~= seq!["yap"@, "whisper"@, fv]);
            let lp = join_all(p.as_str(), &parts4);
            proof {
                cv = cv.push(lp@);
            }
            c.push(lp);
        },
        None => {},
    }
    match &home {
        Some(h) => {
            let parts5 = vec![".cache", "yap", "whisper", f.as_str()];
            assert(parts5@.map_values(|p: &str| p@) =~= seq![".cache"@, "yap"@, "whisper"@, fv]);
            let hp = join_all(h.as_str(), &parts5);
            proof {
                cv = cv.push(hp@);
            }
            c.push(hp);
        },
        None => {},
    }
    assert(c@.map_values(|p: String| p@) =~= cv);
    c
}


/// `s` without each path equal, as a path, to the one before it.
pub open spec fn dedup_paths_spec(s: Seq<Seq<char>>) -> Seq<Seq<char>>
    decreases s.len(),
{
    if s.len() <= 1 {
        s
    } else {
        let d = dedup_paths_spec(s.drop_last());
        if same_path(s[s.len() - 2], s.last()) {
            d
        } else {
            d.push(s.last())
        }
    }
}

pub open spec fn texts(v: Seq<String>) -> Seq<Seq<char>> {
    v.map_values(|p: String| p@)
}

/// A path whose text names its components plainly, so that two such paths
/// are equal as paths exactly when their texts are equal, on every
/// platform: not empty, with `/` as its only separator, no drive (`:`), no
/// repeated or trailing `/` (but for the root itself) and no `.`
/// component.
pub open spec fn canonical_path(p: Seq<char>) -> bool {
    &&& p.len() > 0
    &&& !has_char(p, '\\')
    &&& !has_char(p, ':')
    &&& !contains(p, "//"@)
    &&& (p.len() > 1 ==> p.last() != '/')
    &&& p != "."@
    &&& !starts_with(p, "./"@)
    &&& !ends_with(p, "/."@)
    &&& !contains(p, "/./"@)
}

proof fn lemma_canonical_portable(p: Seq<char>)
    requires
        canonical_path(p),
    ensures
        portable_path(p),
{
    reveal_strlit("//");
    if p.len() >= 2 && p[0] == '/' && p[1] == '/' {
        assert(p.subrange(0, 0 + "//"@.len() as int) =~= "//"@);
        assert(contains(p, "//"@));
    }
}

pub open spec fn all_canonical(s: Seq<Seq<char>>) -> bool {
    forall|i: int| 0 <= i < s.len() ==> canonical_path(#[trigger] s[i])
}

/// The parts of `p` between its `/` separators.
pub open spec fn split_slash(p: Seq<char>) -> Seq<Seq<char>>
    decreases p.len(),
{
    if p.len() == 0 {
        seq![seq![]]
    } else {
        let s = split_slash(p.drop_last());
        if p.last() == '/' {
            s.push(seq![])
        } else {
            s.update(s.len() - 1, s.last().push(p.last()))
        }
    }
}

/// A component as `Path` orders it: its kind (1 the root, 2 the current
/// directory, 3 `..`, 4 a name, in the order of `std::path::Component`) and
/// its text.
pub open spec fn component(c: Seq<char>) -> (int, Seq<char>) {
    if c == ".."@ {
        (3, c)
    } else {
        (4, c)
    }
}

/// A path whose components are the same on every platform: `/` is its only
/// separator, it names no drive (`:`), and it does not begin with two
/// separators (a network path on Windows).
pub open spec fn portable_path(p: Seq<char>) -> bool {
    &&& !has_char(p, '\\')
    &&& !has_char(p, ':')
    &&& !(p.len() >= 2 && p[0] == '/' && p[1] == '/')
}

pub open spec fn all_portable(s: Seq<Seq<char>>) -> bool {
    forall|i: int| 0 <= i < s.len() ==> portable_path(#[trigger] s[i])
}

/// The components of a portable path, as `Path::components` gives them: the
/// root where the path begins with `/`, the current directory where it
/// begins with a `.` component, then its other parts but for empty ones
/// and `.` (repeated separators and `.` components are normalized away).
#[verifier::opaque]
pub open spec fn path_components(p: Seq<char>) -> Seq<(int, Seq<char>)> {
    let root = p.len() > 0 && p[0] == '/';
    let parts = split_slash(p);
    let cur = !root && parts.len() > 0 && parts[0] == "."@;
    let rest = if cur {
        parts.drop_first()
    } else {
        parts
    };
    (if root {
        seq![(1int, Seq::<char>::empty())]
    } else {
        Seq::<(int, Seq<char>)>::empty()
    }) + (if cur {
        seq![(2int, "."@)]
    } else {
        Seq::<(int, Seq<char>)>::empty()
    }) + rest.filter(|c: Seq<char>| c.len() > 0 && c != "."@).map_values(
        |c: Seq<char>| component(c),
    )
}

/// Whether two portable paths are equal as paths: they have the same
/// components.
pub open spec fn same_path(p: Seq<char>, q: Seq<char>) -> bool {
    path_components(p) == path_components(q)
}

/// Whether component `a` comes before component `b`: by kind, then names
/// by their characters.
pub open spec fn component_lt(a: (int, Seq<char>), b: (int, Seq<char>)) -> bool {
    a.0 < b.0 || (a.0 == b.0 && a.1 != b.1 && lex_le(a.1, b.1))
}

/// Lexicographic order of component lists; a list comes before the lists
/// it begins.
pub open spec fn components_le(x: Seq<(int, Seq<char>)>, y: Seq<(int, Seq<char>)>) -> bool
    decreases x.len(),
{
    if x.len() == 0 {
        true
    } else if y.len() == 0 {
        false
    } else if x[0] == y[0] {
        components_le(x.drop_first(), y.drop_first())
    } else {
        component_lt(x[0], y[0])
    }
}

/// `Path`'s order on portable paths: component by component.
pub open spec fn path_le(p: Seq<char>, q: Seq<char>) -> bool {
    components_le(path_components(p), path_components(q))
}

pub open spec fn path_sorted(s: Seq<Seq<char>>) -> bool {
    forall|i: int, j: int| 0 <= i < j < s.len() ==> path_le(s[i], s[j])
}

/// No path repeats the one before it.
pub open spec fn no_adjacent_repeats(s: Seq<Seq<char>>) -> bool {
    forall|i: int| 0 <= i < s.len() - 1 ==> #[trigger] s[i] != s[i + 1]
}

/// `s` without each path that repeats the one before it.
pub open spec fn dedup_texts(s: Seq<Seq<char>>) -> Seq<Seq<char>>
    decreases s.len(),
{
    if s.len() <= 1 {
        s
    } else {
        let d = dedup_texts(s.drop_last());
        if s[s.len() - 2] == s.last() {
            d
        } else {
            d.push(s.last())
        }
    }
}

/// Sorts paths in `PathBuf`'s order. The result holds the same paths; where
/// all of them are portable it is sorted component by component (see
/// `path_le`). How paths in other forms are ordered depends on the
/// platform's path syntax and is not stated.
#[verifier::external_body]
fn sort_paths(v: Vec<String>) -> (r: Vec<String>)
    ensures
        texts(r@).to_multiset() == texts(v@).to_multiset(),
        all_portable(texts(v@)) ==> path_sorted(texts(r@)),
{
    let mut paths: Vec<std::path::PathBuf> = v.into_iter().map(std::path::PathBuf::from).collect();
    paths.sort();
    paths.into_iter().map(|p| p.to_string_lossy().into_owned()).collect()
}

/// Removes each path equal, as a `PathBuf`, to the path before it, keeping
/// the first of each run. The paths kept are paths of `v`, the first one
/// among them. Where all paths are portable, exactly those with the same
/// components as the one before them go; where all are canonical, equal
/// paths are equal texts. Which texts the platform counts as one path
/// otherwise is not stated.
#[verifier::external_body]
fn dedup_paths(v: Vec<String>) -> (r: Vec<String>)
    ensures
        r@.len() <= v@.len(),
        v@.len() > 0 ==> r@.len() > 0 && r@[0]@ == v@[0]@,
        forall|i: int| 0 <= i < r@.len() ==> texts(v@).contains(#[trigger] r@[i]@),
        all_canonical(texts(v@)) ==> texts(r@) == dedup_texts(texts(v@)),
        all_portable(texts(v@)) ==> texts(r@) == dedup_paths_spec(texts(v@)),
{
    let mut paths: Vec<std::path::PathBuf> = v.into_iter().map(std::path::PathBuf::from).collect();
    paths.dedup();
    paths.into_iter().map(|p| p.to_string_lossy().into_owned()).collect()
}

proof fn lemma_dedup_texts(s: Seq<Seq<char>>)
    ensures
        forall|x: Seq<char>| s.contains(x) ==> dedup_texts(s).contains(x),
        forall|i: int| 0 <= i < dedup_texts(s).len() ==> s.contains(#[trigger] dedup_texts(s)[i]),
        s.len() > 0 ==> dedup_texts(s).len() > 0 && dedup_texts(s).last() == s.last(),
        no_adjacent_repeats(dedup_texts(s)),
        path_sorted(s) ==> path_sorted(dedup_texts(s)),
    decreases s.len(),
{
    if s.len() > 1 {
        let p = s.drop_last();
        lemma_dedup_texts(p);
        let d = dedup_texts(p);
        let r = dedup_texts(s);
        assert forall|x: Seq<char>| s.contains(x) implies r.contains(x) by {
            let j = choose|j: int| 0 <= j < s.len() && s[j] == x;
            if j < s.len() - 1 {
                assert(p[j] == x);
                assert(p.contains(x));
                let k = choose|k: int| 0 <= k < d.len() && d[k] == x;
                if r != d {
                    assert(r[k] == x);
                }
            } else if r == d {
                assert(p[p.len() - 1] == x);
                assert(d[d.len() - 1] == x);
            } else {
                assert(r[r.len() - 1] == x);
            }
        }
        assert forall|i: int| 0 <= i < r.len() implies s.contains(#[trigger] r[i]) by {
            if i < d.len() {
                assert(p.contains(d[i]));
                let j = choose|j: int| 0 <= j < p.len() && p[j] == d[i];
                assert(s[j] == p[j]);
            } else {
                assert(r[i] == s[s.len() - 1]);
            }
        }
        if s[s.len() - 2] != s.last() {
            assert forall|i: int| 0 <= i < r.len() - 1 implies #[trigger] r[i] != r[i + 1] by {
                if i == r.len() - 2 {
                    assert(r[i] == d.last());
                } else {
                    assert(r[i] == d[i] && r[i + 1] == d[i + 1]);
                }
            }
            if path_sorted(s) {
                assert(path_sorted(p));
                assert forall|i: int, j: int| 0 <= i < j < r.len() implies path_le(r[i], r[j]) by {
                    if j == r.len() - 1 {
                        assert(p.contains(d[i]));
                        let k = choose|k: int| 0 <= k < p.len() && p[k] == d[i];
                        assert(s[k] == p[k]);
                    } else {
                        assert(r[i] == d[i] && r[j] == d[j]);
                    }
                }
            }
        } else {
            if path_sorted(s) {
                assert(path_sorted(p));
            }
        }
    } else {
        assert forall|i: int| 0 <= i < dedup_texts(s).len() implies s.contains(
            #[trigger] dedup_texts(s)[i],
        ) by {
            assert(dedup_texts(s)[i] == s[i]);
        }
    }
}

/// Whether some path of `d` is equal, as a path, to `x`.
pub open spec fn has_same_path(d: Seq<Seq<char>>, x: Seq<char>) -> bool {
    exists|j: int| 0 <= j < d.len() && same_path(#[trigger] d[j], x)
}

/// No path is equal, as a path, to the one before it.
pub open spec fn no_adjacent_same_paths(s: Seq<Seq<char>>) -> bool {
    forall|i: int| 0 <= i < s.len() - 1 ==> !same_path(#[trigger] s[i], s[i + 1])
}

proof fn lemma_dedup_paths_members(s: Seq<Seq<char>>)
    ensures
        forall|i: int|
            0 <= i < dedup_paths_spec(s).len() ==> s.contains(#[trigger] dedup_paths_spec(s)[i]),
        s.len() > 0 ==> dedup_paths_spec(s).len() > 0 && same_path(
            dedup_paths_spec(s).last(),
            s.last(),
        ),
    decreases s.len(),
{
    let r = dedup_paths_spec(s);
    if s.len() > 1 {
        let p = s.drop_last();
        lemma_dedup_paths_members(p);
        let d = dedup_paths_spec(p);
        assert(p.last() == s[s.len() - 2]);
        assert forall|i: int| 0 <= i < r.len() implies s.contains(#[trigger] r[i]) by {
            if i < d.len() {
                assert(p.contains(d[i]));
                let j = choose|j: int| 0 <= j < p.len() && p[j] == d[i];
                assert(s[j] == p[j]);
            } else {
                assert(r[i] == s[s.len() - 1]);
            }
        }
    } else {
        assert forall|i: int| 0 <= i < r.len() implies s.contains(#[trigger] r[i]) by {
            assert(r[i] == s[i]);
        }
    }
}

proof fn lemma_dedup_paths_cover(s: Seq<Seq<char>>)
    ensures
        forall|k: int| 0 <= k < s.len() ==> has_same_path(dedup_paths_spec(s), #[trigger] s[k]),
    decreases s.len(),
{
    let r = dedup_paths_spec(s);
    if s.len() > 1 {
        let p = s.drop_last();
        lemma_dedup_paths_cover(p);
        lemma_dedup_paths_members(p);
        let d = dedup_paths_spec(p);
        let keep = !same_path(s[s.len() - 2], s.last());
        assert(p.last() == s[s.len() - 2]);
        assert forall|k: int| 0 <= k < s.len() implies has_same_path(r, #[trigger] s[k]) by {
            if k < s.len() - 1 {
                assert(p[k] == s[k]);
                assert(has_same_path(d, p[k]));
                let j = choose|j: int| 0 <= j < d.len() && same_path(#[trigger] d[j], p[k]);
                if keep {
                    assert(r[j] == d[j]);
                }
            } else if keep {
                assert(r[r.len() - 1] == s.last());
                assert(same_path(r[r.len() - 1], s[k]));
            } else {
                assert(same_path(d[d.len() - 1], s[k]));
            }
        }
    } else {
        assert forall|k: int| 0 <= k < s.len() implies has_same_path(r, #[trigger] s[k]) by {
            assert(same_path(r[k], s[k]));
        }
    }
}

proof fn lemma_dedup_paths_adjacent(s: Seq<Seq<char>>)
    ensures
        no_adjacent_same_paths(dedup_paths_spec(s)),
    decreases s.len(),
{
    if s.len() > 1 {
        let p = s.drop_last();
        lemma_dedup_paths_adjacent(p);
        lemma_dedup_paths_members(p);
        let d = dedup_paths_spec(p);
        let r = dedup_paths_spec(s);
        assert(p.last() == s[s.len() - 2]);
        if !same_path(s[s.len() - 2], s.last()) {
            assert forall|i: int| 0 <= i < r.len() - 1 implies !same_path(
                #[trigger] r[i],
                r[i + 1],
            ) by {
                if i == r.len() - 2 {
                    assert(r[i] == d.last());
                } else {
                    assert(r[i] == d[i] && r[i + 1] == d[i + 1]);
                }
            }
        }
    }
}

proof fn lemma_dedup_paths_sorted(s: Seq<Seq<char>>)
    requires
        path_sorted(s),
    ensures
        path_sorted(dedup_paths_spec(s)),
    decreases s.len(),
{
    if s.len() > 1 {
        let p = s.drop_last();
        assert(path_sorted(p));
        lemma_dedup_paths_sorted(p);
        lemma_dedup_paths_members(p);
        let d = dedup_paths_spec(p);
        let r = dedup_paths_spec(s);
        if !same_path(s[s.len() - 2], s.last()) {
            assert forall|i: int, j: int| 0 <= i < j < r.len() implies path_le(r[i], r[j]) by {
                if j == r.len() - 1 {
                    assert(p.contains(d[i]));
                    let k = choose|k: int| 0 <= k < p.len() && p[k] == d[i];
                    assert(s[k] == p[k]);
                } else {
                    assert(r[i] == d[i] && r[j] == d[j]);
                }
            }
        }
    }
}

/// `r` is the paths of `c` once sorted and deduplicated: at least one of
/// them, and only paths of `c`. Where all paths of `c` are portable, a path
/// equal (as a path) to each of them, in `Path`'s order, each strictly after
/// the one before; where all are canonical, every one of them as text.
pub open spec fn arranged(c: Seq<Seq<char>>, r: Seq<Seq<char>>) -> bool {
    &&& 0 < r.len() <= c.len()
    &&& forall|i: int| 0 <= i < r.len() ==> c.contains(#[trigger] r[i])
    &&& all_canonical(c) ==> {
        &&& forall|i: int| 0 <= i < c.len() ==> r.contains(#[trigger] c[i])
        &&& path_sorted(r)
        &&& no_adjacent_repeats(r)
    }
    &&& all_portable(c) ==> {
        &&& forall|i: int| 0 <= i < c.len() ==> has_same_path(r, #[trigger] c[i])
        &&& path_sorted(r)
        &&& no_adjacent_same_paths(r)
    }
}

/// Whether `r` is the list of places the model `model` may be looked for:
/// the places of `candidate_list` for some home and cache directory of the
/// user, sorted and without repeats.
pub open spec fn model_candidates_outcome(model: Seq<char>, dirs: ModelDirs, r: Seq<Seq<char>>) -> bool {
    exists|home: Option<String>, platform_cache: Option<String>, c: Seq<Seq<char>>|
        candidate_list(model, dirs, home, platform_cache, c) && arranged(c, r)
}

/// The places a configured model is looked for, sorted and without repeats.
pub fn model_candidates(model: &str, dirs: &ModelDirs) -> (r: Vec<String>)
    ensures
        model_candidates_outcome(model@, *dirs, texts(r@)),
{
    let home = home_dir();
    let platform_cache = cache_dir();
    model_candidates_in(model, dirs, home, platform_cache)
}

/// The places a configured model is looked for, sorted and without repeats,
/// given the user's home and cache directories.
pub fn model_candidates_in(
    model: &str,
    dirs: &ModelDirs,
    home: Option<String>,
    platform_cache: Option<String>,
) -> (r: Vec<String>)
    ensures
        exists|c: Seq<Seq<char>>|
            candidate_list(model@, *dirs, home, platform_cache, c) && arranged(c, texts(r@)),
{
    let ghost hv = home;
    let ghost pv = platform_cache;
    let c = candidate_paths(model, dirs, home, platform_cache);
    let ghost cv = texts(c@);
    let sorted = sort_paths(c);
    let ghost sv = texts(sorted@);
    let r = dedup_paths(sorted);
    proof {
        assert(cv.len() > 0);
        cv.to_multiset_ensures();
        sv.to_multiset_ensures();
        assert(sv.len() == cv.len());
        assert forall|i: int| 0 <= i < texts(r@).len() implies cv.contains(#[trigger] texts(r@)[i]) by {
            assert(sv.contains(r@[i]@));
            let j = choose|j: int| 0 <= j < sv.len() && sv[j] == r@[i]@;
            assert(sv.to_multiset().count(sv[j]) > 0);
        }
        if sv.len() > 0 {
            assert(texts(r@).len() > 0);
        }
        if all_canonical(cv) {
            assert forall|i: int| 0 <= i < cv.len() implies portable_path(#[trigger] cv[i]) by {
                lemma_canonical_portable(cv[i]);
            }
        }
        if all_portable(cv) {
            assert forall|i: int| 0 <= i < sv.len() implies portable_path(#[trigger] sv[i]) by {
                assert(sv.contains(sv[i]));
                assert(sv.to_multiset().count(sv[i]) > 0);
                assert(cv.contains(sv[i]));
            }
            lemma_dedup_paths_cover(sv);
            lemma_dedup_paths_adjacent(sv);
            lemma_dedup_paths_sorted(sv);
            lemma_dedup_paths_members(sv);
            assert forall|i: int| 0 <= i < cv.len() implies has_same_path(
                texts(r@),
                #[trigger] cv[i],
            ) by {
                assert(cv.contains(cv[i]));
                assert(cv.to_multiset().count(cv[i]) > 0);
                assert(sv.contains(cv[i]));
                let k = choose|k: int| 0 <= k < sv.len() && sv[k] == cv[i];
                assert(has_same_path(texts(r@), sv[k]));
            }
        }
        if all_canonical(cv) {
            assert forall|i: int| 0 <= i < sv.len() implies canonical_path(#[trigger] sv[i]) by {
                assert(sv.contains(sv[i]));
                assert(sv.to_multiset().count(sv[i]) > 0);
                assert(cv.contains(sv[i]));
            }
            lemma_dedup_texts(sv);
            assert forall|i: int| 0 <= i < cv.len() implies texts(r@).contains(#[trigger] cv[i]) by {
                assert(cv.contains(cv[i]));
                assert(cv.to_multiset().count(cv[i]) > 0);
                assert(sv.contains(cv[i]));
            }
        }
        assert(arranged(cv, texts(r@)));
        assert(candidate_list(model@, *dirs, hv, pv, cv));
    }
    r
}

/// The refusal of an empty model setting.
pub open spec fn no_model_message() -> Seq<char> {
    "Local Whisper needs a whisper.cpp GGML .bin model path in Settings."@
}

/// The lines listing the places searched, each `  - ` and the path.
pub open spec fn searched_lines(c: Seq<Seq<char>>) -> Seq<char>
    decreases c.len(),
{
    if c.len() == 0 {
        seq![]
    } else if c.len() == 1 {
        "  - "@ + c[0]
    } else {
        searched_lines(c.drop_last()) + "\n"@ + "  - "@ + c.last()
    }
}

/// The error for a model found in none of the places searched.
pub open spec fn not_found_message(c: Seq<Seq<char>>) -> Seq<char> {
    "Local Whisper model not found. Set the Model path to an existing whisper.cpp GGML .bin file. Searched:\n"@
        + searched_lines(c)
}

/// Whether `found` is what `is_file` answered for each of the first places
/// of `c`, in order.
pub open spec fn file_checks<F: Fn(String) -> bool>(is_file: F, c: Seq<Seq<char>>, found: Seq<bool>) -> bool {
    &&& found.len() <= c.len()
    &&& forall|i: int|
        0 <= i < found.len() ==> exists|s: String| s@ == c[i] && is_file.ensures((s,), #[trigger] found[i])
}

/// Where a configured model is found: the first of its places (see
/// `model_candidates`) that is a file, checked in order. An empty setting is
/// refused, and a model found nowhere is reported with the places searched.
pub open spec fn resolve_outcome<F: Fn(String) -> bool>(
    is_file: F,
    model: Seq<char>,
    dirs: ModelDirs,
    r: Result<Seq<char>, Seq<char>>,
) -> bool {
    let m = trim(model);
    if m.len() == 0 {
        r == Err::<Seq<char>, Seq<char>>(no_model_message())
    } else {
        exists|c: Seq<Seq<char>>, found: Seq<bool>|
            {
                &&& model_candidates_outcome(m, dirs, c)
                &&& file_checks(is_file, c, found)
                &&& forall|i: int| 0 <= i < found.len() - 1 ==> !found[i]
                &&& match r {
                    Ok(p) => found.len() > 0 && found.last() && p == c[found.len() - 1],
                    Err(e) => found.len() == c.len() && (found.len() == 0 || !found.last()) && e
                        == not_found_message(c),
                }
            }
    }
}

pub open spec fn text_result(r: Result<String, String>) -> Result<Seq<char>, Seq<char>> {
    match r {
        Ok(p) => Ok(p@),
        Err(e) => Err(e@),
    }
}

fn searched_text(c: &Vec<String>) -> (r: String)
    ensures
        r@ == searched_lines(texts(c@)),
{
    let mut v: Vec<char> = Vec::new();
    let mut i: usize = 0;
    while i < c.len()
        invariant
            i <= c@.len(),
            v@ == searched_lines(texts(c@).subrange(0, i as int)),
        decreases c@.len() - i,
    {
        let ghost sub = texts(c@).subrange(0, i + 1);
        assert(sub.drop_last() =~= texts(c@).subrange(0, i as int));
        if i > 0 {
            push_str(&mut v, "\n");
        }
        push_str(&mut v, "  - ");
        push_str(&mut v, c[i].as_str());
        proof {
            if i == 0 {
                assert(v@ =~= "  - "@ + sub[0]);
            } else {
                assert(v@ =~= searched_lines(sub.drop_last()) + "\n"@ + "  - "@ + sub.last());
            }
        }
        i += 1;
    }
    assert(texts(c@).subrange(0, c@.len() as int) =~= texts(c@));
    string_of(v.as_slice())
}

/// Finds the model file a setting names: the first of the places it may be
/// in that `is_file` reports to be a file.
pub fn resolve_model_path<F: Fn(String) -> bool>(model: &str, dirs: &ModelDirs, is_file: &F) -> (r:
    Result<String, String>)
    requires
        forall|s: String| is_file.requires((s,)),
    ensures
        resolve_outcome(*is_file, model@, *dirs, text_result(r)),
{
    let m = crate::text::trim_str(model);
    let mv = chars_of(m.as_str());
    if mv.len() == 0 {
        return Err(owned("Local Whisper needs a whisper.cpp GGML .bin model path in Settings."));
    }
    let c = model_candidates(m.as_str(), dirs);
    let ghost cv = texts(c@);
    let ghost mut found: Seq<bool> = seq![];
    let mut i: usize = 0;
    while i < c.len()
        invariant
            i <= c@.len(),
            cv == texts(c@),
            model_candidates_outcome(trim(model@), *dirs, cv),
            trim(model@).len() > 0,
            forall|s: String| is_file.requires((s,)),
            found.len() == i,
            file_checks(*is_file, cv, found),
            forall|j: int| 0 <= j < found.len() ==> !found[j],
        decreases c@.len() - i,
    {
        let p = c[i].clone();
        let ghost pv = p;
        let hit = is_file(p);
        proof {
            found = found.push(hit);
            assert(pv@ == cv[i as int]);
            assert(exists|s: String| s@ == cv[i as int] && is_file.ensures((s,), found[i as int]));
        }
        if hit {
            let r = c[i].clone();
            assert(found.last());
            assert(forall|j: int| 0 <= j < found.len() - 1 ==> !found[j]);
            assert(r@ == cv[found.len() - 1]);
            assert(text_result(Ok::<String, String>(r)) == Ok::<Seq<char>, Seq<char>>(r@));
            assert({
                &&& model_candidates_outcome(trim(model@), *dirs, cv)
                &&& file_checks(*is_file, cv, found)
                &&& forall|j: int| 0 <= j < found.len() - 1 ==> !found[j]
                &&& found.len() > 0 && found.last() && r@ == cv[found.len() - 1]
            });
            return Ok(r);
        }
        i += 1;
    }
    let listed = searched_text(&c);
    let e = crate::text::concat2(
        "Local Whisper model not found. Set the Model path to an existing whisper.cpp GGML .bin file. Searched:\n",
        listed.as_str(),
    );
    assert(found.len() == 0 || !found.last());
    Err(e)
}

/// The refusal of a build without the native whisper.cpp engine.
pub open spec fn not_enabled_message() -> Seq<char> {
    "Local Whisper is not enabled in this build. Rebuild yap-core with the `local-whisper-native` Cargo feature and ensure cmake is installed."@
}

/// Transcribes an audio file with a local Whisper model. This build has no
/// native whisper.cpp engine: the model setting is still resolved (and its
/// error reported), and then transcription is refused.
pub fn transcribe<F: Fn(String) -> bool>(
    audio_path: &str,
    model: &str,
    language: Option<&str>,
    dirs: &ModelDirs,
    is_file: &F,
) -> (r: Result<String, String>)
    requires
        forall|s: String| is_file.requires((s,)),
    ensures
        r is Err,
        exists|resolved: Result<Seq<char>, Seq<char>>|
            resolve_outcome(*is_file, model@, *dirs, resolved) && match resolved {
                Ok(_) => r matches Err(e) && e@ == not_enabled_message(),
                Err(e) => r matches Err(m) && m@ == e,
            },
{
    let resolved = resolve_model_path(model, dirs, is_file);
    let ghost rv = text_result(resolved);
    match resolved {
        Err(e) => Err(e),
        Ok(_) => Err(
            owned(
                "Local Whisper is not enabled in this build. Rebuild yap-core with the `local-whisper-native` Cargo feature and ensure cmake is installed.",
            ),
        ),
    }
}

} // verus!
