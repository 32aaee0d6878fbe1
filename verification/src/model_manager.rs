//! The catalogue of local Whisper models: the curated list, search results
//! from Hugging Face, installed files, downloads and their validation.
use vstd::prelude::*;

use crate::text::{
    base_name, basename_outcome, char_to_uppercase, char_upper, chars_eq, chars_of, contains,
    contains_str, ends_with, ends_with_chars, has_char, has_char_in, is_sep, is_whitespace, is_ws,
    join_all, joined_all, lemma_joined_all_tail, ordinary_base, owned, plain_name, push_chars,
    push_str, starts_with, starts_with_chars, str_lower, string_of, to_lowercase, trim, trim_chars,
};

verus! {

/// The model Yap recommends.
pub const RECOMMENDED_WHISPER_MODEL_ID: &'static str = "large-v3-turbo-q5_0";

/// The Hugging Face repository of the official whisper.cpp models.
pub const WHISPER_CPP_REPO: &'static str = "ggerganov/whisper.cpp";

/// The largest model file Yap downloads.
pub const MAX_MODEL_BYTES: u64 = 4294967296;

/// Where a model in the catalogue comes from.
#[derive(Clone, Copy, PartialEq, Eq, Debug, Structural)]
pub enum WhisperModelSource {
    Curated,
    HuggingFace,
    Installed,
}

/// One model of the catalogue.
#[derive(Clone, Debug)]
pub struct WhisperModelSummary {
    pub id: String,
    pub name: String,
    pub file_name: String,
    pub source: WhisperModelSource,
    pub url: Option<String>,
    pub size_bytes: Option<u64>,
    pub size_label: Option<String>,
    pub speed_hint: Option<String>,
    pub accuracy_hint: Option<String>,
    pub installed: bool,
    pub path: Option<String>,
}

/// The contents of a [`WhisperModelSummary`].
pub struct SummaryView {
    pub id: Seq<char>,
    pub name: Seq<char>,
    pub file_name: Seq<char>,
    pub source: WhisperModelSource,
    pub url: Option<Seq<char>>,
    pub size_bytes: Option<u64>,
    pub size_label: Option<Seq<char>>,
    pub speed_hint: Option<Seq<char>>,
    pub accuracy_hint: Option<Seq<char>>,
    pub installed: bool,
    pub path: Option<Seq<char>>,
}

pub open spec fn opt_view(o: Option<String>) -> Option<Seq<char>> {
    match o {
        Some(s) => Some(s@),
        None => None,
    }
}

impl View for WhisperModelSummary {
    type V = SummaryView;

    open spec fn view(&self) -> SummaryView {
        SummaryView {
            id: self.id@,
            name: self.name@,
            file_name: self.file_name@,
            source: self.source,
            url: opt_view(self.url),
            size_bytes: self.size_bytes,
            size_label: opt_view(self.size_label),
            speed_hint: opt_view(self.speed_hint),
            accuracy_hint: opt_view(self.accuracy_hint),
            installed: self.installed,
            path: opt_view(self.path),
        }
    }
}

/// The catalogue as the settings window shows it.
#[derive(Clone, Debug)]
pub struct WhisperModelList {
    pub cache_dir: String,
    pub recommended_id: String,
    pub models: Vec<WhisperModelSummary>,
}

/// A search of Hugging Face for models.
#[derive(Clone, Debug)]
pub struct WhisperModelSearchRequest {
    pub query: String,
}

/// A request to download a model into the cache.
#[derive(Clone, Debug)]
pub struct WhisperDownloadRequest {
    pub id: String,
    pub url: String,
    pub file_name: String,
    pub expected_size: Option<u64>,
}

pub open spec fn digit_char(d: nat) -> char {
    if d == 0 {
        '0'
    } else if d == 1 {
        '1'
    } else if d == 2 {
        '2'
    } else if d == 3 {
        '3'
    } else if d == 4 {
        '4'
    } else if d == 5 {
        '5'
    } else if d == 6 {
        '6'
    } else if d == 7 {
        '7'
    } else if d == 8 {
        '8'
    } else {
        '9'
    }
}

/// The decimal digits of `n`.
pub open spec fn decimal(n: nat) -> Seq<char>
    decreases n,
{
    if n < 10 {
        seq![digit_char(n)]
    } else {
        decimal(n / 10).push(digit_char(n % 10))
    }
}

fn digit(d: u64) -> (c: char)
    requires
        d < 10,
    ensures
        c == digit_char(d as nat),
{
    if d == 0 {
        '0'
    } else if d == 1 {
        '1'
    } else if d == 2 {
        '2'
    } else if d == 3 {
        '3'
    } else if d == 4 {
        '4'
    } else if d == 5 {
        '5'
    } else if d == 6 {
        '6'
    } else if d == 7 {
        '7'
    } else if d == 8 {
        '8'
    } else {
        '9'
    }
}

/// Appends the decimal digits of `n`.
pub fn push_decimal(out: &mut Vec<char>, n: u64)
    ensures
        final(out)@ == old(out)@ + decimal(n as nat),
    decreases n,
{
    if n >= 10 {
        push_decimal(out, n / 10);
    }
    out.push(digit(n % 10));
    assert(out@ =~= old(out)@ + decimal(n as nat));
}

/// 2 to the 53rd: the precision of a 64-bit float.
pub open spec fn float_precision() -> nat {
    0x20_0000_0000_0000
}

/// The smallest power of two `p` (searching from `p`) such that `b / p` has
/// at most 53 bits: the unit in the last place of `b` as a 64-bit float.
pub open spec fn float_unit(b: nat, p: nat) -> nat
    decreases b + 1 - p,
{
    if p == 0 {
        1
    } else if b / p < float_precision() {
        p
    } else {
        proof {
            assert(b >= p * float_precision()) by (nonlinear_arith)
                requires
                    b / p >= float_precision(),
                    p > 0,
            ;
        }
        float_unit(b, 2 * p)
    }
}

/// `n / d` rounded to the nearest integer, ties to even.
pub open spec fn round_div(n: nat, d: nat) -> nat {
    let q = n / d;
    let r = n % d;
    if 2 * r > d || (2 * r == d && q % 2 == 1) {
        q + 1
    } else {
        q
    }
}

/// The value of `b as f64`: `b` rounded to 53 significant bits, ties to even.
pub open spec fn float_value(b: nat) -> nat {
    let p = float_unit(b, 1);
    round_div(b, p) * p
}

/// The size label of a file of `bytes` bytes: whole mebibytes below one
/// gibibyte, else gibibytes with one decimal, both rounded half to even.
pub open spec fn format_size_spec(bytes: nat) -> Seq<char> {
    let v = float_value(bytes);
    if v < 0x4000_0000 {
        decimal(round_div(v, 0x10_0000)) + " MB"@
    } else {
        let t = round_div(v * 10, 0x4000_0000);
        decimal(t / 10) + "."@ + decimal(t % 10) + " GB"@
    }
}

fn round_div_exec(n: u128, d: u128) -> (r: u128)
    requires
        d > 0,
        n / d < u128::MAX,
    ensures
        r == round_div(n as nat, d as nat),
{
    let q = n / d;
    let r = n % d;
    if (r > d - r) || (r == d - r && q % 2 == 1) {
        q + 1
    } else {
        q
    }
}

/// The size label of a file of `bytes` bytes, as the settings window shows it.
pub fn format_size(bytes: u64) -> (r: String)
    ensures
        r@ == format_size_spec(bytes as nat),
{
    let b = bytes as u128;
    let mut p: u128 = 1;
    while b / p >= 0x20_0000_0000_0000
        invariant
            1 <= p <= b + 1,
            b == bytes,
            float_unit(b as nat, p as nat) == float_unit(b as nat, 1),
        decreases b + 1 - p,
    {
        assert(b >= p * 0x20_0000_0000_0000) by (nonlinear_arith)
            requires
                b / p >= 0x20_0000_0000_0000,
                p > 0,
        ;
        p = p * 2;
    }
    assert(b / p <= b) by (nonlinear_arith)
        requires
            p >= 1,
    ;
    let q = round_div_exec(b, p);
    assert(q * p <= 2 * b + p) by (nonlinear_arith)
        requires
            q <= b / p + 1,
            p >= 1,
            b <= 0xffff_ffff_ffff_ffff,
    ;
    let v = q * p;
    let mut out: Vec<char> = Vec::new();
    if v < 0x4000_0000 {
        let m = round_div_exec(v, 0x10_0000);
        push_decimal(&mut out, m as u64);
        push_str(&mut out, " MB");
    } else {
        let t = round_div_exec(v * 10, 0x4000_0000);
        push_decimal(&mut out, (t / 10) as u64);
        push_str(&mut out, ".");
        push_decimal(&mut out, (t % 10) as u64);
        push_str(&mut out, " GB");
    }
    string_of(out.as_slice())
}


/// `s` with every space replaced by `%20`.
pub open spec fn encode_spaces(s: Seq<char>) -> Seq<char>
    decreases s.len(),
{
    if s.len() == 0 {
        seq![]
    } else {
        encode_spaces(s.drop_last()) + (if s.last() == ' ' {
            "%20"@
        } else {
            seq![s.last()]
        })
    }
}

/// The download URL of `file_name` on the main branch of the Hugging Face
/// repository `repo`.
pub open spec fn resolve_url_spec(repo: Seq<char>, file_name: Seq<char>) -> Seq<char> {
    "https://huggingface.co/"@ + repo + "/resolve/main/"@ + encode_spaces(file_name)
}

/// The download URL of `file_name` on the main branch of the Hugging Face
/// repository `repo`.
pub fn resolve_url(repo: &str, file_name: &str) -> (r: String)
    ensures
        r@ == resolve_url_spec(repo@, file_name@),
{
    let mut out: Vec<char> = Vec::new();
    push_str(&mut out, "https://huggingface.co/");
    push_str(&mut out, repo);
    push_str(&mut out, "/resolve/main/");
    let ghost prefix = out@;
    let f = chars_of(file_name);
    let mut i: usize = 0;
    while i < f.len()
        invariant
            i <= f@.len(),
            out@ == prefix + encode_spaces(f@.subrange(0, i as int)),
        decreases f@.len() - i,
    {
        assert(f@.subrange(0, i + 1).drop_last() =~= f@.subrange(0, i as int));
        if f[i] == ' ' {
            push_str(&mut out, "%20");
        } else {
            out.push(f[i]);
        }
        i += 1;
        assert(out@ =~= prefix + encode_spaces(f@.subrange(0, i as int)));
    }
    assert(f@.subrange(0, f@.len() as int) =~= f@);
    string_of(out.as_slice())
}

pub open spec fn opt_format_size(size: Option<u64>) -> Option<Seq<char>> {
    match size {
        Some(b) => Some(format_size_spec(b as nat)),
        None => None,
    }
}

/// The catalogue entry of a curated model of the whisper.cpp repository.
pub open spec fn curated_model_spec(
    id: Seq<char>,
    name: Seq<char>,
    file_name: Seq<char>,
    remote_file_name: Seq<char>,
    size_bytes: Option<u64>,
    speed_hint: Seq<char>,
    accuracy_hint: Seq<char>,
) -> SummaryView {
    SummaryView {
        id,
        name,
        file_name,
        source: WhisperModelSource::Curated,
        url: Some(resolve_url_spec("ggerganov/whisper.cpp"@, remote_file_name)),
        size_bytes,
        size_label: opt_format_size(size_bytes),
        speed_hint: Some(speed_hint),
        accuracy_hint: Some(accuracy_hint),
        installed: false,
        path: None,
    }
}

fn size_label_of(size: Option<u64>) -> (r: Option<String>)
    ensures
        opt_view(r) == opt_format_size(size),
{
    match size {
        Some(b) => Some(format_size(b)),
        None => None,
    }
}

/// The catalogue entry of a curated model of the whisper.cpp repository.
pub fn curated_model(
    id: &str,
    name: &str,
    file_name: &str,
    remote_file_name: &str,
    size_bytes: Option<u64>,
    speed_hint: &str,
    accuracy_hint: &str,
) -> (r: WhisperModelSummary)
    ensures
        r@ == curated_model_spec(
            id@,
            name@,
            file_name@,
            remote_file_name@,
            size_bytes,
            speed_hint@,
            accuracy_hint@,
        ),
{
    proof {
        reveal_strlit("ggerganov/whisper.cpp");
    }
    WhisperModelSummary {
        id: owned(id),
        name: owned(name),
        file_name: owned(file_name),
        source: WhisperModelSource::Curated,
        url: Some(resolve_url(WHISPER_CPP_REPO, remote_file_name)),
        size_bytes,
        size_label: size_label_of(size_bytes),
        speed_hint: Some(owned(speed_hint)),
        accuracy_hint: Some(owned(accuracy_hint)),
        installed: false,
        path: None,
    }
}

/// The curated models, recommended one first.
pub open spec fn curated_models_spec() -> Seq<SummaryView> {
    seq![
        curated_model_spec(
            "large-v3-turbo-q5_0"@,
            "Large v3 Turbo Q5"@,
            "large-v3-turbo-q5_0.bin"@,
            "ggml-large-v3-turbo-q5_0.bin"@,
            Some(574041195),
            "Balanced"@,
            "Recommended"@,
        ),
        curated_model_spec(
            "base.en"@,
            "Base English"@,
            "base.en.bin"@,
            "ggml-base.en.bin"@,
            Some(147964211),
            "Fastest"@,
            "Basic English"@,
        ),
        curated_model_spec(
            "small.en"@,
            "Small English"@,
            "small.en.bin"@,
            "ggml-small.en.bin"@,
            Some(487614201),
            "Fast"@,
            "Good English"@,
        ),
        curated_model_spec(
            "medium.en"@,
            "Medium English"@,
            "medium.en.bin"@,
            "ggml-medium.en.bin"@,
            Some(1533774781),
            "Slower"@,
            "Better English"@,
        ),
    ]
}

pub open spec fn views(v: Seq<WhisperModelSummary>) -> Seq<SummaryView> {
    v.map_values(|m: WhisperModelSummary| m@)
}

/// The curated models, recommended one first.
pub fn curated_models() -> (r: Vec<WhisperModelSummary>)
    ensures
        views(r@) == curated_models_spec(),
{
    let mut r: Vec<WhisperModelSummary> = Vec::new();
    r.push(
        curated_model(
            "large-v3-turbo-q5_0",
            "Large v3 Turbo Q5",
            "large-v3-turbo-q5_0.bin",
            "ggml-large-v3-turbo-q5_0.bin",
            Some(574041195),
            "Balanced",
            "Recommended",
        ),
    );
    r.push(
        curated_model(
            "base.en",
            "Base English",
            "base.en.bin",
            "ggml-base.en.bin",
            Some(147964211),
            "Fastest",
            "Basic English",
        ),
    );
    r.push(
        curated_model(
            "small.en",
            "Small English",
            "small.en.bin",
            "ggml-small.en.bin",
            Some(487614201),
            "Fast",
            "Good English",
        ),
    );
    r.push(
        curated_model(
            "medium.en",
            "Medium English",
            "medium.en.bin",
            "ggml-medium.en.bin",
            Some(1533774781),
            "Slower",
            "Better English",
        ),
    );
    assert(views(r@) =~= curated_models_spec());
    r
}

/// Whether a trimmed file name is one the cache may hold: a plain `.bin`
/// name without path separators.
pub open spec fn is_safe_model_file_name(t: Seq<char>) -> bool {
    &&& t.len() > 0
    &&& !has_char(t, '/')
    &&& !has_char(t, '\\')
    &&& t != "."@
    &&& t != ".."@
    &&& ends_with(t, ".bin"@)
}

/// Checks a model file name given by the user: trimmed, it must be a plain
/// `.bin` name without path separators.
pub fn safe_model_file_name(file_name: &str) -> (r: Result<String, String>)
    ensures
        r is Ok <==> is_safe_model_file_name(trim(file_name@)),
        r matches Ok(n) ==> n@ == trim(file_name@),
        r matches Err(e) ==> e@ == "invalid Whisper model file name"@,
{
    let v = chars_of(file_name);
    let t = trim_chars(v.as_slice());
    let dot = chars_of(".");
    let dotdot = chars_of("..");
    let bin = chars_of(".bin");
    if t.len() == 0 || has_char_in(t.as_slice(), '/') || has_char_in(t.as_slice(), '\\')
        || chars_eq(t.as_slice(), dot.as_slice()) || chars_eq(t.as_slice(), dotdot.as_slice())
        || !ends_with_chars(t.as_slice(), bin.as_slice()) {
        return Err(owned("invalid Whisper model file name"));
    }
    Ok(string_of(t.as_slice()))
}

/// Whether a lower-cased remote file name with base name `base` is a
/// whisper.cpp GGML model: a `.bin` file, not an encoder, named after one of
/// the Whisper model families.
pub open spec fn compatible_spec(lower: Seq<char>, base: Seq<char>) -> bool {
    &&& ends_with(lower, ".bin"@)
    &&& !contains(lower, "encoder"@)
    &&& {
        ||| starts_with(base, "ggml-tiny"@)
        ||| starts_with(base, "ggml-base"@)
        ||| starts_with(base, "ggml-small"@)
        ||| starts_with(base, "ggml-medium"@)
        ||| starts_with(base, "ggml-large"@)
        ||| starts_with(base, "ggml-distil"@)
    }
}

fn starts_with_str(h: &[char], p: &str) -> (r: bool)
    ensures
        r == starts_with(h@, p@),
{
    let pv = chars_of(p);
    starts_with_chars(h, pv.as_slice())
}

/// Whether a remote file is a whisper.cpp GGML model that Yap can run.
pub fn is_compatible_whisper_ggml_bin(file_name: &str) -> (r: bool)
    ensures
        exists|b: Seq<char>|
            basename_outcome(str_lower(file_name@), b) && r == compatible_spec(
                str_lower(file_name@),
                b,
            ),
{
    let lower = to_lowercase(file_name);
    let base = base_name(lower.as_str());
    let lv = chars_of(lower.as_str());
    let bv = chars_of(base.as_str());
    let bin = chars_of(".bin");
    let b = bv.as_slice();
    let r = ends_with_chars(lv.as_slice(), bin.as_slice()) && !contains_str(
        lv.as_slice(),
        "encoder",
    ) && (starts_with_str(b, "ggml-tiny") || starts_with_str(b, "ggml-base") || starts_with_str(
        b,
        "ggml-small",
    ) || starts_with_str(b, "ggml-medium") || starts_with_str(b, "ggml-large") || starts_with_str(
        b,
        "ggml-distil",
    ));
    assert(basename_outcome(str_lower(file_name@), base@));
    r
}

/// `s` with every trailing `.bin` removed.
pub open spec fn trim_bin_suffix(s: Seq<char>) -> Seq<char>
    decreases s.len(),
{
    if s.len() >= 4 && ends_with(s, ".bin"@) {
        trim_bin_suffix(s.subrange(0, s.len() - 4))
    } else {
        s
    }
}

/// The local model identifier of a remote file with base name `base`: the
/// name without `.bin` suffixes and without a leading `ggml-`.
pub open spec fn model_id_spec(base: Seq<char>) -> Seq<char> {
    let name = trim_bin_suffix(base);
    if starts_with(name, "ggml-"@) {
        name.subrange(5, name.len() as int)
    } else {
        name
    }
}

/// Removes every trailing `.bin` from `v`.
fn trim_bin_chars(v: &[char]) -> (r: Vec<char>)
    ensures
        r@ == trim_bin_suffix(v@),
{
    let bin = chars_of(".bin");
    proof {
        reveal_strlit(".bin");
    }
    assert(bin@.len() == 4);
    let mut end = v.len();
    assert(v@.subrange(0, end as int) =~= v@);
    while end >= 4 && occurs_bin(v, end, bin.as_slice())
        invariant
            end <= v@.len(),
            bin@ == ".bin"@,
            bin@.len() == 4,
            trim_bin_suffix(v@) == trim_bin_suffix(v@.subrange(0, end as int)),
        decreases end,
    {
        let ghost s = v@.subrange(0, end as int);
        assert(s.subrange(0, s.len() - 4) =~= v@.subrange(0, end - 4));
        end -= 4;
    }
    crate::text::slice_chars(v, 0, end)
}

fn occurs_bin(v: &[char], end: usize, bin: &[char]) -> (r: bool)
    requires
        4 <= end <= v@.len(),
        bin@.len() == 4,
    ensures
        r == ends_with(v@.subrange(0, end as int), bin@),
{
    let r = crate::text::occurs_at(v, bin, end - 4);
    assert(v@.subrange(0, end as int).subrange(end - 4, end as int) =~= v@.subrange(
        end - 4,
        end as int,
    ));
    r
}

fn model_id_chars(base: &[char]) -> (r: Vec<char>)
    ensures
        r@ == model_id_spec(base@),
{
    let name = trim_bin_chars(base);
    if starts_with_str(name.as_slice(), "ggml-") {
        proof {
            reveal_strlit("ggml-");
        }
        crate::text::slice_chars(name.as_slice(), 5, name.len())
    } else {
        name
    }
}

/// The local model identifier of a remote model file: its base name
/// without `.bin` suffixes and without the leading `ggml-`.
pub fn model_id_from_remote_file(file_name: &str) -> (r: String)
    ensures
        exists|b: Seq<char>| basename_outcome(file_name@, b) && r@ == model_id_spec(b),
{
    let base = base_name(file_name);
    let bv = chars_of(base.as_str());
    let id = model_id_chars(bv.as_slice());
    assert(basename_outcome(file_name@, base@));
    string_of(id.as_slice())
}


/// `s` with dots and dashes turned into spaces.
pub open spec fn spaced(s: Seq<char>) -> Seq<char> {
    s.map_values(|c: char| if c == '.' || c == '-' { ' ' } else { c })
}

/// The words completed so far and the word in progress, reading `s` from
/// the left and splitting at white space.
pub open spec fn split_words_acc(s: Seq<char>) -> (Seq<Seq<char>>, Seq<char>)
    decreases s.len(),
{
    if s.len() == 0 {
        (seq![], seq![])
    } else {
        let acc = split_words_acc(s.drop_last());
        if is_ws(s.last()) {
            if acc.1.len() > 0 {
                (acc.0.push(acc.1), seq![])
            } else {
                (acc.0, seq![])
            }
        } else {
            (acc.0, acc.1.push(s.last()))
        }
    }
}

/// The words of `s` as `str::split_whitespace` yields them.
pub open spec fn words(s: Seq<char>) -> Seq<Seq<char>> {
    let acc = split_words_acc(s);
    if acc.1.len() > 0 {
        acc.0.push(acc.1)
    } else {
        acc.0
    }
}

/// `w` with its first character upper-cased.
pub open spec fn capitalize(w: Seq<char>) -> Seq<char> {
    if w.len() == 0 {
        seq![]
    } else {
        char_upper(w[0]) + w.drop_first()
    }
}

/// The words joined with single spaces.
pub open spec fn join_spaced(ws: Seq<Seq<char>>) -> Seq<char>
    decreases ws.len(),
{
    if ws.len() == 0 {
        seq![]
    } else if ws.len() == 1 {
        ws[0]
    } else {
        join_spaced(ws.drop_last()) + " "@ + ws.last()
    }
}

/// The display name of a model with identifier `id`: its words, split at
/// dots, dashes and white space, capitalized and joined with spaces.
pub open spec fn model_name_spec(id: Seq<char>) -> Seq<char> {
    join_spaced(words(spaced(id)).map_values(|w: Seq<char>| capitalize(w)))
}

proof fn lemma_join_push(d: Seq<Seq<char>>, w: Seq<char>)
    ensures
        join_spaced(d.push(w).map_values(|x: Seq<char>| capitalize(x))) == (if d.len() == 0 {
            capitalize(w)
        } else {
            join_spaced(d.map_values(|x: Seq<char>| capitalize(x))) + " "@ + capitalize(w)
        }),
{
    let m = d.push(w).map_values(|x: Seq<char>| capitalize(x));
    assert(m.drop_last() =~= d.map_values(|x: Seq<char>| capitalize(x)));
}

fn append_word(out: &mut Vec<char>, need_space: bool, w: &[char])
    requires
        w@.len() > 0,
    ensures
        final(out)@ == old(out)@ + (if need_space {
            " "@
        } else {
            seq![]
        }) + capitalize(w@),
{
    if need_space {
        push_str(out, " ");
    }
    let up = char_to_uppercase(w[0]);
    push_chars(out, up.as_slice());
    let rest = crate::text::slice_chars(w, 1, w.len());
    push_chars(out, rest.as_slice());
    assert(rest@ =~= w@.drop_first());
    assert(final(out)@ =~= old(out)@ + (if need_space {
        " "@
    } else {
        seq![]
    }) + capitalize(w@));
}

fn model_name_chars(id: &[char]) -> (r: Vec<char>)
    ensures
        r@ == model_name_spec(id@),
{
    let ghost sp = spaced(id@);
    let mut out: Vec<char> = Vec::new();
    let mut cur: Vec<char> = Vec::new();
    let ghost mut done: Seq<Seq<char>> = seq![];
    let mut any_word = false;
    let mut i: usize = 0;
    while i < id.len()
        invariant
            i <= id@.len(),
            sp == spaced(id@),
            (done, cur@) == split_words_acc(sp.subrange(0, i as int)),
            any_word == (done.len() > 0),
            out@ == join_spaced(done.map_values(|x: Seq<char>| capitalize(x))),
        decreases id@.len() - i,
    {
        let c0 = id[i];
        let c = if c0 == '.' || c0 == '-' {
            ' '
        } else {
            c0
        };
        proof {
            assert(sp.subrange(0, i + 1).drop_last() =~= sp.subrange(0, i as int));
            assert(sp.subrange(0, i + 1).last() == c);
        }
        if is_whitespace(c) {
            if cur.len() > 0 {
                append_word(&mut out, any_word, cur.as_slice());
                proof {
                    lemma_join_push(done, cur@);
                    done = done.push(cur@);
                }
                any_word = true;
                cur = Vec::new();
            }
        } else {
            cur.push(c);
        }
        i += 1;
    }
    assert(sp.subrange(0, id@.len() as int) =~= sp);
    if cur.len() > 0 {
        append_word(&mut out, any_word, cur.as_slice());
        proof {
            lemma_join_push(done, cur@);
        }
    }
    out
}

/// The display name of a model file: the words of its identifier,
/// capitalized.
pub fn model_name_from_file(file_name: &str) -> (r: String)
    ensures
        exists|b: Seq<char>|
            basename_outcome(file_name@, b) && r@ == model_name_spec(model_id_spec(b)),
{
    let base = base_name(file_name);
    let bv = chars_of(base.as_str());
    let id = model_id_chars(bv.as_slice());
    let name = model_name_chars(id.as_slice());
    assert(basename_outcome(file_name@, base@));
    string_of(name.as_slice())
}


/// The parts of a URL that the download check reads: scheme, host name and
/// path segments (none for a URL that cannot be a base).
pub struct UrlParts {
    pub scheme: String,
    pub host: Option<String>,
    pub segments: Option<Vec<String>>,
}

pub type UrlPartsView = (Seq<char>, Option<Seq<char>>, Option<Seq<Seq<char>>>);

pub open spec fn strings_view(v: Seq<String>) -> Seq<Seq<char>> {
    v.map_values(|s: String| s@)
}

impl View for UrlParts {
    type V = UrlPartsView;

    open spec fn view(&self) -> UrlPartsView {
        (
            self.scheme@,
            opt_view(self.host),
            match self.segments {
                Some(v) => Some(strings_view(v@)),
                None => None,
            },
        )
    }
}

pub open spec fn parts_result_view(r: Result<UrlParts, String>) -> Result<UrlPartsView, Seq<char>> {
    match r {
        Ok(p) => Ok(p@),
        Err(e) => Err(e@),
    }
}

/// What `Url::parse` (of the `url` crate, re-exported by reqwest) gives for
/// `raw`, taken apart into scheme, host and path segments, or the text of
/// its parse error.
pub uninterp spec fn parsed_url(raw: Seq<char>) -> Result<UrlPartsView, Seq<char>>;

/// `reqwest::Url::parse`: parses `raw` as a URL and hands out its scheme,
/// host and path segments, or the text of the parse error. The result is a
/// function of `raw` alone.
#[verifier::external_body]
fn parse_url(raw: &str) -> (r: Result<UrlParts, String>)
    ensures
        parsed_url(raw@) == parts_result_view(r),
{
    match reqwest::Url::parse(raw) {
        Ok(url) => Ok(
            UrlParts {
                scheme: url.scheme().to_string(),
                host: url.host_str().map(|h| h.to_string()),
                segments: url.path_segments().map(|s| s.map(|x| x.to_string()).collect()),
            },
        ),
        Err(e) => Err(e.to_string()),
    }
}

/// The segments joined with `sep`.
pub open spec fn join_with(ws: Seq<Seq<char>>, sep: Seq<char>) -> Seq<char>
    decreases ws.len(),
{
    if ws.len() == 0 {
        seq![]
    } else if ws.len() == 1 {
        ws[0]
    } else {
        join_with(ws.drop_last(), sep) + sep + ws.last()
    }
}

/// A path segment that a download URL may not contain.
pub open spec fn segment_invalid(s: Seq<char>) -> bool {
    s.len() == 0 || s == "."@ || s == ".."@ || has_char(s, '\\')
}

/// The position of the first segment `resolve`.
pub open spec fn resolve_position(segs: Seq<Seq<char>>) -> Option<int>
    decreases segs.len(),
{
    if segs.len() == 0 {
        None
    } else {
        match resolve_position(segs.drop_last()) {
            Some(i) => Some(i),
            None => if segs.last() == "resolve"@ {
                Some(segs.len() - 1)
            } else {
                None
            },
        }
    }
}

/// The path of the model file that a well-shaped download URL names: the
/// segments after `resolve/main`, joined with `/`.
pub open spec fn url_remote_file(p: UrlPartsView) -> Option<Seq<char>> {
    match p.2 {
        Some(segs) => match resolve_position(segs) {
            Some(ri) => if ri + 2 < segs.len() {
                Some(join_with(segs.subrange(ri + 2, segs.len() as int), "/"@))
            } else {
                None
            },
            None => None,
        },
        None => None,
    }
}

/// The outcome of checking a parsed download URL for the file `file_name`,
/// where `b1` is the base name of the lower-cased remote file and `b2` that
/// of the remote file.
pub open spec fn download_url_check(
    parsed: Result<UrlPartsView, Seq<char>>,
    file_name: Seq<char>,
    b1: Seq<char>,
    b2: Seq<char>,
) -> Result<(), Seq<char>> {
    match parsed {
        Err(e) => Err("invalid model download URL: "@ + e),
        Ok(p) => if p.0 != "https"@ || p.1 != Some("huggingface.co"@) {
            Err("model downloads must use a Hugging Face HTTPS URL"@)
        } else {
            match p.2 {
                None => Err("model download URL has no path"@),
                Some(segs) => if exists|i: int| 0 <= i < segs.len() && segment_invalid(#[trigger] segs[i]) {
                    Err("model download URL contains an invalid path"@)
                } else {
                    match resolve_position(segs) {
                        None => Err("model download URL must be a Hugging Face resolve URL"@),
                        Some(ri) => if ri < 2 || !(ri + 1 < segs.len() && segs[ri + 1] == "main"@) {
                            Err("model download URL must resolve from the main branch"@)
                        } else if ri + 2 >= segs.len() {
                            Err("model download URL is missing a model file"@)
                        } else {
                            let remote = url_remote_file(p).unwrap();
                            if !compatible_spec(str_lower(remote), b1) {
                                Err(
                                    "model download URL does not point to a compatible Whisper GGML .bin file"@,
                                )
                            } else if model_id_spec(b2) + ".bin"@ != file_name {
                                Err("model download URL does not match the requested model file"@)
                            } else {
                                Ok(())
                            }
                        },
                    }
                },
            }
        },
    }
}

/// Whether a parsed URL passes the checks that precede the check of its file.
pub open spec fn url_shape_ok(p: UrlPartsView) -> bool {
    &&& p.0 == "https"@
    &&& p.1 == Some("huggingface.co"@)
    &&& p.2 is Some
    &&& forall|i: int| 0 <= i < p.2->0.len() ==> !segment_invalid(#[trigger] p.2->0[i])
    &&& resolve_position(p.2->0) is Some
    &&& resolve_position(p.2->0)->0 >= 2
    &&& resolve_position(p.2->0)->0 + 2 < p.2->0.len()
    &&& p.2->0[resolve_position(p.2->0)->0 + 1] == "main"@
}

/// The base names that the check may see for the remote file of `parsed`.
pub open spec fn download_url_bases(
    parsed: Result<UrlPartsView, Seq<char>>,
    b1: Seq<char>,
    b2: Seq<char>,
) -> bool {
    match parsed {
        Ok(p) => url_shape_ok(p) ==> basename_outcome(str_lower(url_remote_file(p)->0), b1)
            && basename_outcome(url_remote_file(p)->0, b2),
        Err(_) => true,
    }
}

fn str_eq_lit(s: &String, lit: &str) -> (r: bool)
    ensures
        r == (s@ == lit@),
{
    crate::text::str_eq(s.as_str(), lit)
}

fn join_slash(segs: &Vec<String>, from: usize) -> (r: String)
    requires
        from <= segs@.len(),
    ensures
        r@ == join_with(strings_view(segs@).subrange(from as int, segs@.len() as int), "/"@),
{
    let mut out: Vec<char> = Vec::new();
    let mut i = from;
    while i < segs.len()
        invariant
            from <= i <= segs@.len(),
            out@ == join_with(strings_view(segs@).subrange(from as int, i as int), "/"@),
        decreases segs@.len() - i,
    {
        let ghost ws = strings_view(segs@).subrange(from as int, i + 1);
        assert(ws.drop_last() =~= strings_view(segs@).subrange(from as int, i as int));
        if i > from {
            push_str(&mut out, "/");
        }
        push_str(&mut out, segs[i].as_str());
        i += 1;
    }
    string_of(out.as_slice())
}

/// Checks that a download URL points to a compatible model file on the main
/// branch of a Hugging Face repository and names `file_name`; on success the
/// URL is handed back.
pub fn validate_download_url(raw_url: &str, file_name: &str) -> (r: Result<String, String>)
    ensures
        exists|b1: Seq<char>, b2: Seq<char>|
            download_url_bases(parsed_url(raw_url@), b1, b2) && match r {
                Ok(u) => u@ == raw_url@ && download_url_check(
                    parsed_url(raw_url@),
                    file_name@,
                    b1,
                    b2,
                ) is Ok,
                Err(e) => download_url_check(parsed_url(raw_url@), file_name@, b1, b2) == Err::<
                    (),
                    Seq<char>,
                >(e@),
            },
{
    let ghost parsed = parsed_url(raw_url@);
    let parts = match parse_url(raw_url) {
        Ok(p) => p,
        Err(e) => {
            let m = crate::text::concat2("invalid model download URL: ", e.as_str());
            assert(download_url_bases(parsed, seq![], seq![]));
            return Err(m);
        },
    };
    if !str_eq_lit(&parts.scheme, "https") || match &parts.host {
        Some(h) => !str_eq_lit(h, "huggingface.co"),
        None => true,
    } {
        let m = owned("model downloads must use a Hugging Face HTTPS URL");
        assert(download_url_bases(parsed, seq![], seq![]));
        return Err(m);
    }
    let segs = match parts.segments {
        Some(v) => v,
        None => {
            assert(download_url_bases(parsed, seq![], seq![]));
            return Err(owned("model download URL has no path"));
        },
    };
    let ghost sv = strings_view(segs@);
    assert(parsed == Ok::<UrlPartsView, Seq<char>>((parts.scheme@, opt_view(parts.host), Some(sv))));
    let ghost pv = parsed->Ok_0;
    let mut i: usize = 0;
    while i < segs.len()
        invariant
            i <= segs@.len(),
            sv == strings_view(segs@),
            parsed == Ok::<UrlPartsView, Seq<char>>(pv),
            parsed == parsed_url(raw_url@),
            pv.2 == Some(sv),
            pv.0 == "https"@,
            pv.1 == Some("huggingface.co"@),
            forall|j: int| 0 <= j < i ==> !segment_invalid(#[trigger] sv[j]),
        decreases segs@.len() - i,
    {
        let sc = chars_of(segs[i].as_str());
        let dot = chars_of(".");
        let dotdot = chars_of("..");
        if sc.len() == 0 || chars_eq(sc.as_slice(), dot.as_slice()) || chars_eq(
            sc.as_slice(),
            dotdot.as_slice(),
        ) || has_char_in(sc.as_slice(), '\\') {
            assert(segment_invalid(sv[i as int]));
            assert(!url_shape_ok(pv));
            assert(download_url_bases(parsed, seq![], seq![]));
            assert(exists|k: int| 0 <= k < sv.len() && segment_invalid(#[trigger] sv[k]));
            assert(download_url_check(parsed, file_name@, seq![], seq![]) == Err::<(), Seq<char>>(
                "model download URL contains an invalid path"@,
            ));
            return Err(owned("model download URL contains an invalid path"));
        }
        i += 1;
    }
    let mut ri: usize = 0;
    while ri < segs.len() && !str_eq_lit(&segs[ri], "resolve")
        invariant
            ri <= segs@.len(),
            sv == strings_view(segs@),
            forall|j: int| 0 <= j < ri ==> sv[j] != "resolve"@,
        decreases segs@.len() - ri,
    {
        ri += 1;
    }
    proof {
        lemma_resolve_position(sv, ri as int);
    }
    if ri == segs.len() {
        assert(download_url_bases(parsed, seq![], seq![]));
        return Err(owned("model download URL must be a Hugging Face resolve URL"));
    }
    if ri < 2 || !(ri + 1 < segs.len() && str_eq_lit(&segs[ri + 1], "main")) {
        assert(download_url_bases(parsed, seq![], seq![]));
        return Err(owned("model download URL must resolve from the main branch"));
    }
    if ri + 2 >= segs.len() {
        assert(download_url_bases(parsed, seq![], seq![]));
        return Err(owned("model download URL is missing a model file"));
    }
    let remote = join_slash(&segs, ri + 2);
    assert(url_remote_file(parsed->Ok_0) == Some(remote@));
    let compatible = is_compatible_whisper_ggml_bin(remote.as_str());
    let ghost b1 = choose|b: Seq<char>|
        basename_outcome(str_lower(remote@), b) && compatible == compatible_spec(
            str_lower(remote@),
            b,
        );
    let id = model_id_from_remote_file(remote.as_str());
    let ghost b2 = choose|b: Seq<char>| basename_outcome(remote@, b) && id@ == model_id_spec(b);
    assert(download_url_bases(parsed, b1, b2));
    if !compatible {
        return Err(
            owned("model download URL does not point to a compatible Whisper GGML .bin file"),
        );
    }
    let expected = crate::text::concat2(id.as_str(), ".bin");
    if !crate::text::str_eq(expected.as_str(), file_name) {
        return Err(owned("model download URL does not match the requested model file"));
    }
    Ok(owned(raw_url))
}

proof fn lemma_resolve_position(segs: Seq<Seq<char>>, ri: int)
    requires
        0 <= ri <= segs.len(),
        forall|j: int| 0 <= j < ri ==> segs[j] != "resolve"@,
        ri < segs.len() ==> segs[ri] == "resolve"@,
    ensures
        resolve_position(segs) == (if ri == segs.len() {
            None
        } else {
            Some(ri)
        }),
    decreases segs.len(),
{
    if segs.len() > 0 {
        if ri == segs.len() {
            lemma_resolve_position(segs.drop_last(), ri - 1);
        } else if ri < segs.len() - 1 {
            lemma_resolve_position(segs.drop_last(), ri);
        } else {
            lemma_resolve_position(segs.drop_last(), ri);
        }
    }
}


/// `a` sorts before or together with `b`: lexicographic order of the
/// characters (which is the byte order of their UTF-8 encodings, the order
/// of `String`).
pub open spec fn lex_le(a: Seq<char>, b: Seq<char>) -> bool
    decreases a.len(),
{
    if a.len() == 0 {
        true
    } else if b.len() == 0 {
        false
    } else if a[0] != b[0] {
        a[0] < b[0]
    } else {
        lex_le(a.drop_first(), b.drop_first())
    }
}

proof fn lemma_lex_total(a: Seq<char>, b: Seq<char>)
    ensures
        lex_le(a, b) || lex_le(b, a),
        lex_le(a, b) && lex_le(b, a) ==> a == b,
    decreases a.len(),
{
    if a.len() > 0 && b.len() > 0 && a[0] == b[0] {
        lemma_lex_total(a.drop_first(), b.drop_first());
        if lex_le(a, b) && lex_le(b, a) {
            assert(a =~= seq![a[0]] + a.drop_first());
            assert(b =~= seq![b[0]] + b.drop_first());
        }
    }
    if a.len() == 0 && b.len() == 0 {
        assert(a =~= b);
    }
}

proof fn lemma_lex_trans(a: Seq<char>, b: Seq<char>, c: Seq<char>)
    requires
        lex_le(a, b),
        lex_le(b, c),
    ensures
        lex_le(a, c),
    decreases a.len(),
{
    if a.len() > 0 && b.len() > 0 && c.len() > 0 && a[0] == b[0] && b[0] == c[0] {
        lemma_lex_trans(a.drop_first(), b.drop_first(), c.drop_first());
    }
}

/// Whether the models are in order of their names.
pub open spec fn sorted_by_name(s: Seq<SummaryView>) -> bool {
    forall|i: int, j: int| 0 <= i < j < s.len() ==> lex_le(s[i].name, s[j].name)
}

/// The models of `s` whose name is `n`, in their order.
pub open spec fn with_name(s: Seq<SummaryView>, n: Seq<char>) -> Seq<SummaryView> {
    s.filter(|m: SummaryView| m.name == n)
}

/// `r` is `s` sorted by name, models with equal names keeping their order
/// (what the stable `sort_by` on names gives).
pub open spec fn stably_sorted_by_name(s: Seq<SummaryView>, r: Seq<SummaryView>) -> bool {
    &&& sorted_by_name(r)
    &&& forall|n: Seq<char>| #[trigger] with_name(r, n) == with_name(s, n)
}

fn name_le(a: &String, b: &String) -> (r: bool)
    ensures
        r == lex_le(a@, b@),
{
    let av = chars_of(a.as_str());
    let bv = chars_of(b.as_str());
    let mut i: usize = 0;
    proof {
        assert(av@.subrange(0, av@.len() as int) =~= av@);
        assert(bv@.subrange(0, bv@.len() as int) =~= bv@);
    }
    while i < av.len() && i < bv.len() && av[i] == bv[i]
        invariant
            i <= av@.len(),
            i <= bv@.len(),
            lex_le(av@, bv@) == lex_le(av@.subrange(i as int, av@.len() as int), bv@.subrange(
                i as int,
                bv@.len() as int,
            )),
        decreases av@.len() - i,
    {
        let ghost x = av@.subrange(i as int, av@.len() as int);
        let ghost y = bv@.subrange(i as int, bv@.len() as int);
        assert(x.drop_first() =~= av@.subrange(i + 1, av@.len() as int));
        assert(y.drop_first() =~= bv@.subrange(i + 1, bv@.len() as int));
        i += 1;
    }
    proof {
        assert(av@.subrange(0, av@.len() as int) =~= av@);
        assert(bv@.subrange(0, bv@.len() as int) =~= bv@);
    }
    if i == av.len() {
        true
    } else if i == bv.len() {
        false
    } else {
        av[i] < bv[i]
    }
}

proof fn lemma_filter_insert(s: Seq<SummaryView>, p: int, x: SummaryView, n: Seq<char>)
    requires
        0 <= p <= s.len(),
    ensures
        with_name(s.insert(p, x), n) == with_name(s.subrange(0, p), n) + with_name(seq![x], n)
            + with_name(s.subrange(p, s.len() as int), n),
        with_name(s, n) == with_name(s.subrange(0, p), n) + with_name(
            s.subrange(p, s.len() as int),
            n,
        ),
{
    let f = |m: SummaryView| m.name == n;
    assert(s.insert(p, x) =~= s.subrange(0, p) + seq![x] + s.subrange(p, s.len() as int));
    assert(s =~= s.subrange(0, p) + s.subrange(p, s.len() as int));
    Seq::filter_distributes_over_add(s.subrange(0, p) + seq![x], s.subrange(p, s.len() as int), f);
    Seq::filter_distributes_over_add(s.subrange(0, p), seq![x], f);
    Seq::filter_distributes_over_add(s.subrange(0, p), s.subrange(p, s.len() as int), f);
}

proof fn lemma_filter_none(s: Seq<SummaryView>, n: Seq<char>)
    requires
        forall|i: int| 0 <= i < s.len() ==> s[i].name != n,
    ensures
        with_name(s, n) == Seq::<SummaryView>::empty(),
    decreases s.len(),
{
    reveal_with_fuel(Seq::filter, 1);
    if s.len() > 0 {
        lemma_filter_none(s.drop_last(), n);
    }
    assert(with_name(s, n) =~= Seq::<SummaryView>::empty());
}

proof fn lemma_lex_refl(a: Seq<char>)
    ensures
        lex_le(a, a),
    decreases a.len(),
{
    if a.len() > 0 {
        lemma_lex_refl(a.drop_first());
    }
}

proof fn lemma_insert_keeps_sorted(old_r: Seq<SummaryView>, p: int, x: SummaryView)
    requires
        0 <= p <= old_r.len(),
        sorted_by_name(old_r),
        p > 0 ==> lex_le(old_r[p - 1].name, x.name),
        forall|j: int| p <= j < old_r.len() ==> !lex_le(#[trigger] old_r[j].name, x.name),
    ensures
        sorted_by_name(old_r.insert(p, x)),
        forall|nm: Seq<char>|
            #[trigger] with_name(old_r.insert(p, x), nm) == with_name(old_r, nm) + with_name(
                seq![x],
                nm,
            ),
{
    let r = old_r.insert(p, x);
    assert forall|j: int| 0 <= j < p implies lex_le(old_r[j].name, x.name) by {
        if j < p - 1 {
            lemma_lex_trans(old_r[j].name, old_r[p - 1].name, x.name);
        }
    }
    assert forall|j: int| p <= j < old_r.len() implies lex_le(x.name, old_r[j].name) by {
        lemma_lex_total(x.name, old_r[j].name);
    }
    assert forall|i: int, j: int| 0 <= i < j < r.len() implies lex_le(r[i].name, r[j].name) by {
        if i < p && j == p {
        } else if i == p {
        } else if j < p {
        } else if i < p && j > p {
            lemma_lex_trans(old_r[i].name, x.name, old_r[j - 1].name);
        } else {
        }
    }
    assert forall|nm: Seq<char>|
        #[trigger] with_name(r, nm) == with_name(old_r, nm) + with_name(seq![x], nm) by {
        lemma_filter_insert(old_r, p, x, nm);
        let tail = old_r.subrange(p, old_r.len() as int);
        if nm == x.name {
            assert forall|i: int| 0 <= i < tail.len() implies tail[i].name != nm by {
                lemma_lex_refl(x.name);
            }
            lemma_filter_none(tail, nm);
            assert(with_name(old_r, nm) =~= with_name(old_r.subrange(0, p), nm));
            assert(with_name(r, nm) =~= with_name(old_r, nm) + with_name(seq![x], nm));
        } else {
            reveal_with_fuel(Seq::filter, 2);
            assert(with_name(seq![x], nm) =~= Seq::<SummaryView>::empty());
            assert(with_name(r, nm) =~= with_name(old_r, nm) + with_name(seq![x], nm));
        }
    }
}

proof fn lemma_with_name_push(s: Seq<SummaryView>, x: SummaryView, nm: Seq<char>)
    ensures
        with_name(s.push(x), nm) == with_name(s, nm) + with_name(seq![x], nm),
{
    assert(s.push(x) =~= s + seq![x]);
    Seq::filter_distributes_over_add(s, seq![x], |m: SummaryView| m.name == nm);
}

/// Sorts the models by name; models with equal names keep their order.
pub fn sort_by_name(v: Vec<WhisperModelSummary>) -> (r: Vec<WhisperModelSummary>)
    ensures
        stably_sorted_by_name(views(v@), views(r@)),
        r@.len() == v@.len(),
{
    let mut r: Vec<WhisperModelSummary> = Vec::new();
    let mut src = v;
    let ghost orig = views(src@);
    let n = src.len();
    let mut k: usize = 0;
    while k < n
        invariant
            n == orig.len(),
            src@.len() == n - k,
            k <= n,
            views(src@) == orig.subrange(k as int, n as int),
            r@.len() == k,
            sorted_by_name(views(r@)),
            forall|nm: Seq<char>|
                #[trigger] with_name(views(r@), nm) == with_name(orig.subrange(0, k as int), nm),
        decreases n - k,
    {
        let ghost old_src = src@;
        let x = src.remove(0);
        assert(views(old_src)[0] == old_src[0]@);
        assert(x@ == orig[k as int]);
        assert(views(src@) =~= views(old_src).subrange(1, views(old_src).len() as int));
        assert(views(src@) =~= orig.subrange(k + 1, n as int));
        let mut p = r.len();
        while p > 0 && !name_le(&r[p - 1].name, &x.name)
            invariant
                p <= r@.len(),
                forall|j: int| p <= j < r@.len() ==> !lex_le(#[trigger] views(r@)[j].name, x@.name),
            decreases p,
        {
            p -= 1;
        }
        let ghost old_r = views(r@);
        proof {
            lemma_insert_keeps_sorted(old_r, p as int, x@);
        }
        r.insert(p, x);
        proof {
            assert(views(r@) =~= old_r.insert(p as int, orig[k as int]));
            assert(orig.subrange(0, k + 1) =~= orig.subrange(0, k as int).push(orig[k as int]));
            assert forall|nm: Seq<char>|
                #[trigger] with_name(views(r@), nm) == with_name(orig.subrange(0, k + 1), nm) by {
                lemma_with_name_push(orig.subrange(0, k as int), orig[k as int], nm);
            }
        }
        k += 1;
    }
    proof {
        assert(orig.subrange(0, n as int) =~= orig);
    }
    r
}


/// `s` without the models whose file name repeats that of the model before
/// them (what `dedup_by` on file names gives).
pub open spec fn dedup_file_names(s: Seq<SummaryView>) -> Seq<SummaryView>
    decreases s.len(),
{
    if s.len() <= 1 {
        s
    } else {
        let d = dedup_file_names(s.drop_last());
        if s[s.len() - 2].file_name == s.last().file_name {
            d
        } else {
            d.push(s.last())
        }
    }
}

/// The last model kept by `dedup_file_names` has the file name of the
/// last model of `s`.
pub proof fn lemma_dedup_last(s: Seq<SummaryView>)
    requires
        s.len() > 0,
    ensures
        dedup_file_names(s).len() > 0,
        dedup_file_names(s).last().file_name == s.last().file_name,
    decreases s.len(),
{
    if s.len() > 1 {
        lemma_dedup_last(s.drop_last());
    }
}

/// Removes the models whose file name repeats that of the model before them.
pub fn dedup_by_file_name(v: Vec<WhisperModelSummary>) -> (r: Vec<WhisperModelSummary>)
    ensures
        views(r@) == dedup_file_names(views(v@)),
{
    let ghost orig = views(v@);
    let mut src = v;
    let mut out: Vec<WhisperModelSummary> = Vec::new();
    let n = src.len();
    let mut k: usize = 0;
    while k < n
        invariant
            n == orig.len(),
            k <= n,
            src@.len() == n - k,
            views(src@) == orig.subrange(k as int, n as int),
            views(out@) == dedup_file_names(orig.subrange(0, k as int)),
        decreases n - k,
    {
        let ghost old_src = src@;
        let x = src.remove(0);
        assert(views(old_src)[0] == old_src[0]@);
        assert(views(src@) =~= views(old_src).subrange(1, views(old_src).len() as int));
        let ghost pre = orig.subrange(0, k as int);
        let ghost next = orig.subrange(0, k + 1);
        assert(next.drop_last() =~= pre);
        if k == 0 {
            assert(dedup_file_names(next) =~= seq![x@]);
            out.push(x);
        } else {
            proof {
                lemma_dedup_last(pre);
            }
            let last = out.len() - 1;
            assert(views(out@)[last as int] == out@[last as int]@);
            if crate::text::str_eq(out[last].file_name.as_str(), x.file_name.as_str()) {
                assert(next[next.len() - 2] == pre.last());
            } else {
                out.push(x);
                assert(views(out@) =~= dedup_file_names(pre).push(x@));
            }
        }
        assert(views(src@) =~= orig.subrange(k + 1, n as int));
        k += 1;
    }
    assert(orig.subrange(0, n as int) =~= orig);
    out
}

/// The first `n` models.
pub fn take_first(v: Vec<WhisperModelSummary>, n: usize) -> (r: Vec<WhisperModelSummary>)
    ensures
        views(r@) == views(v@).subrange(0, if n < v@.len() { n as int } else { v@.len() as int }),
{
    let ghost orig = v@;
    let mut v = v;
    if n < v.len() {
        v.truncate(n);
    }
    assert(views(v@) =~= views(orig).subrange(0, if n < orig.len() { n as int } else { orig.len() as int }));
    v
}


/// A field of a JSON object: absent, a string, or another kind of value.
#[derive(Clone, Debug)]
pub enum JsonText {
    Missing,
    Text(String),
    Other,
}

/// A file of a Hugging Face model repository as the search API lists it.
#[derive(Clone, Debug)]
pub struct HfSibling {
    /// The `rfilename` field, where it is a string.
    pub rfilename: Option<String>,
    /// The `size` field, where it is an unsigned integer.
    pub size: Option<u64>,
}

/// A model repository as the Hugging Face search API lists it.
#[derive(Clone, Debug)]
pub struct HfModel {
    /// The `id` field.
    pub id: JsonText,
    /// The `modelId` field.
    pub model_id: JsonText,
    /// The `siblings` field, where it is an array.
    pub siblings: Option<Vec<HfSibling>>,
}

/// The repository name of a search hit: its `id`, or where that field is
/// absent its `modelId`, where the field is a string.
pub open spec fn repo_of(m: HfModel) -> Option<Seq<char>> {
    match m.id {
        JsonText::Missing => match m.model_id {
            JsonText::Text(s) => Some(s@),
            _ => None,
        },
        JsonText::Text(s) => Some(s@),
        JsonText::Other => None,
    }
}

/// A repository file named in the search results: repository, file path and size.
pub type SearchEntry = (Seq<char>, Seq<char>, Option<u64>);

pub open spec fn sibling_entries(repo: Seq<char>, sibs: Seq<HfSibling>) -> Seq<SearchEntry>
    decreases sibs.len(),
{
    if sibs.len() == 0 {
        seq![]
    } else {
        sibling_entries(repo, sibs.drop_last()) + match sibs.last().rfilename {
            Some(r) => seq![(repo, r@, sibs.last().size)],
            None => seq![],
        }
    }
}

pub open spec fn model_entries(m: HfModel) -> Seq<SearchEntry> {
    match (repo_of(m), m.siblings) {
        (Some(repo), Some(sibs)) => sibling_entries(repo, sibs@),
        _ => seq![],
    }
}

/// The repository files that a search response names, in order.
pub open spec fn search_entries(ms: Seq<HfModel>) -> Seq<SearchEntry>
    decreases ms.len(),
{
    if ms.len() == 0 {
        seq![]
    } else {
        search_entries(ms.drop_last()) + model_entries(ms.last())
    }
}

/// The catalogue entry of a compatible remote file, given the base names
/// the file-name lookups gave.
pub open spec fn search_candidate_spec(e: SearchEntry, b_id: Seq<char>, b_name: Seq<char>) -> SummaryView {
    SummaryView {
        id: model_id_spec(b_id),
        name: model_name_spec(model_id_spec(b_name)),
        file_name: model_id_spec(b_id) + ".bin"@,
        source: WhisperModelSource::HuggingFace,
        url: Some(resolve_url_spec(e.0, e.1)),
        size_bytes: e.2,
        size_label: opt_format_size(e.2),
        speed_hint: None,
        accuracy_hint: None,
        installed: false,
        path: None,
    }
}

/// What a repository file may turn into: nothing when it is not a
/// compatible model file, else its catalogue entry.
pub open spec fn candidate_outcome(e: SearchEntry, o: Option<SummaryView>) -> bool {
    &&& exists|b: Seq<char>|
        basename_outcome(str_lower(e.1), b) && (o is Some) == compatible_spec(str_lower(e.1), b)
    &&& o matches Some(c) ==> exists|b_id: Seq<char>, b_name: Seq<char>|
        basename_outcome(e.1, b_id) && basename_outcome(e.1, b_name) && c
            == search_candidate_spec(e, b_id, b_name)
}

/// The view of an optional catalogue entry.
pub open spec fn opt_summary(c: Option<WhisperModelSummary>) -> Option<SummaryView> {
    match c {
        Some(m) => Some(m@),
        None => None,
    }
}

/// The entries that are present, in order.
pub open spec fn present(outs: Seq<Option<SummaryView>>) -> Seq<SummaryView>
    decreases outs.len(),
{
    if outs.len() == 0 {
        seq![]
    } else {
        present(outs.drop_last()) + match outs.last() {
            Some(c) => seq![c],
            None => seq![],
        }
    }
}

/// The catalogue entry for the repository file `rfilename` of `repo`, if it
/// is a compatible model file.
pub fn search_candidate(repo: &str, rfilename: &str, size: Option<u64>) -> (r: Option<
    WhisperModelSummary,
>)
    ensures
        candidate_outcome((repo@, rfilename@, size), opt_summary(r)),
{
    let ok = is_compatible_whisper_ggml_bin(rfilename);
    if !ok {
        return None;
    }
    let id = model_id_from_remote_file(rfilename);
    let ghost b_id = choose|b: Seq<char>| basename_outcome(rfilename@, b) && id@ == model_id_spec(b);
    let name = model_name_from_file(rfilename);
    let ghost b_name = choose|b: Seq<char>|
        basename_outcome(rfilename@, b) && name@ == model_name_spec(model_id_spec(b));
    let file_name = crate::text::concat2(id.as_str(), ".bin");
    let m = WhisperModelSummary {
        id,
        name,
        file_name,
        source: WhisperModelSource::HuggingFace,
        url: Some(resolve_url(repo, rfilename)),
        size_bytes: size,
        size_label: size_label_of(size),
        speed_hint: None,
        accuracy_hint: None,
        installed: false,
        path: None,
    };
    assert(m@ == search_candidate_spec((repo@, rfilename@, size), b_id, b_name));
    Some(m)
}

fn repo_name(m: &HfModel) -> (r: Option<String>)
    ensures
        opt_view(r) == repo_of(*m),
{
    match &m.id {
        JsonText::Missing => match &m.model_id {
            JsonText::Text(s) => Some(owned(s.as_str())),
            _ => None,
        },
        JsonText::Text(s) => Some(owned(s.as_str())),
        JsonText::Other => None,
    }
}

/// The catalogue entries of the compatible model files that a search
/// response names, in order.
pub fn search_candidates(ms: &Vec<HfModel>) -> (r: Vec<WhisperModelSummary>)
    ensures
        exists|outs: Seq<Option<SummaryView>>|
            outs.len() == search_entries(ms@).len() && (forall|i: int|
                0 <= i < outs.len() ==> #[trigger] candidate_outcome(
                    search_entries(ms@)[i],
                    outs[i],
                )) && views(r@) == present(outs),
{
    let mut out: Vec<WhisperModelSummary> = Vec::new();
    let ghost mut outs: Seq<Option<SummaryView>> = seq![];
    let mut k: usize = 0;
    while k < ms.len()
        invariant
            k <= ms@.len(),
            outs.len() == search_entries(ms@.subrange(0, k as int)).len(),
            forall|i: int|
                0 <= i < outs.len() ==> #[trigger] candidate_outcome(
                    search_entries(ms@.subrange(0, k as int))[i],
                    outs[i],
                ),
            views(out@) == present(outs),
        decreases ms@.len() - k,
    {
        let ghost pre = ms@.subrange(0, k as int);
        assert(ms@.subrange(0, k + 1).drop_last() =~= pre);
        let ghost entries0 = search_entries(pre);
        let m = &ms[k];
        let repo = repo_name(m);
        match (repo, &m.siblings) {
            (Some(repo), Some(sibs)) => {
                let mut j: usize = 0;
                while j < sibs.len()
                    invariant
                        j <= sibs@.len(),
                        outs.len() == entries0.len() + sibling_entries(
                            repo@,
                            sibs@.subrange(0, j as int),
                        ).len(),
                        forall|i: int|
                            0 <= i < outs.len() ==> #[trigger] candidate_outcome(
                                (entries0 + sibling_entries(repo@, sibs@.subrange(0, j as int)))[i],
                                outs[i],
                            ),
                        views(out@) == present(outs),
                    decreases sibs@.len() - j,
                {
                    let ghost sub = sibs@.subrange(0, j as int);
                    assert(sibs@.subrange(0, j + 1).drop_last() =~= sub);
                    let ghost es = entries0 + sibling_entries(repo@, sub);
                    match &sibs[j].rfilename {
                        Some(rf) => {
                            let c = search_candidate(repo.as_str(), rf.as_str(), sibs[j].size);
                            let ghost o = opt_summary(c);
                            let ghost old_outs = outs;
                            proof {
                                outs = outs.push(o);
                            }
                            match c {
                                Some(x) => {
                                    out.push(x);
                                },
                                None => {},
                            }
                            assert(outs.drop_last() =~= old_outs);
                            assert(es + seq![(repo@, rf@, sibs[j as int].size)] =~= entries0
                                + sibling_entries(repo@, sibs@.subrange(0, j + 1)));
                            assert(views(out@) =~= present(outs));
                        },
                        None => {
                            assert(es =~= entries0 + sibling_entries(
                                repo@,
                                sibs@.subrange(0, j + 1),
                            ));
                        },
                    }
                    j += 1;
                }
                assert(sibs@.subrange(0, sibs@.len() as int) =~= sibs@);
                assert(model_entries(ms@[k as int]) == sibling_entries(repo@, sibs@));
            },
            _ => {
                assert(model_entries(ms@[k as int]) =~= Seq::<SearchEntry>::empty());
                assert(entries0 + model_entries(ms@[k as int]) =~= entries0);
            },
        }
        assert(search_entries(ms@.subrange(0, k + 1)) == entries0 + model_entries(ms@[k as int]));
        k += 1;
    }
    assert(ms@.subrange(0, ms@.len() as int) =~= ms@);
    out
}

/// The most search results shown.
pub const MAX_SEARCH_RESULTS: usize = 25;

/// The search results a response naming the models `ms` gives: the compatible
/// model files it names, sorted by name, without repeated file names, at most 25.
pub open spec fn search_found(ms: Seq<HfModel>, found: Seq<SummaryView>) -> bool {
    exists|outs: Seq<Option<SummaryView>>, sorted: Seq<SummaryView>|
        {
            &&& outs.len() == search_entries(ms).len()
            &&& forall|i: int|
                0 <= i < outs.len() ==> #[trigger] candidate_outcome(search_entries(ms)[i], outs[i])
            &&& stably_sorted_by_name(present(outs), sorted)
            &&& found == {
                let d = dedup_file_names(sorted);
                d.subrange(0, if 25 < d.len() { 25 } else { d.len() as int })
            }
        }
}

/// The search results for a response of the search API: the compatible model
/// files it names, sorted by name, without repeated file names, at most 25.
/// A response that is not an array of models is an error.
pub fn search_results(models: Option<Vec<HfModel>>) -> (r: Result<Vec<WhisperModelSummary>, String>)
    ensures
        models is None ==> (r matches Err(e) && e@
            == "Hugging Face search returned an unexpected response"@),
        models matches Some(ms) ==> (r matches Ok(v) && search_found(ms@, views(v@))),
{
    match models {
        None => Err(owned("Hugging Face search returned an unexpected response")),
        Some(ms) => {
            let cands = search_candidates(&ms);
            let sorted = sort_by_name(cands);
            let deduped = dedup_by_file_name(sorted);
            Ok(take_first(deduped, MAX_SEARCH_RESULTS))
        },
    }
}


/// What looking at a model's path in the cache found, where that path is a
/// file: the path as it is displayed, and the file's length where its
/// metadata could be read.
#[derive(Clone, Debug)]
pub struct FileProbe {
    pub path: String,
    pub len: Option<u64>,
}

/// A catalogue entry once the cache has been looked at: a model whose file
/// is in the cache is installed there, with the size of that file.
pub open spec fn with_install_state_spec(m: SummaryView, probe: Option<FileProbe>) -> SummaryView {
    match probe {
        None => m,
        Some(p) => SummaryView {
            id: m.id,
            name: m.name,
            file_name: m.file_name,
            source: m.source,
            url: m.url,
            size_bytes: match p.len {
                Some(n) => Some(n),
                None => m.size_bytes,
            },
            size_label: match p.len {
                Some(n) => Some(format_size_spec(n as nat)),
                None => m.size_label,
            },
            speed_hint: m.speed_hint,
            accuracy_hint: m.accuracy_hint,
            installed: true,
            path: Some(p.path@),
        },
    }
}

/// Marks a model installed when its file is in the cache (`probe` is what
/// looking at the file found; none where it is not a file).
pub fn with_install_state(model: WhisperModelSummary, probe: Option<FileProbe>) -> (r:
    WhisperModelSummary)
    ensures
        r@ == with_install_state_spec(model@, probe),
{
    let mut model = model;
    match probe {
        None => {},
        Some(p) => {
            model.installed = true;
            model.path = Some(p.path);
            match p.len {
                Some(n) => {
                    model.size_bytes = Some(n);
                    model.size_label = Some(format_size(n));
                },
                None => {},
            }
        },
    }
    model
}

/// An entry of the cache directory as listing it found it.
#[derive(Clone, Debug)]
pub struct CacheEntry {
    /// The entry's file name.
    pub file_name: String,
    /// Its path, as displayed.
    pub path: String,
    /// Whether the path is a regular file.
    pub is_file: bool,
    /// The path's extension, where it has one that is valid text.
    pub extension: Option<String>,
    /// The file's length, where its metadata could be read.
    pub len: Option<u64>,
}

/// What listing the cache directory gave.
#[derive(Clone, Debug)]
pub enum CacheListing {
    /// The directory does not exist.
    Missing,
    /// The directory could not be read, with the reason.
    Unreadable(String),
    /// Its entries, each one read or failed with the reason.
    Entries(Vec<Result<CacheEntry, String>>),
}

/// Whether a cache entry is a model file: a regular file with extension `bin`.
pub open spec fn is_model_entry(e: CacheEntry) -> bool {
    e.is_file && opt_view(e.extension) == Some("bin"@)
}

/// The catalogue entry of an installed model file, given the base name
/// that the file-name lookup gave.
pub open spec fn installed_entry_spec(e: CacheEntry, b: Seq<char>) -> SummaryView {
    SummaryView {
        id: trim_bin_suffix(e.file_name@),
        name: model_name_spec(model_id_spec(b)),
        file_name: e.file_name@,
        source: WhisperModelSource::Installed,
        url: None,
        size_bytes: e.len,
        size_label: opt_format_size(e.len),
        speed_hint: None,
        accuracy_hint: None,
        installed: true,
        path: Some(e.path@),
    }
}

/// What a cache entry may turn into: nothing when it is not a model file,
/// else its catalogue entry.
pub open spec fn installed_outcome(e: CacheEntry, o: Option<SummaryView>) -> bool {
    &&& (o is Some) == is_model_entry(e)
    &&& o matches Some(m) ==> exists|b: Seq<char>|
        basename_outcome(e.file_name@, b) && m == installed_entry_spec(e, b)
}

/// The catalogue entry of a cache entry, if it is a model file.
pub fn installed_entry(e: &CacheEntry) -> (r: Option<WhisperModelSummary>)
    ensures
        installed_outcome(*e, opt_summary(r)),
{
    let is_bin = match &e.extension {
        Some(x) => crate::text::str_eq(x.as_str(), "bin"),
        None => false,
    };
    if !e.is_file || !is_bin {
        return None;
    }
    let fv = chars_of(e.file_name.as_str());
    let idv = trim_bin_chars(fv.as_slice());
    let name = model_name_from_file(e.file_name.as_str());
    let ghost b = choose|b: Seq<char>|
        basename_outcome(e.file_name@, b) && name@ == model_name_spec(model_id_spec(b));
    let len = e.len;
    let m = WhisperModelSummary {
        id: string_of(idv.as_slice()),
        name,
        file_name: owned(e.file_name.as_str()),
        source: WhisperModelSource::Installed,
        url: None,
        size_bytes: len,
        size_label: size_label_of(len),
        speed_hint: None,
        accuracy_hint: None,
        installed: true,
        path: Some(owned(e.path.as_str())),
    };
    assert(m@ == installed_entry_spec(*e, b));
    Some(m)
}

/// The reason of the first entry that could not be read, if any.
pub open spec fn first_entry_error(es: Seq<Result<CacheEntry, String>>) -> Option<Seq<char>>
    decreases es.len(),
{
    if es.len() == 0 {
        None
    } else {
        match first_entry_error(es.drop_last()) {
            Some(e) => Some(e),
            None => match es.last() {
                Err(e) => Some(e@),
                Ok(_) => None,
            },
        }
    }
}

/// What each read entry turned into.
pub open spec fn entry_outcomes(es: Seq<Result<CacheEntry, String>>, outs: Seq<Option<SummaryView>>) -> bool {
    &&& outs.len() == es.len()
    &&& forall|i: int|
        0 <= i < es.len() ==> match #[trigger] es[i] {
            Ok(e) => installed_outcome(e, outs[i]),
            Err(_) => true,
        }
}

/// The installed models a cache listing shows: none for a missing
/// directory, an error where the directory or one of its entries could not
/// be read, else the model files sorted by name.
pub open spec fn installed_models_outcome(l: CacheListing, r: Result<Seq<SummaryView>, Seq<char>>) -> bool {
    match l {
        CacheListing::Missing => r == Ok::<Seq<SummaryView>, Seq<char>>(seq![]),
        CacheListing::Unreadable(e) => r == Err::<Seq<SummaryView>, Seq<char>>(
            "failed to inspect Whisper cache: "@ + e@,
        ),
        CacheListing::Entries(es) => match first_entry_error(es@) {
            Some(e) => r == Err::<Seq<SummaryView>, Seq<char>>(
                "failed to inspect Whisper model: "@ + e,
            ),
            None => r matches Ok(ms) && exists|outs: Seq<Option<SummaryView>>|
                entry_outcomes(es@, outs) && stably_sorted_by_name(present(outs), ms),
        },
    }
}

pub open spec fn models_result_view(r: Result<Vec<WhisperModelSummary>, String>) -> Result<
    Seq<SummaryView>,
    Seq<char>,
> {
    match r {
        Ok(v) => Ok(views(v@)),
        Err(e) => Err(e@),
    }
}

/// The installed models that a listing of the cache directory shows.
pub fn installed_models(listing: CacheListing) -> (r: Result<Vec<WhisperModelSummary>, String>)
    ensures
        installed_models_outcome(listing, models_result_view(r)),
{
    match listing {
        CacheListing::Missing => {
            let v: Vec<WhisperModelSummary> = Vec::new();
            assert(views(v@) =~= seq![]);
            Ok(v)
        },
        CacheListing::Unreadable(e) => Err(
            crate::text::concat2("failed to inspect Whisper cache: ", e.as_str()),
        ),
        CacheListing::Entries(es) => {
            let mut out: Vec<WhisperModelSummary> = Vec::new();
            let ghost mut outs: Seq<Option<SummaryView>> = seq![];
            let mut k: usize = 0;
            while k < es.len()
                invariant
                    k <= es@.len(),
                    listing == CacheListing::Entries(es),
                    first_entry_error(es@.subrange(0, k as int)) is None,
                    entry_outcomes(es@.subrange(0, k as int), outs),
                    views(out@) == present(outs),
                decreases es@.len() - k,
            {
                let ghost pre = es@.subrange(0, k as int);
                assert(es@.subrange(0, k + 1).drop_last() =~= pre);
                match &es[k] {
                    Err(e) => {
                        proof {
                            assert(es@.subrange(0, k + 1).last() == es@[k as int]);
                            assert(first_entry_error(es@.subrange(0, k + 1)) == Some(e@));
                            lemma_first_error_extends(es@.subrange(0, k + 1), es@);
                            assert(first_entry_error(es@) == Some(e@));
                        }
                        let msg = crate::text::concat2("failed to inspect Whisper model: ", e.as_str());
                        assert(msg@ == "failed to inspect Whisper model: "@ + e@);
                        return Err(msg);
                    },
                    Ok(entry) => {
                        let c = installed_entry(entry);
                        let ghost old_outs = outs;
                        proof {
                            outs = outs.push(opt_summary(c));
                        }
                        match c {
                            Some(x) => {
                                out.push(x);
                            },
                            None => {},
                        }
                        assert(outs.drop_last() =~= old_outs);
                        assert(views(out@) =~= present(outs));
                        assert forall|i: int| 0 <= i < k + 1 implies match #[trigger] es@.subrange(
                            0,
                            k + 1,
                        )[i] {
                            Ok(e) => installed_outcome(e, outs[i]),
                            Err(_) => true,
                        } by {
                            if i < k {
                                assert(es@.subrange(0, k + 1)[i] == pre[i]);
                            }
                        }
                    },
                }
                k += 1;
            }
            assert(es@.subrange(0, es@.len() as int) =~= es@);
            let sorted = sort_by_name(out);
            Ok(sorted)
        },
    }
}

proof fn lemma_first_error_extends(pre: Seq<Result<CacheEntry, String>>, s: Seq<Result<CacheEntry, String>>)
    requires
        pre.len() <= s.len(),
        pre =~= s.subrange(0, pre.len() as int),
        first_entry_error(pre) is Some,
    ensures
        first_entry_error(s) == first_entry_error(pre),
    decreases s.len(),
{
    if s.len() > pre.len() {
        assert(s.drop_last().subrange(0, pre.len() as int) =~= pre);
        lemma_first_error_extends(pre, s.drop_last());
    } else {
        assert(pre =~= s);
    }
}

/// Whether one of the models has file name `f`.
pub open spec fn has_file_name(ms: Seq<SummaryView>, f: Seq<char>) -> bool {
    exists|i: int| 0 <= i < ms.len() && #[trigger] ms[i].file_name == f
}

/// `models` followed by the installed models whose file name is not yet
/// listed, in their order.
pub open spec fn merge_installed_spec(models: Seq<SummaryView>, installed: Seq<SummaryView>) -> Seq<
    SummaryView,
>
    decreases installed.len(),
{
    if installed.len() == 0 {
        models
    } else {
        let m = merge_installed_spec(models, installed.drop_last());
        if has_file_name(m, installed.last().file_name) {
            m
        } else {
            m.push(installed.last())
        }
    }
}

fn lists_file_name(ms: &Vec<WhisperModelSummary>, f: &String) -> (r: bool)
    ensures
        r == has_file_name(views(ms@), f@),
{
    let mut i: usize = 0;
    while i < ms.len()
        invariant
            i <= ms@.len(),
            forall|j: int| 0 <= j < i ==> #[trigger] views(ms@)[j].file_name != f@,
        decreases ms@.len() - i,
    {
        if crate::text::str_eq(ms[i].file_name.as_str(), f.as_str()) {
            assert(views(ms@)[i as int].file_name == f@);
            return true;
        }
        i += 1;
    }
    false
}

/// Adds the installed models whose file is not already listed.
pub fn merge_installed(models: Vec<WhisperModelSummary>, installed: Vec<WhisperModelSummary>) -> (r:
    Vec<WhisperModelSummary>)
    ensures
        views(r@) == merge_installed_spec(views(models@), views(installed@)),
{
    let ghost base = views(models@);
    let ghost inst = views(installed@);
    let mut out = models;
    let mut src = installed;
    let n = src.len();
    let mut k: usize = 0;
    while k < n
        invariant
            n == inst.len(),
            k <= n,
            src@.len() == n - k,
            views(src@) == inst.subrange(k as int, n as int),
            views(out@) == merge_installed_spec(base, inst.subrange(0, k as int)),
        decreases n - k,
    {
        let ghost old_src = src@;
        let x = src.remove(0);
        assert(views(old_src)[0] == old_src[0]@);
        assert(views(src@) =~= views(old_src).subrange(1, views(old_src).len() as int));
        assert(inst.subrange(0, k + 1).drop_last() =~= inst.subrange(0, k as int));
        if !lists_file_name(&out, &x.file_name) {
            out.push(x);
            assert(views(out@) =~= merge_installed_spec(base, inst.subrange(0, k as int)).push(x@));
        }
        assert(views(src@) =~= inst.subrange(k + 1, n as int));
        k += 1;
    }
    assert(inst.subrange(0, n as int) =~= inst);
    out
}


/// Whether `p` is what `probe` may give when asked about a file named `f`.
pub open spec fn probed<F: Fn(String) -> Option<FileProbe>>(
    probe: F,
    f: Seq<char>,
    p: Option<FileProbe>,
) -> bool {
    exists|s: String| s@ == f && probe.ensures((s,), p)
}

/// `after` is `before` with the install state that `probe` reported for
/// each model's file.
pub open spec fn install_states<F: Fn(String) -> Option<FileProbe>>(
    probe: F,
    before: Seq<SummaryView>,
    after: Seq<SummaryView>,
) -> bool {
    exists|ps: Seq<Option<FileProbe>>|
        {
            &&& ps.len() == before.len()
            &&& after.len() == before.len()
            &&& forall|i: int|
                0 <= i < before.len() ==> probed(probe, before[i].file_name, #[trigger] ps[i])
                    && after[i] == with_install_state_spec(before[i], ps[i])
        }
}

/// Looks each model's file up in the cache with `probe` and marks the
/// models found there installed.
pub fn apply_install_states<F: Fn(String) -> Option<FileProbe>>(
    models: Vec<WhisperModelSummary>,
    probe: &F,
) -> (r: Vec<WhisperModelSummary>)
    requires
        forall|s: String| probe.requires((s,)),
    ensures
        install_states(*probe, views(models@), views(r@)),
{
    let ghost orig = views(models@);
    let mut src = models;
    let mut out: Vec<WhisperModelSummary> = Vec::new();
    let ghost mut ps: Seq<Option<FileProbe>> = seq![];
    let n = src.len();
    let mut k: usize = 0;
    while k < n
        invariant
            n == orig.len(),
            k <= n,
            src@.len() == n - k,
            views(src@) == orig.subrange(k as int, n as int),
            forall|s: String| probe.requires((s,)),
            ps.len() == k,
            out@.len() == k,
            forall|i: int|
                0 <= i < k ==> probed(*probe, orig[i].file_name, #[trigger] ps[i])
                    && views(out@)[i] == with_install_state_spec(orig[i], ps[i]),
        decreases n - k,
    {
        let ghost old_src = src@;
        let x = src.remove(0);
        assert(views(old_src)[0] == old_src[0]@);
        assert(x@ == orig[k as int]);
        assert(views(src@) =~= views(old_src).subrange(1, views(old_src).len() as int));
        let f = x.file_name.clone();
        let p = probe(f);
        let ghost old_out = views(out@);
        proof {
            ps = ps.push(p);
        }
        let y = with_install_state(x, p);
        out.push(y);
        assert(views(out@) =~= old_out.push(y@));
        assert(views(src@) =~= orig.subrange(k + 1, n as int));
        k += 1;
    }
    out
}

/// Where the models are kept, which one Yap recommends, and every model:
/// the curated ones first, marked installed where their file is in the
/// cache, then the other model files of the cache, sorted by name.
pub open spec fn model_list_spec(
    cache_dir: Seq<char>,
    curated: Seq<SummaryView>,
    installed: Seq<SummaryView>,
) -> (Seq<char>, Seq<char>, Seq<SummaryView>) {
    (cache_dir, "large-v3-turbo-q5_0"@, merge_installed_spec(curated, installed))
}

pub open spec fn model_list_view(l: WhisperModelList) -> (Seq<char>, Seq<char>, Seq<SummaryView>) {
    (l.cache_dir@, l.recommended_id@, views(l.models@))
}

/// What listing the catalogue gives: an error where the cache directory
/// could not be created; else the curated models with their install state
/// (as `probe` reported it), then the model files of the cache that
/// `listing` found (or the error listing it gave).
pub open spec fn list_outcome<F: Fn(String) -> Option<FileProbe>, L: FnOnce() -> CacheListing>(
    cache_dir: String,
    created: Result<(), String>,
    probe: F,
    listing: L,
    r: Result<WhisperModelList, String>,
) -> bool {
    &&& created matches Err(e) ==> (r matches Err(m) && m@ == "failed to create Whisper cache: "@
        + e@)
    &&& created is Ok ==> exists|l: CacheListing, curated: Seq<SummaryView>|
        {
            &&& listing.ensures((), l)
            &&& install_states(probe, curated_models_spec(), curated)
            &&& match r {
                Ok(list) => exists|installed: Seq<SummaryView>|
                    installed_models_outcome(l, Ok(installed)) && model_list_view(list)
                        == model_list_spec(cache_dir@, curated, installed),
                Err(m) => installed_models_outcome(l, Err(m@)),
            }
        }
}

/// The catalogue of Whisper models. `created` is the outcome of creating the
/// cache directory `cache_dir`; `probe` looks a file name up in the cache,
/// and `listing` lists the cache directory.
pub fn list_whisper_models<F: Fn(String) -> Option<FileProbe>, L: FnOnce() -> CacheListing>(
    cache_dir: String,
    created: Result<(), String>,
    probe: F,
    listing: L,
) -> (r: Result<WhisperModelList, String>)
    requires
        forall|s: String| probe.requires((s,)),
        listing.requires(()),
    ensures
        list_outcome(cache_dir, created, probe, listing, r),
{
    match created {
        Err(e) => {
            return Err(crate::text::concat2("failed to create Whisper cache: ", e.as_str()));
        },
        Ok(()) => {},
    }
    let curated = apply_install_states(curated_models(), &probe);
    let ghost cv = views(curated@);
    let l = listing();
    let ghost lv = l;
    let installed = installed_models(l);
    match installed {
        Err(m) => {
            assert(listing.ensures((), lv) && install_states(probe, curated_models_spec(), cv)
                && installed_models_outcome(lv, Err(m@)));
            Err(m)
        },
        Ok(inst) => {
            let ghost iv = views(inst@);
            let models = merge_installed(curated, inst);
            let list = WhisperModelList {
                cache_dir,
                recommended_id: owned(RECOMMENDED_WHISPER_MODEL_ID),
                models,
            };
            assert(installed_models_outcome(lv, Ok(iv)));
            assert(model_list_view(list) == model_list_spec(cache_dir@, cv, iv));
            assert(listing.ensures((), lv) && install_states(probe, curated_models_spec(), cv));
            Ok(list)
        },
    }
}


/// The number of bytes of the UTF-8 encoding of `c`.
pub open spec fn utf8_width(c: char) -> nat {
    if (c as u32) < 0x80 {
        1
    } else if (c as u32) < 0x800 {
        2
    } else if (c as u32) < 0x10000 {
        3
    } else {
        4
    }
}

/// The number of bytes of the UTF-8 encoding of `s`.
pub open spec fn utf8_len(s: Seq<char>) -> nat
    decreases s.len(),
{
    if s.len() == 0 {
        0
    } else {
        utf8_len(s.drop_last()) + utf8_width(s.last())
    }
}

proof fn lemma_utf8_len_at_least(s: Seq<char>)
    ensures
        utf8_len(s) >= s.len(),
    decreases s.len(),
{
    if s.len() > 0 {
        lemma_utf8_len_at_least(s.drop_last());
    }
}

/// Whether a search query is shorter than two bytes.
fn too_short_query(q: &[char]) -> (r: bool)
    ensures
        r == (utf8_len(q@) < 2),
{
    proof {
        lemma_utf8_len_at_least(q@);
    }
    if q.len() == 0 {
        true
    } else if q.len() == 1 {
        assert(q@.drop_last() =~= Seq::<char>::empty());
        assert(utf8_len(q@.drop_last()) == 0);
        (q[0] as u32) < 0x80
    } else {
        false
    }
}

/// What a search of Hugging Face answered: an error, a response that is not
/// a list of models, or the models listed.
pub type SearchResponse = Result<Option<Vec<HfModel>>, String>;

/// What a search gives: nothing, without a search, for a query of fewer
/// than two bytes once trimmed; else the error of the search, or the
/// results found (see `search_found`) with their install state.
pub open spec fn search_outcome<Q: FnOnce(String) -> SearchResponse, F: Fn(String) -> Option<FileProbe>>(
    request: WhisperModelSearchRequest,
    fetch: Q,
    probe: F,
    r: Result<Vec<WhisperModelSummary>, String>,
) -> bool {
    &&& utf8_len(trim(request.query@)) < 2 ==> (r matches Ok(v) && v@.len() == 0)
    &&& utf8_len(trim(request.query@)) >= 2 ==> exists|term: String, resp: SearchResponse|
        {
            &&& term@ == "whisper.cpp "@ + trim(request.query@)
            &&& fetch.ensures((term,), resp)
            &&& match resp {
                Err(e) => r matches Err(m) && m@ == e@,
                Ok(None) => r matches Err(m) && m@
                    == "Hugging Face search returned an unexpected response"@,
                Ok(Some(ms)) => r matches Ok(v) && exists|found: Seq<SummaryView>|
                    search_found(ms@, found) && install_states(probe, found, views(v@)),
            }
        }
}

/// Searches Hugging Face for whisper.cpp models matching the query. A query
/// of fewer than two bytes, once trimmed, finds nothing without a search.
/// `fetch` runs the search for the search term; `probe` looks a file name up
/// in the cache.
pub fn search_whisper_models<Q: FnOnce(String) -> SearchResponse, F: Fn(String) -> Option<FileProbe>>(
    request: WhisperModelSearchRequest,
    fetch: Q,
    probe: F,
) -> (r: Result<Vec<WhisperModelSummary>, String>)
    requires
        forall|s: String| fetch.requires((s,)),
        forall|s: String| probe.requires((s,)),
    ensures
        search_outcome(request, fetch, probe, r),
{
    let qv = chars_of(request.query.as_str());
    let q = trim_chars(qv.as_slice());
    if too_short_query(q.as_slice()) {
        return Ok(Vec::new());
    }
    let query = string_of(q.as_slice());
    let term = crate::text::concat2("whisper.cpp ", query.as_str());
    let ghost tv = term;
    let resp = fetch(term);
    let ghost rv = resp;
    match resp {
        Err(e) => {
            assert(fetch.ensures((tv,), rv));
            Err(e)
        },
        Ok(models) => {
            let ghost mv = models;
            match search_results(models) {
                Err(m) => {
                    assert(fetch.ensures((tv,), rv));
                    Err(m)
                },
                Ok(found) => {
                    let ghost fv = views(found@);
                    let v = apply_install_states(found, &probe);
                    assert(fetch.ensures((tv,), rv));
                    assert(search_found(mv->Some_0@, fv));
                    Ok(v)
                },
            }
        },
    }
}

/// What deleting a model file gives: an unsafe name is refused; else the
/// outcome of removing the file of the trimmed name.
pub open spec fn delete_outcome<R: FnOnce(String) -> Result<(), String>>(
    file_name: Seq<char>,
    remove: R,
    r: Result<(), String>,
) -> bool {
    &&& !is_safe_model_file_name(trim(file_name)) ==> (r matches Err(m) && m@
        == "invalid Whisper model file name"@)
    &&& is_safe_model_file_name(trim(file_name)) ==> exists|n: String, res: Result<(), String>|
        {
            &&& n@ == trim(file_name)
            &&& remove.ensures((n,), res)
            &&& match res {
                Ok(()) => r is Ok,
                Err(e) => r matches Err(m) && m@ == "failed to delete Whisper model: "@ + e@,
            }
        }
}

/// Deletes a model file from the cache. The file name must be safe (see
/// `safe_model_file_name`); `remove` deletes the cache file of that name
/// where there is one.
pub fn delete_whisper_model<R: FnOnce(String) -> Result<(), String>>(file_name: &str, remove: R) -> (r:
    Result<(), String>)
    requires
        forall|s: String| remove.requires((s,)),
    ensures
        delete_outcome(file_name@, remove, r),
{
    let name = match safe_model_file_name(file_name) {
        Ok(n) => n,
        Err(e) => return Err(e),
    };
    let ghost nv = name;
    let res = remove(name);
    let ghost rv = res;
    match res {
        Ok(()) => {
            assert(remove.ensures((nv,), rv));
            Ok(())
        },
        Err(e) => {
            assert(remove.ensures((nv,), rv));
            Err(crate::text::concat2("failed to delete Whisper model: ", e.as_str()))
        },
    }
}

/// The program that opens a folder on the operating system `os` (as Rust
/// names it).
pub fn folder_opener(os: &str) -> (r: &'static str)
    ensures
        os@ == "macos"@ ==> r@ == "open"@,
        os@ == "windows"@ ==> r@ == "explorer"@,
        os@ != "macos"@ && os@ != "windows"@ ==> r@ == "xdg-open"@,
{
    proof {
        reveal_strlit("macos");
        reveal_strlit("windows");
    }
    let r = if crate::text::str_eq(os, "macos") {
        "open"
    } else if crate::text::str_eq(os, "windows") {
        "explorer"
    } else {
        "xdg-open"
    };
    assert("macos"@[0] != "windows"@[0]);
    r
}

/// What showing the model folder gives: an error where the folder could
/// not be created, where the file manager could not be run, or where it
/// failed.
pub open spec fn reveal_outcome<O: FnOnce() -> Result<bool, String>>(
    created: Result<(), String>,
    open: O,
    r: Result<(), String>,
) -> bool {
    &&& created matches Err(e) ==> (r matches Err(m) && m@ == "failed to create Whisper cache: "@
        + e@)
    &&& created is Ok ==> exists|res: Result<bool, String>|
        #![trigger open.ensures((), res)]
        {
            &&& open.ensures((), res)
            &&& match res {
                Ok(true) => r is Ok,
                Ok(false) => r matches Err(m) && m@ == "failed to reveal Whisper model folder"@,
                Err(e) => r matches Err(m) && m@ == "failed to reveal Whisper model folder: "@
                    + e@,
            }
        }
}

/// Shows the model folder in the file manager. `created` is the outcome of
/// creating the cache directory; `open` runs the file manager on it and
/// tells whether it exited successfully.
pub fn reveal_whisper_models<O: FnOnce() -> Result<bool, String>>(created: Result<(), String>, open: O) -> (r:
    Result<(), String>)
    requires
        open.requires(()),
    ensures
        reveal_outcome(created, open, r),
{
    match created {
        Err(e) => {
            return Err(crate::text::concat2("failed to create Whisper cache: ", e.as_str()));
        },
        Ok(()) => {},
    }
    let res = open();
    let ghost rv = res;
    let r = match res {
        Ok(true) => Ok(()),
        Ok(false) => Err(owned("failed to reveal Whisper model folder")),
        Err(e) => Err(crate::text::concat2("failed to reveal Whisper model folder: ", e.as_str())),
    };
    assert(open.ensures((), rv) && match rv {
        Ok(true) => r is Ok,
        Ok(false) => r matches Err(m) && m@ == "failed to reveal Whisper model folder"@,
        Err(e) => r matches Err(m) && m@ == "failed to reveal Whisper model folder: "@ + e@,
    });
    r
}


/// The refusal of a model larger than the cache limit.
pub open spec fn too_large_message() -> Seq<char> {
    "model is too large for Yap's managed cache limit of "@ + format_size_spec(
        MAX_MODEL_BYTES as nat,
    )
}

fn too_large_error() -> (r: String)
    ensures
        r@ == too_large_message(),
{
    let limit = format_size(MAX_MODEL_BYTES);
    crate::text::concat2("model is too large for Yap's managed cache limit of ", limit.as_str())
}

/// Checks the size that a download request announces, before anything is
/// fetched: a model larger than the cache limit is refused.
pub fn check_expected_size(expected_size: Option<u64>) -> (r: Result<(), String>)
    ensures
        r is Err <==> (expected_size matches Some(n) && n > MAX_MODEL_BYTES),
        r matches Err(m) ==> m@ == too_large_message(),
{
    match expected_size {
        Some(n) => {
            if n > MAX_MODEL_BYTES {
                return Err(too_large_error());
            }
            Ok(())
        },
        None => Ok(()),
    }
}

/// The progress of a model download: the size it will have and the bytes
/// received so far.
#[derive(Clone, Copy, Debug)]
pub struct DownloadTracker {
    pub total: u64,
    pub transferred: u64,
}

impl DownloadTracker {
    /// A tracker is well formed when neither the size nor the bytes received
    /// exceed the cache limit.
    pub open spec fn well_formed(self) -> bool {
        self.total <= MAX_MODEL_BYTES && self.transferred <= MAX_MODEL_BYTES
    }

    /// Starts tracking a download once the server answered: its size is the
    /// length the server reported, else the size the request announced. A
    /// download of unknown size, or larger than the cache limit, is refused.
    pub fn start(content_length: Option<u64>, expected_size: Option<u64>) -> (r: Result<
        DownloadTracker,
        String,
    >)
        ensures
            match (content_length, expected_size) {
                (None, None) => r matches Err(m) && m@ == "model download did not report a file size"@,
                _ => {
                    let total = match content_length {
                        Some(n) => n,
                        None => expected_size->Some_0,
                    };
                    if total > MAX_MODEL_BYTES {
                        r matches Err(m) && m@ == too_large_message()
                    } else {
                        r == Ok::<DownloadTracker, String>(
                            DownloadTracker { total, transferred: 0 },
                        )
                    }
                },
            },
            r matches Ok(t) ==> t.well_formed(),
    {
        let total = match content_length {
            Some(n) => n,
            None => match expected_size {
                Some(n) => n,
                None => return Err(owned("model download did not report a file size")),
            },
        };
        if total > MAX_MODEL_BYTES {
            return Err(too_large_error());
        }
        Ok(DownloadTracker { total, transferred: 0 })
    }

    /// Counts a chunk of `len` bytes received; more than the cache limit in
    /// all is refused.
    pub fn add_chunk(&mut self, len: u64) -> (r: Result<(), String>)
        requires
            old(self).well_formed(),
            old(self).transferred + len <= u64::MAX,
        ensures
            final(self).total == old(self).total,
            final(self).transferred == old(self).transferred + len,
            r is Ok <==> final(self).transferred <= MAX_MODEL_BYTES,
            r is Ok ==> final(self).well_formed(),
            r matches Err(m) ==> m@ == "model exceeded Yap's managed cache limit of "@
                + format_size_spec(MAX_MODEL_BYTES as nat),
    {
        self.transferred = self.transferred + len;
        if self.transferred > MAX_MODEL_BYTES {
            let limit = format_size(MAX_MODEL_BYTES);
            return Err(
                crate::text::concat2("model exceeded Yap's managed cache limit of ", limit.as_str()),
            );
        }
        Ok(())
    }

    /// Checks, once the server has sent everything, that exactly the
    /// announced size arrived.
    pub fn finish(&self) -> (r: Result<(), String>)
        ensures
            r is Ok <==> self.transferred == self.total,
            r matches Err(m) ==> m@ == "model download was incomplete: expected "@
                + format_size_spec(self.total as nat) + " but received "@ + format_size_spec(
                self.transferred as nat,
            ),
    {
        if self.transferred != self.total {
            let expected = format_size(self.total);
            let received = format_size(self.transferred);
            let mut v = chars_of("model download was incomplete: expected ");
            push_str(&mut v, expected.as_str());
            push_str(&mut v, " but received ");
            push_str(&mut v, received.as_str());
            return Err(string_of(v.as_slice()));
        }
        Ok(())
    }
}

/// Checks a download request before anything is fetched: the file name must
/// be safe and the URL a Hugging Face URL of that model file. Gives the
/// file name and the URL.
pub fn prepare_download(request: &WhisperDownloadRequest) -> (r: Result<(String, String), String>)
    ensures
        !is_safe_model_file_name(trim(request.file_name@)) ==> (r matches Err(m) && m@
            == "invalid Whisper model file name"@),
        is_safe_model_file_name(trim(request.file_name@)) ==> exists|b1: Seq<char>, b2: Seq<char>|
            download_url_bases(parsed_url(request.url@), b1, b2) && match r {
                Ok((f, u)) => f@ == trim(request.file_name@) && u@ == request.url@
                    && download_url_check(parsed_url(request.url@), f@, b1, b2) is Ok,
                Err(e) => download_url_check(
                    parsed_url(request.url@),
                    trim(request.file_name@),
                    b1,
                    b2,
                ) == Err::<(), Seq<char>>(e@),
            },
{
    let file_name = safe_model_file_name(request.file_name.as_str())?;
    let url = validate_download_url(request.url.as_str(), file_name.as_str())?;
    Ok((file_name, url))
}

/// The name of the file a download is written to before it is moved into
/// place: hidden, after the model file and the time it started.
pub fn download_temp_name(file_name: &str, millis: u64) -> (r: String)
    ensures
        r@ == "."@ + file_name@ + "."@ + decimal(millis as nat) + ".download"@,
{
    let mut v = chars_of(".");
    push_str(&mut v, file_name);
    push_str(&mut v, ".");
    push_decimal(&mut v, millis);
    push_str(&mut v, ".download");
    string_of(v.as_slice())
}

/// The catalogue entry of a model that has just been downloaded to `path`,
/// a file of `size_bytes` bytes where its size could be read.
pub fn downloaded_model(request: WhisperDownloadRequest, file_name: String, size_bytes: Option<
    u64,
>, path: String) -> (r: WhisperModelSummary)
    ensures
        exists|b: Seq<char>|
            basename_outcome(file_name@, b) && r@ == (SummaryView {
                id: request.id@,
                name: model_name_spec(model_id_spec(b)),
                file_name: file_name@,
                source: WhisperModelSource::Installed,
                url: Some(request.url@),
                size_bytes,
                size_label: opt_format_size(size_bytes),
                speed_hint: None,
                accuracy_hint: None,
                installed: true,
                path: Some(path@),
            }),
{
    let name = model_name_from_file(file_name.as_str());
    WhisperModelSummary {
        id: request.id,
        name,
        file_name,
        source: WhisperModelSource::Installed,
        url: Some(request.url),
        size_bytes,
        size_label: size_label_of(size_bytes),
        speed_hint: None,
        accuracy_hint: None,
        installed: true,
        path: Some(path),
    }
}


proof fn lemma_plain_names()
    ensures
        plain_name("yap"@),
        plain_name("whisper"@),
        plain_name(".cache"@),
{
    reveal_strlit("yap");
    reveal_strlit("whisper");
    reveal_strlit(".cache");
    assert(!has_char("yap"@, '/') && !has_char("yap"@, '\\') && !has_char("yap"@, ':'));
    assert(!has_char("whisper"@, '/') && !has_char("whisper"@, '\\') && !has_char("whisper"@, ':'));
    assert(!has_char(".cache"@, '/') && !has_char(".cache"@, '\\') && !has_char(".cache"@, ':'));
}

/// The first directory that is known, else the fallback.
pub open spec fn first_known(a: Option<String>, b: Option<String>, fallback: String) -> Seq<char> {
    match a {
        Some(d) => d@,
        None => match b {
            Some(d) => d@,
            None => fallback@,
        },
    }
}

/// The directory where Yap keeps downloaded models: `yap/whisper` in the
/// user's cache directory on Windows (else in the data directory, else in
/// the temporary directory), and `.cache/yap/whisper` in the home directory
/// elsewhere (else in the temporary directory).
pub fn whisper_cache_dir(
    on_windows: bool,
    cache_dir: Option<String>,
    data_dir: Option<String>,
    home_dir: Option<String>,
    temp_dir: String,
) -> (r: String)
    ensures
        on_windows ==> joined_all(
            first_known(cache_dir, data_dir, temp_dir),
            seq!["yap"@, "whisper"@],
            r@,
        ),
        !on_windows ==> joined_all(
            first_known(home_dir, None, temp_dir),
            seq![".cache"@, "yap"@, "whisper"@],
            r@,
        ),
        ordinary_base(
            if on_windows {
                first_known(cache_dir, data_dir, temp_dir)
            } else {
                first_known(home_dir, None, temp_dir)
            },
        ) ==> exists|sep: char| is_sep(sep) && ends_with(r@, "yap"@.push(sep) + "whisper"@),
{
    proof {
        reveal_strlit("yap");
        reveal_strlit("whisper");
        reveal_strlit(".cache");
    }
    if on_windows {
        let base = match cache_dir {
            Some(d) => d,
            None => match data_dir {
                Some(d) => d,
                None => temp_dir,
            },
        };
        let parts = vec!["yap", "whisper"];
        let ghost ps = seq!["yap"@, "whisper"@];
        assert(parts@.map_values(|p: &str| p@) =~= ps);
        let r = join_all(base.as_str(), &parts);
        proof {
            lemma_plain_names();
            if ordinary_base(base@) {
                lemma_joined_all_tail(base@, ps, r@);
            }
        }
        r
    } else {
        let base = match home_dir {
            Some(d) => d,
            None => temp_dir,
        };
        let parts = vec![".cache", "yap", "whisper"];
        let ghost ps = seq![".cache"@, "yap"@, "whisper"@];
        assert(parts@.map_values(|p: &str| p@) =~= ps);
        let r = join_all(base.as_str(), &parts);
        proof {
            lemma_plain_names();
            if ordinary_base(base@) {
                lemma_joined_all_tail(base@, ps, r@);
                assert(ps[ps.len() - 2] == "yap"@);
            }
        }
        r
    }
}

} // verus!
