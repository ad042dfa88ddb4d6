//! Path strings as the three supported platforms read them.
use vstd::prelude::*;

verus! {

/// The desktop platform whose conventions apply.
#[derive(Clone, Copy, Debug, PartialEq, Eq, Structural)]
pub enum Platform {
    MacOs,
    Windows,
    Linux,
}

/// Whether `c` separates path components on `p`.
pub open spec fn is_sep(c: char, p: Platform) -> bool {
    c == '/' || (p == Platform::Windows && c == '\\')
}

/// The separator that `p` writes between components.
pub open spec fn sep_of(p: Platform) -> char {
    if p == Platform::Windows {
        '\\'
    } else {
        '/'
    }
}

/// `name` appended to `dir` as a further component.
pub open spec fn join_spec(dir: Seq<char>, name: Seq<char>, p: Platform) -> Seq<char> {
    if dir.len() == 0 || is_sep(dir.last(), p) {
        dir + name
    } else {
        dir + seq![sep_of(p)] + name
    }
}

/// Length of `s` once trailing separators are removed.
pub open spec fn trim_len(s: Seq<char>, p: Platform) -> int
    decreases s.len(),
{
    if s.len() > 0 && is_sep(s.last(), p) {
        trim_len(s.drop_last(), p)
    } else {
        s.len() as int
    }
}

/// Start of the component that ends at `e`.
pub open spec fn comp_start(s: Seq<char>, e: int, p: Platform) -> int
    decreases e,
{
    if e <= 0 {
        0
    } else if is_sep(s[e - 1], p) {
        e
    } else {
        comp_start(s, e - 1, p)
    }
}

/// Index of the last '.' in `s[b..e]`, or -1.
pub open spec fn dot_pos(s: Seq<char>, b: int, e: int) -> int
    decreases e - b,
{
    if e <= b {
        -1
    } else if s[e - 1] == '.' {
        e - 1
    } else {
        dot_pos(s, b, e - 1)
    }
}

/// The bounds `(b, e)` of the final component of `s`.
pub open spec fn file_name_bounds(s: Seq<char>, p: Platform) -> (int, int) {
    let e = trim_len(s, p);
    (comp_start(s, e, p), e)
}

/// Whether the final component is a name a file can carry (not empty, not "..").
pub open spec fn has_file_name(s: Seq<char>, p: Platform) -> bool {
    let (b, e) = file_name_bounds(s, p);
    b < e && s.subrange(b, e) != seq!['.', '.']
}

/// The extension of the final component: what follows its last '.', where that
/// '.' is not the component's first character.
pub open spec fn extension_of(s: Seq<char>, p: Platform) -> Option<Seq<char>> {
    let (b, e) = file_name_bounds(s, p);
    let d = dot_pos(s, b, e);
    if !has_file_name(s, p) || d <= b {
        None
    } else {
        Some(s.subrange(d + 1, e))
    }
}

/// `s` with `.ext` added to its final component (trailing separators dropped).
pub open spec fn with_extension_spec(s: Seq<char>, ext: Seq<char>, p: Platform) -> Seq<char> {
    s.subrange(0, trim_len(s, p)) + seq!['.'] + ext
}

/// Whether `c` separates path components on `platform`.
pub fn is_separator(c: char, platform: Platform) -> (r: bool)
    ensures
        r == is_sep(c, platform),
{
    c == '/' || (platform == Platform::Windows && c == '\\')
}

/// `name` appended to `dir` as a further component.
pub fn join_path(dir: &str, name: &str, platform: Platform) -> (r: String)
    ensures
        r@ == join_spec(dir@, name@, platform),
{
    let n = dir.unicode_len();
    let mut out = dir.to_string();
    if n == 0 || is_separator(dir.get_char(n - 1), platform) {
        out.append(name);
        return out;
    }
    proof {
        reveal_strlit("\\");
        reveal_strlit("/");
    }
    if platform == Platform::Windows {
        out.append("\\");
    } else {
        out.append("/");
    }
    out.append(name);
    out
}

/// Bounds of the final component of `s`.
pub fn file_name_range(s: &str, platform: Platform) -> (r: (usize, usize))
    ensures
        r.0 as int == file_name_bounds(s@, platform).0,
        r.1 as int == file_name_bounds(s@, platform).1,
        r.0 <= r.1 <= s@.len(),
{
    let n = s.unicode_len();
    let mut e = n;
    assert(s@.subrange(0, n as int) =~= s@);
    while e > 0 && is_separator(s.get_char(e - 1), platform)
        invariant
            e <= n == s@.len(),
            trim_len(s@.subrange(0, e as int), platform) == trim_len(s@, platform),
        decreases e,
    {
        assert(s@.subrange(0, e as int).drop_last() =~= s@.subrange(0, e - 1));
        e = e - 1;
    }
    let mut b = e;
    while b > 0 && !is_separator(s.get_char(b - 1), platform)
        invariant
            b <= e <= n == s@.len(),
            comp_start(s@, b as int, platform) == comp_start(s@, e as int, platform),
        decreases b,
    {
        b = b - 1;
    }
    (b, e)
}

/// Whether the final component of `s` has an extension.
pub fn has_extension(s: &str, platform: Platform) -> (r: bool)
    ensures
        r == (extension_of(s@, platform) is Some),
{
    extension(s, platform).is_some()
}

/// Whether the final component of `s` can name a file.
pub fn file_name_present(s: &str, platform: Platform) -> (r: bool)
    ensures
        r == has_file_name(s@, platform),
{
    let (b, e) = file_name_range(s, platform);
    if b == e {
        return false;
    }
    if e - b == 2 && s.get_char(b) == '.' && s.get_char(b + 1) == '.' {
        assert(s@.subrange(b as int, e as int) =~= seq!['.', '.']);
        return false;
    }
    proof {
        let dd = seq!['.', '.'];
        let f = s@.subrange(b as int, e as int);
        if f == dd {
            assert(f.len() == dd.len());
            assert(f[0] == dd[0]);
            assert(f[1] == dd[1]);
        }
    }
    true
}

/// The extension of the final component of `s`, if it has one.
pub fn extension(s: &str, platform: Platform) -> (r: Option<String>)
    ensures
        match r {
            Some(x) => extension_of(s@, platform) == Some(x@),
            None => extension_of(s@, platform) is None,
        },
{
    if !file_name_present(s, platform) {
        return None;
    }
    let (b, e) = file_name_range(s, platform);
    let mut d = e;
    while d > b && s.get_char(d - 1) != '.'
        invariant
            b <= d <= e <= s@.len(),
            dot_pos(s@, b as int, d as int) == dot_pos(s@, b as int, e as int),
        decreases d,
    {
        d = d - 1;
    }
    if d <= b + 1 {
        return None;
    }
    Some(s.substring_char(d, e).to_string())
}

/// `s` with `.ext` added to its final component.
pub fn with_extension(s: &str, ext: &str, platform: Platform) -> (r: String)
    ensures
        r@ == with_extension_spec(s@, ext@, platform),
{
    let (_b, e) = file_name_range(s, platform);
    proof {
        reveal_strlit(".");
    }
    let mut out = s.substring_char(0, e).to_string();
    out.append(".");
    out.append(ext);
    out
}

} // verus!
