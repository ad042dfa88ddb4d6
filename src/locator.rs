//! Finding executables: along the search path, in a versioned toolbox tree,
//! and under fixed vendor installation roots.
use vstd::prelude::*;
use crate::paths::{extension_of, has_extension, join_path, join_spec, Platform};
use crate::probe::{found, listed, probe_file, probe_listing, stable_listing, stable_probe};
use crate::text::{concat2, strs};

verus! {

/// The first path of `cands` that `f` reports as a file.
pub open spec fn first_found<F: Fn(String) -> bool>(cands: Seq<Seq<char>>, f: F) -> Option<
    Seq<char>,
>
    decreases cands.len(),
{
    if cands.len() == 0 {
        None
    } else if found(f, cands[0]) {
        Some(cands[0])
    } else {
        first_found(cands.skip(1), f)
    }
}

/// The view of an optional string.
pub open spec fn opt_view(o: Option<String>) -> Option<Seq<char>> {
    match o {
        Some(s) => Some(s@),
        None => None,
    }
}

/// The first candidate that `is_file` reports as a file.
pub fn first_existing<F: Fn(String) -> bool>(cands: &Vec<String>, is_file: &F) -> (r: Option<
    String,
>)
    requires
        stable_probe(*is_file),
    ensures
        opt_view(r) == first_found(strs(cands@), *is_file),
{
    let mut i: usize = 0;
    assert(strs(cands@).skip(0) =~= strs(cands@));
    while i < cands.len()
        invariant
            stable_probe(*is_file),
            i <= cands@.len(),
            first_found(strs(cands@).skip(i as int), *is_file) == first_found(
                strs(cands@),
                *is_file,
            ),
        decreases cands@.len() - i,
    {
        assert(strs(cands@).skip(i as int).skip(1) =~= strs(cands@).skip(i + 1));
        if probe_file(is_file, &cands[i]) {
            return Some(cands[i].clone());
        }
        i = i + 1;
    }
    None
}

/// ".exe", ".cmd" and ".bat" forms of a command name.
pub open spec fn suffixed(cmd: Seq<char>) -> Seq<Seq<char>> {
    seq![cmd + seq!['.', 'e', 'x', 'e'], cmd + seq!['.', 'c', 'm', 'd'], cmd + seq!['.', 'b', 'a', 't']]
}

/// The paths tried in one search-path directory: the name itself, then on
/// Windows, for a name without extension, its ".exe", ".cmd" and ".bat" forms.
pub open spec fn dir_candidates(dir: Seq<char>, cmd: Seq<char>, p: Platform) -> Seq<Seq<char>> {
    if p == Platform::Windows && extension_of(cmd, p) is None {
        seq![
            join_spec(dir, cmd, p),
            join_spec(dir, suffixed(cmd)[0], p),
            join_spec(dir, suffixed(cmd)[1], p),
            join_spec(dir, suffixed(cmd)[2], p),
        ]
    } else {
        seq![join_spec(dir, cmd, p)]
    }
}

/// Every path tried for `cmd` along the search path `dirs`, in order.
pub open spec fn path_candidates(dirs: Seq<Seq<char>>, cmd: Seq<char>, p: Platform) -> Seq<
    Seq<char>,
>
    decreases dirs.len(),
{
    if dirs.len() == 0 {
        seq![]
    } else {
        dir_candidates(dirs[0], cmd, p) + path_candidates(dirs.skip(1), cmd, p)
    }
}

/// Every path tried for `command` along the search path `dirs`, in order.
pub fn search_path_candidates(dirs: &Vec<String>, command: &str, platform: Platform) -> (r: Vec<
    String,
>)
    ensures
        strs(r@) == path_candidates(strs(dirs@), command@, platform),
{
    proof {
        reveal_strlit(".exe");
        reveal_strlit(".cmd");
        reveal_strlit(".bat");
    }
    assert(".exe"@ =~= seq!['.', 'e', 'x', 'e']);
    assert(".cmd"@ =~= seq!['.', 'c', 'm', 'd']);
    assert(".bat"@ =~= seq!['.', 'b', 'a', 't']);
    let with_ext = has_extension(command, platform);
    let ghost d = strs(dirs@);
    let mut out: Vec<String> = Vec::new();
    let mut i: usize = 0;
    assert(d.skip(0) =~= d);
    assert(strs(out@) + path_candidates(d, command@, platform) =~= path_candidates(d, command@, platform));
    while i < dirs.len()
        invariant
            d == strs(dirs@),
            with_ext == (extension_of(command@, platform) is Some),
            ".exe"@ == seq!['.', 'e', 'x', 'e'],
            ".cmd"@ == seq!['.', 'c', 'm', 'd'],
            ".bat"@ == seq!['.', 'b', 'a', 't'],
            i <= dirs@.len(),
            strs(out@) + path_candidates(d.skip(i as int), command@, platform) == path_candidates(
                d,
                command@,
                platform,
            ),
        decreases dirs@.len() - i,
    {
        let ghost prev = strs(out@);
        let dir = dirs[i].as_str();
        assert(d.skip(i as int).skip(1) =~= d.skip(i + 1));
        assert(d.skip(i as int)[0] == dir@);
        out.push(join_path(dir, command, platform));
        if platform == Platform::Windows && !with_ext {
            out.push(join_path(dir, concat2(command, ".exe").as_str(), platform));
            out.push(join_path(dir, concat2(command, ".cmd").as_str(), platform));
            out.push(join_path(dir, concat2(command, ".bat").as_str(), platform));
        }
        assert(strs(out@) =~= prev + dir_candidates(dir@, command@, platform));
        assert(strs(out@) + path_candidates(d.skip(i + 1), command@, platform) =~= path_candidates(
            d,
            command@,
            platform,
        ));
        i = i + 1;
    }
    assert(path_candidates(d.skip(dirs@.len() as int), command@, platform) =~= seq![]);
    assert(strs(out@) + seq![] =~= strs(out@));
    out
}

/// The first file found for `command` along the search path `dirs`.
pub fn find_in_path<F: Fn(String) -> bool>(
    dirs: &Vec<String>,
    command: &str,
    platform: Platform,
    is_file: &F,
) -> (r: Option<String>)
    requires
        stable_probe(*is_file),
    ensures
        opt_view(r) == first_found(path_candidates(strs(dirs@), command@, platform), *is_file),
{
    let cands = search_path_candidates(dirs, command, platform);
    first_existing(&cands, is_file)
}

/// Along a search path `[a, b]`, a command present in `a` is taken from `a`,
/// whatever `b` holds.
pub proof fn lemma_earlier_directory_wins<F: Fn(String) -> bool>(
    a: Seq<char>,
    b: Seq<char>,
    cmd: Seq<char>,
    p: Platform,
    f: F,
)
    requires
        found(f, join_spec(a, cmd, p)),
    ensures
        first_found(path_candidates(seq![a, b], cmd, p), f) == Some(join_spec(a, cmd, p)),
{
    let dirs = seq![a, b];
    assert(dirs[0] == a);
    let c = path_candidates(dirs, cmd, p);
    assert(c == dir_candidates(a, cmd, p) + path_candidates(dirs.skip(1), cmd, p));
    assert(c[0] == join_spec(a, cmd, p));
}

/// Strict lexicographic order of character sequences, by code point.
pub open spec fn lex_lt(a: Seq<char>, b: Seq<char>) -> bool
    decreases a.len(),
{
    if a.len() == 0 {
        b.len() > 0
    } else if b.len() == 0 {
        false
    } else if a[0] != b[0] {
        a[0] < b[0]
    } else {
        lex_lt(a.skip(1), b.skip(1))
    }
}

/// No sequence comes before itself.
pub proof fn lemma_lex_irreflexive(a: Seq<char>)
    ensures
        !lex_lt(a, a),
    decreases a.len(),
{
    if a.len() > 0 {
        lemma_lex_irreflexive(a.skip(1));
    }
}

/// The lexicographic order is transitive.
pub proof fn lemma_lex_transitive(a: Seq<char>, b: Seq<char>, c: Seq<char>)
    requires
        lex_lt(a, b),
        lex_lt(b, c),
    ensures
        lex_lt(a, c),
    decreases a.len(),
{
    if a.len() > 0 && b.len() > 0 && c.len() > 0 && a[0] == b[0] && b[0] == c[0] {
        lemma_lex_transitive(a.skip(1), b.skip(1), c.skip(1));
    }
}

/// The lexicographically greatest of a non-empty sequence of names (the last
/// of the greatest, should two be equal).
pub open spec fn max_lex(s: Seq<Seq<char>>) -> Seq<char>
    decreases s.len(),
{
    if s.len() <= 1 {
        s[0]
    } else {
        let m = max_lex(s.drop_last());
        if lex_lt(s.last(), m) {
            m
        } else {
            s.last()
        }
    }
}

/// The greatest name is one of the names, and no name comes after it.
pub proof fn lemma_max_lex_is_greatest(s: Seq<Seq<char>>)
    requires
        s.len() > 0,
    ensures
        s.contains(max_lex(s)),
        forall|i: int| 0 <= i < s.len() ==> !lex_lt(max_lex(s), #[trigger] s[i]),
    decreases s.len(),
{
    if s.len() == 1 {
        lemma_lex_irreflexive(s[0]);
        assert(s[0] == s[0]);
        assert(s.contains(s[0]));
    } else {
        let t = s.drop_last();
        lemma_max_lex_is_greatest(t);
        let m = max_lex(t);
        lemma_lex_irreflexive(s.last());
        if lex_lt(s.last(), m) {
            let k = choose|k: int| 0 <= k < t.len() && t[k] == m;
            assert(s[k] == m);
            assert forall|i: int| 0 <= i < s.len() implies !lex_lt(m, #[trigger] s[i]) by {
                if i < s.len() - 1 {
                    assert(s[i] == t[i]);
                } else {
                    if lex_lt(m, s[i]) {
                        lemma_lex_transitive(m, s.last(), m);
                        lemma_lex_irreflexive(m);
                    }
                }
            }
        } else {
            assert(s[s.len() - 1] == s.last());
            assert forall|i: int| 0 <= i < s.len() implies !lex_lt(s.last(), #[trigger] s[i]) by {
                if i < s.len() - 1 {
                    assert(s[i] == t[i]);
                    assert(!lex_lt(m, t[i]));
                    if lex_lt(s.last(), s[i]) {
                        if lex_lt(m, s.last()) {
                            lemma_lex_transitive(m, s.last(), s[i]);
                        } else {
                            lemma_lex_total(m, s.last());
                            lemma_lex_transitive(s.last(), s[i], s.last());
                            assert(false) by {
                                lemma_lex_irreflexive(s.last());
                                if m != s.last() {
                                    lemma_lex_transitive(s.last(), m, s.last());
                                }
                            }
                        }
                    }
                }
            }
        }
    }
}

/// Of two different sequences one comes before the other.
pub proof fn lemma_lex_total(a: Seq<char>, b: Seq<char>)
    ensures
        a == b || lex_lt(a, b) || lex_lt(b, a),
    decreases a.len(),
{
    if a.len() > 0 && b.len() > 0 && a[0] == b[0] {
        lemma_lex_total(a.skip(1), b.skip(1));
        if a.skip(1) == b.skip(1) {
            assert(a =~= seq![a[0]] + a.skip(1));
            assert(b =~= seq![b[0]] + b.skip(1));
        }
    } else if a.len() == 0 && b.len() == 0 {
        assert(a =~= b);
    }
}

/// Whether `a` comes strictly before `b` lexicographically.
pub fn lex_less(a: &str, b: &str) -> (r: bool)
    ensures
        r == lex_lt(a@, b@),
{
    let n = a.unicode_len();
    let m = b.unicode_len();
    let mut i: usize = 0;
    assert(a@.skip(0) =~= a@);
    assert(b@.skip(0) =~= b@);
    while i < n && i < m && a.get_char(i) == b.get_char(i)
        invariant
            n == a@.len(),
            m == b@.len(),
            i <= n,
            i <= m,
            lex_lt(a@.skip(i as int), b@.skip(i as int)) == lex_lt(a@, b@),
        decreases n - i,
    {
        assert(a@.skip(i as int).skip(1) =~= a@.skip(i + 1));
        assert(b@.skip(i as int).skip(1) =~= b@.skip(i + 1));
        i = i + 1;
    }
    if i == n {
        return i < m;
    }
    if i == m {
        return false;
    }
    a.get_char(i) < b.get_char(i)
}

/// The latest build among version directory names: the lexicographically
/// greatest. This is string order, not version order ("1.9" comes after
/// "1.10").
pub fn latest_build(names: &Vec<String>) -> (r: Option<String>)
    ensures
        names@.len() == 0 ==> r is None,
        names@.len() > 0 ==> r is Some && r->0@ == max_lex(strs(names@)),
        r is Some ==> strs(names@).contains(r->0@),
        r is Some ==> forall|i: int|
            0 <= i < names@.len() ==> !lex_lt(r->0@, #[trigger] strs(names@)[i]),
{
    if names.len() == 0 {
        return None;
    }
    let ghost s = strs(names@);
    let mut best = names[0].clone();
    let mut i: usize = 1;
    assert(s.subrange(0, 1) =~= seq![s[0]]);
    while i < names.len()
        invariant
            s == strs(names@),
            1 <= i <= names@.len(),
            best@ == max_lex(s.subrange(0, i as int)),
        decreases names@.len() - i,
    {
        assert(s.subrange(0, i + 1).drop_last() =~= s.subrange(0, i as int));
        if !lex_less(names[i].as_str(), best.as_str()) {
            best = names[i].clone();
        }
        i = i + 1;
    }
    assert(s.subrange(0, names@.len() as int) =~= s);
    proof {
        lemma_max_lex_is_greatest(s);
    }
    Some(best)
}

/// `dir\name\bin\exe`.
pub open spec fn exe_under(dir: Seq<char>, name: Seq<char>, exe: Seq<char>) -> Seq<char> {
    join_spec(
        join_spec(join_spec(dir, name, Platform::Windows), "bin"@, Platform::Windows),
        exe,
        Platform::Windows,
    )
}

/// `dir\name\bin\exe`.
pub fn exe_path_under(dir: &str, name: &str, exe: &str) -> (r: String)
    ensures
        r@ == exe_under(dir@, name@, exe@),
{
    let d = join_path(dir, name, Platform::Windows);
    let b = join_path(d.as_str(), "bin", Platform::Windows);
    join_path(b.as_str(), exe, Platform::Windows)
}

/// The channel folder of a product in the toolbox tree under `local`.
pub open spec fn toolbox_channel(local: Seq<char>, code: Seq<char>) -> Seq<char> {
    let w = Platform::Windows;
    join_spec(
        join_spec(
            join_spec(join_spec(join_spec(local, "JetBrains"@, w), "Toolbox"@, w), "apps"@, w),
            code,
            w,
        ),
        "ch-0"@,
        w,
    )
}

/// The names among `names` whose directory under `base` holds `bin\exe`.
pub open spec fn builds_with_exe<F: Fn(String) -> bool>(
    base: Seq<char>,
    names: Seq<Seq<char>>,
    exe: Seq<char>,
    f: F,
) -> Seq<Seq<char>>
    decreases names.len(),
{
    if names.len() == 0 {
        seq![]
    } else {
        let r = builds_with_exe(base, names.drop_last(), exe, f);
        if found(f, exe_under(base, names.last(), exe)) {
            r.push(names.last())
        } else {
            r
        }
    }
}

/// The executable of the latest toolbox build of a product, if any.
pub open spec fn toolbox_exe<F: Fn(String) -> bool, L: Fn(String) -> Vec<String>>(
    local: Option<Seq<char>>,
    code: Seq<char>,
    exe: Seq<char>,
    l: L,
    f: F,
) -> Option<Seq<char>> {
    match local {
        None => None,
        Some(loc) => {
            let base = toolbox_channel(loc, code);
            let builds = builds_with_exe(base, listed(l, base), exe, f);
            if builds.len() == 0 {
                None
            } else {
                let p = exe_under(base, max_lex(builds), exe);
                if found(f, p) {
                    Some(p)
                } else {
                    None
                }
            }
        },
    }
}

/// The executable of the latest build of a product in the toolbox tree under
/// the local application data folder.
pub fn find_jetbrains_toolbox_exe<F: Fn(String) -> bool, L: Fn(String) -> Vec<String>>(
    local_app_data: &Option<String>,
    product_code: &str,
    exe_name: &str,
    list_dirs: &L,
    is_file: &F,
) -> (r: Option<String>)
    requires
        stable_probe(*is_file),
        stable_listing(*list_dirs),
    ensures
        opt_view(r) == toolbox_exe(opt_view(*local_app_data), product_code@, exe_name@, *list_dirs, *is_file),
{
    let local = match local_app_data {
        Some(l) => l,
        None => return None,
    };
    let w = Platform::Windows;
    let b1 = join_path(local.as_str(), "JetBrains", w);
    let b2 = join_path(b1.as_str(), "Toolbox", w);
    let b3 = join_path(b2.as_str(), "apps", w);
    let b4 = join_path(b3.as_str(), product_code, w);
    let base = join_path(b4.as_str(), "ch-0", w);
    let entries = probe_listing(list_dirs, &base);
    let ghost names = strs(entries@);
    let mut builds: Vec<String> = Vec::new();
    let mut i: usize = 0;
    while i < entries.len()
        invariant
            stable_probe(*is_file),
            names == strs(entries@),
            i <= entries@.len(),
            strs(builds@) == builds_with_exe(base@, names.subrange(0, i as int), exe_name@, *is_file),
        decreases entries@.len() - i,
    {
        assert(names.subrange(0, i + 1).drop_last() =~= names.subrange(0, i as int));
        let candidate = exe_path_under(base.as_str(), entries[i].as_str(), exe_name);
        if probe_file(is_file, &candidate) {
            builds.push(entries[i].clone());
            assert(strs(builds@) =~= builds_with_exe(
                base@,
                names.subrange(0, i as int),
                exe_name@,
                *is_file,
            ).push(names[i as int]));
        }
        i = i + 1;
    }
    assert(names.subrange(0, entries@.len() as int) =~= names);
    let latest = match latest_build(&builds) {
        Some(n) => n,
        None => return None,
    };
    let exe_path = exe_path_under(base.as_str(), latest.as_str(), exe_name);
    if probe_file(is_file, &exe_path) {
        Some(exe_path)
    } else {
        None
    }
}

/// The vendor installation roots, in the order they are searched.
pub open spec fn install_roots(
    program_files: Option<Seq<char>>,
    program_files_x86: Option<Seq<char>>,
    local_app_data: Option<Seq<char>>,
) -> Seq<Seq<char>> {
    let w = Platform::Windows;
    let a = match program_files {
        Some(p) => seq![join_spec(p, "JetBrains"@, w)],
        None => seq![],
    };
    let b = match program_files_x86 {
        Some(p) => seq![join_spec(p, "JetBrains"@, w)],
        None => seq![],
    };
    let c = match local_app_data {
        Some(p) => seq![
            join_spec(p, "JetBrains"@, w),
            join_spec(join_spec(p, "Programs"@, w), "JetBrains"@, w),
        ],
        None => seq![],
    };
    a + b + c
}

/// The executables tried under each root, root by root, subdirectory by
/// subdirectory.
pub open spec fn install_candidates<L: Fn(String) -> Vec<String>>(
    roots: Seq<Seq<char>>,
    exe: Seq<char>,
    l: L,
) -> Seq<Seq<char>>
    decreases roots.len(),
{
    if roots.len() == 0 {
        seq![]
    } else {
        listed(l, roots[0]).map_values(|e: Seq<char>| exe_under(roots[0], e, exe))
            + install_candidates(roots.skip(1), exe, l)
    }
}

/// The vendor installation roots, in the order they are searched.
pub fn jetbrains_install_roots(
    program_files: &Option<String>,
    program_files_x86: &Option<String>,
    local_app_data: &Option<String>,
) -> (r: Vec<String>)
    ensures
        strs(r@) == install_roots(
            opt_view(*program_files),
            opt_view(*program_files_x86),
            opt_view(*local_app_data),
        ),
{
    let w = Platform::Windows;
    let mut roots: Vec<String> = Vec::new();
    if let Some(p) = program_files {
        roots.push(join_path(p.as_str(), "JetBrains", w));
    }
    if let Some(p) = program_files_x86 {
        roots.push(join_path(p.as_str(), "JetBrains", w));
    }
    if let Some(p) = local_app_data {
        roots.push(join_path(p.as_str(), "JetBrains", w));
        let programs = join_path(p.as_str(), "Programs", w);
        roots.push(join_path(programs.as_str(), "JetBrains", w));
    }
    assert(strs(roots@) =~= install_roots(
        opt_view(*program_files),
        opt_view(*program_files_x86),
        opt_view(*local_app_data),
    ));
    roots
}

/// The first `bin\exe` found in a subdirectory of one of `roots`.
pub fn find_jetbrains_in_roots<F: Fn(String) -> bool, L: Fn(String) -> Vec<String>>(
    roots: &Vec<String>,
    exe_name: &str,
    list_dirs: &L,
    is_file: &F,
) -> (r: Option<String>)
    requires
        stable_probe(*is_file),
        stable_listing(*list_dirs),
    ensures
        opt_view(r) == first_found(install_candidates(strs(roots@), exe_name@, *list_dirs), *is_file),
{
    let ghost d = strs(roots@);
    let mut cands: Vec<String> = Vec::new();
    let mut i: usize = 0;
    assert(d.skip(0) =~= d);
    assert(strs(cands@) + install_candidates(d, exe_name@, *list_dirs) =~= install_candidates(
        d,
        exe_name@,
        *list_dirs,
    ));
    while i < roots.len()
        invariant
            stable_listing(*list_dirs),
            d == strs(roots@),
            i <= roots@.len(),
            strs(cands@) + install_candidates(d.skip(i as int), exe_name@, *list_dirs)
                == install_candidates(d, exe_name@, *list_dirs),
        decreases roots@.len() - i,
    {
        let root = roots[i].as_str();
        assert(d.skip(i as int).skip(1) =~= d.skip(i + 1));
        assert(d.skip(i as int)[0] == root@);
        let entries = probe_listing(list_dirs, &roots[i]);
        let ghost prev = strs(cands@);
        let ghost mapped = strs(entries@).map_values(|e: Seq<char>| exe_under(root@, e, exe_name@));
        let mut j: usize = 0;
        while j < entries.len()
            invariant
                j <= entries@.len(),
                mapped == strs(entries@).map_values(|e: Seq<char>| exe_under(root@, e, exe_name@)),
                strs(cands@) =~= prev + mapped.subrange(0, j as int),
            decreases entries@.len() - j,
        {
            let ghost before = cands@;
            let c = exe_path_under(root, entries[j].as_str(), exe_name);
            cands.push(c);
            assert(mapped[j as int] == c@);
            assert(strs(cands@) =~= strs(before).push(c@));
            assert(strs(cands@) =~= prev + mapped.subrange(0, j + 1));
            j = j + 1;
        }
        assert(mapped.subrange(0, entries@.len() as int) =~= mapped);
        assert(strs(cands@) + install_candidates(d.skip(i + 1), exe_name@, *list_dirs) =~= install_candidates(
            d,
            exe_name@,
            *list_dirs,
        ));
        i = i + 1;
    }
    assert(install_candidates(d.skip(roots@.len() as int), exe_name@, *list_dirs) =~= seq![]);
    assert(strs(cands@) + seq![] =~= strs(cands@));
    first_existing(&cands, is_file)
}

/// Every `root\suffix`, root by root, suffix by suffix.
pub open spec fn rooted_candidates(roots: Seq<Seq<char>>, suffixes: Seq<Seq<char>>) -> Seq<Seq<char>>
    decreases roots.len(),
{
    if roots.len() == 0 {
        seq![]
    } else {
        suffixes.map_values(|x: Seq<char>| join_spec(roots[0], x, Platform::Windows))
            + rooted_candidates(roots.skip(1), suffixes)
    }
}

/// The first `root\suffix` that is a file, root by root.
pub fn find_windows_path<F: Fn(String) -> bool>(
    roots: &Vec<String>,
    suffixes: &Vec<String>,
    is_file: &F,
) -> (r: Option<String>)
    requires
        stable_probe(*is_file),
    ensures
        opt_view(r) == first_found(rooted_candidates(strs(roots@), strs(suffixes@)), *is_file),
{
    let ghost d = strs(roots@);
    let ghost sx = strs(suffixes@);
    let mut cands: Vec<String> = Vec::new();
    let mut i: usize = 0;
    assert(d.skip(0) =~= d);
    assert(strs(cands@) + rooted_candidates(d, sx) =~= rooted_candidates(d, sx));
    while i < roots.len()
        invariant
            d == strs(roots@),
            sx == strs(suffixes@),
            i <= roots@.len(),
            strs(cands@) + rooted_candidates(d.skip(i as int), sx) == rooted_candidates(d, sx),
        decreases roots@.len() - i,
    {
        let root = roots[i].as_str();
        assert(d.skip(i as int).skip(1) =~= d.skip(i + 1));
        assert(d.skip(i as int)[0] == root@);
        let ghost prev = strs(cands@);
        let ghost mapped = sx.map_values(|x: Seq<char>| join_spec(root@, x, Platform::Windows));
        let mut j: usize = 0;
        while j < suffixes.len()
            invariant
                j <= suffixes@.len(),
                sx == strs(suffixes@),
                mapped == sx.map_values(|x: Seq<char>| join_spec(root@, x, Platform::Windows)),
                strs(cands@) =~= prev + mapped.subrange(0, j as int),
            decreases suffixes@.len() - j,
        {
            let ghost before = cands@;
            let c = join_path(root, suffixes[j].as_str(), Platform::Windows);
            cands.push(c);
            assert(mapped[j as int] == c@);
            assert(strs(cands@) =~= strs(before).push(c@));
            assert(strs(cands@) =~= prev + mapped.subrange(0, j + 1));
            j = j + 1;
        }
        assert(mapped.subrange(0, suffixes@.len() as int) =~= mapped);
        assert(strs(cands@) + rooted_candidates(d.skip(i + 1), sx) =~= rooted_candidates(d, sx));
        i = i + 1;
    }
    assert(rooted_candidates(d.skip(roots@.len() as int), sx) =~= seq![]);
    assert(strs(cands@) + seq![] =~= strs(cands@));
    first_existing(&cands, is_file)
}

} // verus!
