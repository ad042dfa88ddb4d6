//! Discovery of installed developer tools ("presets"), one strategy per
//! platform, over a fixed catalog: the code editor and its pre-release
//! channel, then eight IDEs.
use vstd::prelude::*;
use crate::args::placeholder;
use crate::locator::{
    find_in_path, find_jetbrains_in_roots, find_jetbrains_toolbox_exe, find_windows_path,
    first_found, install_candidates, install_roots, jetbrains_install_roots, opt_view,
    path_candidates, rooted_candidates, toolbox_exe,
};
use crate::paths::{join_path, join_spec, Platform};
use crate::probe::{found, probe_file, stable_listing, stable_probe};
use crate::text::{contains_str, lower_of, lowercase, seq_contains, strs};

verus! {

/// A ready-to-invoke description of an installed tool.
pub struct DevToolPreset {
    pub id: String,
    pub name: String,
    pub command_path: String,
    pub arguments: Vec<String>,
}

/// What a preset holds, as character sequences.
pub struct PresetView {
    pub id: Seq<char>,
    pub name: Seq<char>,
    pub command_path: Seq<char>,
    pub arguments: Seq<Seq<char>>,
}

impl View for DevToolPreset {
    type V = PresetView;

    open spec fn view(&self) -> PresetView {
        PresetView {
            id: self.id@,
            name: self.name@,
            command_path: self.command_path@,
            arguments: strs(self.arguments@),
        }
    }
}

/// The views of a sequence of presets.
pub open spec fn views(v: Seq<DevToolPreset>) -> Seq<PresetView> {
    v.map_values(|p: DevToolPreset| p@)
}

/// What the probes see: the search path and, on Windows, the installation
/// variables (`ProgramFiles`, `ProgramFiles(x86)`, `LOCALAPPDATA`).
pub struct ProbeEnv {
    pub path_dirs: Vec<String>,
    pub program_files: Option<String>,
    pub program_files_x86: Option<String>,
    pub local_app_data: Option<String>,
}

/// A preset that runs `command_path` with the target path as sole argument.
pub open spec fn direct_preset(id: Seq<char>, name: Seq<char>, command_path: Seq<char>) -> PresetView {
    PresetView { id, name, command_path, arguments: seq![placeholder()] }
}

/// `acc` with a direct preset added when `found` holds a path.
pub open spec fn add_found(
    acc: Seq<PresetView>,
    id: Seq<char>,
    name: Seq<char>,
    found_path: Option<Seq<char>>,
) -> Seq<PresetView> {
    match found_path {
        Some(p) => acc.push(direct_preset(id, name, p)),
        None => acc,
    }
}

/// A preset that runs `command_path` with the target path as sole argument.
pub fn direct_tool_preset(id: &str, name: &str, command_path: String) -> (r: DevToolPreset)
    ensures
        r@ == direct_preset(id@, name@, command_path@),
{
    proof {
        reveal_strlit("{path}");
    }
    assert("{path}"@ =~= placeholder());
    let mut arguments: Vec<String> = Vec::new();
    arguments.push("{path}".to_string());
    assert(strs(arguments@) =~= seq![placeholder()]);
    DevToolPreset { id: id.to_string(), name: name.to_string(), command_path, arguments }
}

/// Appends a direct preset when a path was found.
pub fn push_found(
    presets: &mut Vec<DevToolPreset>,
    id: &str,
    name: &str,
    found_path: Option<String>,
)
    ensures
        views(final(presets)@) == add_found(views(old(presets)@), id@, name@, opt_view(found_path)),
{
    if let Some(p) = found_path {
        let preset = direct_tool_preset(id, name, p);
        presets.push(preset);
        assert(views(presets@) =~= views(old(presets)@).push(preset@));
    } else {
        assert(views(presets@) =~= views(old(presets)@));
    }
}

// ---------------------------------------------------------------- Linux

/// The search-path hit for `cmd` on Linux.
pub open spec fn linux_hit<F: Fn(String) -> bool>(
    dirs: Seq<Seq<char>>,
    cmd: &str,
    f: F,
) -> Option<Seq<char>> {
    first_found(path_candidates(dirs, cmd@, Platform::Linux), f)
}

/// The presets found along the search path, in catalog order.
pub open spec fn linux_presets<F: Fn(String) -> bool>(dirs: Seq<Seq<char>>, f: F) -> Seq<
    PresetView,
> {
    let s0 = Seq::<PresetView>::empty();
    let s1 = add_found(s0, "vscode"@, "Visual Studio Code"@, linux_hit(dirs, "code", f));
    let s2 = add_found(
        s1,
        "vscode-insiders"@,
        "Visual Studio Code - Insiders"@,
        linux_hit(dirs, "code-insiders", f),
    );
    let s3 = add_found(s2, "intellij-idea"@, "IntelliJ IDEA"@, linux_hit(dirs, "idea", f));
    let s4 = add_found(s3, "webstorm"@, "WebStorm"@, linux_hit(dirs, "webstorm", f));
    let s5 = add_found(s4, "pycharm"@, "PyCharm"@, linux_hit(dirs, "pycharm", f));
    let s6 = add_found(s5, "goland"@, "GoLand"@, linux_hit(dirs, "goland", f));
    let s7 = add_found(s6, "rider"@, "Rider"@, linux_hit(dirs, "rider", f));
    let s8 = add_found(s7, "clion"@, "CLion"@, linux_hit(dirs, "clion", f));
    let s9 = add_found(s8, "phpstorm"@, "PhpStorm"@, linux_hit(dirs, "phpstorm", f));
    add_found(s9, "datagrip"@, "DataGrip"@, linux_hit(dirs, "datagrip", f))
}

/// Appends the preset for `command` when it is on the search path.
pub fn add_linux_preset<F: Fn(String) -> bool>(
    presets: &mut Vec<DevToolPreset>,
    dirs: &Vec<String>,
    id: &str,
    name: &str,
    command: &str,
    is_file: &F,
)
    requires
        stable_probe(*is_file),
    ensures
        views(final(presets)@) == add_found(
            views(old(presets)@),
            id@,
            name@,
            first_found(path_candidates(strs(dirs@), command@, Platform::Linux), *is_file),
        ),
{
    let hit = find_in_path(dirs, command, Platform::Linux, is_file);
    push_found(presets, id, name, hit);
}

/// The tools found along the search path, in catalog order.
pub fn list_dev_tool_presets_linux<F: Fn(String) -> bool>(dirs: &Vec<String>, is_file: &F) -> (r:
    Vec<DevToolPreset>)
    requires
        stable_probe(*is_file),
    ensures
        views(r@) == linux_presets(strs(dirs@), *is_file),
{
    let mut presets: Vec<DevToolPreset> = Vec::new();
    assert(views(presets@) =~= Seq::<PresetView>::empty());
    add_linux_preset(&mut presets, dirs, "vscode", "Visual Studio Code", "code", is_file);
    add_linux_preset(
        &mut presets,
        dirs,
        "vscode-insiders",
        "Visual Studio Code - Insiders",
        "code-insiders",
        is_file,
    );
    add_linux_preset(&mut presets, dirs, "intellij-idea", "IntelliJ IDEA", "idea", is_file);
    add_linux_preset(&mut presets, dirs, "webstorm", "WebStorm", "webstorm", is_file);
    add_linux_preset(&mut presets, dirs, "pycharm", "PyCharm", "pycharm", is_file);
    add_linux_preset(&mut presets, dirs, "goland", "GoLand", "goland", is_file);
    add_linux_preset(&mut presets, dirs, "rider", "Rider", "rider", is_file);
    add_linux_preset(&mut presets, dirs, "clion", "CLion", "clion", is_file);
    add_linux_preset(&mut presets, dirs, "phpstorm", "PhpStorm", "phpstorm", is_file);
    add_linux_preset(&mut presets, dirs, "datagrip", "DataGrip", "datagrip", is_file);
    presets
}

// ---------------------------------------------------------------- macOS

/// Where the bundle of application `app` lives.
pub open spec fn bundle_path(app: Seq<char>) -> Seq<char> {
    join_spec("/Applications"@, app + ".app"@, Platform::MacOs)
}

/// A preset that opens the target with application `app`.
pub open spec fn app_preset(id: Seq<char>, name: Seq<char>, app: Seq<char>) -> PresetView {
    PresetView {
        id,
        name,
        command_path: "/usr/bin/open"@,
        arguments: seq!["-a"@, app, placeholder()],
    }
}

/// `acc` with the preset of `app` added when its bundle exists.
pub open spec fn add_app<F: Fn(String) -> bool>(
    acc: Seq<PresetView>,
    id: Seq<char>,
    name: Seq<char>,
    app: Seq<char>,
    f: F,
) -> Seq<PresetView> {
    if found(f, bundle_path(app)) {
        acc.push(app_preset(id, name, app))
    } else {
        acc
    }
}

/// `acc` with the preset of the first of two editions whose bundle exists.
pub open spec fn add_app_or<F: Fn(String) -> bool>(
    acc: Seq<PresetView>,
    id: Seq<char>,
    name: Seq<char>,
    app: Seq<char>,
    alt_name: Seq<char>,
    alt_app: Seq<char>,
    f: F,
) -> Seq<PresetView> {
    if found(f, bundle_path(app)) {
        acc.push(app_preset(id, name, app))
    } else {
        add_app(acc, id, alt_name, alt_app, f)
    }
}

/// The presets of the installed application bundles, in catalog order.
pub open spec fn macos_presets<F: Fn(String) -> bool>(f: F) -> Seq<PresetView> {
    let s0 = Seq::<PresetView>::empty();
    let s1 = add_app(s0, "vscode"@, "Visual Studio Code"@, "Visual Studio Code"@, f);
    let s2 = add_app(
        s1,
        "vscode-insiders"@,
        "Visual Studio Code - Insiders"@,
        "Visual Studio Code - Insiders"@,
        f,
    );
    let s3 = add_app_or(
        s2,
        "intellij-idea"@,
        "IntelliJ IDEA"@,
        "IntelliJ IDEA"@,
        "IntelliJ IDEA Community"@,
        "IntelliJ IDEA CE"@,
        f,
    );
    let s4 = add_app_or(
        s3,
        "pycharm"@,
        "PyCharm"@,
        "PyCharm"@,
        "PyCharm Community"@,
        "PyCharm CE"@,
        f,
    );
    let s5 = add_app(s4, "webstorm"@, "WebStorm"@, "WebStorm"@, f);
    let s6 = add_app(s5, "goland"@, "GoLand"@, "GoLand"@, f);
    let s7 = add_app(s6, "rider"@, "Rider"@, "Rider"@, f);
    let s8 = add_app(s7, "clion"@, "CLion"@, "CLion"@, f);
    let s9 = add_app(s8, "phpstorm"@, "PhpStorm"@, "PhpStorm"@, f);
    add_app(s9, "datagrip"@, "DataGrip"@, "DataGrip"@, f)
}

/// Appends the preset of `app_name` when its bundle exists; says whether it did.
pub fn push_macos_app<F: Fn(String) -> bool>(
    presets: &mut Vec<DevToolPreset>,
    id: &str,
    display_name: &str,
    app_name: &str,
    exists: &F,
) -> (r: bool)
    requires
        stable_probe(*exists),
    ensures
        r == found(*exists, bundle_path(app_name@)),
        views(final(presets)@) == add_app(views(old(presets)@), id@, display_name@, app_name@, *exists),
{
    let bundle = join_path("/Applications", crate::text::concat2(app_name, ".app").as_str(), Platform::MacOs);
    if !probe_file(exists, &bundle) {
        return false;
    }
    let mut arguments: Vec<String> = Vec::new();
    arguments.push("-a".to_string());
    arguments.push(app_name.to_string());
    proof {
        reveal_strlit("{path}");
    }
    assert("{path}"@ =~= placeholder());
    arguments.push("{path}".to_string());
    let preset = DevToolPreset {
        id: id.to_string(),
        name: display_name.to_string(),
        command_path: "/usr/bin/open".to_string(),
        arguments,
    };
    assert(strs(preset.arguments@) =~= seq!["-a"@, app_name@, placeholder()]);
    presets.push(preset);
    assert(views(presets@) =~= views(old(presets)@).push(preset@));
    true
}

/// The tools whose application bundles are installed, in catalog order.
pub fn list_dev_tool_presets_macos<F: Fn(String) -> bool>(exists: &F) -> (r: Vec<DevToolPreset>)
    requires
        stable_probe(*exists),
    ensures
        views(r@) == macos_presets(*exists),
{
    let mut presets: Vec<DevToolPreset> = Vec::new();
    assert(views(presets@) =~= Seq::<PresetView>::empty());
    push_macos_app(&mut presets, "vscode", "Visual Studio Code", "Visual Studio Code", exists);
    push_macos_app(
        &mut presets,
        "vscode-insiders",
        "Visual Studio Code - Insiders",
        "Visual Studio Code - Insiders",
        exists,
    );
    if !push_macos_app(&mut presets, "intellij-idea", "IntelliJ IDEA", "IntelliJ IDEA", exists) {
        push_macos_app(
            &mut presets,
            "intellij-idea",
            "IntelliJ IDEA Community",
            "IntelliJ IDEA CE",
            exists,
        );
    }
    if !push_macos_app(&mut presets, "pycharm", "PyCharm", "PyCharm", exists) {
        push_macos_app(&mut presets, "pycharm", "PyCharm Community", "PyCharm CE", exists);
    }
    push_macos_app(&mut presets, "webstorm", "WebStorm", "WebStorm", exists);
    push_macos_app(&mut presets, "goland", "GoLand", "GoLand", exists);
    push_macos_app(&mut presets, "rider", "Rider", "Rider", exists);
    push_macos_app(&mut presets, "clion", "CLion", "CLion", exists);
    push_macos_app(&mut presets, "phpstorm", "PhpStorm", "PhpStorm", exists);
    push_macos_app(&mut presets, "datagrip", "DataGrip", "DataGrip", exists);
    presets
}

// ---------------------------------------------------------------- Windows

/// `a`, or `b` when `a` holds nothing.
pub open spec fn or_else(a: Option<Seq<char>>, b: Option<Seq<char>>) -> Option<Seq<char>> {
    if a is Some {
        a
    } else {
        b
    }
}

/// The installation variables that are set, in the order they are searched.
pub open spec fn env_roots(env: &ProbeEnv) -> Seq<Seq<char>> {
    let o = |x: Option<String>|
        match x {
            Some(v) => seq![v@],
            None => Seq::<Seq<char>>::empty(),
        };
    o(env.program_files) + o(env.program_files_x86) + o(env.local_app_data)
}

/// The installation variables that are set, in the order they are searched.
pub fn install_variable_roots(env: &ProbeEnv) -> (r: Vec<String>)
    ensures
        strs(r@) == env_roots(env),
{
    let mut roots: Vec<String> = Vec::new();
    if let Some(p) = &env.program_files {
        roots.push(p.clone());
    }
    if let Some(p) = &env.program_files_x86 {
        roots.push(p.clone());
    }
    if let Some(p) = &env.local_app_data {
        roots.push(p.clone());
    }
    assert(strs(roots@) =~= env_roots(env));
    roots
}

/// An editor installed under one of the installation variables, or else on
/// the search path.
pub open spec fn editor_hit<F: Fn(String) -> bool>(
    env: &ProbeEnv,
    suffixes: Seq<Seq<char>>,
    cmd: Seq<char>,
    f: F,
) -> Option<Seq<char>> {
    or_else(
        first_found(rooted_candidates(env_roots(env), suffixes), f),
        first_found(path_candidates(strs(env.path_dirs@), cmd, Platform::Windows), f),
    )
}

/// Where the stable editor channel installs itself under a root.
pub open spec fn vscode_suffixes() -> Seq<Seq<char>> {
    seq!["Microsoft VS Code\\Code.exe"@, "Programs\\Microsoft VS Code\\Code.exe"@]
}

/// Where the pre-release editor channel installs itself under a root.
pub open spec fn vscode_insiders_suffixes() -> Seq<Seq<char>> {
    seq![
        "Microsoft VS Code Insiders\\Code - Insiders.exe"@,
        "Programs\\Microsoft VS Code Insiders\\Code - Insiders.exe"@,
    ]
}

/// The stable editor channel, under an installation root or on the search path.
pub fn find_windows_vscode<F: Fn(String) -> bool>(env: &ProbeEnv, is_file: &F) -> (r: Option<String>)
    requires
        stable_probe(*is_file),
    ensures
        opt_view(r) == editor_hit(env, vscode_suffixes(), "code"@, *is_file),
{
    let roots = install_variable_roots(env);
    let mut suffixes: Vec<String> = Vec::new();
    suffixes.push("Microsoft VS Code\\Code.exe".to_string());
    suffixes.push("Programs\\Microsoft VS Code\\Code.exe".to_string());
    assert(strs(suffixes@) =~= vscode_suffixes());
    match find_windows_path(&roots, &suffixes, is_file) {
        Some(p) => Some(p),
        None => find_in_path(&env.path_dirs, "code", Platform::Windows, is_file),
    }
}

/// The pre-release editor channel, under an installation root or on the
/// search path.
pub fn find_windows_vscode_insiders<F: Fn(String) -> bool>(env: &ProbeEnv, is_file: &F) -> (r:
    Option<String>)
    requires
        stable_probe(*is_file),
    ensures
        opt_view(r) == editor_hit(env, vscode_insiders_suffixes(), "code-insiders"@, *is_file),
{
    let roots = install_variable_roots(env);
    let mut suffixes: Vec<String> = Vec::new();
    suffixes.push("Microsoft VS Code Insiders\\Code - Insiders.exe".to_string());
    suffixes.push("Programs\\Microsoft VS Code Insiders\\Code - Insiders.exe".to_string());
    assert(strs(suffixes@) =~= vscode_insiders_suffixes());
    match find_windows_path(&roots, &suffixes, is_file) {
        Some(p) => Some(p),
        None => find_in_path(&env.path_dirs, "code-insiders", Platform::Windows, is_file),
    }
}

/// An IDE from its toolbox tree, or else from an installation root.
pub open spec fn ide_hit<F: Fn(String) -> bool, L: Fn(String) -> Vec<String>>(
    env: &ProbeEnv,
    code: Seq<char>,
    exe: Seq<char>,
    l: L,
    f: F,
) -> Option<Seq<char>> {
    or_else(
        toolbox_exe(opt_view(env.local_app_data), code, exe, l, f),
        first_found(
            install_candidates(
                install_roots(
                    opt_view(env.program_files),
                    opt_view(env.program_files_x86),
                    opt_view(env.local_app_data),
                ),
                exe,
                l,
            ),
            f,
        ),
    )
}

/// An IDE from its toolbox tree, or else from an installation root.
pub fn find_jetbrains_exe<F: Fn(String) -> bool, L: Fn(String) -> Vec<String>>(
    env: &ProbeEnv,
    product_code: &str,
    exe_name: &str,
    list_dirs: &L,
    is_file: &F,
) -> (r: Option<String>)
    requires
        stable_probe(*is_file),
        stable_listing(*list_dirs),
    ensures
        opt_view(r) == ide_hit(env, product_code@, exe_name@, *list_dirs, *is_file),
{
    match find_jetbrains_toolbox_exe(&env.local_app_data, product_code, exe_name, list_dirs, is_file) {
        Some(p) => Some(p),
        None => {
            let roots = jetbrains_install_roots(
                &env.program_files,
                &env.program_files_x86,
                &env.local_app_data,
            );
            find_jetbrains_in_roots(&roots, exe_name, list_dirs, is_file)
        },
    }
}

/// Appends the preset of an IDE when it is installed.
pub fn add_jetbrains_windows_preset<F: Fn(String) -> bool, L: Fn(String) -> Vec<String>>(
    presets: &mut Vec<DevToolPreset>,
    env: &ProbeEnv,
    id: &str,
    name: &str,
    toolbox_code: &str,
    exe_name: &str,
    list_dirs: &L,
    is_file: &F,
)
    requires
        stable_probe(*is_file),
        stable_listing(*list_dirs),
    ensures
        views(final(presets)@) == add_found(
            views(old(presets)@),
            id@,
            name@,
            ide_hit(env, toolbox_code@, exe_name@, *list_dirs, *is_file),
        ),
{
    let hit = find_jetbrains_exe(env, toolbox_code, exe_name, list_dirs, is_file);
    push_found(presets, id, name, hit);
}

/// The display name for an IDE found at a path whose lower-case form is
/// `lowered`: the community name when `marker` occurs in it.
pub fn edition_name(lowered: &str, marker: &str, community: &str, regular: &str) -> (r: String)
    ensures
        r@ == (if seq_contains(lowered@, marker@) {
            community@
        } else {
            regular@
        }),
{
    if contains_str(lowered, marker) {
        community.to_string()
    } else {
        regular.to_string()
    }
}

/// The display name of an IDE with two editions, read from its path.
pub open spec fn edition_of(path: Seq<char>, marker: Seq<char>, community: Seq<char>, regular: Seq<char>) -> Seq<char> {
    if seq_contains(lower_of(path), marker) {
        community
    } else {
        regular
    }
}

/// `acc` with the preset of a two-edition IDE added when one was found.
pub open spec fn add_edition(
    acc: Seq<PresetView>,
    id: Seq<char>,
    hit: Option<Seq<char>>,
    marker: Seq<char>,
    community: Seq<char>,
    regular: Seq<char>,
) -> Seq<PresetView> {
    match hit {
        Some(p) => acc.push(direct_preset(id, edition_of(p, marker, community, regular), p)),
        None => acc,
    }
}

/// Appends the preset of a two-edition IDE, named by the edition its path
/// shows, when one was found.
pub fn push_edition(
    presets: &mut Vec<DevToolPreset>,
    id: &str,
    hit: Option<String>,
    marker: &str,
    community: &str,
    regular: &str,
)
    ensures
        views(final(presets)@) == add_edition(views(old(presets)@), id@, opt_view(hit), marker@, community@, regular@),
{
    if let Some(p) = hit {
        let lowered = lowercase(p.as_str());
        let name = edition_name(lowered.as_str(), marker, community, regular);
        let preset = direct_tool_preset(id, name.as_str(), p);
        presets.push(preset);
        assert(views(presets@) =~= views(old(presets)@).push(preset@));
    } else {
        assert(views(presets@) =~= views(old(presets)@));
    }
}

/// The presets of the tools installed on Windows, in catalog order.
pub open spec fn windows_presets<F: Fn(String) -> bool, L: Fn(String) -> Vec<String>>(
    env: &ProbeEnv,
    l: L,
    f: F,
) -> Seq<PresetView> {
    let s0 = Seq::<PresetView>::empty();
    let s1 = add_found(s0, "vscode"@, "Visual Studio Code"@, editor_hit(env, vscode_suffixes(), "code"@, f));
    let s2 = add_found(
        s1,
        "vscode-insiders"@,
        "Visual Studio Code - Insiders"@,
        editor_hit(env, vscode_insiders_suffixes(), "code-insiders"@, f),
    );
    let idea = or_else(
        toolbox_exe(opt_view(env.local_app_data), "IDEA-U"@, "idea64.exe"@, l, f),
        ide_hit(env, "IDEA-C"@, "idea64.exe"@, l, f),
    );
    let s3 = add_edition(s2, "intellij-idea"@, idea, "idea-c"@, "IntelliJ IDEA Community"@, "IntelliJ IDEA"@);
    let pycharm = or_else(
        toolbox_exe(opt_view(env.local_app_data), "PyCharm-P"@, "pycharm64.exe"@, l, f),
        ide_hit(env, "PyCharm-C"@, "pycharm64.exe"@, l, f),
    );
    let s4 = add_edition(s3, "pycharm"@, pycharm, "pycharm-c"@, "PyCharm Community"@, "PyCharm"@);
    let s5 = add_found(s4, "webstorm"@, "WebStorm"@, ide_hit(env, "WebStorm"@, "webstorm64.exe"@, l, f));
    let s6 = add_found(s5, "goland"@, "GoLand"@, ide_hit(env, "GoLand"@, "goland64.exe"@, l, f));
    let s7 = add_found(s6, "rider"@, "Rider"@, ide_hit(env, "Rider"@, "rider64.exe"@, l, f));
    let s8 = add_found(s7, "clion"@, "CLion"@, ide_hit(env, "CLion"@, "clion64.exe"@, l, f));
    let s9 = add_found(s8, "phpstorm"@, "PhpStorm"@, ide_hit(env, "PhpStorm"@, "phpstorm64.exe"@, l, f));
    add_found(s9, "datagrip"@, "DataGrip"@, ide_hit(env, "DataGrip"@, "datagrip64.exe"@, l, f))
}

/// The tools installed on Windows, in catalog order.
pub fn list_dev_tool_presets_windows<F: Fn(String) -> bool, L: Fn(String) -> Vec<String>>(
    env: &ProbeEnv,
    list_dirs: &L,
    is_file: &F,
) -> (r: Vec<DevToolPreset>)
    requires
        stable_probe(*is_file),
        stable_listing(*list_dirs),
    ensures
        views(r@) == windows_presets(env, *list_dirs, *is_file),
{
    let mut presets: Vec<DevToolPreset> = Vec::new();
    assert(views(presets@) =~= Seq::<PresetView>::empty());
    let code = find_windows_vscode(env, is_file);
    push_found(&mut presets, "vscode", "Visual Studio Code", code);
    let insiders = find_windows_vscode_insiders(env, is_file);
    push_found(&mut presets, "vscode-insiders", "Visual Studio Code - Insiders", insiders);
    let idea = match find_jetbrains_toolbox_exe(&env.local_app_data, "IDEA-U", "idea64.exe", list_dirs, is_file) {
        Some(p) => Some(p),
        None => find_jetbrains_exe(env, "IDEA-C", "idea64.exe", list_dirs, is_file),
    };
    push_edition(&mut presets, "intellij-idea", idea, "idea-c", "IntelliJ IDEA Community", "IntelliJ IDEA");
    let pycharm = match find_jetbrains_toolbox_exe(&env.local_app_data, "PyCharm-P", "pycharm64.exe", list_dirs, is_file) {
        Some(p) => Some(p),
        None => find_jetbrains_exe(env, "PyCharm-C", "pycharm64.exe", list_dirs, is_file),
    };
    push_edition(&mut presets, "pycharm", pycharm, "pycharm-c", "PyCharm Community", "PyCharm");
    add_jetbrains_windows_preset(&mut presets, env, "webstorm", "WebStorm", "WebStorm", "webstorm64.exe", list_dirs, is_file);
    add_jetbrains_windows_preset(&mut presets, env, "goland", "GoLand", "GoLand", "goland64.exe", list_dirs, is_file);
    add_jetbrains_windows_preset(&mut presets, env, "rider", "Rider", "Rider", "rider64.exe", list_dirs, is_file);
    add_jetbrains_windows_preset(&mut presets, env, "clion", "CLion", "CLion", "clion64.exe", list_dirs, is_file);
    add_jetbrains_windows_preset(&mut presets, env, "phpstorm", "PhpStorm", "PhpStorm", "phpstorm64.exe", list_dirs, is_file);
    add_jetbrains_windows_preset(&mut presets, env, "datagrip", "DataGrip", "DataGrip", "datagrip64.exe", list_dirs, is_file);
    presets
}

// ---------------------------------------------------------------- all platforms

/// The presets of the tools installed on `platform`, in catalog order.
pub open spec fn discovered<F: Fn(String) -> bool, G: Fn(String) -> bool, L: Fn(String) -> Vec<String>>(
    platform: Platform,
    env: &ProbeEnv,
    exists: G,
    l: L,
    f: F,
) -> Seq<PresetView> {
    match platform {
        Platform::MacOs => macos_presets(exists),
        Platform::Windows => windows_presets(env, l, f),
        Platform::Linux => linux_presets(strs(env.path_dirs@), f),
    }
}

/// Lists the developer tools installed on `platform`, in catalog order.
/// `exists` says whether a path exists at all (application bundles are
/// directories), `is_file` whether it names a regular file, and `list_dirs`
/// gives the names of a directory's subdirectories.
pub fn list_dev_tool_presets<F: Fn(String) -> bool, G: Fn(String) -> bool, L: Fn(String) -> Vec<String>>(
    platform: Platform,
    env: &ProbeEnv,
    exists: &G,
    list_dirs: &L,
    is_file: &F,
) -> (r: Vec<DevToolPreset>)
    requires
        stable_probe(*exists),
        stable_probe(*is_file),
        stable_listing(*list_dirs),
    ensures
        views(r@) == discovered(platform, env, *exists, *list_dirs, *is_file),
{
    match platform {
        Platform::MacOs => list_dev_tool_presets_macos(exists),
        Platform::Windows => list_dev_tool_presets_windows(env, list_dirs, is_file),
        Platform::Linux => list_dev_tool_presets_linux(&env.path_dirs, is_file),
    }
}

/// Discovery is repeatable: two runs over the same, unchanged filesystem give
/// the same presets in the same order.
pub proof fn lemma_discovery_repeatable<F: Fn(String) -> bool, G: Fn(String) -> bool, L: Fn(String) -> Vec<String>>(
    platform: Platform,
    env: &ProbeEnv,
    exists: G,
    list_dirs: L,
    is_file: F,
    first: Seq<DevToolPreset>,
    second: Seq<DevToolPreset>,
)
    requires
        views(first) == discovered(platform, env, exists, list_dirs, is_file),
        views(second) == discovered(platform, env, exists, list_dirs, is_file),
    ensures
        views(first) == views(second),
{
}

} // verus!
