//! Decisions about running processes: display names, executable names, the list of
//! user-facing applications, stray managed processes and the owner of the Aether port.
use vstd::prelude::*;
use crate::routing::generator::text_eq;
use crate::text::{
    chars_of, contains_text, ends_with, str_to_string, string_of, to_lowercase, unicode_lowercase,
    unicode_uppercase,
};

verus! {

/// A running user-facing application.
#[derive(Debug, Clone)]
pub struct RunningProcessInfo {
    pub name: String,
    pub process_name: String,
    pub executable_path: Option<String>,
    pub pid: u32,
    pub icon_base64: Option<String>,
}

/// Model of a running application.
pub struct ProcessView {
    pub name: Seq<char>,
    pub process_name: Seq<char>,
    pub executable_path: Option<Seq<char>>,
    pub pid: u32,
    pub icon_base64: Option<Seq<char>>,
}

/// Model of optional text.
pub open spec fn opt_chars(o: Option<String>) -> Option<Seq<char>> {
    match o {
        Some(s) => Some(s@),
        None => None,
    }
}

impl View for RunningProcessInfo {
    type V = ProcessView;

    open spec fn view(&self) -> ProcessView {
        ProcessView {
            name: self.name@,
            process_name: self.process_name@,
            executable_path: opt_chars(self.executable_path),
            pid: self.pid,
            icon_base64: opt_chars(self.icon_base64),
        }
    }
}

/// Process inspection.
pub struct ProcessDetector;

/// Display names of well-known executables (lower-case executable name, display name).
pub open spec fn friendly_table() -> Seq<(Seq<char>, Seq<char>)> {
    seq![
        ("chrome.exe"@, "Google Chrome"@),
        ("code.exe"@, "Visual Studio Code"@),
        ("codex.exe"@, "Codex"@),
        ("antigravity.exe"@, "Antigravity"@),
        ("agy.exe"@, "Antigravity Backend (agy)"@),
        ("language_server.exe"@, "Language Server"@),
        ("discord.exe"@, "Discord"@),
        ("steam.exe"@, "Steam"@),
        ("steamwebhelper.exe"@, "Steam Web Helper"@),
        ("dota2.exe"@, "Dota 2"@),
        ("rustclient.exe"@, "Rust Client"@),
        ("rust.exe"@, "Rust"@),
        ("firefox.exe"@, "Mozilla Firefox"@),
        ("msedge.exe"@, "Microsoft Edge"@),
        ("spotify.exe"@, "Spotify"@),
        ("telegram.exe"@, "Telegram"@),
        ("slack.exe"@, "Slack"@),
        ("notion.exe"@, "Notion"@),
        ("obs64.exe"@, "OBS Studio"@),
        ("obs32.exe"@, "OBS Studio"@),
        ("generals.exe"@, "C&C Generals"@),
        ("battle.net.exe"@, "Battle.net"@),
        ("epicgameslauncher.exe"@, "Epic Games Launcher"@),
        ("vlc.exe"@, "VLC Media Player"@),
        ("devenv.exe"@, "Visual Studio"@),
        ("cursor.exe"@, "Cursor AI Editor"@),
        ("postman.exe"@, "Postman"@),
    ]
}

/// The display name of the first table entry for a lower-case name, scanning from `i`.
pub open spec fn table_lookup(t: Seq<(Seq<char>, Seq<char>)>, lower: Seq<char>, i: int) -> Option<Seq<char>>
    decreases t.len() - i,
{
    if i < 0 || i >= t.len() {
        None
    } else if t[i].0 == lower {
        Some(t[i].1)
    } else {
        table_lookup(t, lower, i + 1)
    }
}

/// The text without every trailing `.exe` (`str::trim_end_matches`).
pub open spec fn strip_exe(s: Seq<char>) -> Seq<char>
    decreases s.len(),
{
    if ends_with(s, ".exe"@) && s.len() >= 4 {
        strip_exe(s.subrange(0, s.len() - 4))
    } else {
        s
    }
}

/// The display name of an executable: a well-known name, else the name without `.exe`
/// with its first character in upper case.
pub open spec fn friendly_name_spec(process_name: Seq<char>) -> Seq<char> {
    match table_lookup(friendly_table(), unicode_lowercase(process_name), 0) {
        Some(n) => n,
        None => {
            let stripped = strip_exe(process_name);
            if stripped.len() == 0 {
                Seq::empty()
            } else {
                unicode_uppercase(seq![stripped[0]]) + stripped.drop_first()
            }
        },
    }
}

fn friendly_table_exec() -> (r: Vec<(&'static str, &'static str)>)
    ensures
        r@.map_values(|p: (&str, &str)| (p.0@, p.1@)) == friendly_table(),
{
    let v = vec![
        ("chrome.exe", "Google Chrome"),
        ("code.exe", "Visual Studio Code"),
        ("codex.exe", "Codex"),
        ("antigravity.exe", "Antigravity"),
        ("agy.exe", "Antigravity Backend (agy)"),
        ("language_server.exe", "Language Server"),
        ("discord.exe", "Discord"),
        ("steam.exe", "Steam"),
        ("steamwebhelper.exe", "Steam Web Helper"),
        ("dota2.exe", "Dota 2"),
        ("rustclient.exe", "Rust Client"),
        ("rust.exe", "Rust"),
        ("firefox.exe", "Mozilla Firefox"),
        ("msedge.exe", "Microsoft Edge"),
        ("spotify.exe", "Spotify"),
        ("telegram.exe", "Telegram"),
        ("slack.exe", "Slack"),
        ("notion.exe", "Notion"),
        ("obs64.exe", "OBS Studio"),
        ("obs32.exe", "OBS Studio"),
        ("generals.exe", "C&C Generals"),
        ("battle.net.exe", "Battle.net"),
        ("epicgameslauncher.exe", "Epic Games Launcher"),
        ("vlc.exe", "VLC Media Player"),
        ("devenv.exe", "Visual Studio"),
        ("cursor.exe", "Cursor AI Editor"),
        ("postman.exe", "Postman"),
    ];
    proof {
        assert(v@.map_values(|p: (&str, &str)| (p.0@, p.1@)) =~= friendly_table());
    }
    v
}

fn strip_exe_exec(v: &[char]) -> (r: Vec<char>)
    ensures
        r@ == strip_exe(v@),
{
    let suffix = chars_of(".exe");
    proof {
        reveal_strlit(".exe");
    }
    let mut end: usize = v.len();
    proof {
        assert(v@.subrange(0, end as int) =~= v@);
    }
    loop
        invariant
            end <= v@.len(),
            suffix@ == ".exe"@,
            suffix@.len() == 4,
            strip_exe(v@.subrange(0, end as int)) == strip_exe(v@),
        decreases end,
    {
        let head = crate::text::slice_chars(v, 0, end);
        if !crate::text::ends_with_exec(&head, &suffix) {
            return head;
        }
        proof {
            assert(head@.subrange(0, head@.len() - 4) =~= v@.subrange(0, end - 4));
        }
        end = end - 4;
    }
}

impl ProcessDetector {
    /// The display name of an executable: a well-known name, else the name without `.exe`
    /// with its first character in upper case.
    pub fn get_friendly_name(process_name: &str) -> (r: String)
        ensures
            r@ == friendly_name_spec(process_name@),
    {
        let lower = to_lowercase(process_name);
        let table = friendly_table_exec();
        let ghost tv = table@.map_values(|p: (&str, &str)| (p.0@, p.1@));
        let mut i: usize = 0;
        while i < table.len()
            invariant
                i <= table@.len(),
                tv == table@.map_values(|p: (&str, &str)| (p.0@, p.1@)),
                tv == friendly_table(),
                lower@ == unicode_lowercase(process_name@),
                table_lookup(tv, lower@, 0) == table_lookup(tv, lower@, i as int),
            decreases table@.len() - i,
        {
            if text_eq(lower.as_str(), table[i].0) {
                return str_to_string(table[i].1);
            }
            i = i + 1;
        }
        let chars = chars_of(process_name);
        let stripped = strip_exe_exec(&chars);
        if stripped.len() == 0 {
            return String::new();
        }
        let mut first: Vec<char> = Vec::new();
        first.push(stripped[0]);
        let first_text = string_of(&first);
        let mut out = crate::text::to_uppercase(first_text.as_str());
        let n = stripped.len();
        let rest = string_of(&crate::text::slice_chars(&stripped, 1, n));
        out.append(rest.as_str());
        proof {
            assert(first@ =~= seq![stripped@[0]]);
            assert(stripped@.subrange(1, n as int) =~= stripped@.drop_first());
        }
        out
    }

    /// The display name and process name of an executable path: the display name of the
    /// path's file name, and that file name (`Unknown.exe` when it has none).
    /// The file name is read by `std::path::Path::file_name`, whose separators depend on
    /// the platform; what follows is `inspection_of_file_name`.
    pub fn inspect_executable(file_path: &str) -> (r: (String, String))
        ensures
            r.0@ == friendly_name_spec(r.1@),
            r.1@.len() > 0,
            !r.1@.contains('/'),
    {
        proof {
            reveal_strlit("Unknown.exe");
        }
        let name = path_file_name(file_path);
        proof {
            if name is None {
                assert forall|i: int| 0 <= i < "Unknown.exe"@.len() implies "Unknown.exe"@[i] != '/' by {}
            }
        }
        Self::inspection_of_file_name(name)
    }

    /// The display name and process name of an executable whose path has the given file
    /// name: the file name itself, or `Unknown.exe` when the path has none.
    pub fn inspection_of_file_name(file_name: Option<String>) -> (r: (String, String))
        ensures
            r.1@ == (match file_name {
                Some(n) => n@,
                None => "Unknown.exe"@,
            }),
            r.0@ == friendly_name_spec(r.1@),
    {
        let process_name = match file_name {
            Some(n) => n,
            None => str_to_string("Unknown.exe"),
        };
        let friendly_name = Self::get_friendly_name(process_name.as_str());
        (friendly_name, process_name)
    }

    /// The owner of the Aether port is terminated only when its name holds `aether`:
    /// returns the PID to terminate.
    pub fn kill_port_owner_if_aether(owner: Option<(u32, String)>) -> (r: Option<u32>)
        ensures
            r == (match owner {
                Some((pid, name)) => if contains_text(unicode_lowercase(name@), "aether"@) {
                    Some(pid)
                } else {
                    None
                },
                None => None,
            }),
    {
        match owner {
            Some((pid, name)) => {
                let lower = to_lowercase(name.as_str());
                let lc = chars_of(lower.as_str());
                if crate::text::contains_exec(&lc, &chars_of("aether")) {
                    Some(pid)
                } else {
                    None
                }
            },
            None => None,
        }
    }
}

/// `std::path::Path::file_name` of a path, as text. Its separators depend on the platform,
/// so which name comes back is not stated; a name that comes back is a normal path
/// component: not empty, and without `/`, which separates components on every platform.
#[verifier::external_body]
fn path_file_name(path: &str) -> (r: Option<String>)
    ensures
        r matches Some(n) ==> n@.len() > 0 && !n@.contains('/'),
{
    std::path::Path::new(path).file_name().map(|f| f.to_string_lossy().into_owned())
}

// ---------------------------------------------------------------------------
// Executable names
// ---------------------------------------------------------------------------

/// A process name as an executable name: `.exe` is appended unless its lower-case form
/// already ends with it.
pub open spec fn exe_name(raw: Seq<char>) -> Seq<char> {
    if ends_with(unicode_lowercase(raw), ".exe"@) {
        raw
    } else {
        raw + ".exe"@
    }
}

/// A process name as an executable name.
pub fn normalize_exe_name(raw: &str) -> (r: String)
    ensures
        r@ == exe_name(raw@),
{
    let lower = to_lowercase(raw);
    let lc = chars_of(lower.as_str());
    if crate::text::ends_with_exec(&lc, &chars_of(".exe")) {
        str_to_string(raw)
    } else {
        let mut s = str_to_string(raw);
        s.append(".exe");
        s
    }
}

/// The owner of a port when the PID has no process any more.
pub fn owner_process_name(raw: Option<&str>) -> (r: String)
    ensures
        r@ == (match raw {
            Some(n) => exe_name(n@),
            None => "unknown.exe"@,
        }),
{
    match raw {
        Some(n) => normalize_exe_name(n),
        None => str_to_string("unknown.exe"),
    }
}

/// One row of the system's TCP table: its state, its local-port field (the port in network
/// byte order in the low 16 bits) and its owning PID.
#[derive(Debug, Clone, Copy)]
pub struct TcpRowOwner {
    pub state: u32,
    pub local_port_field: u32,
    pub owning_pid: u32,
}

/// The port of a row's local-port field.
pub open spec fn row_port(field: u32) -> u16 {
    (((field & 0xff) << 8) | ((field >> 8) & 0xff)) as u16
}

/// The first row listening on (or idle at) the port, scanning from `i`.
pub open spec fn first_listener(rows: Seq<TcpRowOwner>, port: u16, i: int) -> Option<u32>
    decreases rows.len() - i,
{
    if i < 0 || i >= rows.len() {
        None
    } else if row_port(rows[i].local_port_field) == port && (rows[i].state == 2 || rows[i].state
        == 0) {
        Some(rows[i].owning_pid)
    } else {
        first_listener(rows, port, i + 1)
    }
}

/// The PID of the first row that listens on the port.
pub fn listening_owner_pid(rows: &Vec<TcpRowOwner>, port: u16) -> (r: Option<u32>)
    ensures
        r == first_listener(rows@, port, 0),
{
    let mut i: usize = 0;
    while i < rows.len()
        invariant
            i <= rows@.len(),
            first_listener(rows@, port, 0) == first_listener(rows@, port, i as int),
        decreases rows@.len() - i,
    {
        let row = rows[i];
        let f: u32 = row.local_port_field;
        let low: u32 = f & 0xff;
        let high: u32 = (f >> 8) & 0xff;
        let p: u32 = (low << 8) | high;
        assert(p < 0x10000 && p == ((f & 0xff) << 8) | ((f >> 8) & 0xff)) by (bit_vector)
            requires
                low == f & 0xff,
                high == (f >> 8) & 0xff,
                p == (low << 8) | high,
        ;
        if p as u16 == port && (row.state == 2 || row.state == 0) {
            return Some(row.owning_pid);
        }
        i = i + 1;
    }
    None
}

// ---------------------------------------------------------------------------
// Managed processes
// ---------------------------------------------------------------------------

/// Whether a process is a stray Aether or sing-box launched by this application: its
/// lower-case name is `aether(.exe)` or `sing-box(.exe)`.
pub open spec fn stray_managed(name_lower: Seq<char>, exe_lower: Seq<char>) -> bool {
    let is_target = name_lower == "aether.exe"@ || name_lower == "aether"@ || name_lower
        == "sing-box.exe"@ || name_lower == "sing-box"@;
    let managed_path = contains_text(exe_lower, "aetherdesktop"@) || contains_text(
        exe_lower,
        "aether-desktop"@,
    ) || contains_text(exe_lower, "v1.8.0-dev-udp"@);
    is_target && (managed_path || contains_text(name_lower, "aether"@) || contains_text(
        name_lower,
        "sing-box"@,
    ))
}

/// The PIDs of the stray Aether and sing-box processes among `(pid, name, executable path)`.
pub fn cleanup_stray_managed_processes(procs: &Vec<(u32, String, Option<String>)>) -> (r: Vec<u32>)
    ensures
        r@ == stray_pids(procs@),
{
    let mut out: Vec<u32> = Vec::new();
    let mut k: usize = 0;
    while k < procs.len()
        invariant
            k <= procs@.len(),
            out@ == stray_pids(procs@.take(k as int)),
        decreases procs@.len() - k,
    {
        proof {
            assert(procs@.take(k + 1).drop_last() =~= procs@.take(k as int));
        }
        let name_lower = to_lowercase(procs[k].1.as_str());
        let exe_lower = match &procs[k].2 {
            Some(p) => to_lowercase(p.as_str()),
            None => String::new(),
        };
        let nl = chars_of(name_lower.as_str());
        let el = chars_of(exe_lower.as_str());
        let ns = name_lower.as_str();
        let is_target = text_eq(ns, "aether.exe") || text_eq(ns, "aether") || text_eq(
            ns,
            "sing-box.exe",
        ) || text_eq(ns, "sing-box");
        let managed_path = crate::text::contains_exec(&el, &chars_of("aetherdesktop"))
            || crate::text::contains_exec(&el, &chars_of("aether-desktop"))
            || crate::text::contains_exec(&el, &chars_of("v1.8.0-dev-udp"));
        if is_target && (managed_path || crate::text::contains_exec(&nl, &chars_of("aether"))
            || crate::text::contains_exec(&nl, &chars_of("sing-box"))) {
            out.push(procs[k].0);
        }
        k = k + 1;
    }
    proof {
        assert(procs@.take(k as int) =~= procs@);
    }
    out
}

/// The lower-case executable path of a process, empty when unknown.
pub open spec fn exe_lower_of(p: Option<String>) -> Seq<char> {
    match p {
        Some(s) => unicode_lowercase(s@),
        None => Seq::empty(),
    }
}

/// The PIDs of the stray managed processes, in order.
pub open spec fn stray_pids(procs: Seq<(u32, String, Option<String>)>) -> Seq<u32>
    decreases procs.len(),
{
    if procs.len() == 0 {
        Seq::empty()
    } else {
        let rest = stray_pids(procs.drop_last());
        let p = procs.last();
        if stray_managed(unicode_lowercase(p.1@), exe_lower_of(p.2)) {
            rest.push(p.0)
        } else {
            rest
        }
    }
}

// ---------------------------------------------------------------------------
// User-facing applications
// ---------------------------------------------------------------------------

/// System and background processes that are never offered as applications, and the
/// proxy engines themselves.
pub open spec fn system_exclusions() -> Seq<Seq<char>> {
    seq![
        "svchost.exe"@, "smss.exe"@, "csrss.exe"@, "wininit.exe"@, "services.exe"@,
        "lsass.exe"@, "fontdrvhost.exe"@, "winlogon.exe"@, "dwm.exe"@, "sihost.exe"@,
        "taskhostw.exe"@, "explorer.exe"@, "shellexperiencehost.exe"@, "searchhost.exe"@,
        "startmenuexperiencehost.exe"@, "textinputhost.exe"@, "ctfmon.exe"@,
        "runtimebroker.exe"@, "dllhost.exe"@, "conhost.exe"@, "audiodg.exe"@,
        "spoolsv.exe"@, "wlanext.exe"@, "wdfmgr.exe"@, "dashost.exe"@,
        "securityhealthservice.exe"@, "smartscreen.exe"@, "compattelrunner.exe"@,
        "sedsvc.exe"@, "searchindexer.exe"@, "system"@, "idle"@, "registry"@,
        "memory compression"@, "aether.exe"@, "sing-box.exe"@, "xray.exe"@, "v2ray.exe"@,
    ]
}

fn system_exclusions_exec() -> (r: Vec<&'static str>)
    ensures
        r@.map_values(|n: &str| n@) == system_exclusions(),
{
    let v = vec![
        "svchost.exe", "smss.exe", "csrss.exe", "wininit.exe", "services.exe",
        "lsass.exe", "fontdrvhost.exe", "winlogon.exe", "dwm.exe", "sihost.exe",
        "taskhostw.exe", "explorer.exe", "shellexperiencehost.exe", "searchhost.exe",
        "startmenuexperiencehost.exe", "textinputhost.exe", "ctfmon.exe",
        "runtimebroker.exe", "dllhost.exe", "conhost.exe", "audiodg.exe",
        "spoolsv.exe", "wlanext.exe", "wdfmgr.exe", "dashost.exe",
        "securityhealthservice.exe", "smartscreen.exe", "compattelrunner.exe",
        "sedsvc.exe", "searchindexer.exe", "system", "idle", "registry",
        "memory compression", "aether.exe", "sing-box.exe", "xray.exe", "v2ray.exe",
    ];
    proof {
        assert(v@.map_values(|n: &str| n@) =~= system_exclusions());
    }
    v
}

/// Lexicographic order of texts by character, from position `i`.
pub open spec fn le_from(a: Seq<char>, b: Seq<char>, i: int) -> bool
    decreases a.len() - i,
{
    if i < 0 || i >= a.len() {
        true
    } else if i >= b.len() {
        false
    } else if a[i] != b[i] {
        (a[i] as u32) < (b[i] as u32)
    } else {
        le_from(a, b, i + 1)
    }
}

/// Lexicographic order of texts by character (the byte order of their UTF-8 forms).
pub open spec fn text_le(a: Seq<char>, b: Seq<char>) -> bool {
    le_from(a, b, 0)
}

fn text_le_exec(a: &Vec<char>, b: &Vec<char>) -> (r: bool)
    ensures
        r == text_le(a@, b@),
{
    let mut i: usize = 0;
    while i < a.len()
        invariant
            i <= a@.len(),
            le_from(a@, b@, 0) == le_from(a@, b@, i as int),
        decreases a@.len() - i,
    {
        if i >= b.len() {
            return false;
        }
        if a[i] != b[i] {
            return (a[i] as u32) < (b[i] as u32);
        }
        i = i + 1;
    }
    true
}

/// Models of applications.
pub open spec fn app_views(v: Seq<RunningProcessInfo>) -> Seq<ProcessView> {
    v.map_values(|x: RunningProcessInfo| x@)
}

/// Sort key of an application: its lower-case display name.
pub open spec fn app_key(p: ProcessView) -> Seq<char> {
    unicode_lowercase(p.name)
}

/// Where a stable insertion puts an element: after every element whose key is not greater.
pub open spec fn insert_pos(s: Seq<ProcessView>, x: ProcessView) -> int
    decreases s.len(),
{
    if s.len() == 0 {
        0
    } else if text_le(app_key(s.last()), app_key(x)) {
        s.len() as int
    } else {
        insert_pos(s.drop_last(), x)
    }
}

/// Stable sort by key (`slice::sort_by` on the lower-case display names).
pub open spec fn sort_apps(s: Seq<ProcessView>) -> Seq<ProcessView>
    decreases s.len(),
{
    if s.len() == 0 {
        s
    } else {
        let sorted = sort_apps(s.drop_last());
        let p = insert_pos(sorted, s.last());
        sorted.take(p) + seq![s.last()] + sorted.skip(p)
    }
}

proof fn lemma_insert_pos_bounds(s: Seq<ProcessView>, x: ProcessView)
    ensures
        0 <= insert_pos(s, x) <= s.len(),
    decreases s.len(),
{
    if s.len() > 0 {
        lemma_insert_pos_bounds(s.drop_last(), x);
    }
}

/// The applications found in a scan of processes `(pid, name, executable path)`: names
/// become executable names, excluded and repeated executables are passed over.
pub open spec fn gui_scan(procs: Seq<(u32, String, Option<String>)>) -> (Seq<ProcessView>, Seq<Seq<char>>)
    decreases procs.len(),
{
    if procs.len() == 0 {
        (Seq::empty(), Seq::empty())
    } else {
        let (apps, seen) = gui_scan(procs.drop_last());
        let p = procs.last();
        let proc_name = exe_name(p.1@);
        let lower = unicode_lowercase(proc_name);
        if system_exclusions().contains(lower) || seen.contains(lower) {
            (apps, seen)
        } else {
            (
                apps.push(
                    ProcessView {
                        name: friendly_name_spec(proc_name),
                        process_name: proc_name,
                        executable_path: opt_chars(p.2),
                        pid: p.0,
                        icon_base64: None,
                    },
                ),
                seen.push(lower),
            )
        }
    }
}

/// The user-facing applications among `(pid, name, executable path)` processes, sorted by
/// display name.
pub open spec fn gui_apps_spec(procs: Seq<(u32, String, Option<String>)>) -> Seq<ProcessView> {
    sort_apps(gui_scan(procs).0)
}

fn list_has(v: &Vec<Vec<char>>, t: &Vec<char>) -> (r: bool)
    ensures
        r == crate::text::texts_of(v@).contains(t@),
{
    let ghost vv = crate::text::texts_of(v@);
    let mut k: usize = 0;
    while k < v.len()
        invariant
            k <= v@.len(),
            vv == crate::text::texts_of(v@),
            forall|j: int| 0 <= j < k ==> vv[j] != t@,
        decreases v@.len() - k,
    {
        let a = string_of(v[k].as_slice());
        let b = string_of(t.as_slice());
        if text_eq(a.as_str(), b.as_str()) {
            proof {
                assert(vv[k as int] == t@);
            }
            return true;
        }
        k = k + 1;
    }
    false
}

fn excluded(lower: &str) -> (r: bool)
    ensures
        r == system_exclusions().contains(lower@),
{
    let ex = system_exclusions_exec();
    let ghost ev = ex@.map_values(|n: &str| n@);
    let mut k: usize = 0;
    while k < ex.len()
        invariant
            k <= ex@.len(),
            ev == ex@.map_values(|n: &str| n@),
            ev == system_exclusions(),
            forall|j: int| 0 <= j < k ==> ev[j] != lower@,
        decreases ex@.len() - k,
    {
        if text_eq(ex[k], lower) {
            proof {
                assert(ev[k as int] == lower@);
            }
            return true;
        }
        k = k + 1;
    }
    false
}

impl ProcessDetector {
    /// The user-facing applications among the running processes `(pid, name, executable
    /// path)`: system processes and the proxy engines are left out, each executable appears
    /// once, and the list is sorted by display name.
    pub fn select_gui_applications(procs: Vec<(u32, String, Option<String>)>) -> (r: Vec<
        RunningProcessInfo,
    >)
        ensures
            app_views(r@) == gui_apps_spec(procs@),
    {
        let ghost pv = procs@;
        let n = procs.len();
        let mut procs = procs;
        let mut apps: Vec<RunningProcessInfo> = Vec::new();
        let mut seen: Vec<Vec<char>> = Vec::new();
        let mut k: usize = 0;
        while k < n
            invariant
                n == pv.len(),
                k <= n,
                procs@ == pv.skip(k as int),
                app_views(apps@) == gui_scan(pv.take(k as int)).0,
                crate::text::texts_of(seen@) == gui_scan(pv.take(k as int)).1,
            decreases n - k,
        {
            proof {
                assert(pv.take(k + 1).drop_last() =~= pv.take(k as int));
                assert(procs@[0] == pv[k as int]);
            }
            let (pid, raw, exe) = procs.remove(0);
            proof {
                assert(procs@ =~= pv.skip(k + 1));
            }
            let proc_name = normalize_exe_name(raw.as_str());
            let lower = to_lowercase(proc_name.as_str());
            let lc = chars_of(lower.as_str());
            if !excluded(lower.as_str()) && !list_has(&seen, &lc) {
                proof {
                    assert(crate::text::texts_of(seen@.push(lc)) =~= crate::text::texts_of(
                        seen@,
                    ).push(lc@));
                }
                seen.push(lc);
                let friendly = Self::get_friendly_name(proc_name.as_str());
                let info = RunningProcessInfo {
                    name: friendly,
                    process_name: proc_name,
                    executable_path: exe,
                    pid,
                    icon_base64: None,
                };
                proof {
                    assert(apps@.push(info).map_values(|x: RunningProcessInfo| x@) =~= app_views(apps@).push(info@));
                }
                apps.push(info);
            }
            k = k + 1;
        }
        proof {
            assert(pv.take(k as int) =~= pv);
        }
        sort_applications(apps)
    }
}

fn sort_applications(apps: Vec<RunningProcessInfo>) -> (r: Vec<RunningProcessInfo>)
    ensures
        app_views(r@) == sort_apps(
            app_views(apps@),
        ),
{
    let ghost av = app_views(apps@);
    let n = apps.len();
    let mut apps = apps;
    let mut out: Vec<RunningProcessInfo> = Vec::new();
    let mut keys: Vec<Vec<char>> = Vec::new();
    let mut k: usize = 0;
    while k < n
        invariant
            n == av.len(),
            k <= n,
            app_views(apps@) == av.skip(k as int),
            apps@.len() == n - k,
            app_views(out@) == sort_apps(av.take(k as int)),
            keys@.len() == out@.len(),
            forall|j: int| 0 <= j < keys@.len() ==> #[trigger] keys@[j]@ == app_key(out@[j]@),
        decreases n - k,
    {
        let ghost sorted = app_views(out@);
        proof {
            assert(av.take(k + 1).drop_last() =~= av.take(k as int));
            assert(app_views(apps@)[0] == av[k as int]);
        }
        let ghost before = apps@;
        let x = apps.remove(0);
        proof {
            assert(apps@ =~= before.subrange(1, before.len() as int));
            assert forall|i: int| 0 <= i < apps@.len() implies #[trigger] app_views(apps@)[i] == av.skip(k + 1)[i] by {
                assert(app_views(before)[i + 1] == av.skip(
                    k as int,
                )[i + 1]);
            }
            assert(app_views(apps@) =~= av.skip(k + 1));
        }
        let key_text = to_lowercase(x.name.as_str());
        let key = chars_of(key_text.as_str());
        let mut j: usize = out.len();
        proof {
            assert(sorted.take(j as int) =~= sorted);
        }
        while j > 0 && !text_le_exec(&keys[j - 1], &key)
            invariant
                j <= out@.len(),
                keys@.len() == out@.len(),
                forall|i: int| 0 <= i < keys@.len() ==> #[trigger] keys@[i]@ == app_key(out@[i]@),
                sorted == app_views(out@),
                key@ == app_key(x@),
                insert_pos(sorted, x@) == insert_pos(sorted.take(j as int), x@),
            decreases j,
        {
            proof {
                assert(sorted.take(j as int).drop_last() =~= sorted.take(j - 1));
                assert(sorted.take(j as int).last() == out@[j - 1]@);
            }
            j = j - 1;
        }
        proof {
            if j > 0 {
                assert(sorted.take(j as int).last() == out@[j - 1]@);
                assert(insert_pos(sorted.take(j as int), x@) == j);
            } else {
                assert(insert_pos(sorted.take(0), x@) == 0);
            }
            lemma_insert_pos_bounds(sorted, x@);
        }
        let ghost old_out = out@;
        let ghost old_keys = keys@;
        out.insert(j, x);
        keys.insert(j, key);
        proof {
            assert(app_views(out@) =~= sorted.take(j as int) + seq![x@]
                + sorted.skip(j as int));
            assert forall|i: int| 0 <= i < keys@.len() implies #[trigger] keys@[i]@ == app_key(
                out@[i]@,
            ) by {
                if i < j {
                    assert(keys@[i] == old_keys[i]);
                    assert(out@[i] == old_out[i]);
                } else if i > j {
                    assert(keys@[i] == old_keys[i - 1]);
                    assert(out@[i] == old_out[i - 1]);
                }
            }
        }
        k = k + 1;
    }
    proof {
        assert(av.take(k as int) =~= av);
    }
    out
}

/// No listed application is a system process or a proxy engine, and no executable is
/// listed twice.
pub proof fn law_gui_scan_excludes_and_deduplicates(procs: Seq<(u32, String, Option<String>)>)
    ensures
        ({
            let (apps, seen) = gui_scan(procs);
            &&& apps.len() == seen.len()
            &&& forall|i: int| 0 <= i < seen.len() ==> !system_exclusions().contains(#[trigger] seen[i])
            &&& forall|i: int, j: int| 0 <= i < j < seen.len() ==> seen[i] != seen[j]
            &&& forall|i: int|
                0 <= i < apps.len() ==> #[trigger] unicode_lowercase(apps[i].process_name) == seen[i]
        }),
    decreases procs.len(),
{
    if procs.len() > 0 {
        law_gui_scan_excludes_and_deduplicates(procs.drop_last());
    }
}

/// A non-empty word.
pub open spec fn word_pred() -> spec_fn(Seq<char>) -> bool {
    |w: Seq<char>| w.len() > 0
}

/// The words of a line: its runs of characters between spaces.
pub open spec fn words(line: Seq<char>) -> Seq<Seq<char>> {
    crate::text::split_on(line, ' ').filter(word_pred())
}

/// The PID of a `netstat -ano -p TCP` row that listens on the port: five words, `TCP`, a
/// local address ending in `:port`, any foreign address, `LISTENING`, and a PID.
pub open spec fn netstat_listener(line: Seq<char>, port: u16) -> Option<u32> {
    let w = words(line);
    if w.len() == 5 && w[0] == "TCP"@ && w[3] == "LISTENING"@ && ends_with(
        w[1],
        ":"@ + crate::text::decimal(port as nat),
    ) {
        match crate::text::parse_unsigned(w[4], u32::MAX as nat) {
            Some(n) => Some(n as u32),
            None => None,
        }
    } else {
        None
    }
}

/// The PID of the first listening row for the port, scanning the lines from `i`.
pub open spec fn first_netstat_listener(lines: Seq<Seq<char>>, port: u16, i: int) -> Option<u32>
    decreases lines.len() - i,
{
    if i < 0 || i >= lines.len() {
        None
    } else {
        match netstat_listener(lines[i], port) {
            Some(pid) => Some(pid),
            None => first_netstat_listener(lines, port, i + 1),
        }
    }
}

/// The words of a line.
fn words_exec(line: &Vec<char>) -> (r: Vec<Vec<char>>)
    ensures
        crate::text::texts_of(r@) == words(line@),
{
    let parts = crate::text::split_chars(line.as_slice(), ' ');
    let ghost pv = crate::text::texts_of(parts@);
    let mut out: Vec<Vec<char>> = Vec::new();
    let mut k: usize = 0;
    while k < parts.len()
        invariant
            k <= parts@.len(),
            pv == crate::text::texts_of(parts@),
            pv == crate::text::split_on(line@, ' '),
            crate::text::texts_of(out@) == pv.subrange(0, k as int).filter(word_pred()),
        decreases parts.len() - k,
    {
        proof {
            reveal_with_fuel(Seq::<Seq<char>>::filter, 1);
            let next = pv.subrange(0, k + 1);
            assert(next.drop_last() =~= pv.subrange(0, k as int));
            assert(next.last() == pv[k as int]);
            assert(pv[k as int] == parts@[k as int]@);
            assert(next.filter(word_pred()) == (if word_pred()(pv[k as int]) {
                pv.subrange(0, k as int).filter(word_pred()).push(pv[k as int])
            } else {
                pv.subrange(0, k as int).filter(word_pred())
            }));
            assert(word_pred()(pv[k as int]) == (pv[k as int].len() > 0));
        }
        if parts[k].len() > 0 {
            let w = crate::text::slice_chars(parts[k].as_slice(), 0, parts[k].len());
            proof {
                assert(w@ =~= parts@[k as int]@);
                assert(crate::text::texts_of(out@.push(w)) =~= crate::text::texts_of(out@).push(w@));
            }
            out.push(w);
        }
        k = k + 1;
    }
    proof {
        assert(pv.subrange(0, parts@.len() as int) =~= pv);
    }
    out
}

fn text_is(v: &Vec<char>, t: &str) -> (r: bool)
    ensures
        r == (v@ == t@),
{
    let tc = chars_of(t);
    if v.len() != tc.len() {
        return false;
    }
    let mut i: usize = 0;
    while i < v.len()
        invariant
            i <= v@.len(),
            v@.len() == tc@.len(),
            tc@ == t@,
            forall|j: int| 0 <= j < i ==> v@[j] == tc@[j],
        decreases v.len() - i,
    {
        if v[i] != tc[i] {
            return false;
        }
        i = i + 1;
    }
    assert(v@ =~= t@);
    true
}

/// The PID of a `netstat -ano -p TCP` line for a socket listening on the port.
fn netstat_listener_exec(line: &Vec<char>, port: u16) -> (r: Option<u32>)
    ensures
        r == netstat_listener(line@, port),
{
    let w = words_exec(line);
    let ghost wv = crate::text::texts_of(w@);
    if w.len() != 5 {
        return None;
    }
    proof {
        assert(wv[0] == w@[0]@);
        assert(wv[1] == w@[1]@);
        assert(wv[3] == w@[3]@);
        assert(wv[4] == w@[4]@);
    }
    if !text_is(&w[0], "TCP") || !text_is(&w[3], "LISTENING") {
        return None;
    }
    let mut suffix = str_to_string(":");
    let digits = crate::text::decimal_string(port as u64);
    suffix.append(digits.as_str());
    let sc = chars_of(suffix.as_str());
    if !crate::text::ends_with_exec(w[1].as_slice(), sc.as_slice()) {
        return None;
    }
    match crate::text::parse_unsigned_exec(w[4].as_slice(), 0xffff_ffffu64) {
        Some(n) => Some(n as u32),
        None => None,
    }
}

/// The PID of the first socket listening on the port in a `netstat -ano -p TCP` listing.
pub fn netstat_listening_pid(listing: &str, port: u16) -> (r: Option<u32>)
    ensures
        r == first_netstat_listener(crate::text::lines_of(listing@), port, 0),
{
    let c = chars_of(listing);
    let lines = crate::text::lines_exec(&c);
    let ghost lv = crate::text::texts_of(lines@);
    let mut i: usize = 0;
    while i < lines.len()
        invariant
            i <= lines@.len(),
            lv == crate::text::texts_of(lines@),
            lv == crate::text::lines_of(listing@),
            first_netstat_listener(lv, port, 0) == first_netstat_listener(lv, port, i as int),
        decreases lines.len() - i,
    {
        proof {
            assert(lv[i as int] == lines@[i as int]@);
        }
        match netstat_listener_exec(&lines[i], port) {
            Some(pid) => {
                return Some(pid);
            },
            None => {},
        }
        i = i + 1;
    }
    None
}

} // verus!
