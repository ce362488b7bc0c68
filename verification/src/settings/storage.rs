//! Settings storage locations, the settings migration applied on load, and the rollback
//! snapshot plan of Aether's last-connection files.
use vstd::prelude::*;
use crate::models::settings::{AetherSettings, AppSettings};
use crate::routing::generator::text_eq;
use crate::text::{chars_of, contains_text, ends_with, str_to_string};

verus! {

// ---------------------------------------------------------------------------
// Locations
// ---------------------------------------------------------------------------

/// A plain file name: not empty, not `.` or `..`, without path separators or drive colons.
pub open spec fn plain_file_name(name: Seq<char>) -> bool {
    &&& name.len() > 0
    &&& name != "."@
    &&& name != ".."@
    &&& forall|i: int|
        0 <= i < name.len() ==> #[trigger] name[i] != '/' && name[i] != '\\' && name[i] != ':'
}

/// The names `.` and `..` have one and two characters.
proof fn lemma_dot_names()
    ensures
        "."@.len() == 1,
        ".."@.len() == 2,
{
    reveal_strlit(".");
    reveal_strlit("..");
}

/// `std::path::Path::join` of a directory and a plain file name, as text. The separator
/// depends on the platform, and on Windows a verbatim (`\\?\`) directory is normalized
/// (its `.` and `..` components removed), so only the end of the result is stated: it ends
/// with the name.
#[verifier::external_body]
pub fn join_path(dir: &str, name: &str) -> (r: String)
    requires
        plain_file_name(name@),
    ensures
        ends_with(r@, name@),
{
    std::path::Path::new(dir).join(name).to_string_lossy().into_owned()
}

/// The user's configuration directory (`directories::BaseDirs::config_dir`), when the
/// platform has one. It depends on the environment, so nothing is stated of it.
#[verifier::external_body]
fn user_config_dir() -> (r: Option<String>) {
    directories::BaseDirs::new().map(|b| b.config_dir().to_string_lossy().into_owned())
}

/// The user's local data directory (`directories::BaseDirs::data_local_dir`), when the
/// platform has one. It depends on the environment, so nothing is stated of it.
#[verifier::external_body]
fn user_data_local_dir() -> (r: Option<String>) {
    directories::BaseDirs::new().map(|b| b.data_local_dir().to_string_lossy().into_owned())
}

/// Locations of the application's files.
pub struct SettingsStorage;

impl SettingsStorage {
    /// The application's configuration directory. The `AETHER_DESKTOP_CONFIG_DIR`
    /// environment variable, when it is set, names it (the caller reads the environment and
    /// passes the value); otherwise it is `AetherDesktop` under the user's configuration
    /// directory, else `./config`.
    pub fn get_config_dir(config_dir_override: Option<&str>) -> (r: String)
        ensures
            match config_dir_override {
                Some(d) => r@ == d@,
                None => r@ == "./config"@ || ends_with(r@, "AetherDesktop"@),
            },
    {
        match config_dir_override {
            Some(d) => str_to_string(d),
            None => match user_config_dir() {
                Some(base) => {
                    proof {
                        reveal_strlit("AetherDesktop");
                        lemma_dot_names();
                    }
                    join_path(base.as_str(), "AetherDesktop")
                },
                None => str_to_string("./config"),
            },
        }
    }

    /// Aether's data directory: `AetherDesktop/aether` under the user's local data
    /// directory, else `./aether_data`.
    pub fn get_aether_data_dir() -> (r: String)
        ensures
            r@ == "./aether_data"@ || ends_with(r@, "aether"@),
    {
        proof {
            reveal_strlit("AetherDesktop");
            reveal_strlit("aether");
            lemma_dot_names();
        }
        match user_data_local_dir() {
            Some(base) => {
                let app = join_path(base.as_str(), "AetherDesktop");
                join_path(app.as_str(), "aether")
            },
            None => str_to_string("./aether_data"),
        }
    }

    /// Aether's configuration file, `aether.toml` in its data directory.
    pub fn get_aether_config_path() -> (r: String)
        ensures
            ends_with(r@, "aether.toml"@),
    {
        proof {
            reveal_strlit("aether.toml");
            lemma_dot_names();
        }
        let dir = Self::get_aether_data_dir();
        join_path(dir.as_str(), "aether.toml")
    }

    /// The settings file, `config.json` in the configuration directory.
    pub fn get_config_file_path(config_dir_override: Option<&str>) -> (r: String)
        ensures
            ends_with(r@, "config.json"@),
    {
        proof {
            reveal_strlit("config.json");
            lemma_dot_names();
        }
        let dir = Self::get_config_dir(config_dir_override);
        join_path(dir.as_str(), "config.json")
    }

    /// The generated sing-box configuration, `sing-box-config.json` in the configuration
    /// directory.
    pub fn get_singbox_config_path(config_dir_override: Option<&str>) -> (r: String)
        ensures
            ends_with(r@, "sing-box-config.json"@),
    {
        proof {
            reveal_strlit("sing-box-config.json");
            lemma_dot_names();
        }
        let dir = Self::get_config_dir(config_dir_override);
        join_path(dir.as_str(), "sing-box-config.json")
    }

    /// Brings loaded settings up to date: legacy launch arguments are dropped, an empty host
    /// becomes `127.0.0.1` and port 0 becomes 1819. Returns whether anything changed (the
    /// settings are then saved again).
    pub fn migrate_loaded(settings: &mut AppSettings) -> (changed: bool)
        ensures
            final(settings).aether.launch_arguments@.len() == 0,
            final(settings).aether.host@ == migrated_host(old(settings).aether.host@),
            final(settings).aether.port == migrated_port(old(settings).aether.port),
            changed == needs_migration(
                old(settings).aether.launch_arguments@.len(),
                old(settings).aether.host@,
                old(settings).aether.port,
            ),
            final(settings).aether.executable_path == old(settings).aether.executable_path,
            final(settings).aether.additional_arguments == old(settings).aether.additional_arguments,
            final(settings).aether.scan_mode == old(settings).aether.scan_mode,
            final(settings).aether.quick_reconnect == old(settings).aether.quick_reconnect,
            final(settings).sing_box == old(settings).sing_box,
            final(settings).general == old(settings).general,
            final(settings).secondary_proxy == old(settings).secondary_proxy,
            final(settings).compatibility == old(settings).compatibility,
            final(settings).application_rules == old(settings).application_rules,
            final(settings).first_run_completed == old(settings).first_run_completed,
            final(settings).aether.protocol == old(settings).aether.protocol,
            final(settings).aether.ip_mode == old(settings).aether.ip_mode,
    {
        let mut changed = false;
        if settings.aether.launch_arguments.len() > 0 {
            settings.aether.launch_arguments.clear();
            changed = true;
        }
        if settings.aether.host.as_str().unicode_len() == 0 {
            settings.aether.host = str_to_string("127.0.0.1");
            changed = true;
        }
        if settings.aether.port == 0 {
            settings.aether.port = 1819;
            changed = true;
        }
        changed
    }
}

/// The host after migration: an empty host becomes `127.0.0.1`.
pub open spec fn migrated_host(host: Seq<char>) -> Seq<char> {
    if host.len() == 0 {
        "127.0.0.1"@
    } else {
        host
    }
}

/// The port after migration: port 0 becomes 1819.
pub open spec fn migrated_port(port: u16) -> u16 {
    if port == 0 {
        1819
    } else {
        port
    }
}

/// Whether loaded settings need migrating.
pub open spec fn needs_migration(launch_arguments: nat, host: Seq<char>, port: u16) -> bool {
    launch_arguments > 0 || host.len() == 0 || port == 0
}

/// Migration settles the settings: migrated settings never need migrating again.
pub proof fn law_migration_settles(host: Seq<char>, port: u16)
    ensures
        !needs_migration(0, migrated_host(host), migrated_port(port)),
{
    reveal_strlit("127.0.0.1");
}

// ---------------------------------------------------------------------------
// Last-connection files
// ---------------------------------------------------------------------------

/// The file names Aether uses for its last connection.
pub open spec fn known_lastconn_names() -> Seq<Seq<char>> {
    seq![
        "lastconn"@,
        "lastconn.json"@,
        "last_connection.json"@,
        "last_connection"@,
        "last_endpoint.json"@,
        "last_endpoint"@,
        "lastconn.bin"@,
        "lastconn.dat"@,
        "endpoints.json"@,
    ]
}

/// The file names Aether uses for its last connection.
pub fn known_lastconn_filenames() -> (r: Vec<&'static str>)
    ensures
        r@.map_values(|n: &str| n@) == known_lastconn_names(),
{
    let v = vec![
        "lastconn",
        "lastconn.json",
        "last_connection.json",
        "last_connection",
        "last_endpoint.json",
        "last_endpoint",
        "lastconn.bin",
        "lastconn.dat",
        "endpoints.json",
    ];
    proof {
        assert(v@.map_values(|n: &str| n@) =~= known_lastconn_names());
    }
    v
}

/// A name that must never be snapshotted: Aether's configuration, identities, keys,
/// certificates and configuration files (judged on the lower-cased name).
pub open spec fn protected_name(lower: Seq<char>) -> bool {
    lower == "aether.toml"@ || ends_with(lower, ".toml"@) || contains_text(lower, "identity"@)
        || contains_text(lower, "key"@) || contains_text(lower, "cert"@) || contains_text(
        lower,
        "config"@,
    )
}

/// Whether a file in Aether's data directory holds last-connection state.
pub open spec fn lastconn_file_spec(name: Seq<char>) -> bool {
    let lower = crate::text::unicode_lowercase(name);
    if protected_name(lower) {
        false
    } else {
        known_lastconn_names().contains(lower) || contains_text(lower, "lastconn"@)
            || contains_text(lower, "last_conn"@) || contains_text(lower, "last_endpoint"@)
    }
}

fn contains_str(t: &[char], p: &str) -> (r: bool)
    ensures
        r == contains_text(t@, p@),
{
    crate::text::contains_exec(t, &chars_of(p))
}

/// Whether a file in Aether's data directory holds last-connection state; identity, key,
/// certificate and configuration files never do.
pub fn is_lastconn_persistence_file(name: &str) -> (r: bool)
    ensures
        r == lastconn_file_spec(name@),
{
    let lower_text = crate::text::to_lowercase(name);
    let lower = chars_of(lower_text.as_str());
    let toml = chars_of(".toml");
    if text_eq(lower_text.as_str(), "aether.toml") || crate::text::ends_with_exec(&lower, &toml)
        || contains_str(&lower, "identity") || contains_str(&lower, "key") || contains_str(
        &lower,
        "cert",
    ) || contains_str(&lower, "config") {
        return false;
    }
    let known = known_lastconn_filenames();
    let ghost kv = known@.map_values(|n: &str| n@);
    let mut k: usize = 0;
    while k < known.len()
        invariant
            k <= known@.len(),
            kv == known@.map_values(|n: &str| n@),
            kv == known_lastconn_names(),
            lower_text@ == crate::text::unicode_lowercase(name@),
            lower@ == lower_text@,
            !protected_name(lower_text@),
            forall|j: int| 0 <= j < k ==> kv[j] != lower_text@,
        decreases known@.len() - k,
    {
        if text_eq(lower_text.as_str(), known[k]) {
            proof {
                assert(kv[k as int] == lower_text@);
                assert(known_lastconn_names().contains(lower_text@));
            }
            return true;
        }
        k = k + 1;
    }
    contains_str(&lower, "lastconn") || contains_str(&lower, "last_conn") || contains_str(
        &lower,
        "last_endpoint",
    )
}

/// Identity, key, certificate and configuration files, and every `.toml` file, are never
/// taken for last-connection state.
pub proof fn law_protected_files_are_never_snapshotted(name: Seq<char>)
    requires
        protected_name(crate::text::unicode_lowercase(name)),
    ensures
        !lastconn_file_spec(name),
{
}

/// One entry of the rollback snapshot.
#[derive(Debug, Clone)]
pub enum LastconnEntryState {
    /// The file existed; its bytes are kept under the same name in the snapshot directory.
    Existed { file_name: String },
    /// A known file name was absent; a file of that name created later is removed again.
    Absent { file_name: String },
}

/// Transactional snapshot of Aether's last-connection files.
#[derive(Debug, Clone)]
pub struct AetherPersistenceSnapshot {
    pub snapshot_dir: String,
    pub target_dir: String,
    pub entries: Vec<LastconnEntryState>,
}

/// Model of a snapshot entry: whether the file existed, and its name.
pub open spec fn entry_view(e: LastconnEntryState) -> (bool, Seq<char>) {
    match e {
        LastconnEntryState::Existed { file_name } => (true, file_name@),
        LastconnEntryState::Absent { file_name } => (false, file_name@),
    }
}

/// Model of snapshot entries.
pub open spec fn entries_view(v: Seq<LastconnEntryState>) -> Seq<(bool, Seq<char>)> {
    v.map_values(|e: LastconnEntryState| entry_view(e))
}

/// Model of the data directory's entries: name and whether it is a regular file.
pub open spec fn dir_view(v: Seq<(String, bool)>) -> Seq<(Seq<char>, bool)> {
    v.map_values(|e: (String, bool)| (e.0@, e.1))
}

/// The existing last-connection files, in directory order.
pub open spec fn existed_entries(dir: Seq<(Seq<char>, bool)>) -> Seq<(bool, Seq<char>)>
    decreases dir.len(),
{
    if dir.len() == 0 {
        Seq::empty()
    } else {
        let rest = existed_entries(dir.drop_last());
        let (name, is_file) = dir.last();
        if is_file && lastconn_file_spec(name) {
            rest.push((true, name))
        } else {
            rest
        }
    }
}

/// Whether the directory holds an entry of this name.
pub open spec fn dir_has(dir: Seq<(Seq<char>, bool)>, name: Seq<char>) -> bool {
    exists|i: int| 0 <= i < dir.len() && (#[trigger] dir[i]).0 == name
}

/// The known names that are absent from the directory, in their fixed order.
pub open spec fn absent_entries(dir: Seq<(Seq<char>, bool)>, known: Seq<Seq<char>>) -> Seq<(bool, Seq<char>)>
    decreases known.len(),
{
    if known.len() == 0 {
        Seq::empty()
    } else {
        let rest = absent_entries(dir, known.drop_last());
        if dir_has(dir, known.last()) {
            rest
        } else {
            rest.push((false, known.last()))
        }
    }
}

/// The snapshot plan: every existing last-connection file, then every known name that is
/// absent.
pub open spec fn snapshot_plan_spec(dir: Seq<(Seq<char>, bool)>) -> Seq<(bool, Seq<char>)> {
    existed_entries(dir) + absent_entries(dir, known_lastconn_names())
}

fn dir_has_exec(dir: &Vec<(String, bool)>, name: &str) -> (r: bool)
    ensures
        r == dir_has(dir_view(dir@), name@),
{
    let ghost dv = dir_view(dir@);
    let mut k: usize = 0;
    while k < dir.len()
        invariant
            k <= dir@.len(),
            dv == dir_view(dir@),
            forall|j: int| 0 <= j < k ==> dv[j].0 != name@,
        decreases dir@.len() - k,
    {
        if text_eq(dir[k].0.as_str(), name) {
            proof {
                assert(dv[k as int].0 == name@);
            }
            return true;
        }
        k = k + 1;
    }
    false
}

/// The entries of the rollback snapshot for the data directory's entries (name, regular
/// file): every existing last-connection file, then every known last-connection name that
/// is absent.
pub fn plan_snapshot_entries(dir: &Vec<(String, bool)>) -> (r: Vec<LastconnEntryState>)
    ensures
        entries_view(r@) == snapshot_plan_spec(dir_view(dir@)),
{
    let ghost dv = dir_view(dir@);
    let mut out: Vec<LastconnEntryState> = Vec::new();
    let mut k: usize = 0;
    while k < dir.len()
        invariant
            k <= dir@.len(),
            dv == dir_view(dir@),
            entries_view(out@) == existed_entries(dv.take(k as int)),
        decreases dir@.len() - k,
    {
        proof {
            assert(dv.take(k + 1).drop_last() =~= dv.take(k as int));
        }
        if dir[k].1 && is_lastconn_persistence_file(dir[k].0.as_str()) {
            let e = LastconnEntryState::Existed { file_name: dir[k].0.clone() };
            proof {
                assert(entries_view(out@.push(e)) =~= entries_view(out@).push(entry_view(e)));
            }
            out.push(e);
        }
        k = k + 1;
    }
    proof {
        assert(dv.take(k as int) =~= dv);
    }
    let ghost existed = entries_view(out@);
    let known = known_lastconn_filenames();
    let ghost kv = known@.map_values(|n: &str| n@);
    let mut j: usize = 0;
    while j < known.len()
        invariant
            j <= known@.len(),
            dv == dir_view(dir@),
            kv == known@.map_values(|n: &str| n@),
            kv == known_lastconn_names(),
            existed == existed_entries(dv),
            entries_view(out@) == existed + absent_entries(dv, kv.take(j as int)),
        decreases known@.len() - j,
    {
        proof {
            assert(kv.take(j + 1).drop_last() =~= kv.take(j as int));
        }
        if !dir_has_exec(dir, known[j]) {
            let e = LastconnEntryState::Absent { file_name: str_to_string(known[j]) };
            proof {
                assert(entries_view(out@.push(e)) =~= entries_view(out@).push(entry_view(e)));
            }
            out.push(e);
        }
        j = j + 1;
    }
    proof {
        assert(kv.take(j as int) =~= kv);
    }
    out
}

/// Every file that the snapshot keeps is a regular last-connection file of the directory;
/// in particular no identity, key, certificate or configuration file is ever kept.
pub proof fn law_snapshot_keeps_only_lastconn_files(dir: Seq<(Seq<char>, bool)>, i: int)
    requires
        0 <= i < snapshot_plan_spec(dir).len(),
        snapshot_plan_spec(dir)[i].0,
    ensures
        lastconn_file_spec(snapshot_plan_spec(dir)[i].1),
        !protected_name(crate::text::unicode_lowercase(snapshot_plan_spec(dir)[i].1)),
{
    lemma_existed_are_lastconn(dir);
    lemma_absent_not_existed(dir, known_lastconn_names());
    let e = existed_entries(dir);
    if i >= e.len() {
        assert(snapshot_plan_spec(dir)[i] == absent_entries(dir, known_lastconn_names())[i - e.len()]);
    } else {
        assert(snapshot_plan_spec(dir)[i] == e[i]);
    }
}

proof fn lemma_existed_are_lastconn(dir: Seq<(Seq<char>, bool)>)
    ensures
        forall|i: int|
            0 <= i < existed_entries(dir).len() ==> (#[trigger] existed_entries(dir)[i]).0
                && lastconn_file_spec(existed_entries(dir)[i].1),
    decreases dir.len(),
{
    if dir.len() > 0 {
        lemma_existed_are_lastconn(dir.drop_last());
        let rest = existed_entries(dir.drop_last());
        assert forall|i: int| 0 <= i < existed_entries(dir).len() implies (#[trigger] existed_entries(
            dir,
        )[i]).0 && lastconn_file_spec(existed_entries(dir)[i].1) by {
            if i < rest.len() {
                assert(existed_entries(dir)[i] == rest[i]);
            }
        }
    }
}

proof fn lemma_absent_not_existed(dir: Seq<(Seq<char>, bool)>, known: Seq<Seq<char>>)
    ensures
        forall|i: int|
            0 <= i < absent_entries(dir, known).len() ==> !(#[trigger] absent_entries(dir, known)[i]).0,
    decreases known.len(),
{
    if known.len() > 0 {
        lemma_absent_not_existed(dir, known.drop_last());
        let rest = absent_entries(dir, known.drop_last());
        assert forall|i: int| 0 <= i < absent_entries(dir, known).len() implies !(
        #[trigger] absent_entries(dir, known)[i]).0 by {
            if i < rest.len() {
                assert(absent_entries(dir, known)[i] == rest[i]);
            }
        }
    }
}

} // verus!
