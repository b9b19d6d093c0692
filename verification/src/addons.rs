//! The add-on registry: the optional tetron add-ons this dashboard can list,
//! detect, and (for script add-ons) install and remove on this host, and the
//! rules for where each one lives and what installing or removing it means.
//!
//! Release-binary add-ons (the systray) live in the root-owned
//! `/usr/local/bin`, which this unprivileged dashboard cannot write: it can
//! detect and uninstall them, but installing is left to the suite installer
//! run by hand. Script add-ons (Config Backup) install unprivileged into
//! `~/.local/bin`.

use vstd::prelude::*;
use crate::text::{opt_chars, result_chars, str_concat, str_eq, trimmed, trim_string, lossy_string, utf8_lossy};

verus! {

/// One add-on the dashboard knows of.
#[derive(Clone, Copy, Debug)]
pub struct AddonSpec {
    pub id: &'static str,
    pub display_name: &'static str,
    pub description: &'static str,
    pub github_repo: &'static str,
    /// Whether this is a single release binary or script the dashboard can
    /// detect and uninstall; `false` for add-ons that are a whole environment
    /// or a remote-host tool, shown as a name, description and link only.
    pub installable: bool,
    pub binary_name: &'static str,
    /// Whether the artifact is a bare script fetched from the backup-script
    /// URL into `~/.local/bin`, rather than a release binary.
    pub script: bool,
    /// The systemd --user unit the add-on registers (Linux).
    pub linux_unit: &'static str,
    /// The launchd label the add-on registers (macOS).
    pub macos_label: &'static str,
    /// Whether the dashboard has an instructions pop-up for it.
    pub details: bool,
}

/// Where the Config Backup script lives upstream.
pub const DEFAULT_BACKUP_SCRIPT_URL: &'static str =
    "https://raw.githubusercontent.com/ErikAllanKincaid/tetron/main/contrib/tetron-backup.sh";

/// Where release-binary add-ons are installed.
pub const SYSTEM_BIN_DIR: &'static str = "/usr/local/bin";

/// The effective upstream URL of the backup script: the value of the
/// `TETRON_BACKUP_RAW_URL` override where it is set (`env_value`), else the
/// default.
pub fn backup_script_url(env_value: Option<String>) -> (r: String)
    ensures
        r@ == (match env_value {
            Some(v) => v@,
            None => DEFAULT_BACKUP_SCRIPT_URL@,
        }),
{
    match env_value {
        Some(v) => v,
        None => String::from_str(DEFAULT_BACKUP_SCRIPT_URL),
    }
}

pub open spec fn systray_addon() -> AddonSpec {
    AddonSpec {
        id: "systray",
        display_name: "Systray",
        description: "Menu-bar tray icon with per-network status and quick actions.",
        github_repo: "ErikAllanKincaid/tetron-systray",
        installable: true,
        binary_name: "tetron-systray",
        linux_unit: "tetron-systray",
        macos_label: "com.tetron.systray",
        script: false,
        details: false,
    }
}

pub open spec fn backup_addon() -> AddonSpec {
    AddonSpec {
        id: "backup",
        display_name: "Config Backup",
        description: "Passphrase-encrypted tar+age backup tetron config tree (secret_key, settings.toml, every networks/*.toml).",
        github_repo: "ErikAllanKincaid/tetron",
        installable: true,
        binary_name: "tetron-backup.sh",
        linux_unit: "",
        macos_label: "",
        script: true,
        details: true,
    }
}

pub open spec fn relay_addon() -> AddonSpec {
    AddonSpec {
        id: "relay",
        display_name: "Relay",
        description: "Bringup tool that turns a plain Linux server into a self-hosted iroh relay for your fleet's NAT-traversal fallback.",
        github_repo: "ErikAllanKincaid/tetron-relay",
        installable: false,
        binary_name: "",
        linux_unit: "",
        macos_label: "",
        script: false,
        details: false,
    }
}

pub open spec fn testsuite_addon() -> AddonSpec {
    AddonSpec {
        id: "testsuite",
        display_name: "Test Suite",
        description: "VM-based automated test suite that drives tetron through its own CLI to assert on real network behavior.",
        github_repo: "ErikAllanKincaid/tetron-testsuite",
        installable: false,
        binary_name: "",
        linux_unit: "",
        macos_label: "",
        script: false,
        details: false,
    }
}

/// The registry, in the order the dashboard lists it.
pub open spec fn addon_registry() -> Seq<AddonSpec> {
    seq![systray_addon(), backup_addon(), relay_addon(), testsuite_addon()]
}

/// The registry of add-ons.
pub fn addons() -> (r: Vec<AddonSpec>)
    ensures
        r@ == addon_registry(),
{
    let mut r: Vec<AddonSpec> = Vec::new();
    r.push(
        AddonSpec {
            id: "systray",
            display_name: "Systray",
            description: "Menu-bar tray icon with per-network status and quick actions.",
            github_repo: "ErikAllanKincaid/tetron-systray",
            installable: true,
            binary_name: "tetron-systray",
            linux_unit: "tetron-systray",
            macos_label: "com.tetron.systray",
            script: false,
            details: false,
        },
    );
    r.push(
        AddonSpec {
            id: "backup",
            display_name: "Config Backup",
            description: "Passphrase-encrypted tar+age backup tetron config tree (secret_key, settings.toml, every networks/*.toml).",
            github_repo: "ErikAllanKincaid/tetron",
            installable: true,
            binary_name: "tetron-backup.sh",
            linux_unit: "",
            macos_label: "",
            script: true,
            details: true,
        },
    );
    r.push(
        AddonSpec {
            id: "relay",
            display_name: "Relay",
            description: "Bringup tool that turns a plain Linux server into a self-hosted iroh relay for your fleet's NAT-traversal fallback.",
            github_repo: "ErikAllanKincaid/tetron-relay",
            installable: false,
            binary_name: "",
            linux_unit: "",
            macos_label: "",
            script: false,
            details: false,
        },
    );
    r.push(
        AddonSpec {
            id: "testsuite",
            display_name: "Test Suite",
            description: "VM-based automated test suite that drives tetron through its own CLI to assert on real network behavior.",
            github_repo: "ErikAllanKincaid/tetron-testsuite",
            installable: false,
            binary_name: "",
            linux_unit: "",
            macos_label: "",
            script: false,
            details: false,
        },
    );
    assert(r@ =~= addon_registry());
    r
}

} // verus!

verus! {

/// The first add-on of `s` with the id `id`.
pub open spec fn first_with_id(s: Seq<AddonSpec>, id: Seq<char>) -> Option<AddonSpec>
    decreases s.len(),
{
    if s.len() == 0 {
        None
    } else if s[0].id@ == id {
        Some(s[0])
    } else {
        first_with_id(s.drop_first(), id)
    }
}

/// The registered add-on with the id `id`, if any.
pub open spec fn lookup(id: Seq<char>) -> Option<AddonSpec> {
    first_with_id(addon_registry(), id)
}

/// The error for an id the registry does not hold.
pub open spec fn unknown_addon_message(id: Seq<char>) -> Seq<char> {
    "unknown addon: "@ + id
}

/// The registered add-on with the id `id`, or the unknown-add-on error.
pub fn find(id: &str) -> (r: Result<AddonSpec, String>)
    ensures
        match lookup(id@) {
            Some(s) => r == Ok::<AddonSpec, String>(s),
            None => r matches Err(e) && e@ == unknown_addon_message(id@),
        },
{
    let reg = addons();
    let n = reg.len();
    let mut i: usize = 0;
    assert(reg@.subrange(0, n as int) =~= reg@);
    while i < n
        invariant
            n == reg@.len(),
            reg@ == addon_registry(),
            i <= n,
            first_with_id(reg@, id@) == first_with_id(reg@.subrange(i as int, n as int), id@),
        decreases n - i,
    {
        assert(reg@.subrange(i as int, n as int).drop_first() =~= reg@.subrange(i + 1, n as int));
        if str_eq(reg[i].id, id) {
            return Ok(reg[i]);
        }
        i = i + 1;
    }
    Err(str_concat("unknown addon: ", id))
}

/// Joining the relative or absolute path `rel` onto `base`, as
/// `PathBuf::join` does on Unix: an absolute `rel` replaces `base`; else a
/// `/` separates them unless `base` is empty or already ends in one.
pub open spec fn joined(base: Seq<char>, rel: Seq<char>) -> Seq<char> {
    if rel.len() > 0 && rel[0] == '/' {
        rel
    } else if base.len() == 0 || base.last() == '/' {
        base + rel
    } else {
        base + seq!['/'] + rel
    }
}

/// `rel` joined onto `base` as a path.
pub fn path_join(base: &str, rel: &str) -> (r: String)
    ensures
        r@ == joined(base@, rel@),
{
    let rn = rel.unicode_len();
    if rn > 0 && rel.get_char(0) == '/' {
        return String::from_str(rel);
    }
    let bn = base.unicode_len();
    let mut r = String::from_str(base);
    if bn > 0 && base.get_char(bn - 1) != '/' {
        crate::text::push_char(&mut r, '/');
    }
    r.append(rel);
    r
}

/// The error where the home directory cannot be determined.
pub open spec fn no_home_message() -> Seq<char> {
    "could not determine home directory"@
}

/// Where an add-on is installed, given the user's home directory (`None`
/// where it cannot be determined): `~/.local/bin` for a script add-on,
/// `/usr/local/bin` for a release binary.
pub open spec fn install_dir_in(spec: AddonSpec, home: Option<Seq<char>>) -> Result<Seq<char>, Seq<char>> {
    if spec.script {
        match home {
            Some(h) => Ok(joined(h, ".local/bin"@)),
            None => Err(no_home_message()),
        }
    } else {
        Ok(SYSTEM_BIN_DIR@)
    }
}

/// Where an add-on's binary or script file is, given the home directory.
pub open spec fn binary_path_in(spec: AddonSpec, home: Option<Seq<char>>) -> Result<Seq<char>, Seq<char>> {
    match install_dir_in(spec, home) {
        Ok(d) => Ok(joined(d, spec.binary_name@)),
        Err(e) => Err(e),
    }
}

/// Calls `dirs::home_dir` and gives the directory as text. A directory whose
/// path is not valid UTF-8 comes back with U+FFFD in place of the invalid
/// bytes, as `to_string_lossy` writes it. What comes back depends on the
/// environment and the user database; nothing is promised.
#[verifier::external_body]
fn home_dir() -> (r: Option<String>) {
    match dirs::home_dir() {
        Some(p) => Some(p.to_string_lossy().into_owned()),
        None => None,
    }
}

/// The directory an add-on is installed in, for a home directory given as
/// text (`None` where it cannot be determined).
pub fn install_dir_for(spec: &AddonSpec, home: Option<String>) -> (r: Result<String, String>)
    ensures
        result_chars(r) == install_dir_in(*spec, opt_chars(home)),
{
    if spec.script {
        match home {
            Some(h) => Ok(path_join(h.as_str(), ".local/bin")),
            None => Err(String::from_str("could not determine home directory")),
        }
    } else {
        Ok(String::from_str(SYSTEM_BIN_DIR))
    }
}

/// The directory an add-on is installed in on this host. Only a script
/// add-on's depends on the home directory, which is looked up here.
pub fn install_dir(spec: &AddonSpec) -> (r: Result<String, String>)
    ensures
        exists|home: Option<Seq<char>>| result_chars(r) == install_dir_in(*spec, home),
        !spec.script ==> result_chars(r) == Ok::<Seq<char>, Seq<char>>(SYSTEM_BIN_DIR@),
{
    let home = if spec.script {
        home_dir()
    } else {
        None
    };
    let r = install_dir_for(spec, home);
    assert(result_chars(r) == install_dir_in(*spec, opt_chars(home)));
    r
}

/// The path of an add-on's binary or script, for a home directory given as text.
pub fn binary_path_for(spec: &AddonSpec, home: Option<String>) -> (r: Result<String, String>)
    ensures
        result_chars(r) == binary_path_in(*spec, opt_chars(home)),
{
    match install_dir_for(spec, home) {
        Ok(d) => Ok(path_join(d.as_str(), spec.binary_name)),
        Err(e) => Err(e),
    }
}

/// The path of an add-on's binary or script on this host.
pub fn binary_path(spec: &AddonSpec) -> (r: Result<String, String>)
    ensures
        exists|home: Option<Seq<char>>| result_chars(r) == binary_path_in(*spec, home),
        !spec.script ==> result_chars(r) == Ok::<Seq<char>, Seq<char>>(joined(SYSTEM_BIN_DIR@, spec.binary_name@)),
{
    let home = if spec.script {
        home_dir()
    } else {
        None
    };
    let r = binary_path_for(spec, home);
    assert(result_chars(r) == binary_path_in(*spec, opt_chars(home)));
    r
}

/// A script add-on's file lies in `.local/bin` under whatever home directory
/// it is given, and its path fails to form only where no home directory is
/// known; a release binary's lies in the system directory whatever the home.
pub proof fn script_path_under_given_home(spec: AddonSpec, home: Option<String>, r: Result<String, String>)
    requires
        result_chars(r) == binary_path_in(spec, opt_chars(home)),
    ensures
        spec.script ==> (r is Err <==> home is None),
        spec.script && home is Some ==> r->Ok_0@ == joined(joined(home->Some_0@, ".local/bin"@), spec.binary_name@),
        spec.script && home is None ==> r->Err_0@ == "could not determine home directory"@,
        !spec.script ==> r->Ok_0@ == joined(SYSTEM_BIN_DIR@, spec.binary_name@),
{
}

} // verus!

verus! {

/// How to tell whether an add-on is installed on this host.
#[derive(Debug)]
pub enum InstallProbe {
    /// Nothing to look at: the add-on counts as not installed.
    Skip,
    /// A script add-on is installed when this file exists.
    ScriptFile { path: String },
    /// A release-binary add-on is installed when its per-user service is
    /// active (the unit on Linux, the label on macOS).
    Service { linux_unit: &'static str, macos_label: &'static str },
}

/// `p` is how the status of `spec` is found: a script add-on by its file
/// (no probe where its path cannot be formed), an installable release binary
/// by its service, a link-only add-on not at all.
pub open spec fn probe_fits(spec: AddonSpec, p: InstallProbe) -> bool {
    if spec.script {
        exists|home: Option<Seq<char>>|
            match #[trigger] binary_path_in(spec, home) {
                Ok(path) => p matches InstallProbe::ScriptFile { path: q } && q@ == path,
                Err(_) => p is Skip,
            }
    } else if spec.installable {
        p == (InstallProbe::Service { linux_unit: spec.linux_unit, macos_label: spec.macos_label })
    } else {
        p is Skip
    }
}

/// How to tell whether `spec` is installed on this host.
pub fn status_probe(spec: &AddonSpec) -> (p: InstallProbe)
    ensures
        probe_fits(*spec, p),
{
    if spec.script {
        let home = home_dir();
        let path = binary_path_for(spec, home);
        let p = match path {
            Ok(path) => InstallProbe::ScriptFile { path },
            Err(_) => InstallProbe::Skip,
        };
        assert(match binary_path_in(*spec, opt_chars(home)) {
            Ok(q) => p matches InstallProbe::ScriptFile { path: r } && r@ == q,
            Err(_) => p is Skip,
        });
        p
    } else if spec.installable {
        InstallProbe::Service { linux_unit: spec.linux_unit, macos_label: spec.macos_label }
    } else {
        InstallProbe::Skip
    }
}

/// How to tell, for each registered add-on in order, whether it is installed.
pub fn status_probes() -> (r: Vec<InstallProbe>)
    ensures
        r@.len() == addon_registry().len(),
        forall|i: int| 0 <= i < r@.len() ==> probe_fits(addon_registry()[i], #[trigger] r@[i]),
{
    let reg = addons();
    let mut r: Vec<InstallProbe> = Vec::new();
    let mut i: usize = 0;
    while i < reg.len()
        invariant
            reg@ == addon_registry(),
            i <= reg@.len(),
            r@.len() == i,
            forall|j: int| 0 <= j < i ==> probe_fits(addon_registry()[j], #[trigger] r@[j]),
        decreases reg@.len() - i,
    {
        r.push(status_probe(&reg[i]));
        i = i + 1;
    }
    r
}

/// Whether an add-on counts as installed: what its probe observed, and never
/// where there was nothing to probe.
pub open spec fn installed_from(p: InstallProbe, observed: bool) -> bool {
    match p {
        InstallProbe::Skip => false,
        _ => observed,
    }
}

/// One add-on's row as the dashboard lists it.
#[derive(Debug)]
pub struct AddonStatus {
    pub id: &'static str,
    pub display_name: &'static str,
    pub description: &'static str,
    pub github_repo: &'static str,
    pub installable: bool,
    pub installed: bool,
    pub details: bool,
    /// The effective backup-script URL, for the add-on whose pop-up points at
    /// that script (Config Backup); `None` for every other add-on.
    pub script_url: Option<String>,
}

/// `st` is the row of `spec`, with the given installed state and backup URL.
pub open spec fn status_row(spec: AddonSpec, installed: bool, url: Seq<char>, st: AddonStatus) -> bool {
    &&& st.id == spec.id
    &&& st.display_name == spec.display_name
    &&& st.description == spec.description
    &&& st.github_repo == spec.github_repo
    &&& st.installable == spec.installable
    &&& st.installed == installed
    &&& st.details == spec.details
    &&& opt_chars(st.script_url) == (if spec.id@ == "backup"@ {
        Some(url)
    } else {
        None
    })
}

/// The dashboard's add-on list, from the probe of each registered add-on (as
/// `status_probes` gives them) and what each probe observed (`false` where it
/// was `Skip`).
pub fn list_status(probes: &Vec<InstallProbe>, observed: &Vec<bool>, backup_url: &str) -> (r: Vec<AddonStatus>)
    requires
        probes@.len() == addon_registry().len(),
        observed@.len() == addon_registry().len(),
    ensures
        r@.len() == addon_registry().len(),
        forall|i: int|
            0 <= i < r@.len() ==> status_row(
                addon_registry()[i],
                installed_from(probes@[i], observed@[i]),
                backup_url@,
                #[trigger] r@[i],
            ),
{
    let reg = addons();
    let mut r: Vec<AddonStatus> = Vec::new();
    let mut i: usize = 0;
    while i < reg.len()
        invariant
            reg@ == addon_registry(),
            probes@.len() == reg@.len(),
            observed@.len() == reg@.len(),
            i <= reg@.len(),
            r@.len() == i,
            forall|j: int|
                0 <= j < i ==> status_row(
                    addon_registry()[j],
                    installed_from(probes@[j], observed@[j]),
                    backup_url@,
                    #[trigger] r@[j],
                ),
        decreases reg@.len() - i,
    {
        let spec = reg[i];
        let installed = match &probes[i] {
            InstallProbe::Skip => false,
            _ => observed[i],
        };
        let script_url = if str_eq(spec.id, "backup") {
            Some(String::from_str(backup_url))
        } else {
            None
        };
        r.push(
            AddonStatus {
                id: spec.id,
                display_name: spec.display_name,
                description: spec.description,
                github_repo: spec.github_repo,
                installable: spec.installable,
                installed,
                details: spec.details,
                script_url,
            },
        );
        i = i + 1;
    }
    r
}

/// A link-only add-on (neither installable nor a script) is never listed as
/// installed, whatever was observed.
pub proof fn link_only_addons_never_installed(
    probes: Seq<InstallProbe>,
    observed: Seq<bool>,
    url: Seq<char>,
    rows: Seq<AddonStatus>,
    i: int,
)
    requires
        0 <= i < addon_registry().len(),
        probes.len() == addon_registry().len(),
        observed.len() == addon_registry().len(),
        rows.len() == addon_registry().len(),
        forall|j: int| 0 <= j < probes.len() ==> probe_fits(addon_registry()[j], #[trigger] probes[j]),
        forall|j: int|
            0 <= j < rows.len() ==> status_row(
                addon_registry()[j],
                installed_from(probes[j], observed[j]),
                url,
                #[trigger] rows[j],
            ),
        !addon_registry()[i].installable,
        !addon_registry()[i].script,
    ensures
        !rows[i].installed,
{
    assert(probe_fits(addon_registry()[i], probes[i]));
    assert(status_row(addon_registry()[i], installed_from(probes[i], observed[i]), url, rows[i]));
}

/// Whether `systemctl --user is-active` printed `active`: its output, read
/// as text and trimmed, is exactly that word.
pub fn service_reported_active(stdout: &[u8]) -> (r: bool)
    ensures
        r == (trimmed(utf8_lossy(stdout@)) == "active"@),
{
    let text = lossy_string(stdout);
    let t = trim_string(text.as_str());
    str_eq(t.as_str(), "active")
}

} // verus!

verus! {

/// The refusal for an add-on that is not installed locally.
pub open spec fn not_local_message(spec: AddonSpec) -> Seq<char> {
    spec.display_name@ + " is not a locally installable addon -- see https://github.com/"@
        + spec.github_repo@ + " for setup instructions"@
}

/// The refusal for a release-binary add-on, which needs root to install:
/// the suite-installer command to run by hand instead.
pub open spec fn needs_root_message(spec: AddonSpec, id: Seq<char>) -> Seq<char> {
    spec.display_name@
        + " installs to /usr/local/bin, which needs root -- this webui can't do that for you. Run this in a terminal: curl -fsSL https://raw.githubusercontent.com/ErikAllanKincaid/tetron/main/contrib/install-tetron-suite.sh | bash -s -- --install-"@
        + id
}

/// What a request to install the add-on `id` comes to: the script add-on to
/// download, or the refusal.
pub open spec fn install_decision(id: Seq<char>) -> Result<AddonSpec, Seq<char>> {
    match lookup(id) {
        None => Err(unknown_addon_message(id)),
        Some(spec) => if !spec.installable {
            Err(not_local_message(spec))
        } else if spec.script {
            Ok(spec)
        } else {
            Err(needs_root_message(spec, id))
        },
    }
}

/// What a request to uninstall the add-on `id` comes to: the add-on to
/// remove, or the refusal.
pub open spec fn uninstall_decision(id: Seq<char>) -> Result<AddonSpec, Seq<char>> {
    match lookup(id) {
        None => Err(unknown_addon_message(id)),
        Some(spec) => if !spec.installable {
            Err(not_local_message(spec))
        } else {
            Ok(spec)
        },
    }
}

fn not_local(spec: &AddonSpec) -> (r: String)
    ensures
        r@ == not_local_message(*spec),
{
    let mut m = String::from_str(spec.display_name);
    m.append(" is not a locally installable addon -- see https://github.com/");
    m.append(spec.github_repo);
    m.append(" for setup instructions");
    m
}

/// Installing the add-on `id`: a script add-on comes back to be downloaded
/// into place (see the script-install steps below); anything else is
/// refused, a release binary with the installer command to run as root.
pub fn install(id: &str) -> (r: Result<AddonSpec, String>)
    ensures
        match install_decision(id@) {
            Ok(spec) => r == Ok::<AddonSpec, String>(spec),
            Err(m) => r matches Err(e) && e@ == m,
        },
{
    let spec = match find(id) {
        Ok(s) => s,
        Err(e) => {
            return Err(e);
        },
    };
    if !spec.installable {
        return Err(not_local(&spec));
    }
    if spec.script {
        return Ok(spec);
    }
    let mut m = String::from_str(spec.display_name);
    m.append(
        " installs to /usr/local/bin, which needs root -- this webui can't do that for you. Run this in a terminal: curl -fsSL https://raw.githubusercontent.com/ErikAllanKincaid/tetron/main/contrib/install-tetron-suite.sh | bash -s -- --install-",
    );
    m.append(id);
    Err(m)
}

/// Uninstalling the add-on `id`: the add-on to remove, or the refusal (the
/// removal itself goes by the steps `begin_uninstall` starts).
pub fn uninstall(id: &str) -> (r: Result<AddonSpec, String>)
    ensures
        match uninstall_decision(id@) {
            Ok(spec) => r == Ok::<AddonSpec, String>(spec),
            Err(m) => r matches Err(e) && e@ == m,
        },
{
    let spec = match find(id) {
        Ok(s) => s,
        Err(e) => {
            return Err(e);
        },
    };
    if !spec.installable {
        return Err(not_local(&spec));
    }
    Ok(spec)
}

/// The refusal to uninstall an add-on whose file is not there.
pub fn not_installed(spec: &AddonSpec) -> (r: String)
    ensures
        r@ == spec.display_name@ + " is not installed"@,
{
    str_concat(spec.display_name, " is not installed")
}

/// The error where downloading the script failed.
pub fn script_download_failed(url: &str, error: &str) -> (r: String)
    ensures
        r@ == "failed to download script from "@ + url@ + ": "@ + error@,
{
    let mut m = String::from_str("failed to download script from ");
    m.append(url);
    m.append(": ");
    m.append(error);
    m
}

/// The check on the downloaded script, before it may replace an installed
/// copy: it must not be empty.
pub fn check_script_download(url: &str, len: u64) -> (r: Result<(), String>)
    ensures
        r is Ok <==> len > 0,
        r matches Err(e) ==> e@ == "downloaded script from "@ + url@ + " is empty -- aborting install"@,
{
    if len > 0 {
        Ok(())
    } else {
        let mut m = String::from_str("downloaded script from ");
        m.append(url);
        m.append(" is empty -- aborting install");
        Err(m)
    }
}

/// The error where copying the script into place failed.
pub fn script_copy_failed(dest: &str, error: &str) -> (r: String)
    ensures
        r@ == "failed to install to "@ + dest@ + ": "@ + error@,
{
    let mut m = String::from_str("failed to install to ");
    m.append(dest);
    m.append(": ");
    m.append(error);
    m
}

/// The confirmation of the script add-on named `display_name` installed at `dest`.
pub fn script_installed(display_name: &str, dest: &str) -> (r: String)
    ensures
        r@ == display_name@ + " installed at "@ + dest@ + " (no root needed)."@,
{
    let mut m = String::from_str(display_name);
    m.append(" installed at ");
    m.append(dest);
    m.append(" (no root needed).");
    m
}

/// The outcome of removing a script add-on's file: a confirmation, or, where
/// the file could not be removed, a note saying so. Either way the action
/// succeeds (there is no service to have torn down).
pub fn script_removed(spec: &AddonSpec, dest: &str, removal: Result<(), String>) -> (r: String)
    ensures
        match removal {
            Ok(_) => r@ == spec.display_name@ + " script removed from "@ + dest@ + "."@,
            Err(e) => r@ == spec.display_name@ + " script at "@ + dest@ + " could not be removed: "@ + e@
                + ". Delete it manually if you want a full cleanup."@,
        },
{
    let mut m = String::from_str(spec.display_name);
    match removal {
        Ok(_) => {
            m.append(" script removed from ");
            m.append(dest);
            m.append(".");
        },
        Err(e) => {
            m.append(" script at ");
            m.append(dest);
            m.append(" could not be removed: ");
            m.append(e.as_str());
            m.append(". Delete it manually if you want a full cleanup.");
        },
    }
    m
}

/// The outcome of removing a release binary once its service was torn
/// down: a confirmation, or, where the root-owned binary could not be
/// removed, a note saying so. Either way the action succeeds: a failed
/// removal does not undo the teardown.
pub fn uninstall_service(spec: &AddonSpec, dest: &str, removal: Result<(), String>) -> (r: String)
    ensures
        match removal {
            Ok(_) => r@ == spec.display_name@ + " uninstalled."@,
            Err(e) => r@ == spec.display_name@ + " service stopped, but its binary at "@ + dest@
                + " could not be removed: "@ + e@ + ". Delete it manually if you want a full cleanup."@,
        },
{
    let mut m = String::from_str(spec.display_name);
    match removal {
        Ok(_) => {
            m.append(" uninstalled.");
        },
        Err(e) => {
            m.append(" service stopped, but its binary at ");
            m.append(dest);
            m.append(" could not be removed: ");
            m.append(e.as_str());
            m.append(". Delete it manually if you want a full cleanup.");
        },
    }
    m
}

} // verus!

verus! {

/// The step of installing a script add-on that comes next, or the result.
/// The order is fixed: download into a temporary file, measure it, make the
/// install directory, copy the file into place, make it executable.
#[derive(Debug)]
pub enum ScriptPhase {
    Downloading,
    Measuring,
    MakingDir,
    Copying,
    MakingExecutable,
    Finished(Result<String, String>),
}

/// A script phase with its result as text.
pub enum InstallStage {
    Downloading,
    Measuring,
    MakingDir,
    Copying,
    MakingExecutable,
    Finished(Result<Seq<char>, Seq<char>>),
}

/// The stage a phase stands for.
pub open spec fn stage_of(p: ScriptPhase) -> InstallStage {
    match p {
        ScriptPhase::Downloading => InstallStage::Downloading,
        ScriptPhase::Measuring => InstallStage::Measuring,
        ScriptPhase::MakingDir => InstallStage::MakingDir,
        ScriptPhase::Copying => InstallStage::Copying,
        ScriptPhase::MakingExecutable => InstallStage::MakingExecutable,
        ScriptPhase::Finished(r) => InstallStage::Finished(result_chars(r)),
    }
}

/// One step of a script install: from a stage and the outcome of its step
/// (for the measuring step, the downloaded file's length) to the next stage.
pub open spec fn script_step(
    name: Seq<char>,
    url: Seq<char>,
    dest: Seq<char>,
    stage: InstallStage,
    outcome: Result<u64, Seq<char>>,
) -> InstallStage {
    match stage {
        InstallStage::Downloading => match outcome {
            Ok(_) => InstallStage::Measuring,
            Err(e) => InstallStage::Finished(Err("failed to download script from "@ + url + ": "@ + e)),
        },
        InstallStage::Measuring => match outcome {
            Ok(len) => if len > 0 {
                InstallStage::MakingDir
            } else {
                InstallStage::Finished(Err("downloaded script from "@ + url + " is empty -- aborting install"@))
            },
            Err(e) => InstallStage::Finished(Err(e)),
        },
        InstallStage::MakingDir => match outcome {
            Ok(_) => InstallStage::Copying,
            Err(e) => InstallStage::Finished(Err(e)),
        },
        InstallStage::Copying => match outcome {
            Ok(_) => InstallStage::MakingExecutable,
            Err(e) => InstallStage::Finished(Err("failed to install to "@ + dest + ": "@ + e)),
        },
        InstallStage::MakingExecutable => match outcome {
            Ok(_) => InstallStage::Finished(Ok(name + " installed at "@ + dest + " (no root needed)."@)),
            Err(e) => InstallStage::Finished(Err(e)),
        },
        InstallStage::Finished(r) => InstallStage::Finished(r),
    }
}

/// The stage reached from `stage` after the given step outcomes, in order.
pub open spec fn stage_after(
    name: Seq<char>,
    url: Seq<char>,
    dest: Seq<char>,
    stage: InstallStage,
    outcomes: Seq<Result<u64, Seq<char>>>,
) -> InstallStage
    decreases outcomes.len(),
{
    if outcomes.len() == 0 {
        stage
    } else {
        script_step(name, url, dest, stage_after(name, url, dest, stage, outcomes.drop_last()), outcomes.last())
    }
}

/// An install of a script add-on in progress: what to fetch, where to put
/// it, and the step that comes next.
pub struct ScriptInstall {
    display_name: &'static str,
    url: String,
    dest: String,
    phase: ScriptPhase,
}

impl ScriptInstall {
    /// The add-on's display name, the source URL and the destination path.
    pub closed spec fn parts(self) -> (Seq<char>, Seq<char>, Seq<char>) {
        (self.display_name@, self.url@, self.dest@)
    }

    /// The stage the install is at.
    pub closed spec fn stage(self) -> InstallStage {
        stage_of(self.phase)
    }

    /// Starts installing the script add-on `spec` from `url` to `dest`: the
    /// first step is the download into a temporary file.
    pub fn start(spec: &AddonSpec, url: String, dest: String) -> (r: Self)
        ensures
            r.parts() == (spec.display_name@, url@, dest@),
            r.stage() == InstallStage::Downloading,
    {
        ScriptInstall { display_name: spec.display_name, url, dest, phase: ScriptPhase::Downloading }
    }

    /// The step to carry out next, or the result.
    pub fn phase(&self) -> (r: &ScriptPhase)
        ensures
            stage_of(*r) == self.stage(),
    {
        &self.phase
    }

    /// The URL to download from.
    pub fn url(&self) -> (r: &String)
        ensures
            r@ == self.parts().1,
    {
        &self.url
    }

    /// The path to install to.
    pub fn dest(&self) -> (r: &String)
        ensures
            r@ == self.parts().2,
    {
        &self.dest
    }

    /// Moves on with the outcome of the current step (for the measuring
    /// step, the downloaded file's length; the number is not read otherwise).
    pub fn advance(&mut self, outcome: Result<u64, String>)
        ensures
            final(self).parts() == old(self).parts(),
            final(self).stage() == script_step(
                old(self).parts().0,
                old(self).parts().1,
                old(self).parts().2,
                old(self).stage(),
                match outcome {
                    Ok(n) => Ok::<u64, Seq<char>>(n),
                    Err(e) => Err::<u64, Seq<char>>(e@),
                },
            ),
    {
        let next = match &self.phase {
            ScriptPhase::Downloading => match outcome {
                Ok(_) => ScriptPhase::Measuring,
                Err(e) => ScriptPhase::Finished(Err(script_download_failed(self.url.as_str(), e.as_str()))),
            },
            ScriptPhase::Measuring => match outcome {
                Ok(len) => match check_script_download(self.url.as_str(), len) {
                    Ok(()) => ScriptPhase::MakingDir,
                    Err(m) => ScriptPhase::Finished(Err(m)),
                },
                Err(e) => ScriptPhase::Finished(Err(e)),
            },
            ScriptPhase::MakingDir => match outcome {
                Ok(_) => ScriptPhase::Copying,
                Err(e) => ScriptPhase::Finished(Err(e)),
            },
            ScriptPhase::Copying => match outcome {
                Ok(_) => ScriptPhase::MakingExecutable,
                Err(e) => ScriptPhase::Finished(Err(script_copy_failed(self.dest.as_str(), e.as_str()))),
            },
            ScriptPhase::MakingExecutable => match outcome {
                Ok(_) => ScriptPhase::Finished(Ok(script_installed(self.display_name, self.dest.as_str()))),
                Err(e) => ScriptPhase::Finished(Err(e)),
            },
            ScriptPhase::Finished(r) => ScriptPhase::Finished(
                match r {
                    Ok(m) => Ok(m.clone()),
                    Err(e) => Err(e.clone()),
                },
            ),
        };
        self.phase = next;
    }
}

proof fn lemma_stage_history(
    name: Seq<char>,
    url: Seq<char>,
    dest: Seq<char>,
    outcomes: Seq<Result<u64, Seq<char>>>,
)
    ensures
        stage_after(name, url, dest, InstallStage::Downloading, outcomes) is Downloading ==> outcomes.len() == 0,
        stage_after(name, url, dest, InstallStage::Downloading, outcomes) is Measuring ==> outcomes.len() == 1
            && outcomes[0] is Ok,
        stage_after(name, url, dest, InstallStage::Downloading, outcomes) is MakingDir ==> outcomes.len() == 2
            && outcomes[0] is Ok && outcomes[1] is Ok && outcomes[1]->Ok_0 > 0,
        stage_after(name, url, dest, InstallStage::Downloading, outcomes) is Copying ==> outcomes.len() == 3
            && outcomes[0] is Ok && outcomes[1] is Ok && outcomes[1]->Ok_0 > 0 && outcomes[2] is Ok,
    decreases outcomes.len(),
{
    if outcomes.len() > 0 {
        lemma_stage_history(name, url, dest, outcomes.drop_last());
    }
}

/// An installed copy is only ever overwritten after a download that
/// succeeded and was not empty: the copy step is reached only through a
/// successful download, a measurement of a non-empty file and the install
/// directory being made, in that order.
pub proof fn copy_only_after_checked_download(
    name: Seq<char>,
    url: Seq<char>,
    dest: Seq<char>,
    outcomes: Seq<Result<u64, Seq<char>>>,
)
    requires
        stage_after(name, url, dest, InstallStage::Downloading, outcomes) is Copying,
    ensures
        outcomes.len() == 3,
        outcomes[0] is Ok,
        outcomes[1] is Ok && outcomes[1]->Ok_0 > 0,
        outcomes[2] is Ok,
{
    lemma_stage_history(name, url, dest, outcomes);
}

} // verus!

verus! {

/// The step of uninstalling an add-on that comes next, or the result. The
/// file is checked for first; a script is then removed outright, while a
/// release binary first has its own `uninstall` subcommand tear its service
/// down and is only removed after that succeeded.
#[derive(Debug)]
pub enum UninstallPhase {
    CheckingFile,
    RemovingScript,
    TearingDown,
    RemovingBinary,
    Finished(Result<String, String>),
}

/// An uninstall phase with its result as text.
pub enum UninstallStage {
    CheckingFile,
    RemovingScript,
    TearingDown,
    RemovingBinary,
    Finished(Result<Seq<char>, Seq<char>>),
}

/// The stage an uninstall phase stands for.
pub open spec fn uninstall_stage_of(p: UninstallPhase) -> UninstallStage {
    match p {
        UninstallPhase::CheckingFile => UninstallStage::CheckingFile,
        UninstallPhase::RemovingScript => UninstallStage::RemovingScript,
        UninstallPhase::TearingDown => UninstallStage::TearingDown,
        UninstallPhase::RemovingBinary => UninstallStage::RemovingBinary,
        UninstallPhase::Finished(r) => UninstallStage::Finished(result_chars(r)),
    }
}

/// One step of uninstalling `spec` from `dest`: from a stage and the outcome
/// of its step (for the check, whether the file exists) to the next stage.
pub open spec fn uninstall_step(
    spec: AddonSpec,
    dest: Seq<char>,
    stage: UninstallStage,
    outcome: Result<bool, Seq<char>>,
) -> UninstallStage {
    let name = spec.display_name@;
    match stage {
        UninstallStage::CheckingFile => match outcome {
            Ok(exists) => if !exists {
                UninstallStage::Finished(Err(name + " is not installed"@))
            } else if spec.script {
                UninstallStage::RemovingScript
            } else {
                UninstallStage::TearingDown
            },
            Err(e) => UninstallStage::Finished(Err(e)),
        },
        UninstallStage::RemovingScript => match outcome {
            Ok(_) => UninstallStage::Finished(Ok(name + " script removed from "@ + dest + "."@)),
            Err(e) => UninstallStage::Finished(
                Ok(name + " script at "@ + dest + " could not be removed: "@ + e
                    + ". Delete it manually if you want a full cleanup."@),
            ),
        },
        UninstallStage::TearingDown => match outcome {
            Ok(_) => UninstallStage::RemovingBinary,
            Err(e) => UninstallStage::Finished(Err(e)),
        },
        UninstallStage::RemovingBinary => match outcome {
            Ok(_) => UninstallStage::Finished(Ok(name + " uninstalled."@)),
            Err(e) => UninstallStage::Finished(
                Ok(name + " service stopped, but its binary at "@ + dest + " could not be removed: "@ + e
                    + ". Delete it manually if you want a full cleanup."@),
            ),
        },
        UninstallStage::Finished(r) => UninstallStage::Finished(r),
    }
}

/// The stage reached from `stage` after the given step outcomes, in order.
pub open spec fn uninstall_stage_after(
    spec: AddonSpec,
    dest: Seq<char>,
    stage: UninstallStage,
    outcomes: Seq<Result<bool, Seq<char>>>,
) -> UninstallStage
    decreases outcomes.len(),
{
    if outcomes.len() == 0 {
        stage
    } else {
        uninstall_step(spec, dest, uninstall_stage_after(spec, dest, stage, outcomes.drop_last()), outcomes.last())
    }
}

/// An uninstall of an add-on in progress: which add-on, its file, and the
/// step that comes next.
pub struct AddonUninstall {
    spec: AddonSpec,
    dest: String,
    phase: UninstallPhase,
}

impl AddonUninstall {
    /// The add-on being removed and the path of its file.
    pub closed spec fn parts(self) -> (AddonSpec, Seq<char>) {
        (self.spec, self.dest@)
    }

    /// The stage the uninstall is at.
    pub closed spec fn stage(self) -> UninstallStage {
        uninstall_stage_of(self.phase)
    }

    /// Starts uninstalling `spec` (as `uninstall` accepted it), whose file is
    /// at `dest`: the first step checks that the file is there.
    pub fn start(spec: &AddonSpec, dest: String) -> (r: Self)
        ensures
            r.parts() == (*spec, dest@),
            r.stage() == UninstallStage::CheckingFile,
    {
        AddonUninstall { spec: *spec, dest, phase: UninstallPhase::CheckingFile }
    }

    /// The step to carry out next, or the result.
    pub fn phase(&self) -> (r: &UninstallPhase)
        ensures
            uninstall_stage_of(*r) == self.stage(),
    {
        &self.phase
    }

    /// The path of the add-on's file.
    pub fn dest(&self) -> (r: &String)
        ensures
            r@ == self.parts().1,
    {
        &self.dest
    }

    /// Moves on with the outcome of the current step (for the check, whether
    /// the file exists; the flag is not read otherwise).
    pub fn advance(&mut self, outcome: Result<bool, String>)
        ensures
            final(self).parts() == old(self).parts(),
            final(self).stage() == uninstall_step(
                old(self).parts().0,
                old(self).parts().1,
                old(self).stage(),
                match outcome {
                    Ok(b) => Ok::<bool, Seq<char>>(b),
                    Err(e) => Err::<bool, Seq<char>>(e@),
                },
            ),
    {
        let removal: Result<(), String> = match &outcome {
            Ok(_) => Ok(()),
            Err(e) => Err(e.clone()),
        };
        let next = match &self.phase {
            UninstallPhase::CheckingFile => match outcome {
                Ok(exists) => if !exists {
                    UninstallPhase::Finished(Err(not_installed(&self.spec)))
                } else if self.spec.script {
                    UninstallPhase::RemovingScript
                } else {
                    UninstallPhase::TearingDown
                },
                Err(e) => UninstallPhase::Finished(Err(e)),
            },
            UninstallPhase::RemovingScript => UninstallPhase::Finished(
                Ok(script_removed(&self.spec, self.dest.as_str(), removal)),
            ),
            UninstallPhase::TearingDown => match outcome {
                Ok(_) => UninstallPhase::RemovingBinary,
                Err(e) => UninstallPhase::Finished(Err(e)),
            },
            UninstallPhase::RemovingBinary => UninstallPhase::Finished(
                Ok(uninstall_service(&self.spec, self.dest.as_str(), removal)),
            ),
            UninstallPhase::Finished(r) => UninstallPhase::Finished(
                match r {
                    Ok(m) => Ok(m.clone()),
                    Err(e) => Err(e.clone()),
                },
            ),
        };
        self.phase = next;
    }
}

/// Begins uninstalling the add-on `id`: refused where `uninstall` refuses
/// it or where the path of its file cannot be formed; otherwise the steps
/// start with checking that file. Only a script add-on's path depends on
/// the home directory, which is looked up here.
pub fn begin_uninstall(id: &str) -> (r: Result<AddonUninstall, String>)
    ensures
        match uninstall_decision(id@) {
            Err(m) => r matches Err(e) && e@ == m,
            Ok(spec) => {
                &&& exists|home: Option<Seq<char>>|
                    match #[trigger] binary_path_in(spec, home) {
                        Ok(p) => r matches Ok(u) && u.parts() == (spec, p) && u.stage()
                            == UninstallStage::CheckingFile,
                        Err(m) => r matches Err(e) && e@ == m,
                    }
                &&& !spec.script ==> (r matches Ok(u) && u.parts() == (spec, joined(SYSTEM_BIN_DIR@, spec.binary_name@))
                    && u.stage() == UninstallStage::CheckingFile)
            },
        },
{
    let spec = match uninstall(id) {
        Ok(s) => s,
        Err(e) => {
            return Err(e);
        },
    };
    let home = if spec.script {
        home_dir()
    } else {
        None
    };
    let path = binary_path_for(&spec, home);
    let r = match path {
        Ok(p) => Ok(AddonUninstall::start(&spec, p)),
        Err(e) => Err(e),
    };
    assert(match binary_path_in(spec, opt_chars(home)) {
        Ok(p) => r matches Ok(u) && u.parts() == (spec, p) && u.stage() == UninstallStage::CheckingFile,
        Err(m) => r matches Err(e) && e@ == m,
    });
    r
}

proof fn lemma_uninstall_history(spec: AddonSpec, dest: Seq<char>, outcomes: Seq<Result<bool, Seq<char>>>)
    ensures
        uninstall_stage_after(spec, dest, UninstallStage::CheckingFile, outcomes) is CheckingFile
            ==> outcomes.len() == 0,
        uninstall_stage_after(spec, dest, UninstallStage::CheckingFile, outcomes) is RemovingScript
            ==> outcomes.len() == 1 && outcomes[0] == Ok::<bool, Seq<char>>(true) && spec.script,
        uninstall_stage_after(spec, dest, UninstallStage::CheckingFile, outcomes) is TearingDown
            ==> outcomes.len() == 1 && outcomes[0] == Ok::<bool, Seq<char>>(true) && !spec.script,
        uninstall_stage_after(spec, dest, UninstallStage::CheckingFile, outcomes) is RemovingBinary
            ==> outcomes.len() == 2 && outcomes[0] == Ok::<bool, Seq<char>>(true) && !spec.script
            && outcomes[1] is Ok,
    decreases outcomes.len(),
{
    if outcomes.len() > 0 {
        lemma_uninstall_history(spec, dest, outcomes.drop_last());
    }
}

/// An add-on's file is only ever removed once it was found to exist, and a
/// release binary only once its own `uninstall` teardown succeeded: a script
/// is removed right after the check found its file, a release binary after
/// the check and a successful teardown, in that order.
pub proof fn removal_only_after_check_and_teardown(
    spec: AddonSpec,
    dest: Seq<char>,
    outcomes: Seq<Result<bool, Seq<char>>>,
)
    ensures
        uninstall_stage_after(spec, dest, UninstallStage::CheckingFile, outcomes) is RemovingScript ==> {
            &&& spec.script
            &&& outcomes == seq![Ok::<bool, Seq<char>>(true)]
        },
        uninstall_stage_after(spec, dest, UninstallStage::CheckingFile, outcomes) is RemovingBinary ==> {
            &&& !spec.script
            &&& outcomes.len() == 2
            &&& outcomes[0] == Ok::<bool, Seq<char>>(true)
            &&& outcomes[1] is Ok
        },
{
    lemma_uninstall_history(spec, dest, outcomes);
    if uninstall_stage_after(spec, dest, UninstallStage::CheckingFile, outcomes) is RemovingScript {
        assert(outcomes =~= seq![Ok::<bool, Seq<char>>(true)]);
    }
}

/// An add-on whose file is missing is refused as not installed, and nothing
/// else is done.
pub proof fn missing_file_not_installed(spec: AddonSpec, dest: Seq<char>)
    ensures
        uninstall_stage_after(spec, dest, UninstallStage::CheckingFile, seq![Ok::<bool, Seq<char>>(false)])
            == UninstallStage::Finished(Err(spec.display_name@ + " is not installed"@)),
{
    let o = seq![Ok::<bool, Seq<char>>(false)];
    assert(o.drop_last() =~= Seq::<Result<bool, Seq<char>>>::empty());
    assert(uninstall_stage_after(spec, dest, UninstallStage::CheckingFile, o.drop_last()) is CheckingFile);
    assert(o.last() == Ok::<bool, Seq<char>>(false));
}

/// Once an add-on's file is being removed, the uninstall succeeds whether
/// or not the removal does: a failed removal is reported, not made an error.
pub proof fn removal_outcome_never_fails(
    spec: AddonSpec,
    dest: Seq<char>,
    outcomes: Seq<Result<bool, Seq<char>>>,
    removal: Result<bool, Seq<char>>,
)
    requires
        uninstall_stage_after(spec, dest, UninstallStage::CheckingFile, outcomes) is RemovingScript
            || uninstall_stage_after(spec, dest, UninstallStage::CheckingFile, outcomes) is RemovingBinary,
    ensures
        uninstall_stage_after(spec, dest, UninstallStage::CheckingFile, outcomes.push(removal)) matches
            UninstallStage::Finished(Ok(_)),
{
    assert(outcomes.push(removal).drop_last() =~= outcomes);
}

} // verus!
