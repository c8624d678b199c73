//! Version strings and the update check.

use vstd::prelude::*;

verus! {

/// Facts about the build that the version strings are made of.
#[derive(Clone, Debug)]
pub struct BuildInfo {
    /// Package version, e.g. `0.3.0`
    pub pkg_version: String,
    /// Build time, formatted `%Y-%m-%d %H:%M:%S %Z`
    pub build_time: String,
    /// Build date, formatted `%Y-%m-%d`
    pub build_date: String,
    pub git_commit: String,
    pub git_branch: String,
    /// `clean`, `dirty` or `unknown`
    pub git_dirty: String,
}

/// Edition name of this build.
pub open spec fn edition() -> Seq<char> {
    "full"@
}

/// Multi-line version banner.
pub open spec fn version_info_spec(b: BuildInfo) -> Seq<char> {
    "rustpbx "@ + b.pkg_version@ + "\nBuild Time: "@ + b.build_time@ + "\nGit Commit: "@
        + b.git_commit@ + "\nGit Branch: "@ + b.git_branch@ + "\nGit Status: "@ + b.git_dirty@
}

/// Short version: package version, commit, `dirty` when the tree was, and edition.
pub open spec fn short_version_spec(b: BuildInfo) -> Seq<char> {
    if b.git_dirty@ == "dirty"@ {
        b.pkg_version@ + "-"@ + b.git_commit@ + "-dirty-"@ + edition()
    } else {
        b.pkg_version@ + "-"@ + b.git_commit@ + "-"@ + edition()
    }
}

/// User agent announced in SIP messages and HTTP requests.
pub open spec fn useragent_spec(b: BuildInfo) -> Seq<char> {
    "rustpbx/"@ + b.pkg_version@ + " (built "@ + b.build_date@ + ")"@
}

/// Multi-line version banner.
pub fn get_version_info(build: &BuildInfo) -> (r: String)
    ensures
        r@ == version_info_spec(*build),
{
    let mut s = "rustpbx ".to_owned();
    s.append(build.pkg_version.as_str());
    s.append("\nBuild Time: ");
    s.append(build.build_time.as_str());
    s.append("\nGit Commit: ");
    s.append(build.git_commit.as_str());
    s.append("\nGit Branch: ");
    s.append(build.git_branch.as_str());
    s.append("\nGit Status: ");
    s.append(build.git_dirty.as_str());
    s
}

/// Short version string, e.g. `0.3.0-abc123-full`.
pub fn get_short_version(build: &BuildInfo) -> (r: String)
    ensures
        r@ == short_version_spec(*build),
{
    let mut s = build.pkg_version.clone();
    s.append("-");
    s.append(build.git_commit.as_str());
    let dirty = "dirty".to_owned();
    if build.git_dirty == dirty {
        s.append("-dirty-");
    } else {
        s.append("-");
    }
    s.append("full");
    s
}

/// User agent, e.g. `rustpbx/0.3.0 (built 2025-01-01)`.
pub fn get_useragent(build: &BuildInfo) -> (r: String)
    ensures
        r@ == useragent_spec(*build),
{
    let mut s = "rustpbx/".to_owned();
    s.append(build.pkg_version.as_str());
    s.append(" (built ");
    s.append(build.build_date.as_str());
    s.append(")");
    s
}

// ---------------------------------------------------------------------------
// Update check
// ---------------------------------------------------------------------------

/// Response from the update-check endpoint.
#[derive(Clone, Debug)]
pub struct UpdateInfo {
    pub has_update: bool,
    pub latest_version: String,
    pub release_notes: Option<String>,
    pub download_url: Option<String>,
}

/// The decimal digit character for `d < 10`.
pub open spec fn digit_char(d: nat) -> char {
    ('0' as nat + d) as char
}

/// Decimal notation of `n`, without leading zeros.
pub open spec fn decimal(n: nat) -> Seq<char>
    decreases n,
{
    if n < 10 {
        seq![digit_char(n)]
    } else {
        decimal(n / 10).push(digit_char(n % 10))
    }
}

fn digit_str(d: u64) -> (r: &'static str)
    requires
        d < 10,
    ensures
        r@ == seq![digit_char(d as nat)],
{
    proof {
        reveal_strlit("0");
        reveal_strlit("1");
        reveal_strlit("2");
        reveal_strlit("3");
        reveal_strlit("4");
        reveal_strlit("5");
        reveal_strlit("6");
        reveal_strlit("7");
        reveal_strlit("8");
        reveal_strlit("9");
    }
    if d == 0 {
        "0"
    } else if d == 1 {
        "1"
    } else if d == 2 {
        "2"
    } else if d == 3 {
        "3"
    } else if d == 4 {
        "4"
    } else if d == 5 {
        "5"
    } else if d == 6 {
        "6"
    } else if d == 7 {
        "7"
    } else if d == 8 {
        "8"
    } else {
        "9"
    }
}

/// Decimal notation of `n`, as `u64::to_string` writes it.
pub fn decimal_string(n: u64) -> (r: String)
    ensures
        r@ == decimal(n as nat),
    decreases n,
{
    if n < 10 {
        digit_str(n).to_owned()
    } else {
        let mut s = decimal_string(n / 10);
        s.append(digit_str(n % 10));
        s
    }
}

/// Query of the update check: version, edition, uptime in seconds and build time.
pub open spec fn update_query_spec(b: BuildInfo, uptime_secs: u64) -> Seq<(Seq<char>, Seq<char>)> {
    seq![
        ("version"@, b.pkg_version@),
        ("edition"@, edition()),
        ("uptime"@, decimal(uptime_secs as nat)),
        ("build_time"@, b.build_time@),
    ]
}

/// Query parameters sent to the update-check endpoint.
pub fn update_check_query(build: &BuildInfo, uptime_secs: u64) -> (r: Vec<(String, String)>)
    ensures
        r@.len() == 4,
        forall|i: int|
            0 <= i < 4 ==> (#[trigger] r@[i]).0@ == update_query_spec(*build, uptime_secs)[i].0
                && r@[i].1@ == update_query_spec(*build, uptime_secs)[i].1,
{
    let mut q: Vec<(String, String)> = Vec::new();
    q.push(("version".to_owned(), build.pkg_version.clone()));
    q.push(("edition".to_owned(), "full".to_owned()));
    q.push(("uptime".to_owned(), decimal_string(uptime_secs)));
    q.push(("build_time".to_owned(), build.build_time.clone()));
    q
}

/// A notification row to be stored.
#[derive(Clone, Debug)]
pub struct NewNotification {
    pub kind: String,
    pub title: String,
    pub body: String,
    pub read: bool,
}

/// Title under which a newer version is announced.
pub open spec fn update_title_spec(info: UpdateInfo) -> Seq<char> {
    "New version available: "@ + info.latest_version@
}

/// The title to look up before announcing a newer version, when there is one.
pub fn update_notification_title(info: &UpdateInfo) -> (r: Option<String>)
    ensures
        r is Some <==> info.has_update,
        r matches Some(t) ==> t@ == update_title_spec(*info),
{
    if info.has_update {
        let mut t = "New version available: ".to_owned();
        t.append(info.latest_version.as_str());
        Some(t)
    } else {
        None
    }
}

/// The notification to insert for an update check result, given whether one
/// with the same title is already stored: none when there is no newer version
/// or it was announced already.
pub fn new_update_notification(info: &UpdateInfo, exists: bool) -> (r: Option<NewNotification>)
    ensures
        r is Some <==> (info.has_update && !exists),
        r matches Some(n) ==> {
            &&& n.kind@ == "update"@
            &&& n.title@ == update_title_spec(*info)
            &&& n.body@ == (match info.release_notes {
                Some(notes) => notes@,
                None => Seq::<char>::empty(),
            })
            &&& !n.read
        },
{
    match update_notification_title(info) {
        Some(title) => {
            if exists {
                None
            } else {
                let body = match &info.release_notes {
                    Some(notes) => notes.clone(),
                    None => String::new(),
                };
                Some(NewNotification { kind: "update".to_owned(), title, body, read: false })
            }
        },
        None => None,
    }
}

} // verus!
