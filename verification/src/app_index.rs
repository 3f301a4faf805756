//! In-memory application index behind Pathfinder search: one entry per
//! application id, package format selection, install state, and a search
//! that ranks entries by how well their name and keywords match.
use vstd::prelude::*;
use crate::text::{str_to_lowercase, str_trim, lowercase_of, trimmed};
use crate::chars::{char_vec, chars_equal, starts_with, contains, is_prefix, is_infix};

verus! {

/// Where a package comes from.
#[derive(PartialEq, Eq, Structural, Clone, Copy, Debug, Hash)]
pub enum PackageFormat {
    /// Official Ubuntu repository (.deb / APT).
    Deb,
    /// Flathub sandboxed bundle.
    Flatpak,
    /// Canonical Snap Store package.
    Snap,
}

impl PackageFormat {
    /// Short label shown on the format picker.
    pub fn label(&self) -> (s: &'static str)
        ensures
            s@ == (match *self {
                PackageFormat::Deb => "Ubuntu .deb"@,
                PackageFormat::Flatpak => "Flatpak"@,
                PackageFormat::Snap => "Snap"@,
            }),
    {
        match self {
            PackageFormat::Deb => "Ubuntu .deb",
            PackageFormat::Flatpak => "Flatpak",
            PackageFormat::Snap => "Snap",
        }
    }

    /// Name of the source the package is fetched from.
    pub fn source_name(&self) -> (s: &'static str)
        ensures
            s@ == (match *self {
                PackageFormat::Deb => "Ubuntu Official Repo (APT)"@,
                PackageFormat::Flatpak => "Flathub"@,
                PackageFormat::Snap => "Snapcraft"@,
            }),
    {
        match self {
            PackageFormat::Deb => "Ubuntu Official Repo (APT)",
            PackageFormat::Flatpak => "Flathub",
            PackageFormat::Snap => "Snapcraft",
        }
    }
}

#[derive(PartialEq, Eq, Structural, Clone, Copy, Debug)]
pub enum InstallState {
    Installed,
    Available,
    Installing,
    Failed,
}

/// An application known to Pathfinder. (The install progress bar's
/// fraction is kept by the UI.)
pub struct AppEntry {
    pub app_id: String,
    pub display_name: String,
    pub description: String,
    pub publisher: String,
    pub version: String,
    pub icon_path: String,
    pub exec_path: String,
    pub keywords: Vec<String>,
    pub available_formats: Vec<PackageFormat>,
    pub selected_format: PackageFormat,
    pub install_state: InstallState,
    pub install_error: Option<String>,
    pub webview_url: Option<String>,
    pub screenshot_urls: Vec<String>,
}

/// The characters of each string.
pub open spec fn views(s: Seq<String>) -> Seq<Seq<char>> {
    s.map_values(|x: String| x@)
}

pub open spec fn opt_view(o: Option<String>) -> Option<Seq<char>> {
    match o {
        Some(x) => Some(x@),
        None => None,
    }
}

/// Two entries with the same contents.
pub open spec fn same_entry(a: AppEntry, b: AppEntry) -> bool {
    &&& a.app_id@ == b.app_id@
    &&& a.display_name@ == b.display_name@
    &&& a.description@ == b.description@
    &&& a.publisher@ == b.publisher@
    &&& a.version@ == b.version@
    &&& a.icon_path@ == b.icon_path@
    &&& a.exec_path@ == b.exec_path@
    &&& a.keywords@ == b.keywords@
    &&& a.available_formats@ == b.available_formats@
    &&& a.selected_format == b.selected_format
    &&& a.install_state == b.install_state
    &&& opt_view(a.install_error) == opt_view(b.install_error)
    &&& opt_view(a.webview_url) == opt_view(b.webview_url)
    &&& a.screenshot_urls@ == b.screenshot_urls@
}

fn clone_opt(o: &Option<String>) -> (r: Option<String>)
    ensures
        opt_view(r) == opt_view(*o),
{
    match o {
        Some(x) => Some(x.clone()),
        None => None,
    }
}

/// A copy of an entry.
pub fn clone_entry(e: &AppEntry) -> (r: AppEntry)
    ensures
        same_entry(r, *e),
{
    AppEntry {
        app_id: e.app_id.clone(),
        display_name: e.display_name.clone(),
        description: e.description.clone(),
        publisher: e.publisher.clone(),
        version: e.version.clone(),
        icon_path: e.icon_path.clone(),
        exec_path: e.exec_path.clone(),
        keywords: e.keywords.clone(),
        available_formats: e.available_formats.clone(),
        selected_format: e.selected_format,
        install_state: e.install_state,
        install_error: clone_opt(&e.install_error),
        webview_url: clone_opt(&e.webview_url),
        screenshot_urls: e.screenshot_urls.clone(),
    }
}

/// Index of the first entry with application id `id` at `k` or later.
pub open spec fn find_app_from(s: Seq<AppEntry>, id: Seq<char>, k: int) -> Option<int>
    decreases s.len() - k,
{
    if 0 <= k && k < s.len() {
        if s[k].app_id@ == id { Some(k) } else { find_app_from(s, id, k + 1) }
    } else {
        None
    }
}

/// Index of the entry with application id `id`.
pub open spec fn find_app(s: Seq<AppEntry>, id: Seq<char>) -> Option<int> {
    find_app_from(s, id, 0)
}

/// No two entries share an application id.
pub open spec fn unique_ids(s: Seq<AppEntry>) -> bool {
    forall|a: int, b: int| 0 <= a < b < s.len() ==> s[a].app_id@ != s[b].app_id@
}

/// The stored entries after inserting `e`: it replaces the entry with its
/// id, or is appended.
pub open spec fn inserted(s: Seq<AppEntry>, e: AppEntry) -> Seq<AppEntry> {
    match find_app(s, e.app_id@) {
        Some(i) => s.update(i, e),
        None => s.push(e),
    }
}

proof fn lemma_find_app_from(s: Seq<AppEntry>, id: Seq<char>, k: int)
    requires
        0 <= k <= s.len(),
    ensures
        find_app_from(s, id, k) matches Some(i) ==> k <= i < s.len() && s[i].app_id@ == id,
        find_app_from(s, id, k) is None ==> forall|j: int| k <= j < s.len() ==> s[j].app_id@ != id,
    decreases s.len() - k,
{
    if k < s.len() {
        lemma_find_app_from(s, id, k + 1);
    }
}

/// Where `find_app` points, and that it finds nothing only when no entry
/// has the id.
pub proof fn lemma_find_app(s: Seq<AppEntry>, id: Seq<char>)
    ensures
        find_app(s, id) matches Some(i) ==> 0 <= i < s.len() && s[i].app_id@ == id,
        find_app(s, id) is None ==> forall|j: int| 0 <= j < s.len() ==> s[j].app_id@ != id,
{
    lemma_find_app_from(s, id, 0);
}

/// After inserting an entry, looking up its id finds exactly it, and the
/// ids stay distinct.
pub proof fn insert_then_find(s: Seq<AppEntry>, e: AppEntry)
    requires
        unique_ids(s),
    ensures
        unique_ids(inserted(s, e)),
        find_app(inserted(s, e), e.app_id@) matches Some(i) && inserted(s, e)[i] == e,
{
    lemma_find_app(s, e.app_id@);
    let t = inserted(s, e);
    lemma_find_app(t, e.app_id@);
    match find_app(s, e.app_id@) {
        Some(i) => {
            assert forall|a: int, b: int| 0 <= a < b < t.len() implies t[a].app_id@ != t[b].app_id@ by {
                if a == i {
                    assert(s[b].app_id@ != s[i].app_id@);
                } else if b == i {
                    assert(s[a].app_id@ != s[i].app_id@);
                }
            }
            match find_app(t, e.app_id@) {
                Some(k) => {
                    if k != i {
                        assert(s[k].app_id@ != s[i].app_id@);
                    }
                },
                None => {
                    assert(t[i].app_id@ == e.app_id@);
                },
            }
        },
        None => {
            match find_app(t, e.app_id@) {
                Some(k) => {
                    if k < s.len() {
                        assert(t[k] == s[k]);
                    }
                },
                None => {
                    assert(t[s.len() as int].app_id@ == e.app_id@);
                },
            }
        },
    }
}

/// Score of a lowercased display name against the query.
pub open spec fn name_score(name: Seq<char>, q: Seq<char>) -> nat {
    if name == q {
        100
    } else if is_prefix(q, name) {
        60
    } else if is_infix(q, name) {
        40
    } else {
        0
    }
}

/// Score of one lowercased keyword against the query.
pub open spec fn keyword_score(kw: Seq<char>, q: Seq<char>) -> nat {
    if kw == q {
        50
    } else if is_infix(q, kw) {
        20
    } else {
        0
    }
}

/// Sum of the keyword scores.
pub open spec fn keywords_score(kws: Seq<String>, q: Seq<char>) -> nat
    decreases kws.len(),
{
    if kws.len() == 0 {
        0
    } else {
        keywords_score(kws.drop_last(), q) + keyword_score(lowercase_of(kws.last()@), q)
    }
}

/// How well an entry matches the (trimmed, lowercased) query.
pub open spec fn app_score(e: AppEntry, q: Seq<char>) -> nat {
    name_score(lowercase_of(e.display_name@), q) + keywords_score(e.keywords@, q)
}

/// The query as search compares it.
pub open spec fn search_key(query: Seq<char>) -> Seq<char> {
    lowercase_of(trimmed(query))
}

/// Entry `a` ranks before entry `b`: a higher score, or the same score and
/// stored earlier.
pub open spec fn ranks_before(s: Seq<AppEntry>, q: Seq<char>, a: int, b: int) -> bool {
    ||| app_score(s[a], q) > app_score(s[b], q)
    ||| (app_score(s[a], q) == app_score(s[b], q) && a < b)
}

/// `idx` lists exactly the entries that score above zero, best first.
pub open spec fn is_ranking(s: Seq<AppEntry>, q: Seq<char>, idx: Seq<int>) -> bool {
    &&& forall|k: int| 0 <= k < idx.len() ==> 0 <= #[trigger] idx[k] < s.len() && app_score(s[idx[k]], q) > 0
    &&& forall|i: int| 0 <= i < s.len() && app_score(s[i], q) > 0 ==> #[trigger] idx.contains(i)
    &&& forall|k1: int, k2: int| 0 <= k1 < k2 < idx.len() ==> ranks_before(s, q, #[trigger] idx[k1], #[trigger] idx[k2])
}

/// No entry has so many keywords that its score leaves `u32`.
pub open spec fn scores_fit(s: Seq<AppEntry>) -> bool {
    forall|i: int| 0 <= i < s.len() ==> 100 + 50 * (#[trigger] s[i]).keywords@.len() <= u32::MAX
}

proof fn lemma_keywords_score_bound(kws: Seq<String>, q: Seq<char>)
    ensures
        keywords_score(kws, q) <= 50 * kws.len(),
    decreases kws.len(),
{
    if kws.len() > 0 {
        lemma_keywords_score_bound(kws.drop_last(), q);
    }
}

/// Scores `e` against the query characters `q`.
fn score_entry(e: &AppEntry, q: &Vec<char>) -> (r: u32)
    requires
        100 + 50 * e.keywords@.len() <= u32::MAX,
    ensures
        r == app_score(*e, q@),
{
    let name_lower = str_to_lowercase(e.display_name.as_str());
    let name = char_vec(name_lower.as_str());
    let mut score: u32 = if chars_equal(&name, q) {
        100
    } else if starts_with(&name, q) {
        60
    } else if contains(&name, q) {
        40
    } else {
        0
    };
    let ghost base = score;
    let mut i: usize = 0;
    while i < e.keywords.len()
        invariant
            0 <= i <= e.keywords@.len(),
            100 + 50 * e.keywords@.len() <= u32::MAX,
            base <= 100,
            base == name_score(lowercase_of(e.display_name@), q@),
            score == base + keywords_score(e.keywords@.subrange(0, i as int), q@),
        decreases e.keywords@.len() - i,
    {
        proof {
            assert(e.keywords@.subrange(0, i + 1).drop_last() =~= e.keywords@.subrange(0, i as int));
            lemma_keywords_score_bound(e.keywords@.subrange(0, i as int), q@);
        }
        let kw_lower = str_to_lowercase(e.keywords[i].as_str());
        let kw = char_vec(kw_lower.as_str());
        if chars_equal(&kw, q) {
            score = score + 50;
        } else if contains(&kw, q) {
            score = score + 20;
        }
        i = i + 1;
    }
    assert(e.keywords@.subrange(0, i as int) =~= e.keywords@);
    score
}

/// The first position in `order` whose entry scores below `s`.
fn insert_position(order: &Vec<usize>, scores: &Vec<u32>, s: u32) -> (p: usize)
    requires
        forall|k: int| 0 <= k < order@.len() ==> (#[trigger] order@[k]) < scores@.len(),
        forall|k1: int, k2: int|
            0 <= k1 < k2 < order@.len() ==> scores@[order@[k1] as int] >= scores@[order@[k2] as int],
    ensures
        p <= order@.len(),
        forall|k: int| 0 <= k < p ==> scores@[(#[trigger] order@[k]) as int] >= s,
        forall|k: int| p <= k < order@.len() ==> scores@[(#[trigger] order@[k]) as int] < s,
{
    let mut p: usize = 0;
    while p < order.len()
        invariant
            0 <= p <= order@.len(),
            forall|k: int| 0 <= k < order@.len() ==> (#[trigger] order@[k]) < scores@.len(),
            forall|k1: int, k2: int|
                0 <= k1 < k2 < order@.len() ==> scores@[order@[k1] as int] >= scores@[order@[k2] as int],
            forall|k: int| 0 <= k < p ==> scores@[(#[trigger] order@[k]) as int] >= s,
        decreases order@.len() - p,
    {
        if scores[order[p]] < s {
            assert forall|k: int| p <= k < order@.len() implies scores@[(#[trigger] order@[k]) as int] < s by {
                if k > p {
                    assert(scores@[order@[p as int] as int] >= scores@[order@[k] as int]);
                }
            }
            return p;
        }
        p = p + 1;
    }
    p
}

/// The entry `e` holds exactly these contents, with no install error.
pub open spec fn app_with(
    e: AppEntry,
    id: Seq<char>,
    name: Seq<char>,
    description: Seq<char>,
    publisher: Seq<char>,
    version: Seq<char>,
    icon_path: Seq<char>,
    exec_path: Seq<char>,
    keywords: Seq<Seq<char>>,
    formats: Seq<PackageFormat>,
    selected: PackageFormat,
    state: InstallState,
    webview_url: Option<Seq<char>>,
    screenshot_urls: Seq<Seq<char>>,
) -> bool {
    &&& e.app_id@ == id
    &&& e.display_name@ == name
    &&& e.description@ == description
    &&& e.publisher@ == publisher
    &&& e.version@ == version
    &&& e.icon_path@ == icon_path
    &&& e.exec_path@ == exec_path
    &&& views(e.keywords@) == keywords
    &&& e.available_formats@ == formats
    &&& e.selected_format == selected
    &&& e.install_state == state
    &&& e.install_error is None
    &&& opt_view(e.webview_url) == webview_url
    &&& views(e.screenshot_urls@) == screenshot_urls
}

/// The seven applications every system starts with, in this order.
pub open spec fn is_default_catalog(ds: Seq<AppEntry>) -> bool {
    &&& ds.len() == 7
    &&& app_with(
        ds[0],
        "zen-browser"@,
        "Zen Browser"@,
        "Native privacy-focused spatial web browser with vertical tabs"@,
        "Zen Development Team"@,
        "1.0.2-a.1"@,
        "/usr/share/icons/vitusos/zen-browser.png"@,
        "/usr/bin/zen-browser"@,
        seq!["browser"@, "web"@, "internet"@, "zen"@, "firefox"@],
        seq![PackageFormat::Flatpak, PackageFormat::Deb, PackageFormat::Snap],
        PackageFormat::Flatpak,
        InstallState::Installed,
        Some("https://zen-browser.app"@),
        seq!["https://zen-browser.app/assets/screenshot-1.png"@],
    )
    &&& app_with(
        ds[1],
        "filer"@,
        "Files"@,
        "Spatial 3-zone glass file manager"@,
        "vitusOS Core Team"@,
        "1.0.0"@,
        "/usr/share/icons/vitusos/filer.png"@,
        "/usr/bin/vitusos-filer"@,
        seq!["file"@, "folder"@, "directory"@, "storage"@, "documents"@],
        seq![PackageFormat::Deb],
        PackageFormat::Deb,
        InstallState::Installed,
        None,
        Seq::<Seq<char>>::empty(),
    )
    &&& app_with(
        ds[2],
        "pathfinder"@,
        "Pathfinder"@,
        "Universal search and instant app installer"@,
        "vitusOS Core Team"@,
        "1.0.0"@,
        "/usr/share/icons/vitusos/pathfinder.png"@,
        "/usr/bin/vitusos-pathfinder"@,
        seq!["search"@, "find"@, "apps"@, "install"@],
        seq![PackageFormat::Deb],
        PackageFormat::Deb,
        InstallState::Installed,
        None,
        Seq::<Seq<char>>::empty(),
    )
    &&& app_with(
        ds[3],
        "terminow"@,
        "Terminow"@,
        "GPU-accelerated spatial terminal emulator"@,
        "vitusOS Core Team"@,
        "1.0.0"@,
        "/usr/share/icons/vitusos/terminow.png"@,
        "/usr/bin/vitusos-terminow"@,
        seq!["terminal"@, "console"@, "shell"@, "bash"@, "zsh"@],
        seq![PackageFormat::Deb],
        PackageFormat::Deb,
        InstallState::Installed,
        None,
        Seq::<Seq<char>>::empty(),
    )
    &&& app_with(
        ds[4],
        "settings"@,
        "Settings"@,
        "System preferences, display, wallpaper, and accounts"@,
        "vitusOS Core Team"@,
        "1.0.0"@,
        "/usr/share/icons/vitusos/settings.png"@,
        "/usr/bin/vitusos-settings"@,
        seq!["settings"@, "preferences"@, "display"@, "wallpaper"@, "wifi"@],
        seq![PackageFormat::Deb],
        PackageFormat::Deb,
        InstallState::Installed,
        None,
        Seq::<Seq<char>>::empty(),
    )
    &&& app_with(
        ds[5],
        "vlc"@,
        "VLC Media Player"@,
        "Universal multi-format media player and streaming engine"@,
        "VideoLAN Organization"@,
        "3.0.20"@,
        "/usr/share/icons/vitusos/vlc.png"@,
        "/usr/bin/vlc"@,
        seq!["vlc"@, "video"@, "music"@, "player"@, "media"@],
        seq![PackageFormat::Deb, PackageFormat::Flatpak, PackageFormat::Snap],
        PackageFormat::Deb,
        InstallState::Available,
        Some("https://www.videolan.org/vlc/"@),
        seq!["https://www.videolan.org/vlc/screenshots/vlc.png"@],
    )
    &&& app_with(
        ds[6],
        "obs-studio"@,
        "OBS Studio"@,
        "High performance live broadcasting and screen recording"@,
        "OBS Project"@,
        "30.1.2"@,
        "/usr/share/icons/vitusos/obs.png"@,
        "/usr/bin/obs"@,
        seq!["obs"@, "record"@, "stream"@, "video"@, "broadcast"@],
        seq![PackageFormat::Flatpak, PackageFormat::Deb, PackageFormat::Snap],
        PackageFormat::Flatpak,
        InstallState::Available,
        Some("https://obsproject.com"@),
        seq!["https://obsproject.com/assets/images/obs-screenshot.png"@],
    )
}

/// The seven applications every system starts with.
fn default_system_apps() -> (ds: Vec<AppEntry>)
    ensures
        is_default_catalog(ds@),
{
    let a0 = AppEntry {
        app_id: "zen-browser".to_owned(),
        display_name: "Zen Browser".to_owned(),
        description: "Native privacy-focused spatial web browser with vertical tabs".to_owned(),
        publisher: "Zen Development Team".to_owned(),
        version: "1.0.2-a.1".to_owned(),
        icon_path: "/usr/share/icons/vitusos/zen-browser.png".to_owned(),
        exec_path: "/usr/bin/zen-browser".to_owned(),
        keywords: vec!["browser".to_owned(), "web".to_owned(), "internet".to_owned(), "zen".to_owned(), "firefox".to_owned()],
        available_formats: vec![PackageFormat::Flatpak, PackageFormat::Deb, PackageFormat::Snap],
        selected_format: PackageFormat::Flatpak,
        install_state: InstallState::Installed,
        install_error: None,
        webview_url: Some("https://zen-browser.app".to_owned()),
        screenshot_urls: vec!["https://zen-browser.app/assets/screenshot-1.png".to_owned()],
    };
    assert(a0.available_formats@ =~= seq![PackageFormat::Flatpak, PackageFormat::Deb, PackageFormat::Snap]);
    assert(views(a0.keywords@) =~= seq!["browser"@, "web"@, "internet"@, "zen"@, "firefox"@]);
    assert(views(a0.screenshot_urls@) =~= seq!["https://zen-browser.app/assets/screenshot-1.png"@]);
    let a1 = AppEntry {
        app_id: "filer".to_owned(),
        display_name: "Files".to_owned(),
        description: "Spatial 3-zone glass file manager".to_owned(),
        publisher: "vitusOS Core Team".to_owned(),
        version: "1.0.0".to_owned(),
        icon_path: "/usr/share/icons/vitusos/filer.png".to_owned(),
        exec_path: "/usr/bin/vitusos-filer".to_owned(),
        keywords: vec!["file".to_owned(), "folder".to_owned(), "directory".to_owned(), "storage".to_owned(), "documents".to_owned()],
        available_formats: vec![PackageFormat::Deb],
        selected_format: PackageFormat::Deb,
        install_state: InstallState::Installed,
        install_error: None,
        webview_url: None,
        screenshot_urls: Vec::new(),
    };
    assert(a1.available_formats@ =~= seq![PackageFormat::Deb]);
    assert(views(a1.keywords@) =~= seq!["file"@, "folder"@, "directory"@, "storage"@, "documents"@]);
    assert(views(a1.screenshot_urls@) =~= Seq::<Seq<char>>::empty());
    let a2 = AppEntry {
        app_id: "pathfinder".to_owned(),
        display_name: "Pathfinder".to_owned(),
        description: "Universal search and instant app installer".to_owned(),
        publisher: "vitusOS Core Team".to_owned(),
        version: "1.0.0".to_owned(),
        icon_path: "/usr/share/icons/vitusos/pathfinder.png".to_owned(),
        exec_path: "/usr/bin/vitusos-pathfinder".to_owned(),
        keywords: vec!["search".to_owned(), "find".to_owned(), "apps".to_owned(), "install".to_owned()],
        available_formats: vec![PackageFormat::Deb],
        selected_format: PackageFormat::Deb,
        install_state: InstallState::Installed,
        install_error: None,
        webview_url: None,
        screenshot_urls: Vec::new(),
    };
    assert(a2.available_formats@ =~= seq![PackageFormat::Deb]);
    assert(views(a2.keywords@) =~= seq!["search"@, "find"@, "apps"@, "install"@]);
    assert(views(a2.screenshot_urls@) =~= Seq::<Seq<char>>::empty());
    let a3 = AppEntry {
        app_id: "terminow".to_owned(),
        display_name: "Terminow".to_owned(),
        description: "GPU-accelerated spatial terminal emulator".to_owned(),
        publisher: "vitusOS Core Team".to_owned(),
        version: "1.0.0".to_owned(),
        icon_path: "/usr/share/icons/vitusos/terminow.png".to_owned(),
        exec_path: "/usr/bin/vitusos-terminow".to_owned(),
        keywords: vec!["terminal".to_owned(), "console".to_owned(), "shell".to_owned(), "bash".to_owned(), "zsh".to_owned()],
        available_formats: vec![PackageFormat::Deb],
        selected_format: PackageFormat::Deb,
        install_state: InstallState::Installed,
        install_error: None,
        webview_url: None,
        screenshot_urls: Vec::new(),
    };
    assert(a3.available_formats@ =~= seq![PackageFormat::Deb]);
    assert(views(a3.keywords@) =~= seq!["terminal"@, "console"@, "shell"@, "bash"@, "zsh"@]);
    assert(views(a3.screenshot_urls@) =~= Seq::<Seq<char>>::empty());
    let a4 = AppEntry {
        app_id: "settings".to_owned(),
        display_name: "Settings".to_owned(),
        description: "System preferences, display, wallpaper, and accounts".to_owned(),
        publisher: "vitusOS Core Team".to_owned(),
        version: "1.0.0".to_owned(),
        icon_path: "/usr/share/icons/vitusos/settings.png".to_owned(),
        exec_path: "/usr/bin/vitusos-settings".to_owned(),
        keywords: vec!["settings".to_owned(), "preferences".to_owned(), "display".to_owned(), "wallpaper".to_owned(), "wifi".to_owned()],
        available_formats: vec![PackageFormat::Deb],
        selected_format: PackageFormat::Deb,
        install_state: InstallState::Installed,
        install_error: None,
        webview_url: None,
        screenshot_urls: Vec::new(),
    };
    assert(a4.available_formats@ =~= seq![PackageFormat::Deb]);
    assert(views(a4.keywords@) =~= seq!["settings"@, "preferences"@, "display"@, "wallpaper"@, "wifi"@]);
    assert(views(a4.screenshot_urls@) =~= Seq::<Seq<char>>::empty());
    let a5 = AppEntry {
        app_id: "vlc".to_owned(),
        display_name: "VLC Media Player".to_owned(),
        description: "Universal multi-format media player and streaming engine".to_owned(),
        publisher: "VideoLAN Organization".to_owned(),
        version: "3.0.20".to_owned(),
        icon_path: "/usr/share/icons/vitusos/vlc.png".to_owned(),
        exec_path: "/usr/bin/vlc".to_owned(),
        keywords: vec!["vlc".to_owned(), "video".to_owned(), "music".to_owned(), "player".to_owned(), "media".to_owned()],
        available_formats: vec![PackageFormat::Deb, PackageFormat::Flatpak, PackageFormat::Snap],
        selected_format: PackageFormat::Deb,
        install_state: InstallState::Available,
        install_error: None,
        webview_url: Some("https://www.videolan.org/vlc/".to_owned()),
        screenshot_urls: vec!["https://www.videolan.org/vlc/screenshots/vlc.png".to_owned()],
    };
    assert(a5.available_formats@ =~= seq![PackageFormat::Deb, PackageFormat::Flatpak, PackageFormat::Snap]);
    assert(views(a5.keywords@) =~= seq!["vlc"@, "video"@, "music"@, "player"@, "media"@]);
    assert(views(a5.screenshot_urls@) =~= seq!["https://www.videolan.org/vlc/screenshots/vlc.png"@]);
    let a6 = AppEntry {
        app_id: "obs-studio".to_owned(),
        display_name: "OBS Studio".to_owned(),
        description: "High performance live broadcasting and screen recording".to_owned(),
        publisher: "OBS Project".to_owned(),
        version: "30.1.2".to_owned(),
        icon_path: "/usr/share/icons/vitusos/obs.png".to_owned(),
        exec_path: "/usr/bin/obs".to_owned(),
        keywords: vec!["obs".to_owned(), "record".to_owned(), "stream".to_owned(), "video".to_owned(), "broadcast".to_owned()],
        available_formats: vec![PackageFormat::Flatpak, PackageFormat::Deb, PackageFormat::Snap],
        selected_format: PackageFormat::Flatpak,
        install_state: InstallState::Available,
        install_error: None,
        webview_url: Some("https://obsproject.com".to_owned()),
        screenshot_urls: vec!["https://obsproject.com/assets/images/obs-screenshot.png".to_owned()],
    };
    assert(a6.available_formats@ =~= seq![PackageFormat::Flatpak, PackageFormat::Deb, PackageFormat::Snap]);
    assert(views(a6.keywords@) =~= seq!["obs"@, "record"@, "stream"@, "video"@, "broadcast"@]);
    assert(views(a6.screenshot_urls@) =~= seq!["https://obsproject.com/assets/images/obs-screenshot.png"@]);
    let ghost g = seq![a0, a1, a2, a3, a4, a5, a6];
    let ds = vec![a0, a1, a2, a3, a4, a5, a6];
    assert(ds@ =~= g);
    ds
}

/// The stored entries after inserting each of `es` in turn.
pub open spec fn inserted_all(s: Seq<AppEntry>, es: Seq<AppEntry>) -> Seq<AppEntry>
    decreases es.len(),
{
    if es.len() == 0 {
        s
    } else {
        inserted(inserted_all(s, es.drop_last()), es.last())
    }
}

/// Inserting entries with distinct ids into an empty index stores them in order.
pub proof fn lemma_inserted_all_distinct(es: Seq<AppEntry>)
    requires
        unique_ids(es),
    ensures
        inserted_all(Seq::empty(), es) == es,
    decreases es.len(),
{
    if es.len() > 0 {
        let p = es.drop_last();
        assert(unique_ids(p));
        lemma_inserted_all_distinct(p);
        lemma_find_app(p, es.last().app_id@);
        assert forall|j: int| 0 <= j < p.len() implies p[j].app_id@ != es.last().app_id@ by {
            assert(p[j] == es[j]);
        }
        assert(p.push(es.last()) =~= es);
    }
}

/// Among entries with distinct ids, the entry with a given id is found at
/// its own index.
proof fn lemma_find_unique(t: Seq<AppEntry>, i: int)
    requires
        unique_ids(t),
        0 <= i < t.len(),
    ensures
        find_app(t, t[i].app_id@) == Some(i),
{
    lemma_find_app(t, t[i].app_id@);
    if let Some(k) = find_app(t, t[i].app_id@) {
        if k != i {
            if k < i {
                assert(t[k].app_id@ != t[i].app_id@);
            } else {
                assert(t[i].app_id@ != t[k].app_id@);
            }
        }
    }
}

/// After inserting entries with distinct ids, each of them is stored and
/// found under its id, and the ids stay distinct.
proof fn lemma_inserted_all_holds(s: Seq<AppEntry>, es: Seq<AppEntry>)
    requires
        unique_ids(s),
        unique_ids(es),
    ensures
        unique_ids(inserted_all(s, es)),
        forall|j: int| 0 <= j < es.len() ==> (find_app(inserted_all(s, es), #[trigger] es[j].app_id@) matches Some(i)
            && inserted_all(s, es)[i] == es[j]),
    decreases es.len(),
{
    if es.len() > 0 {
        let p = es.drop_last();
        let e = es.last();
        assert(unique_ids(p));
        lemma_inserted_all_holds(s, p);
        let u = inserted_all(s, p);
        let t = inserted_all(s, es);
        insert_then_find(u, e);
        assert forall|j: int| 0 <= j < es.len() implies (find_app(t, #[trigger] es[j].app_id@) matches Some(i) && t[i] == es[j]) by {
            if j < es.len() - 1 {
                assert(p[j] == es[j]);
                let i = find_app(u, es[j].app_id@)->0;
                lemma_find_app(u, es[j].app_id@);
                assert(t == inserted(u, e));
                assert(es[j].app_id@ != e.app_id@);
                lemma_find_app(u, e.app_id@);
                match find_app(u, e.app_id@) {
                    Some(m) => {
                        assert(m != i);
                        assert(t[i] == u[i]);
                    },
                    None => {
                        assert(t[i] == u[i]);
                    },
                }
                lemma_find_unique(t, i);
            }
        }
    }
}

/// Filling in the default applications a second time changes nothing.
pub proof fn populate_idempotent(s: Seq<AppEntry>, ds: Seq<AppEntry>)
    requires
        unique_ids(s),
        is_default_catalog(ds),
    ensures
        inserted_all(inserted_all(s, ds), ds) == inserted_all(s, ds),
{
    lemma_default_catalog_distinct(ds);
    lemma_inserted_all_holds(s, ds);
    lemma_reinsert_stored(inserted_all(s, ds), ds, ds.len() as int);
    assert(ds.subrange(0, ds.len() as int) =~= ds);
}

/// Inserting again entries that are already stored under their ids leaves
/// the entries as they are.
proof fn lemma_reinsert_stored(t: Seq<AppEntry>, es: Seq<AppEntry>, k: int)
    requires
        0 <= k <= es.len(),
        forall|j: int| 0 <= j < es.len() ==> (find_app(t, #[trigger] es[j].app_id@) matches Some(i) && t[i] == es[j]),
    ensures
        inserted_all(t, es.subrange(0, k)) == t,
    decreases k,
{
    if k > 0 {
        lemma_reinsert_stored(t, es, k - 1);
        assert(es.subrange(0, k).drop_last() =~= es.subrange(0, k - 1));
        assert(es.subrange(0, k).last() == es[k - 1]);
        let i = find_app(t, es[k - 1].app_id@)->0;
        lemma_find_app(t, es[k - 1].app_id@);
        assert(t.update(i, es[k - 1]) =~= t);
    }
}

/// Two entries hold the same text and settings (their strings may be
/// different objects).
pub open spec fn same_contents(a: AppEntry, b: AppEntry) -> bool {
    &&& a.app_id@ == b.app_id@
    &&& a.display_name@ == b.display_name@
    &&& a.description@ == b.description@
    &&& a.publisher@ == b.publisher@
    &&& a.version@ == b.version@
    &&& a.icon_path@ == b.icon_path@
    &&& a.exec_path@ == b.exec_path@
    &&& views(a.keywords@) == views(b.keywords@)
    &&& a.available_formats@ == b.available_formats@
    &&& a.selected_format == b.selected_format
    &&& a.install_state == b.install_state
    &&& opt_view(a.install_error) == opt_view(b.install_error)
    &&& opt_view(a.webview_url) == opt_view(b.webview_url)
    &&& views(a.screenshot_urls@) == views(b.screenshot_urls@)
}

/// Two indexes hold entries of the same contents, in the same order.
pub open spec fn same_index(s: Seq<AppEntry>, t: Seq<AppEntry>) -> bool {
    &&& s.len() == t.len()
    &&& forall|k: int| 0 <= k < s.len() ==> #[trigger] same_contents(s[k], t[k])
}

proof fn lemma_find_same_index_from(s: Seq<AppEntry>, t: Seq<AppEntry>, id: Seq<char>, k: int)
    requires
        same_index(s, t),
    ensures
        find_app_from(s, id, k) == find_app_from(t, id, k),
    decreases s.len() - k,
{
    if 0 <= k < s.len() {
        assert(same_contents(s[k], t[k]));
        lemma_find_same_index_from(s, t, id, k + 1);
    }
}

proof fn lemma_insert_same_index(s: Seq<AppEntry>, t: Seq<AppEntry>, d: AppEntry, e: AppEntry)
    requires
        same_index(s, t),
        same_contents(d, e),
    ensures
        same_index(inserted(s, d), inserted(t, e)),
{
    lemma_find_same_index_from(s, t, d.app_id@, 0);
    lemma_find_app(s, d.app_id@);
    let a = inserted(s, d);
    let b = inserted(t, e);
    assert forall|k: int| 0 <= k < a.len() implies #[trigger] same_contents(a[k], b[k]) by {
        if k < s.len() {
            assert(same_contents(s[k], t[k]));
        }
    }
}

proof fn lemma_insert_all_same_index(s: Seq<AppEntry>, t: Seq<AppEntry>, ds: Seq<AppEntry>, es: Seq<AppEntry>)
    requires
        same_index(s, t),
        same_index(ds, es),
    ensures
        same_index(inserted_all(s, ds), inserted_all(t, es)),
    decreases ds.len(),
{
    if ds.len() > 0 {
        assert(same_index(ds.drop_last(), es.drop_last())) by {
            assert forall|k: int| 0 <= k < ds.len() - 1 implies #[trigger] same_contents(
                ds.drop_last()[k],
                es.drop_last()[k],
            ) by {
                assert(same_contents(ds[k], es[k]));
            }
        }
        lemma_insert_all_same_index(s, t, ds.drop_last(), es.drop_last());
        assert(same_contents(ds[ds.len() - 1], es[ds.len() - 1]));
        lemma_insert_same_index(inserted_all(s, ds.drop_last()), inserted_all(t, es.drop_last()), ds.last(), es.last());
    }
}

/// Any two default catalogs hold the same applications.
proof fn lemma_catalogs_agree(d1: Seq<AppEntry>, d2: Seq<AppEntry>)
    requires
        is_default_catalog(d1),
        is_default_catalog(d2),
    ensures
        same_index(d1, d2),
{
    assert forall|k: int| 0 <= k < d1.len() implies #[trigger] same_contents(d1[k], d2[k]) by {
        assert(0 <= k < 7);
    }
}

/// Calling `populate_default_system_apps` twice leaves an index with the
/// same contents as calling it once: `d1` is the catalog of the single
/// call, `d2` and `d3` those of the two calls.
pub proof fn populate_twice_same_as_once(s: Seq<AppEntry>, d1: Seq<AppEntry>, d2: Seq<AppEntry>, d3: Seq<AppEntry>)
    requires
        unique_ids(s),
        is_default_catalog(d1),
        is_default_catalog(d2),
        is_default_catalog(d3),
    ensures
        same_index(inserted_all(inserted_all(s, d2), d3), inserted_all(s, d1)),
{
    let x = inserted_all(s, d2);
    lemma_catalogs_agree(d3, d2);
    lemma_catalogs_agree(d2, d1);
    assert(same_index(x, x)) by {
        assert forall|k: int| 0 <= k < x.len() implies #[trigger] same_contents(x[k], x[k]) by {}
    }
    assert(same_index(s, s)) by {
        assert forall|k: int| 0 <= k < s.len() implies #[trigger] same_contents(s[k], s[k]) by {}
    }
    lemma_insert_all_same_index(x, x, d3, d2);
    populate_idempotent(s, d2);
    lemma_insert_all_same_index(s, s, d2, d1);
    let a = inserted_all(x, d3);
    let b = inserted_all(s, d1);
    assert forall|k: int| 0 <= k < a.len() implies #[trigger] same_contents(a[k], b[k]) by {
        assert(same_contents(a[k], x[k]));
        assert(same_contents(x[k], b[k]));
    }
}

/// The seven default applications have distinct ids.
proof fn lemma_default_catalog_distinct(ds: Seq<AppEntry>)
    requires
        is_default_catalog(ds),
    ensures
        unique_ids(ds),
{
    reveal_strlit("zen-browser");
    reveal_strlit("filer");
    reveal_strlit("pathfinder");
    reveal_strlit("terminow");
    reveal_strlit("settings");
    reveal_strlit("vlc");
    reveal_strlit("obs-studio");
    let ids = seq!["zen-browser"@, "filer"@, "pathfinder"@, "terminow"@, "settings"@, "vlc"@, "obs-studio"@];
    assert(ids[3][0] != ids[4][0]);
    assert(ids[2][0] != ids[6][0]);
    assert forall|a: int, b: int| 0 <= a < b < ds.len() implies ds[a].app_id@ != ds[b].app_id@ by {
        assert(ds[a].app_id@ == ids[a]);
        assert(ds[b].app_id@ == ids[b]);
        if ids[a].len() == ids[b].len() {
            assert(ids[a][0] != ids[b][0]);
        }
    }
}

/// The application index.
pub struct AppIndexCache {
    entries: Vec<AppEntry>,
}

impl AppIndexCache {
    /// The entries, in the order they were first inserted.
    pub closed spec fn entry_seq(&self) -> Seq<AppEntry> {
        self.entries@
    }

    /// No two entries share an application id.
    pub open spec fn wf(&self) -> bool {
        unique_ids(self.entry_seq())
    }

    /// An index holding the seven default applications.
    pub fn new() -> (c: Self)
        ensures
            c.wf(),
            is_default_catalog(c.entry_seq()),
    {
        let mut c = AppIndexCache { entries: Vec::new() };
        c.populate_default_system_apps();
        proof {
            let ds = choose|ds: Seq<AppEntry>| is_default_catalog(ds) && c.entries@ == inserted_all(Seq::empty(), ds);
            lemma_default_catalog_distinct(ds);
            lemma_inserted_all_distinct(ds);
        }
        c
    }

    /// Inserts the seven default applications (each replaces an entry with
    /// its id).
    pub fn populate_default_system_apps(&mut self)
        requires
            old(self).wf(),
        ensures
            final(self).wf(),
            exists|ds: Seq<AppEntry>|
                is_default_catalog(ds) && final(self).entry_seq() == inserted_all(old(self).entry_seq(), ds),
    {
        let defaults = default_system_apps();
        let ghost ds = defaults@;
        let mut rest = defaults;
        let ghost mut k: int = 0;
        while rest.len() > 0
            invariant
                0 <= k <= ds.len(),
                rest@ == ds.subrange(k, ds.len() as int),
                self.wf(),
                self.entries@ == inserted_all(old(self).entries@, ds.subrange(0, k)),
            decreases rest@.len(),
        {
            let e = rest.remove(0);
            proof {
                assert(e == ds[k]);
                assert(ds.subrange(0, k + 1).drop_last() =~= ds.subrange(0, k));
            }
            self.insert(e);
            proof {
                k = k + 1;
                assert(rest@ =~= ds.subrange(k, ds.len() as int));
            }
        }
        assert(ds.subrange(0, k) =~= ds);
    }

    /// Number of entries.
    pub fn len(&self) -> (n: usize)
        ensures
            n == self.entry_seq().len(),
    {
        self.entries.len()
    }

    fn position(&self, app_id: &str) -> (r: Option<usize>)
        ensures
            r matches Some(i) ==> find_app(self.entries@, app_id@) == Some(i as int) && i < self.entries@.len(),
            r is None ==> find_app(self.entries@, app_id@) is None,
    {
        let mut i: usize = 0;
        while i < self.entries.len()
            invariant
                0 <= i <= self.entries@.len(),
                find_app(self.entries@, app_id@) == find_app_from(self.entries@, app_id@, i as int),
            decreases self.entries@.len() - i,
        {
            let id = char_vec(self.entries[i].app_id.as_str());
            let want = char_vec(app_id);
            if chars_equal(&id, &want) {
                return Some(i);
            }
            i = i + 1;
        }
        None
    }

    /// Adds `entry`, replacing the one with the same application id.
    pub fn insert(&mut self, entry: AppEntry)
        requires
            old(self).wf(),
        ensures
            final(self).wf(),
            final(self).entry_seq() == inserted(old(self).entry_seq(), entry),
    {
        proof {
            lemma_find_app(self.entries@, entry.app_id@);
        }
        match self.position(entry.app_id.as_str()) {
            Some(i) => {
                self.entries.set(i, entry);
            },
            None => {
                self.entries.push(entry);
            },
        }
    }

    /// A copy of the entry with `app_id`.
    pub fn get(&self, app_id: &str) -> (r: Option<AppEntry>)
        ensures
            r matches Some(e) ==> find_app(self.entry_seq(), app_id@) matches Some(i) && same_entry(
                e,
                self.entry_seq()[i],
            ),
            r is None ==> find_app(self.entry_seq(), app_id@) is None,
    {
        match self.position(app_id) {
            Some(i) => Some(clone_entry(&self.entries[i])),
            None => None,
        }
    }

    /// Selects the package format of `app_id`, if the app offers it.
    pub fn set_package_format(&mut self, app_id: &str, format: PackageFormat)
        requires
            old(self).wf(),
        ensures
            final(self).wf(),
            final(self).entry_seq() == (match find_app(old(self).entry_seq(), app_id@) {
                Some(i) => if old(self).entry_seq()[i].available_formats@.contains(format) {
                    old(self).entry_seq().update(i, AppEntry { selected_format: format, ..old(self).entry_seq()[i] })
                } else {
                    old(self).entry_seq()
                },
                None => old(self).entry_seq(),
            }),
    {
        if let Some(i) = self.position(app_id) {
            let mut offered = false;
            let mut k: usize = 0;
            while k < self.entries[i].available_formats.len()
                invariant
                    i < self.entries@.len(),
                    self.entries == old(self).entries,
                    0 <= k <= self.entries@[i as int].available_formats@.len(),
                    offered == (exists|m: int| 0 <= m < k && self.entries@[i as int].available_formats@[m] == format),
                decreases self.entries@[i as int].available_formats@.len() - k,
            {
                if self.entries[i].available_formats[k] == format {
                    offered = true;
                }
                k = k + 1;
            }
            if offered {
                self.entries[i].selected_format = format;
            }
        }
    }

    /// Records the install state (and error) of `app_id`.
    pub fn update_install_state(&mut self, app_id: &str, state: InstallState, error: Option<String>)
        requires
            old(self).wf(),
        ensures
            final(self).wf(),
            final(self).entry_seq() == (match find_app(old(self).entry_seq(), app_id@) {
                Some(i) => old(self).entry_seq().update(
                    i,
                    AppEntry { install_state: state, install_error: error, ..old(self).entry_seq()[i] },
                ),
                None => old(self).entry_seq(),
            }),
    {
        if let Some(i) = self.position(app_id) {
            self.entries[i].install_state = state;
            self.entries[i].install_error = error;
        }
    }

    /// Search: entries whose display name or keywords match the trimmed,
    /// lowercased query, best score first (equal scores in stored order).
    /// A blank query finds nothing.
    pub fn search(&self, query: &str) -> (r: Vec<AppEntry>)
        requires
            scores_fit(self.entry_seq()),
        ensures
            search_key(query@).len() == 0 ==> r@.len() == 0,
            search_key(query@).len() > 0 ==> exists|idx: Seq<int>|
                {
                    &&& is_ranking(self.entry_seq(), search_key(query@), idx)
                    &&& #[trigger] idx.len() == r@.len()
                    &&& forall|k: int| 0 <= k < idx.len() ==> same_entry(#[trigger] r@[k], self.entry_seq()[idx[k]])
                },
    {
        let trimmed_query = str_trim(query);
        let lower = str_to_lowercase(trimmed_query);
        let q = char_vec(lower.as_str());
        if q.len() == 0 {
            return Vec::new();
        }
        let ghost s = self.entries@;
        let ghost key = q@;
        let n = self.entries.len();
        let mut scores: Vec<u32> = Vec::new();
        let mut i: usize = 0;
        while i < n
            invariant
                n == s.len(),
                s == self.entries@,
                key == q@,
                scores_fit(s),
                0 <= i <= n,
                scores@.len() == i,
                forall|j: int| 0 <= j < i ==> #[trigger] scores@[j] == app_score(s[j], key),
            decreases n - i,
        {
            let sc = score_entry(&self.entries[i], &q);
            scores.push(sc);
            i = i + 1;
        }
        let mut order: Vec<usize> = Vec::new();
        let mut i: usize = 0;
        while i < n
            invariant
                n == s.len(),
                scores@.len() == n,
                forall|j: int| 0 <= j < n ==> #[trigger] scores@[j] == app_score(s[j], key),
                0 <= i <= n,
                forall|k: int| 0 <= k < order@.len() ==> (#[trigger] order@[k]) < i && scores@[order@[k] as int] > 0,
                forall|j: int| 0 <= j < i && scores@[j] > 0 ==> #[trigger] order@.contains(j as usize),
                forall|k1: int, k2: int|
                    0 <= k1 < k2 < order@.len() ==> ranks_before(s, key, order@[k1] as int, order@[k2] as int),
            decreases n - i,
        {
            if scores[i] > 0 {
                let ghost before = order@;
                assert forall|k1: int, k2: int| 0 <= k1 < k2 < order@.len() implies scores@[order@[k1] as int]
                    >= scores@[order@[k2] as int] by {
                    assert(ranks_before(s, key, order@[k1] as int, order@[k2] as int));
                }
                let p = insert_position(&order, &scores, scores[i]);
                order.insert(p, i);
                proof {
                    assert forall|k: int| 0 <= k < order@.len() implies (#[trigger] order@[k]) < i + 1
                        && scores@[order@[k] as int] > 0 by {
                        if k < p {
                            assert(order@[k] == before[k]);
                        } else if k > p {
                            assert(order@[k] == before[k - 1]);
                        }
                    }
                    assert forall|j: int| 0 <= j < i + 1 && scores@[j] > 0 implies #[trigger] order@.contains(j as usize) by {
                        if j == i {
                            assert(order@[p as int] == i);
                        } else {
                            assert(before.contains(j as usize));
                            let k = choose|k: int| 0 <= k < before.len() && before[k] == j as usize;
                            if k < p {
                                assert(order@[k] == before[k]);
                            } else {
                                assert(order@[k + 1] == before[k]);
                            }
                        }
                    }
                    assert forall|k1: int, k2: int| 0 <= k1 < k2 < order@.len() implies ranks_before(
                        s,
                        key,
                        order@[k1] as int,
                        order@[k2] as int,
                    ) by {
                        let a = if k1 < p { k1 } else { k1 - 1 };
                        let b = if k2 < p { k2 } else { k2 - 1 };
                        if k1 != p && k2 != p {
                            assert(order@[k1] == before[a]);
                            assert(order@[k2] == before[b]);
                        } else if k1 == p {
                            assert(order@[k2] == before[b]);
                        } else {
                            assert(order@[k1] == before[a]);
                        }
                    }
                }
            }
            i = i + 1;
        }
        let mut out: Vec<AppEntry> = Vec::new();
        let mut k: usize = 0;
        while k < order.len()
            invariant
                n == s.len(),
                s == self.entries@,
                forall|m: int| 0 <= m < order@.len() ==> (#[trigger] order@[m]) < n,
                0 <= k <= order@.len(),
                out@.len() == k,
                forall|m: int| 0 <= m < k ==> same_entry(#[trigger] out@[m], s[order@[m] as int]),
            decreases order@.len() - k,
        {
            out.push(clone_entry(&self.entries[order[k]]));
            k = k + 1;
        }
        proof {
            let idx = order@.map_values(|x: usize| x as int);
            assert forall|j: int| 0 <= j < s.len() && app_score(s[j], key) > 0 implies #[trigger] idx.contains(j) by {
                assert(order@.contains(j as usize));
                let m = choose|m: int| 0 <= m < order@.len() && order@[m] == j as usize;
                assert(idx[m] == j);
            }
            assert(is_ranking(s, key, idx));
            assert(idx.len() == out@.len());
        }
        out
    }
}

} // verus!
