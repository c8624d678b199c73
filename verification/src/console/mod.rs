//! The web console: base path and URLs, session key, and the values every page
//! template is given.

pub mod addons;
pub mod metrics;
pub mod permissions;

use crate::config::ConsoleConfig;
use crate::text::{concat, str_eq, starts_with_char, to_chars, trim, trim_spec, is_ws};
use vstd::prelude::*;

verus! {

// ---------------------------------------------------------------------------
// Base path
// ---------------------------------------------------------------------------

/// `s` without trailing `/`, keeping the first character.
pub open spec fn strip_trailing_slashes(s: Seq<char>) -> Seq<char>
    decreases s.len(),
{
    if s.len() > 1 && s.last() == '/' {
        strip_trailing_slashes(s.drop_last())
    } else {
        s
    }
}

/// The console base path for a configured one: trimmed, with a leading `/`,
/// without trailing `/` (unless it is `/` alone); `/console` when blank.
pub open spec fn normalize_base_path_spec(path: Seq<char>) -> Seq<char> {
    let t = trim_spec(path);
    if t.len() == 0 {
        "/console"@
    } else {
        let n = if t[0] == '/' {
            t
        } else {
            "/"@ + t
        };
        strip_trailing_slashes(n)
    }
}

/// Whether `s` is shaped as a normalized base path: a leading `/`, and no
/// trailing `/` unless it is `/` alone.
pub open spec fn is_base_path(s: Seq<char>) -> bool {
    &&& s.len() > 0
    &&& s[0] == '/'
    &&& (s.len() == 1 || s.last() != '/')
}

proof fn lemma_strip_trailing_slashes(s: Seq<char>)
    requires
        s.len() > 0,
        s[0] == '/',
    ensures
        is_base_path(strip_trailing_slashes(s)),
        strip_trailing_slashes(s).len() <= s.len(),
        strip_trailing_slashes(s) == s.take(strip_trailing_slashes(s).len() as int),
        strip_trailing_slashes(strip_trailing_slashes(s)) == strip_trailing_slashes(s),
    decreases s.len(),
{
    if s.len() > 1 && s.last() == '/' {
        lemma_strip_trailing_slashes(s.drop_last());
        let r = strip_trailing_slashes(s.drop_last());
        assert(s.drop_last().take(r.len() as int) =~= s.take(r.len() as int));
    } else {
        assert(s.take(s.len() as int) =~= s);
    }
}

/// The console base path for a configured one (see `normalize_base_path_spec`).
pub fn normalize_base_path(path: &str) -> (r: String)
    ensures
        r@ == normalize_base_path_spec(path@),
        is_base_path(r@),
{
    let trimmed = trim(path);
    if trimmed.is_empty() {
        proof {
            reveal_strlit("/console");
        }
        return "/console".to_owned();
    }
    let normalized = if starts_with_char(trimmed, '/') {
        trimmed.to_owned()
    } else {
        concat("/", trimmed)
    };
    proof {
        reveal_strlit("/");
    }
    let v = to_chars(normalized.as_str());
    let mut j: usize = v.len();
    assert(normalized@.subrange(0, j as int) =~= normalized@);
    while j > 1 && v[j - 1] == '/'
        invariant
            1 <= j <= v.len(),
            v@ == normalized@,
            normalized@[0] == '/',
            strip_trailing_slashes(normalized@) == strip_trailing_slashes(
                normalized@.subrange(0, j as int),
            ),
        decreases j,
    {
        proof {
            assert(normalized@.subrange(0, j as int).drop_last() =~= normalized@.subrange(
                0,
                j - 1,
            ));
        }
        j = j - 1;
    }
    proof {
        lemma_strip_trailing_slashes(normalized@);
    }
    normalized.as_str().substring_char(0, j).to_owned()
}

/// Normalizing a base path again changes nothing, unless the first result ends
/// in white space (as for `a /`, which gives `/a `).
pub proof fn lemma_normalize_base_path_idempotent(path: Seq<char>)
    requires
        !is_ws(normalize_base_path_spec(path).last()),
    ensures
        normalize_base_path_spec(normalize_base_path_spec(path)) == normalize_base_path_spec(path),
{
    let r = normalize_base_path_spec(path);
    let t = trim_spec(path);
    reveal_strlit("/console");
    reveal_strlit("/");
    if t.len() == 0 {
        lemma_base_path_fixed("/console"@);
    } else {
        let n = if t[0] == '/' {
            t
        } else {
            "/"@ + t
        };
        lemma_strip_trailing_slashes(n);
        lemma_base_path_fixed(r);
    }
}

proof fn lemma_base_path_fixed(s: Seq<char>)
    requires
        is_base_path(s),
        !is_ws(s.last()),
    ensures
        normalize_base_path_spec(s) == s,
{
    assert(!is_ws(s[0]));
    assert(trim_spec(s) == s);
    reveal_strlit("/");
}

// ---------------------------------------------------------------------------
// Console state
// ---------------------------------------------------------------------------

/// SHA-256 digest of `data`.
pub uninterp spec fn sha256_spec(data: Seq<u8>) -> Seq<u8>;

/// `sha2::Sha256::digest`: the SHA-256 digest of `data`, 32 bytes long.
#[verifier::external_body]
fn sha256_digest(data: &[u8]) -> (r: Vec<u8>)
    ensures
        r@ == sha256_spec(data@),
        r@.len() == 32,
{
    <sha2::Sha256 as sha2::Digest>::digest(data).to_vec()
}

/// URL below the base path `base` for `suffix` (trimmed): the base path with a
/// trailing `/` for an empty or `/` suffix; otherwise the base path and the
/// suffix, joined by one `/`.
pub open spec fn url_for_spec(base: Seq<char>, suffix: Seq<char>) -> Seq<char> {
    let t = trim_spec(suffix);
    if t.len() == 0 || t == "/"@ {
        base + "/"@
    } else if t[0] == '/' {
        if base == "/"@ {
            t
        } else {
            base + t
        }
    } else if base == "/"@ {
        "/"@ + t
    } else {
        base + "/"@ + t
    }
}

/// `url` with `?next=` and the target appended when there is one.
pub open spec fn with_next(url: Seq<char>, next: Option<String>) -> Seq<char> {
    match next {
        Some(n) => url + "?next="@ + n@,
        None => url,
    }
}

/// A locale that the console offers: its code and display names.
pub struct LocaleEntry {
    pub code: String,
    pub name: String,
    pub native_name: String,
}

/// The console's locales: the default code and those offered.
pub struct LocaleConfig {
    pub default: String,
    pub available: Vec<LocaleEntry>,
}

/// Whether `l` holds the default locale of `c` and, in order, each locale of
/// `c` with its code and display names.
pub open spec fn locale_config_of(l: LocaleConfig, c: ConsoleConfig) -> bool {
    &&& l.default@ == c.locale_default@
    &&& l.available@.len() == c.locales@.len()
    &&& forall|i: int|
        0 <= i < c.locales@.len() ==> {
            &&& (#[trigger] l.available@[i]).code@ == c.locales@[i].0@
            &&& l.available@[i].name@ == c.locales@[i].1.name@
            &&& l.available@[i].native_name@ == c.locales@[i].1.native_name@
        }
}

/// The locale settings of the console settings `c`.
pub fn build_locale_config(c: &ConsoleConfig) -> (r: LocaleConfig)
    ensures
        locale_config_of(r, *c),
{
    let mut available: Vec<LocaleEntry> = Vec::new();
    let n = c.locales.len();
    let mut i: usize = 0;
    while i < n
        invariant
            i <= n == c.locales@.len(),
            available@.len() == i,
            forall|j: int|
                0 <= j < i ==> {
                    &&& (#[trigger] available@[j]).code@ == c.locales@[j].0@
                    &&& available@[j].name@ == c.locales@[j].1.name@
                    &&& available@[j].native_name@ == c.locales@[j].1.native_name@
                },
        decreases n - i,
    {
        let (code, info) = &c.locales[i];
        available.push(
            LocaleEntry {
                code: code.clone(),
                name: info.name.clone(),
                native_name: info.native_name.clone(),
            },
        );
        i = i + 1;
    }
    LocaleConfig { default: c.locale_default.clone(), available }
}

/// Settings of the web console that pages and URLs are derived from.
pub struct ConsoleState {
    config: ConsoleConfig,
    session_key: Vec<u8>,
    locales: LocaleConfig,
}

impl ConsoleState {
    #[verifier::type_invariant]
    spec fn wf(self) -> bool {
        is_base_path(self.config.base_path@)
    }

    /// The console settings, with the base path normalized.
    pub closed spec fn console_config(self) -> ConsoleConfig {
        self.config
    }

    /// The key that session cookies are signed with.
    pub closed spec fn session_key_bytes(self) -> Seq<u8> {
        self.session_key@
    }

    /// The console's locales.
    pub closed spec fn locale_settings(self) -> LocaleConfig {
        self.locales
    }

    /// The base path of every console URL.
    pub closed spec fn base(self) -> Seq<char> {
        self.config.base_path@
    }

    /// Console state for the given settings: the base path is normalized, the
    /// session key is the SHA-256 digest of the session secret, and the
    /// locales are those of the settings.
    pub fn initialize(config: ConsoleConfig) -> (r: ConsoleState)
        ensures
            r.console_config() == (ConsoleConfig {
                base_path: r.console_config().base_path,
                ..config
            }),
            r.base() == normalize_base_path_spec(config.base_path@),
            r.session_key_bytes() == sha256_spec(vstd::utf8::encode_utf8(config.session_secret@)),
            r.session_key_bytes().len() == 32,
            locale_config_of(r.locale_settings(), config),
    {
        let key_material = sha256_digest(config.session_secret.as_str().as_bytes());
        let mut config = config;
        config.base_path = normalize_base_path(config.base_path.as_str());
        let locales = build_locale_config(&config);
        ConsoleState { config, session_key: key_material, locales }
    }

    /// The console's locales.
    pub fn locale_config(&self) -> (r: &LocaleConfig)
        ensures
            *r == self.locale_settings(),
    {
        &self.locales
    }

    /// The console settings.
    pub fn config(&self) -> (r: &ConsoleConfig)
        ensures
            *r == self.console_config(),
    {
        &self.config
    }

    /// The key that session cookies are signed with.
    pub fn session_key(&self) -> (r: &[u8])
        ensures
            r@ == self.session_key_bytes(),
    {
        self.session_key.as_slice()
    }

    /// The base path of every console URL.
    pub fn base_path(&self) -> (r: &str)
        ensures
            r@ == self.base(),
            is_base_path(r@),
    {
        proof {
            use_type_invariant(self);
        }
        self.config.base_path.as_str()
    }

    /// Whether the settings allow new users to register.
    pub fn registration_allowed_by_config(&self) -> (r: bool)
        ensures
            r == self.console_config().allow_registration,
    {
        self.config.allow_registration
    }

    /// Console URL for `suffix` (see `url_for_spec`).
    pub fn url_for(&self, suffix: &str) -> (r: String)
        ensures
            r@ == url_for_spec(self.base(), suffix@),
            r@.len() > 0 && r@[0] == '/',
    {
        let trimmed = trim(suffix);
        let base = self.base_path();
        proof {
            lemma_url_for_absolute(base@, suffix@);
        }
        if trimmed.is_empty() || str_eq(trimmed, "/") {
            return concat(base, "/");
        }
        if starts_with_char(trimmed, '/') {
            if str_eq(base, "/") {
                trimmed.to_owned()
            } else {
                concat(base, trimmed)
            }
        } else if str_eq(base, "/") {
            concat("/", trimmed)
        } else {
            let mut s = concat(base, "/");
            s.append(trimmed);
            s
        }
    }

    fn append_next(url: String, next: Option<String>) -> (r: String)
        ensures
            r@ == with_next(url@, next),
    {
        let mut url = url;
        match next {
            Some(n) => {
                url.append("?next=");
                url.append(n.as_str());
            },
            None => {},
        }
        url
    }

    /// The login URL, with the page to return to when given.
    pub fn login_url(&self, next: Option<String>) -> (r: String)
        ensures
            r@ == with_next(url_for_spec(self.base(), "/login"@), next),
    {
        let url = self.url_for("/login");
        ConsoleState::append_next(url, next)
    }

    /// The registration URL, with the page to return to when given.
    pub fn register_url(&self, next: Option<String>) -> (r: String)
        ensures
            r@ == with_next(url_for_spec(self.base(), "/register"@), next),
    {
        let url = self.url_for("/register");
        ConsoleState::append_next(url, next)
    }

    /// Where the licenses page redirects to: the addons page below the base path.
    pub fn licenses_redirect(&self) -> (r: String)
        ensures
            r@ == self.base() + "/addons"@,
    {
        concat(self.base_path(), "/addons")
    }

    /// The password reset URL.
    pub fn forgot_url(&self) -> (r: String)
        ensures
            r@ == url_for_spec(self.base(), "/forgot"@),
    {
        self.url_for("/forgot")
    }
}

/// Every console URL starts with `/`.
pub proof fn lemma_url_for_absolute(base: Seq<char>, suffix: Seq<char>)
    requires
        is_base_path(base),
    ensures
        url_for_spec(base, suffix).len() > 0,
        url_for_spec(base, suffix)[0] == '/',
{
    reveal_strlit("/");
    let t = trim_spec(suffix);
    if t.len() == 0 || t == "/"@ {
    } else if t[0] == '/' {
        if base == "/"@ {
        } else {
        }
    } else {
    }
}

/// A suffix and the same suffix with surrounding white space give the same URL.
pub proof fn lemma_url_for_trims(base: Seq<char>, suffix: Seq<char>)
    ensures
        url_for_spec(base, trim_spec(suffix)) == url_for_spec(base, suffix),
{
    crate::text::lemma_trim_idempotent(suffix);
}

// ---------------------------------------------------------------------------
// Page context
// ---------------------------------------------------------------------------

/// A value that page templates are given.
#[derive(Debug)]
pub enum ContextValue {
    Text(String),
    Flag(bool),
    Null,
    /// The sidebar items of the enabled addons, filled in by the application
    AddonSidebarItems,
    /// The translations of the page locale, filled in by the application
    Translations,
    /// The locales on offer, filled in by the application
    AvailableLocales,
}

/// What a `ContextValue` holds.
pub enum ContextValueView {
    Text(Seq<char>),
    Flag(bool),
    Null,
    AddonSidebarItems,
    Translations,
    AvailableLocales,
}

impl View for ContextValue {
    type V = ContextValueView;

    open spec fn view(&self) -> ContextValueView {
        match self {
            ContextValue::Text(s) => ContextValueView::Text(s@),
            ContextValue::Flag(b) => ContextValueView::Flag(*b),
            ContextValue::Null => ContextValueView::Null,
            ContextValue::AddonSidebarItems => ContextValueView::AddonSidebarItems,
            ContextValue::Translations => ContextValueView::Translations,
            ContextValue::AvailableLocales => ContextValueView::AvailableLocales,
        }
    }
}

impl ContextValue {
    /// A copy of the value.
    pub fn duplicate(&self) -> (r: ContextValue)
        ensures
            r@ == self@,
    {
        match self {
            ContextValue::Text(s) => ContextValue::Text(s.clone()),
            ContextValue::Flag(b) => ContextValue::Flag(*b),
            ContextValue::Null => ContextValue::Null,
            ContextValue::AddonSidebarItems => ContextValue::AddonSidebarItems,
            ContextValue::Translations => ContextValue::Translations,
            ContextValue::AvailableLocales => ContextValue::AvailableLocales,
        }
    }
}

/// Keys and values of context entries.
pub open spec fn entry_views(s: Seq<(String, ContextValue)>) -> Seq<(Seq<char>, ContextValueView)> {
    s.map_values(|e: (String, ContextValue)| (e.0@, e.1@))
}

/// Keys of context entries.
pub open spec fn entry_keys(s: Seq<(Seq<char>, ContextValueView)>) -> Seq<Seq<char>> {
    s.map_values(|e: (Seq<char>, ContextValueView)| e.0)
}

/// The entry for an optional script URL, when one is configured.
pub open spec fn optional_text(key: Seq<char>, value: Option<String>) -> Seq<(Seq<char>, ContextValueView)> {
    match value {
        Some(v) => seq![(key, ContextValueView::Text(v@))],
        None => Seq::empty(),
    }
}

/// The values every page is given unless its own context sets them, in order:
/// base path, addon sidebar items (when the application runs), the account
/// URLs, empty user fields, the site texts, demo mode, the configured script
/// URLs, the locale and its translations, and the locales on offer.
pub open spec fn context_defaults_spec(
    base: Seq<char>,
    config: ConsoleConfig,
    locale: Seq<char>,
    site_version: Seq<char>,
    demo_mode: bool,
    has_app_state: bool,
) -> Seq<(Seq<char>, ContextValueView)> {
    let head = seq![("base_path"@, ContextValueView::Text(base))];
    let sidebar = if has_app_state {
        seq![("addon_sidebar_items"@, ContextValueView::AddonSidebarItems)]
    } else {
        Seq::empty()
    };
    let site = seq![
        ("logout_url"@, ContextValueView::Text(url_for_spec(base, "/logout"@))),
        ("forgot_url"@, ContextValueView::Text(url_for_spec(base, "/forgot"@))),
        ("login_url"@, ContextValueView::Text(url_for_spec(base, "/login"@))),
        ("register_url"@, ContextValueView::Text(url_for_spec(base, "/register"@))),
        ("username"@, ContextValueView::Null),
        ("email"@, ContextValueView::Null),
        ("site_version"@, ContextValueView::Text(site_version)),
        ("edition"@, ContextValueView::Text("full"@)),
        ("site_name"@, ContextValueView::Text("RustPBX"@)),
        ("page_title"@, ContextValueView::Text("RustPBX admin"@)),
        ("site_description"@, ContextValueView::Text("RustPBX - A Rust-based PBX system"@)),
        ("site_url"@, ContextValueView::Text("https://rustpbx.com"@)),
        ("site_footer"@, ContextValueView::Text("© 2025 RustPBX. All rights reserved."@)),
        ("site_logo"@, ContextValueView::Text("/static/images/logo.png"@)),
        ("site_logo_mini"@, ContextValueView::Text("/static/images/logo-mini.png"@)),
        ("favicon_url"@, ContextValueView::Text("/static/images/favicon.png"@)),
        ("demo_mode"@, ContextValueView::Flag(demo_mode)),
    ];
    let scripts = optional_text("alpine_js"@, config.alpine_js) + optional_text(
        "tailwind_js"@,
        config.tailwind_js,
    ) + optional_text("chart_js"@, config.chart_js);
    let tail = seq![
        ("locale"@, ContextValueView::Text(locale)),
        ("t"@, ContextValueView::Translations),
        ("available_locales"@, ContextValueView::AvailableLocales),
    ];
    head + sidebar + site + scripts + tail
}

/// The entries of `d` that a context with keys `keys` lacks, each key once:
/// an entry is kept when its key is neither in `keys` nor in an entry kept before it.
pub open spec fn absent_entries(
    d: Seq<(Seq<char>, ContextValueView)>,
    keys: Seq<Seq<char>>,
) -> Seq<(Seq<char>, ContextValueView)>
    decreases d.len(),
{
    if d.len() == 0 {
        d
    } else {
        let rest = absent_entries(d.drop_last(), keys);
        let k = d.last().0;
        if keys.contains(k) || entry_keys(rest).contains(k) {
            rest
        } else {
            rest.push(d.last())
        }
    }
}

fn push_text(v: &mut Vec<(String, ContextValue)>, key: &str, value: String)
    ensures
        entry_views(final(v)@) == entry_views(old(v)@).push((key@, ContextValueView::Text(value@))),
{
    let ghost before = entry_views(v@);
    v.push((key.to_owned(), ContextValue::Text(value)));
    assert(entry_views(v@) =~= before.push((key@, ContextValueView::Text(value@))));
}

fn push_value(v: &mut Vec<(String, ContextValue)>, key: &str, value: ContextValue)
    ensures
        entry_views(final(v)@) == entry_views(old(v)@).push((key@, value@)),
{
    let ghost before = entry_views(v@);
    v.push((key.to_owned(), value));
    assert(entry_views(v@) =~= before.push((key@, value@)));
}

fn push_optional(v: &mut Vec<(String, ContextValue)>, key: &str, value: &Option<String>)
    ensures
        entry_views(final(v)@) == entry_views(old(v)@) + optional_text(key@, *value),
{
    match value {
        Some(s) => {
            push_text(v, key, s.clone());
            assert(entry_views(v@) =~= entry_views(old(v)@) + optional_text(key@, *value));
        },
        None => {
            assert(entry_views(v@) =~= entry_views(old(v)@) + optional_text(key@, *value));
        },
    }
}

impl ConsoleState {
    /// The values a page is given unless its own context sets them (see
    /// `context_defaults_spec`); `site_version` is the package version and
    /// `demo_mode` that of the application configuration.
    pub fn context_defaults(
        &self,
        locale: &str,
        site_version: &str,
        demo_mode: bool,
        has_app_state: bool,
    ) -> (r: Vec<(String, ContextValue)>)
        ensures
            entry_views(r@) == context_defaults_spec(
                self.base(),
                self.console_config(),
                locale@,
                site_version@,
                demo_mode,
                has_app_state,
            ),
    {
        let mut v: Vec<(String, ContextValue)> = Vec::new();
        push_text(&mut v, "base_path", self.base_path().to_owned());
        if has_app_state {
            push_value(&mut v, "addon_sidebar_items", ContextValue::AddonSidebarItems);
        }
        push_text(&mut v, "logout_url", self.url_for("/logout"));
        push_text(&mut v, "forgot_url", self.forgot_url());
        push_text(&mut v, "login_url", self.url_for("/login"));
        push_text(&mut v, "register_url", self.register_url(None));
        push_value(&mut v, "username", ContextValue::Null);
        push_value(&mut v, "email", ContextValue::Null);
        push_text(&mut v, "site_version", site_version.to_owned());
        push_text(&mut v, "edition", "full".to_owned());
        push_text(&mut v, "site_name", "RustPBX".to_owned());
        push_text(&mut v, "page_title", "RustPBX admin".to_owned());
        push_text(&mut v, "site_description", "RustPBX - A Rust-based PBX system".to_owned());
        push_text(&mut v, "site_url", "https://rustpbx.com".to_owned());
        push_text(&mut v, "site_footer", "© 2025 RustPBX. All rights reserved.".to_owned());
        push_text(&mut v, "site_logo", "/static/images/logo.png".to_owned());
        push_text(&mut v, "site_logo_mini", "/static/images/logo-mini.png".to_owned());
        push_text(&mut v, "favicon_url", "/static/images/favicon.png".to_owned());
        push_value(&mut v, "demo_mode", ContextValue::Flag(demo_mode));
        push_optional(&mut v, "alpine_js", &self.config.alpine_js);
        push_optional(&mut v, "tailwind_js", &self.config.tailwind_js);
        push_optional(&mut v, "chart_js", &self.config.chart_js);
        push_text(&mut v, "locale", locale.to_owned());
        push_value(&mut v, "t", ContextValue::Translations);
        push_value(&mut v, "available_locales", ContextValue::AvailableLocales);
        proof {
            assert(entry_views(v@) =~= context_defaults_spec(
                self.base(),
                self.console_config(),
                locale@,
                site_version@,
                demo_mode,
                has_app_state,
            ));
        }
        v
    }
}

fn has_entry_key(v: &Vec<(String, ContextValue)>, key: &str) -> (r: bool)
    ensures
        r == entry_keys(entry_views(v@)).contains(key@),
{
    let n = v.len();
    let mut i: usize = 0;
    while i < n
        invariant
            i <= n == v.len(),
            forall|j: int| 0 <= j < i ==> (#[trigger] v@[j]).0@ != key@,
        decreases n - i,
    {
        if str_eq(v[i].0.as_str(), key) {
            assert(entry_keys(entry_views(v@))[i as int] == key@);
            return true;
        }
        i = i + 1;
    }
    proof {
        let ks = entry_keys(entry_views(v@));
        if ks.contains(key@) {
            let k = choose|k: int| 0 <= k < ks.len() && ks[k] == key@;
            assert(v@[k].0@ == key@);
        }
    }
    false
}

fn has_key(keys: &Vec<String>, key: &str) -> (r: bool)
    ensures
        r == crate::console::addons::views(keys@).contains(key@),
{
    crate::console::permissions::contains_permission(keys, key)
}

/// The default entries to add to a page context whose keys are `existing_keys`
/// (see `absent_entries`): what `or_insert` of each default would insert.
pub fn missing_context_entries(
    existing_keys: &Vec<String>,
    defaults: &Vec<(String, ContextValue)>,
) -> (r: Vec<(String, ContextValue)>)
    ensures
        entry_views(r@) == absent_entries(
            entry_views(defaults@),
            crate::console::addons::views(existing_keys@),
        ),
{
    let ghost keys = crate::console::addons::views(existing_keys@);
    let ghost d = entry_views(defaults@);
    let mut out: Vec<(String, ContextValue)> = Vec::new();
    let n = defaults.len();
    let mut i: usize = 0;
    assert(d.take(0) =~= Seq::<(Seq<char>, ContextValueView)>::empty());
    while i < n
        invariant
            i <= n == defaults.len(),
            d == entry_views(defaults@),
            keys == crate::console::addons::views(existing_keys@),
            entry_views(out@) == absent_entries(d.take(i as int), keys),
        decreases n - i,
    {
        let key = defaults[i].0.as_str();
        assert(d.take(i + 1).drop_last() =~= d.take(i as int));
        if !has_key(existing_keys, key) && !has_entry_key(&out, key) {
            let value = defaults[i].1.duplicate();
            push_value(&mut out, key, value);
        }
        i = i + 1;
    }
    assert(d.take(n as int) =~= d);
    out
}

/// After the missing entries are added, the page context holds every default
/// key: each is either among the existing keys or added, and no existing key
/// is added again.
pub proof fn lemma_context_complete(d: Seq<(Seq<char>, ContextValueView)>, keys: Seq<Seq<char>>)
    ensures
        forall|i: int|
            0 <= i < d.len() ==> keys.contains(#[trigger] d[i].0) || entry_keys(
                absent_entries(d, keys),
            ).contains(d[i].0),
        forall|k: Seq<char>|
            entry_keys(absent_entries(d, keys)).contains(k) ==> !keys.contains(k),
    decreases d.len(),
{
    if d.len() > 0 {
        let p = d.drop_last();
        lemma_context_complete(p, keys);
        let rest = absent_entries(p, keys);
        let k = d.last().0;
        let r = absent_entries(d, keys);
        if !(keys.contains(k) || entry_keys(rest).contains(k)) {
            assert(entry_keys(r) =~= entry_keys(rest).push(k));
        }
        assert forall|i: int| 0 <= i < d.len() implies keys.contains(#[trigger] d[i].0)
            || entry_keys(r).contains(d[i].0) by {
            let added = !(keys.contains(k) || entry_keys(rest).contains(k));
            if i < p.len() {
                assert(p[i] == d[i]);
                assert(keys.contains(p[i].0) || entry_keys(rest).contains(p[i].0));
                if !keys.contains(d[i].0) {
                    let j = choose|j: int|
                        0 <= j < entry_keys(rest).len() && entry_keys(rest)[j] == d[i].0;
                    if added {
                        assert(entry_keys(r)[j] == d[i].0);
                    } else {
                        assert(r == rest);
                    }
                }
            } else {
                assert(d[i] == d.last());
                if added {
                    assert(entry_keys(r)[entry_keys(rest).len() as int] == k);
                } else if !keys.contains(k) {
                    assert(r == rest);
                }
            }
        }
        assert forall|kk: Seq<char>| entry_keys(r).contains(kk) implies !keys.contains(kk) by {
            if !(keys.contains(k) || entry_keys(rest).contains(k)) {
                let j = choose|j: int| 0 <= j < entry_keys(r).len() && entry_keys(r)[j] == kk;
                if j < entry_keys(rest).len() {
                    assert(entry_keys(rest)[j] == kk);
                }
            }
        }
    }
}

/// Whether the first entry of `d` with key `k` has the value `v`: what a
/// page that sets no `k` of its own is given for it.
pub open spec fn first_entry_is(d: Seq<(Seq<char>, ContextValueView)>, k: Seq<char>, v: ContextValueView) -> bool {
    exists|i: int| 0 <= i < d.len() && d[i] == (k, v) && forall|j: int| 0 <= j < i ==> (#[trigger] d[j]).0 != k
}

/// Each account link of a page points at the console URL of the page it is
/// named after: `logout_url` at `/logout`, `forgot_url` at `/forgot`,
/// `login_url` at `/login` and `register_url` at `/register`, all below the
/// base path, which `base_path` holds.
pub proof fn lemma_account_urls(
    base: Seq<char>,
    config: ConsoleConfig,
    locale: Seq<char>,
    site_version: Seq<char>,
    demo_mode: bool,
    has_app_state: bool,
)
    ensures
        first_entry_is(
            context_defaults_spec(base, config, locale, site_version, demo_mode, has_app_state),
            "base_path"@,
            ContextValueView::Text(base),
        ),
        first_entry_is(
            context_defaults_spec(base, config, locale, site_version, demo_mode, has_app_state),
            "logout_url"@,
            ContextValueView::Text(url_for_spec(base, "/logout"@)),
        ),
        first_entry_is(
            context_defaults_spec(base, config, locale, site_version, demo_mode, has_app_state),
            "forgot_url"@,
            ContextValueView::Text(url_for_spec(base, "/forgot"@)),
        ),
        first_entry_is(
            context_defaults_spec(base, config, locale, site_version, demo_mode, has_app_state),
            "login_url"@,
            ContextValueView::Text(url_for_spec(base, "/login"@)),
        ),
        first_entry_is(
            context_defaults_spec(base, config, locale, site_version, demo_mode, has_app_state),
            "register_url"@,
            ContextValueView::Text(url_for_spec(base, "/register"@)),
        ),
{
    reveal_strlit("base_path");
    reveal_strlit("addon_sidebar_items");
    reveal_strlit("logout_url");
    reveal_strlit("forgot_url");
    reveal_strlit("login_url");
    reveal_strlit("register_url");
    let d = context_defaults_spec(base, config, locale, site_version, demo_mode, has_app_state);
    let s: int = if has_app_state { 2 } else { 1 };
    let keys = seq!["base_path"@, "addon_sidebar_items"@, "logout_url"@, "forgot_url"@, "login_url"@, "register_url"@];
    assert(forall|a: int, b: int| 0 <= a < b < 6 ==> keys[a] != keys[b]) by {
        assert(keys[0][0] != keys[1][0] && keys[0][0] != keys[2][0] && keys[0][0] != keys[3][0]
            && keys[0][0] != keys[4][0] && keys[0][0] != keys[5][0]);
        assert(keys[1][0] != keys[2][0] && keys[1][0] != keys[3][0] && keys[1][0] != keys[4][0]
            && keys[1][0] != keys[5][0]);
        assert(keys[2][0] != keys[3][0] && keys[2][3] != keys[4][3] && keys[2][0] != keys[5][0]);
        assert(keys[3][0] != keys[4][0] && keys[3][0] != keys[5][0]);
        assert(keys[4][0] != keys[5][0]);
    }
    assert(d[0] == ("base_path"@, ContextValueView::Text(base)));
    if has_app_state {
        assert(d[1].0 == "addon_sidebar_items"@);
    }
    assert(d[s] == ("logout_url"@, ContextValueView::Text(url_for_spec(base, "/logout"@))));
    assert(d[s + 1] == ("forgot_url"@, ContextValueView::Text(url_for_spec(base, "/forgot"@))));
    assert(d[s + 2] == ("login_url"@, ContextValueView::Text(url_for_spec(base, "/login"@))));
    assert(d[s + 3] == ("register_url"@, ContextValueView::Text(url_for_spec(base, "/register"@))));
    assert(forall|j: int| 0 <= j < s + 4 ==> (#[trigger] d[j]).0 == keys[if j == 0 { 0 } else if j < s { 1 } else { j - s + 2 }]);
}

} // verus!
