//! Settings, their defaults, where they live, and the checks applied to
//! them once read.
use vstd::prelude::*;

use crate::text::{concat_str, opt_view, str_equals};

pub use crate::secret::{decrypt_api_key, encrypt_api_key, get_machine_key};

verus! {

/// The operating system the application runs on, as far as the settings
/// care: macOS binds its shortcuts to Command, the others to Control.
#[derive(Debug, Clone, Copy, PartialEq, Eq, Structural)]
pub enum Platform {
    MacOs,
    Windows,
    Linux,
}

/// The global shortcut: modifier names and the key they go with.
#[derive(Debug, Clone)]
pub struct HotkeyConfig {
    pub modifiers: Vec<String>,
    pub key: String,
}

/// The default modifier on `platform`.
pub open spec fn default_modifier(platform: Platform) -> Seq<char> {
    if platform == Platform::MacOs {
        "cmd"@
    } else {
        "ctrl"@
    }
}

impl HotkeyConfig {
    /// The shortcut used when none is configured: Command+R on macOS,
    /// Control+R elsewhere.
    pub fn default_for(platform: Platform) -> (res: HotkeyConfig)
        ensures
            res.modifiers@.len() == 1,
            res.modifiers@[0]@ == default_modifier(platform),
            res.key@ == "r"@,
    {
        let modifier = match platform {
            Platform::MacOs => "cmd".to_string(),
            _ => "ctrl".to_string(),
        };
        let mut modifiers = Vec::new();
        modifiers.push(modifier);
        HotkeyConfig { modifiers, key: "r".to_string() }
    }
}

/// The service that refines the text.
#[derive(Debug, Clone, Copy, PartialEq, Eq, Structural)]
pub enum Provider {
    OpenRouter,
    Google,
}

impl Default for Provider {
    /// OpenRouter, the provider of configurations written before the field existed.
    fn default() -> (res: Provider)
        ensures
            res == Provider::OpenRouter,
    {
        Provider::OpenRouter
    }
}

impl Provider {
    /// The variant's name, as debug output prints it.
    pub fn name(&self) -> (res: &'static str)
        ensures
            res@ == provider_name(*self),
    {
        match self {
            Provider::OpenRouter => "OpenRouter",
            Provider::Google => "Google",
        }
    }
}

/// The variant's name.
pub open spec fn provider_name(p: Provider) -> Seq<char> {
    match p {
        Provider::OpenRouter => "OpenRouter"@,
        Provider::Google => "Google"@,
    }
}

/// Everything the application is configured with.
#[derive(Debug, Clone)]
pub struct Settings {
    pub api_key_encrypted: String,
    pub api_key: Option<String>,
    pub model: String,
    pub instruction_file: String,
    pub hotkey: HotkeyConfig,
    pub proxy_url: Option<String>,
    pub api_base_url: Option<String>,
    pub first_run: bool,
    pub provider: Provider,
}

/// Why reading, writing or unlocking the configuration failed.
#[derive(Debug)]
pub enum ConfigError {
    IoError(String),
    ParseError(String),
    SerializeError(String),
    EncryptionError(String),
    DecryptionError(String),
    InvalidKeyFormat,
}

/// A configuration error as plain values.
pub enum ConfigErrorView {
    IoError(Seq<char>),
    ParseError(Seq<char>),
    SerializeError(Seq<char>),
    EncryptionError(Seq<char>),
    DecryptionError(Seq<char>),
    InvalidKeyFormat,
}

impl View for ConfigError {
    type V = ConfigErrorView;

    open spec fn view(&self) -> ConfigErrorView {
        match self {
            ConfigError::IoError(m) => ConfigErrorView::IoError(m@),
            ConfigError::ParseError(m) => ConfigErrorView::ParseError(m@),
            ConfigError::SerializeError(m) => ConfigErrorView::SerializeError(m@),
            ConfigError::EncryptionError(m) => ConfigErrorView::EncryptionError(m@),
            ConfigError::DecryptionError(m) => ConfigErrorView::DecryptionError(m@),
            ConfigError::InvalidKeyFormat => ConfigErrorView::InvalidKeyFormat,
        }
    }
}

/// The message a configuration error is shown with.
pub open spec fn config_error_text(e: ConfigErrorView) -> Seq<char> {
    match e {
        ConfigErrorView::IoError(m) => "IO error: "@ + m,
        ConfigErrorView::ParseError(m) => "Parse error: "@ + m,
        ConfigErrorView::SerializeError(m) => "Serialize error: "@ + m,
        ConfigErrorView::EncryptionError(m) => "Encryption error: "@ + m,
        ConfigErrorView::DecryptionError(m) => "Decryption error: "@ + m,
        ConfigErrorView::InvalidKeyFormat => "Invalid encrypted key format"@,
    }
}

impl ConfigError {
    /// The message this error is shown with.
    pub fn to_string(&self) -> (res: String)
        ensures
            res@ == config_error_text(self@),
    {
        match self {
            ConfigError::IoError(m) => concat_str("IO error: ", m.as_str()),
            ConfigError::ParseError(m) => concat_str("Parse error: ", m.as_str()),
            ConfigError::SerializeError(m) => concat_str("Serialize error: ", m.as_str()),
            ConfigError::EncryptionError(m) => concat_str("Encryption error: ", m.as_str()),
            ConfigError::DecryptionError(m) => concat_str("Decryption error: ", m.as_str()),
            ConfigError::InvalidKeyFormat => "Invalid encrypted key format".to_string(),
        }
    }
}


// ---------------------------------------------------------------------------
// Where the configuration lives
// ---------------------------------------------------------------------------

/// Whether `c` separates the parts of a path on `platform`: `/`, and on
/// Windows `\` as well.
pub open spec fn is_separator(platform: Platform, c: char) -> bool {
    c == '/' || (platform == Platform::Windows && c == '\\')
}

/// The separator put between the parts of a path on `platform`.
pub open spec fn main_separator(platform: Platform) -> char {
    if platform == Platform::Windows {
        '\\'
    } else {
        '/'
    }
}

/// Whether `comp` is a part that a Windows path buffer does not simply
/// append: one that starts at a root or carries a drive (`C:`).
pub open spec fn rooted_on_windows(comp: Seq<char>) -> bool {
    (comp.len() > 0 && is_separator(Platform::Windows, comp[0])) || (comp.len() >= 2 && comp[1]
        == ':')
}

/// `base` extended by the path `comp`, as a path buffer on `platform` joins
/// them: off Windows an absolute `comp` replaces `base`; otherwise the
/// platform's separator goes between the two unless `base` is empty,
/// already ends with a separator, or (on Windows) is a bare drive such as
/// `C:`.
pub open spec fn join_path(platform: Platform, base: Seq<char>, comp: Seq<char>) -> Seq<char> {
    if platform != Platform::Windows && comp.len() > 0 && comp[0] == '/' {
        comp
    } else if base.len() == 0 || is_separator(platform, base.last()) || (platform
        == Platform::Windows && base.len() == 2 && base[1] == ':') {
        base + comp
    } else {
        base + seq![main_separator(platform)] + comp
    }
}

/// `base` extended by the path `comp` on `platform`. On Windows `comp` is
/// a relative part without a drive, as every part this library joins is.
pub fn path_join(platform: Platform, base: &str, comp: &str) -> (res: String)
    requires
        platform == Platform::Windows ==> !rooted_on_windows(comp@),
    ensures
        res@ == join_path(platform, base@, comp@),
{
    let windows = match platform {
        Platform::Windows => true,
        _ => false,
    };
    let b = crate::text::chars_of(base);
    let c = crate::text::chars_of(comp);
    if !windows && c.len() > 0 && c[0] == '/' {
        return comp.to_string();
    }
    let ends_with_separator = b.len() > 0 && (b[b.len() - 1] == '/' || (windows && b[b.len() - 1]
        == '\\'));
    let bare_drive = windows && b.len() == 2 && b[1] == ':';
    if b.len() == 0 || ends_with_separator || bare_drive {
        concat_str(base, comp)
    } else {
        let mut res = base.to_string();
        if windows {
            res.push('\\');
        } else {
            res.push('/');
        }
        res.append(comp);
        res
    }
}

/// The user's home directory, when the platform reports one, as text.
#[verifier::external_body]
fn home_directory() -> (res: Option<String>) {
    match dirs::home_dir() {
        Some(path) => Some(path.to_string_lossy().into_owned()),
        None => None,
    }
}

/// The user's configuration directory as the platform reports it (on
/// Windows the roaming application data folder, `%APPDATA%`), as text.
#[verifier::external_body]
fn app_data_directory() -> (res: Option<String>) {
    match dirs::config_dir() {
        Some(path) => Some(path.to_string_lossy().into_owned()),
        None => None,
    }
}

/// The directory the configuration lives in on `platform`, given the home
/// directory and the application data folder: on Windows
/// `<app data>\ghostwriter`; elsewhere, and on Windows without an
/// application data folder, `<home>/.config/ghostwriter`, with `.` standing
/// for an unknown home.
pub open spec fn config_dir_in(platform: Platform, home: Option<Seq<char>>, app_data: Option<
    Seq<char>,
>) -> Seq<char> {
    match app_data {
        Some(a) if platform == Platform::Windows => join_path(platform, a, "ghostwriter"@),
        _ => {
            let base = match home {
                Some(h) => h,
                None => "."@,
            };
            join_path(platform, join_path(platform, base, ".config"@), "ghostwriter"@)
        },
    }
}

/// The parts this library joins are relative and carry no drive.
pub proof fn lemma_plain_parts()
    ensures
        !rooted_on_windows("ghostwriter"@),
        !rooted_on_windows(".config"@),
        !rooted_on_windows("config.json"@),
        !rooted_on_windows("instructions"@),
        !rooted_on_windows("default.md"@),
        !rooted_on_windows("ghostwriter.log"@),
        !rooted_on_windows("Library"@),
        !rooted_on_windows("Application Support"@),
{
    reveal_strlit("ghostwriter");
    reveal_strlit(".config");
    reveal_strlit("config.json");
    reveal_strlit("instructions");
    reveal_strlit("default.md");
    reveal_strlit("ghostwriter.log");
    reveal_strlit("Library");
    reveal_strlit("Application Support");
}

/// The directory the configuration lives in on `platform`, for given home
/// and application data directories.
pub fn config_dir_for(platform: Platform, home: Option<String>, app_data: Option<String>) -> (res:
    String)
    ensures
        res@ == config_dir_in(platform, opt_view(home), opt_view(app_data)),
{
    proof {
        lemma_plain_parts();
    }
    match (platform, app_data) {
        (Platform::Windows, Some(a)) => path_join(platform, a.as_str(), "ghostwriter"),
        _ => {
            let base = match home {
                Some(h) => h,
                None => ".".to_string(),
            };
            let dot_config = path_join(platform, base.as_str(), ".config");
            path_join(platform, dot_config.as_str(), "ghostwriter")
        },
    }
}

/// The directory the configuration lives in on `platform`: `ghostwriter`
/// in the application data folder on Windows, `.config/ghostwriter` under
/// the user's home directory elsewhere.
pub fn config_dir(platform: Platform) -> (res: String)
    ensures
        exists|home: Option<Seq<char>>, app_data: Option<Seq<char>>|
            res@ == config_dir_in(platform, home, app_data),
{
    let home = home_directory();
    let app_data = match platform {
        Platform::Windows => app_data_directory(),
        _ => None,
    };
    let ghost h = opt_view(home);
    let ghost a = opt_view(app_data);
    let res = config_dir_for(platform, home, app_data);
    assert(res@ == config_dir_in(platform, h, a));
    res
}

/// The settings file inside the configuration directory `dir`.
pub open spec fn config_path_in(platform: Platform, dir: Seq<char>) -> Seq<char> {
    join_path(platform, dir, "config.json"@)
}

/// A join with a part that is not absolute ends with that part, so it is
/// at least as long and ends with the part's last character.
pub proof fn lemma_join_ends_with_part(platform: Platform, base: Seq<char>, comp: Seq<char>)
    requires
        comp.len() > 0,
        comp[0] != '/',
    ensures
        join_path(platform, base, comp).len() >= comp.len(),
        join_path(platform, base, comp).last() == comp.last(),
{
}

/// `dir` followed by the platform's separator and `comp`: what joining
/// gives for a directory that ends in a plain name.
pub open spec fn under(platform: Platform, dir: Seq<char>, comp: Seq<char>) -> Seq<char> {
    dir + seq![main_separator(platform)] + comp
}

/// The configuration directory is a path ending in `ghostwriter`, at
/// least as long as that name.
pub proof fn lemma_config_dir_shape(platform: Platform, home: Option<Seq<char>>, app_data: Option<Seq<char>>)
    ensures
        config_dir_in(platform, home, app_data).len() >= 11,
        config_dir_in(platform, home, app_data).last() == 'r',
        legacy_config_dir_in(platform, home, app_data).len() >= 11,
        legacy_config_dir_in(platform, home, app_data).last() == 'r',
{
    reveal_strlit("ghostwriter");
    reveal_strlit(".config");
    reveal_strlit("Library");
    reveal_strlit("Application Support");
    let base = match home {
        Some(h) => h,
        None => "."@,
    };
    lemma_join_ends_with_part(platform, base, ".config"@);
    lemma_join_ends_with_part(platform, join_path(platform, base, ".config"@), "ghostwriter"@);
    lemma_join_ends_with_part(platform, join_path(platform, join_path(platform, base, "Library"@), "Application Support"@), "ghostwriter"@);
    match app_data {
        Some(a) => lemma_join_ends_with_part(platform, a, "ghostwriter"@),
        None => {},
    }
}

/// The settings file, the default instruction file and their earlier
/// counterparts lie inside the configuration directory: the directory,
/// the platform's separator, then `config.json` (or `instructions`, the
/// separator and `default.md`).
pub proof fn law_files_in_config_dir(platform: Platform, home: Option<Seq<char>>, app_data: Option<Seq<char>>)
    ensures
        config_path_in(platform, config_dir_in(platform, home, app_data)) == under(
            platform,
            config_dir_in(platform, home, app_data),
            "config.json"@,
        ),
        config_path_in(platform, legacy_config_dir_in(platform, home, app_data)) == under(
            platform,
            legacy_config_dir_in(platform, home, app_data),
            "config.json"@,
        ),
        default_instruction_path_in(platform, config_dir_in(platform, home, app_data)) == under(
            platform,
            under(platform, config_dir_in(platform, home, app_data), "instructions"@),
            "default.md"@,
        ),
{
    reveal_strlit("config.json");
    reveal_strlit("instructions");
    reveal_strlit("default.md");
    lemma_config_dir_shape(platform, home, app_data);
    let dir = config_dir_in(platform, home, app_data);
    let inst = join_path(platform, dir, "instructions"@);
    assert(inst == under(platform, dir, "instructions"@));
    assert(inst.last() == 's');
}

/// With a known home directory that does not end in a separator, the
/// configuration directory off Windows (and on Windows without an
/// application data folder) is `<home>/.config/ghostwriter` with the
/// platform's separator; on Windows with an application data folder that
/// does not end in a separator or name a bare drive, it is
/// `<app data>\ghostwriter`.
pub proof fn law_config_dir_location(platform: Platform, home: Seq<char>, app_data: Option<Seq<char>>)
    requires
        home.len() > 0,
        !is_separator(platform, home.last()),
        !(platform == Platform::Windows && home.len() == 2 && home[1] == ':'),
        app_data matches Some(a) ==> a.len() > 0 && !is_separator(platform, a.last()) && !(a.len()
            == 2 && a[1] == ':'),
    ensures
        platform == Platform::Windows && app_data is Some ==> config_dir_in(
            platform,
            Some(home),
            app_data,
        ) == under(platform, app_data->0, "ghostwriter"@),
        !(platform == Platform::Windows && app_data is Some) ==> config_dir_in(
            platform,
            Some(home),
            app_data,
        ) == under(platform, under(platform, home, ".config"@), "ghostwriter"@),
{
    reveal_strlit("ghostwriter");
    reveal_strlit(".config");
    let d = under(platform, home, ".config"@);
    assert(d.last() == 'g');
}

/// The settings file: `config.json` in the configuration directory.
pub fn config_path(platform: Platform) -> (res: String)
    ensures
        exists|home: Option<Seq<char>>, app_data: Option<Seq<char>>|
            res@ == config_path_in(platform, config_dir_in(platform, home, app_data)),
{
    proof {
        lemma_plain_parts();
    }
    let dir = config_dir(platform);
    path_join(platform, dir.as_str(), "config.json")
}

/// The configuration directory of earlier releases, given the home and
/// application data directories: on macOS
/// `<home>/Library/Application Support/ghostwriter`, elsewhere the same as
/// the current one.
pub open spec fn legacy_config_dir_in(platform: Platform, home: Option<Seq<char>>, app_data: Option<
    Seq<char>,
>) -> Seq<char> {
    if platform == Platform::MacOs {
        let base = match home {
            Some(h) => h,
            None => "."@,
        };
        join_path(
            platform,
            join_path(platform, join_path(platform, base, "Library"@), "Application Support"@),
            "ghostwriter"@,
        )
    } else {
        config_dir_in(platform, home, app_data)
    }
}

/// The configuration directory of earlier releases, for given home and
/// application data directories.
pub fn legacy_config_dir_for(platform: Platform, home: Option<String>, app_data: Option<String>) -> (res:
    String)
    ensures
        res@ == legacy_config_dir_in(platform, opt_view(home), opt_view(app_data)),
{
    proof {
        lemma_plain_parts();
    }
    match platform {
        Platform::MacOs => {
            let base = match home {
                Some(h) => h,
                None => ".".to_string(),
            };
            let library = path_join(platform, base.as_str(), "Library");
            let support = path_join(platform, library.as_str(), "Application Support");
            path_join(platform, support.as_str(), "ghostwriter")
        },
        _ => config_dir_for(platform, home, app_data),
    }
}

/// The configuration directory of earlier releases.
pub fn legacy_config_dir(platform: Platform) -> (res: String)
    ensures
        exists|home: Option<Seq<char>>, app_data: Option<Seq<char>>|
            res@ == legacy_config_dir_in(platform, home, app_data),
{
    let home = home_directory();
    let app_data = match platform {
        Platform::Windows => app_data_directory(),
        _ => None,
    };
    let ghost h = opt_view(home);
    let ghost a = opt_view(app_data);
    let res = legacy_config_dir_for(platform, home, app_data);
    assert(res@ == legacy_config_dir_in(platform, h, a));
    res
}

/// The settings file of earlier releases.
pub fn legacy_config_path(platform: Platform) -> (res: String)
    ensures
        exists|home: Option<Seq<char>>, app_data: Option<Seq<char>>|
            res@ == config_path_in(platform, legacy_config_dir_in(platform, home, app_data)),
{
    proof {
        lemma_plain_parts();
    }
    let dir = legacy_config_dir(platform);
    path_join(platform, dir.as_str(), "config.json")
}

/// The instruction file used when none is configured, inside the
/// configuration directory `dir`.
pub open spec fn default_instruction_path_in(platform: Platform, dir: Seq<char>) -> Seq<char> {
    join_path(platform, join_path(platform, dir, "instructions"@), "default.md"@)
}

/// The instruction file used when none is configured:
/// `instructions/default.md` in the configuration directory.
pub fn default_instruction_path(platform: Platform) -> (res: String)
    ensures
        exists|home: Option<Seq<char>>, app_data: Option<Seq<char>>|
            res@ == default_instruction_path_in(platform, config_dir_in(platform, home, app_data)),
{
    proof {
        lemma_plain_parts();
    }
    let dir = config_dir(platform);
    let instructions = path_join(platform, dir.as_str(), "instructions");
    path_join(platform, instructions.as_str(), "default.md")
}

// ---------------------------------------------------------------------------
// Defaults
// ---------------------------------------------------------------------------

impl Settings {
    /// The settings of a first run on `platform`: no key yet, the
    /// `openai/gpt-4o-mini` model, the default instruction file and
    /// shortcut, no proxy, the provider's own endpoint, OpenRouter.
    pub fn default_for(platform: Platform) -> (res: Settings)
        ensures
            res.api_key_encrypted@ == Seq::<char>::empty(),
            res.api_key is None,
            res.model@ == "openai/gpt-4o-mini"@,
            exists|home: Option<Seq<char>>, app_data: Option<Seq<char>>|
                res.instruction_file@ == default_instruction_path_in(
                    platform,
                    config_dir_in(platform, home, app_data),
                ),
            res.hotkey.modifiers@.len() == 1,
            res.hotkey.modifiers@[0]@ == default_modifier(platform),
            res.hotkey.key@ == "r"@,
            res.proxy_url is None,
            res.api_base_url is None,
            res.first_run,
            res.provider == Provider::OpenRouter,
    {
        Settings {
            api_key_encrypted: String::new(),
            api_key: None,
            model: "openai/gpt-4o-mini".to_string(),
            instruction_file: default_instruction_path(platform),
            hotkey: HotkeyConfig::default_for(platform),
            proxy_url: None,
            api_base_url: None,
            first_run: true,
            provider: Provider::default(),
        }
    }
}

// ---------------------------------------------------------------------------
// Checking the endpoint and proxy addresses
// ---------------------------------------------------------------------------

/// The scheme of `text` read as a URL, or `None` where it is no URL.
pub uninterp spec fn parsed_url_scheme(text: Seq<char>) -> Option<Seq<char>>;

/// Parses `text` with `url::Url::parse` and returns the scheme of the
/// result (`Url::scheme`); `None` where parsing fails. The contract claims
/// only that this depends on the text alone.
#[verifier::external_body]
fn url_scheme(text: &str) -> (res: Option<String>)
    ensures
        match res {
            Some(s) => parsed_url_scheme(text@) == Some(s@),
            None => parsed_url_scheme(text@) is None,
        },
{
    match url::Url::parse(text) {
        Ok(parsed) => Some(parsed.scheme().to_string()),
        Err(_) => None,
    }
}

/// A scheme the chat endpoint may use: `http` or `https`.
pub open spec fn endpoint_scheme_ok(scheme: Seq<char>) -> bool {
    scheme == "http"@ || scheme == "https"@
}

/// A scheme the proxy may use: `http`, `https` or `socks5`.
pub open spec fn proxy_scheme_ok(scheme: Seq<char>) -> bool {
    scheme == "http"@ || scheme == "https"@ || scheme == "socks5"@
}

/// The address kept after the check: `url` where it parses with an
/// accepted scheme, else nothing.
pub open spec fn checked_url(url: Option<String>, proxy: bool) -> Option<String> {
    match url {
        Some(u) => match parsed_url_scheme(u@) {
            Some(s) => if (if proxy { proxy_scheme_ok(s) } else { endpoint_scheme_ok(s) }) {
                url
            } else {
                None
            },
            None => None,
        },
        None => None,
    }
}

/// The address kept, given the scheme its parse gave: `url` where the
/// scheme is accepted (`http`/`https`, and `socks5` too for a proxy), else
/// nothing.
pub fn keep_url_with_scheme(url: Option<String>, scheme: Option<String>, proxy: bool) -> (res:
    Option<String>)
    ensures
        res == (match scheme {
            Some(s) => if (if proxy { proxy_scheme_ok(s@) } else { endpoint_scheme_ok(s@) }) {
                url
            } else {
                None
            },
            None => None,
        }),
{
    match scheme {
        Some(s) => {
            let ok = str_equals(s.as_str(), "http") || str_equals(s.as_str(), "https") || (proxy
                && str_equals(s.as_str(), "socks5"));
            if ok {
                url
            } else {
                None
            }
        },
        None => None,
    }
}

/// The address kept after the check.
pub fn check_url(url: Option<String>, proxy: bool) -> (res: Option<String>)
    ensures
        res == checked_url(url, proxy),
{
    match url {
        Some(u) => {
            let scheme = url_scheme(u.as_str());
            keep_url_with_scheme(Some(u), scheme, proxy)
        },
        None => None,
    }
}

/// Drops an endpoint address that is no `http`/`https` URL and a proxy
/// address that is no `http`/`https`/`socks5` URL; nothing else changes.
pub fn validate_settings_urls(settings: &mut Settings)
    ensures
        final(settings).api_base_url == checked_url(old(settings).api_base_url, false),
        final(settings).proxy_url == checked_url(old(settings).proxy_url, true),
        final(settings).api_key_encrypted == old(settings).api_key_encrypted,
        final(settings).api_key == old(settings).api_key,
        final(settings).model == old(settings).model,
        final(settings).instruction_file == old(settings).instruction_file,
        final(settings).hotkey == old(settings).hotkey,
        final(settings).first_run == old(settings).first_run,
        final(settings).provider == old(settings).provider,
{
    let base = settings.api_base_url.take();
    settings.api_base_url = check_url(base, false);
    let proxy = settings.proxy_url.take();
    settings.proxy_url = check_url(proxy, true);
}

/// The settings as loaded: a parse failure becomes a parse error, and
/// parsed settings have their addresses checked.
pub fn finish_loaded_settings(parsed: Result<Settings, String>) -> (res: Result<Settings, ConfigError>)
    ensures
        match parsed {
            Err(m) => res matches Err(ConfigError::ParseError(e)) && e@ == m@,
            Ok(s) => res matches Ok(t) && t.api_base_url == checked_url(s.api_base_url, false)
                && t.proxy_url == checked_url(s.proxy_url, true) && t.api_key_encrypted
                == s.api_key_encrypted && t.api_key == s.api_key && t.model == s.model
                && t.instruction_file == s.instruction_file && t.hotkey == s.hotkey
                && t.first_run == s.first_run && t.provider == s.provider,
        },
{
    match parsed {
        Err(m) => Err(ConfigError::ParseError(m)),
        Ok(s) => {
            let mut t = s;
            validate_settings_urls(&mut t);
            Ok(t)
        },
    }
}


/// Checking an address twice is checking it once: settings that were
/// loaded and saved again keep the addresses the first load kept.
pub proof fn law_check_url_idempotent(url: Option<String>, proxy: bool)
    ensures
        checked_url(checked_url(url, proxy), proxy) == checked_url(url, proxy),
{
}

/// Off macOS the earlier configuration directory is the current one, so
/// there is nothing to move.
pub proof fn law_legacy_dir_off_macos(platform: Platform, home: Option<Seq<char>>, app_data: Option<
    Seq<char>,
>)
    requires
        platform != Platform::MacOs,
    ensures
        legacy_config_dir_in(platform, home, app_data) == config_dir_in(platform, home, app_data),
{
}

// ---------------------------------------------------------------------------
// Printing settings
// ---------------------------------------------------------------------------

/// The quoted, escaped form in which debug output prints the path `s`.
pub uninterp spec fn debug_quoted(s: Seq<char>) -> Seq<char>;

/// Formats the path `s` with `{:?}`, the standard library's debug form of
/// a path: quoted, with special characters escaped. The contract claims
/// only that this depends on the text alone.
#[verifier::external_body]
fn quoted(s: &str) -> (res: String)
    ensures
        res@ == debug_quoted(s@),
{
    format!("{:?}", std::path::Path::new(s))
}

/// How settings are printed: provider, model, instruction file and
/// endpoint, and whether a raw key is present, never a key itself.
pub open spec fn settings_text(s: Settings) -> Seq<char> {
    "Settings(provider: "@ + provider_name(s.provider) + ", model: "@ + s.model@
        + ", instruction: "@ + debug_quoted(s.instruction_file@) + ", api_base_url: "@
        + match s.api_base_url {
        Some(u) => u@,
        None => "default"@,
    } + ", has_raw_key: "@ + if s.api_key is Some {
        "true"@
    } else {
        "false"@
    } + ")"@
}

/// Printing settings never reveals a key: settings that differ only in the
/// stored key and in the raw key's text (not in whether there is one) print
/// the same.
pub proof fn law_text_hides_keys(a: Settings, b: Settings)
    requires
        a.provider == b.provider,
        a.model == b.model,
        a.instruction_file == b.instruction_file,
        a.api_base_url == b.api_base_url,
        a.api_key is Some <==> b.api_key is Some,
    ensures
        settings_text(a) == settings_text(b),
{
}

impl Settings {
    /// The printed form of the settings, which leaves the keys out.
    pub fn to_string(&self) -> (res: String)
        ensures
            res@ == settings_text(*self),
    {
        let mut out = "Settings(provider: ".to_string();
        out.append(self.provider.name());
        out.append(", model: ");
        out.append(self.model.as_str());
        out.append(", instruction: ");
        let q = quoted(self.instruction_file.as_str());
        out.append(q.as_str());
        out.append(", api_base_url: ");
        match &self.api_base_url {
            Some(u) => out.append(u.as_str()),
            None => out.append("default"),
        }
        out.append(", has_raw_key: ");
        if self.api_key.is_some() {
            out.append("true");
        } else {
            out.append("false");
        }
        out.append(")");
        out
    }
}

} // verus!
