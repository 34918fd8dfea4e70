//! The command that runs the daemon: which config it takes, and which chat
//! backend.

use super::console;
use super::targets::{NO_CHAT, NO_TOKEN};
use crate::lists;
use crate::matrix::daemon::MatrixDaemon;
use crate::rocketchat::daemon::RocketChatDaemon;
use crate::text;
use vstd::prelude::*;

verus! {

// ── Config ──────────────────────────────────────────────────────────────

/// The kind of a config source on the command line.
#[derive(Debug, Clone, Copy, PartialEq, Eq, Structural)]
pub enum SourceKind {
    /// A file.
    File,
    /// Any other source of a whole config.
    Other,
    /// A single setting that overrides the config.
    Override,
}

/// How the daemon gets its config.
#[derive(Debug, Clone, Copy, PartialEq, Eq, Structural)]
pub struct ConfigPlan {
    /// The config file on the command line, as its place among the sources: it
    /// must exist.
    pub file: Option<usize>,
    /// Whether the file is used as it is. Otherwise the sources are resolved into
    /// a temporary config.
    pub direct: bool,
    /// Whether the default config file must exist.
    pub needs_default: bool,
    /// Whether sources are ignored since there are several.
    pub ignores_sources: bool,
    /// Whether settings or hats are resolved into the config.
    pub resolves: bool,
    /// Whether sources on the command line are resolved into the config.
    pub warns_resolved: bool,
}

/// The place of the first source of a whole config from a place on, or the number
/// of sources where there is none.
pub open spec fn first_primary(sources: Seq<SourceKind>, from: int) -> int
    decreases sources.len() - from,
{
    if 0 <= from < sources.len() && sources[from] == SourceKind::Override {
        first_primary(sources, from + 1)
    } else {
        from
    }
}

/// Whether a source is not a single setting.
pub open spec fn is_primary() -> spec_fn(SourceKind) -> bool {
    |s: SourceKind| s != SourceKind::Override
}

/// The number of sources of a whole config.
pub open spec fn primary_count(sources: Seq<SourceKind>) -> nat {
    sources.filter(is_primary()).len()
}

/// How the daemon gets its config.
pub open spec fn config_plan(sources: Seq<SourceKind>, has_hats: bool) -> ConfigPlan {
    let first = first_primary(sources, 0);
    let overrides = sources.contains(SourceKind::Override);
    let file = first < sources.len() && sources[first] == SourceKind::File;
    ConfigPlan {
        file: if file {
            Some(first as usize)
        } else {
            None
        },
        direct: file && !overrides && !has_hats,
        needs_default: primary_count(sources) == 0 && !overrides,
        ignores_sources: primary_count(sources) > 1,
        resolves: overrides || has_hats,
        warns_resolved: primary_count(sources) > 0 && !(file && !overrides && !has_hats),
    }
}

/// Decides how the daemon gets its config.
pub fn plan_config(sources: &Vec<SourceKind>, has_hats: bool) -> (r: ConfigPlan)
    ensures
        r == config_plan(sources@, has_hats),
{
    let mut first: usize = 0;
    while first < sources.len() && sources[first] == SourceKind::Override
        invariant
            first <= sources@.len(),
            first_primary(sources@, first as int) == first_primary(sources@, 0),
        decreases sources@.len() - first,
    {
        first = first + 1;
    }
    let mut count: usize = 0;
    let mut overrides: bool = false;
    let mut i: usize = 0;
    assert(sources@.take(0).filter(is_primary()) == Seq::<SourceKind>::empty()) by {
        reveal(Seq::filter);
    }
    while i < sources.len()
        invariant
            i <= sources@.len(),
            count <= i,
            count == primary_count(sources@.take(i as int)),
            overrides == sources@.take(i as int).contains(SourceKind::Override),
        decreases sources@.len() - i,
    {
        proof {
            lists::filter_step(sources@, is_primary(), i as int);
            assert(sources@.take(i + 1) == sources@.take(i as int).push(sources@[i as int]));
            assert(forall|k: int|
                0 <= k < i ==> sources@.take(i + 1)[k] == #[trigger] sources@.take(i as int)[k]);
            assert(sources@.take(i + 1)[i as int] == sources@[i as int]);
            assert(sources@.take(i + 1).contains(SourceKind::Override) == (sources@.take(
                i as int,
            ).contains(SourceKind::Override) || sources@[i as int] == SourceKind::Override)) by {
                vstd::seq_lib::lemma_seq_contains_after_push(
                    sources@.take(i as int),
                    sources@[i as int],
                    SourceKind::Override,
                );
            }
        }
        if sources[i] == SourceKind::Override {
            overrides = true;
        } else {
            count = count + 1;
        }
        i = i + 1;
    }
    assert(sources@.take(i as int) == sources@);
    let file: bool = first < sources.len() && sources[first] == SourceKind::File;
    let direct: bool = file && !overrides && !has_hats;
    ConfigPlan {
        file: if file {
            Some(first)
        } else {
            None
        },
        direct,
        needs_default: count == 0 && !overrides,
        ignores_sources: count > 1,
        resolves: overrides || has_hats,
        warns_resolved: count > 0 && !direct,
    }
}

/// The error of a config file that does not exist.
pub fn file_not_found(path: &str) -> (r: String)
    ensures
        r@ == "Config file not found: "@ + path@,
{
    text::cat2("Config file not found: ", path)
}

/// The name of a temporary config file, by process and time.
pub fn temp_config_name(process: u32, nanos: u128) -> (r: String)
    ensures
        r@ == "daemon-config-"@ + text::decimal(process as nat) + "-"@ + text::decimal(
            nanos as nat,
        ) + ".yml"@,
{
    text::cat5(
        "daemon-config-",
        &text::number(process as u64),
        "-",
        &text::wide_number(nanos),
        ".yml",
    )
}

// ── Backend ─────────────────────────────────────────────────────────────

/// The Rocket.Chat section of a config.
#[derive(Debug)]
pub struct RocketChatSection {
    /// The bot's user ID.
    pub bot_user_id: Option<String>,
    /// The room.
    pub room_id: Option<String>,
}

/// The Matrix section of a config.
#[derive(Debug)]
pub struct MatrixSection {
    /// The room.
    pub room_id: Option<String>,
}

/// What is configured for the daemon, with what is resolved from the environment
/// and the keychain.
#[derive(Debug)]
pub struct DaemonSettings {
    /// The Rocket.Chat section.
    pub rocketchat: Option<RocketChatSection>,
    /// The Rocket.Chat auth token.
    pub auth_token: Option<String>,
    /// The Rocket.Chat server.
    pub server_url: Option<String>,
    /// The Matrix section.
    pub matrix: Option<MatrixSection>,
    /// The Matrix access token.
    pub access_token: Option<String>,
    /// The Matrix homeserver.
    pub homeserver_url: Option<String>,
    /// The operator.
    pub operator_id: Option<String>,
    /// The Telegram bot token.
    pub bot_token: Option<String>,
    /// The Telegram chat.
    pub chat_id: Option<i64>,
    /// The Telegram API URL in the environment.
    pub env_api_url: Option<String>,
    /// The Telegram API URL in the config file.
    pub config_api_url: Option<String>,
}

/// The daemon for a chat backend.
#[derive(Debug)]
pub enum Adapter {
    /// Rocket.Chat.
    RocketChat(RocketChatDaemon),
    /// Matrix.
    Matrix(MatrixDaemon),
    /// Telegram.
    Telegram {
        /// The bot token.
        token: String,
        /// The API URL, where it is not the usual one.
        api_url: Option<String>,
        /// The chat.
        chat_id: i64,
    },
}

/// The error of a Rocket.Chat daemon without an auth token.
pub const NO_ROCKETCHAT_TOKEN: &'static str =
    "No Rocket.Chat auth token available. Set RALPH_ROCKETCHAT_AUTH_TOKEN env var or set RObot.rocketchat.auth_token in config";

/// The error of a Rocket.Chat daemon without a server.
pub const NO_ROCKETCHAT_SERVER: &'static str =
    "No Rocket.Chat server URL available. Set RALPH_ROCKETCHAT_SERVER_URL env var or set RObot.rocketchat.server_url in config";

/// The error of a Matrix daemon without an access token.
pub const NO_MATRIX_TOKEN: &'static str =
    "No Matrix access token available. Set RALPH_MATRIX_ACCESS_TOKEN env var or set RObot.matrix.access_token in config";

/// The error of a Matrix daemon without a homeserver.
pub const NO_MATRIX_SERVER: &'static str =
    "No Matrix homeserver URL available. Set RALPH_MATRIX_HOMESERVER_URL env var or set RObot.matrix.homeserver_url in config";

/// What is missing first for the daemon.
pub open spec fn daemon_lack(settings: DaemonSettings) -> Option<Seq<char>> {
    match settings.rocketchat {
        Some(section) => if settings.auth_token is None {
            Some(NO_ROCKETCHAT_TOKEN@)
        } else if settings.server_url is None {
            Some(NO_ROCKETCHAT_SERVER@)
        } else if section.bot_user_id is None {
            Some("RObot.rocketchat.bot_user_id is required"@)
        } else if section.room_id is None {
            Some("RObot.rocketchat.room_id is required"@)
        } else {
            None
        },
        None => match settings.matrix {
            Some(section) => if settings.access_token is None {
                Some(NO_MATRIX_TOKEN@)
            } else if settings.homeserver_url is None {
                Some(NO_MATRIX_SERVER@)
            } else if section.room_id is None {
                Some("RObot.matrix.room_id is required"@)
            } else {
                None
            },
            None => if settings.bot_token is None {
                Some(NO_TOKEN@)
            } else if settings.chat_id is None {
                Some(NO_CHAT@)
            } else {
                None
            },
        },
    }
}

/// The daemon for the settings where nothing is missing: for Rocket.Chat if it
/// has a section, else for Matrix if it has one, else for Telegram.
pub open spec fn daemon_adapter(settings: DaemonSettings) -> Adapter {
    match settings.rocketchat {
        Some(section) => Adapter::RocketChat(
            RocketChatDaemon {
                server_url: settings.server_url->0,
                auth_token: settings.auth_token->0,
                bot_user_id: section.bot_user_id->0,
                room_id: section.room_id->0,
                operator_id: settings.operator_id,
            },
        ),
        None => match settings.matrix {
            Some(section) => Adapter::Matrix(
                MatrixDaemon {
                    homeserver_url: settings.homeserver_url->0,
                    access_token: settings.access_token->0,
                    room_id: section.room_id->0,
                    operator_id: settings.operator_id,
                },
            ),
            None => Adapter::Telegram {
                token: settings.bot_token->0,
                api_url: if settings.env_api_url is Some {
                    settings.env_api_url
                } else {
                    settings.config_api_url
                },
                chat_id: settings.chat_id->0,
            },
        },
    }
}

/// The name of a daemon's backend.
pub open spec fn adapter_name(adapter: Adapter) -> Seq<char> {
    match adapter {
        Adapter::RocketChat(_) => "Rocket.Chat"@,
        Adapter::Matrix(_) => "Matrix"@,
        Adapter::Telegram { .. } => "Telegram"@,
    }
}

/// Builds the daemon for the configured backend, and what to print; the error
/// says what is missing first.
pub fn build_adapter(settings: DaemonSettings, use_colors: bool) -> (r: Result<
    (Adapter, String),
    String,
>)
    ensures
        match r {
            Ok(built) => daemon_lack(settings) is None && built.0 == daemon_adapter(settings)
                && built.1@ == console::daemon_headline(use_colors, adapter_name(built.0)),
            Err(words) => daemon_lack(settings) == Some(words@),
        },
{
    match settings.rocketchat {
        Some(section) => {
            let auth_token: String = match settings.auth_token {
                Some(token) => token,
                None => {
                    return Err(String::from_str(NO_ROCKETCHAT_TOKEN));
                },
            };
            let server_url: String = match settings.server_url {
                Some(url) => url,
                None => {
                    return Err(String::from_str(NO_ROCKETCHAT_SERVER));
                },
            };
            let bot_user_id: String = match section.bot_user_id {
                Some(id) => id,
                None => {
                    return Err(String::from_str("RObot.rocketchat.bot_user_id is required"));
                },
            };
            let room_id: String = match section.room_id {
                Some(id) => id,
                None => {
                    return Err(String::from_str("RObot.rocketchat.room_id is required"));
                },
            };
            Ok(
                (
                    Adapter::RocketChat(
                        RocketChatDaemon::new(
                            server_url,
                            auth_token,
                            bot_user_id,
                            room_id,
                            settings.operator_id,
                        ),
                    ),
                    console::daemon_headline_text(use_colors, "Rocket.Chat"),
                ),
            )
        },
        None => match settings.matrix {
            Some(section) => {
                let access_token: String = match settings.access_token {
                    Some(token) => token,
                    None => {
                        return Err(String::from_str(NO_MATRIX_TOKEN));
                    },
                };
                let homeserver_url: String = match settings.homeserver_url {
                    Some(url) => url,
                    None => {
                        return Err(String::from_str(NO_MATRIX_SERVER));
                    },
                };
                let room_id: String = match section.room_id {
                    Some(id) => id,
                    None => {
                        return Err(String::from_str("RObot.matrix.room_id is required"));
                    },
                };
                Ok(
                    (
                        Adapter::Matrix(
                            MatrixDaemon::new(
                                homeserver_url,
                                access_token,
                                room_id,
                                settings.operator_id,
                            ),
                        ),
                        console::daemon_headline_text(use_colors, "Matrix"),
                    ),
                )
            },
            None => {
                let token: String = match settings.bot_token {
                    Some(token) => token,
                    None => {
                        return Err(String::from_str(NO_TOKEN));
                    },
                };
                let chat_id: i64 = match settings.chat_id {
                    Some(id) => id,
                    None => {
                        return Err(String::from_str(NO_CHAT));
                    },
                };
                let api_url: Option<String> = match settings.env_api_url {
                    Some(url) => Some(url),
                    None => settings.config_api_url,
                };
                Ok(
                    (
                        Adapter::Telegram { token, api_url, chat_id },
                        console::daemon_headline_text(use_colors, "Telegram"),
                    ),
                )
            },
        },
    }
}

// ── Laws ────────────────────────────────────────────────────────────────

proof fn first_primary_is_found(settings: Seq<SourceKind>, rest: Seq<SourceKind>, from: int)
    requires
        0 <= from <= settings.len(),
        forall|i: int| 0 <= i < settings.len() ==> #[trigger] settings[i] == SourceKind::Override,
        rest.len() > 0 ==> rest[0] != SourceKind::Override,
    ensures
        first_primary(settings + rest, from) == settings.len(),
    decreases settings.len() - from,
{
    let all = settings + rest;
    if from < settings.len() {
        assert(all[from] == settings[from]);
        first_primary_is_found(settings, rest, from + 1);
    } else if rest.len() > 0 {
        assert(all[from] == rest[0]);
    }
}

proof fn counted_in_parts(a: Seq<SourceKind>, b: Seq<SourceKind>)
    ensures
        primary_count(a + b) == primary_count(a) + primary_count(b),
    decreases b.len(),
{
    reveal(Seq::filter);
    if b.len() == 0 {
        assert(a + b =~= a);
        assert(b.filter(is_primary()) =~= Seq::empty());
    } else {
        counted_in_parts(a, b.drop_last());
        assert((a + b).drop_last() =~= a + b.drop_last());
        assert((a + b).last() == b.last());
    }
}

proof fn settings_are_not_counted(settings: Seq<SourceKind>)
    requires
        forall|i: int| 0 <= i < settings.len() ==> #[trigger] settings[i] == SourceKind::Override,
    ensures
        primary_count(settings) == 0,
    decreases settings.len(),
{
    reveal(Seq::filter);
    if settings.len() > 0 {
        let less = settings.drop_last();
        assert(settings.last() == settings[settings.len() - 1]);
        assert forall|i: int| 0 <= i < less.len() implies #[trigger] less[i]
            == SourceKind::Override by {
            assert(less[i] == settings[i]);
        }
        settings_are_not_counted(less);
    }
}

proof fn counted_once_found(sources: Seq<SourceKind>, i: int)
    requires
        0 <= i < sources.len(),
        sources[i] != SourceKind::Override,
    ensures
        primary_count(sources) >= 1,
    decreases sources.len(),
{
    reveal(Seq::filter);
    if i < sources.len() - 1 {
        counted_once_found(sources.drop_last(), i);
    }
}

/// Where settings come before the first whole config: that config is taken as a file,
/// from its place, exactly if it is a file, and as it is exactly if there are no hats and
/// no settings anywhere. Settings and hats are resolved. Sources are ignored exactly if
/// another whole config comes behind the first, and what is resolved is told exactly if
/// the first is not taken as it is.
pub proof fn first_whole_config_is_taken(
    settings: Seq<SourceKind>,
    first: SourceKind,
    rest: Seq<SourceKind>,
    has_hats: bool,
)
    requires
        forall|i: int| 0 <= i < settings.len() ==> #[trigger] settings[i] == SourceKind::Override,
        first != SourceKind::Override,
        settings.len() < usize::MAX,
    ensures
        ({
            let plan = config_plan(settings + seq![first] + rest, has_hats);
            let overridden = settings.len() > 0 || rest.contains(SourceKind::Override);
            let direct = first == SourceKind::File && !overridden && !has_hats;
            &&& first == SourceKind::File ==> plan.file == Some(settings.len() as usize)
            &&& first != SourceKind::File ==> plan.file is None
            &&& plan.direct == direct
            &&& !plan.needs_default
            &&& plan.ignores_sources <==> exists|i: int|
                0 <= i < rest.len() && #[trigger] rest[i] != SourceKind::Override
            &&& plan.resolves == (overridden || has_hats)
            &&& plan.warns_resolved == !direct
        }),
{
    let tail = seq![first] + rest;
    let all = settings + seq![first] + rest;
    assert(all =~= settings + tail);
    first_primary_is_found(settings, tail, 0);
    settings_are_not_counted(settings);
    counted_in_parts(settings, tail);
    counted_in_parts(seq![first], rest);
    assert(primary_count(seq![first]) == 1) by {
        reveal(Seq::filter);
        assert(seq![first].drop_last() =~= Seq::empty());
        assert(seq![first].last() == first);
    }
    assert(all[settings.len() as int] == first);
    if settings.len() > 0 {
        assert(all[0] == settings[0]);
        assert(all.contains(SourceKind::Override));
    }
    if rest.contains(SourceKind::Override) {
        let i = choose|i: int| 0 <= i < rest.len() && rest[i] == SourceKind::Override;
        assert(all[settings.len() + 1 + i] == rest[i]);
    }
    if all.contains(SourceKind::Override) && settings.len() == 0 {
        let i = choose|i: int| 0 <= i < all.len() && all[i] == SourceKind::Override;
        assert(i > 0);
        assert(all[i] == rest[i - 1]);
    }
    if exists|i: int| 0 <= i < rest.len() && #[trigger] rest[i] != SourceKind::Override {
        let i = choose|i: int| 0 <= i < rest.len() && #[trigger] rest[i] != SourceKind::Override;
        counted_once_found(rest, i);
    } else {
        settings_are_not_counted(rest);
    }
}

/// Without a whole config on the command line there is no file, and nothing is ignored;
/// the default config file must exist exactly if there is no source at all.
pub proof fn default_config_is_needed(settings: Seq<SourceKind>, has_hats: bool)
    requires
        forall|i: int| 0 <= i < settings.len() ==> #[trigger] settings[i] == SourceKind::Override,
    ensures
        ({
            let plan = config_plan(settings, has_hats);
            &&& plan.file is None
            &&& !plan.direct
            &&& plan.needs_default == (settings.len() == 0)
            &&& !plan.ignores_sources
            &&& plan.resolves == (settings.len() > 0 || has_hats)
            &&& !plan.warns_resolved
        }),
{
    let none = Seq::<SourceKind>::empty();
    first_primary_is_found(settings, none, 0);
    assert(settings + none =~= settings);
    settings_are_not_counted(settings);
    if settings.len() > 0 {
        assert(settings[0] == SourceKind::Override);
    }
}

/// The daemon is for Rocket.Chat exactly if there is a section for it and for Matrix
/// exactly if there is only one for that, and it has exactly what is configured.
pub proof fn daemons_are_for_their_backend(
    settings: DaemonSettings,
    use_colors: bool,
    r: Result<(Adapter, String), String>,
)
    requires
        call_ensures(build_adapter, (settings, use_colors), r),
    ensures
        settings.rocketchat matches Some(section) ==> {
            let complete = settings.auth_token is Some && settings.server_url is Some
                && section.bot_user_id is Some && section.room_id is Some;
            &&& r is Ok <==> complete
            &&& r matches Ok(built) ==> {
                &&& built.1@ == console::daemon_headline(use_colors, "Rocket.Chat"@)
                &&& built.0 matches Adapter::RocketChat(daemon) && Some(daemon.server_url)
                    == settings.server_url && Some(daemon.auth_token) == settings.auth_token && Some(
                    daemon.bot_user_id,
                ) == section.bot_user_id && Some(daemon.room_id) == section.room_id
                    && daemon.operator_id == settings.operator_id
            }
        },
        settings.rocketchat is None ==> (settings.matrix matches Some(section) ==> {
            let complete = settings.access_token is Some && settings.homeserver_url is Some
                && section.room_id is Some;
            &&& r is Ok <==> complete
            &&& r matches Ok(built) ==> {
                &&& built.1@ == console::daemon_headline(use_colors, "Matrix"@)
                &&& built.0 matches Adapter::Matrix(daemon) && Some(daemon.homeserver_url)
                    == settings.homeserver_url && Some(daemon.access_token) == settings.access_token
                    && Some(daemon.room_id) == section.room_id && daemon.operator_id
                    == settings.operator_id
            }
        }),
        settings.rocketchat is None && settings.matrix is None ==> {
            &&& r is Ok <==> settings.bot_token is Some && settings.chat_id is Some
            &&& r matches Ok(built) ==> {
                &&& built.1@ == console::daemon_headline(use_colors, "Telegram"@)
                &&& built.0 matches Adapter::Telegram { token, api_url, chat_id } && Some(token)
                    == settings.bot_token && Some(chat_id) == settings.chat_id && (
                if settings.env_api_url is Some {
                    api_url == settings.env_api_url
                } else {
                    api_url == settings.config_api_url
                })
            }
        },
{
}

/// Where something is missing for the daemon, the error is about the first that is.
pub proof fn missing_settings_are_told(
    settings: DaemonSettings,
    use_colors: bool,
    r: Result<(Adapter, String), String>,
)
    requires
        call_ensures(build_adapter, (settings, use_colors), r),
    ensures
        settings.rocketchat matches Some(section) ==> {
            &&& settings.auth_token is None ==> r is Err && r->Err_0@
                == "No Rocket.Chat auth token available. Set RALPH_ROCKETCHAT_AUTH_TOKEN env var or set RObot.rocketchat.auth_token in config"@
            &&& settings.auth_token is Some && settings.server_url is None ==> r is Err
                && r->Err_0@
                == "No Rocket.Chat server URL available. Set RALPH_ROCKETCHAT_SERVER_URL env var or set RObot.rocketchat.server_url in config"@
            &&& settings.auth_token is Some && settings.server_url is Some
                && section.bot_user_id is None ==> r is Err && r->Err_0@
                == "RObot.rocketchat.bot_user_id is required"@
            &&& settings.auth_token is Some && settings.server_url is Some
                && section.bot_user_id is Some && section.room_id is None ==> r is Err
                && r->Err_0@ == "RObot.rocketchat.room_id is required"@
        },
        settings.rocketchat is None ==> (settings.matrix matches Some(section) ==> {
            &&& settings.access_token is None ==> r is Err && r->Err_0@
                == "No Matrix access token available. Set RALPH_MATRIX_ACCESS_TOKEN env var or set RObot.matrix.access_token in config"@
            &&& settings.access_token is Some && settings.homeserver_url is None ==> r is Err
                && r->Err_0@
                == "No Matrix homeserver URL available. Set RALPH_MATRIX_HOMESERVER_URL env var or set RObot.matrix.homeserver_url in config"@
            &&& settings.access_token is Some && settings.homeserver_url is Some
                && section.room_id is None ==> r is Err && r->Err_0@
                == "RObot.matrix.room_id is required"@
        }),
        settings.rocketchat is None && settings.matrix is None ==> {
            &&& settings.bot_token is None ==> r is Err && r->Err_0@
                == "No bot token available. Run `ralph bot onboard` or set RALPH_TELEGRAM_BOT_TOKEN"@
            &&& settings.bot_token is Some && settings.chat_id is None ==> r is Err && r->Err_0@
                == "No chat_id found. Run `ralph bot onboard` to detect it"@
        },
{
}

/// The words for a missing file, and the name of a temporary config file.
pub proof fn config_files_are_named(
    path: &str,
    process: u32,
    nanos: u128,
    missing: String,
    temporary: String,
)
    requires
        call_ensures(file_not_found, (path,), missing),
        call_ensures(temp_config_name, (process, nanos), temporary),
    ensures
        missing@ == "Config file not found: "@ + path@,
        temporary@ == "daemon-config-"@ + text::decimal(process as nat) + "-"@ + text::decimal(
            nanos as nat,
        ) + ".yml"@,
{
}

} // verus!
