//! What the robot reads from its config file, and how it edits the file.

use super::tokens::Backend;
use crate::lists::own_text;
use crate::yaml::{self, Yaml, YamlNumber, YamlTree};
use crate::{lists, text};
use vstd::prelude::*;

verus! {

/// The config file.
pub const CONFIG_FILE: &'static str = "ralph.yml";

/// The key of the robot's section.
pub const ROBOT_KEY: &'static str = "RObot";

/// The key that is read where the robot's section has not its usual key.
pub const OTHER_ROBOT_KEY: &'static str = "robot";

// ── Reading ─────────────────────────────────────────────────────────────

/// The robot's section of a config.
pub open spec fn robot_of(config: YamlTree) -> Option<YamlTree> {
    match config.entry(ROBOT_KEY@) {
        Some(robot) => Some(robot),
        None => config.entry(OTHER_ROBOT_KEY@),
    }
}

/// The backend that a config is for: the first of Rocket.Chat, Matrix and
/// Telegram that has a section in that of the robot.
pub open spec fn backend_of(config: YamlTree) -> Backend {
    match robot_of(config) {
        None => Backend::Unset,
        Some(robot) => if robot.entry("rocketchat"@) is Some {
            Backend::RocketChat
        } else if robot.entry("matrix"@) is Some {
            Backend::Matrix
        } else if robot.entry("telegram"@) is Some {
            Backend::Telegram
        } else {
            Backend::Unset
        },
    }
}

/// The text of a field in a subsection of the robot's section.
pub open spec fn robot_text(config: YamlTree, section: Seq<char>, field: Seq<char>) -> Option<
    Seq<char>,
> {
    match robot_of(config) {
        Some(robot) => match robot.entry(section) {
            Some(inner) => match inner.entry(field) {
                Some(value) => value.text(),
                None => None,
            },
            None => None,
        },
        None => None,
    }
}

/// Whether a config enables the robot. Only the usual key counts.
pub open spec fn enabled_in(config: YamlTree) -> bool {
    match config.entry(ROBOT_KEY@) {
        Some(robot) => match robot.entry("enabled"@) {
            Some(value) => value.flag() == Some(true),
            None => false,
        },
        None => false,
    }
}

/// The document that a file holds, if the file could be read and holds one.
pub open spec fn document_of(content: Option<Seq<char>>) -> Option<YamlTree> {
    match content {
        Some(source) => yaml::yaml_parsed(source),
        None => None,
    }
}

fn robot_section(config: &Yaml) -> (r: Option<&Yaml>)
    ensures
        match r {
            Some(robot) => robot_of(config.tree()) == Some(robot.tree()),
            None => robot_of(config.tree()) is None,
        },
{
    match config.get(ROBOT_KEY) {
        Some(robot) => Some(robot),
        None => config.get(OTHER_ROBOT_KEY),
    }
}

fn document(content: Option<&str>) -> (r: Option<Yaml>)
    ensures
        match r {
            Some(config) => document_of(lists::chars_in(content)) == Some(config.tree()),
            None => document_of(lists::chars_in(content)) is None,
        },
{
    match content {
        Some(source) => yaml::parse(source),
        None => None,
    }
}

/// The backend that a config is for.
pub fn backend_in(config: &Yaml) -> (r: Backend)
    ensures
        r == backend_of(config.tree()),
{
    match robot_section(config) {
        None => Backend::Unset,
        Some(robot) => {
            if robot.get("rocketchat").is_some() {
                Backend::RocketChat
            } else if robot.get("matrix").is_some() {
                Backend::Matrix
            } else if robot.get("telegram").is_some() {
                Backend::Telegram
            } else {
                Backend::Unset
            }
        },
    }
}

/// Detects which RObot backend a config file is for, given its content if it
/// could be read.
///
/// Checks the `RObot` (or `robot`) section for `rocketchat`, `matrix`, and `telegram`
/// sub-keys. Priority: rocketchat > matrix > telegram.
pub fn detect_configured_backend_from(content: Option<&str>) -> (r: Backend)
    ensures
        r == (match document_of(lists::chars_in(content)) {
            Some(config) => backend_of(config),
            None => Backend::Unset,
        }),
{
    match document(content) {
        Some(config) => backend_in(&config),
        None => Backend::Unset,
    }
}

/// Whether a config enables the robot.
pub fn is_enabled_in(config: &Yaml) -> (r: bool)
    ensures
        r == enabled_in(config.tree()),
{
    match config.get(ROBOT_KEY) {
        Some(robot) => match robot.get("enabled") {
            Some(value) => match value.as_bool() {
                Some(b) => b,
                None => false,
            },
            None => false,
        },
        None => false,
    }
}

/// Whether a config file enables the robot, given its content if it could be
/// read.
pub fn is_robot_enabled(content: Option<&str>) -> (r: bool)
    ensures
        r == (match document_of(lists::chars_in(content)) {
            Some(config) => enabled_in(config),
            None => false,
        }),
{
    match document(content) {
        Some(config) => is_enabled_in(&config),
        None => false,
    }
}

/// The text of a field in a subsection of the robot's section.
pub fn robot_text_in<'a>(config: &'a Yaml, section: &str, field: &str) -> (r: Option<&'a str>)
    ensures
        lists::chars_in(r) == robot_text(config.tree(), section@, field@),
{
    match robot_section(config) {
        Some(robot) => match robot.get(section) {
            Some(inner) => match inner.get(field) {
                Some(value) => value.as_str(),
                None => None,
            },
            None => None,
        },
        None => None,
    }
}

/// Reads the bot token from a config file, given its content if it could be read.
pub fn load_config_bot_token_from(content: Option<&str>) -> (r: Option<String>)
    ensures
        lists::text_in(r) == (match document_of(lists::chars_in(content)) {
            Some(config) => robot_text(config, "telegram"@, "bot_token"@),
            None => None,
        }),
{
    match document(content) {
        Some(config) => own_text(robot_text_in(&config, "telegram", "bot_token")),
        None => None,
    }
}

/// Reads the custom Telegram API URL from a config file, given its content if it
/// could be read.
pub fn load_config_api_url_from(content: Option<&str>) -> (r: Option<String>)
    ensures
        lists::text_in(r) == (match document_of(lists::chars_in(content)) {
            Some(config) => robot_text(config, "telegram"@, "api_url"@),
            None => None,
        }),
{
    match document(content) {
        Some(config) => own_text(robot_text_in(&config, "telegram", "api_url")),
        None => None,
    }
}

// ── Editing ─────────────────────────────────────────────────────────────

/// Why a config file could not be edited.
#[derive(Debug, Clone, Copy, PartialEq, Eq, Structural)]
pub enum ConfigError {
    /// The file holds no YAML document.
    Unparsed,
    /// The edited document has no printed form.
    Unprintable,
}

impl ConfigError {
    /// The error in words, with a name for the file.
    pub fn message(self, file: &str) -> (r: String)
        ensures
            r@ == (match self {
                ConfigError::Unparsed => "Failed to parse "@ + file@,
                ConfigError::Unprintable => "Failed to serialize config"@,
            }),
    {
        match self {
            ConfigError::Unparsed => text::cat2("Failed to parse ", file),
            ConfigError::Unprintable => String::from_str("Failed to serialize config"),
        }
    }
}

/// The result of printing a document.
pub open spec fn printed(document: YamlTree) -> Result<Seq<char>, ConfigError> {
    match yaml::yaml_printed(yaml::yaml_node(document)) {
        Some(body) => Ok(body),
        None => Err(ConfigError::Unprintable),
    }
}

/// The characters of a result.
pub open spec fn result_text(result: Result<String, ConfigError>) -> Result<
    Seq<char>,
    ConfigError,
> {
    match result {
        Ok(body) => Ok(body@),
        Err(error) => Err(error),
    }
}

/// Whether a document, if it is a plain one, is printed such that it is read
/// again.
pub open spec fn reads_back(result: Result<String, ConfigError>, document: YamlTree) -> bool {
    yaml::is_plain(document, yaml::PLAIN_DEPTH as nat) ==> (result matches Ok(content)
        && yaml::yaml_parsed(content@) == Some(document))
}

fn print(document: Yaml) -> (r: Result<String, ConfigError>)
    ensures
        result_text(r) == printed(document.tree()),
        reads_back(r, document.tree()),
{
    match yaml::print(document) {
        Some(body) => Ok(body),
        None => Err(ConfigError::Unprintable),
    }
}

/// The document that an edit starts from: that of the config file, or an empty
/// mapping where there is no file; `None` where the file holds no document.
pub open spec fn base_document(existing: Option<Seq<char>>) -> Option<YamlTree> {
    match existing {
        Some(content) => yaml::yaml_parsed(content),
        None => Some(YamlTree::Mapping(Seq::empty())),
    }
}

fn base(existing: Option<&str>) -> (r: Option<Yaml>)
    ensures
        match r {
            Some(config) => base_document(lists::chars_in(existing)) == Some(config.tree()),
            None => base_document(lists::chars_in(existing)) is None,
        },
{
    match existing {
        Some(content) => yaml::parse(content),
        None => Some(Yaml::mapping(no_entries())),
    }
}

/// Whether an edit of the config file starts from a plain document. Without a file
/// it does.
pub open spec fn starts_plain(existing: Option<Seq<char>>) -> bool {
    base_document(existing) matches Some(config) && yaml::is_plain(
        config,
        yaml::PLAIN_DEPTH as nat,
    )
}

/// Whether a result is content that is read as a document.
pub open spec fn is_read_as(
    result: Result<String, ConfigError>,
    document: Option<YamlTree>,
) -> bool {
    document is Some && (result matches Ok(content) && yaml::yaml_parsed(content@) == document)
}

/// A document with the robot's section replaced. What is not a mapping at the top
/// is replaced by one.
pub open spec fn with_robot(config: YamlTree, robot: YamlTree) -> YamlTree {
    YamlTree::Mapping(yaml::put(config.entries(), ROBOT_KEY@, robot))
}

/// A document with the robot's section replaced.
pub fn set_robot(config: Yaml, robot: Yaml) -> (r: Yaml)
    ensures
        r.tree() == with_robot(config.tree(), robot.tree()),
{
    Yaml::mapping(yaml::put_entry(config.into_entries(), ROBOT_KEY, robot))
}

/// A config file with the robot's section replaced; `None` where the file holds no
/// document. Without a file, the document is empty at first.
pub open spec fn document_with_robot(existing: Option<Seq<char>>, robot: YamlTree) -> Option<
    YamlTree,
> {
    match base_document(existing) {
        Some(config) => Some(with_robot(config, robot)),
        None => None,
    }
}

/// The content of a config file with the robot's section replaced.
pub open spec fn content_with_robot(existing: Option<Seq<char>>, robot: YamlTree) -> Result<
    Seq<char>,
    ConfigError,
> {
    match document_with_robot(existing, robot) {
        Some(document) => printed(document),
        None => Err(ConfigError::Unparsed),
    }
}

fn edit_robot(existing: Option<&str>, robot: Yaml) -> (r: Result<String, ConfigError>)
    ensures
        result_text(r) == content_with_robot(lists::chars_in(existing), robot.tree()),
        document_with_robot(lists::chars_in(existing), robot.tree()) matches Some(document)
            ==> reads_back(r, document),
        starts_plain(lists::chars_in(existing)) && yaml::is_plain(robot.tree(), ROBOT_DEPTH as nat)
            ==> is_read_as(r, document_with_robot(lists::chars_in(existing), robot.tree())),
{
    match base(existing) {
        Some(config) => {
            proof {
                if yaml::is_plain(config.tree(), yaml::PLAIN_DEPTH as nat) && yaml::is_plain(
                    robot.tree(),
                    ROBOT_DEPTH as nat,
                ) {
                    setup_keeps_configs_plain(
                        config.tree(),
                        robot.tree(),
                        yaml::PLAIN_DEPTH as nat,
                    );
                }
            }
            print(set_robot(config, robot))
        },
        None => Err(ConfigError::Unparsed),
    }
}

/// How many mappings the robot's section is deep.
pub const ROBOT_DEPTH: u8 = 2;

/// The entries that the robot's section begins with.
pub open spec fn enabled_robot(timeout: u64) -> Seq<(YamlTree, YamlTree)> {
    yaml::put(
        yaml::put(Seq::empty(), "enabled"@, YamlTree::Flag(true)),
        "timeout_seconds"@,
        YamlTree::Number(YamlNumber::Whole(timeout)),
    )
}

fn enabled_entries(timeout: u64) -> (r: Vec<(Yaml, Yaml)>)
    ensures
        yaml::entries_tree(r@) == enabled_robot(timeout),
{
    let none: Vec<(Yaml, Yaml)> = Vec::new();
    assert(yaml::entries_tree(none@) =~= Seq::empty());
    yaml::put_entry(
        yaml::put_entry(none, "enabled", Yaml::Flag(true)),
        "timeout_seconds",
        Yaml::Number(yaml::whole_number(timeout)),
    )
}

fn text_entry(entries: Vec<(Yaml, Yaml)>, key: &str, value: &str) -> (r: Vec<(Yaml, Yaml)>)
    ensures
        yaml::entries_tree(r@) == yaml::put(
            yaml::entries_tree(entries@),
            key@,
            YamlTree::Text(value@),
        ),
{
    yaml::put_entry(entries, key, Yaml::Text(String::from_str(value)))
}

fn no_entries() -> (r: Vec<(Yaml, Yaml)>)
    ensures
        yaml::entries_tree(r@) == Seq::<(YamlTree, YamlTree)>::empty(),
{
    let none: Vec<(Yaml, Yaml)> = Vec::new();
    assert(yaml::entries_tree(none@) =~= Seq::empty());
    none
}

/// The robot's section for Telegram.
pub open spec fn telegram_robot(timeout: u64, bot_token: Option<Seq<char>>) -> YamlTree {
    YamlTree::Mapping(
        match bot_token {
            Some(token) => yaml::put(
                enabled_robot(timeout),
                "telegram"@,
                YamlTree::Mapping(
                    yaml::put(Seq::empty(), "bot_token"@, YamlTree::Text(token)),
                ),
            ),
            None => enabled_robot(timeout),
        },
    )
}

/// The robot's section for Telegram.
pub fn build_telegram_robot(timeout: u64, bot_token: Option<&str>) -> (r: Yaml)
    ensures
        r.tree() == telegram_robot(timeout, lists::chars_in(bot_token)),
{
    Yaml::mapping(
        match bot_token {
            Some(token) => yaml::put_entry(
                enabled_entries(timeout),
                "telegram",
                Yaml::mapping(text_entry(no_entries(), "bot_token", token)),
            ),
            None => enabled_entries(timeout),
        },
    )
}

/// The content of the config file with the robot set up for Telegram.
///
/// If the file exists, its `RObot` section is replaced. If it doesn't, the content
/// is a minimal config.
pub fn save_robot_config(existing: Option<&str>, timeout: u64, bot_token: Option<&str>) -> (r:
    Result<String, ConfigError>)
    ensures
        ({
            let robot = telegram_robot(timeout, lists::chars_in(bot_token));
            let document = document_with_robot(lists::chars_in(existing), robot);
            &&& result_text(r) == content_with_robot(lists::chars_in(existing), robot)
            &&& document matches Some(config) ==> reads_back(r, config)
            &&& starts_plain(lists::chars_in(existing)) ==> is_read_as(r, document)
        }),
{
    proof {
        telegram_robot_is_plain(timeout, lists::chars_in(bot_token));
    }
    edit_robot(existing, build_telegram_robot(timeout, bot_token))
}

/// The time limit that the setup of a chat room configures, in seconds.
pub const ROOM_TIMEOUT: u64 = 300;

/// The robot's section for a chat room: the backend's own section, and the
/// operator where one is set.
pub open spec fn room_robot(
    backend: Seq<char>,
    section: Seq<(YamlTree, YamlTree)>,
    operator_id: Option<Seq<char>>,
) -> YamlTree {
    let base = yaml::put(enabled_robot(ROOM_TIMEOUT), backend, YamlTree::Mapping(section));
    YamlTree::Mapping(
        match operator_id {
            Some(operator) => yaml::put(base, "operator_id"@, YamlTree::Text(operator)),
            None => base,
        },
    )
}

fn room_entries(backend: &str, section: Vec<(Yaml, Yaml)>, operator_id: Option<&str>) -> (r: Yaml)
    ensures
        r.tree() == room_robot(
            backend@,
            yaml::entries_tree(section@),
            lists::chars_in(operator_id),
        ),
{
    let base = yaml::put_entry(enabled_entries(ROOM_TIMEOUT), backend, Yaml::mapping(section));
    Yaml::mapping(
        match operator_id {
            Some(operator) => text_entry(base, "operator_id", operator),
            None => base,
        },
    )
}

/// The entries of the Rocket.Chat section, with the auth token where it is kept in
/// the config.
pub open spec fn rocketchat_section(
    server_url: Seq<char>,
    bot_user_id: Seq<char>,
    room_id: Seq<char>,
    auth_token: Option<Seq<char>>,
) -> Seq<(YamlTree, YamlTree)> {
    let base = yaml::put(
        yaml::put(
            yaml::put(Seq::empty(), "server_url"@, YamlTree::Text(server_url)),
            "bot_user_id"@,
            YamlTree::Text(bot_user_id),
        ),
        "room_id"@,
        YamlTree::Text(room_id),
    );
    match auth_token {
        Some(token) => yaml::put(base, "auth_token"@, YamlTree::Text(token)),
        None => base,
    }
}

/// The robot's section for Rocket.Chat.
pub open spec fn rocketchat_robot(
    server_url: Seq<char>,
    bot_user_id: Seq<char>,
    room_id: Seq<char>,
    operator_id: Option<Seq<char>>,
    auth_token: Option<Seq<char>>,
) -> YamlTree {
    room_robot(
        "rocketchat"@,
        rocketchat_section(server_url, bot_user_id, room_id, auth_token),
        operator_id,
    )
}

/// The robot's section for Rocket.Chat.
pub fn build_rocketchat_robot(
    server_url: &str,
    bot_user_id: &str,
    room_id: &str,
    operator_id: Option<&str>,
    auth_token: Option<&str>,
) -> (r: Yaml)
    ensures
        r.tree() == rocketchat_robot(
            server_url@,
            bot_user_id@,
            room_id@,
            lists::chars_in(operator_id),
            lists::chars_in(auth_token),
        ),
{
    let base = text_entry(
        text_entry(text_entry(no_entries(), "server_url", server_url), "bot_user_id", bot_user_id),
        "room_id",
        room_id,
    );
    let section = match auth_token {
        Some(token) => text_entry(base, "auth_token", token),
        None => base,
    };
    room_entries("rocketchat", section, operator_id)
}

/// The content of the config file with the robot set up for Rocket.Chat. The auth
/// token is only in it where one is given.
///
/// If the file exists, its `RObot` section is replaced. If it doesn't, the content
/// is a minimal config.
pub fn save_rocketchat_config(
    existing: Option<&str>,
    server_url: &str,
    bot_user_id: &str,
    room_id: &str,
    operator_id: Option<&str>,
    auth_token: Option<&str>,
) -> (r: Result<String, ConfigError>)
    ensures
        ({
            let robot = rocketchat_robot(
                server_url@,
                bot_user_id@,
                room_id@,
                lists::chars_in(operator_id),
                lists::chars_in(auth_token),
            );
            let document = document_with_robot(lists::chars_in(existing), robot);
            &&& result_text(r) == content_with_robot(lists::chars_in(existing), robot)
            &&& document matches Some(config) ==> reads_back(r, config)
            &&& starts_plain(lists::chars_in(existing)) ==> is_read_as(r, document)
        }),
{
    proof {
        rocketchat_robot_is_plain(
            server_url@,
            bot_user_id@,
            room_id@,
            lists::chars_in(operator_id),
            lists::chars_in(auth_token),
        );
    }
    edit_robot(
        existing,
        build_rocketchat_robot(server_url, bot_user_id, room_id, operator_id, auth_token),
    )
}

/// The entries of the Matrix section.
pub open spec fn matrix_section(homeserver_url: Seq<char>, room_id: Seq<char>) -> Seq<
    (YamlTree, YamlTree),
> {
    yaml::put(
        yaml::put(Seq::empty(), "homeserver_url"@, YamlTree::Text(homeserver_url)),
        "room_id"@,
        YamlTree::Text(room_id),
    )
}

/// The robot's section for Matrix.
pub open spec fn matrix_robot(
    homeserver_url: Seq<char>,
    room_id: Seq<char>,
    operator_id: Option<Seq<char>>,
) -> YamlTree {
    room_robot("matrix"@, matrix_section(homeserver_url, room_id), operator_id)
}

/// The robot's section for Matrix.
pub fn build_matrix_robot(homeserver_url: &str, room_id: &str, operator_id: Option<&str>) -> (r:
    Yaml)
    ensures
        r.tree() == matrix_robot(homeserver_url@, room_id@, lists::chars_in(operator_id)),
{
    let section = text_entry(
        text_entry(no_entries(), "homeserver_url", homeserver_url),
        "room_id",
        room_id,
    );
    room_entries("matrix", section, operator_id)
}

/// The content of the config file with the robot set up for Matrix.
///
/// If the file exists, its `RObot` section is replaced. If it doesn't, the content
/// is a minimal config.
pub fn save_matrix_config(
    existing: Option<&str>,
    homeserver_url: &str,
    room_id: &str,
    operator_id: Option<&str>,
) -> (r: Result<String, ConfigError>)
    ensures
        ({
            let robot = matrix_robot(homeserver_url@, room_id@, lists::chars_in(operator_id));
            let document = document_with_robot(lists::chars_in(existing), robot);
            &&& result_text(r) == content_with_robot(lists::chars_in(existing), robot)
            &&& document matches Some(config) ==> reads_back(r, config)
            &&& starts_plain(lists::chars_in(existing)) ==> is_read_as(r, document)
        }),
{
    proof {
        matrix_robot_is_plain(homeserver_url@, room_id@, lists::chars_in(operator_id));
    }
    edit_robot(existing, build_matrix_robot(homeserver_url, room_id, operator_id))
}

// ── Tokens ──────────────────────────────────────────────────────────────

/// The key of the robot's section in a mapping, or the one to add it under.
pub open spec fn robot_key_in(root: Seq<(YamlTree, YamlTree)>) -> Seq<char> {
    if yaml::lookup(root, ROBOT_KEY@) is Some {
        ROBOT_KEY@
    } else if yaml::lookup(root, OTHER_ROBOT_KEY@) is Some {
        OTHER_ROBOT_KEY@
    } else {
        ROBOT_KEY@
    }
}

/// The entries of the mapping under a key; none where there is no mapping.
pub open spec fn inner_entries(entries: Seq<(YamlTree, YamlTree)>, key: Seq<char>) -> Seq<
    (YamlTree, YamlTree),
> {
    match yaml::lookup(entries, key) {
        Some(value) => value.entries(),
        None => Seq::empty(),
    }
}

/// A config with a token put into a subsection of the robot's section. What is
/// not a mapping on the way there is replaced by one.
pub open spec fn with_token(
    config: YamlTree,
    section: Seq<char>,
    field: Seq<char>,
    token: Seq<char>,
) -> YamlTree {
    let root = config.entries();
    let key = robot_key_in(root);
    let robot = inner_entries(root, key);
    let inner = inner_entries(robot, section);
    YamlTree::Mapping(
        yaml::put(
            root,
            key,
            YamlTree::Mapping(
                yaml::put(
                    robot,
                    section,
                    YamlTree::Mapping(yaml::put(inner, field, YamlTree::Text(token))),
                ),
            ),
        ),
    )
}

/// A config with a token put into a subsection of the robot's section.
pub fn set_token(config: Yaml, section: &str, field: &str, token: &str) -> (r: Yaml)
    ensures
        r.tree() == with_token(config.tree(), section@, field@, token@),
{
    let mut root = config.into_entries();
    let ghost before = yaml::entries_tree(root@);
    let key: &str = if yaml::find_slot(&root, ROBOT_KEY) < root.len() {
        ROBOT_KEY
    } else if yaml::find_slot(&root, OTHER_ROBOT_KEY) < root.len() {
        OTHER_ROBOT_KEY
    } else {
        ROBOT_KEY
    };
    assert(key@ == robot_key_in(before));
    let mut robot = yaml::take_mapping(&mut root, key);
    let inner = yaml::take_mapping(&mut robot, section);
    let inner = text_entry(inner, field, token);
    let robot = yaml::put_entry(robot, section, Yaml::mapping(inner));
    Yaml::mapping(yaml::put_entry(root, key, Yaml::mapping(robot)))
}

/// A config file with a token in it; `None` where the file holds no document.
/// Without a file, the document is empty at first.
pub open spec fn document_with_token(
    existing: Option<Seq<char>>,
    section: Seq<char>,
    field: Seq<char>,
    token: Seq<char>,
) -> Option<YamlTree> {
    match base_document(existing) {
        Some(config) => Some(with_token(config, section, field, token)),
        None => None,
    }
}

/// The content of a config file with a token in it.
pub open spec fn content_with_token(
    existing: Option<Seq<char>>,
    section: Seq<char>,
    field: Seq<char>,
    token: Seq<char>,
) -> Result<Seq<char>, ConfigError> {
    match document_with_token(existing, section, field, token) {
        Some(document) => printed(document),
        None => Err(ConfigError::Unparsed),
    }
}

/// Whether a result is that of putting a token into a config file: the content of
/// the file with the token in it, preserving other keys, or the error. Where the
/// file is absent or holds a plain document, it is content that is read as that
/// document, and the token is read from it.
pub open spec fn is_token_edit(
    r: Result<String, ConfigError>,
    existing: Option<Seq<char>>,
    section: Seq<char>,
    field: Seq<char>,
    token: Seq<char>,
) -> bool {
    let document = document_with_token(existing, section, field, token);
    &&& result_text(r) == content_with_token(existing, section, field, token)
    &&& document matches Some(config) ==> reads_back(r, config)
    &&& starts_plain(existing) ==> is_read_as(r, document) && robot_text(
        document->0,
        section,
        field,
    ) == Some(token)
}

fn edit_token(existing: Option<&str>, section: &str, field: &str, token: &str) -> (r: Result<
    String,
    ConfigError,
>)
    ensures
        is_token_edit(r, lists::chars_in(existing), section@, field@, token@),
{
    match base(existing) {
        Some(config) => {
            proof {
                saved_token_is_read_back(config.tree(), section@, field@, token@);
                if yaml::is_plain(config.tree(), yaml::PLAIN_DEPTH as nat) {
                    tokens_keep_configs_plain(
                        config.tree(),
                        section@,
                        field@,
                        token@,
                        yaml::PLAIN_DEPTH as nat,
                    );
                }
            }
            print(set_token(config, section, field, token))
        },
        None => Err(ConfigError::Unparsed),
    }
}

/// The content of a config file with the Telegram bot token in it, preserving
/// other keys.
pub fn save_bot_token_config(existing: Option<&str>, token: &str) -> (r: Result<
    String,
    ConfigError,
>)
    ensures
        is_token_edit(r, lists::chars_in(existing), "telegram"@, "bot_token"@, token@),
{
    edit_token(existing, "telegram", "bot_token", token)
}

/// The content of a config file with the Matrix access token in it, preserving
/// other keys.
pub fn save_matrix_token_config(existing: Option<&str>, token: &str) -> (r: Result<
    String,
    ConfigError,
>)
    ensures
        is_token_edit(r, lists::chars_in(existing), "matrix"@, "access_token"@, token@),
{
    edit_token(existing, "matrix", "access_token", token)
}

/// The content of a config file with the Rocket.Chat auth token in it, preserving
/// other keys.
pub fn save_rocketchat_token_config(existing: Option<&str>, token: &str) -> (r: Result<
    String,
    ConfigError,
>)
    ensures
        is_token_edit(r, lists::chars_in(existing), "rocketchat"@, "auth_token"@, token@),
{
    edit_token(existing, "rocketchat", "auth_token", token)
}

// ── Laws ────────────────────────────────────────────────────────────────

/// The token that was put into a config is the one that is read from it.
pub proof fn saved_token_is_read_back(
    config: YamlTree,
    section: Seq<char>,
    field: Seq<char>,
    token: Seq<char>,
)
    ensures
        robot_text(with_token(config, section, field, token), section, field) == Some(token),
{
    let root = config.entries();
    let key = robot_key_in(root);
    let robot = inner_entries(root, key);
    let inner = inner_entries(robot, section);
    let new_inner = yaml::put(inner, field, YamlTree::Text(token));
    let new_robot = yaml::put(robot, section, YamlTree::Mapping(new_inner));
    yaml::lookup_after_put(inner, field, YamlTree::Text(token));
    yaml::lookup_after_put(robot, section, YamlTree::Mapping(new_inner));
    yaml::lookup_after_put(root, key, YamlTree::Mapping(new_robot));
    robot_keys_differ();
    if key == OTHER_ROBOT_KEY@ {
        yaml::lookup_after_other_put(root, key, YamlTree::Mapping(new_robot), ROBOT_KEY@);
    }
}

/// What is loaded after a token was saved is that token, and every other key is
/// what it was: for a file that was absent or held a plain document, at the top,
/// in the robot's section, and in the subsection that the token goes into. A section
/// under the other key is edited in place, and none is added beside it.
pub proof fn saved_token_is_loaded(
    content: String,
    existing: Option<Seq<char>>,
    section: Seq<char>,
    field: Seq<char>,
    token: Seq<char>,
    other: Seq<char>,
)
    requires
        is_token_edit(Ok(content), existing, section, field, token),
        starts_plain(existing),
    ensures
        ({
            let before = base_document(existing)->0.entries();
            let key = robot_key_in(before);
            let robot = inner_entries(before, key);
            let loaded = document_of(Some(content@));
            let after = loaded->0.entries();
            let robot_after = inner_entries(after, key);
            &&& loaded is Some
            &&& robot_text(loaded->0, section, field) == Some(token)
            &&& key != ROBOT_KEY@ ==> yaml::lookup(after, ROBOT_KEY@) is None
            &&& other != key ==> yaml::lookup(after, other) == yaml::lookup(before, other)
            &&& other != section ==> yaml::lookup(robot_after, other) == yaml::lookup(robot, other)
            &&& other != field ==> yaml::lookup(inner_entries(robot_after, section), other)
                == yaml::lookup(inner_entries(robot, section), other)
        }),
{
    let config = base_document(existing)->0;
    saving_a_token_preserves_other_keys(config, section, field, token, other);
    saving_a_token_preserves_other_keys(config, section, field, token, ROBOT_KEY@);
}

/// Putting a token into a plain config leaves it plain, so that the file
/// is read as what was written.
pub proof fn tokens_keep_configs_plain(
    config: YamlTree,
    section: Seq<char>,
    field: Seq<char>,
    token: Seq<char>,
    depth: nat,
)
    requires
        depth >= 3,
        yaml::is_plain(config, depth),
    ensures
        yaml::is_plain(with_token(config, section, field, token), depth),
{
    let root = config.entries();
    let key = robot_key_in(root);
    let robot = inner_entries(root, key);
    let inner = inner_entries(robot, section);
    assert(yaml::is_plain(YamlTree::Mapping(root), depth));
    inner_stays_plain(root, key, (depth - 1) as nat);
    inner_stays_plain(robot, section, (depth - 2) as nat);
    let new_inner = yaml::put(inner, field, YamlTree::Text(token));
    yaml::put_keeps_plain(inner, field, YamlTree::Text(token), (depth - 3) as nat);
    let new_robot = yaml::put(robot, section, YamlTree::Mapping(new_inner));
    yaml::put_keeps_plain(robot, section, YamlTree::Mapping(new_inner), (depth - 2) as nat);
    yaml::put_keeps_plain(root, key, YamlTree::Mapping(new_robot), (depth - 1) as nat);
}

/// Setting up the robot with a plain section leaves a plain config plain, so that
/// the file is read as what was written.
pub proof fn setup_keeps_configs_plain(config: YamlTree, robot: YamlTree, depth: nat)
    requires
        depth > ROBOT_DEPTH,
        yaml::is_plain(config, depth),
        yaml::is_plain(robot, ROBOT_DEPTH as nat),
    ensures
        yaml::is_plain(with_robot(config, robot), depth),
{
    assert(yaml::is_plain(YamlTree::Mapping(config.entries()), depth));
    yaml::plain_within(robot, ROBOT_DEPTH as nat, (depth - 1) as nat);
    yaml::put_keeps_plain(config.entries(), ROBOT_KEY@, robot, (depth - 1) as nat);
}

proof fn enabled_robot_is_plain(timeout: u64)
    ensures
        yaml::is_plain(YamlTree::Mapping(enabled_robot(timeout)), ROBOT_DEPTH as nat),
{
    let none = Seq::<(YamlTree, YamlTree)>::empty();
    let number = YamlTree::Number(YamlNumber::Whole(timeout));
    assert(yaml::is_plain(YamlTree::Mapping(none), ROBOT_DEPTH as nat));
    yaml::put_keeps_plain(none, "enabled"@, YamlTree::Flag(true), 1);
    yaml::put_keeps_plain(
        yaml::put(none, "enabled"@, YamlTree::Flag(true)),
        "timeout_seconds"@,
        number,
        1,
    );
}

proof fn telegram_robot_is_plain(timeout: u64, bot_token: Option<Seq<char>>)
    ensures
        yaml::is_plain(telegram_robot(timeout, bot_token), ROBOT_DEPTH as nat),
{
    enabled_robot_is_plain(timeout);
    match bot_token {
        Some(token) => {
            let none = Seq::<(YamlTree, YamlTree)>::empty();
            let inner = yaml::put(none, "bot_token"@, YamlTree::Text(token));
            assert(yaml::is_plain(YamlTree::Mapping(none), 1));
            yaml::put_keeps_plain(none, "bot_token"@, YamlTree::Text(token), 0);
            yaml::put_keeps_plain(enabled_robot(timeout), "telegram"@, YamlTree::Mapping(inner), 1);
        },
        None => {},
    }
}

proof fn room_robot_is_plain(
    backend: Seq<char>,
    section: Seq<(YamlTree, YamlTree)>,
    operator_id: Option<Seq<char>>,
)
    requires
        yaml::is_plain(YamlTree::Mapping(section), 1),
    ensures
        yaml::is_plain(room_robot(backend, section, operator_id), ROBOT_DEPTH as nat),
{
    enabled_robot_is_plain(ROOM_TIMEOUT);
    let start = enabled_robot(ROOM_TIMEOUT);
    let base = yaml::put(start, backend, YamlTree::Mapping(section));
    yaml::put_keeps_plain(start, backend, YamlTree::Mapping(section), 1);
    match operator_id {
        Some(operator) => yaml::put_keeps_plain(
            base,
            "operator_id"@,
            YamlTree::Text(operator),
            1,
        ),
        None => {},
    }
}

proof fn text_put_keeps_plain(entries: Seq<(YamlTree, YamlTree)>, key: Seq<char>, value: Seq<char>)
    requires
        yaml::is_plain(YamlTree::Mapping(entries), 1),
    ensures
        yaml::is_plain(YamlTree::Mapping(yaml::put(entries, key, YamlTree::Text(value))), 1),
{
    yaml::put_keeps_plain(entries, key, YamlTree::Text(value), 0);
}

proof fn rocketchat_robot_is_plain(
    server_url: Seq<char>,
    bot_user_id: Seq<char>,
    room_id: Seq<char>,
    operator_id: Option<Seq<char>>,
    auth_token: Option<Seq<char>>,
)
    ensures
        yaml::is_plain(
            rocketchat_robot(server_url, bot_user_id, room_id, operator_id, auth_token),
            ROBOT_DEPTH as nat,
        ),
{
    let none = Seq::<(YamlTree, YamlTree)>::empty();
    let one = yaml::put(none, "server_url"@, YamlTree::Text(server_url));
    let two = yaml::put(one, "bot_user_id"@, YamlTree::Text(bot_user_id));
    let three = yaml::put(two, "room_id"@, YamlTree::Text(room_id));
    assert(yaml::is_plain(YamlTree::Mapping(none), 1));
    text_put_keeps_plain(none, "server_url"@, server_url);
    text_put_keeps_plain(one, "bot_user_id"@, bot_user_id);
    text_put_keeps_plain(two, "room_id"@, room_id);
    match auth_token {
        Some(token) => text_put_keeps_plain(three, "auth_token"@, token),
        None => {},
    }
    room_robot_is_plain(
        "rocketchat"@,
        rocketchat_section(server_url, bot_user_id, room_id, auth_token),
        operator_id,
    );
}

proof fn matrix_robot_is_plain(
    homeserver_url: Seq<char>,
    room_id: Seq<char>,
    operator_id: Option<Seq<char>>,
)
    ensures
        yaml::is_plain(matrix_robot(homeserver_url, room_id, operator_id), ROBOT_DEPTH as nat),
{
    let none = Seq::<(YamlTree, YamlTree)>::empty();
    let one = yaml::put(none, "homeserver_url"@, YamlTree::Text(homeserver_url));
    assert(yaml::is_plain(YamlTree::Mapping(none), 1));
    text_put_keeps_plain(none, "homeserver_url"@, homeserver_url);
    text_put_keeps_plain(one, "room_id"@, room_id);
    room_robot_is_plain("matrix"@, matrix_section(homeserver_url, room_id), operator_id);
}

proof fn inner_stays_plain(entries: Seq<(YamlTree, YamlTree)>, key: Seq<char>, depth: nat)
    requires
        depth >= 1,
        yaml::is_plain(YamlTree::Mapping(entries), depth + 1),
    ensures
        yaml::is_plain(YamlTree::Mapping(inner_entries(entries, key)), depth),
{
    yaml::slot_properties(entries, key);
    match yaml::lookup(entries, key) {
        Some(value) => {
            let at = yaml::slot(entries, key);
            assert(entries[at].1 == value);
            assert(yaml::is_plain(value, depth));
        },
        None => {},
    }
}

proof fn robot_keys_differ()
    ensures
        ROBOT_KEY@ != OTHER_ROBOT_KEY@,
{
    reveal_strlit("RObot");
    reveal_strlit("robot");
    assert(ROBOT_KEY@[0] == 'R');
    assert(OTHER_ROBOT_KEY@[0] == 'r');
}

/// Putting a token into a config preserves every other key: at the top, in the
/// robot's section, and in the subsection that the token goes into.
pub proof fn saving_a_token_preserves_other_keys(
    config: YamlTree,
    section: Seq<char>,
    field: Seq<char>,
    token: Seq<char>,
    other: Seq<char>,
)
    ensures
        ({
            let root = config.entries();
            let key = robot_key_in(root);
            let after = with_token(config, section, field, token).entries();
            let robot = inner_entries(root, key);
            let robot_after = inner_entries(after, key);
            let inner = inner_entries(robot, section);
            let inner_after = inner_entries(robot_after, section);
            &&& other != key ==> yaml::lookup(after, other) == yaml::lookup(root, other)
            &&& other != section ==> yaml::lookup(robot_after, other) == yaml::lookup(robot, other)
            &&& other != field ==> yaml::lookup(inner_after, other) == yaml::lookup(inner, other)
        }),
{
    let root = config.entries();
    let key = robot_key_in(root);
    let robot = inner_entries(root, key);
    let inner = inner_entries(robot, section);
    let new_inner = yaml::put(inner, field, YamlTree::Text(token));
    let new_robot = yaml::put(robot, section, YamlTree::Mapping(new_inner));
    yaml::lookup_after_put(robot, section, YamlTree::Mapping(new_inner));
    yaml::lookup_after_put(root, key, YamlTree::Mapping(new_robot));
    if other != key {
        yaml::lookup_after_other_put(root, key, YamlTree::Mapping(new_robot), other);
    }
    if other != section {
        yaml::lookup_after_other_put(robot, section, YamlTree::Mapping(new_inner), other);
    }
    if other != field {
        yaml::lookup_after_other_put(inner, field, YamlTree::Text(token), other);
    }
}

/// Setting up the robot in a config makes the robot's section the one that was set
/// up, and preserves every other key.
pub proof fn setup_replaces_only_the_robot(config: YamlTree, robot: YamlTree, other: Seq<char>)
    ensures
        robot_of(with_robot(config, robot)) == Some(robot),
        other != ROBOT_KEY@ ==> yaml::lookup(with_robot(config, robot).entries(), other)
            == yaml::lookup(config.entries(), other),
{
    let root = config.entries();
    yaml::lookup_after_put(root, ROBOT_KEY@, robot);
    if other != ROBOT_KEY@ {
        yaml::lookup_after_other_put(root, ROBOT_KEY@, robot, other);
    }
}

proof fn section_keys_differ()
    ensures
        "rocketchat"@ != "matrix"@,
        "rocketchat"@ != "telegram"@,
        "matrix"@ != "telegram"@,
        "operator_id"@ != "rocketchat"@,
        "operator_id"@ != "matrix"@,
        "operator_id"@ != "telegram"@,
        "enabled"@ != "rocketchat"@,
        "enabled"@ != "matrix"@,
        "enabled"@ != "telegram"@,
        "enabled"@ != "operator_id"@,
        "enabled"@ != "timeout_seconds"@,
        "timeout_seconds"@ != "rocketchat"@,
        "timeout_seconds"@ != "matrix"@,
        "timeout_seconds"@ != "telegram"@,
{
    reveal_strlit("rocketchat");
    reveal_strlit("matrix");
    reveal_strlit("telegram");
    reveal_strlit("operator_id");
    reveal_strlit("enabled");
    reveal_strlit("timeout_seconds");
    assert("rocketchat"@.len() == 10);
    assert("matrix"@.len() == 6);
    assert("telegram"@.len() == 8);
    assert("operator_id"@.len() == 11);
    assert("enabled"@.len() == 7);
    assert("timeout_seconds"@.len() == 15);
}

proof fn enabled_robot_keys(timeout: u64, other: Seq<char>)
    ensures
        yaml::lookup(enabled_robot(timeout), "enabled"@) == Some(YamlTree::Flag(true)),
        other != "enabled"@ && other != "timeout_seconds"@ ==> yaml::lookup(
            enabled_robot(timeout),
            other,
        ) is None,
{
    section_keys_differ();
    let none = Seq::<(YamlTree, YamlTree)>::empty();
    let one = yaml::put(none, "enabled"@, YamlTree::Flag(true));
    yaml::lookup_after_put(none, "enabled"@, YamlTree::Flag(true));
    yaml::lookup_after_other_put(
        one,
        "timeout_seconds"@,
        YamlTree::Number(YamlNumber::Whole(timeout)),
        "enabled"@,
    );
    if other != "enabled"@ && other != "timeout_seconds"@ {
        yaml::lookup_after_other_put(none, "enabled"@, YamlTree::Flag(true), other);
        yaml::lookup_after_other_put(one, "timeout_seconds"@, YamlTree::Number(YamlNumber::Whole(timeout)), other);
    }
}

proof fn room_robot_keys(
    backend: Seq<char>,
    section: Seq<(YamlTree, YamlTree)>,
    operator_id: Option<Seq<char>>,
    other: Seq<char>,
)
    requires
        backend != "enabled"@,
        backend != "operator_id"@,
    ensures
        room_robot(backend, section, operator_id).entry(backend) == Some(
            YamlTree::Mapping(section),
        ),
        room_robot(backend, section, operator_id).entry("enabled"@) == Some(YamlTree::Flag(true)),
        other != backend && other != "enabled"@ && other != "timeout_seconds"@ && other
            != "operator_id"@ ==> room_robot(backend, section, operator_id).entry(other) is None,
{
    section_keys_differ();
    let start = enabled_robot(ROOM_TIMEOUT);
    let base = yaml::put(start, backend, YamlTree::Mapping(section));
    enabled_robot_keys(ROOM_TIMEOUT, other);
    yaml::lookup_after_put(start, backend, YamlTree::Mapping(section));
    yaml::lookup_after_other_put(start, backend, YamlTree::Mapping(section), "enabled"@);
    if other != backend {
        yaml::lookup_after_other_put(start, backend, YamlTree::Mapping(section), other);
    }
    match operator_id {
        Some(operator) => {
            yaml::lookup_after_other_put(
                base,
                "operator_id"@,
                YamlTree::Text(operator),
                backend,
            );
            yaml::lookup_after_other_put(
                base,
                "operator_id"@,
                YamlTree::Text(operator),
                "enabled"@,
            );
            if other != "operator_id"@ {
                yaml::lookup_after_other_put(
                    base,
                    "operator_id"@,
                    YamlTree::Text(operator),
                    other,
                );
            }
        },
        None => {},
    }
}

/// A config that was set up for Rocket.Chat or for Matrix is detected as such,
/// and enables the robot.
pub proof fn room_setup_is_detected(
    config: YamlTree,
    rocketchat: Seq<(YamlTree, YamlTree)>,
    matrix: Seq<(YamlTree, YamlTree)>,
    operator_id: Option<Seq<char>>,
)
    ensures
        ({
            let after = with_robot(
                config,
                room_robot("rocketchat"@, rocketchat, operator_id),
            );
            backend_of(after) == Backend::RocketChat && enabled_in(after)
        }),
        ({
            let after = with_robot(
                config,
                room_robot("matrix"@, matrix, operator_id),
            );
            backend_of(after) == Backend::Matrix && enabled_in(after)
        }),
{
    section_keys_differ();
    let first = room_robot("rocketchat"@, rocketchat, operator_id);
    let second = room_robot("matrix"@, matrix, operator_id);
    setup_replaces_only_the_robot(config, first, ROBOT_KEY@);
    setup_replaces_only_the_robot(config, second, ROBOT_KEY@);
    room_robot_keys("rocketchat"@, rocketchat, operator_id, "matrix"@);
    room_robot_keys("matrix"@, matrix, operator_id, "rocketchat"@);
    yaml::lookup_after_put(config.entries(), ROBOT_KEY@, first);
    yaml::lookup_after_put(config.entries(), ROBOT_KEY@, second);
}

/// A config that was set up for Telegram enables the robot, and is detected as
/// one for Telegram exactly if the token was put into it.
pub proof fn telegram_setup_is_detected(
    config: YamlTree,
    timeout: u64,
    bot_token: Option<Seq<char>>,
)
    ensures
        ({
            let after = with_robot(config, telegram_robot(timeout, bot_token));
            &&& enabled_in(after)
            &&& backend_of(after) == (if bot_token is Some {
                Backend::Telegram
            } else {
                Backend::Unset
            })
            &&& robot_text(after, "telegram"@, "bot_token"@) == bot_token
        }),
{
    section_keys_differ();
    let robot = telegram_robot(timeout, bot_token);
    setup_replaces_only_the_robot(config, robot, ROBOT_KEY@);
    yaml::lookup_after_put(config.entries(), ROBOT_KEY@, robot);
    enabled_robot_keys(timeout, "telegram"@);
    enabled_robot_keys(timeout, "matrix"@);
    enabled_robot_keys(timeout, "rocketchat"@);
    match bot_token {
        Some(token) => {
            let start = enabled_robot(timeout);
            let none = Seq::<(YamlTree, YamlTree)>::empty();
            let inner = YamlTree::Mapping(
                yaml::put(none, "bot_token"@, YamlTree::Text(token)),
            );
            yaml::lookup_after_put(none, "bot_token"@, YamlTree::Text(token));
            yaml::lookup_after_put(start, "telegram"@, inner);
            yaml::lookup_after_other_put(start, "telegram"@, inner, "enabled"@);
            yaml::lookup_after_other_put(start, "telegram"@, inner, "matrix"@);
            yaml::lookup_after_other_put(start, "telegram"@, inner, "rocketchat"@);
        },
        None => {},
    }
}

/// The value of an entry of a mapping under a key that no earlier entry has.
proof fn entry_at(entries: Seq<(YamlTree, YamlTree)>, i: int, key: Seq<char>)
    requires
        0 <= i < entries.len(),
        entries[i].0 == YamlTree::Text(key),
        forall|j: int| 0 <= j < i ==> (#[trigger] entries[j]).0 != YamlTree::Text(key),
    ensures
        yaml::lookup(entries, key) == Some(entries[i].1),
{
    yaml::slot_is_first(entries, key, i);
}

proof fn field_keys_differ()
    ensures
        "server_url"@ != "bot_user_id"@,
        "server_url"@ != "room_id"@,
        "server_url"@ != "auth_token"@,
        "bot_user_id"@ != "room_id"@,
        "bot_user_id"@ != "auth_token"@,
        "room_id"@ != "auth_token"@,
        "homeserver_url"@ != "room_id"@,
        "timeout_seconds"@ != "operator_id"@,
{
    reveal_strlit("server_url");
    reveal_strlit("bot_user_id");
    reveal_strlit("room_id");
    reveal_strlit("auth_token");
    reveal_strlit("homeserver_url");
    reveal_strlit("timeout_seconds");
    reveal_strlit("operator_id");
    assert("server_url"@[0] == 's');
    assert("auth_token"@[0] == 'a');
    assert("bot_user_id"@.len() == 11);
    assert("room_id"@.len() == 7);
    assert("homeserver_url"@.len() == 14);
    assert("server_url"@.len() == 10);
    assert("auth_token"@.len() == 10);
    assert("timeout_seconds"@.len() == 15);
    assert("operator_id"@.len() == 11);
}

/// An entry with a string key.
pub open spec fn under(key: Seq<char>, value: YamlTree) -> (YamlTree, YamlTree) {
    (YamlTree::Text(key), value)
}

proof fn robot_begins(timeout: u64)
    ensures
        enabled_robot(timeout) == seq![
            under("enabled"@, YamlTree::Flag(true)),
            under("timeout_seconds"@, YamlTree::Number(YamlNumber::Whole(timeout))),
        ],
{
    section_keys_differ();
    let none = Seq::<(YamlTree, YamlTree)>::empty();
    let one = seq![under("enabled"@, YamlTree::Flag(true))];
    yaml::new_key_is_put_last(none, "enabled"@, YamlTree::Flag(true));
    assert(yaml::put(none, "enabled"@, YamlTree::Flag(true)) =~= one);
    yaml::new_key_is_put_last(
        one,
        "timeout_seconds"@,
        YamlTree::Number(YamlNumber::Whole(timeout)),
    );
    assert(enabled_robot(timeout) =~= seq![
        under("enabled"@, YamlTree::Flag(true)),
        under("timeout_seconds"@, YamlTree::Number(YamlNumber::Whole(timeout))),
    ]);
}

/// A setup for Telegram writes into the robot's section of any config that the robot is
/// enabled, exactly the time limit that was given, and the token if there is one, and
/// nothing else; what is read there again is what was given.
pub proof fn telegram_setup_keeps_all(
    config: YamlTree,
    timeout: u64,
    bot_token: Option<&str>,
    robot: Yaml,
)
    requires
        call_ensures(build_telegram_robot, (timeout, bot_token), robot),
    ensures
        ({
            let after = with_robot(config, robot.tree());
            let section = after.entry("RObot"@)->0;
            &&& after.entry("RObot"@) is Some
            &&& section.entry("enabled"@) == Some(YamlTree::Flag(true))
            &&& section.entry("timeout_seconds"@) == Some(
                YamlTree::Number(YamlNumber::Whole(timeout)),
            )
            &&& bot_token matches Some(token) ==> section.entries() == seq![
                under("enabled"@, YamlTree::Flag(true)),
                under("timeout_seconds"@, YamlTree::Number(YamlNumber::Whole(timeout))),
                under(
                    "telegram"@,
                    YamlTree::Mapping(seq![under("bot_token"@, YamlTree::Text(token@))]),
                ),
            ]
            &&& bot_token is None ==> section.entries() == seq![
                under("enabled"@, YamlTree::Flag(true)),
                under("timeout_seconds"@, YamlTree::Number(YamlNumber::Whole(timeout))),
            ]
        }),
{
    section_keys_differ();
    robot_begins(timeout);
    let tree = telegram_robot(timeout, lists::chars_in(bot_token));
    yaml::lookup_after_put(config.entries(), "RObot"@, tree);
    let start = enabled_robot(timeout);
    let none = Seq::<(YamlTree, YamlTree)>::empty();
    match bot_token {
        Some(token) => {
            let words = YamlTree::Text(token@);
            yaml::new_key_is_put_last(none, "bot_token"@, words);
            assert(yaml::put(none, "bot_token"@, words) =~= seq![under("bot_token"@, words)]);
            let inner = YamlTree::Mapping(seq![under("bot_token"@, words)]);
            yaml::new_key_is_put_last(start, "telegram"@, inner);
            assert(yaml::put(start, "telegram"@, inner) =~= seq![
                under("enabled"@, YamlTree::Flag(true)),
                under("timeout_seconds"@, YamlTree::Number(YamlNumber::Whole(timeout))),
                under("telegram"@, inner),
            ]);
        },
        None => {},
    }
    entry_at(tree.entries(), 0, "enabled"@);
    entry_at(tree.entries(), 1, "timeout_seconds"@);
}

/// The entries of the robot's section for a chat room: it is enabled, has a time limit of
/// three hundred seconds, the section of its backend, and the operator if there is one.
pub open spec fn room_entries_listed(
    backend: Seq<char>,
    section: Seq<(YamlTree, YamlTree)>,
    operator_id: Option<&str>,
) -> Seq<(YamlTree, YamlTree)> {
    let base = seq![
        under("enabled"@, YamlTree::Flag(true)),
        under("timeout_seconds"@, YamlTree::Number(YamlNumber::Whole(300))),
        under(backend, YamlTree::Mapping(section)),
    ];
    match operator_id {
        Some(operator) => base.push(under("operator_id"@, YamlTree::Text(operator@))),
        None => base,
    }
}

proof fn room_robot_is_listed(
    backend: Seq<char>,
    section: Seq<(YamlTree, YamlTree)>,
    operator_id: Option<&str>,
)
    requires
        backend == "rocketchat"@ || backend == "matrix"@,
    ensures
        room_robot(backend, section, lists::chars_in(operator_id)) == YamlTree::Mapping(
            room_entries_listed(backend, section, operator_id),
        ),
{
    section_keys_differ();
    field_keys_differ();
    robot_begins(300);
    let start = enabled_robot(300);
    let inner = YamlTree::Mapping(section);
    let base = start.push(under(backend, inner));
    yaml::new_key_is_put_last(start, backend, inner);
    assert(base =~= seq![
        under("enabled"@, YamlTree::Flag(true)),
        under("timeout_seconds"@, YamlTree::Number(YamlNumber::Whole(300))),
        under(backend, inner),
    ]);
    match operator_id {
        Some(operator) => yaml::new_key_is_put_last(
            base,
            "operator_id"@,
            YamlTree::Text(operator@),
        ),
        None => {},
    }
}

/// A setup for Rocket.Chat writes into the robot's section of any config exactly this:
/// that the robot is enabled, a time limit of three hundred seconds, the server, the bot,
/// the room and, if it is kept there, the token, and the operator if there is one.
pub proof fn rocketchat_setup_keeps_all(
    config: YamlTree,
    server_url: &str,
    bot_user_id: &str,
    room_id: &str,
    operator_id: Option<&str>,
    auth_token: Option<&str>,
    robot: Yaml,
)
    requires
        call_ensures(
            build_rocketchat_robot,
            (server_url, bot_user_id, room_id, operator_id, auth_token),
            robot,
        ),
    ensures
        ({
            let after = with_robot(config, robot.tree());
            let known = seq![
                under("server_url"@, YamlTree::Text(server_url@)),
                under("bot_user_id"@, YamlTree::Text(bot_user_id@)),
                under("room_id"@, YamlTree::Text(room_id@)),
            ];
            let section = match auth_token {
                Some(token) => known.push(under("auth_token"@, YamlTree::Text(token@))),
                None => known,
            };
            &&& after.entry("RObot"@) == Some(
                YamlTree::Mapping(room_entries_listed("rocketchat"@, section, operator_id)),
            )
            &&& robot_text(after, "rocketchat"@, "server_url"@) == Some(server_url@)
            &&& robot_text(after, "rocketchat"@, "bot_user_id"@) == Some(bot_user_id@)
            &&& robot_text(after, "rocketchat"@, "room_id"@) == Some(room_id@)
            &&& auth_token matches Some(token) ==> robot_text(
                after,
                "rocketchat"@,
                "auth_token"@,
            ) == Some(token@)
        }),
{
    section_keys_differ();
    field_keys_differ();
    let none = Seq::<(YamlTree, YamlTree)>::empty();
    let one = seq![under("server_url"@, YamlTree::Text(server_url@))];
    let two = one.push(under("bot_user_id"@, YamlTree::Text(bot_user_id@)));
    let three = two.push(under("room_id"@, YamlTree::Text(room_id@)));
    yaml::new_key_is_put_last(none, "server_url"@, YamlTree::Text(server_url@));
    assert(yaml::put(none, "server_url"@, YamlTree::Text(server_url@)) =~= one);
    yaml::new_key_is_put_last(one, "bot_user_id"@, YamlTree::Text(bot_user_id@));
    yaml::new_key_is_put_last(two, "room_id"@, YamlTree::Text(room_id@));
    let section = match auth_token {
        Some(token) => three.push(under("auth_token"@, YamlTree::Text(token@))),
        None => three,
    };
    match auth_token {
        Some(token) => yaml::new_key_is_put_last(three, "auth_token"@, YamlTree::Text(token@)),
        None => {},
    }
    assert(rocketchat_section(
        server_url@,
        bot_user_id@,
        room_id@,
        lists::chars_in(auth_token),
    ) == section);
    assert(three =~= seq![
        under("server_url"@, YamlTree::Text(server_url@)),
        under("bot_user_id"@, YamlTree::Text(bot_user_id@)),
        under("room_id"@, YamlTree::Text(room_id@)),
    ]);
    room_robot_is_listed("rocketchat"@, section, operator_id);
    yaml::lookup_after_put(config.entries(), "RObot"@, robot.tree());
    entry_at(room_entries_listed("rocketchat"@, section, operator_id), 2, "rocketchat"@);
    entry_at(section, 0, "server_url"@);
    entry_at(section, 1, "bot_user_id"@);
    entry_at(section, 2, "room_id"@);
    if auth_token is Some {
        entry_at(section, 3, "auth_token"@);
    }
}

/// A setup for Matrix writes into the robot's section of any config exactly this: that the
/// robot is enabled, a time limit of three hundred seconds, the homeserver and the room,
/// and the operator if there is one. It writes no token.
pub proof fn matrix_setup_keeps_all(
    config: YamlTree,
    homeserver_url: &str,
    room_id: &str,
    operator_id: Option<&str>,
    robot: Yaml,
)
    requires
        call_ensures(build_matrix_robot, (homeserver_url, room_id, operator_id), robot),
    ensures
        ({
            let after = with_robot(config, robot.tree());
            let section = seq![
                under("homeserver_url"@, YamlTree::Text(homeserver_url@)),
                under("room_id"@, YamlTree::Text(room_id@)),
            ];
            &&& after.entry("RObot"@) == Some(
                YamlTree::Mapping(room_entries_listed("matrix"@, section, operator_id)),
            )
            &&& robot_text(after, "matrix"@, "homeserver_url"@) == Some(homeserver_url@)
            &&& robot_text(after, "matrix"@, "room_id"@) == Some(room_id@)
        }),
{
    section_keys_differ();
    field_keys_differ();
    let none = Seq::<(YamlTree, YamlTree)>::empty();
    let one = seq![under("homeserver_url"@, YamlTree::Text(homeserver_url@))];
    let section = one.push(under("room_id"@, YamlTree::Text(room_id@)));
    yaml::new_key_is_put_last(none, "homeserver_url"@, YamlTree::Text(homeserver_url@));
    assert(yaml::put(none, "homeserver_url"@, YamlTree::Text(homeserver_url@)) =~= one);
    yaml::new_key_is_put_last(one, "room_id"@, YamlTree::Text(room_id@));
    assert(matrix_section(homeserver_url@, room_id@) == section);
    assert(section =~= seq![
        under("homeserver_url"@, YamlTree::Text(homeserver_url@)),
        under("room_id"@, YamlTree::Text(room_id@)),
    ]);
    room_robot_is_listed("matrix"@, section, operator_id);
    yaml::lookup_after_put(config.entries(), "RObot"@, robot.tree());
    entry_at(room_entries_listed("matrix"@, section, operator_id), 2, "matrix"@);
    entry_at(section, 0, "homeserver_url"@);
    entry_at(section, 1, "room_id"@);
}

/// The backend of a config is the first of Rocket.Chat, Matrix and Telegram that has an
/// entry in the section `RObot`, or in `robot` where there is no `RObot`; and none else.
/// The robot is enabled exactly if `RObot` says so.
pub proof fn sections_decide_the_backend(config: YamlTree, robot: YamlTree, r: Backend, on: bool, read: Yaml)
    requires
        read.tree() == config,
        call_ensures(backend_in, (&read,), r),
        call_ensures(is_enabled_in, (&read,), on),
    ensures
        config.entry("RObot"@) == Some(robot) || (config.entry("RObot"@) is None && config.entry(
            "robot"@,
        ) == Some(robot)) ==> {
            &&& r == Backend::RocketChat <==> robot.entry("rocketchat"@) is Some
            &&& r == Backend::Matrix <==> robot.entry("rocketchat"@) is None && robot.entry(
                "matrix"@,
            ) is Some
            &&& r == Backend::Telegram <==> robot.entry("rocketchat"@) is None && robot.entry(
                "matrix"@,
            ) is None && robot.entry("telegram"@) is Some
        },
        config.entry("RObot"@) is None && config.entry("robot"@) is None ==> r == Backend::Unset,
        on <==> config.entry("RObot"@) is Some && config.entry("RObot"@)->0.entry("enabled"@) is Some
            && config.entry("RObot"@)->0.entry("enabled"@)->0.flag() == Some(true),
{
}

/// The Telegram token and API URL are those in the robot's Telegram section of a config
/// file that can be read, and none are read from any other.
pub proof fn telegram_fields_are_read(
    content: Option<&str>,
    config: YamlTree,
    robot: YamlTree,
    telegram: YamlTree,
    words: Seq<char>,
    token: Option<String>,
    url: Option<String>,
)
    requires
        call_ensures(load_config_bot_token_from, (content,), token),
        call_ensures(load_config_api_url_from, (content,), url),
    ensures
        content is None ==> token is None && url is None,
        content is Some && yaml::yaml_parsed(content->0@) is None ==> token is None && url is None,
        content is Some && yaml::yaml_parsed(content->0@) == Some(config) && (config.entry(
            "RObot"@,
        ) == Some(robot) || config.entry("RObot"@) is None && config.entry("robot"@) == Some(robot))
            && robot.entry("telegram"@) == Some(telegram) ==> {
            &&& telegram.entry("bot_token"@) == Some(YamlTree::Text(words)) ==> token is Some
                && token->0@ == words
            &&& telegram.entry("bot_token"@) is None ==> token is None
            &&& telegram.entry("api_url"@) == Some(YamlTree::Text(words)) ==> url is Some && url->0@
                == words
            &&& telegram.entry("api_url"@) is None ==> url is None
        },
        content is Some && yaml::yaml_parsed(content->0@) == Some(config) && (config.entry(
            "RObot"@,
        ) == Some(robot) || config.entry("RObot"@) is None && config.entry("robot"@) == Some(robot))
            && robot.entry("telegram"@) is None ==> token is None && url is None,
{
}

/// A token goes into the section `RObot`, unless only `robot` is there, and under the keys
/// that are given; that section is a mapping with the token in it then.
pub proof fn tokens_go_into_the_robot(
    config: YamlTree,
    section: Seq<char>,
    field: Seq<char>,
    token: Seq<char>,
)
    ensures
        ({
            let after = with_token(config, section, field, token);
            let only_other = yaml::lookup(config.entries(), "RObot"@) is None && yaml::lookup(
                config.entries(),
                "robot"@,
            ) is Some;
            let robot = yaml::lookup(
                after.entries(),
                if only_other {
                    "robot"@
                } else {
                    "RObot"@
                },
            );
            &&& robot is Some
            &&& robot->0.entry(section) is Some
            &&& robot->0.entry(section)->0.entry(field) == Some(YamlTree::Text(token))
        }),
{
    let root = config.entries();
    let key = robot_key_in(root);
    let robot = inner_entries(root, key);
    let inner = inner_entries(robot, section);
    let new_inner = yaml::put(inner, field, YamlTree::Text(token));
    let new_robot = yaml::put(robot, section, YamlTree::Mapping(new_inner));
    yaml::lookup_after_put(inner, field, YamlTree::Text(token));
    yaml::lookup_after_put(robot, section, YamlTree::Mapping(new_inner));
    yaml::lookup_after_put(root, key, YamlTree::Mapping(new_robot));
}

/// A config that cannot be edited is told by what failed.
pub proof fn config_errors_in_words(file: &str, unparsed: String, unprintable: String)
    requires
        call_ensures(ConfigError::message, (ConfigError::Unparsed, file), unparsed),
        call_ensures(ConfigError::message, (ConfigError::Unprintable, file), unprintable),
    ensures
        unparsed@ == "Failed to parse "@ + file@,
        unprintable@ == "Failed to serialize config"@,
{
}

/// What is read from a config file is what is read from the document in it. A file that
/// cannot be read, or holds no document, has no backend and does not enable the robot.
pub proof fn config_files_are_read(
    content: Option<&str>,
    config: &Yaml,
    backend: Backend,
    on: bool,
    of_document: Backend,
    on_in_document: bool,
)
    requires
        call_ensures(detect_configured_backend_from, (content,), backend),
        call_ensures(is_robot_enabled, (content,), on),
        call_ensures(backend_in, (config,), of_document),
        call_ensures(is_enabled_in, (config,), on_in_document),
    ensures
        content is None ==> backend == Backend::Unset && !on,
        content is Some && yaml::yaml_parsed(content->0@) is None ==> backend == Backend::Unset
            && !on,
        content is Some && yaml::yaml_parsed(content->0@) == Some(config.tree()) ==> backend
            == of_document && on == on_in_document,
{
}

/// A setup that was saved is read again, where the file was absent or held a plain
/// document: the robot's section is the one that was built, and every other key is as it
/// was. Without a file there is no other key. A file that holds no document is an error.
pub proof fn saved_setups_are_read_back(
    existing: Option<&str>,
    timeout: u64,
    bot_token: Option<&str>,
    server_url: &str,
    bot_user_id: &str,
    room_id: &str,
    operator_id: Option<&str>,
    auth_token: Option<&str>,
    other: Seq<char>,
    telegram: Yaml,
    rocketchat: Yaml,
    matrix: Yaml,
    t: Result<String, ConfigError>,
    r: Result<String, ConfigError>,
    m: Result<String, ConfigError>,
)
    requires
        call_ensures(build_telegram_robot, (timeout, bot_token), telegram),
        call_ensures(
            build_rocketchat_robot,
            (server_url, bot_user_id, room_id, operator_id, auth_token),
            rocketchat,
        ),
        call_ensures(build_matrix_robot, (server_url, room_id, operator_id), matrix),
        call_ensures(save_robot_config, (existing, timeout, bot_token), t),
        call_ensures(
            save_rocketchat_config,
            (existing, server_url, bot_user_id, room_id, operator_id, auth_token),
            r,
        ),
        call_ensures(save_matrix_config, (existing, server_url, room_id, operator_id), m),
    ensures
        existing is Some && yaml::yaml_parsed(existing->0@) is None ==> {
            &&& t == Err::<String, ConfigError>(ConfigError::Unparsed)
            &&& r == Err::<String, ConfigError>(ConfigError::Unparsed)
            &&& m == Err::<String, ConfigError>(ConfigError::Unparsed)
        },
        starts_plain(lists::chars_in(existing)) ==> {
            &&& is_saved(t, existing, telegram.tree(), other)
            &&& is_saved(r, existing, rocketchat.tree(), other)
            &&& is_saved(m, existing, matrix.tree(), other)
        },
        starts_plain(None),
{
    robot_is_saved(t, existing, telegram.tree(), other);
    robot_is_saved(r, existing, rocketchat.tree(), other);
    robot_is_saved(m, existing, matrix.tree(), other);
}

/// Whether a result is content from which a robot's section is read again, with another
/// key as it was in the file, or missing where there was none.
pub open spec fn is_saved(
    result: Result<String, ConfigError>,
    existing: Option<&str>,
    robot: YamlTree,
    other: Seq<char>,
) -> bool {
    let read = yaml::yaml_parsed(result->Ok_0@);
    &&& result is Ok
    &&& read is Some
    &&& read->0.entry("RObot"@) == Some(robot)
    &&& other != "RObot"@ && existing is Some ==> read->0.entry(other) == yaml::lookup(
        yaml::yaml_parsed(existing->0@)->0.entries(),
        other,
    )
    &&& other != "RObot"@ && existing is None ==> read->0.entry(other) is None
    &&& existing is None ==> read->0 == YamlTree::Mapping(seq![under("RObot"@, robot)])
}

proof fn robot_is_saved(
    result: Result<String, ConfigError>,
    existing: Option<&str>,
    robot: YamlTree,
    other: Seq<char>,
)
    ensures
        is_read_as(result, document_with_robot(lists::chars_in(existing), robot)) ==> is_saved(
            result,
            existing,
            robot,
            other,
        ),
{
    let base = base_document(lists::chars_in(existing));
    let none = Seq::<(YamlTree, YamlTree)>::empty();
    if base is Some {
        let root = base->0.entries();
        yaml::lookup_after_put(root, "RObot"@, robot);
        if other != "RObot"@ {
            yaml::lookup_after_other_put(root, "RObot"@, robot, other);
        }
    }
    yaml::new_key_is_put_last(none, "RObot"@, robot);
    assert(none.push(under("RObot"@, robot)) =~= seq![under("RObot"@, robot)]);
}

} // verus!
