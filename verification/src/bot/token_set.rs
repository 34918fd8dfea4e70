//! The command that stores or overwrites a token.

use super::config::{self, ConfigError};
use super::console::{self, put_success, put_warning};
use super::keychain;
use super::tokens::{self, Backend};
use crate::{lists, text};
use vstd::prelude::*;

verus! {

/// The backend that a token is for: the one that is named, else the one that is
/// configured, else Telegram. `None` where the name is unknown.
pub open spec fn token_backend(named: Option<Seq<char>>, configured: Backend) -> Option<Backend> {
    match named {
        Some(name) => tokens::backend_named(name),
        None => if configured == Backend::Unset {
            Some(Backend::Telegram)
        } else {
            Some(configured)
        },
    }
}

/// A token that is being stored.
#[derive(Debug)]
pub struct TokenSetting {
    /// Whether to print in colors.
    pub use_colors: bool,
    /// The backend that the token is for.
    pub backend: Backend,
    /// Whether a config file was named to put the token into.
    pub has_config: bool,
}

/// What to do after the keychain was tried.
#[derive(Debug)]
pub struct KeychainOutcome {
    /// What to print.
    pub printed: String,
    /// Whether the keychain has taken the token.
    pub keychain_ok: bool,
    /// Whether to write the token to the config file.
    pub write_config: bool,
}

/// The section and the field of a config that a backend's token goes into.
pub open spec fn token_place(backend: Backend) -> (Seq<char>, Seq<char>) {
    match backend {
        Backend::RocketChat => ("rocketchat"@, "auth_token"@),
        Backend::Matrix => ("matrix"@, "access_token"@),
        _ => ("telegram"@, "bot_token"@),
    }
}

impl TokenSetting {
    /// Starts to store a token, given the name of a backend if there is one and
    /// the backend that is configured. An unknown name is an error.
    pub fn begin(
        named: Option<&str>,
        configured: Backend,
        has_config: bool,
        use_colors: bool,
    ) -> (r: Result<TokenSetting, String>)
        ensures
            match r {
                Ok(setting) => token_backend(lists::chars_in(named), configured) == Some(
                    setting.backend,
                ) && setting.backend != Backend::Unset && setting.has_config == has_config
                    && setting.use_colors == use_colors,
                Err(words) => {
                    &&& token_backend(lists::chars_in(named), configured) is None
                    &&& named is Some
                    &&& words@ == "Unknown backend "@ + tokens::debug_text(named->0@) + ". "@
                        + "Supported"@ + ": telegram, rocketchat, matrix"@
                },
            },
    {
        let backend: Backend = match named {
            Some(name) => match tokens::backend_by_name(name) {
                Some(known) => known,
                None => {
                    return Err(tokens::unknown_backend(name, "Supported"));
                },
            },
            None => {
                if configured == Backend::Unset {
                    Backend::Telegram
                } else {
                    configured
                }
            },
        };
        Ok(TokenSetting { use_colors, backend, has_config })
    }

    /// What to do after the keychain was tried: the token goes into the config
    /// file if one was named, or if the keychain has not taken it.
    pub fn after_keychain(&self, stored: Result<(), String>) -> (r: KeychainOutcome)
        ensures
            r.keychain_ok == stored is Ok,
            r.write_config == (self.has_config || stored is Err),
            r.printed@ == (match stored {
                Ok(_) => ""@ + console::success(
                    self.use_colors,
                    "Token stored in OS keychain (ralph/"@ + keychain::entry_name(self.backend)
                        + ")"@,
                ),
                Err(reason) => ""@ + console::warning(
                    self.use_colors,
                    "Could not store token in keychain: "@ + reason@,
                ),
            }),
    {
        let mut printed = String::from_str("");
        match stored {
            Ok(_) => {
                put_success(
                    &mut printed,
                    self.use_colors,
                    &text::cat3(
                        "Token stored in OS keychain (ralph/",
                        keychain::entry_text(self.backend),
                        ")",
                    ),
                );
                KeychainOutcome { printed, keychain_ok: true, write_config: self.has_config }
            },
            Err(reason) => {
                put_warning(
                    &mut printed,
                    self.use_colors,
                    &text::cat2("Could not store token in keychain: ", &reason),
                );
                KeychainOutcome { printed, keychain_ok: false, write_config: true }
            },
        }
    }

    /// The content of the config file with the token in it.
    pub fn config_content(&self, existing: Option<&str>, token: &str) -> (r: Result<
        String,
        ConfigError,
    >)
        ensures
            config::is_token_edit(
                r,
                lists::chars_in(existing),
                token_place(self.backend).0,
                token_place(self.backend).1,
                token@,
            ),
    {
        match self.backend {
            Backend::RocketChat => config::save_rocketchat_token_config(existing, token),
            Backend::Matrix => config::save_matrix_token_config(existing, token),
            _ => config::save_bot_token_config(existing, token),
        }
    }

    /// What to print once the config file was written at a path.
    pub fn after_config(&self, keychain_ok: bool, path: &str) -> (r: String)
        ensures
            r@ == ({
                let stored = ""@ + console::success(self.use_colors, "Token stored in "@ + path@);
                if !keychain_ok && !self.has_config {
                    stored + console::warning(
                        self.use_colors,
                        "Keychain storage failed; token saved to "@ + path@ + " instead."@,
                    )
                } else {
                    stored
                }
            }),
    {
        let mut out = String::from_str("");
        put_success(&mut out, self.use_colors, &text::cat2("Token stored in ", path));
        if !keychain_ok && !self.has_config {
            put_warning(
                &mut out,
                self.use_colors,
                &text::cat3("Keychain storage failed; token saved to ", path, " instead."),
            );
        }
        out
    }
}

// ── Laws ────────────────────────────────────────────────────────────────

/// A token is stored for the backend that is named, by its own name; where none is named,
/// for the one that is configured, and where none is configured, for Telegram. Only an
/// unknown name is an error.
pub proof fn named_backend_comes_first(
    named: Option<&str>,
    configured: Backend,
    has_config: bool,
    use_colors: bool,
    r: Result<TokenSetting, String>,
)
    requires
        call_ensures(TokenSetting::begin, (named, configured, has_config, use_colors), r),
    ensures
        named is None && configured == Backend::Unset ==> r is Ok && r->Ok_0.backend
            == Backend::Telegram,
        named is None && configured != Backend::Unset ==> r is Ok && r->Ok_0.backend == configured,
        named matches Some(name) ==> {
            &&& name@ == "telegram"@ ==> r is Ok && r->Ok_0.backend == Backend::Telegram
            &&& name@ == "rocketchat"@ ==> r is Ok && r->Ok_0.backend == Backend::RocketChat
            &&& name@ == "matrix"@ ==> r is Ok && r->Ok_0.backend == Backend::Matrix
            &&& name@ != "telegram"@ && name@ != "rocketchat"@ && name@ != "matrix"@ ==> r is Err
        },
        r matches Ok(setting) ==> setting.has_config == has_config && setting.use_colors
            == use_colors,
{
    reveal_strlit("telegram");
    reveal_strlit("rocketchat");
    reveal_strlit("matrix");
    assert("rocketchat"@.len() == 10);
    assert("matrix"@.len() == 6);
    assert("telegram"@.len() == 8);
}

/// What the keychain has taken is told by the name of the backend's entry, and what it has
/// not by the reason. The token is written to a config file exactly if one was named or
/// the keychain has not taken it; that the file stands in for the keychain is told exactly
/// if none was named.
pub proof fn tokens_are_always_stored(
    setting: &TokenSetting,
    stored: Result<(), String>,
    path: &str,
    r: KeychainOutcome,
    printed: String,
)
    requires
        call_ensures(TokenSetting::after_keychain, (setting, stored), r),
        call_ensures(TokenSetting::after_config, (setting, r.keychain_ok, path), printed),
    ensures
        r.keychain_ok || r.write_config,
        r.keychain_ok <==> stored is Ok,
        r.write_config <==> setting.has_config || stored is Err,
        ({
            let c = setting.use_colors;
            &&& stored is Ok && setting.backend == Backend::RocketChat ==> r.printed@
                == console::ok_line(
                c,
                "Token stored in OS keychain (ralph/rocketchat-auth-token)"@,
            ) + "\n"@
            &&& stored is Ok && setting.backend == Backend::Matrix ==> r.printed@
                == console::ok_line(
                c,
                "Token stored in OS keychain (ralph/matrix-access-token)"@,
            ) + "\n"@
            &&& stored is Ok && setting.backend == Backend::Telegram ==> r.printed@
                == console::ok_line(
                c,
                "Token stored in OS keychain (ralph/telegram-bot-token)"@,
            ) + "\n"@
            &&& stored matches Err(reason) ==> r.printed@ == console::warn_line(
                c,
                "Could not store token in keychain: "@ + reason@,
            ) + "\n"@
            &&& setting.has_config || stored is Ok ==> printed@ == console::ok_line(
                c,
                "Token stored in "@ + path@,
            ) + "\n"@
            &&& !setting.has_config && stored is Err ==> printed@ == console::ok_line(
                c,
                "Token stored in "@ + path@,
            ) + "\n"@ + (console::warn_line(
                c,
                "Keychain storage failed; token saved to "@ + path@ + " instead."@,
            ) + "\n"@)
        }),
{
    let c = setting.use_colors;
    let start = "Token stored in OS keychain (ralph/"@;
    reveal_strlit("");
    assert(start + "rocketchat-auth-token"@ + ")"@
        =~= "Token stored in OS keychain (ralph/rocketchat-auth-token)"@) by {
        reveal_strlit("Token stored in OS keychain (ralph/");
        reveal_strlit("rocketchat-auth-token");
        reveal_strlit(")");
        reveal_strlit("Token stored in OS keychain (ralph/rocketchat-auth-token)");
    }
    assert(start + "matrix-access-token"@ + ")"@
        =~= "Token stored in OS keychain (ralph/matrix-access-token)"@) by {
        reveal_strlit("Token stored in OS keychain (ralph/");
        reveal_strlit("matrix-access-token");
        reveal_strlit(")");
        reveal_strlit("Token stored in OS keychain (ralph/matrix-access-token)");
    }
    assert(start + "telegram-bot-token"@ + ")"@
        =~= "Token stored in OS keychain (ralph/telegram-bot-token)"@) by {
        reveal_strlit("Token stored in OS keychain (ralph/");
        reveal_strlit("telegram-bot-token");
        reveal_strlit(")");
        reveal_strlit("Token stored in OS keychain (ralph/telegram-bot-token)");
    }
    let words = start + keychain::entry_name(setting.backend) + ")"@;
    assert(""@ + console::success(c, words) =~= console::success(c, words));
    match stored {
        Ok(_) => {},
        Err(reason) => {
            let sorry = "Could not store token in keychain: "@ + reason@;
            assert(""@ + console::warning(c, sorry) =~= console::warning(c, sorry));
        },
    }
    let done = "Token stored in "@ + path@;
    assert(""@ + console::success(c, done) =~= console::success(c, done));
}

/// A token that was put into a config file, where the file was absent or held a plain
/// document, is read from it again: at `auth_token` of `rocketchat`, at `access_token` of
/// `matrix` or at `bot_token` of `telegram`, as the backend has it.
pub proof fn stored_tokens_are_found(
    setting: &TokenSetting,
    existing: Option<&str>,
    token: &str,
    r: Result<String, ConfigError>,
)
    requires
        call_ensures(TokenSetting::config_content, (setting, existing, token), r),
        config::starts_plain(lists::chars_in(existing)),
    ensures
        r is Ok,
        config::document_of(Some(r->Ok_0@)) is Some,
        ({
            let read = config::document_of(Some(r->Ok_0@))->0;
            &&& setting.backend == Backend::RocketChat ==> config::robot_text(
                read,
                "rocketchat"@,
                "auth_token"@,
            ) == Some(token@)
            &&& setting.backend == Backend::Matrix ==> config::robot_text(
                read,
                "matrix"@,
                "access_token"@,
            ) == Some(token@)
            &&& setting.backend == Backend::Telegram || setting.backend == Backend::Unset
                ==> config::robot_text(read, "telegram"@, "bot_token"@) == Some(token@)
        }),
{
}

} // verus!
