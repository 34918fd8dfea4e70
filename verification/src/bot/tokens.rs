//! Which token the robot uses, and for which backend.

use crate::{lists, text};
use vstd::prelude::*;

verus! {

/// A RObot backend, or none.
#[derive(Debug, Clone, Copy, PartialEq, Eq, Structural)]
pub enum Backend {
    /// Telegram.
    Telegram,
    /// Rocket.Chat.
    RocketChat,
    /// Matrix.
    Matrix,
    /// No backend.
    Unset,
}

/// A token without blanks around it; a blank one is none.
pub open spec fn normalized(value: Option<Seq<char>>) -> Option<Seq<char>> {
    match value {
        Some(raw) if text::trimmed(raw).len() > 0 => Some(text::trimmed(raw)),
        _ => None,
    }
}

/// The token to use: that of the environment, else that of the keychain, else
/// that of the config file.
pub open spec fn resolved(
    env: Option<Seq<char>>,
    keychain: Option<Seq<char>>,
    config: Option<Seq<char>>,
) -> Option<Seq<char>> {
    match normalized(env) {
        Some(token) => Some(token),
        None => match normalized(keychain) {
            Some(token) => Some(token),
            None => normalized(config),
        },
    }
}

/// A token without blanks around it; a blank one is none.
pub fn normalize_token(value: Option<String>) -> (r: Option<String>)
    ensures
        lists::text_in(r) == normalized(lists::text_in(value)),
{
    match value {
        Some(raw) => {
            let token = text::trim(&raw);
            if token.unicode_len() == 0 {
                None
            } else {
                Some(String::from_str(token))
            }
        },
        None => None,
    }
}

/// Resolves the token from all sources (env > keychain > config).
pub fn resolve_token_from(
    env_token: Option<String>,
    keychain_token: Option<String>,
    config_token: Option<String>,
) -> (r: Option<String>)
    ensures
        lists::text_in(r) == resolved(
            lists::text_in(env_token),
            lists::text_in(keychain_token),
            lists::text_in(config_token),
        ),
{
    match normalize_token(env_token) {
        Some(token) => Some(token),
        None => match normalize_token(keychain_token) {
            Some(token) => Some(token),
            None => normalize_token(config_token),
        },
    }
}

proof fn trimmed_ends(s: Seq<char>)
    ensures
        text::trimmed(s).len() > 0 ==> !text::is_whitespace(text::trimmed(s)[0])
            && !text::is_whitespace(text::trimmed(s).last()),
{
    let front = text::strip_front(s, None);
    front_ends(s);
    back_ends(front);
}

proof fn front_ends(s: Seq<char>)
    ensures
        text::strip_front(s, None).len() > 0 ==> !text::is_whitespace(
            text::strip_front(s, None)[0],
        ),
    decreases s.len(),
{
    if s.len() > 0 && text::is_whitespace(s[0]) {
        front_ends(s.skip(1));
    }
}

proof fn back_ends(s: Seq<char>)
    ensures
        text::strip_back(s, None).len() > 0 ==> !text::is_whitespace(
            text::strip_back(s, None).last(),
        ) && text::strip_back(s, None)[0] == s[0],
    decreases s.len(),
{
    if s.len() > 0 && text::is_whitespace(s.last()) {
        back_ends(s.drop_last());
    }
}

/// A token that is used is never blank and has no blanks at its ends; a token of
/// the environment wins over all others, and one of the keychain over that of
/// the config file; and there is none only where no source has one.
pub proof fn token_priority(
    env: Option<Seq<char>>,
    keychain: Option<Seq<char>>,
    config: Option<Seq<char>>,
)
    ensures
        resolved(env, keychain, config) matches Some(token) ==> token.len() > 0
            && !text::is_whitespace(token[0]) && !text::is_whitespace(token.last()),
        normalized(env) is Some ==> resolved(env, keychain, config) == normalized(env),
        normalized(env) is None && normalized(keychain) is Some ==> resolved(env, keychain, config)
            == normalized(keychain),
        resolved(env, keychain, config) is None <==> normalized(env) is None && normalized(
            keychain,
        ) is None && normalized(config) is None,
{
    if env is Some {
        trimmed_ends(env->0);
    }
    if keychain is Some {
        trimmed_ends(keychain->0);
    }
    if config is Some {
        trimmed_ends(config->0);
    }
}

// ── Backends by name ────────────────────────────────────────────────────

/// The backend with a name.
pub open spec fn backend_named(name: Seq<char>) -> Option<Backend> {
    if name == "telegram"@ {
        Some(Backend::Telegram)
    } else if name == "rocketchat"@ {
        Some(Backend::RocketChat)
    } else if name == "matrix"@ {
        Some(Backend::Matrix)
    } else {
        None
    }
}

/// The backend with a name.
pub fn backend_by_name(name: &str) -> (r: Option<Backend>)
    ensures
        r == backend_named(name@),
{
    if text::same_text(name, "telegram") {
        Some(Backend::Telegram)
    } else if text::same_text(name, "rocketchat") {
        Some(Backend::RocketChat)
    } else if text::same_text(name, "matrix") {
        Some(Backend::Matrix)
    } else {
        None
    }
}

/// The text that `{:?}` makes of a string.
pub uninterp spec fn debug_text(s: Seq<char>) -> Seq<char>;

/// Formats a string with `{:?}`, that is with the `Debug` of `str`: in quotes, with
/// escapes. The text depends on the string alone.
#[verifier::external_body]
fn quoted(s: &str) -> (r: String)
    ensures
        r@ == debug_text(s@),
{
    format!("{:?}", s)
}

/// Why a backend name was not accepted, given the name in quotes.
pub fn unknown_backend_message(quoted_name: &str, supported: &str) -> (r: String)
    ensures
        r@ == "Unknown backend "@ + quoted_name@ + ". "@ + supported@
            + ": telegram, rocketchat, matrix"@,
{
    text::cat5(
        "Unknown backend ",
        quoted_name,
        ". ",
        supported,
        ": telegram, rocketchat, matrix",
    )
}

/// Why a backend name was not accepted by a command that names backends as
/// `supported`.
pub fn unknown_backend(name: &str, supported: &str) -> (r: String)
    ensures
        r@ == "Unknown backend "@ + debug_text(name@) + ". "@ + supported@
            + ": telegram, rocketchat, matrix"@,
{
    unknown_backend_message(&quoted(name), supported)
}

/// The token that is used is the words of the first of environment, keychain and config
/// file that has any, without the blanks around them; a source that is blank counts as
/// one without a token.
pub proof fn first_words_are_the_token(
    before: Seq<char>,
    words: Seq<char>,
    after: Seq<char>,
    other: Option<Seq<char>>,
    another: Option<Seq<char>>,
)
    requires
        text::is_blank(before),
        text::is_blank(after),
        words.len() > 0,
        !text::is_whitespace(words[0]),
        !text::is_whitespace(words.last()),
    ensures
        ({
            let token = Some(before + words + after);
            let blank = Some(before);
            &&& resolved(token, other, another) == Some(words)
            &&& resolved(None, token, another) == Some(words)
            &&& resolved(blank, token, another) == Some(words)
            &&& resolved(None, None, token) == Some(words)
            &&& resolved(blank, blank, token) == Some(words)
            &&& resolved(None, None, None) is None
            &&& resolved(blank, blank, blank) is None
        }),
{
    let none = Seq::<char>::empty();
    text::trimming_leaves_the_words(before, words, after);
    text::trimming_leaves_the_words(before, none, none);
    assert(before + none + none =~= before);
}

/// Each backend has its own name, and no other text names one.
pub proof fn three_backends_have_names(name: &str, quoted_name: &str, supported: &str, r: Option<Backend>, message: String)
    requires
        call_ensures(backend_by_name, (name,), r),
        call_ensures(unknown_backend_message, (quoted_name, supported), message),
    ensures
        r == Some(Backend::Telegram) <==> name@ == "telegram"@,
        r == Some(Backend::RocketChat) <==> name@ == "rocketchat"@,
        r == Some(Backend::Matrix) <==> name@ == "matrix"@,
        r != Some(Backend::Unset),
        message@ == "Unknown backend "@ + quoted_name@ + ". "@ + supported@
            + ": telegram, rocketchat, matrix"@,
{
    reveal_strlit("telegram");
    reveal_strlit("rocketchat");
    reveal_strlit("matrix");
    assert("rocketchat"@.len() == 10);
    assert("matrix"@.len() == 6);
    assert("telegram"@.len() == 8);
}

} // verus!
