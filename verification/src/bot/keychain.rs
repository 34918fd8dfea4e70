//! Storing a token in the OS keychain, which may refuse to overwrite one.

use super::tokens::Backend;
use crate::text;
use vstd::prelude::*;

verus! {

/// The service name of every entry.
pub const SERVICE: &'static str = "ralph";

/// The name of a backend's entry.
pub open spec fn entry_name(backend: Backend) -> Seq<char> {
    match backend {
        Backend::RocketChat => "rocketchat-auth-token"@,
        Backend::Matrix => "matrix-access-token"@,
        _ => "telegram-bot-token"@,
    }
}

/// The name of a backend's entry; Telegram's where there is no backend.
pub fn entry_text(backend: Backend) -> (r: &'static str)
    ensures
        r@ == entry_name(backend),
{
    match backend {
        Backend::RocketChat => "rocketchat-auth-token",
        Backend::Matrix => "matrix-access-token",
        _ => "telegram-bot-token",
    }
}

/// Where the storing stands.
#[derive(Debug)]
pub enum StorePhase {
    /// The entry is being opened.
    Opening,
    /// The token is being set.
    Setting,
    /// The entry is being deleted, since setting it failed for this reason.
    Deleting(String),
    /// The token is being set after the deletion.
    SettingAgain,
    /// The storing has ended.
    Over,
}

/// What the storing learns.
#[derive(Debug)]
pub enum StoreEvent {
    /// The last step was done.
    Done,
    /// The last step failed, for this reason.
    Failed(String),
}

/// What the storing does next.
#[derive(Debug)]
pub enum StoreAction {
    /// Set the token.
    SetPassword,
    /// Delete the entry.
    DeleteEntry,
    /// End well.
    Finish,
    /// End with an error.
    Fail(String),
    /// Nothing, since the storing has ended.
    Ignore,
}

/// Whether a phase and an action are the next ones of the storing: a token that
/// cannot be set is set once more after the entry was deleted.
pub open spec fn is_next_store(
    phase: StorePhase,
    event: StoreEvent,
    next: StorePhase,
    action: StoreAction,
) -> bool {
    match (phase, event) {
        (StorePhase::Opening, StoreEvent::Done) => next is Setting && action is SetPassword,
        (StorePhase::Opening, StoreEvent::Failed(_)) => next is Over && (
        action matches StoreAction::Fail(words) && words@ == "Failed to create keychain entry"@),
        (StorePhase::Setting, StoreEvent::Done) | (
            StorePhase::SettingAgain,
            StoreEvent::Done,
        ) => next is Over && action is Finish,
        (StorePhase::Setting, StoreEvent::Failed(reason)) => next == StorePhase::Deleting(reason)
            && action is DeleteEntry,
        (StorePhase::Deleting(_), StoreEvent::Done) => next is SettingAgain
            && action is SetPassword,
        (StorePhase::Deleting(reason), StoreEvent::Failed(_)) => next is Over && (
        action matches StoreAction::Fail(words) && words@ == "Failed to store token in keychain: "@
            + reason@),
        (StorePhase::SettingAgain, StoreEvent::Failed(_)) => next is Over && (
        action matches StoreAction::Fail(words) && words@
            == "Failed to store token in keychain after deleting existing entry"@),
        (StorePhase::Over, _) => next is Over && action is Ignore,
    }
}

/// The next step of storing a token.
pub fn store_step(phase: StorePhase, event: StoreEvent) -> (r: (StorePhase, StoreAction))
    ensures
        is_next_store(phase, event, r.0, r.1),
{
    match (phase, event) {
        (StorePhase::Opening, StoreEvent::Done) => (StorePhase::Setting, StoreAction::SetPassword),
        (StorePhase::Opening, StoreEvent::Failed(_)) => (
            StorePhase::Over,
            StoreAction::Fail(String::from_str("Failed to create keychain entry")),
        ),
        (StorePhase::Setting, StoreEvent::Done) | (
            StorePhase::SettingAgain,
            StoreEvent::Done,
        ) => (StorePhase::Over, StoreAction::Finish),
        (StorePhase::Setting, StoreEvent::Failed(reason)) => (
            StorePhase::Deleting(reason),
            StoreAction::DeleteEntry,
        ),
        (StorePhase::Deleting(_), StoreEvent::Done) => (
            StorePhase::SettingAgain,
            StoreAction::SetPassword,
        ),
        (StorePhase::Deleting(reason), StoreEvent::Failed(_)) => (
            StorePhase::Over,
            StoreAction::Fail(text::cat2("Failed to store token in keychain: ", &reason)),
        ),
        (StorePhase::SettingAgain, StoreEvent::Failed(_)) => (
            StorePhase::Over,
            StoreAction::Fail(
                String::from_str(
                    "Failed to store token in keychain after deleting existing entry",
                ),
            ),
        ),
        (StorePhase::Over, _) => (StorePhase::Over, StoreAction::Ignore),
    }
}

// ── Laws ────────────────────────────────────────────────────────────────

/// A whole run of storing a token, from the opened entry on: it ends well if setting the
/// token works, or if it fails, the entry can be deleted and setting it works then. Where
/// the entry cannot be deleted, the error is the reason why the token was not set at
/// first; where setting it fails again, the error says so. After its end nothing happens.
pub proof fn tokens_are_tried_twice(
    reason: String,
    other: String,
    opened: (StorePhase, StoreAction),
    unopened: (StorePhase, StoreAction),
    set: (StorePhase, StoreAction),
    refused: (StorePhase, StoreAction),
    deleted: (StorePhase, StoreAction),
    kept: (StorePhase, StoreAction),
    set_again: (StorePhase, StoreAction),
    refused_again: (StorePhase, StoreAction),
    later: (StorePhase, StoreAction),
)
    requires
        call_ensures(store_step, (StorePhase::Opening, StoreEvent::Done), opened),
        call_ensures(store_step, (StorePhase::Opening, StoreEvent::Failed(other)), unopened),
        call_ensures(store_step, (opened.0, StoreEvent::Done), set),
        call_ensures(store_step, (opened.0, StoreEvent::Failed(reason)), refused),
        call_ensures(store_step, (refused.0, StoreEvent::Done), deleted),
        call_ensures(store_step, (refused.0, StoreEvent::Failed(other)), kept),
        call_ensures(store_step, (deleted.0, StoreEvent::Done), set_again),
        call_ensures(store_step, (deleted.0, StoreEvent::Failed(other)), refused_again),
        call_ensures(store_step, (set.0, StoreEvent::Done), later),
    ensures
        opened.1 is SetPassword,
        unopened.1 matches StoreAction::Fail(words) && words@ == "Failed to create keychain entry"@,
        set.1 is Finish,
        refused.1 is DeleteEntry,
        deleted.1 is SetPassword,
        kept.1 matches StoreAction::Fail(words) && words@ == "Failed to store token in keychain: "@
            + reason@,
        set_again.1 is Finish,
        refused_again.1 matches StoreAction::Fail(words) && words@
            == "Failed to store token in keychain after deleting existing entry"@,
        later.1 is Ignore,
{
}

/// Each backend has an entry of its own.
pub proof fn entries_are_named(backend: Backend, r: &'static str)
    requires
        call_ensures(entry_text, (backend,), r),
    ensures
        r@ == "rocketchat-auth-token"@ <==> backend == Backend::RocketChat,
        r@ == "matrix-access-token"@ <==> backend == Backend::Matrix,
        r@ == "telegram-bot-token"@ <==> backend == Backend::Telegram || backend == Backend::Unset,
{
    reveal_strlit("rocketchat-auth-token");
    reveal_strlit("matrix-access-token");
    reveal_strlit("telegram-bot-token");
    assert("rocketchat-auth-token"@[0] == 'r');
    assert("matrix-access-token"@[0] == 'm');
    assert("telegram-bot-token"@[0] == 't');
}

} // verus!
