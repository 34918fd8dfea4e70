//! The Telegram Bot API: what is asked and what the answers mean.

use crate::json::{self, Fields, Json, JsonTree};
use crate::text;
use vstd::prelude::*;

verus! {

/// The start of every API URL.
pub const API_BASE: &'static str = "https://api.telegram.org/bot";

/// The longest wait of one poll, in seconds.
pub const MAX_POLL_SECS: u64 = 30;

/// How much longer than the poll itself a request may take, in seconds.
pub const POLL_SLACK_SECS: u64 = 10;

/// Bot info returned by getMe.
#[derive(Debug)]
pub struct BotInfo {
    /// The bot's first name.
    pub first_name: String,
    /// The bot's username.
    pub username: String,
}

/// Update info from getUpdates.
#[derive(Debug)]
pub struct UpdateInfo {
    /// The chat that a message was sent in.
    pub chat_id: i64,
    /// The name of its sender.
    pub from_name: String,
}

/// The URL of an API method.
pub fn api_url(token: &str, method: &str) -> (r: String)
    ensures
        r@ == API_BASE@ + token@ + "/"@ + method@,
{
    text::cat4(API_BASE, token, "/", method)
}

// ── Answers ─────────────────────────────────────────────────────────────

/// The description of an error in an answer.
pub open spec fn description(body: JsonTree) -> Seq<char> {
    match body.text_entry("description"@) {
        Some(words) => words,
        None => "Unknown error"@,
    }
}

/// Whether an answer says that all is well.
pub open spec fn is_ok(body: JsonTree) -> bool {
    body.entry("ok"@) == Some(JsonTree::Bool(true))
}

fn description_text(body: &Json) -> (r: String)
    ensures
        r@ == description(body.tree()),
{
    match body.text_at("description") {
        Some(words) => String::from_str(words),
        None => String::from_str("Unknown error"),
    }
}

fn text_or(body: &Json, key: &str, otherwise: &str) -> (r: String)
    ensures
        r@ == (match body.tree().text_entry(key@) {
            Some(words) => words,
            None => otherwise@,
        }),
{
    match body.text_at(key) {
        Some(words) => String::from_str(words),
        None => String::from_str(otherwise),
    }
}

/// The document in the body of an answer.
pub fn parse_answer(body: &str) -> (r: Result<Json, String>)
    ensures
        match r {
            Ok(document) => json::json_parsed(body@) == Some(document.tree()),
            Err(words) => json::json_parsed(body@) is None && words@
                == "Failed to parse Telegram API response"@,
        },
{
    match json::parse(body) {
        Some(document) => Ok(document),
        None => Err(String::from_str("Failed to parse Telegram API response")),
    }
}

/// What the answer to getMe says of the bot, by the status of the answer and its
/// body.
pub fn telegram_get_me(success: bool, body: &Json) -> (r: Result<BotInfo, String>)
    ensures
        match r {
            Ok(info) => {
                &&& success
                &&& is_ok(body.tree())
                &&& body.tree().entry("result"@) matches Some(bot) && info.first_name@ == (
                match bot.text_entry("first_name"@) {
                    Some(name) => name,
                    None => "Unknown"@,
                }) && info.username@ == (match bot.text_entry("username"@) {
                    Some(name) => name,
                    None => "unknown_bot"@,
                })
            },
            Err(words) => if !success || !is_ok(body.tree()) {
                words@ == "Telegram API error: "@ + description(body.tree())
            } else {
                body.tree().entry("result"@) is None && words@
                    == "Missing 'result' in Telegram response"@
            },
        },
{
    if !success || !body.true_at("ok") {
        return Err(text::cat2("Telegram API error: ", &description_text(body)));
    }
    match body.get("result") {
        None => Err(String::from_str("Missing 'result' in Telegram response")),
        Some(bot) => Ok(
            BotInfo {
                first_name: text_or(bot, "first_name", "Unknown"),
                username: text_or(bot, "username", "unknown_bot"),
            },
        ),
    }
}

/// What the answer to sendMessage says.
pub fn telegram_send_message(body: &Json) -> (r: Result<(), String>)
    ensures
        match r {
            Ok(_) => is_ok(body.tree()),
            Err(words) => !is_ok(body.tree()) && words@ == "Telegram sendMessage failed: "@
                + description(body.tree()),
        },
{
    if body.true_at("ok") {
        Ok(())
    } else {
        Err(text::cat2("Telegram sendMessage failed: ", &description_text(body)))
    }
}

/// The JSON document of a message to send.
pub open spec fn message_tree(chat_id: i64, words: Seq<char>) -> JsonTree {
    JsonTree::Object(
        Map::<Seq<char>, JsonTree>::empty().insert("chat_id"@, JsonTree::Int(chat_id)).insert(
            "text"@,
            JsonTree::Text(words),
        ),
    )
}

/// The body of a sendMessage request, as JSON.
pub fn message_body(chat_id: i64, words: &str) -> (r: String)
    ensures
        json::json_parsed(r@) == Some(message_tree(chat_id, words@)),
{
    let document = Fields::new().with("chat_id", Json::Int(chat_id)).with_text(
        "text",
        words,
    ).object();
    proof {
        json::undollared_keys_are_plain();
        reveal_strlit("chat_id");
        reveal_strlit("text");
        reveal_with_fuel(JsonTree::is_within, 4);
        reveal_with_fuel(JsonTree::has_plain_within, 4);
    }
    json::to_line(&document)
}

// ── Updates ─────────────────────────────────────────────────────────────

/// The name of a message's sender.
pub open spec fn sender_name(message: JsonTree) -> Seq<char> {
    match message.entry("from"@) {
        Some(from) => match (from.text_entry("first_name"@), from.text_entry("last_name"@)) {
            (Some(first), Some(last)) => first + " "@ + last,
            (Some(first), None) => first,
            _ => "Unknown"@,
        },
        None => "Unknown"@,
    }
}

/// The chat and the sender's name of an update that is a message in a chat.
pub open spec fn update_message(update: JsonTree) -> Option<(i64, Seq<char>)> {
    match update.entry("message"@) {
        Some(message) => match message.entry("chat"@) {
            Some(chat) => match chat.int_entry("id"@) {
                Some(id) => Some((id, sender_name(message))),
                None => None,
            },
            None => None,
        },
        None => None,
    }
}

/// The offset to poll from after an update was seen.
pub open spec fn offset_after(update: JsonTree, offset: Option<i64>) -> Option<i64> {
    match update.int_entry("update_id"@) {
        Some(id) => Some((id + 1) as i64),
        None => offset,
    }
}

/// The first message among updates, and the offset after looking for it.
pub open spec fn scan(updates: Seq<JsonTree>, offset: Option<i64>) -> (
    Option<(i64, Seq<char>)>,
    Option<i64>,
)
    decreases updates.len(),
{
    if updates.len() == 0 {
        (None, offset)
    } else {
        let after = offset_after(updates[0], offset);
        match update_message(updates[0]) {
            Some(found) => (Some(found), after),
            None => scan(updates.skip(1), after),
        }
    }
}

/// Whether the updates that are looked at have IDs with a successor.
pub open spec fn ids_fit(updates: Seq<JsonTree>) -> bool
    decreases updates.len(),
{
    updates.len() == 0 || {
        &&& updates[0].int_entry("update_id"@) matches Some(id) ==> id < i64::MAX
        &&& update_message(updates[0]) is Some || ids_fit(updates.skip(1))
    }
}

/// The updates in an answer.
pub open spec fn updates_in(body: JsonTree) -> Seq<JsonTree> {
    match body.entry("result"@) {
        Some(JsonTree::Array(updates)) => updates,
        _ => Seq::empty(),
    }
}

fn sender_text(message: &Json) -> (r: String)
    ensures
        r@ == sender_name(message.tree()),
{
    match message.get("from") {
        Some(from) => match (from.text_at("first_name"), from.text_at("last_name")) {
            (Some(first), Some(last)) => text::cat3(first, " ", last),
            (Some(first), None) => String::from_str(first),
            _ => String::from_str("Unknown"),
        },
        None => String::from_str("Unknown"),
    }
}

fn message_in(update: &Json) -> (r: Option<UpdateInfo>)
    ensures
        match r {
            Some(info) => update_message(update.tree()) == Some((info.chat_id, info.from_name@)),
            None => update_message(update.tree()) is None,
        },
{
    match update.get("message") {
        Some(message) => match message.get("chat") {
            Some(chat) => match chat.int_at("id") {
                Some(id) => Some(UpdateInfo { chat_id: id, from_name: sender_text(message) }),
                None => None,
            },
            None => None,
        },
        None => None,
    }
}

/// A request for updates.
#[derive(Debug)]
pub struct PollRequest {
    /// The URL.
    pub url: String,
    /// How long the request may take, in seconds.
    pub timeout_secs: u64,
}

/// The wait for the first message that is sent to the bot.
#[derive(Debug)]
pub struct UpdatePolling {
    /// How long to wait in all, in seconds.
    pub timeout_secs: u64,
    /// The update to poll from.
    pub offset: Option<i64>,
}

/// How long one poll waits: no longer than the wait in all, than what is left of
/// it, and than the limit for one poll.
pub open spec fn poll_secs(timeout: u64, remaining: u64) -> u64 {
    let most = if timeout <= MAX_POLL_SECS {
        timeout
    } else {
        MAX_POLL_SECS
    };
    if most <= remaining {
        most
    } else {
        remaining
    }
}

/// The URL of a poll.
pub open spec fn poll_url(token: Seq<char>, secs: u64, offset: Option<i64>) -> Seq<char> {
    let base = API_BASE@ + token + "/"@ + "getUpdates?timeout="@ + text::decimal(secs as nat);
    match offset {
        Some(from) => base + "&offset="@ + text::decimal_int(from as int),
        None => base,
    }
}

impl UpdatePolling {
    /// A wait that begins.
    pub fn new(timeout_secs: u64) -> (r: Self)
        ensures
            r == (UpdatePolling { timeout_secs, offset: None }),
    {
        UpdatePolling { timeout_secs, offset: None }
    }

    /// The next request, given how many whole seconds are left of the wait;
    /// `None` when the wait is over.
    pub fn next_request(&self, token: &str, remaining_secs: u64) -> (r: Option<PollRequest>)
        ensures
            match r {
                Some(request) => remaining_secs > 0 && request.url@ == poll_url(
                    token@,
                    poll_secs(self.timeout_secs, remaining_secs),
                    self.offset,
                ) && request.timeout_secs == poll_secs(self.timeout_secs, remaining_secs)
                    + POLL_SLACK_SECS,
                None => remaining_secs == 0,
            },
    {
        if remaining_secs == 0 {
            return None;
        }
        let most: u64 = if self.timeout_secs <= MAX_POLL_SECS {
            self.timeout_secs
        } else {
            MAX_POLL_SECS
        };
        let secs: u64 = if most <= remaining_secs {
            most
        } else {
            remaining_secs
        };
        let mut url = text::cat5(API_BASE, token, "/", "getUpdates?timeout=", &text::number(secs));
        match self.offset {
            Some(from) => {
                url.append("&offset=");
                url.append(&text::signed_number(from));
            },
            None => {},
        }
        Some(PollRequest { url, timeout_secs: secs + POLL_SLACK_SECS })
    }

    /// Whether the updates of an answer that are to be looked at have IDs with a
    /// successor.
    pub fn accepts(body: &Json) -> (r: bool)
        ensures
            r == ids_fit(updates_in(body.tree())),
    {
        match body.get("result") {
            Some(Json::Array(items)) => {
                let ghost updates = updates_in(body.tree());
                let mut i: usize = 0;
                assert(updates.skip(0) == updates);
                while i < items.len()
                    invariant
                        i <= items@.len(),
                        updates.len() == items@.len(),
                        forall|k: int|
                            0 <= k < items@.len() ==> #[trigger] updates[k] == items@[k].tree(),
                        ids_fit(updates.skip(i as int)) == ids_fit(updates),
                        updates == updates_in(body.tree()),
                    decreases items@.len() - i,
                {
                    assert(updates.skip(i as int)[0] == updates[i as int]);
                    assert(updates.skip(i as int).skip(1) == updates.skip(i + 1));
                    match items[i].int_at("update_id") {
                        Some(id) => {
                            if id == i64::MAX {
                                return false;
                            }
                        },
                        None => {},
                    }
                    if message_in(&items[i]).is_some() {
                        return true;
                    }
                    i = i + 1;
                }
                true
            },
            _ => true,
        }
    }

    /// Looks for the first message in the updates of an answer, and moves the
    /// offset behind the updates that were looked at.
    pub fn read_answer(&mut self, body: &Json) -> (r: Option<UpdateInfo>)
        requires
            ids_fit(updates_in(body.tree())),
        ensures
            final(self).timeout_secs == old(self).timeout_secs,
            final(self).offset == scan(updates_in(body.tree()), old(self).offset).1,
            match r {
                Some(info) => scan(updates_in(body.tree()), old(self).offset).0 == Some(
                    (info.chat_id, info.from_name@),
                ),
                None => scan(updates_in(body.tree()), old(self).offset).0 is None,
            },
    {
        match body.get("result") {
            Some(Json::Array(items)) => {
                let ghost updates = updates_in(body.tree());
                let ghost goal = scan(updates, self.offset);
                let mut i: usize = 0;
                assert(updates.skip(0) == updates);
                while i < items.len()
                    invariant
                        i <= items@.len(),
                        updates.len() == items@.len(),
                        forall|k: int|
                            0 <= k < items@.len() ==> #[trigger] updates[k] == items@[k].tree(),
                        ids_fit(updates.skip(i as int)),
                        scan(updates.skip(i as int), self.offset) == goal,
                        self.timeout_secs == old(self).timeout_secs,
                        goal == scan(updates_in(body.tree()), old(self).offset),
                    decreases items@.len() - i,
                {
                    assert(updates.skip(i as int)[0] == updates[i as int]);
                    assert(updates.skip(i as int).skip(1) == updates.skip(i + 1));
                    match items[i].int_at("update_id") {
                        Some(id) => {
                            self.offset = Some(id + 1);
                        },
                        None => {},
                    }
                    let found = message_in(&items[i]);
                    if found.is_some() {
                        return found;
                    }
                    i = i + 1;
                }
                None
            },
            _ => None,
        }
    }

    /// Why the wait has failed once it is over.
    pub fn timed_out(&self) -> (r: String)
        ensures
            r@ == "Timed out waiting for a message ("@ + text::decimal(self.timeout_secs as nat)
                + "s)"@,
    {
        text::cat3("Timed out waiting for a message (", &text::number(self.timeout_secs), "s)")
    }
}

// ── State file ──────────────────────────────────────────────────────────

/// The place of the Telegram state file.
pub const STATE_FILE: &'static str = ".ralph/telegram-state.json";

/// The document of a fresh Telegram state.
pub open spec fn state_tree(chat_id: i64) -> JsonTree {
    JsonTree::Object(
        Map::<Seq<char>, JsonTree>::empty().insert("chat_id"@, JsonTree::Int(chat_id)).insert(
            "last_seen"@,
            JsonTree::Null,
        ).insert("last_update_id"@, JsonTree::Null).insert(
            "pending_questions"@,
            JsonTree::Object(Map::<Seq<char>, JsonTree>::empty()),
        ),
    )
}

/// The content of the Telegram state file for a chat, ended by a line break.
pub fn save_telegram_state(chat_id: i64) -> (r: String)
    ensures
        r@ == json::json_indented(state_tree(chat_id)) + "\n"@,
        json::json_parsed(r@) == Some(state_tree(chat_id)),
{
    let document = Fields::new().with("chat_id", Json::Int(chat_id)).with(
        "last_seen",
        Json::Null,
    ).with("last_update_id", Json::Null).with(
        "pending_questions",
        Fields::new().object(),
    ).object();
    proof {
        json::undollared_keys_are_plain();
        reveal_strlit("chat_id");
        reveal_strlit("last_seen");
        reveal_strlit("last_update_id");
        reveal_strlit("pending_questions");
        reveal_with_fuel(JsonTree::is_within, 4);
        reveal_with_fuel(JsonTree::has_plain_within, 4);
    }
    json::to_pretty(&document)
}

/// The chat of a Telegram state.
pub open spec fn state_chat(state: JsonTree) -> Option<i64> {
    state.int_entry("chat_id"@)
}

/// The chat of a Telegram state.
pub fn chat_id_in(state: &Json) -> (r: Option<i64>)
    ensures
        r == state_chat(state.tree()),
{
    state.int_at("chat_id")
}

/// Resolves the chat from the content of the Telegram state file, if that could
/// be read.
pub fn resolve_chat_id(content: Option<&str>) -> (r: Option<i64>)
    ensures
        r == (match content {
            Some(source) => match json::json_parsed(source@) {
                Some(state) => state_chat(state),
                None => None,
            },
            None => None,
        }),
{
    match content {
        Some(source) => match json::parse(source) {
            Some(state) => chat_id_in(&state),
            None => None,
        },
        None => None,
    }
}

/// The chat that was saved in a state file is the one that is resolved from it.
pub proof fn saved_chat_is_resolved(content: Seq<char>, chat_id: i64)
    requires
        json::json_parsed(content) == Some(state_tree(chat_id)),
    ensures
        state_chat(json::json_parsed(content)->0) == Some(chat_id),
{
    reveal_strlit("chat_id");
    reveal_strlit("last_seen");
    reveal_strlit("last_update_id");
    reveal_strlit("pending_questions");
    assert("chat_id"@.len() == 7);
    assert("last_seen"@.len() == 9);
    assert("last_update_id"@.len() == 14);
    assert("pending_questions"@.len() == 17);
}

/// When none of the updates of an answer is a message, the next poll starts
/// right behind the last of them.
pub proof fn polling_moves_behind_updates(updates: Seq<JsonTree>, offset: Option<i64>)
    requires
        updates.len() > 0,
        forall|i: int|
            0 <= i < updates.len() ==> (#[trigger] updates[i]).int_entry("update_id"@) is Some,
        scan(updates, offset).0 is None,
    ensures
        scan(updates, offset).1 == offset_after(updates.last(), None),
    decreases updates.len(),
{
    let rest = updates.skip(1);
    assert(updates[0].int_entry("update_id"@) is Some);
    if rest.len() == 0 {
        assert(updates.last() == updates[0]);
        assert(scan(rest, offset_after(updates[0], offset)).1 == offset_after(updates[0], offset));
    } else {
        assert forall|i: int| 0 <= i < rest.len() implies (#[trigger] rest[i]).int_entry(
            "update_id"@,
        ) is Some by {
            assert(rest[i] == updates[i + 1]);
        }
        polling_moves_behind_updates(rest, offset_after(updates[0], offset));
        assert(rest.last() == updates.last());
    }
}

/// Every request goes to the API with the token and the method in its path.
pub proof fn urls_name_token_and_method(token: &str, method: &str, r: String)
    requires
        call_ensures(api_url, (token, method), r),
    ensures
        r@ == "https://api.telegram.org/bot"@ + token@ + "/"@ + method@,
{
}

/// What answers mean: all is well exactly if the entry `ok` is true, and, of getMe, the
/// request succeeded and there is a result. The bot is named by its `first_name` and its
/// `username`, or by words in their place. An error has the description of the answer, or
/// words in its place.
pub proof fn answers_mean_what_they_say(
    success: bool,
    body: &Json,
    bot: JsonTree,
    words: Seq<char>,
    me: Result<BotInfo, String>,
    sent: Result<(), String>,
)
    requires
        call_ensures(telegram_get_me, (success, body), me),
        call_ensures(telegram_send_message, (body,), sent),
    ensures
        ({
            let well = body.tree().entry("ok"@) == Some(JsonTree::Bool(true));
            let result = body.tree().entry("result"@);
            &&& sent is Ok <==> well
            &&& me is Ok <==> success && well && result is Some
            &&& me is Ok && result == Some(bot) ==> {
                &&& bot.entry("first_name"@) == Some(JsonTree::Text(words))
                    ==> me->Ok_0.first_name@ == words
                &&& bot.text_entry("first_name"@) is None ==> me->Ok_0.first_name@ == "Unknown"@
                &&& bot.entry("username"@) == Some(JsonTree::Text(words)) ==> me->Ok_0.username@
                    == words
                &&& bot.text_entry("username"@) is None ==> me->Ok_0.username@ == "unknown_bot"@
            }
            &&& body.tree().entry("description"@) == Some(JsonTree::Text(words)) ==> {
                &&& !well ==> sent->Err_0@ == "Telegram sendMessage failed: "@ + words
                &&& !success || !well ==> me->Err_0@ == "Telegram API error: "@ + words
            }
            &&& body.tree().text_entry("description"@) is None ==> {
                &&& !well ==> sent->Err_0@ == "Telegram sendMessage failed: "@ + "Unknown error"@
                &&& !success || !well ==> me->Err_0@ == "Telegram API error: "@ + "Unknown error"@
            }
            &&& success && well && result is None ==> me->Err_0@
                == "Missing 'result' in Telegram response"@
        }),
{
}

proof fn message_keys_differ()
    ensures
        "chat_id"@ != "text"@,
        "chat_id"@ != "last_seen"@,
        "chat_id"@ != "last_update_id"@,
        "chat_id"@ != "pending_questions"@,
        "last_seen"@ != "last_update_id"@,
        "last_seen"@ != "pending_questions"@,
        "last_update_id"@ != "pending_questions"@,
{
    reveal_strlit("chat_id");
    reveal_strlit("text");
    reveal_strlit("last_seen");
    reveal_strlit("last_update_id");
    reveal_strlit("pending_questions");
    assert("chat_id"@.len() == 7);
    assert("text"@.len() == 4);
    assert("last_seen"@.len() == 9);
    assert("last_update_id"@.len() == 14);
    assert("pending_questions"@.len() == 17);
}

/// The body of a message holds the chat and the text, word for word, and nothing else. A
/// fresh state holds the chat, nothing seen and no pending question, and nothing else, and
/// the chat that is resolved from it is that one.
pub proof fn bodies_hold_all(
    chat_id: i64,
    words: &str,
    other: Seq<char>,
    message: String,
    state: String,
    content: &str,
    resolved: Option<i64>,
)
    requires
        call_ensures(message_body, (chat_id, words), message),
        call_ensures(save_telegram_state, (chat_id,), state),
        content@ == state@,
        call_ensures(resolve_chat_id, (Some(content),), resolved),
    ensures
        json::json_parsed(message@) is Some && json::json_parsed(state@) is Some,
        ({
            let body = json::json_parsed(message@)->0;
            &&& body.entry("chat_id"@) == Some(JsonTree::Int(chat_id))
            &&& body.entry("text"@) == Some(JsonTree::Text(words@))
            &&& other != "chat_id"@ && other != "text"@ ==> body.entry(other) is None
        }),
        ({
            let saved = json::json_parsed(state@)->0;
            &&& saved.entry("chat_id"@) == Some(JsonTree::Int(chat_id))
            &&& saved.entry("last_seen"@) == Some(JsonTree::Null)
            &&& saved.entry("last_update_id"@) == Some(JsonTree::Null)
            &&& saved.entry("pending_questions"@) == Some(
                JsonTree::Object(Map::<Seq<char>, JsonTree>::empty()),
            )
            &&& other != "chat_id"@ && other != "last_seen"@ && other != "last_update_id"@ && other
                != "pending_questions"@ ==> saved.entry(other) is None
        }),
        resolved == Some(chat_id),
        state@.len() > 0 && state@.last() == '\n',
{
    message_keys_differ();
    reveal_strlit("\n");
}

/// The chat of a state is the whole number at its entry `chat_id`; a state without one, a
/// file that is not JSON and a missing file have none.
pub proof fn chats_are_resolved(content: Option<&str>, state: JsonTree, chat: i64, r: Option<i64>)
    requires
        call_ensures(resolve_chat_id, (content,), r),
    ensures
        content is None ==> r is None,
        content is Some && json::json_parsed(content->0@) is None ==> r is None,
        content is Some && json::json_parsed(content->0@) == Some(state) ==> {
            &&& state.entry("chat_id"@) == Some(JsonTree::Int(chat)) ==> r == Some(chat)
            &&& state.int_entry("chat_id"@) is None ==> r is None
        },
{
}

/// Whether an update is a message in a chat with a number.
pub open spec fn is_chat_message(update: JsonTree) -> bool {
    update.entry("message"@) matches Some(message) && (message.entry("chat"@) matches Some(chat)
        && chat.int_entry("id"@) is Some)
}

/// The first message in a chat among updates is found with the number of its chat and the
/// name of its sender, whatever comes behind it, and the next poll starts right behind the
/// last update up to it that has an ID.
pub proof fn first_message_is_found(
    skipped: Seq<JsonTree>,
    update: JsonTree,
    rest: Seq<JsonTree>,
    offset: Option<i64>,
    message: JsonTree,
    chat: i64,
    id: i64,
    from: JsonTree,
    first: Seq<char>,
    last: Seq<char>,
)
    requires
        forall|i: int| 0 <= i < skipped.len() ==> !is_chat_message(#[trigger] skipped[i]),
        update.entry("message"@) == Some(message),
        message.entry("chat"@) is Some,
        message.entry("chat"@)->0.entry("id"@) == Some(JsonTree::Int(chat)),
        update.entry("update_id"@) == Some(JsonTree::Int(id)),
        id < i64::MAX,
    ensures
        ({
            let found = scan(skipped + seq![update] + rest, offset);
            let who = found.0->0;
            &&& found.0 is Some
            &&& who.0 == chat
            &&& found.1 == Some((id + 1) as i64)
            &&& message.entry("from"@) == Some(from) ==> {
                &&& from.entry("first_name"@) == Some(JsonTree::Text(first)) && from.entry(
                    "last_name"@,
                ) == Some(JsonTree::Text(last)) ==> who.1 == first + " "@ + last
                &&& from.entry("first_name"@) == Some(JsonTree::Text(first)) && from.text_entry(
                    "last_name"@,
                ) is None ==> who.1 == first
                &&& from.text_entry("first_name"@) is None ==> who.1 == "Unknown"@
            }
            &&& message.entry("from"@) is None ==> who.1 == "Unknown"@
        }),
    decreases skipped.len(),
{
    let all = skipped + seq![update] + rest;
    if skipped.len() > 0 {
        let less = skipped.skip(1);
        assert(all[0] == skipped[0]);
        assert(all.skip(1) =~= less + seq![update] + rest);
        assert(!is_chat_message(skipped[0]));
        assert forall|i: int| 0 <= i < less.len() implies !is_chat_message(#[trigger] less[i]) by {
            assert(less[i] == skipped[i + 1]);
        }
        first_message_is_found(
            less,
            update,
            rest,
            offset_after(all[0], offset),
            message,
            chat,
            id,
            from,
            first,
            last,
        );
    } else {
        assert(all[0] == update);
    }
}

/// Where no update is a message in a chat nothing is found, and the next poll starts right
/// behind the last update that has an ID, or where it started if none has.
pub proof fn nothing_is_found_among_others(updates: Seq<JsonTree>, offset: Option<i64>, k: int, id: i64)
    requires
        forall|i: int| 0 <= i < updates.len() ==> !is_chat_message(#[trigger] updates[i]),
        -1 <= k < updates.len(),
        k >= 0 ==> updates[k].entry("update_id"@) == Some(JsonTree::Int(id)) && id < i64::MAX,
        forall|i: int|
            k < i < updates.len() ==> (#[trigger] updates[i]).int_entry("update_id"@) is None,
    ensures
        scan(updates, offset).0 is None,
        k >= 0 ==> scan(updates, offset).1 == Some((id + 1) as i64),
        k == -1 ==> scan(updates, offset).1 == offset,
    decreases updates.len(),
{
    if updates.len() > 0 {
        let less = updates.skip(1);
        assert(!is_chat_message(updates[0]));
        assert forall|i: int| 0 <= i < less.len() implies !is_chat_message(#[trigger] less[i]) by {
            assert(less[i] == updates[i + 1]);
        }
        assert forall|i: int| k - 1 < i < less.len() && i >= 0 implies (#[trigger] less[i]).int_entry(
            "update_id"@,
        ) is None by {
            assert(less[i] == updates[i + 1]);
        }
        if k >= 1 {
            assert(less[k - 1] == updates[k]);
            nothing_is_found_among_others(less, offset_after(updates[0], offset), k - 1, id);
        } else {
            nothing_is_found_among_others(less, offset_after(updates[0], offset), -1, id);
        }
    }
}

/// The updates of an answer are those in its array `result`, and an answer without one has
/// none.
pub proof fn updates_are_the_result(body: JsonTree, updates: Seq<JsonTree>)
    ensures
        body.entry("result"@) == Some(JsonTree::Array(updates)) ==> updates_in(body) == updates,
        !(body.entry("result"@) is Some && body.entry("result"@)->0 is Array) ==> updates_in(
            body,
        ).len() == 0,
{
}

/// A poll is made exactly while time is left. It waits for the shortest of the whole wait,
/// what is left of it and thirty seconds; the request may take ten seconds more. It asks
/// for updates from the offset on, if there is one.
pub proof fn polls_wait_shortest(
    polling: &UpdatePolling,
    token: &str,
    remaining: u64,
    r: Option<PollRequest>,
    words: String,
)
    requires
        call_ensures(UpdatePolling::next_request, (polling, token, remaining), r),
        call_ensures(UpdatePolling::timed_out, (polling,), words),
    ensures
        r is Some <==> remaining > 0,
        r matches Some(request) ==> {
            let secs = request.timeout_secs - 10;
            &&& 0 <= secs <= 30
            &&& secs <= polling.timeout_secs
            &&& secs <= remaining
            &&& secs == 30 || secs == polling.timeout_secs || secs == remaining
            &&& polling.offset is None ==> request.url@ == "https://api.telegram.org/bot"@ + token@
                + "/"@ + "getUpdates?timeout="@ + text::decimal(secs as nat)
            &&& polling.offset matches Some(from) ==> request.url@
                == "https://api.telegram.org/bot"@ + token@ + "/"@ + "getUpdates?timeout="@
                + text::decimal(secs as nat) + "&offset="@ + text::decimal_int(from as int)
        },
        words@ == "Timed out waiting for a message ("@ + text::decimal(polling.timeout_secs as nat)
            + "s)"@,
{
}

/// An answer is accepted exactly if every update up to the first message in a chat, and it
/// too, has no ID or one with a successor.
pub proof fn accepted_ids_have_successors(updates: Seq<JsonTree>, i: int)
    requires
        0 <= i <= updates.len(),
        forall|k: int| 0 <= k < i ==> !is_chat_message(#[trigger] updates[k]),
        i < updates.len() ==> is_chat_message(updates[i]),
    ensures
        ids_fit(updates) <==> forall|k: int|
            0 <= k <= i && k < updates.len() ==> (#[trigger] updates[k]).int_entry("update_id"@)
                != Some(i64::MAX),
    decreases i,
{
    if updates.len() > 0 {
        let id = updates[0].int_entry("update_id"@);
        if i > 0 {
            let rest = updates.skip(1);
            assert(!is_chat_message(updates[0]));
            assert forall|k: int| 0 <= k < i - 1 implies !is_chat_message(#[trigger] rest[k]) by {
                assert(rest[k] == updates[k + 1]);
            }
            if i < updates.len() {
                assert(rest[i - 1] == updates[i]);
            }
            accepted_ids_have_successors(rest, i - 1);
            if ids_fit(updates) {
                assert forall|k: int| 0 <= k <= i && k < updates.len() implies (
                #[trigger] updates[k]).int_entry("update_id"@) != Some(i64::MAX) by {
                    if k > 0 {
                        assert(rest[k - 1] == updates[k]);
                    }
                }
            }
            if forall|k: int|
                0 <= k <= i && k < updates.len() ==> (#[trigger] updates[k]).int_entry(
                    "update_id"@,
                ) != Some(i64::MAX) {
                assert(updates[0].int_entry("update_id"@) != Some(i64::MAX));
                assert forall|k: int| 0 <= k <= i - 1 && k < rest.len() implies (
                #[trigger] rest[k]).int_entry("update_id"@) != Some(i64::MAX) by {
                    assert(rest[k] == updates[k + 1]);
                }
            }
        } else {
            assert(update_message(updates[0]) is Some);
            if ids_fit(updates) {
                assert(updates[0].int_entry("update_id"@) != Some(i64::MAX));
            } else {
                assert(updates[0].int_entry("update_id"@) == Some(i64::MAX));
            }
        }
    }
}

/// Reading an answer finds the first message in a chat, with the number of its chat, and
/// the next poll starts right behind it; the time limit stays.
pub proof fn answers_are_read_to_the_first_message(
    before: UpdatePolling,
    after: UpdatePolling,
    body: &Json,
    skipped: Seq<JsonTree>,
    update: JsonTree,
    rest: Seq<JsonTree>,
    message: JsonTree,
    chat: i64,
    id: i64,
    r: Option<UpdateInfo>,
)
    requires
        exists|polling: &mut UpdatePolling|
            *polling == before && *final(polling) == after && #[trigger] call_ensures(
                UpdatePolling::read_answer,
                (polling, body),
                r,
            ),
        body.tree().entry("result"@) == Some(JsonTree::Array(skipped + seq![update] + rest)),
        forall|i: int| 0 <= i < skipped.len() ==> !is_chat_message(#[trigger] skipped[i]),
        update.entry("message"@) == Some(message),
        message.entry("chat"@) is Some,
        message.entry("chat"@)->0.entry("id"@) == Some(JsonTree::Int(chat)),
        update.entry("update_id"@) == Some(JsonTree::Int(id)),
        id < i64::MAX,
    ensures
        r matches Some(info) && info.chat_id == chat,
        after.offset == Some((id + 1) as i64),
        after.timeout_secs == before.timeout_secs,
{
    let none = Seq::<char>::empty();
    first_message_is_found(
        skipped,
        update,
        rest,
        before.offset,
        message,
        chat,
        id,
        update,
        none,
        none,
    );
}

/// An answer is the document in its body, and a body without one is an error.
pub proof fn answers_are_parsed(body: &str, r: Result<Json, String>)
    requires
        call_ensures(parse_answer, (body,), r),
    ensures
        r is Ok <==> json::json_parsed(body@) is Some,
        r matches Ok(document) ==> json::json_parsed(body@) == Some(document.tree()),
        r matches Err(words) ==> words@ == "Failed to parse Telegram API response"@,
        STATE_FILE@ == ".ralph/telegram-state.json"@,
{
}

} // verus!
