use ralph_robot::daemon::{DaemonAction, DaemonEvent, DaemonKind, DaemonRun, LockReport};
use ralph_robot::events::{event_line, find_response, response_from, response_of_line, topic};
use ralph_robot::json::{self, Fields, Json};
use ralph_robot::routing::route;
use ralph_robot::service::{
    backoff, checkin_text, exhausted_text, farewell_text, greeting_text, retry_step, wait_step,
    write_failure_text, RetryStep, WaitAction, WaitEvent, WriteStep,
};
use ralph_robot::table::TextMap;
use ralph_robot::text;
use ralph_robot::yaml::{self, Yaml};

#[test]
fn numbers_are_written_in_decimal() {
    for n in [0u64, 7, 10, 99, 100, 65_536, u64::MAX] {
        assert_eq!(text::number(n), n.to_string());
        assert_eq!(text::wide_number(n as u128 * 1_000_000_007), (n as u128 * 1_000_000_007).to_string());
    }
    for n in [i64::MIN, -10, -1, 0, 42, i64::MAX] {
        assert_eq!(text::signed_number(n), n.to_string());
    }
    assert_eq!(text::wide_number(u128::MAX), u128::MAX.to_string());
}

#[test]
fn texts_are_cut_like_in_std() {
    for s in ["", " a\u{a0}", "//a//", "\"q\"", "é", "a \n b", "\u{2029}x y\u{2029}"] {
        assert_eq!(text::trim(s), s.trim());
        assert_eq!(text::trim_matches(s, '"'), s.trim_matches('"'));
        assert_eq!(text::trim_end_matches(s, '/'), s.trim_end_matches('/'));
        assert_eq!(text::starts_with(s, "//"), s.starts_with("//"));
        assert_eq!(text::has_text(s, "a"), s.contains("a"));
        assert_eq!(text::same_text(s, "é"), s == "é");
        assert_eq!(text::is_at_most(s, "a"), s <= "a");
    }
    assert!(text::is_at_most("a", "ab") && !text::is_at_most("b", "ab"));
}

#[test]
fn messages_are_routed() {
    assert_eq!(route(None, "hello"), "main");
    assert_eq!(route(None, "@fix  the\tbug"), "fix");
    assert_eq!(route(None, " @fix it"), "main");
    assert_eq!(route(None, "@"), "main");
    assert_eq!(route(Some("asker".to_string()), "@fix it"), "asker");
}

#[test]
fn recorded_events_are_read_back() {
    let line = event_line(&topic(true), "say \"yes\"\n| now", "2026-01-01T00:00:00Z");
    assert_eq!(response_of_line(&line), Some("say \"yes\"\n| now".to_string()));
    let line = event_line(&topic(false), "human.response", "2026-01-01T00:00:00Z");
    assert_eq!(response_of_line(&line), None);
    let event: serde_json::Value = serde_json::from_str(&line).unwrap();
    assert_eq!(event["topic"], "human.guidance");
    assert_eq!(event["payload"], "human.response");
    assert_eq!(event["ts"], "2026-01-01T00:00:00Z");
}

#[test]
fn other_lines_are_no_responses() {
    assert_eq!(response_of_line(""), None);
    assert_eq!(response_of_line("EVENT: human.guidance | message: \"x\""), None);
    assert_eq!(response_of_line(r#"{"topic":"human.response"}"#), Some(String::new()));
    assert_eq!(response_from("EVENT: human.response | message: \"x\"", None), Some("x".to_string()));
    assert_eq!(response_from("nothing", Some(Json::Null)), None);
}

#[test]
fn a_search_ends_at_the_end_of_the_file() {
    let found = |text: &str, start: u64| {
        let mut pos = start;
        let response = find_response(text, &mut pos);
        assert_eq!(pos, start + text.len() as u64, "{text:?}");
        response
    };
    let answer = r#"{"topic":"human.response","payload":"a"}"#;
    let other = r#"{"topic":"x"}"#;
    assert_eq!(answer.len() + other.len() + 2, 55);
    assert_eq!(found(&format!("{answer}\n{other}\n"), 0).as_deref(), Some("a"));
    assert_eq!(found(&format!("{other}\n{answer}"), 0).as_deref(), Some("a"));
    assert_eq!(found(&format!("{other}\r\n{answer}\r\n"), 3).as_deref(), Some("a"));
    assert_eq!(found(&format!("{other}\n"), 7), None);
    assert_eq!(found("", 7), None);
    assert_eq!(found("\n\n", 7), None);
    assert_eq!(found("EVENT: human.response | message: \"é\"\r", 1).as_deref(), Some("é"));
}

#[test]
fn a_search_in_two_steps_is_one_search() {
    let earlier = format!("{}\n", event_line("other", "a", "t"));
    let later = format!(
        "{}\n{}\n",
        event_line("human.response", "é", "t"),
        event_line("human.response", "later", "t"),
    );
    let mut whole: u64 = 0;
    assert_eq!(find_response(&format!("{earlier}{later}"), &mut whole), Some("é".to_string()));
    let mut pos: u64 = 0;
    assert_eq!(find_response(&earlier, &mut pos), None);
    assert_eq!(pos as usize, earlier.len());
    assert_eq!(find_response(&later, &mut pos), Some("é".to_string()));
    assert_eq!(pos, whole);
}

#[test]
fn retries_back_off() {
    assert_eq!(backoff(1), 1);
    assert_eq!(backoff(2), 2);
    assert!(exhausted_text("boom").contains("failed after 3 attempts"));
    assert!(exhausted_text("boom").contains("boom"));
}

#[test]
fn checkins_tell_the_time() {
    assert!(checkin_text(1, 59, None).contains("`59s`"));
    assert!(checkin_text(1, 60, None).contains("`1m 0s`"));
    assert!(checkin_text(1, 3_725, None).contains("`62m 5s`"));
    assert!(greeting_text("fix", "Matrix").contains("`fix`"));
    assert_eq!(farewell_text("fix"), "👋 Ralph loop `fix` disconnecting.");
}

#[test]
fn waits_end() {
    assert!(matches!(
        wait_step(WaitEvent::Checked { expired: true, shutdown: true }),
        WaitAction::Finish(None)
    ));
    assert!(matches!(wait_step(WaitEvent::Searched(None)), WaitAction::Pause));
}

#[test]
fn failed_writes_name_the_file() {
    assert_eq!(
        write_failure_text(WriteStep::Open, "/a/e.jsonl", "denied"),
        "failed to open /a/e.jsonl: denied"
    );
    assert_eq!(
        write_failure_text(WriteStep::Write, "/a/e.jsonl", "full"),
        "failed to write to /a/e.jsonl: full"
    );
    assert!(write_failure_text(WriteStep::CreateDirectory, "/a", "denied").contains("/a"));
}

#[test]
fn documents_are_printed_and_parsed() {
    let inner = Fields::new().with("n", Json::Int(-3)).with("on", Json::Bool(true)).object();
    let json = Fields::new().with_text("a\"b", "c\nd").with("inner", inner).object();
    let line = json::to_line(&json);
    assert!(!line.contains('\n'));
    let back = json::parse(&line).unwrap();
    assert_eq!(back.text_at("a\"b"), Some("c\nd"));
    assert_eq!(back.get("inner").unwrap().int_at("n"), Some(-3));
    assert!(back.get("inner").unwrap().true_at("on"));
    let pretty = json::to_pretty(&json);
    assert!(pretty.contains("\n  "));
    assert_eq!(json::parse(&pretty).unwrap().text_at("a\"b"), Some("c\nd"));
    assert!(json::parse("{").is_none());
    assert!(json::parse("[1]").unwrap().get("x").is_none());
    assert_eq!(json::parse("\"x\"").unwrap().as_str(), Some("x"));
    assert_eq!(json::parse("1.0").unwrap().as_i64(), None);
}

#[test]
fn yaml_keeps_what_it_does_not_know() {
    let source = "a: 1.5\nb: [1, ~, x]\nc: !t {k: -7}\n3: true\n";
    let printed = yaml::print(yaml::parse(source).unwrap()).unwrap();
    let before: serde_yaml::Value = serde_yaml::from_str(source).unwrap();
    let after: serde_yaml::Value = serde_yaml::from_str(&printed).unwrap();
    assert_eq!(before, after);
    assert!(yaml::parse("a: [").is_none());
}

#[test]
fn steps_follow_attempts() {
    assert!(matches!(retry_step(1, false), RetryStep::Done));
    assert!(matches!(retry_step(1, true), RetryStep::Again { secs: 1, attempt: 2 }));
    assert!(matches!(retry_step(2, true), RetryStep::Again { secs: 2, attempt: 3 }));
    assert!(matches!(retry_step(3, true), RetryStep::GiveUp));
    assert!(matches!(retry_step(3, false), RetryStep::Done));
}

/// A source of numbers that look random.
struct Dice(u64);

impl Dice {
    fn roll(&mut self, sides: usize) -> usize {
        self.0 = self.0.wrapping_mul(6364136223846793005).wrapping_add(1442695040888963407);
        ((self.0 >> 33) as usize) % sides
    }

    fn text(&mut self, chars: &[char]) -> String {
        let size = self.roll(9);
        (0..size).map(|_| chars[self.roll(chars.len())]).collect()
    }

    fn key(&mut self, chars: &[char]) -> serde_yaml::Value {
        match self.roll(9) {
            0 => serde_yaml::Value::Null,
            1 => serde_yaml::Value::from(self.roll(2) == 0),
            2 => serde_yaml::Value::from(self.roll(50) as i64 - 25),
            3 => serde_yaml::Value::from(self.roll(50) as f64 / 8.0),
            4 => {
                let size = self.roll(3);
                serde_yaml::Value::Sequence((0..size).map(|_| self.key(chars)).collect())
            }
            _ => serde_yaml::Value::from(self.text(chars)),
        }
    }

    fn value(&mut self, chars: &[char], depth: usize) -> serde_yaml::Value {
        let kinds = if depth == 0 { 7 } else { 12 };
        match self.roll(kinds) {
            0 => serde_yaml::Value::Null,
            1 => serde_yaml::Value::from(self.roll(2) == 0),
            2 => serde_yaml::Value::from((self.0 as i64 >> self.roll(60)).wrapping_neg()),
            3 => serde_yaml::Value::from(self.0 >> self.roll(64)),
            4 => serde_yaml::Value::from(f64::from_bits(self.0.rotate_left(self.roll(64) as u32))),
            5 | 6 => serde_yaml::Value::from(self.text(chars)),
            7 | 8 => {
                let size = self.roll(4);
                serde_yaml::Value::Sequence(
                    (0..size).map(|_| self.value(chars, depth - 1)).collect(),
                )
            }
            9 => {
                let word = ["t", "0", "A-b_9", "str", "null", "-"][self.roll(6)];
                let mut value = self.value(chars, depth - 1);
                while let serde_yaml::Value::Tagged(tagged) = value {
                    value = tagged.value;
                }
                serde_yaml::Value::Tagged(Box::new(serde_yaml::value::TaggedValue {
                    tag: serde_yaml::value::Tag::new(word),
                    value,
                }))
            }
            _ => {
                let size = self.roll(4);
                serde_yaml::Value::Mapping(
                    (0..size).map(|_| (self.key(chars), self.value(chars, depth - 1))).collect(),
                )
            }
        }
    }
}

fn alphabet() -> Vec<char> {
    let mut chars: Vec<char> = (0u8..128).map(char::from).collect();
    for _ in 0..12 {
        chars.extend(['\n', '\n', ' ', ' ', 'a', ':', '#', '-', '\'', '"', '.', '0', '\\', '|']);
    }
    chars.extend([
        '\u{80}', '\u{85}', '\u{a0}', 'é', '\u{3a3}', '\u{200b}', '\u{2028}', '\u{2029}',
        '\u{d7ff}', '\u{e000}', '\u{feff}', '\u{fffd}', '\u{fffe}', '\u{ffff}', '\u{10000}', '😀', '\u{10ffff}',
    ]);
    chars
}

fn same_after_printing(value: &serde_yaml::Value) {
    let source = serde_yaml::to_string(value).unwrap();
    let printed = yaml::print(yaml::parse(&source).unwrap()).unwrap();
    let back: serde_yaml::Value = serde_yaml::from_str(&printed).unwrap();
    assert_eq!(&back, value, "{printed}");
}

#[test]
fn plain_documents_are_read_back() {
    let chars = alphabet();
    let mut dice = Dice(7);
    for _ in 0..20_000 {
        let value = dice.value(&chars, 4);
        same_after_printing(&value);
    }
}

#[test]
fn deep_documents_are_read_back() {
    let mut value = serde_yaml::Value::from("x");
    for level in 0..128 {
        value = if level % 3 == 0 {
            serde_yaml::Value::Sequence(vec![value])
        } else {
            serde_yaml::Value::Mapping([(serde_yaml::Value::from("k"), value)].into_iter().collect())
        };
    }
    same_after_printing(&value);
}

#[test]
fn texts_are_read_back() {
    let chars = alphabet();
    let mut dice = Dice(11);
    for _ in 0..100_000 {
        let text = dice.text(&chars);
        let printed = yaml::print(Yaml::Text(text.clone())).unwrap();
        assert_eq!(yaml::parse(&printed).unwrap().as_str(), Some(text.as_str()), "{printed}");
    }
}

#[test]
fn keys_that_begin_with_a_letter_are_read_back() {
    let line = event_line("topic", "$serde_json::private::RawValue", "t");
    let event = json::parse(&line).unwrap();
    assert_eq!(event.text_at("payload"), Some("$serde_json::private::RawValue"));
}

#[test]
fn yaml_entries_are_put_in_place() {
    let config = yaml::parse("a: 1\nb: 2\n").unwrap();
    let entries = yaml::put_entry(config.into_entries(), "a", Yaml::Flag(true));
    let entries = yaml::put_entry(entries, "c", Yaml::Text("x".to_string()));
    assert_eq!(yaml::find_slot(&entries, "b"), 1);
    assert_eq!(yaml::find_slot(&entries, "zzz"), 3);
    let config = Yaml::mapping(entries);
    assert_eq!(config.get("a").unwrap().as_bool(), Some(true));
    assert_eq!(config.get("c").unwrap().as_str(), Some("x"));
    assert_eq!(yaml::print(config).unwrap(), "a: true\nb: 2\nc: x\n");
}

#[test]
fn tables_hold_one_value_per_key() {
    let mut table: TextMap<u8> = TextMap::new();
    assert!(table.is_empty());
    assert_eq!(table.insert("a".to_string(), 1), None);
    assert_eq!(table.insert("b".to_string(), 2), None);
    assert_eq!(table.insert("a".to_string(), 3), Some(1));
    assert_eq!(table.len(), 2);
    assert_eq!(table.get("a"), Some(&3));
    for i in 0..table.len() {
        assert_eq!(table.get(table.key_at(i)), Some(table.value_at(i)));
    }
    let copy = table.clone();
    assert_eq!(table.remove("a"), Some(3));
    assert_eq!(table.remove("a"), None);
    assert!(!table.contains_key("a") && copy.contains_key("a"));
}

// ── Daemon ──────────────────────────────────────────────────────────────

fn idle(kind: DaemonKind) -> DaemonRun {
    let (run, _) = DaemonRun::start(kind);
    let (run, _) = run.step(DaemonEvent::Sent);
    let (run, _) = run.step(DaemonEvent::Checked { shutdown: false });
    run
}

fn words_of(action: DaemonAction) -> String {
    match action {
        DaemonAction::Send(words) => words,
        other => panic!("unexpected {other:?}"),
    }
}

#[test]
fn blank_messages_are_skipped() {
    let queue = vec!["  ".to_string(), " build it ".to_string()];
    let (run, action) = idle(DaemonKind::Matrix).step(DaemonEvent::Synced(queue));
    assert!(matches!(action, DaemonAction::ReadLock), "{action:?}");
    let (run, action) = run.step(DaemonEvent::LockRead(LockReport::Stale));
    assert_eq!(words_of(action), "Starting loop: *build it*");
    let (run, _) = run.step(DaemonEvent::Sent);
    let (_run, action) = run.step(DaemonEvent::LoopFailed("no model".to_string()));
    assert_eq!(words_of(action), "Loop failed: no model");
}

#[test]
fn commands_differ_by_backend() {
    let command = |kind: DaemonKind, words: &str| {
        let (_run, action) = idle(kind).step(DaemonEvent::Synced(vec![words.to_string()]));
        matches!(action, DaemonAction::AnswerCommand(_))
    };
    assert!(command(DaemonKind::Matrix, "!help"));
    assert!(!command(DaemonKind::Matrix, "/help"));
    assert!(command(DaemonKind::RocketChat, "/help"));
    assert!(!command(DaemonKind::RocketChat, "!help"));
}

#[test]
fn unknown_commands_and_unreadable_locks_are_answered() {
    let (run, _) = idle(DaemonKind::Matrix).step(DaemonEvent::Synced(vec!["!x".to_string()]));
    let (_run, action) = run.step(DaemonEvent::Answered(None));
    assert_eq!(words_of(action), "Unknown command. Use !help for the supported commands.");
    let (run, _) = idle(DaemonKind::RocketChat).step(DaemonEvent::Synced(vec!["x".to_string()]));
    let (_run, action) = run.step(DaemonEvent::LockRead(LockReport::Unreadable));
    assert_eq!(words_of(action), "Failed to check loop state; try again in a moment.");
}

#[test]
fn an_interrupted_loop_ends_the_daemon() {
    let (run, _) = idle(DaemonKind::Matrix).step(DaemonEvent::Synced(vec!["go".to_string()]));
    let (run, _) = run.step(DaemonEvent::LockRead(LockReport::Inactive));
    let (run, _) = run.step(DaemonEvent::Sent);
    let (run, action) = run.step(DaemonEvent::Interrupted);
    assert_eq!(words_of(action), "Ralph daemon offline 👋");
    let (_run, action) = run.step(DaemonEvent::Sent);
    assert!(matches!(action, DaemonAction::Exit));
}
