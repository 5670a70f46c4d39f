use noteum::config::{get_app_config, save_app_config, AppConfig};
use noteum::counter::{CounterOp, SharedCounter};
use noteum::dispatch::{dispatch, run_counter_command, unknown_command};
use noteum::info::{get_app_info, get_system_info, split_authors, HostInfo};
use noteum::notes::{decimal_text, load_note, save_note};
use noteum::registry::{CommandRegistry, Handler};
use noteum::value::{CommandRequest, CommandResult, Value};

fn host() -> HostInfo {
    HostInfo {
        name: "noteum".to_string(),
        version: "0.1.0".to_string(),
        description: "Notes".to_string(),
        authors: "Ann:Bo".to_string(),
        platform: "linux".to_string(),
        architecture: "x86_64".to_string(),
    }
}

fn request(name: &str, arguments: Vec<(String, Value)>) -> CommandRequest {
    CommandRequest { name: name.to_string(), arguments }
}

fn text(v: &Value) -> &str {
    match v {
        Value::Text(t) => t.as_str(),
        _ => panic!("not a text value"),
    }
}

fn counter_of(r: &CommandResult) -> i64 {
    match r {
        CommandResult::Success(Value::Object(fields)) => {
            assert_eq!(fields.len(), 1);
            assert_eq!(fields[0].0, "value");
            match fields[0].1 {
                Value::Int(n) => n,
                _ => panic!("value is not an integer"),
            }
        }
        _ => panic!("not a counter result"),
    }
}

fn failure_of(r: &CommandResult) -> &str {
    match r {
        CommandResult::Failure(m) => m.as_str(),
        CommandResult::Success(_) => panic!("expected a failure"),
    }
}

#[test]
fn counter_increment_reset_read() {
    let mut c = SharedCounter::new();
    assert_eq!(c.read(), 0);
    assert_eq!(c.increment(), 1);
    assert_eq!(c.increment(), 2);
    assert_eq!(c.read(), 2);
    assert_eq!(c.reset(), 0);
    assert_eq!(c.read(), 0);
    assert_eq!(c.apply(CounterOp::Increment), 1);
    assert_eq!(c.apply(CounterOp::Read), 1);
    assert_eq!(c.apply(CounterOp::Reset), 0);
}

#[test]
fn dispatch_increments_count() {
    let mut c = SharedCounter::new();
    assert!(c.can_increment());
    let registry = CommandRegistry::with_default_commands();
    let h = host();
    for _ in 0..5 {
        dispatch(&registry, &mut c, &h, &request("increment_counter", vec![]), 0);
    }
    assert_eq!(c.read(), 5);
}

#[test]
fn reads_after_reset_are_zero() {
    let registry = CommandRegistry::with_default_commands();
    let h = host();
    let mut c = SharedCounter::new();
    c.increment();
    c.increment();
    let r = dispatch(&registry, &mut c, &h, &request("reset_counter", vec![]), 0);
    assert_eq!(counter_of(&r), 0);
    for _ in 0..3 {
        let r = dispatch(&registry, &mut c, &h, &request("get_counter", vec![]), 0);
        assert_eq!(counter_of(&r), 0);
    }
}

#[test]
fn dispatch_counter_sequence() {
    let registry = CommandRegistry::with_default_commands();
    let h = host();
    let mut c = SharedCounter::new();
    let r = dispatch(&registry, &mut c, &h, &request("reset_counter", vec![]), 0);
    assert_eq!(counter_of(&r), 0);
    let r = dispatch(&registry, &mut c, &h, &request("increment_counter", vec![]), 0);
    assert_eq!(counter_of(&r), 1);
    let r = dispatch(&registry, &mut c, &h, &request("increment_counter", vec![]), 0);
    assert_eq!(counter_of(&r), 2);
    let r = dispatch(&registry, &mut c, &h, &request("get_counter", vec![]), 0);
    assert_eq!(counter_of(&r), 2);
}

#[test]
fn dispatch_unknown_command_fails() {
    let registry = CommandRegistry::with_default_commands();
    let h = host();
    let mut c = SharedCounter::new();
    c.increment();
    let r = dispatch(&registry, &mut c, &h, &request("no_such_command", vec![]), 0);
    assert_eq!(failure_of(&r), "unknown command: no_such_command");
    assert_eq!(c.read(), 1);
}

#[test]
fn dispatch_greet() {
    let registry = CommandRegistry::with_default_commands();
    let h = host();
    let mut c = SharedCounter::new();
    let args = vec![("name".to_string(), Value::Text("World".to_string()))];
    match dispatch(&registry, &mut c, &h, &request("greet", args), 0) {
        CommandResult::Success(v) => assert_eq!(text(&v), "Hello, World! You've been greeted from Rust!"),
        CommandResult::Failure(m) => panic!("{}", m),
    }
}

#[test]
fn dispatch_greet_missing_and_invalid_name() {
    let registry = CommandRegistry::with_default_commands();
    let h = host();
    let mut c = SharedCounter::new();
    let r = dispatch(&registry, &mut c, &h, &request("greet", vec![]), 0);
    assert_eq!(failure_of(&r), "missing argument: name");
    let args = vec![("name".to_string(), Value::Int(3))];
    let r = dispatch(&registry, &mut c, &h, &request("greet", args), 0);
    assert_eq!(failure_of(&r), "invalid argument: name");
}

#[test]
fn dispatch_save_note() {
    let registry = CommandRegistry::with_default_commands();
    let h = host();
    let mut c = SharedCounter::new();
    let args = vec![("content".to_string(), Value::Text("hi".to_string()))];
    match dispatch(&registry, &mut c, &h, &request("save_note", args), 1700000000) {
        CommandResult::Success(v) => assert_eq!(text(&v), "note_1700000000.md"),
        CommandResult::Failure(m) => panic!("{}", m),
    }
    let args = vec![
        ("content".to_string(), Value::Text("hi".to_string())),
        ("path".to_string(), Value::Text("x.md".to_string())),
    ];
    match dispatch(&registry, &mut c, &h, &request("save_note", args), 5) {
        CommandResult::Success(v) => assert_eq!(text(&v), "x.md"),
        CommandResult::Failure(m) => panic!("{}", m),
    }
    let args = vec![("path".to_string(), Value::Text("x.md".to_string()))];
    let r = dispatch(&registry, &mut c, &h, &request("save_note", args), 5);
    assert_eq!(failure_of(&r), "missing argument: content");
    let args = vec![
        ("content".to_string(), Value::Text("hi".to_string())),
        ("path".to_string(), Value::Bool(true)),
    ];
    let r = dispatch(&registry, &mut c, &h, &request("save_note", args), 5);
    assert_eq!(failure_of(&r), "invalid argument: path");
}

#[test]
fn dispatch_load_note() {
    let registry = CommandRegistry::with_default_commands();
    let h = host();
    let mut c = SharedCounter::new();
    let args = vec![("path".to_string(), Value::Text("a.md".to_string()))];
    match dispatch(&registry, &mut c, &h, &request("load_note", args), 0) {
        CommandResult::Success(v) => assert_eq!(
            text(&v),
            "# Sample Note\n\nThis is a sample note loaded from the desktop app."
        ),
        CommandResult::Failure(m) => panic!("{}", m),
    }
}

fn config_arg(theme: &str, auto_save: bool, font_size: i64) -> Vec<(String, Value)> {
    vec![(
        "config".to_string(),
        Value::Object(vec![
            ("theme".to_string(), Value::Text(theme.to_string())),
            ("auto_save".to_string(), Value::Bool(auto_save)),
            ("font_size".to_string(), Value::Int(font_size)),
        ]),
    )]
}

fn assert_default_config(r: &CommandResult) {
    match r {
        CommandResult::Success(Value::Object(f)) => {
            assert_eq!(f.len(), 3);
            assert_eq!(f[0].0, "theme");
            assert_eq!(text(&f[0].1), "dark");
            assert_eq!(f[1].0, "auto_save");
            assert!(matches!(f[1].1, Value::Bool(true)));
            assert_eq!(f[2].0, "font_size");
            assert!(matches!(f[2].1, Value::Int(14)));
        }
        _ => panic!("not a config"),
    }
}

#[test]
fn dispatch_config_is_not_retained() {
    let registry = CommandRegistry::with_default_commands();
    let h = host();
    let mut c = SharedCounter::new();
    let r = dispatch(&registry, &mut c, &h, &request("get_app_config", vec![]), 0);
    assert_default_config(&r);
    let r = dispatch(&registry, &mut c, &h, &request("save_app_config", config_arg("light", false, 20)), 0);
    assert!(matches!(r, CommandResult::Success(Value::Null)));
    let r = dispatch(&registry, &mut c, &h, &request("get_app_config", vec![]), 0);
    assert_default_config(&r);
}

#[test]
fn dispatch_save_config_errors() {
    let registry = CommandRegistry::with_default_commands();
    let h = host();
    let mut c = SharedCounter::new();
    let r = dispatch(&registry, &mut c, &h, &request("save_app_config", vec![]), 0);
    assert_eq!(failure_of(&r), "missing argument: config");
    let r = dispatch(&registry, &mut c, &h, &request("save_app_config", config_arg("x", true, -1)), 0);
    assert_eq!(failure_of(&r), "invalid argument: config");
}

#[test]
fn config_defaults_after_save() {
    let saved = AppConfig { theme: "light".to_string(), auto_save: false, font_size: 9 };
    assert!(save_app_config(saved).is_ok());
    let c = get_app_config();
    assert_eq!(c.theme, "dark");
    assert!(c.auto_save);
    assert_eq!(c.font_size, 14);
}

#[test]
fn save_note_paths() {
    assert_eq!(save_note("hi", Some("x.md".to_string()), 1700000000), "x.md");
    let p = save_note("hi", None, 1700000000);
    assert_eq!(p, "note_1700000000.md");
    assert!(p.starts_with("note_") && p.ends_with(".md"));
    let body = &p[5..p.len() - 3];
    assert!(!body.is_empty() && body.chars().all(|c| c.is_ascii_digit()));
}

#[test]
fn save_note_path_from_timestamp() {
    assert_eq!(save_note("", None, 0), "note_0.md");
    assert_eq!(save_note("", None, 1700000123), "note_1700000123.md");
    assert_eq!(save_note("", Some("a.md".to_string()), 1), "a.md");
    assert_eq!(decimal_text(-42), "-42");
    assert_eq!(decimal_text(i64::MIN), "-9223372036854775808");
    assert_eq!(decimal_text(i64::MAX), "9223372036854775807");
}

#[test]
fn load_note_is_placeholder() {
    assert_eq!(
        load_note("any.md"),
        "# Sample Note\n\nThis is a sample note loaded from the desktop app."
    );
}

#[test]
fn app_and_system_info() {
    let h = host();
    match get_app_info(&h) {
        Value::Object(f) => {
            let keys: Vec<&str> = f.iter().map(|e| e.0.as_str()).collect();
            assert_eq!(keys, vec!["name", "version", "description", "authors", "platform", "architecture"]);
            assert_eq!(text(&f[0].1), "noteum");
            match &f[3].1 {
                Value::List(a) => {
                    assert_eq!(a.len(), 2);
                    assert_eq!(text(&a[0]), "Ann");
                    assert_eq!(text(&a[1]), "Bo");
                }
                _ => panic!("authors is not a list"),
            }
        }
        _ => panic!("not an object"),
    }
    match get_system_info(&h) {
        Value::Object(f) => {
            assert_eq!(f.len(), 3);
            assert_eq!(text(&f[0].1), "linux");
            assert_eq!(text(&f[1].1), "x86_64");
            assert_eq!(text(&f[2].1), "0.1.0");
        }
        _ => panic!("not an object"),
    }
}

#[test]
fn split_authors_edges() {
    match split_authors("") {
        Value::List(a) => {
            assert_eq!(a.len(), 1);
            assert_eq!(text(&a[0]), "");
        }
        _ => panic!("not a list"),
    }
    match split_authors("a::b:") {
        Value::List(a) => {
            let parts: Vec<&str> = a.iter().map(text).collect();
            assert_eq!(parts, vec!["a", "", "b", ""]);
        }
        _ => panic!("not a list"),
    }
}

#[test]
fn registry_last_registration_wins() {
    let mut r = CommandRegistry::new();
    assert_eq!(r.resolve("greet"), None);
    r.register("greet", Handler::Greet);
    r.register("other", Handler::GetCounter);
    r.register("greet", Handler::LoadNote);
    assert_eq!(r.resolve("greet"), Some(Handler::LoadNote));
    assert_eq!(r.resolve("other"), Some(Handler::GetCounter));
    let d = CommandRegistry::with_default_commands();
    assert_eq!(d.resolve("get_system_info"), Some(Handler::GetSystemInfo));
    assert_eq!(d.resolve("missing"), None);
}

#[test]
fn counter_commands_directly() {
    let mut c = SharedCounter::new();
    assert_eq!(counter_of(&run_counter_command(CounterOp::Increment, &mut c)), 1);
    assert_eq!(counter_of(&run_counter_command(CounterOp::Read, &mut c)), 1);
    assert_eq!(counter_of(&run_counter_command(CounterOp::Reset, &mut c)), 0);
    assert_eq!(failure_of(&unknown_command("x")), "unknown command: x");
}

#[test]
fn handler_counter_ops() {
    assert_eq!(Handler::IncrementCounter.counter_op(), Some(CounterOp::Increment));
    assert_eq!(Handler::GetCounter.counter_op(), Some(CounterOp::Read));
    assert_eq!(Handler::ResetCounter.counter_op(), Some(CounterOp::Reset));
    assert_eq!(Handler::Greet.counter_op(), None);
}
