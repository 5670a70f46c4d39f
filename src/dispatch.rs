//! The dispatcher: resolves a request's command, reads its arguments, runs
//! its handler and wraps what comes back.
use vstd::prelude::*;
use vstd::string::StringExecFns;
use crate::config::{AppConfig, get_app_config, is_default_config, save_app_config};
use crate::counter::{CounterOp, SharedCounter};
use crate::greeting::{greeting_spec, greet};
use crate::info::{HostInfo, get_app_info, get_system_info, is_app_info, is_system_info};
use crate::notes::{load_note, note_path_spec, placeholder_note, save_note};
use crate::registry::{CommandRegistry, Handler, handler_counter_op};
use crate::value::{CommandRequest, CommandResult, Value, entry, field_spec, find_field, is_text};

verus! {

/// Message for a command name that no handler is bound to.
pub open spec fn unknown_command_message(name: Seq<char>) -> Seq<char> {
    "unknown command: "@ + name
}

/// Message for a required argument that is absent.
pub open spec fn missing_message(key: Seq<char>) -> Seq<char> {
    "missing argument: "@ + key
}

/// Message for an argument of the wrong shape.
pub open spec fn invalid_message(key: Seq<char>) -> Seq<char> {
    "invalid argument: "@ + key
}

/// Message for an increment that would pass the counter's largest value.
pub open spec fn overflow_message() -> Seq<char> {
    "counter overflow"@
}

/// `r` is a failure with message `m`.
pub open spec fn fails_with(r: CommandResult, m: Seq<char>) -> bool {
    r is Failure && r->Failure_0@ == m
}

/// `r` is a success whose value is the text `s`.
pub open spec fn succeeds_with_text(r: CommandResult, s: Seq<char>) -> bool {
    r is Success && is_text(r->Success_0, s)
}

/// `v` is `{value: n}`.
pub open spec fn is_counter_value(v: Value, n: int) -> bool {
    &&& v is Object
    &&& v->Object_0@.len() == 1
    &&& v->Object_0@[0].0@ == "value"@
    &&& v->Object_0@[0].1 == Value::Int(n as i64)
}

/// `v` is `{theme, auto_save, font_size}` of `c`.
pub open spec fn is_config_value(v: Value, c: AppConfig) -> bool {
    &&& v is Object
    &&& v->Object_0@.len() == 3
    &&& v->Object_0@[0].0@ == "theme"@
    &&& is_text(v->Object_0@[0].1, c.theme@)
    &&& v->Object_0@[1].0@ == "auto_save"@
    &&& v->Object_0@[1].1 == Value::Bool(c.auto_save)
    &&& v->Object_0@[2].0@ == "font_size"@
    &&& v->Object_0@[2].1 == Value::Int(c.font_size as i64)
}

/// A required text argument: its text, or the message of the failure.
pub open spec fn text_arg(args: Seq<(String, Value)>, key: Seq<char>) -> Result<Seq<char>, Seq<char>> {
    match field_spec(args, key) {
        None => Err(missing_message(key)),
        Some(Value::Text(t)) => Ok(t@),
        Some(_) => Err(invalid_message(key)),
    }
}

/// An optional text argument, absent or null when not given.
pub open spec fn optional_text_arg(args: Seq<(String, Value)>, key: Seq<char>) -> Result<
    Option<Seq<char>>,
    Seq<char>,
> {
    match field_spec(args, key) {
        None => Ok(None),
        Some(Value::Null) => Ok(None),
        Some(Value::Text(t)) => Ok(Some(t@)),
        Some(_) => Err(invalid_message(key)),
    }
}

/// The settings that an object value describes, if it describes some.
pub open spec fn config_of(v: Value) -> Option<(Seq<char>, bool, u32)> {
    match v {
        Value::Object(fields) => match (
            field_spec(fields@, "theme"@),
            field_spec(fields@, "auto_save"@),
            field_spec(fields@, "font_size"@),
        ) {
            (Some(Value::Text(t)), Some(Value::Bool(b)), Some(Value::Int(n))) => if 0 <= n
                <= u32::MAX {
                Some((t@, b, n as u32))
            } else {
                None
            },
            _ => None,
        },
        _ => None,
    }
}

/// The `config` argument: the settings it describes, or the message of the failure.
pub open spec fn config_arg(args: Seq<(String, Value)>) -> Result<(Seq<char>, bool, u32), Seq<char>> {
    match field_spec(args, "config"@) {
        None => Err(missing_message("config"@)),
        Some(v) => match config_of(v) {
            Some(c) => Ok(c),
            None => Err(invalid_message("config"@)),
        },
    }
}

/// What counter operation `op` gives, with the counter at `before` and left at `after`.
pub open spec fn counter_handled(op: CounterOp, before: int, after: int, r: CommandResult) -> bool {
    match op {
        CounterOp::Increment => if before < i32::MAX {
            after == before + 1 && r is Success && is_counter_value(r->Success_0, after)
        } else {
            after == before && fails_with(r, overflow_message())
        },
        CounterOp::Read => after == before && r is Success && is_counter_value(r->Success_0, before),
        CounterOp::Reset => after == 0 && r is Success && is_counter_value(r->Success_0, 0),
    }
}

/// What running `handler`, a command that does not touch the counter, on
/// `args` gives; a note saved without a path is named by `timestamp`.
pub open spec fn stateless_handled(
    handler: Handler,
    args: Seq<(String, Value)>,
    host: HostInfo,
    timestamp: int,
    r: CommandResult,
) -> bool {
    match handler {
        Handler::Greet => match text_arg(args, "name"@) {
            Ok(name) => succeeds_with_text(r, greeting_spec(name)),
            Err(m) => fails_with(r, m),
        },
        Handler::GetAppInfo => r is Success && is_app_info(r->Success_0, host),
        Handler::GetAppConfig => r is Success && exists|c: AppConfig|
            is_default_config(c) && is_config_value(r->Success_0, c),
        Handler::SaveAppConfig => match config_arg(args) {
            Ok(_) => r == CommandResult::Success(Value::Null),
            Err(m) => fails_with(r, m),
        },
        Handler::SaveNote => match (text_arg(args, "content"@), optional_text_arg(args, "path"@)) {
            (Err(m), _) => fails_with(r, m),
            (Ok(_), Err(m)) => fails_with(r, m),
            (Ok(_), Ok(p)) => succeeds_with_text(r, note_path_spec(p, timestamp)),
        },
        Handler::LoadNote => match text_arg(args, "path"@) {
            Ok(_) => succeeds_with_text(r, placeholder_note()),
            Err(m) => fails_with(r, m),
        },
        Handler::GetSystemInfo => r is Success && is_system_info(r->Success_0, host),
        _ => false,
    }
}

/// What running `handler` on `args` gives, with the counter at `before` and
/// left at `after`; a note saved without a path is named by `timestamp`.
pub open spec fn handled(
    handler: Handler,
    args: Seq<(String, Value)>,
    host: HostInfo,
    before: int,
    after: int,
    timestamp: int,
    r: CommandResult,
) -> bool {
    match handler_counter_op(handler) {
        Some(op) => counter_handled(op, before, after, r),
        None => after == before && stateless_handled(handler, args, host, timestamp, r),
    }
}

/// What dispatching `request` gives: an unknown name fails and changes nothing,
/// a known one runs its handler.
pub open spec fn dispatched(
    bindings: Map<Seq<char>, Handler>,
    request: CommandRequest,
    host: HostInfo,
    before: int,
    after: int,
    timestamp: int,
    r: CommandResult,
) -> bool {
    if bindings.contains_key(request.name@) {
        handled(bindings[request.name@], request.arguments@, host, before, after, timestamp, r)
    } else {
        after == before && fails_with(r, unknown_command_message(request.name@))
    }
}

fn missing(key: &str) -> (r: String)
    ensures
        r@ == missing_message(key@),
{
    proof {
        reveal_strlit("missing argument: ");
    }
    let mut m = "missing argument: ".to_owned();
    m.append(key);
    m
}

fn invalid(key: &str) -> (r: String)
    ensures
        r@ == invalid_message(key@),
{
    proof {
        reveal_strlit("invalid argument: ");
    }
    let mut m = "invalid argument: ".to_owned();
    m.append(key);
    m
}

/// Reads the required text argument `key`.
pub fn text_argument<'a>(args: &'a Vec<(String, Value)>, key: &str) -> (r: Result<&'a String, String>)
    ensures
        match text_arg(args@, key@) {
            Ok(t) => r is Ok && r->Ok_0@ == t,
            Err(m) => r is Err && r->Err_0@ == m,
        },
{
    match find_field(args, key) {
        None => Err(missing(key)),
        Some(Value::Text(t)) => Ok(t),
        Some(_) => Err(invalid(key)),
    }
}

/// Reads the optional text argument `key`; null counts as absent.
pub fn optional_text_argument<'a>(args: &'a Vec<(String, Value)>, key: &str) -> (r: Result<
    Option<&'a String>,
    String,
>)
    ensures
        match optional_text_arg(args@, key@) {
            Ok(Some(t)) => r is Ok && r->Ok_0 is Some && r->Ok_0->Some_0@ == t,
            Ok(None) => r is Ok && r->Ok_0 is None,
            Err(m) => r is Err && r->Err_0@ == m,
        },
{
    match find_field(args, key) {
        None => Ok(None),
        Some(Value::Null) => Ok(None),
        Some(Value::Text(t)) => Ok(Some(t)),
        Some(_) => Err(invalid(key)),
    }
}

/// Reads the settings that `v` describes.
pub fn config_from_value(v: &Value) -> (r: Option<AppConfig>)
    ensures
        match config_of(*v) {
            Some(c) => r is Some && r->Some_0.theme@ == c.0 && r->Some_0.auto_save == c.1
                && r->Some_0.font_size == c.2,
            None => r is None,
        },
{
    proof {
        reveal_strlit("theme");
        reveal_strlit("auto_save");
        reveal_strlit("font_size");
    }
    match v {
        Value::Object(fields) => match (
            find_field(fields, "theme"),
            find_field(fields, "auto_save"),
            find_field(fields, "font_size"),
        ) {
            (Some(Value::Text(t)), Some(Value::Bool(b)), Some(Value::Int(n))) => {
                if 0 <= *n && *n <= u32::MAX as i64 {
                    Some(AppConfig { theme: t.clone(), auto_save: *b, font_size: *n as u32 })
                } else {
                    None
                }
            },
            _ => None,
        },
        _ => None,
    }
}

/// Reads the `config` argument.
pub fn config_argument(args: &Vec<(String, Value)>) -> (r: Result<AppConfig, String>)
    ensures
        match config_arg(args@) {
            Ok(c) => r is Ok && r->Ok_0.theme@ == c.0 && r->Ok_0.auto_save == c.1
                && r->Ok_0.font_size == c.2,
            Err(m) => r is Err && r->Err_0@ == m,
        },
{
    proof {
        reveal_strlit("config");
    }
    match find_field(args, "config") {
        None => Err(missing("config")),
        Some(v) => match config_from_value(v) {
            Some(c) => Ok(c),
            None => Err(invalid("config")),
        },
    }
}

/// `{value: n}`.
pub fn counter_value(n: i32) -> (r: Value)
    ensures
        is_counter_value(r, n as int),
{
    proof {
        reveal_strlit("value");
    }
    let mut fields: Vec<(String, Value)> = Vec::new();
    fields.push(entry("value", Value::Int(n as i64)));
    Value::Object(fields)
}

/// `{theme, auto_save, font_size}` of `c`.
pub fn config_value(c: &AppConfig) -> (r: Value)
    ensures
        is_config_value(r, *c),
{
    proof {
        reveal_strlit("theme");
        reveal_strlit("auto_save");
        reveal_strlit("font_size");
    }
    let mut fields: Vec<(String, Value)> = Vec::new();
    fields.push(entry("theme", Value::Text(c.theme.clone())));
    fields.push(entry("auto_save", Value::Bool(c.auto_save)));
    fields.push(entry("font_size", Value::Int(c.font_size as i64)));
    Value::Object(fields)
}

/// Runs the counter operation `op` under the caller's exclusive hold of the counter.
pub fn run_counter_command(op: CounterOp, counter: &mut SharedCounter) -> (r: CommandResult)
    ensures
        counter_handled(op, old(counter)@, final(counter)@, r),
{
    proof {
        reveal_strlit("counter overflow");
    }
    match op {
        CounterOp::Increment => {
            if counter.can_increment() {
                let v = counter.increment();
                CommandResult::Success(counter_value(v))
            } else {
                CommandResult::Failure("counter overflow".to_owned())
            }
        },
        CounterOp::Read => CommandResult::Success(counter_value(counter.read())),
        CounterOp::Reset => CommandResult::Success(counter_value(counter.reset())),
    }
}

/// Runs `handler`, a command that does not touch the counter, on `args`; a
/// note saved without a path is named by `timestamp`.
pub fn run_stateless(
    handler: Handler,
    args: &Vec<(String, Value)>,
    host: &HostInfo,
    timestamp: i64,
) -> (r: CommandResult)
    requires
        handler_counter_op(handler) is None,
    ensures
        stateless_handled(handler, args@, *host, timestamp as int, r),
{
    proof {
        reveal_strlit("name");
        reveal_strlit("content");
        reveal_strlit("path");
    }
    match handler {
        Handler::Greet => match text_argument(args, "name") {
            Ok(name) => CommandResult::Success(Value::Text(greet(name.as_str()))),
            Err(m) => CommandResult::Failure(m),
        },
        Handler::GetAppInfo => CommandResult::Success(get_app_info(host)),
        Handler::GetAppConfig => {
            let c = get_app_config();
            CommandResult::Success(config_value(&c))
        },
        Handler::SaveAppConfig => match config_argument(args) {
            Ok(c) => match save_app_config(c) {
                Ok(()) => CommandResult::Success(Value::Null),
                Err(m) => CommandResult::Failure(m),
            },
            Err(m) => CommandResult::Failure(m),
        },
        Handler::SaveNote => match text_argument(args, "content") {
            Err(m) => CommandResult::Failure(m),
            Ok(content) => match optional_text_argument(args, "path") {
                Err(m) => CommandResult::Failure(m),
                Ok(p) => {
                    let given = match p {
                        Some(s) => Some(s.clone()),
                        None => None,
                    };
                    CommandResult::Success(Value::Text(save_note(content.as_str(), given, timestamp)))
                },
            },
        },
        Handler::LoadNote => match text_argument(args, "path") {
            Ok(p) => CommandResult::Success(Value::Text(load_note(p.as_str()))),
            Err(m) => CommandResult::Failure(m),
        },
        Handler::GetSystemInfo => CommandResult::Success(get_system_info(host)),
        _ => CommandResult::Failure("counter command".to_owned()),
    }
}

/// Runs `handler` on `args`; a note saved without a path is named by `timestamp`.
pub fn run_handler(
    handler: Handler,
    args: &Vec<(String, Value)>,
    counter: &mut SharedCounter,
    host: &HostInfo,
    timestamp: i64,
) -> (r: CommandResult)
    ensures
        handled(handler, args@, *host, old(counter)@, final(counter)@, timestamp as int, r),
{
    match handler.counter_op() {
        Some(op) => run_counter_command(op, counter),
        None => run_stateless(handler, args, host, timestamp),
    }
}

/// The failure for a command name that no handler is bound to.
pub fn unknown_command(name: &str) -> (r: CommandResult)
    ensures
        fails_with(r, unknown_command_message(name@)),
{
    proof {
        reveal_strlit("unknown command: ");
    }
    let mut m = "unknown command: ".to_owned();
    m.append(name);
    CommandResult::Failure(m)
}

/// Dispatches `request`. `timestamp`, the current Unix time in seconds, is
/// read only by `save_note` when no path is given, which names the note by it.
pub fn dispatch(
    registry: &CommandRegistry,
    counter: &mut SharedCounter,
    host: &HostInfo,
    request: &CommandRequest,
    timestamp: i64,
) -> (r: CommandResult)
    requires
        registry.wf(),
    ensures
        dispatched(
            registry.view(),
            *request,
            *host,
            old(counter)@,
            final(counter)@,
            timestamp as int,
            r,
        ),
{
    match registry.resolve(request.name.as_str()) {
        Some(handler) => run_handler(handler, &request.arguments, counter, host, timestamp),
        None => unknown_command(request.name.as_str()),
    }
}

} // verus!
