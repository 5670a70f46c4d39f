//! The registry that binds command names to handlers.
use vstd::prelude::*;
use crate::counter::CounterOp;
use crate::text::same_text;

verus! {

/// The operations that a command name can be bound to.
#[derive(Clone, Copy, Debug, PartialEq, Eq, Structural)]
pub enum Handler {
    Greet,
    IncrementCounter,
    GetCounter,
    ResetCounter,
    GetAppInfo,
    GetAppConfig,
    SaveAppConfig,
    SaveNote,
    LoadNote,
    GetSystemInfo,
}

/// The counter operation that `h` performs, if it is a counter command.
pub open spec fn handler_counter_op(h: Handler) -> Option<CounterOp> {
    match h {
        Handler::IncrementCounter => Some(CounterOp::Increment),
        Handler::GetCounter => Some(CounterOp::Read),
        Handler::ResetCounter => Some(CounterOp::Reset),
        _ => None,
    }
}

impl Handler {
    /// The counter operation of a counter command; `None` for the commands
    /// that do not touch the counter.
    pub fn counter_op(&self) -> (r: Option<CounterOp>)
        ensures
            r == handler_counter_op(*self),
    {
        match self {
            Handler::IncrementCounter => Some(CounterOp::Increment),
            Handler::GetCounter => Some(CounterOp::Read),
            Handler::ResetCounter => Some(CounterOp::Reset),
            _ => None,
        }
    }
}

/// The bindings that a list of entries makes; a later entry for a name wins.
pub open spec fn bindings(entries: Seq<(Seq<char>, Handler)>) -> Map<Seq<char>, Handler>
    decreases entries.len(),
{
    if entries.len() == 0 {
        Map::empty()
    } else {
        bindings(entries.drop_last()).insert(entries.last().0, entries.last().1)
    }
}

/// Command names bound to handlers.
pub struct CommandRegistry {
    entries: Vec<(String, Handler)>,
}

/// The entries' names and handlers.
pub open spec fn entry_views(entries: Seq<(String, Handler)>) -> Seq<(Seq<char>, Handler)> {
    entries.map_values(|e: (String, Handler)| (e.0@, e.1))
}

proof fn bindings_hit(s: Seq<(Seq<char>, Handler)>, i: int)
    requires
        0 <= i < s.len(),
        forall|j: int| 0 <= j < s.len() && j != i ==> (#[trigger] s[j]).0 != s[i].0,
    ensures
        bindings(s).contains_key(s[i].0),
        bindings(s)[s[i].0] == s[i].1,
    decreases s.len(),
{
    if i < s.len() - 1 {
        bindings_hit(s.drop_last(), i);
    }
}

proof fn bindings_miss(s: Seq<(Seq<char>, Handler)>, k: Seq<char>)
    requires
        forall|j: int| 0 <= j < s.len() ==> (#[trigger] s[j]).0 != k,
    ensures
        !bindings(s).contains_key(k),
    decreases s.len(),
{
    if s.len() > 0 {
        bindings_miss(s.drop_last(), k);
    }
}

proof fn bindings_update(s: Seq<(Seq<char>, Handler)>, i: int, h: Handler)
    requires
        0 <= i < s.len(),
        forall|a: int, b: int| 0 <= a < b < s.len() ==> (#[trigger] s[a]).0 != (#[trigger] s[b]).0,
    ensures
        bindings(s.update(i, (s[i].0, h))) == bindings(s).insert(s[i].0, h),
    decreases s.len(),
{
    let t = s.update(i, (s[i].0, h));
    if i < s.len() - 1 {
        assert(t.drop_last() =~= s.drop_last().update(i, (s[i].0, h)));
        bindings_update(s.drop_last(), i, h);
        assert(bindings(t) =~= bindings(s).insert(s[i].0, h));
    } else {
        assert(t.drop_last() =~= s.drop_last());
        assert(bindings(t) =~= bindings(s).insert(s[i].0, h));
    }
}

/// The bindings of the full command set.
pub open spec fn default_bindings() -> Map<Seq<char>, Handler> {
    Map::<Seq<char>, Handler>::empty().insert("greet"@, Handler::Greet).insert(
        "increment_counter"@,
        Handler::IncrementCounter,
    ).insert("get_counter"@, Handler::GetCounter).insert("reset_counter"@, Handler::ResetCounter).insert(
        "get_app_info"@,
        Handler::GetAppInfo,
    ).insert("get_app_config"@, Handler::GetAppConfig).insert(
        "save_app_config"@,
        Handler::SaveAppConfig,
    ).insert("save_note"@, Handler::SaveNote).insert("load_note"@, Handler::LoadNote).insert(
        "get_system_info"@,
        Handler::GetSystemInfo,
    )
}

impl CommandRegistry {
    /// The bindings of the registry.
    pub closed spec fn view(&self) -> Map<Seq<char>, Handler> {
        bindings(entry_views(self.entries@))
    }

    /// No name has two entries.
    pub closed spec fn wf(&self) -> bool {
        forall|a: int, b: int|
            0 <= a < b < self.entries@.len() ==> (#[trigger] self.entries@[a]).0@
                != (#[trigger] self.entries@[b]).0@
    }

    /// A registry with no bindings.
    pub fn new() -> (r: CommandRegistry)
        ensures
            r.wf(),
            r.view() == Map::<Seq<char>, Handler>::empty(),
    {
        let r = CommandRegistry { entries: Vec::new() };
        assert(entry_views(r.entries@).len() == 0);
        r
    }

    /// A registry with every command bound under its name.
    pub fn with_default_commands() -> (r: CommandRegistry)
        ensures
            r.wf(),
            r.view() == default_bindings(),
    {
        let mut r = CommandRegistry::new();
        r.register("greet", Handler::Greet);
        r.register("increment_counter", Handler::IncrementCounter);
        r.register("get_counter", Handler::GetCounter);
        r.register("reset_counter", Handler::ResetCounter);
        r.register("get_app_info", Handler::GetAppInfo);
        r.register("get_app_config", Handler::GetAppConfig);
        r.register("save_app_config", Handler::SaveAppConfig);
        r.register("save_note", Handler::SaveNote);
        r.register("load_note", Handler::LoadNote);
        r.register("get_system_info", Handler::GetSystemInfo);
        r
    }

    fn position(&self, name: &str) -> (r: Option<usize>)
        ensures
            match r {
                Some(i) => i < self.entries@.len() && self.entries@[i as int].0@ == name@,
                None => forall|j: int|
                    0 <= j < self.entries@.len() ==> (#[trigger] self.entries@[j]).0@ != name@,
            },
    {
        let mut i: usize = 0;
        while i < self.entries.len()
            invariant
                i <= self.entries@.len(),
                forall|j: int| 0 <= j < i ==> (#[trigger] self.entries@[j]).0@ != name@,
            decreases self.entries@.len() - i,
        {
            if same_text(self.entries[i].0.as_str(), name) {
                return Some(i);
            }
            i = i + 1;
        }
        None
    }

    /// Binds `name` to `handler`; a binding already there for `name` is replaced.
    pub fn register(&mut self, name: &str, handler: Handler)
        requires
            old(self).wf(),
        ensures
            final(self).wf(),
            final(self).view() == old(self).view().insert(name@, handler),
    {
        let ghost s = entry_views(self.entries@);
        match self.position(name) {
            Some(i) => {
                let entry = (name.to_owned(), handler);
                self.entries.set(i, entry);
                proof {
                    bindings_update(s, i as int, handler);
                    assert(entry_views(self.entries@) =~= s.update(i as int, (s[i as int].0, handler)));
                }
            },
            None => {
                self.entries.push((name.to_owned(), handler));
                proof {
                    let t = entry_views(self.entries@);
                    assert(t.drop_last() =~= s);
                }
            },
        }
    }

    /// The handler bound to `name`, if any.
    pub fn resolve(&self, name: &str) -> (r: Option<Handler>)
        requires
            self.wf(),
        ensures
            match r {
                Some(h) => self.view().contains_key(name@) && self.view()[name@] == h,
                None => !self.view().contains_key(name@),
            },
    {
        let ghost s = entry_views(self.entries@);
        match self.position(name) {
            Some(i) => {
                proof {
                    bindings_hit(s, i as int);
                }
                Some(self.entries[i].1)
            },
            None => {
                proof {
                    bindings_miss(s, name@);
                }
                None
            },
        }
    }
}

} // verus!
