//! Metadata of the application and of the machine it runs on.
use vstd::prelude::*;
use vstd::string::StrSliceExecFns;
use crate::value::{Value, is_text, is_text_entry, is_text_list, text_entry, entry};

verus! {

/// What the host knows of the build and of the machine: the package's name,
/// version, description and authors (separated by `:`), the operating system
/// and the architecture.
pub struct HostInfo {
    pub name: String,
    pub version: String,
    pub description: String,
    pub authors: String,
    pub platform: String,
    pub architecture: String,
}

/// The pieces of `s` between the `:` separators; there is always at least one.
pub open spec fn split_colons(s: Seq<char>) -> Seq<Seq<char>>
    decreases s.len(),
{
    if s.len() == 0 {
        seq![Seq::<char>::empty()]
    } else {
        let r = split_colons(s.drop_last());
        if s.last() == ':' {
            r.push(Seq::<char>::empty())
        } else {
            r.update(r.len() - 1, r.last().push(s.last()))
        }
    }
}

proof fn split_colons_nonempty(s: Seq<char>)
    ensures
        split_colons(s).len() >= 1,
    decreases s.len(),
{
    if s.len() > 0 {
        split_colons_nonempty(s.drop_last());
    }
}

/// The views of a list of values that are all texts.
pub open spec fn texts_of(v: Seq<Value>) -> Seq<Seq<char>> {
    v.map_values(|x: Value| x->Text_0@)
}

/// Splits `s` at each `:` into a list of texts.
pub fn split_authors(s: &str) -> (r: Value)
    ensures
        is_text_list(r, split_colons(s@)),
{
    let n = s.unicode_len();
    let mut parts: Vec<Value> = Vec::new();
    let mut start: usize = 0;
    let mut i: usize = 0;
    proof {
        assert(s@.take(0) =~= Seq::<char>::empty());
        assert(s@.subrange(0, 0) =~= Seq::<char>::empty());
        assert(texts_of(parts@) =~= Seq::<Seq<char>>::empty());
    }
    while i < n
        invariant
            n == s@.len(),
            start <= i <= n,
            forall|j: int| 0 <= j < parts@.len() ==> (#[trigger] parts@[j]) is Text,
            texts_of(parts@).push(s@.subrange(start as int, i as int)) == split_colons(
                s@.take(i as int),
            ),
        decreases n - i,
    {
        let ghost before = s@.take(i as int);
        let ghost old_texts = texts_of(parts@);
        let ghost piece_view = s@.subrange(start as int, i as int);
        proof {
            split_colons_nonempty(before);
            assert(s@.take(i as int + 1).drop_last() =~= before);
            assert(s@.take(i as int + 1).last() == s@[i as int]);
        }
        if s.get_char(i) == ':' {
            let piece = s.substring_char(start, i);
            parts.push(Value::Text(piece.to_owned()));
            start = i + 1;
            proof {
                assert(texts_of(parts@) =~= old_texts.push(piece_view));
                assert(s@.subrange(start as int, i as int + 1) =~= Seq::<char>::empty());
                assert(split_colons(s@.take(i as int + 1)) == old_texts.push(piece_view).push(
                    Seq::<char>::empty(),
                ));
            }
        } else {
            proof {
                assert(s@.subrange(start as int, i as int + 1) =~= piece_view.push(s@[i as int]));
                assert(split_colons(s@.take(i as int + 1)) =~= old_texts.push(
                    piece_view.push(s@[i as int]),
                ));
            }
        }
        i = i + 1;
    }
    let last = s.substring_char(start, n);
    parts.push(Value::Text(last.to_owned()));
    proof {
        assert(s@.take(n as int) =~= s@);
        assert(texts_of(parts@) =~= split_colons(s@));
        assert forall|j: int| 0 <= j < parts@.len() implies is_text(
            #[trigger] parts@[j],
            split_colons(s@)[j],
        ) by {
            assert(texts_of(parts@)[j] == parts@[j]->Text_0@);
        }
    }
    Value::List(parts)
}

/// `v` is the application's metadata as `get_app_info` gives it.
pub open spec fn is_app_info(v: Value, host: HostInfo) -> bool {
    &&& v is Object
    &&& v->Object_0@.len() == 6
    &&& is_text_entry(v->Object_0@[0], "name"@, host.name@)
    &&& is_text_entry(v->Object_0@[1], "version"@, host.version@)
    &&& is_text_entry(v->Object_0@[2], "description"@, host.description@)
    &&& v->Object_0@[3].0@ == "authors"@
    &&& is_text_list(v->Object_0@[3].1, split_colons(host.authors@))
    &&& is_text_entry(v->Object_0@[4], "platform"@, host.platform@)
    &&& is_text_entry(v->Object_0@[5], "architecture"@, host.architecture@)
}

/// `v` is the machine's description as `get_system_info` gives it.
pub open spec fn is_system_info(v: Value, host: HostInfo) -> bool {
    &&& v is Object
    &&& v->Object_0@.len() == 3
    &&& is_text_entry(v->Object_0@[0], "platform"@, host.platform@)
    &&& is_text_entry(v->Object_0@[1], "architecture"@, host.architecture@)
    &&& is_text_entry(v->Object_0@[2], "version"@, host.version@)
}

/// The application's name, version, description, authors, platform and architecture.
pub fn get_app_info(host: &HostInfo) -> (r: Value)
    ensures
        is_app_info(r, *host),
{
    let mut fields: Vec<(String, Value)> = Vec::new();
    fields.push(text_entry("name", host.name.as_str()));
    fields.push(text_entry("version", host.version.as_str()));
    fields.push(text_entry("description", host.description.as_str()));
    fields.push(entry("authors", split_authors(host.authors.as_str())));
    fields.push(text_entry("platform", host.platform.as_str()));
    fields.push(text_entry("architecture", host.architecture.as_str()));
    proof {
        reveal_strlit("name");
        reveal_strlit("version");
        reveal_strlit("description");
        reveal_strlit("authors");
        reveal_strlit("platform");
        reveal_strlit("architecture");
    }
    Value::Object(fields)
}

/// The platform, architecture and version.
pub fn get_system_info(host: &HostInfo) -> (r: Value)
    ensures
        is_system_info(r, *host),
{
    let mut fields: Vec<(String, Value)> = Vec::new();
    fields.push(text_entry("platform", host.platform.as_str()));
    fields.push(text_entry("architecture", host.architecture.as_str()));
    fields.push(text_entry("version", host.version.as_str()));
    proof {
        reveal_strlit("platform");
        reveal_strlit("architecture");
        reveal_strlit("version");
    }
    Value::Object(fields)
}

} // verus!
