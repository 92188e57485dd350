//! The index that tells on which node each sandbox runs: in memory on a single
//! node, in Redis for several.

use vstd::prelude::*;

use crate::json;
use crate::json::{Form, Js, Json};
use crate::keyed;
use crate::keyed::Keyed;
use crate::text;
use crate::text::cat;

verus! {

/// Where a sandbox runs, and how it is doing.
#[derive(Debug)]
pub struct SandboxIndexEntry {
    pub id: String,
    pub node: String,
    pub status: String,
}

/// The mathematical reading of an entry.
#[verifier::ext_equal]
pub struct Entry {
    pub id: Seq<char>,
    pub node: Seq<char>,
    pub status: Seq<char>,
}

impl SandboxIndexEntry {
    pub open spec fn view(self) -> Entry {
        Entry { id: self.id@, node: self.node@, status: self.status@ }
    }

    /// A copy of the entry.
    pub fn copy(&self) -> (r: SandboxIndexEntry)
        ensures
            r.view() == self.view(),
    {
        SandboxIndexEntry {
            id: self.id.clone(),
            node: self.node.clone(),
            status: self.status.clone(),
        }
    }

    /// The entry as JSON.
    pub fn to_json(&self) -> (r: Json)
        ensures
            r.view() == entry_json(self.view()),
            r.form() == entry_form(self.view()),
    {
        let r = Json::object().put("id", Json::text(self.id.as_str())).put(
            "node",
            Json::text(self.node.as_str()),
        ).put("status", Json::text(self.status.as_str()));
        assert(r.form()->Obj_0 =~= entry_form(self.view())->Obj_0);
        r
    }

    /// Reads an entry.
    pub fn from_json(j: &Json) -> (r: Option<SandboxIndexEntry>)
        ensures
            match r {
                Some(e) => entry_of(j.view()) == Some(e.view()),
                None => entry_of(j.view()) is None,
            },
    {
        let names: [&'static str; 3] = ["id", "node", "status"];
        assert(text::names_of(names@) =~= entry_fields());
        let o = json::name_fields(j, &names, 3)?;
        match (o.str_at("id"), o.str_at("node"), o.str_at("status")) {
            (Some(id), Some(node), Some(status)) => Some(
                SandboxIndexEntry {
                    id: id.to_owned(),
                    node: node.to_owned(),
                    status: status.to_owned(),
                },
            ),
            _ => None,
        }
    }
}

/// An entry as JSON.
pub open spec fn entry_json(e: Entry) -> Js {
    Js::Obj(
        Map::<Seq<char>, Js>::empty().insert("id"@, Js::Str(e.id)).insert(
            "node"@,
            Js::Str(e.node),
        ).insert("status"@, Js::Str(e.status)),
    )
}

/// An entry as it is written.
pub open spec fn entry_form(e: Entry) -> Form {
    Form::Obj(
        seq![
            ("id"@, Form::Str(e.id)),
            ("node"@, Form::Str(e.node)),
            ("status"@, Form::Str(e.status)),
        ],
    )
}

/// The fields of an entry, in their order.
pub open spec fn entry_fields() -> Seq<Seq<char>> {
    seq!["id"@, "node"@, "status"@]
}

/// The entry that a JSON value describes, by the names of its fields or by their order.
pub open spec fn entry_of(j: Js) -> Option<Entry> {
    match json::named(j, entry_fields(), 3) {
        None => None,
        Some(o) => match (o.str_at("id"@), o.str_at("node"@), o.str_at("status"@)) {
            (Some(id), Some(node), Some(status)) => Some(Entry { id, node, status }),
            _ => None,
        },
    }
}

/// The entry that a stored text describes.
pub open spec fn stored_entry(text: Seq<char>) -> Option<Entry> {
    match json::json_read(text) {
        Ok(j) => entry_of(j),
        Err(_) => None,
    }
}

/// What is stored for a sandbox reads back as its entry.
pub proof fn law_stored_entry_reads_back(e: Entry, text: Seq<char>)
    requires
        json::reads_back(text, entry_json(e)),
    ensures
        stored_entry(text) == Some(e),
{
    reveal_strlit("id");
    reveal_strlit("node");
    reveal_strlit("status");
    assert("id"@.len() == 2 && "node"@.len() == 4 && "status"@.len() == 6);
    let j = entry_json(e);
    reveal_with_fuel(Js::integral, 2);
    reveal_with_fuel(Js::shallow, 2);
    assert(j.integral() && j.shallow(127));
}

/// Where the index is kept.
#[derive(Debug)]
pub enum Backend {
    /// In memory.
    Local,
    /// In Redis, at this address.
    Redis(String),
}

/// Decides where the index is kept, by the configured address.
pub fn backend(url: Option<String>) -> (r: Backend)
    ensures
        match r {
            Backend::Redis(u) => url matches Some(s) && s@.len() > 0 && u@ == s@,
            Backend::Local => url matches Some(s) ==> s@.len() == 0,
        },
{
    match url {
        Some(u) => if u.as_str().is_empty() {
            Backend::Local
        } else {
            Backend::Redis(u)
        },
        None => Backend::Local,
    }
}

/// The index in memory.
#[derive(Debug)]
pub struct SharedSandboxIndex {
    pub entries: Keyed<SandboxIndexEntry>,
}

impl SharedSandboxIndex {
    pub open spec fn wf(self) -> bool {
        self.entries.wf()
    }

    /// The entries by the identifier of their sandbox.
    pub open spec fn view(self) -> Map<Seq<char>, Entry> {
        self.entries.view().map_values(|e: SandboxIndexEntry| e.view())
    }

    /// An index without entries.
    pub fn new() -> (r: Self)
        ensures
            r.wf(),
            r.view() == Map::<Seq<char>, Entry>::empty(),
    {
        let r = SharedSandboxIndex { entries: Keyed::new() };
        assert(r.view() =~= Map::<Seq<char>, Entry>::empty());
        r
    }

    /// Stores an entry, in place of the one that the sandbox had.
    pub fn upsert(&mut self, entry: SandboxIndexEntry)
        requires
            old(self).wf(),
        ensures
            final(self).wf(),
            final(self).view() == old(self).view().insert(entry.id@, entry.view()),
    {
        let id = entry.id.clone();
        self.entries.insert(id, entry);
        assert(self.view() =~= old(self).view().insert(entry.id@, entry.view()));
    }

    /// Removes the entry of a sandbox.
    pub fn remove(&mut self, id: &str)
        requires
            old(self).wf(),
        ensures
            final(self).wf(),
            final(self).view() == old(self).view().remove(id@),
    {
        let _ = self.entries.remove(id);
        assert(self.view() =~= old(self).view().remove(id@));
    }

    /// The entry of a sandbox.
    pub fn get(&self, id: &str) -> (r: Option<SandboxIndexEntry>)
        requires
            self.wf(),
        ensures
            match r {
                Some(e) => self.view().contains_key(id@) && self.view()[id@] == e.view(),
                None => !self.view().contains_key(id@),
            },
    {
        match self.entries.get(id) {
            Some(e) => Some(e.copy()),
            None => None,
        }
    }

    /// All entries.
    pub fn list(&self) -> (r: Vec<SandboxIndexEntry>)
        ensures
            r.len() == self.entries.items.len(),
            forall|i: int|
                0 <= i < r.len() ==> (#[trigger] r@[i]).view() == self.entries.items@[i].1.view(),
    {
        let mut out: Vec<SandboxIndexEntry> = Vec::new();
        let mut i: usize = 0;
        while i < self.entries.items.len()
            invariant
                i <= self.entries.items.len(),
                out.len() == i,
                forall|j: int|
                    0 <= j < i ==> (#[trigger] out@[j]).view() == self.entries.items@[j].1.view(),
            decreases self.entries.items.len() - i,
        {
            out.push(self.entries.items[i].1.copy());
            i += 1;
        }
        out
    }

    /// All entries, as indented JSON text.
    pub fn export_json(&self) -> (r: String)
        ensures
            r@ == json::json_pretty(
                Form::Arr(
                    Seq::new(
                        self.entries.items@.len(),
                        |i: int| entry_form(self.entries.items@[i].1.view()),
                    ),
                ),
            ),
    {
        let all = self.list();
        proof {
            assert(entries_form(all@) =~= Seq::new(
                self.entries.items@.len(),
                |i: int| entry_form(self.entries.items@[i].1.view()),
            ));
        }
        export_entries(&all)
    }
}

/// Entries as they are written.
pub open spec fn entries_form(v: Seq<SandboxIndexEntry>) -> Seq<Form> {
    Seq::new(v.len(), |i: int| entry_form(v[i].view()))
}

/// Writes entries as indented JSON text.
pub fn export_entries(entries: &Vec<SandboxIndexEntry>) -> (r: String)
    ensures
        r@ == json::json_pretty(Form::Arr(entries_form(entries@))),
{
    let mut out: Vec<Json> = Vec::new();
    let mut i: usize = 0;
    while i < entries.len()
        invariant
            i <= entries.len(),
            out.len() == i,
            forall|j: int|
                0 <= j < i ==> (#[trigger] out@[j]).form() == entry_form(entries@[j].view()),
        decreases entries.len() - i,
    {
        out.push(entries[i].to_json());
        i += 1;
    }
    proof {
        json::lemma_items_form(out@);
        let all = entries_form(entries@);
        assert forall|j: int| 0 <= j < out.len() implies json::items_form(out@)[j] == all[j] by {
            assert(out@[j].form() == entry_form(entries@[j].view()));
        }
        assert(json::items_form(out@) =~= all);
    }
    Json::Array(out).render_pretty()
}

/// What was stored for a sandbox is what is found for it, until it is stored
/// again or removed; other sandboxes are not affected.
pub proof fn law_index_reads_its_writes(m: Map<Seq<char>, Entry>, e: Entry, other: Seq<char>)
    ensures
        m.insert(e.id, e)[e.id] == e,
        !m.insert(e.id, e).remove(e.id).contains_key(e.id),
        other != e.id ==> m.insert(e.id, e).contains_key(other) == m.contains_key(other),
        other != e.id && m.contains_key(other) ==> m.insert(e.id, e)[other] == m[other],
{
}

/// A Redis command, word by word.
#[derive(Debug)]
pub struct RedisCommand {
    pub words: Vec<String>,
}

/// The key under which the entry of a sandbox is stored.
pub open spec fn entry_key(id: Seq<char>) -> Seq<char> {
    "fluxvm:sandbox:"@ + id
}

/// Builds a command.
fn command(a: &str, b: &str) -> (r: RedisCommand)
    ensures
        text::views(r.words@) == seq![a@, b@],
{
    let mut words: Vec<String> = Vec::new();
    words.push(a.to_owned());
    words.push(b.to_owned());
    assert(text::views(words@) =~= seq![a@, b@]);
    RedisCommand { words }
}

/// Builds a command.
fn command3(a: &str, b: &str, c: &str) -> (r: RedisCommand)
    ensures
        text::views(r.words@) == seq![a@, b@, c@],
{
    let mut words: Vec<String> = Vec::new();
    words.push(a.to_owned());
    words.push(b.to_owned());
    words.push(c.to_owned());
    assert(text::views(words@) =~= seq![a@, b@, c@]);
    RedisCommand { words }
}

/// The commands that store an entry: the entry itself, then its identifier in
/// the set of all sandboxes.
pub fn upsert_commands(entry: &SandboxIndexEntry) -> (r: (RedisCommand, RedisCommand))
    ensures
        text::views(r.0.words@) == seq![
            "SET"@,
            entry_key(entry.id@),
            json::json_written(entry_form(entry.view())),
        ],
        stored_entry(r.0.words@[2]@) == Some(entry.view()),
        text::views(r.1.words@) == seq!["SADD"@, "fluxvm:sandboxes"@, entry.id@],
{
    let key = cat("fluxvm:sandbox:", entry.id.as_str());
    let value = entry.to_json().render_as_written();
    proof {
        law_stored_entry_reads_back(entry.view(), value@);
    }
    let set = command3("SET", key.as_str(), value.as_str());
    assert(text::views(set.words@).len() == 3);
    assert(text::views(set.words@)[2] == set.words@[2]@);
    (set, command3("SADD", "fluxvm:sandboxes", entry.id.as_str()))
}

/// The commands that remove an entry.
pub fn remove_commands(id: &str) -> (r: (RedisCommand, RedisCommand))
    ensures
        text::views(r.0.words@) == seq!["DEL"@, entry_key(id@)],
        text::views(r.1.words@) == seq!["SREM"@, "fluxvm:sandboxes"@, id@],
{
    let key = cat("fluxvm:sandbox:", id);
    (command("DEL", key.as_str()), command3("SREM", "fluxvm:sandboxes", id))
}

/// The command that fetches an entry.
pub fn get_command(id: &str) -> (r: RedisCommand)
    ensures
        text::views(r.words@) == seq!["GET"@, entry_key(id@)],
{
    let key = cat("fluxvm:sandbox:", id);
    command("GET", key.as_str())
}

/// The command that fetches the identifiers of all sandboxes.
pub fn list_command() -> (r: RedisCommand)
    ensures
        text::views(r.words@) == seq!["SMEMBERS"@, "fluxvm:sandboxes"@],
{
    command("SMEMBERS", "fluxvm:sandboxes")
}

/// The entry that was fetched; none where nothing was stored, where what was stored is no
/// entry, or where the typed reader of entries refuses it.
pub fn fetched(value: Option<String>, refused: bool) -> (r: Option<SandboxIndexEntry>)
    ensures
        match r {
            Some(e) => !refused && (value matches Some(t) && stored_entry(t@) == Some(e.view())),
            None => refused || (value matches Some(t) ==> stored_entry(t@) is None),
        },
{
    if refused {
        return None;
    }
    match value {
        None => None,
        Some(t) => match Json::parse(t.as_str()) {
            Ok(j) => SandboxIndexEntry::from_json(&j),
            Err(_) => None,
        },
    }
}

} // verus!
