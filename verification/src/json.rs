//! JSON values, as the library reads and builds them.

use vstd::prelude::*;

use crate::text;
use crate::text::same;

verus! {

/// `serde_json::Value`, a parsed JSON document.
#[verifier::external_type_specification]
#[verifier::external_body]
pub struct ExValue(serde_json::Value);

/// `serde_json::Number`, kept as it is where it is no integer.
#[verifier::external_type_specification]
#[verifier::external_body]
pub struct ExNumber(serde_json::Number);

/// The clone of a `serde_json::Number` is the same number.
pub assume_specification[ <serde_json::Number as Clone>::clone ](
    n: &serde_json::Number,
) -> (r: serde_json::Number)
    ensures
        r == *n,
;

/// A JSON value.
#[derive(Debug)]
pub enum Json {
    Null,
    Bool(bool),
    /// An integer of at least 0.
    Unsigned(u64),
    /// An integer, as a rule below 0.
    Signed(i64),
    /// A number that is no integer.
    Fraction(serde_json::Number),
    Text(String),
    Array(Vec<Json>),
    /// The members. Where a key occurs more than once, the last one counts.
    Object(Vec<(String, Json)>),
}

/// The mathematical reading of a JSON value.
pub enum Js {
    Null,
    Bool(bool),
    Int(int),
    Fraction(serde_json::Number),
    Str(Seq<char>),
    Arr(Seq<Js>),
    Obj(Map<Seq<char>, Js>),
}

impl Json {
    pub open spec fn view(self) -> Js
        decreases self,
    {
        match self {
            Json::Null => Js::Null,
            Json::Bool(b) => Js::Bool(b),
            Json::Unsigned(n) => Js::Int(n as int),
            Json::Signed(i) => Js::Int(i as int),
            Json::Fraction(n) => Js::Fraction(n),
            Json::Text(s) => Js::Str(s@),
            Json::Array(v) => Js::Arr(items_view(v@)),
            Json::Object(m) => Js::Obj(members_view(m@)),
        }
    }
}

/// The readings of the items of an array.
pub open spec fn items_view(v: Seq<Json>) -> Seq<Js>
    decreases v,
{
    if v.len() == 0 {
        Seq::empty()
    } else {
        items_view(v.drop_last()).push(v.last().view())
    }
}

/// The readings of the members of an object.
pub open spec fn members_view(m: Seq<(String, Json)>) -> Map<Seq<char>, Js>
    decreases m,
{
    if m.len() == 0 {
        Map::empty()
    } else {
        members_view(m.drop_last()).insert(m.last().0@, m.last().1.view())
    }
}

/// A JSON value as it is written: the members of an object stand in their order.
pub enum Form {
    Null,
    Bool(bool),
    Int(int),
    Fraction(serde_json::Number),
    Str(Seq<char>),
    Arr(Seq<Form>),
    Obj(Seq<(Seq<char>, Form)>),
}

impl Json {
    /// The value as it is written.
    pub open spec fn form(self) -> Form
        decreases self,
    {
        match self {
            Json::Null => Form::Null,
            Json::Bool(b) => Form::Bool(b),
            Json::Unsigned(n) => Form::Int(n as int),
            Json::Signed(i) => Form::Int(i as int),
            Json::Fraction(n) => Form::Fraction(n),
            Json::Text(s) => Form::Str(s@),
            Json::Array(v) => Form::Arr(items_form(v@)),
            Json::Object(m) => Form::Obj(members_form(m@)),
        }
    }
}

/// The items of an array as they are written.
pub open spec fn items_form(v: Seq<Json>) -> Seq<Form>
    decreases v,
{
    if v.len() == 0 {
        Seq::empty()
    } else {
        items_form(v.drop_last()).push(v.last().form())
    }
}

/// The members of an object as they are written.
pub open spec fn members_form(m: Seq<(String, Json)>) -> Seq<(Seq<char>, Form)>
    decreases m,
{
    if m.len() == 0 {
        Seq::empty()
    } else {
        members_form(m.drop_last()).push((m.last().0@, m.last().1.form()))
    }
}

/// An array is written item by item.
pub proof fn lemma_items_form(v: Seq<Json>)
    ensures
        items_form(v).len() == v.len(),
        forall|i: int| 0 <= i < v.len() ==> items_form(v)[i] == (#[trigger] v[i]).form(),
    decreases v.len(),
{
    if v.len() > 0 {
        lemma_items_form(v.drop_last());
        assert forall|i: int| 0 <= i < v.len() implies items_form(v)[i] == (
        #[trigger] v[i]).form() by {
            if i < v.len() - 1 {
                assert(v.drop_last()[i] == v[i]);
            }
        }
    }
}

impl Form {
    /// The object with one more member behind the others; anything but an object stays
    /// as it is.
    pub open spec fn put(self, key: Seq<char>, value: Form) -> Form {
        match self {
            Form::Obj(m) => Form::Obj(m.push((key, value))),
            _ => self,
        }
    }

    /// The object with one more member before the others; anything but an object stays as
    /// it is.
    pub open spec fn put_first(self, key: Seq<char>, value: Form) -> Form {
        match self {
            Form::Obj(m) => Form::Obj(seq![(key, value)] + m),
            _ => self,
        }
    }
}

/// Members are written one after the other.
proof fn lemma_members_form_join(a: Seq<(String, Json)>, b: Seq<(String, Json)>)
    ensures
        members_form(a + b) == members_form(a) + members_form(b),
    decreases b.len(),
{
    if b.len() == 0 {
        assert(a + b =~= a);
        assert(members_form(a) + members_form(b) =~= members_form(a));
    } else {
        lemma_members_form_join(a, b.drop_last());
        assert((a + b).drop_last() =~= a + b.drop_last());
        assert(members_form(a + b) =~= members_form(a) + members_form(b));
    }
}

/// The object without members, as it is written.
pub open spec fn no_members_form() -> Form {
    Form::Obj(Seq::empty())
}

/// How a value that holds no others is written.
pub open spec fn scalar(j: Js) -> Form {
    match j {
        Js::Bool(b) => Form::Bool(b),
        Js::Int(n) => Form::Int(n),
        Js::Fraction(n) => Form::Fraction(n),
        Js::Str(s) => Form::Str(s),
        _ => Form::Null,
    }
}

/// How a value is written that holds no values which hold others: the items of a list in
/// their order, the members of a map in the order of their keys.
pub open spec fn flat(j: Js) -> Form {
    match j {
        Js::Arr(v) => Form::Arr(v.map_values(|i: Js| scalar(i))),
        Js::Obj(m) => Form::Obj(
            text::ordered(m.dom()).map_values(|k: Seq<char>| (k, scalar(m[k]))),
        ),
        _ => scalar(j),
    }
}

/// The reading of an array has one item for each item.
pub proof fn lemma_items(v: Seq<Json>)
    ensures
        items_view(v).len() == v.len(),
        forall|i: int| 0 <= i < v.len() ==> items_view(v)[i] == (#[trigger] v[i]).view(),
    decreases v.len(),
{
    if v.len() > 0 {
        lemma_items(v.drop_last());
        assert forall|i: int| 0 <= i < v.len() implies items_view(v)[i] == (
        #[trigger] v[i]).view() by {
            if i < v.len() - 1 {
                assert(v.drop_last()[i] == v[i]);
            }
        }
    }
}

impl Js {
    /// The member `key` of an object.
    pub open spec fn get(self, key: Seq<char>) -> Option<Js> {
        match self {
            Js::Obj(m) => if m.contains_key(key) {
                Some(m[key])
            } else {
                None
            },
            _ => None,
        }
    }

    /// The text of a string.
    pub open spec fn as_str(self) -> Option<Seq<char>> {
        match self {
            Js::Str(s) => Some(s),
            _ => None,
        }
    }

    /// The value of a boolean.
    pub open spec fn as_bool(self) -> Option<bool> {
        match self {
            Js::Bool(b) => Some(b),
            _ => None,
        }
    }

    /// The value of an unsigned 64-bit integer.
    pub open spec fn as_u64(self) -> Option<u64> {
        match self {
            Js::Int(i) => if 0 <= i <= u64::MAX {
                Some(i as u64)
            } else {
                None
            },
            _ => None,
        }
    }

    /// The value of a signed 64-bit integer.
    pub open spec fn as_i64(self) -> Option<i64> {
        match self {
            Js::Int(i) => if i64::MIN <= i <= i64::MAX {
                Some(i as i64)
            } else {
                None
            },
            _ => None,
        }
    }

    /// The items of an array.
    pub open spec fn as_array(self) -> Option<Seq<Js>> {
        match self {
            Js::Arr(v) => Some(v),
            _ => None,
        }
    }

    /// The value of the member `key`, if it is a string.
    pub open spec fn str_at(self, key: Seq<char>) -> Option<Seq<char>> {
        match self.get(key) {
            Some(v) => v.as_str(),
            None => None,
        }
    }

    /// The value of the member `key`, if it is an unsigned integer.
    pub open spec fn u64_at(self, key: Seq<char>) -> Option<u64> {
        match self.get(key) {
            Some(v) => v.as_u64(),
            None => None,
        }
    }

    /// The value of the member `key`, if it is a signed integer.
    pub open spec fn i64_at(self, key: Seq<char>) -> Option<i64> {
        match self.get(key) {
            Some(v) => v.as_i64(),
            None => None,
        }
    }

    /// The value of the member `key`, if it is a boolean.
    pub open spec fn bool_at(self, key: Seq<char>) -> Option<bool> {
        match self.get(key) {
            Some(v) => v.as_bool(),
            None => None,
        }
    }

    /// The items of the member `key`, if it is an array.
    pub open spec fn array_at(self, key: Seq<char>) -> Option<Seq<Js>> {
        match self.get(key) {
            Some(v) => v.as_array(),
            None => None,
        }
    }

    /// Every number in the value is an integer that JSON text keeps exactly.
    pub open spec fn integral(self) -> bool
        decreases self,
    {
        match self {
            Js::Int(i) => i64::MIN <= i <= u64::MAX,
            Js::Fraction(_) => false,
            Js::Arr(v) => forall|i: int| 0 <= i < v.len() ==> (#[trigger] v[i]).integral(),
            Js::Obj(m) => forall|k: Seq<char>| #[trigger] m.contains_key(k) ==> m[k].integral(),
            _ => true,
        }
    }

    /// Arrays and objects are nested at most `depth` deep.
    pub open spec fn shallow(self, depth: nat) -> bool
        decreases self,
    {
        match self {
            Js::Arr(v) => depth > 0 && forall|i: int|
                0 <= i < v.len() ==> (#[trigger] v[i]).shallow((depth - 1) as nat),
            Js::Obj(m) => depth > 0 && forall|k: Seq<char>| #[trigger]
                m.contains_key(k) ==> m[k].shallow((depth - 1) as nat),
            _ => true,
        }
    }
}

/// What a `serde_json::Value` holds.
pub uninterp spec fn json_held(value: serde_json::Value) -> Js;

/// What a text says as JSON: a value, or the message of the syntax error.
pub uninterp spec fn json_read(text: Seq<char>) -> Result<Js, Seq<char>>;

/// The compact text of a value, with the members of objects in the order of their keys.
pub uninterp spec fn json_text(value: Js) -> Seq<char>;

/// The compact text of a value as it is written.
pub uninterp spec fn json_written(value: Form) -> Seq<char>;

/// The text reads as the value again, where all numbers of the value are
/// integers and the value is nested less than 128 deep.
pub open spec fn reads_back(text: Seq<char>, value: Js) -> bool {
    value.integral() && value.shallow(127) ==> json_read(text) == Ok::<Js, Seq<char>>(value)
}

/// `serde_json::from_str` to a `Value`: the text decides the value or the
/// error's message.
#[verifier::external_body]
fn value_from_text(text: &str) -> (r: Result<serde_json::Value, String>)
    ensures
        match r {
            Ok(v) => json_read(text@) == Ok::<Js, Seq<char>>(json_held(v)),
            Err(e) => json_read(text@) == Err::<Js, Seq<char>>(e@),
        },
{
    serde_json::from_str(text).map_err(|e| e.to_string())
}

/// Takes a `serde_json::Value` apart: the result reads as what the value holds.
#[verifier::external_body]
fn json_of(value: serde_json::Value) -> (r: Json)
    ensures
        r.view() == json_held(value),
{
    match value {
        serde_json::Value::Null => Json::Null,
        serde_json::Value::Bool(b) => Json::Bool(b),
        serde_json::Value::Number(n) => match (n.as_u64(), n.as_i64()) {
            (Some(u), _) => Json::Unsigned(u),
            (None, Some(i)) => Json::Signed(i),
            (None, None) => Json::Fraction(n),
        },
        serde_json::Value::String(s) => Json::Text(s),
        serde_json::Value::Array(a) => Json::Array(a.into_iter().map(json_of).collect()),
        serde_json::Value::Object(o) => {
            Json::Object(o.into_iter().map(|(k, v)| (k, json_of(v))).collect())
        }
    }
}

/// Builds a `serde_json::Value`: it holds what `json` reads as. Nothing is said
/// where a fraction is involved.
#[verifier::external_body]
fn value_of(json: &Json) -> (r: serde_json::Value)
    ensures
        json.view().integral() ==> json_held(r) == json.view(),
{
    match json {
        Json::Null => serde_json::Value::Null,
        Json::Bool(b) => serde_json::Value::Bool(*b),
        Json::Unsigned(n) => serde_json::Value::from(*n),
        Json::Signed(i) => serde_json::Value::from(*i),
        Json::Fraction(n) => serde_json::Value::Number(n.clone()),
        Json::Text(s) => serde_json::Value::String(s.clone()),
        Json::Array(v) => serde_json::Value::Array(v.iter().map(value_of).collect()),
        Json::Object(m) => serde_json::Value::Object(
            m.iter().map(|(k, v)| (k.clone(), value_of(v))).collect(),
        ),
    }
}

/// `serde_json::Value`'s `sort_all_objects` and `Display`: once the members stand in the
/// order of their keys, the compact text depends on what the value reads as alone.
#[verifier::external_body]
fn text_of(json: &Json) -> (r: String)
    ensures
        r@ == json_text(json.view()),
{
    let mut value = value_of(json);
    value.sort_all_objects();
    value.to_string()
}

/// `serde_json::Value`'s `Display`: the compact text depends on the value and the order of
/// its members alone. Where all numbers are integers and the value is nested less than
/// 128 deep, which is the depth at which `serde_json` stops reading, the text reads back
/// as the value. The text of an object ends in its closing brace. There is no line feed in
/// the text: it is written without white space, and those in texts are escaped.
#[verifier::external_body]
fn written_of(json: &Json) -> (r: String)
    ensures
        r@ == json_written(json.form()),
        text::lacks(r@, '\n'),
        json.view() is Obj ==> r@.len() > 0 && r@.last() == '}',
        reads_back(r@, json.view()),
{
    value_of(json).to_string()
}

/// The text of a value as it is written, with its members and items on lines of their own.
pub uninterp spec fn json_pretty(value: Form) -> Seq<char>;

/// `serde_json::Value`'s alternate `Display`: the indented text depends on the value and
/// the order of its members alone, and reads back as the compact one does.
#[verifier::external_body]
fn pretty_of(json: &Json) -> (r: String)
    ensures
        r@ == json_pretty(json.form()),
        reads_back(r@, json.view()),
{
    format!("{:#}", value_of(json))
}

impl Json {
    /// Parses a JSON document.
    pub fn parse(text: &str) -> (r: Result<Json, String>)
        ensures
            match r {
                Ok(j) => json_read(text@) == Ok::<Js, Seq<char>>(j.view()),
                Err(e) => json_read(text@) == Err::<Js, Seq<char>>(e@),
            },
    {
        match value_from_text(text) {
            Ok(v) => Ok(json_of(v)),
            Err(e) => Err(e),
        }
    }

    /// The value as compact JSON text, with the members of objects in the order of their
    /// keys.
    pub fn render(&self) -> (r: String)
        ensures
            r@ == json_text(self.view()),
    {
        text_of(self)
    }

    /// The value as compact JSON text, with the members of objects as they stand.
    pub fn render_as_written(&self) -> (r: String)
        ensures
            r@ == json_written(self.form()),
            text::lacks(r@, '\n'),
            self.view() is Obj ==> r@.len() > 0 && r@.last() == '}',
            reads_back(r@, self.view()),
    {
        written_of(self)
    }

    /// The value as indented JSON text, with the members of objects as they stand.
    pub fn render_pretty(&self) -> (r: String)
        ensures
            r@ == json_pretty(self.form()),
            reads_back(r@, self.view()),
    {
        pretty_of(self)
    }

    /// The value that a `serde_json::Value` holds.
    pub fn from_value(value: serde_json::Value) -> (r: Json)
        ensures
            r.view() == json_held(value),
    {
        json_of(value)
    }

    /// A `serde_json::Value` that holds the value.
    pub fn to_value(&self) -> (r: serde_json::Value)
        ensures
            self.view().integral() ==> json_held(r) == self.view(),
    {
        value_of(self)
    }

    /// A copy of the value.
    pub fn copy(&self) -> (r: Json)
        ensures
            r.view() == self.view(),
        decreases self,
    {
        match self {
            Json::Null => Json::Null,
            Json::Bool(b) => Json::Bool(*b),
            Json::Unsigned(n) => Json::Unsigned(*n),
            Json::Signed(i) => Json::Signed(*i),
            Json::Fraction(n) => Json::Fraction(n.clone()),
            Json::Text(s) => Json::Text(s.clone()),
            Json::Array(v) => {
                let mut out: Vec<Json> = Vec::new();
                let mut i: usize = 0;
                assert(v@.take(0) =~= Seq::<Json>::empty());
                while i < v.len()
                    invariant
                        i <= v.len(),
                        *self == Json::Array(*v),
                        items_view(out@) == items_view(v@.take(i as int)),
                    decreases v.len() - i,
                {
                    proof {
                        assert(decreases_to!(*self => (*self)->Array_0));
                        assert(decreases_to!(*v => v[i as int]));
                    }
                    let item = v[i].copy();
                    let ghost before = out@;
                    out.push(item);
                    proof {
                        assert(out@.drop_last() =~= before);
                        assert(v@.take(i + 1).drop_last() =~= v@.take(i as int));
                    }
                    i += 1;
                }
                assert(v@.take(v.len() as int) =~= v@);
                Json::Array(out)
            },
            Json::Object(m) => {
                let mut out: Vec<(String, Json)> = Vec::new();
                let mut i: usize = 0;
                assert(m@.take(0) =~= Seq::<(String, Json)>::empty());
                while i < m.len()
                    invariant
                        i <= m.len(),
                        *self == Json::Object(*m),
                        members_view(out@) == members_view(m@.take(i as int)),
                    decreases m.len() - i,
                {
                    proof {
                        assert(decreases_to!(*self => (*self)->Object_0));
                        assert(decreases_to!(*m => m[i as int]));
                        assert(decreases_to!(m[i as int] => m[i as int].1));
                    }
                    let value = m[i].1.copy();
                    let key = m[i].0.clone();
                    let ghost before = out@;
                    out.push((key, value));
                    proof {
                        assert(out@.drop_last() =~= before);
                        assert(m@.take(i + 1).drop_last() =~= m@.take(i as int));
                    }
                    i += 1;
                }
                assert(m@.take(m.len() as int) =~= m@);
                Json::Object(out)
            },
        }
    }
}

/// The members of joined lists are those of both; the second list wins.
pub proof fn lemma_members_join(a: Seq<(String, Json)>, b: Seq<(String, Json)>)
    ensures
        members_view(a + b) == members_view(a).union_prefer_right(members_view(b)),
    decreases b.len(),
{
    if b.len() == 0 {
        assert(a + b =~= a);
        assert(members_view(a + b) =~= members_view(a).union_prefer_right(members_view(b)));
    } else {
        lemma_members_join(a, b.drop_last());
        assert((a + b).drop_last() =~= a + b.drop_last());
        assert(members_view(a + b) =~= members_view(a).union_prefer_right(members_view(b)));
    }
}

/// A key that occurs among members is in their reading.
pub proof fn lemma_member_is_read(m: Seq<(String, Json)>, i: int)
    requires
        0 <= i < m.len(),
    ensures
        members_view(m).contains_key(m[i].0@),
    decreases m.len(),
{
    if i < m.len() - 1 {
        lemma_member_is_read(m.drop_last(), i);
        assert(m.drop_last()[i] == m[i]);
    }
}

/// One member is a map of one entry.
proof fn lemma_one_member(e: (String, Json))
    ensures
        members_view(seq![e]) == Map::<Seq<char>, Js>::empty().insert(e.0@, e.1.view()),
{
    assert(seq![e].drop_last() =~= Seq::<(String, Json)>::empty());
    assert(members_view(seq![e].drop_last()) =~= Map::<Seq<char>, Js>::empty());
}

/// What a map says of a key.
pub open spec fn entry(m: Map<Seq<char>, Js>, key: Seq<char>) -> Option<Js> {
    if m.contains_key(key) {
        Some(m[key])
    } else {
        None
    }
}

/// The reading of an optional value.
pub open spec fn optional(v: Option<Json>) -> Option<Js> {
    match v {
        Some(j) => Some(j.view()),
        None => None,
    }
}

/// Takes the member `key` out of the list.
fn remove_member(m: &mut Vec<(String, Json)>, key: &str) -> (r: Option<Json>)
    ensures
        members_view(final(m)@) == members_view(old(m)@).remove(key@),
        optional(r) == entry(members_view(old(m)@), key@),
{
    let mut found: Option<Json> = None;
    let mut i: usize = 0;
    let ghost all = members_view(m@);
    proof {
        assert(m@.skip(0) =~= m@);
        assert(m@.take(0) =~= Seq::<(String, Json)>::empty());
    }
    while i < m.len()
        invariant
            i <= m.len(),
            all == members_view(old(m)@),
            !members_view(m@.take(i as int)).contains_key(key@),
            members_view(m@).remove(key@) == all.remove(key@),
            entry(all, key@) == if members_view(m@.skip(i as int)).contains_key(key@) {
                Some(members_view(m@.skip(i as int))[key@])
            } else {
                optional(found)
            },
        decreases m.len() - i,
    {
        let ghost before = m@;
        let ghost e = m@[i as int];
        let ghost rest = m@.skip(i + 1);
        proof {
            assert(before.skip(i as int) =~= seq![e] + rest);
            lemma_members_join(seq![e], rest);
            lemma_one_member(e);
            assert(before =~= before.take(i as int) + (seq![e] + rest));
            lemma_members_join(before.take(i as int), seq![e] + rest);
            assert(before.take(i + 1) =~= before.take(i as int) + seq![e]);
            lemma_members_join(before.take(i as int), seq![e]);
        }
        if same(m[i].0.as_str(), key) {
            let taken = m.remove(i);
            found = Some(taken.1);
            proof {
                assert(m@ =~= before.take(i as int) + rest);
                lemma_members_join(before.take(i as int), rest);
                assert(m@.skip(i as int) =~= rest);
                assert(m@.take(i as int) =~= before.take(i as int));
                assert(members_view(m@).remove(key@) =~= members_view(before).remove(key@));
            }
        } else {
            i += 1;
        }
    }
    proof {
        assert(m@.skip(m.len() as int) =~= Seq::<(String, Json)>::empty());
        assert(m@.take(m.len() as int) =~= m@);
        assert(members_view(m@).remove(key@) =~= members_view(m@));
    }
    found
}

impl Json {
    /// The member `key` of an object.
    pub fn get(&self, key: &str) -> (r: Option<&Json>)
        ensures
            match r {
                Some(v) => self.view().get(key@) == Some(v.view()),
                None => self.view().get(key@) is None,
            },
    {
        match self {
            Json::Object(m) => {
                let mut n: usize = m.len();
                assert(m@.take(n as int) =~= m@);
                while n > 0
                    invariant
                        n <= m.len(),
                        entry(members_view(m@), key@) == entry(
                            members_view(m@.take(n as int)),
                            key@,
                        ),
                        *self == Json::Object(*m),
                    decreases n,
                {
                    proof {
                        assert(m@.take(n as int).drop_last() =~= m@.take(n - 1));
                    }
                    if same(m[n - 1].0.as_str(), key) {
                        return Some(&m[n - 1].1);
                    }
                    n -= 1;
                }
                assert(m@.take(0) =~= Seq::<(String, Json)>::empty());
                None
            },
            _ => None,
        }
    }

    /// The text of a string.
    pub fn as_str(&self) -> (r: Option<&str>)
        ensures
            match r {
                Some(s) => self.view().as_str() == Some(s@),
                None => self.view().as_str() is None,
            },
    {
        match self {
            Json::Text(s) => Some(s.as_str()),
            _ => None,
        }
    }

    /// The value of a boolean.
    pub fn as_bool(&self) -> (r: Option<bool>)
        ensures
            r == self.view().as_bool(),
    {
        match self {
            Json::Bool(b) => Some(*b),
            _ => None,
        }
    }

    /// The value of an unsigned 64-bit integer.
    pub fn as_u64(&self) -> (r: Option<u64>)
        ensures
            r == self.view().as_u64(),
    {
        match self {
            Json::Unsigned(n) => Some(*n),
            Json::Signed(i) => if *i >= 0 {
                Some(*i as u64)
            } else {
                None
            },
            _ => None,
        }
    }

    /// The value of a signed 64-bit integer.
    pub fn as_i64(&self) -> (r: Option<i64>)
        ensures
            r == self.view().as_i64(),
    {
        match self {
            Json::Unsigned(n) => if *n <= i64::MAX as u64 {
                Some(*n as i64)
            } else {
                None
            },
            Json::Signed(i) => Some(*i),
            _ => None,
        }
    }

    /// The items of an array.
    pub fn as_array(&self) -> (r: Option<&Vec<Json>>)
        ensures
            match r {
                Some(v) => self.view().as_array() == Some(items_view(v@)),
                None => self.view().as_array() is None,
            },
    {
        match self {
            Json::Array(v) => Some(v),
            _ => None,
        }
    }

    /// The value of the member `key`, if it is a string.
    pub fn str_at(&self, key: &str) -> (r: Option<&str>)
        ensures
            match r {
                Some(s) => self.view().str_at(key@) == Some(s@),
                None => self.view().str_at(key@) is None,
            },
    {
        match self.get(key) {
            Some(v) => v.as_str(),
            None => None,
        }
    }

    /// The value of the member `key`, if it is an unsigned integer.
    pub fn u64_at(&self, key: &str) -> (r: Option<u64>)
        ensures
            r == self.view().u64_at(key@),
    {
        match self.get(key) {
            Some(v) => v.as_u64(),
            None => None,
        }
    }

    /// The value of the member `key`, if it is a signed integer.
    pub fn i64_at(&self, key: &str) -> (r: Option<i64>)
        ensures
            r == self.view().i64_at(key@),
    {
        match self.get(key) {
            Some(v) => v.as_i64(),
            None => None,
        }
    }

    /// The value of the member `key`, if it is a boolean.
    pub fn bool_at(&self, key: &str) -> (r: Option<bool>)
        ensures
            r == self.view().bool_at(key@),
    {
        match self.get(key) {
            Some(v) => v.as_bool(),
            None => None,
        }
    }

    /// The items of the member `key`, if it is an array.
    pub fn array_at(&self, key: &str) -> (r: Option<&Vec<Json>>)
        ensures
            match r {
                Some(v) => self.view().array_at(key@) == Some(items_view(v@)),
                None => self.view().array_at(key@) is None,
            },
    {
        match self.get(key) {
            Some(v) => v.as_array(),
            None => None,
        }
    }

    /// An object without members.
    pub fn object() -> (r: Json)
        ensures
            r.view() == no_members(),
            r.form() == no_members_form(),
    {
        Json::Object(Vec::new())
    }

    /// The object with the member `key` behind the others; anything but an object stays as
    /// it is.
    pub fn put(self, key: &str, value: Json) -> (r: Json)
        ensures
            r.view() == self.view().with(key@, value.view()),
            r.form() == self.form().put(key@, value.form()),
    {
        match self {
            Json::Object(mut m) => {
                let ghost before = m@;
                m.push((key.to_owned(), value));
                assert(m@.drop_last() =~= before);
                Json::Object(m)
            },
            other => other,
        }
    }

    /// The object with the member `key`, which it does not have, before the others;
    /// anything but an object stays as it is.
    pub fn put_first(self, key: &str, value: Json) -> (r: Json)
        requires
            self.view().get(key@) is None,
        ensures
            r.view() == self.view().with(key@, value.view()),
            r.form() == self.form().put_first(key@, value.form()),
    {
        match self {
            Json::Object(mut m) => {
                let ghost before = m@;
                m.insert(0, (key.to_owned(), value));
                proof {
                    let first = seq![m@[0]];
                    assert(m@ =~= first + before);
                    lemma_members_join(first, before);
                    lemma_members_form_join(first, before);
                    assert(first.drop_last() =~= Seq::<(String, Json)>::empty());
                    reveal_with_fuel(members_view, 2);
                    reveal_with_fuel(members_form, 2);
                    assert(members_form(first) =~= seq![(key@, value.form())]);
                    assert(members_view(m@) =~= members_view(before).insert(key@, value.view()));
                }
                Json::Object(m)
            },
            other => other,
        }
    }

    /// The object with the member `key` set to `value`; anything but an object
    /// stays as it is.
    pub fn with(self, key: &str, value: Json) -> (r: Json)
        ensures
            r.view() == self.view().with(key@, value.view()),
    {
        match self {
            Json::Object(mut m) => {
                let ghost all = members_view(m@);
                let _ = remove_member(&mut m, key);
                let ghost kept = m@;
                m.push((key.to_owned(), value));
                proof {
                    assert(m@.drop_last() =~= kept);
                    assert(members_view(m@) =~= all.insert(key@, value.view()));
                }
                Json::Object(m)
            },
            other => other,
        }
    }

    /// Takes the member `key` out of an object.
    pub fn without(self, key: &str) -> (r: (Json, Option<Json>))
        ensures
            r.0.view() == self.view().without(key@),
            optional(r.1) == self.view().get(key@),
    {
        match self {
            Json::Object(mut m) => {
                let taken = remove_member(&mut m, key);
                (Json::Object(m), taken)
            },
            other => (other, None),
        }
    }

    /// A string.
    pub fn text(s: &str) -> (r: Json)
        ensures
            r.view() == Js::Str(s@),
            r.form() == Form::Str(s@),
    {
        Json::Text(s.to_owned())
    }
}

/// The object without members.
pub open spec fn no_members() -> Js {
    Js::Obj(Map::empty())
}

impl Js {
    /// The object with the member `key` set to `value`.
    pub open spec fn with(self, key: Seq<char>, value: Js) -> Js {
        match self {
            Js::Obj(m) => Js::Obj(m.insert(key, value)),
            other => other,
        }
    }

    /// The object without the member `key`.
    pub open spec fn without(self, key: Seq<char>) -> Js {
        match self {
            Js::Obj(m) => Js::Obj(m.remove(key)),
            other => other,
        }
    }
}

impl Js {
    /// The member that two keys lead to.
    pub open spec fn get2(self, a: Seq<char>, b: Seq<char>) -> Option<Js> {
        match self.get(a) {
            Some(j) => j.get(b),
            None => None,
        }
    }

    /// The member that three keys lead to.
    pub open spec fn get3(self, a: Seq<char>, b: Seq<char>, c: Seq<char>) -> Option<Js> {
        match self.get2(a, b) {
            Some(j) => j.get(c),
            None => None,
        }
    }
}

impl Json {
    /// The member that two keys lead to.
    pub fn get2(&self, a: &str, b: &str) -> (r: Option<&Json>)
        ensures
            match r {
                Some(v) => self.view().get2(a@, b@) == Some(v.view()),
                None => self.view().get2(a@, b@) is None,
            },
    {
        match self.get(a) {
            Some(j) => j.get(b),
            None => None,
        }
    }

    /// The member that three keys lead to.
    pub fn get3(&self, a: &str, b: &str, c: &str) -> (r: Option<&Json>)
        ensures
            match r {
                Some(v) => self.view().get3(a@, b@, c@) == Some(v.view()),
                None => self.view().get3(a@, b@, c@) is None,
            },
    {
        match self.get2(a, b) {
            Some(j) => j.get(c),
            None => None,
        }
    }
}

/// One item more is one reading more.
pub proof fn lemma_items_step(v: Seq<Json>, i: int)
    requires
        0 <= i < v.len(),
    ensures
        items_view(v.take(i + 1)) == items_view(v.take(i)).push(v[i].view()),
        items_view(v.take(i + 1)).len() > 0,
        items_view(v.take(i + 1)).drop_last() == items_view(v.take(i)),
        items_view(v.take(i + 1)).last() == v[i].view(),
{
    assert(v.take(i + 1).drop_last() =~= v.take(i));
    assert(items_view(v.take(i + 1)).drop_last() =~= items_view(v.take(i)));
}

/// The readings of the first items are the first readings.
pub proof fn lemma_items_take(v: Seq<Json>, i: int)
    requires
        0 <= i <= v.len(),
    ensures
        items_view(v).len() == v.len(),
        items_view(v).take(i) == items_view(v.take(i)),
{
    lemma_items(v);
    lemma_items(v.take(i));
    assert forall|k: int| 0 <= k < i implies items_view(v).take(i)[k] == items_view(
        v.take(i),
    )[k] by {
        assert(v.take(i)[k] == v[k]);
    }
    assert(items_view(v).take(i) =~= items_view(v.take(i)));
}

/// The strings among the items.
pub open spec fn strings_in(items: Seq<Js>) -> Seq<Seq<char>>
    decreases items.len(),
{
    if items.len() == 0 {
        Seq::empty()
    } else {
        match items.last().as_str() {
            Some(s) => strings_in(items.drop_last()).push(s),
            None => strings_in(items.drop_last()),
        }
    }
}

/// The strings among the items, in their order.
pub fn strings(items: &Vec<Json>) -> (r: Vec<String>)
    ensures
        text::views(r@) == strings_in(items_view(items@)),
{
    let mut out: Vec<String> = Vec::new();
    let mut i: usize = 0;
    assert(items@.take(0) =~= Seq::<Json>::empty());
    assert(text::views(out@) =~= Seq::<Seq<char>>::empty());
    while i < items.len()
        invariant
            i <= items.len(),
            text::views(out@) == strings_in(items_view(items@.take(i as int))),
        decreases items.len() - i,
    {
        proof {
            lemma_items_step(items@, i as int);
        }
        if let Some(s) = items[i].as_str() {
            let ghost before = out@;
            out.push(s.to_owned());
            assert(text::views(out@) =~= text::views(before).push(s@));
        }
        i += 1;
    }
    assert(items@.take(items.len() as int) =~= items@);
    out
}

/// The unsigned integers among the items.
pub open spec fn numbers_in(items: Seq<Js>) -> Seq<u64>
    decreases items.len(),
{
    if items.len() == 0 {
        Seq::empty()
    } else {
        match items.last().as_u64() {
            Some(n) => numbers_in(items.drop_last()).push(n),
            None => numbers_in(items.drop_last()),
        }
    }
}

/// The unsigned integers among the items, in their order.
pub fn numbers(items: &Vec<Json>) -> (r: Vec<u64>)
    ensures
        r@ == numbers_in(items_view(items@)),
{
    let mut out: Vec<u64> = Vec::new();
    let mut i: usize = 0;
    assert(items@.take(0) =~= Seq::<Json>::empty());
    while i < items.len()
        invariant
            i <= items.len(),
            out@ == numbers_in(items_view(items@.take(i as int))),
        decreases items.len() - i,
    {
        proof {
            lemma_items_step(items@, i as int);
        }
        if let Some(n) = items[i].as_u64() {
            out.push(n);
        }
        i += 1;
    }
    assert(items@.take(items.len() as int) =~= items@);
    out
}

/// All items, if every one is a string.
pub open spec fn texts_of(items: Seq<Js>) -> Option<Seq<Seq<char>>>
    decreases items.len(),
{
    if items.len() == 0 {
        Some(Seq::empty())
    } else {
        match (texts_of(items.drop_last()), items.last().as_str()) {
            (Some(v), Some(s)) => Some(v.push(s)),
            _ => None,
        }
    }
}

/// Texts are read from a list just where all of its items are strings, and then all of them
/// are, each at its place.
pub proof fn law_texts_are_all_items(items: Seq<Js>)
    ensures
        texts_of(items) is Some <==> (forall|i: int| 0 <= i < items.len() ==> (#[trigger] items[i])
            is Str),
        texts_of(items) matches Some(v) ==> v.len() == items.len() && forall|i: int|
            0 <= i < items.len() ==> #[trigger] items[i] == Js::Str(v[i]),
    decreases items.len(),
{
    if items.len() > 0 {
        let before = items.drop_last();
        law_texts_are_all_items(before);
        assert(forall|i: int| 0 <= i < before.len() ==> before[i] == items[i]);
        if texts_of(items) is None {
            if items.last() is Str {
                let i = choose|i: int| 0 <= i < before.len() && !((#[trigger] before[i]) is Str);
                assert(!(items[i] is Str));
            } else {
                assert(!(items[items.len() - 1] is Str));
            }
        } else {
            assert forall|i: int| 0 <= i < items.len() implies #[trigger] items[i] == Js::Str(
                texts_of(items)->0[i],
            ) by {
                if i < before.len() {
                    assert(before[i] == Js::Str(texts_of(before)->0[i]));
                }
            }
        }
    }
}

/// The strings of a list that holds nothing else are its items, each at its place.
pub proof fn law_strings_are_kept(items: Seq<Js>)
    requires
        forall|i: int| 0 <= i < items.len() ==> (#[trigger] items[i]) is Str,
    ensures
        strings_in(items).len() == items.len(),
        forall|i: int| 0 <= i < items.len() ==> #[trigger] items[i] == Js::Str(strings_in(items)[i]),
    decreases items.len(),
{
    if items.len() > 0 {
        let before = items.drop_last();
        assert(items[items.len() - 1] is Str);
        assert forall|i: int| 0 <= i < before.len() implies (#[trigger] before[i]) is Str by {
            assert(items[i] is Str);
        }
        law_strings_are_kept(before);
        assert forall|i: int| 0 <= i < items.len() implies #[trigger] items[i] == Js::Str(
            strings_in(items)[i],
        ) by {
            if i < before.len() {
                assert(before[i] == Js::Str(strings_in(before)[i]));
            }
        }
    }
}

/// The numbers of a list that holds nothing else are its items, each at its place.
pub proof fn law_numbers_are_kept(items: Seq<Js>)
    requires
        forall|i: int|
            0 <= i < items.len() ==> (#[trigger] items[i] matches Js::Int(n) && 0 <= n <= u64::MAX),
    ensures
        numbers_in(items).len() == items.len(),
        forall|i: int|
            0 <= i < items.len() ==> #[trigger] items[i] == Js::Int(numbers_in(items)[i] as int),
    decreases items.len(),
{
    if items.len() > 0 {
        let before = items.drop_last();
        assert(items[items.len() - 1] is Int);
        assert forall|i: int|
            0 <= i < before.len() implies (#[trigger] before[i] matches Js::Int(n) && 0 <= n
            <= u64::MAX) by {
            assert(items[i] is Int);
        }
        law_numbers_are_kept(before);
        assert forall|i: int| 0 <= i < items.len() implies #[trigger] items[i] == Js::Int(
            numbers_in(items)[i] as int,
        ) by {
            if i < before.len() {
                assert(before[i] == Js::Int(numbers_in(before)[i] as int));
            }
        }
    }
}

/// All items, if every one is a string.
pub fn texts(items: &Vec<Json>) -> (r: Option<Vec<String>>)
    ensures
        match r {
            Some(v) => texts_of(items_view(items@)) == Some(text::views(v@)),
            None => texts_of(items_view(items@)) is None,
        },
{
    let mut out: Vec<String> = Vec::new();
    let mut whole = true;
    let mut i: usize = 0;
    assert(items@.take(0) =~= Seq::<Json>::empty());
    assert(text::views(out@) =~= Seq::<Seq<char>>::empty());
    while i < items.len()
        invariant
            i <= items.len(),
            whole ==> texts_of(items_view(items@.take(i as int))) == Some(text::views(out@)),
            !whole ==> texts_of(items_view(items@.take(i as int))) is None,
        decreases items.len() - i,
    {
        proof {
            lemma_items_step(items@, i as int);
        }
        match items[i].as_str() {
            Some(s) => {
                let ghost before = out@;
                out.push(s.to_owned());
                assert(text::views(out@) =~= text::views(before).push(s@));
            },
            None => {
                whole = false;
            },
        }
        i += 1;
    }
    assert(items@.take(items.len() as int) =~= items@);
    if whole {
        Some(out)
    } else {
        None
    }
}

impl Json {
    /// The keys of an object in their order.
    pub fn keys(&self) -> (r: Option<Vec<String>>)
        ensures
            match (r, self.view()) {
                (Some(v), Js::Obj(m)) => text::views(v@) == text::ordered(m.dom())
                    && text::ascending(text::views(v@)) && text::views(v@).to_set() == m.dom(),
                (None, Js::Obj(_)) => false,
                (None, _) => true,
                _ => false,
            },
    {
        match self {
            Json::Object(m) => {
                let mut keys: Vec<String> = Vec::new();
                let mut i: usize = 0;
                assert(m@.take(0) =~= Seq::<(String, Json)>::empty());
                assert(text::views(keys@).to_set() =~= members_view(m@.take(0)).dom());
                while i < m.len()
                    invariant
                        i <= m.len(),
                        text::views(keys@).to_set() == members_view(m@.take(i as int)).dom(),
                    decreases m.len() - i,
                {
                    let ghost before = text::views(keys@);
                    keys.push(m[i].0.clone());
                    proof {
                        let key = m@[i as int].0@;
                        let now = text::views(keys@);
                        assert(now =~= before.push(key));
                        assert(m@.take(i + 1).drop_last() =~= m@.take(i as int));
                        let d = members_view(m@.take(i + 1)).dom();
                        assert forall|t: Seq<char>| now.to_set().contains(t) == d.contains(t) by {
                            text::lemma_push_set(before, key, t);
                        }
                        assert(now.to_set() =~= d);
                    }
                    i += 1;
                }
                assert(m@.take(m.len() as int) =~= m@);
                Some(text::sort_keys(&keys))
            },
            _ => None,
        }
    }
}

/// The items of a list under the names of their places.
pub open spec fn by_place(items: Seq<Js>, names: Seq<Seq<char>>) -> Map<Seq<char>, Js>
    decreases items.len(),
{
    if items.len() == 0 {
        Map::empty()
    } else {
        by_place(items.drop_last(), names).insert(names[items.len() - 1], items.last())
    }
}

/// A value with named fields. It is an object, or a list of its fields in their order,
/// of which those behind the first `least` may be left out.
pub open spec fn named(j: Js, names: Seq<Seq<char>>, least: nat) -> Option<Js> {
    match j {
        Js::Obj(_) => Some(j),
        Js::Arr(v) => if least <= v.len() <= names.len() {
            Some(Js::Obj(by_place(v, names)))
        } else {
            None
        },
        _ => None,
    }
}

/// Gives the items of a list, from a place on, the names of their places.
pub fn name_items(items: &Vec<Json>, from: usize, names: &[&'static str], least: usize) -> (r:
    Option<Json>)
    requires
        from <= items.len(),
    ensures
        optional(r) == named(
            Js::Arr(items_view(items@).skip(from as int)),
            text::names_of(names@),
            least as nat,
        ),
{
    let ghost all = items_view(items@).skip(from as int);
    let ghost table = text::names_of(names@);
    proof {
        lemma_items(items@);
    }
    let count: usize = items.len() - from;
    if count < least || count > names.len() {
        return None;
    }
    let mut m: Vec<(String, Json)> = Vec::new();
    let mut i: usize = 0;
    assert(all.take(0) =~= Seq::<Js>::empty());
    while i < count
        invariant
            from <= items.len(),
            count == items.len() - from,
            count <= names.len(),
            i <= count,
            all == items_view(items@).skip(from as int),
            all.len() == count,
            table == text::names_of(names@),
            members_view(m@) == by_place(all.take(i as int), table),
        decreases count - i,
    {
        let ghost before = m@;
        let item = items[from + i].copy();
        m.push((names[i].to_owned(), item));
        proof {
            lemma_items(items@);
            assert(m@.drop_last() =~= before);
            assert(all.take(i + 1).drop_last() =~= all.take(i as int));
            assert(all.take(i + 1).last() == item.view());
        }
        i += 1;
    }
    assert(all.take(count as int) =~= all);
    Some(Json::Object(m))
}

/// Reads a value with named fields as an object.
pub fn name_fields(j: &Json, names: &[&'static str], least: usize) -> (r: Option<Json>)
    ensures
        optional(r) == named(j.view(), text::names_of(names@), least as nat),
{
    match j {
        Json::Object(_) => Some(j.copy()),
        Json::Array(v) => {
            proof {
                assert(items_view(v@).skip(0) =~= items_view(v@));
            }
            name_items(v, 0, names, least)
        },
        _ => None,
    }
}

/// All numbers of a value are integers, and it is nested at most `depth` deep.
#[verifier::opaque]
pub open spec fn plain(value: Js, depth: nat) -> bool {
    value.integral() && value.shallow(depth)
}

/// Scalars are plain.
pub broadcast proof fn lemma_scalar_plain(value: Js, depth: nat)
    requires
        value is Null || value is Bool || value is Str || (value is Int && i64::MIN
            <= value->Int_0 <= u64::MAX),
    ensures
        #[trigger] plain(value, depth),
{
    reveal(plain);
}

/// An object without members is plain.
pub broadcast proof fn lemma_no_members_plain(depth: nat)
    requires
        depth > 0,
    ensures
        #[trigger] plain(no_members(), depth),
{
    reveal(plain);
}

/// A plain object stays plain when a plain member is set.
pub broadcast proof fn lemma_with_plain(j: Js, key: Seq<char>, value: Js, depth: nat)
    requires
        j is Obj,
        depth > 0,
        plain(j, depth),
        plain(value, (depth - 1) as nat),
    ensures
        #[trigger] plain(j.with(key, value), depth),
{
    reveal(plain);
    if let Js::Obj(m) = j {
        let n = m.insert(key, value);
        assert forall|k: Seq<char>| #[trigger] n.contains_key(k) implies n[k].integral()
            && n[k].shallow((depth - 1) as nat) by {
            if k != key {
                assert(m.contains_key(k));
            }
        }
    }
}

/// A list of scalars is plain.
pub proof fn lemma_list_plain(items: Seq<Js>, depth: nat)
    requires
        depth > 0,
        forall|i: int| 0 <= i < items.len() ==> plain(#[trigger] items[i], (depth - 1) as nat),
    ensures
        plain(Js::Arr(items), depth),
{
    reveal(plain);
    assert forall|i: int| 0 <= i < items.len() implies (#[trigger] items[i]).integral()
        && items[i].shallow((depth - 1) as nat) by {
        assert(plain(items[i], (depth - 1) as nat));
    }
}

/// An object of plain members is plain.
pub proof fn lemma_members_plain(members: Map<Seq<char>, Js>, depth: nat)
    requires
        depth > 0,
        forall|k: Seq<char>| #[trigger]
            members.contains_key(k) ==> plain(members[k], (depth - 1) as nat),
    ensures
        plain(Js::Obj(members), depth),
{
    reveal(plain);
    assert forall|k: Seq<char>| #[trigger] members.contains_key(k) implies members[k].integral()
        && members[k].shallow((depth - 1) as nat) by {
        assert(plain(members[k], (depth - 1) as nat));
    }
}

/// What an object holds under a key is found there, and nothing else is.
pub proof fn law_entries_are_found(m: Map<Seq<char>, Js>, key: Seq<char>, value: Js)
    ensures
        entry(m, key) is Some <==> m.contains_key(key),
        entry(m.insert(key, value), key) == Some(value),
        entry(m.remove(key), key) is None,
{
}

/// A plain value is written as it is, and a list of plain values one by one.
pub proof fn law_plain_values_are_written(b: bool, n: int, s: Seq<char>, v: Seq<Js>, i: int)
    ensures
        flat(Js::Null) == Form::Null,
        flat(Js::Bool(b)) == Form::Bool(b),
        flat(Js::Int(n)) == Form::Int(n),
        flat(Js::Str(s)) == Form::Str(s),
        flat(Js::Arr(v)) matches Form::Arr(w) && w.len() == v.len() && (0 <= i < v.len()
            && v[i] == Js::Str(s) ==> w[i] == Form::Str(s)) && (0 <= i < v.len() && v[i] == Js::Int(
            n,
        ) ==> w[i] == Form::Int(n)) && (0 <= i < v.len() && v[i] == Js::Bool(b) ==> w[i]
            == Form::Bool(b)),
{
}

/// A member that is put first is the first; the others follow as they were.
pub proof fn law_first_members(
    m: Seq<(Seq<char>, Form)>,
    key: Seq<char>,
    value: Form,
    i: int,
)
    ensures
        Form::Obj(m).put_first(key, value) matches Form::Obj(w) && w.len() == m.len() + 1 && w[0]
            == (key, value) && (0 <= i < m.len() ==> w[i + 1] == m[i]),
{
}

} // verus!
