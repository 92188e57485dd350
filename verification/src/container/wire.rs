//! The fields of messages. Each `pick_*` says which JSON values a field of some
//! type accepts, and in which form they are sent. A field that a text holds more
//! than once counts with its last value, the one that `serde_json::Value` keeps.
//! What takes a whole line off a connection is also given what the typed reader of
//! messages has against the line, and refuses it with those words.

use vstd::prelude::*;

use crate::json;
use crate::json::{Js, Json};
use crate::labels;
use crate::text;
use crate::text::same;

verus! {

/// The value of a field, if the message has it.
pub open spec fn field(j: Js, key: Seq<char>) -> Option<Js> {
    j.get(key)
}

/// The object `o` with one more field, if both are there.
pub open spec fn put(o: Option<Js>, key: Seq<char>, value: Option<Js>) -> Option<Js> {
    match (o, value) {
        (Some(j), Some(v)) => Some(j.with(key, v)),
        _ => None,
    }
}

/// A string.
pub open spec fn pick_str(v: Option<Js>) -> Option<Js> {
    match v {
        Some(Js::Str(s)) => Some(Js::Str(s)),
        _ => None,
    }
}

/// A string that may be left out.
pub open spec fn pick_opt_str(v: Option<Js>) -> Option<Js> {
    match v {
        None => Some(Js::Null),
        Some(Js::Null) => Some(Js::Null),
        Some(Js::Str(s)) => Some(Js::Str(s)),
        _ => None,
    }
}

/// A boolean.
pub open spec fn pick_bool(v: Option<Js>) -> Option<Js> {
    match v {
        Some(Js::Bool(b)) => Some(Js::Bool(b)),
        _ => None,
    }
}

/// A boolean that is false where it is left out.
pub open spec fn pick_flag(v: Option<Js>) -> Option<Js> {
    match v {
        None => Some(Js::Bool(false)),
        Some(Js::Bool(b)) => Some(Js::Bool(b)),
        _ => None,
    }
}

/// An integer between `min` and `max`.
pub open spec fn pick_int(v: Option<Js>, min: int, max: int) -> Option<Js> {
    match v {
        Some(Js::Int(i)) => if min <= i <= max {
            Some(Js::Int(i))
        } else {
            None
        },
        _ => None,
    }
}

/// An integer between `min` and `max` that is 0 where it is left out.
pub open spec fn pick_int_or_zero(v: Option<Js>, min: int, max: int) -> Option<Js> {
    match v {
        None => Some(Js::Int(0)),
        _ => pick_int(v, min, max),
    }
}

/// An integer between `min` and `max` that may be left out.
pub open spec fn pick_opt_int(v: Option<Js>, min: int, max: int) -> Option<Js> {
    match v {
        None => Some(Js::Null),
        Some(Js::Null) => Some(Js::Null),
        _ => pick_int(v, min, max),
    }
}

/// Every item is a string.
pub open spec fn all_strings(v: Seq<Js>) -> bool {
    forall|i: int| 0 <= i < v.len() ==> #[trigger] v[i] is Str
}

/// Every item is an unsigned 32-bit integer.
pub open spec fn all_u32(v: Seq<Js>) -> bool {
    forall|i: int| 0 <= i < v.len() ==> pick_int(Some(#[trigger] v[i]), 0, u32::MAX as int) is Some
}

/// A list of unsigned 32-bit integers.
pub open spec fn pick_u32s(v: Option<Js>) -> Option<Js> {
    match v {
        Some(Js::Arr(items)) => if all_u32(items) {
            Some(Js::Arr(items))
        } else {
            None
        },
        _ => None,
    }
}

/// Every member is a string.
pub open spec fn all_string_members(m: Map<Seq<char>, Js>) -> bool {
    forall|k: Seq<char>| #[trigger] m.contains_key(k) ==> m[k] is Str
}

/// A map of strings that is empty where it is left out.
pub open spec fn pick_map(v: Option<Js>) -> Option<Js> {
    match v {
        None => Some(Js::Obj(Map::empty())),
        Some(Js::Obj(m)) => if all_string_members(m) {
            Some(Js::Obj(m))
        } else {
            None
        },
        _ => None,
    }
}

/// The object stands for a name alone: its only member has this name and says nothing.
/// What says nothing is null, or, where it is taken loosely, an object without members.
pub open spec fn is_unit(m: Map<Seq<char>, Js>, name: Seq<char>, loose: bool) -> bool {
    m.dom() == set![name] && (m[name] is Null || (loose && m[name] == json::no_members()))
}

/// Tells whether an object stands for a name alone.
pub fn unit(m: &Vec<(String, Json)>, name: &str, loose: bool) -> (r: bool)
    ensures
        r == is_unit(json::members_view(m@), name@, loose),
{
    let ghost all = json::members_view(m@);
    if m.len() == 0 {
        assert(!all.dom().contains(name@));
        assert(set![name@].contains(name@));
        return false;
    }
    let mut i: usize = 0;
    assert(json::members_view(m@.take(0)).dom() =~= Set::empty());
    while i < m.len()
        invariant
            i <= m.len(),
            all == json::members_view(m@),
            i == 0 ==> json::members_view(m@.take(i as int)).dom() == Set::<Seq<char>>::empty(),
            i > 0 ==> json::members_view(m@.take(i as int)).dom() == set![name@] && m@[i - 1].0@
                == name@,
        decreases m.len() - i,
    {
        proof {
            assert(m@.take(i + 1).drop_last() =~= m@.take(i as int));
        }
        if !same(m[i].0.as_str(), name) {
            proof {
                json::lemma_member_is_read(m@, i as int);
                assert(all.dom().contains(m@[i as int].0@));
                assert(!set![name@].contains(m@[i as int].0@));
            }
            return false;
        }
        assert(json::members_view(m@.take(i + 1)).dom() =~= set![name@]);
        i += 1;
    }
    assert(m@.take(m.len() as int) =~= m@);
    assert(all[name@] == m@.last().1.view());
    match &m[m.len() - 1].1 {
        Json::Null => true,
        Json::Object(v) => {
            proof {
                if v.len() > 0 {
                    json::lemma_member_is_read(v@, 0);
                }
            }
            loose && v.len() == 0
        },
        _ => false,
    }
}

/// An optional string as it is sent.
pub open spec fn opt_str_js(s: Option<String>) -> Js {
    match s {
        Some(t) => Js::Str(t@),
        None => Js::Null,
    }
}

/// An optional integer as it is sent.
pub open spec fn opt_int_js(i: Option<int>) -> Js {
    match i {
        Some(n) => Js::Int(n),
        None => Js::Null,
    }
}

/// Widens an optional number.
pub open spec fn wide_i32(i: Option<i32>) -> Option<int> {
    match i {
        Some(n) => Some(n as int),
        None => None,
    }
}

/// Widens an optional number.
pub open spec fn wide_i64(i: Option<i64>) -> Option<int> {
    match i {
        Some(n) => Some(n as int),
        None => None,
    }
}

/// Widens an optional number.
pub open spec fn wide_u64(i: Option<u64>) -> Option<int> {
    match i {
        Some(n) => Some(n as int),
        None => None,
    }
}

/// A list of strings as it is sent.
pub open spec fn strings_js(v: Seq<String>) -> Js {
    Js::Arr(v.map_values(|s: String| Js::Str(s@)))
}

/// A list of numbers as it is sent.
pub open spec fn u32s_js(v: Seq<u32>) -> Js {
    Js::Arr(v.map_values(|n: u32| Js::Int(n as int)))
}

/// A map of strings as it is sent.
pub open spec fn map_js(l: Seq<(String, String)>) -> Js {
    Js::Obj(labels::labels_view(l).map_values(|s: Seq<char>| Js::Str(s)))
}

/// Reads a string.
pub fn read_str(j: &Json, key: &str) -> (r: Option<String>)
    ensures
        match r {
            Some(s) => pick_str(field(j.view(), key@)) == Some(Js::Str(s@)),
            None => pick_str(field(j.view(), key@)) is None,
        },
{
    match j.get(key) {
        Some(Json::Text(s)) => Some(s.clone()),
        _ => None,
    }
}

/// Reads a string that may be left out.
pub fn read_opt_str(j: &Json, key: &str) -> (r: Option<Option<String>>)
    ensures
        match r {
            Some(s) => pick_opt_str(field(j.view(), key@)) == Some(opt_str_js(s)),
            None => pick_opt_str(field(j.view(), key@)) is None,
        },
{
    match j.get(key) {
        None => Some(None),
        Some(Json::Null) => Some(None),
        Some(Json::Text(s)) => Some(Some(s.clone())),
        _ => None,
    }
}

/// Reads a boolean.
pub fn read_bool(j: &Json, key: &str) -> (r: Option<bool>)
    ensures
        match r {
            Some(b) => pick_bool(field(j.view(), key@)) == Some(Js::Bool(b)),
            None => pick_bool(field(j.view(), key@)) is None,
        },
{
    match j.get(key) {
        Some(Json::Bool(b)) => Some(*b),
        _ => None,
    }
}

/// Reads a boolean that may be left out.
pub fn read_flag(j: &Json, key: &str) -> (r: Option<bool>)
    ensures
        match r {
            Some(b) => pick_flag(field(j.view(), key@)) == Some(Js::Bool(b)),
            None => pick_flag(field(j.view(), key@)) is None,
        },
{
    match j.get(key) {
        None => Some(false),
        Some(Json::Bool(b)) => Some(*b),
        _ => None,
    }
}

/// Reads an integer value between `min` and `max`.
fn int_between(v: &Json, min: i128, max: i128) -> (r: Option<i128>)
    ensures
        match r {
            Some(i) => pick_int(Some(v.view()), min as int, max as int) == Some(Js::Int(i as int))
                && min <= i <= max,
            None => pick_int(Some(v.view()), min as int, max as int) is None,
        },
{
    let i: i128 = match v {
        Json::Unsigned(n) => *n as i128,
        Json::Signed(n) => *n as i128,
        _ => {
            return None;
        },
    };
    if min <= i && i <= max {
        Some(i)
    } else {
        None
    }
}

/// Reads an unsigned 32-bit integer.
pub fn read_u32(j: &Json, key: &str) -> (r: Option<u32>)
    ensures
        match r {
            Some(i) => pick_int(field(j.view(), key@), 0, u32::MAX as int) == Some(
                Js::Int(i as int),
            ),
            None => pick_int(field(j.view(), key@), 0, u32::MAX as int) is None,
        },
{
    match j.get(key) {
        Some(v) => match int_between(v, 0, u32::MAX as i128) {
            Some(i) => Some(i as u32),
            None => None,
        },
        None => None,
    }
}

/// Reads an unsigned 32-bit integer that is 0 where it is left out.
pub fn read_u32_or_zero(j: &Json, key: &str) -> (r: Option<u32>)
    ensures
        match r {
            Some(i) => pick_int_or_zero(field(j.view(), key@), 0, u32::MAX as int) == Some(
                Js::Int(i as int),
            ),
            None => pick_int_or_zero(field(j.view(), key@), 0, u32::MAX as int) is None,
        },
{
    match j.get(key) {
        Some(v) => match int_between(v, 0, u32::MAX as i128) {
            Some(i) => Some(i as u32),
            None => None,
        },
        None => Some(0),
    }
}

/// Reads an unsigned 64-bit integer.
pub fn read_u64(j: &Json, key: &str) -> (r: Option<u64>)
    ensures
        match r {
            Some(i) => pick_int(field(j.view(), key@), 0, u64::MAX as int) == Some(
                Js::Int(i as int),
            ),
            None => pick_int(field(j.view(), key@), 0, u64::MAX as int) is None,
        },
{
    match j.get(key) {
        Some(v) => match int_between(v, 0, u64::MAX as i128) {
            Some(i) => Some(i as u64),
            None => None,
        },
        None => None,
    }
}

/// Reads a signed 32-bit integer.
pub fn read_i32(j: &Json, key: &str) -> (r: Option<i32>)
    ensures
        match r {
            Some(i) => pick_int(field(j.view(), key@), i32::MIN as int, i32::MAX as int) == Some(
                Js::Int(i as int),
            ),
            None => pick_int(field(j.view(), key@), i32::MIN as int, i32::MAX as int) is None,
        },
{
    match j.get(key) {
        Some(v) => match int_between(v, i32::MIN as i128, i32::MAX as i128) {
            Some(i) => Some(i as i32),
            None => None,
        },
        None => None,
    }
}

/// Reads a signed 64-bit integer.
pub fn read_i64(j: &Json, key: &str) -> (r: Option<i64>)
    ensures
        match r {
            Some(i) => pick_int(field(j.view(), key@), i64::MIN as int, i64::MAX as int) == Some(
                Js::Int(i as int),
            ),
            None => pick_int(field(j.view(), key@), i64::MIN as int, i64::MAX as int) is None,
        },
{
    match j.get(key) {
        Some(v) => match int_between(v, i64::MIN as i128, i64::MAX as i128) {
            Some(i) => Some(i as i64),
            None => None,
        },
        None => None,
    }
}

/// Reads a signed 32-bit integer that may be left out.
pub fn read_opt_i32(j: &Json, key: &str) -> (r: Option<Option<i32>>)
    ensures
        match r {
            Some(i) => pick_opt_int(field(j.view(), key@), i32::MIN as int, i32::MAX as int)
                == Some(opt_int_js(wide_i32(i))),
            None => pick_opt_int(field(j.view(), key@), i32::MIN as int, i32::MAX as int) is None,
        },
{
    match j.get(key) {
        None => Some(None),
        Some(Json::Null) => Some(None),
        Some(v) => match int_between(v, i32::MIN as i128, i32::MAX as i128) {
            Some(i) => Some(Some(i as i32)),
            None => None,
        },
    }
}

/// Reads a signed 64-bit integer that may be left out.
pub fn read_opt_i64(j: &Json, key: &str) -> (r: Option<Option<i64>>)
    ensures
        match r {
            Some(i) => pick_opt_int(field(j.view(), key@), i64::MIN as int, i64::MAX as int)
                == Some(opt_int_js(wide_i64(i))),
            None => pick_opt_int(field(j.view(), key@), i64::MIN as int, i64::MAX as int) is None,
        },
{
    match j.get(key) {
        None => Some(None),
        Some(Json::Null) => Some(None),
        Some(v) => match int_between(v, i64::MIN as i128, i64::MAX as i128) {
            Some(i) => Some(Some(i as i64)),
            None => None,
        },
    }
}

/// Reads an unsigned 64-bit integer that may be left out.
pub fn read_opt_u64(j: &Json, key: &str) -> (r: Option<Option<u64>>)
    ensures
        match r {
            Some(i) => pick_opt_int(field(j.view(), key@), 0, u64::MAX as int) == Some(
                opt_int_js(wide_u64(i)),
            ),
            None => pick_opt_int(field(j.view(), key@), 0, u64::MAX as int) is None,
        },
{
    match j.get(key) {
        None => Some(None),
        Some(Json::Null) => Some(None),
        Some(v) => match int_between(v, 0, u64::MAX as i128) {
            Some(i) => Some(Some(i as u64)),
            None => None,
        },
    }
}

/// Reads a list of unsigned 32-bit integers.
pub fn read_u32s(j: &Json, key: &str) -> (r: Option<Vec<u32>>)
    ensures
        match r {
            Some(v) => pick_u32s(field(j.view(), key@)) == Some(u32s_js(v@)),
            None => pick_u32s(field(j.view(), key@)) is None,
        },
{
    let mut out: Vec<u32> = Vec::new();
    match j.get(key) {
        Some(Json::Array(items)) => {
            let ghost all = json::items_view(items@);
            proof {
                json::lemma_items(items@);
            }
            let mut i: usize = 0;
            while i < items.len()
                invariant
                    i <= items.len(),
                    all == json::items_view(items@),
                    all.len() == items.len(),
                    forall|k: int| 0 <= k < items.len() ==> all[k] == (#[trigger] items@[k]).view(),
                    out.len() == i,
                    forall|k: int| 0 <= k < i ==> #[trigger] all[k] == Js::Int(out@[k] as int),
                    j.view().get(key@) == Some(Js::Arr(all)),
                decreases items.len() - i,
            {
                assert(all[i as int] == items@[i as int].view());
                match int_between(&items[i], 0, u32::MAX as i128) {
                    Some(n) => {
                        out.push(n as u32);
                    },
                    None => {
                        return None;
                    },
                }
                i += 1;
            }
            assert(u32s_js(out@)->Arr_0 =~= all);
            Some(out)
        },
        _ => None,
    }
}

/// Reads a map of strings.
pub fn read_map(j: &Json, key: &str) -> (r: Option<Vec<(String, String)>>)
    ensures
        match r {
            Some(v) => pick_map(field(j.view(), key@)) == Some(map_js(v@)),
            None => pick_map(field(j.view(), key@)) is None,
        },
{
    match crate::fleet::central::string_map(j, key) {
        Some(l) => {
            proof {
                let m = labels::labels_view(l@);
                match field(j.view(), key@) {
                    Some(Js::Obj(all)) => {
                        assert(all_string_members(all));
                        assert(map_js(l@)->Obj_0 =~= all);
                    },
                    _ => {
                        assert(map_js(l@)->Obj_0 =~= Map::<Seq<char>, Js>::empty());
                    },
                }
            }
            Some(l)
        },
        None => None,
    }
}

/// An optional string to send.
pub fn send_opt_str(s: &Option<String>) -> (r: Json)
    ensures
        r.view() == opt_str_js(*s),
        r.form() == json::flat(opt_str_js(*s)),
{
    match s {
        Some(t) => Json::text(t.as_str()),
        None => Json::Null,
    }
}

/// An optional number to send.
pub fn send_opt_i32(i: Option<i32>) -> (r: Json)
    ensures
        r.view() == opt_int_js(wide_i32(i)),
        r.form() == json::flat(opt_int_js(wide_i32(i))),
{
    match i {
        Some(n) => Json::Signed(n as i64),
        None => Json::Null,
    }
}

/// An optional number to send.
pub fn send_opt_i64(i: Option<i64>) -> (r: Json)
    ensures
        r.view() == opt_int_js(wide_i64(i)),
        r.form() == json::flat(opt_int_js(wide_i64(i))),
{
    match i {
        Some(n) => Json::Signed(n),
        None => Json::Null,
    }
}

/// An optional number to send.
pub fn send_opt_u64(i: Option<u64>) -> (r: Json)
    ensures
        r.view() == opt_int_js(wide_u64(i)),
        r.form() == json::flat(opt_int_js(wide_u64(i))),
{
    match i {
        Some(n) => Json::Unsigned(n),
        None => Json::Null,
    }
}

/// A list of strings to send.
pub fn send_strings(v: &Vec<String>) -> (r: Json)
    ensures
        r.view() == strings_js(v@),
        r.form() == json::flat(strings_js(v@)),
{
    let mut out: Vec<Json> = Vec::new();
    let mut i: usize = 0;
    while i < v.len()
        invariant
            i <= v.len(),
            out.len() == i,
            forall|k: int|
                0 <= k < i ==> (#[trigger] out@[k]).view() == Js::Str(v@[k]@) && out@[k].form()
                    == json::Form::Str(v@[k]@),
        decreases v.len() - i,
    {
        out.push(Json::text(v[i].as_str()));
        i += 1;
    }
    proof {
        json::lemma_items(out@);
        let all = strings_js(v@)->Arr_0;
        assert forall|k: int| 0 <= k < out.len() implies json::items_view(out@)[k] == all[k] by {
            assert(out@[k].view() == Js::Str(v@[k]@));
        }
        assert(json::items_view(out@) =~= all);
        json::lemma_items_form(out@);
        let written = json::flat(strings_js(v@))->Arr_0;
        assert forall|k: int| 0 <= k < out.len() implies json::items_form(out@)[k]
            == written[k] by {
            assert(out@[k].form() == json::Form::Str(v@[k]@));
        }
        assert(json::items_form(out@) =~= written);
    }
    Json::Array(out)
}

/// A list of numbers to send.
pub fn send_u32s(v: &Vec<u32>) -> (r: Json)
    ensures
        r.view() == u32s_js(v@),
        r.form() == json::flat(u32s_js(v@)),
{
    let mut out: Vec<Json> = Vec::new();
    let mut i: usize = 0;
    while i < v.len()
        invariant
            i <= v.len(),
            out.len() == i,
            forall|k: int|
                0 <= k < i ==> (#[trigger] out@[k]).view() == Js::Int(v@[k] as int)
                    && out@[k].form() == json::Form::Int(v@[k] as int),
        decreases v.len() - i,
    {
        out.push(Json::Unsigned(v[i] as u64));
        i += 1;
    }
    proof {
        json::lemma_items(out@);
        let all = u32s_js(v@)->Arr_0;
        assert forall|k: int| 0 <= k < out.len() implies json::items_view(out@)[k] == all[k] by {
            assert(out@[k].view() == Js::Int(v@[k] as int));
        }
        assert(json::items_view(out@) =~= all);
        json::lemma_items_form(out@);
        let written = json::flat(u32s_js(v@))->Arr_0;
        assert forall|k: int| 0 <= k < out.len() implies json::items_form(out@)[k]
            == written[k] by {
            assert(out@[k].form() == json::Form::Int(v@[k] as int));
        }
        assert(json::items_form(out@) =~= written);
    }
    Json::Array(out)
}

/// A map of strings to send, in the order of its keys.
pub fn send_map(l: &Vec<(String, String)>) -> (r: Json)
    ensures
        r.view() == map_js(l@),
        r.form() == json::flat(map_js(l@)),
{
    let ghost all = labels::labels_view(l@);
    let ghost m = map_js(l@)->Obj_0;
    let keys = labels::label_keys(l);
    let ghost names = text::views(keys@);
    let ghost written = json::flat(map_js(l@))->Obj_0;
    proof {
        assert(m.dom() =~= all.dom());
        assert(written.take(0) =~= Seq::<(Seq<char>, json::Form)>::empty());
    }
    let mut out = Json::object();
    let mut i: usize = 0;
    while i < keys.len()
        invariant
            i <= keys.len(),
            names == text::views(keys@),
            names.to_set() == all.dom(),
            all == labels::labels_view(l@),
            m == map_js(l@)->Obj_0,
            written.len() == names.len(),
            forall|k: int|
                0 <= k < names.len() ==> #[trigger] written[k] == (names[k], json::scalar(
                    m[names[k]],
                )),
            out.view() is Obj,
            forall|t: Seq<char>| #[trigger]
                out.view()->Obj_0.contains_key(t) ==> names.contains(t) && out.view()->Obj_0[t]
                    == Js::Str(all[t]),
            forall|k: int| 0 <= k < i ==> out.view()->Obj_0.contains_key(#[trigger] names[k]),
            out.form() == json::Form::Obj(written.take(i as int)),
        decreases keys.len() - i,
    {
        proof {
            assert(names[i as int] == keys@[i as int]@);
            assert(names.to_set().contains(names[i as int]));
            assert(written[i as int] == (names[i as int], json::scalar(m[names[i as int]])));
            assert(written.take(i + 1) =~= written.take(i as int).push(written[i as int]));
        }
        if let Some(v) = labels::get_label(l, keys[i].as_str()) {
            out = out.put(keys[i].as_str(), Json::text(v));
        }
        i += 1;
    }
    proof {
        assert(written.take(keys.len() as int) =~= written);
        let got = out.view()->Obj_0;
        assert forall|t: Seq<char>| #[trigger] got.contains_key(t) == m.contains_key(t) by {
            if m.contains_key(t) {
                assert(names.to_set().contains(t));
                let k = choose|k: int| 0 <= k < names.len() && names[k] == t;
                assert(got.contains_key(names[k]));
            } else if got.contains_key(t) {
                assert(names.contains(t));
                assert(names.to_set().contains(t));
            }
        }
        assert(got =~= m);
    }
    out
}

/// What is sent for a field is what its type accepts.
pub proof fn lemma_sent_fields(
    s: Option<String>,
    n: Seq<u32>,
    l: Seq<(String, String)>,
)
    ensures
        pick_opt_str(Some(opt_str_js(s))) == Some(opt_str_js(s)),
        pick_u32s(Some(u32s_js(n))) == Some(u32s_js(n)),
        pick_map(Some(map_js(l))) == Some(map_js(l)),
{
}

} // verus!
