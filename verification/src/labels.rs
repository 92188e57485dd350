//! Lists of keys and values, such as the labels of a node.

use vstd::prelude::*;

use crate::text;
use crate::text::same;

verus! {

/// The reading of labels; where a key occurs more than once, the last counts.
pub open spec fn labels_view(l: Seq<(String, String)>) -> Map<Seq<char>, Seq<char>>
    decreases l.len(),
{
    if l.len() == 0 {
        Map::empty()
    } else {
        labels_view(l.drop_last()).insert(l.last().0@, l.last().1@)
    }
}

/// What the labels say of a key.
pub open spec fn label(l: Map<Seq<char>, Seq<char>>, key: Seq<char>) -> Option<Seq<char>> {
    if l.contains_key(key) {
        Some(l[key])
    } else {
        None
    }
}

/// Copies labels.
pub fn copy_labels(l: &Vec<(String, String)>) -> (r: Vec<(String, String)>)
    ensures
        labels_view(r@) == labels_view(l@),
{
    let mut out: Vec<(String, String)> = Vec::new();
    let mut i: usize = 0;
    assert(l@.take(0) =~= Seq::<(String, String)>::empty());
    while i < l.len()
        invariant
            i <= l.len(),
            labels_view(out@) == labels_view(l@.take(i as int)),
        decreases l.len() - i,
    {
        let ghost before = out@;
        out.push((l[i].0.clone(), l[i].1.clone()));
        proof {
            assert(out@.drop_last() =~= before);
            assert(l@.take(i + 1).drop_last() =~= l@.take(i as int));
        }
        i += 1;
    }
    assert(l@.take(l.len() as int) =~= l@);
    out
}

/// The value of a label.
pub fn get_label<'a>(l: &'a Vec<(String, String)>, key: &str) -> (r: Option<&'a str>)
    ensures
        match r {
            Some(v) => label(labels_view(l@), key@) == Some(v@),
            None => label(labels_view(l@), key@) is None,
        },
{
    let mut n: usize = l.len();
    assert(l@.take(n as int) =~= l@);
    while n > 0
        invariant
            n <= l.len(),
            label(labels_view(l@), key@) == label(labels_view(l@.take(n as int)), key@),
        decreases n,
    {
        proof {
            assert(l@.take(n as int).drop_last() =~= l@.take(n - 1));
        }
        if same(l[n - 1].0.as_str(), key) {
            return Some(l[n - 1].1.as_str());
        }
        n -= 1;
    }
    assert(l@.take(0) =~= Seq::<(String, String)>::empty());
    None
}

/// The keys of labels in their order.
pub fn label_keys(l: &Vec<(String, String)>) -> (r: Vec<String>)
    ensures
        text::views(r@) == text::ordered(labels_view(l@).dom()),
        text::views(r@).to_set() == labels_view(l@).dom(),
{
    let mut keys: Vec<String> = Vec::new();
    let mut i: usize = 0;
    assert(l@.take(0) =~= Seq::<(String, String)>::empty());
    assert(text::views(keys@).to_set() =~= labels_view(l@.take(0)).dom());
    while i < l.len()
        invariant
            i <= l.len(),
            text::views(keys@).to_set() == labels_view(l@.take(i as int)).dom(),
        decreases l.len() - i,
    {
        let ghost before = text::views(keys@);
        keys.push(l[i].0.clone());
        proof {
            let key = l@[i as int].0@;
            let now = text::views(keys@);
            assert(now =~= before.push(key));
            assert(l@.take(i + 1).drop_last() =~= l@.take(i as int));
            let d = labels_view(l@.take(i + 1)).dom();
            assert forall|t: Seq<char>| now.to_set().contains(t) == d.contains(t) by {
                text::lemma_push_set(before, key, t);
            }
            assert(now.to_set() =~= d);
        }
        i += 1;
    }
    assert(l@.take(l.len() as int) =~= l@);
    text::sort_keys(&keys)
}

/// Tells whether the labels give `key` the value `value`.
pub fn has_label(l: &Vec<(String, String)>, key: &str, value: &str) -> (r: bool)
    ensures
        r == (label(labels_view(l@), key@) == Some(value@)),
{
    match get_label(l, key) {
        Some(v) => same(v, value),
        None => false,
    }
}

/// The last value that is given to a key counts, and other keys keep theirs.
pub proof fn law_last_label_counts(
    l: Seq<(String, String)>,
    more: (String, String),
    other: Seq<char>,
)
    ensures
        label(labels_view(l.push(more)), more.0@) == Some(more.1@),
        other != more.0@ ==> label(labels_view(l.push(more)), other) == label(labels_view(l), other),
        label(labels_view(Seq::empty()), other) is None,
{
    assert(l.push(more).drop_last() =~= l);
}

/// A key that occurs in a list of labels is in its reading.
pub proof fn lemma_label_kept(l: Seq<(String, String)>, i: int)
    requires
        0 <= i < l.len(),
    ensures
        labels_view(l).contains_key(l[i].0@),
    decreases l.len(),
{
    if i < l.len() - 1 {
        lemma_label_kept(l.drop_last(), i);
        assert(l.drop_last()[i] == l[i]);
    }
}

/// The keys of labels can be put in order, each once.
pub proof fn lemma_keys_in_order(l: Seq<(String, String)>)
    ensures
        text::ascending(text::ordered(labels_view(l).dom())),
        text::ordered(labels_view(l).dom()).no_duplicates(),
        text::ordered(labels_view(l).dom()).to_set() == labels_view(l).dom(),
{
    let keys = l.map_values(|e: (String, String)| e.0@);
    lemma_keys(l);
    text::law_texts_have_an_order(keys);
}

/// The keys of labels are those of all their items.
proof fn lemma_keys(l: Seq<(String, String)>)
    ensures
        labels_view(l).dom() == l.map_values(|e: (String, String)| e.0@).to_set(),
    decreases l.len(),
{
    let f = |e: (String, String)| e.0@;
    let keys = l.map_values(f);
    if l.len() == 0 {
        assert(labels_view(l).dom() =~= keys.to_set());
    } else {
        let rest = l.drop_last();
        lemma_keys(rest);
        assert(keys =~= rest.map_values(f).push(l.last().0@));
        assert forall|t: Seq<char>| labels_view(l).dom().contains(t) == keys.to_set().contains(t) by {
            text::lemma_push_set(rest.map_values(f), l.last().0@, t);
        }
        assert(labels_view(l).dom() =~= keys.to_set());
    }
}

} // verus!
