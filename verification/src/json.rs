//! JSON documents as plain value trees, and the calls into `serde_json` that
//! read and write their text.

use vstd::prelude::*;

verus! {

/// A JSON document. A number is kept as the decimal text that `serde_json`
/// prints for it; an object keeps its members in order.
#[derive(Debug, PartialEq, Eq)]
pub enum JsonValue {
    Null,
    Bool(bool),
    Number(String),
    Text(String),
    Array(Vec<JsonValue>),
    Object(Vec<(String, JsonValue)>),
}

/// The mathematical value of a [`JsonValue`].
pub enum JsonTree {
    Null,
    Bool(bool),
    Number(Seq<char>),
    Text(Seq<char>),
    Array(Seq<JsonTree>),
    Object(Seq<(Seq<char>, JsonTree)>),
}

impl View for JsonValue {
    type V = JsonTree;

    open spec fn view(&self) -> JsonTree
        decreases self,
    {
        match self {
            JsonValue::Null => JsonTree::Null,
            JsonValue::Bool(b) => JsonTree::Bool(*b),
            JsonValue::Number(n) => JsonTree::Number(n@),
            JsonValue::Text(s) => JsonTree::Text(s@),
            JsonValue::Array(items) => JsonTree::Array(
                Seq::new(
                    items@.len(),
                    |i: int|
                        if 0 <= i < items@.len() {
                            items@[i]@
                        } else {
                            JsonTree::Null
                        },
                ),
            ),
            JsonValue::Object(members) => JsonTree::Object(members_view(members@)),
        }
    }
}

/// The members of an object, each key and value by its view.
pub open spec fn members_view(members: Seq<(String, JsonValue)>) -> Seq<(Seq<char>, JsonTree)>
    decreases members,
{
    Seq::new(
        members.len(),
        |i: int|
            if 0 <= i < members.len() {
                (members[i].0@, members[i].1@)
            } else {
                (Seq::empty(), JsonTree::Null)
            },
    )
}

/// The value of the last member of an object that has the given key.
pub open spec fn find_member(members: Seq<(Seq<char>, JsonTree)>, key: Seq<char>) -> Option<
    JsonTree,
>
    decreases members.len(),
{
    if members.len() == 0 {
        None
    } else if members.last().0 == key {
        Some(members.last().1)
    } else {
        find_member(members.drop_last(), key)
    }
}

/// Looking a key up among members that end in a member with that key gives
/// that member's value.
pub broadcast proof fn lemma_find_last(
    members: Seq<(Seq<char>, JsonTree)>,
    key: Seq<char>,
    value: JsonTree,
)
    ensures
        #[trigger] find_member(members.push((key, value)), key) == Some(value),
{
}

/// A member with another key at the end does not change what a key finds.
pub broadcast proof fn lemma_find_skip(
    members: Seq<(Seq<char>, JsonTree)>,
    other: Seq<char>,
    value: JsonTree,
    key: Seq<char>,
)
    requires
        other != key,
    ensures
        #[trigger] find_member(members.push((other, value)), key) == find_member(members, key),
{
    assert(members.push((other, value)).drop_last() =~= members);
}

/// The views of a vector of values, in order.
pub open spec fn items_view(items: Seq<JsonValue>) -> Seq<JsonTree> {
    Seq::new(items.len(), |i: int| items[i]@)
}

/// The view of an array is the views of its items.
pub proof fn lemma_array_view(items: Vec<JsonValue>)
    ensures
        JsonValue::Array(items)@ == JsonTree::Array(items_view(items@)),
{
    assert(JsonValue::Array(items)@->Array_0 =~= items_view(items@));
}

impl Clone for JsonValue {
    fn clone(&self) -> (r: JsonValue)
        ensures
            r@ == self@,
        decreases self,
    {
        match self {
            JsonValue::Null => JsonValue::Null,
            JsonValue::Bool(b) => JsonValue::Bool(*b),
            JsonValue::Number(n) => JsonValue::Number(n.clone()),
            JsonValue::Text(s) => JsonValue::Text(s.clone()),
            JsonValue::Array(items) => {
                let out = clone_items(items);
                proof {
                    lemma_array_view(out);
                    lemma_array_view(*items);
                }
                JsonValue::Array(out)
            },
            JsonValue::Object(members) => JsonValue::Object(clone_members(members)),
        }
    }
}

/// Copies the items of an array.
pub fn clone_items(items: &Vec<JsonValue>) -> (r: Vec<JsonValue>)
    ensures
        items_view(r@) == items_view(items@),
    decreases items,
{
    broadcast use vstd::std_specs::vec::group_vec_axioms;

    let mut out: Vec<JsonValue> = Vec::new();
    let mut i: usize = 0;
    while i < items.len()
        invariant
            i <= items.len(),
            out@.len() == i,
            forall|j: int| 0 <= j < i ==> out@[j]@ == items@[j]@,
        decreases items.len() - i,
    {
        out.push(items[i].clone());
        i += 1;
    }
    proof {
        assert(items_view(out@) =~= items_view(items@));
    }
    out
}

/// Copies the members of an object.
pub fn clone_members(members: &Vec<(String, JsonValue)>) -> (r: Vec<(String, JsonValue)>)
    ensures
        members_view(r@) == members_view(members@),
    decreases members,
{
    broadcast use vstd::std_specs::vec::group_vec_axioms;

    let mut out: Vec<(String, JsonValue)> = Vec::new();
    let mut i: usize = 0;
    while i < members.len()
        invariant
            i <= members.len(),
            out@.len() == i,
            forall|j: int|
                0 <= j < i ==> out@[j].0@ == members@[j].0@ && out@[j].1@ == members@[j].1@,
        decreases members.len() - i,
    {
        let value = members[i].1.clone();
        out.push((members[i].0.clone(), value));
        i += 1;
    }
    proof {
        assert(members_view(out@) =~= members_view(members@));
    }
    out
}

/// Looking a key up in an empty object finds nothing.
pub broadcast proof fn lemma_find_empty(key: Seq<char>)
    ensures
        #[trigger] find_member(Seq::empty(), key) is None,
{
}

/// Whether no member has the given key.
pub open spec fn lacks_key(members: Seq<(Seq<char>, JsonTree)>, key: Seq<char>) -> bool {
    forall|i: int| 0 <= i < members.len() ==> (#[trigger] members[i]).0 != key
}

/// Members appended behind an object do not change what a key finds, where
/// none of them has that key.
pub proof fn lemma_find_append(
    head: Seq<(Seq<char>, JsonTree)>,
    tail: Seq<(Seq<char>, JsonTree)>,
    key: Seq<char>,
)
    requires
        lacks_key(tail, key),
    ensures
        find_member(head + tail, key) == find_member(head, key),
    decreases tail.len(),
{
    if tail.len() == 0 {
        assert(head + tail =~= head);
    } else {
        assert((head + tail).drop_last() =~= head + tail.drop_last());
        assert((head + tail).last() == tail[tail.len() - 1]);
        lemma_find_append(head, tail.drop_last(), key);
    }
}

/// Adds a member at the end of an object.
pub fn put(out: &mut Vec<(String, JsonValue)>, key: &str, value: JsonValue)
    ensures
        members_view(final(out)@) == members_view(old(out)@).push((key@, value@)),
{
    out.push((key.to_owned(), value));
    proof {
        assert(members_view(out@) =~= members_view(old(out)@).push((key@, value@)));
    }
}

/// Adds copies of the members of `extra` at the end of an object.
pub fn append_members(out: &mut Vec<(String, JsonValue)>, extra: &Vec<(String, JsonValue)>)
    ensures
        members_view(final(out)@) == members_view(old(out)@) + members_view(extra@),
{
    let mut copy = clone_members(extra);
    let ghost before = out@;
    let ghost added = copy@;
    out.append(&mut copy);
    proof {
        assert(members_view(out@) =~= members_view(before) + members_view(extra@)) by {
            assert forall|i: int| 0 <= i < out@.len() implies members_view(out@)[i] == (
                members_view(before) + members_view(extra@))[i] by {
                if i >= before.len() {
                    assert(members_view(added)[i - before.len()] == members_view(extra@)[i
                        - before.len()]);
                }
            }
        }
    }
}

/// Whether a string holds exactly the given text.
pub fn text_is(s: &String, text: &str) -> (r: bool)
    ensures
        r == (s@ == text@),
{
    let t = text.to_owned();
    *s == t
}

/// The value of the last member named `key`, if the object has one.
pub fn member<'a>(members: &'a Vec<(String, JsonValue)>, key: &str) -> (r: Option<&'a JsonValue>)
    ensures
        match r {
            Some(v) => find_member(members_view(members@), key@) == Some(v@),
            None => find_member(members_view(members@), key@) is None,
        },
{
    let ghost all = members_view(members@);
    let mut i: usize = members.len();
    proof {
        assert(all.subrange(0, i as int) =~= all);
    }
    while i > 0
        invariant
            i <= members.len(),
            all == members_view(members@),
            find_member(all, key@) == find_member(all.subrange(0, i as int), key@),
        decreases i,
    {
        proof {
            assert(all.subrange(0, i as int).drop_last() =~= all.subrange(0, i - 1));
        }
        i -= 1;
        if text_is(&members[i].0, key) {
            return Some(&members[i].1);
        }
    }
    proof {
        assert(all.subrange(0, 0).len() == 0);
    }
    None
}

/// What `serde_json` reads from a text: the document, or nothing where it
/// refuses the text.
pub uninterp spec fn json_text_value(text: Seq<char>) -> Option<JsonTree>;

/// What `serde_json::to_string` gives for a document: the compact text, or
/// nothing where it fails.
pub uninterp spec fn json_value_text(tree: JsonTree) -> Option<Seq<char>>;

/// `serde_json::Value`, as an opaque type.
#[verifier::external_type_specification]
#[verifier::external_body]
pub struct ExJsonDocument(serde_json::Value);

/// Copies a `serde_json::Value` into a tree, variant by variant; a number
/// becomes the text that `serde_json` prints for it. Nothing is claimed of
/// the result here: [`parse_json`] names it.
#[verifier::external_body]
fn tree_from_outside(v: &serde_json::Value) -> JsonValue {
    match v {
        serde_json::Value::Null => JsonValue::Null,
        serde_json::Value::Bool(b) => JsonValue::Bool(*b),
        serde_json::Value::Number(n) => JsonValue::Number(n.to_string()),
        serde_json::Value::String(s) => JsonValue::Text(s.clone()),
        serde_json::Value::Array(a) => JsonValue::Array(a.iter().map(tree_from_outside).collect()),
        serde_json::Value::Object(o) => JsonValue::Object(
            o.iter().map(|(k, x)| (k.clone(), tree_from_outside(x))).collect(),
        ),
    }
}

/// Copies a tree into a `serde_json::Value`, variant by variant. A number is
/// read back from its text by `serde_json::from_str`, and is null where that
/// fails; of two members with one key the later value stays, in the place
/// of the earlier. Nothing is claimed of the result here: [`render_json`]
/// and [`display_json`] name what is written for it.
#[verifier::external_body]
fn tree_to_outside(v: &JsonValue) -> serde_json::Value {
    match v {
        JsonValue::Null => serde_json::Value::Null,
        JsonValue::Bool(b) => serde_json::Value::Bool(*b),
        JsonValue::Number(n) => serde_json::from_str::<serde_json::Number>(n).map_or(
            serde_json::Value::Null,
            serde_json::Value::Number,
        ),
        JsonValue::Text(s) => serde_json::Value::String(s.clone()),
        JsonValue::Array(a) => serde_json::Value::Array(a.iter().map(tree_to_outside).collect()),
        JsonValue::Object(o) => serde_json::Value::Object(
            o.iter().map(|(k, x)| (k.clone(), tree_to_outside(x))).collect(),
        ),
    }
}

/// Calls `serde_json::from_str` for a `serde_json::Value`. The contract only
/// gives the outcome its name: the document read, as a tree, is
/// `json_text_value` of the text, and an error (whose message is returned)
/// comes exactly where that is nothing.
#[verifier::external_body]
pub(crate) fn parse_json(text: &str) -> (r: Result<JsonValue, String>)
    ensures
        match r {
            Ok(v) => json_text_value(text@) == Some(v@),
            Err(_) => json_text_value(text@) is None,
        },
{
    match serde_json::from_str::<serde_json::Value>(text) {
        Ok(v) => Ok(tree_from_outside(&v)),
        Err(e) => Err(e.to_string()),
    }
}

/// The text that a `serde_json::Value` displays as.
pub uninterp spec fn json_display_text(tree: JsonTree) -> Seq<char>;

/// Calls `to_string` on the document as a `serde_json::Value`, which formats
/// it through the value's `Display`. The contract only gives the text its
/// name, `json_display_text` of the tree.
#[verifier::external_body]
pub(crate) fn display_json(v: &JsonValue) -> (r: String)
    ensures
        r@ == json_display_text(v@),
{
    tree_to_outside(v).to_string()
}

/// Calls `serde_json::to_string` on the document. The contract only gives
/// the outcome its name: the text is `json_value_text` of the tree, and an
/// error (whose message is returned) comes exactly where that is nothing. It
/// does not say on which documents the call succeeds.
#[verifier::external_body]
pub(crate) fn render_json(v: &JsonValue) -> (r: Result<String, String>)
    ensures
        match r {
            Ok(s) => json_value_text(v@) == Some(s@),
            Err(_) => json_value_text(v@) is None,
        },
{
    serde_json::to_string(&tree_to_outside(v)).map_err(|e| e.to_string())
}

} // verus!
