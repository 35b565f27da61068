use vstd::prelude::*;

verus! {

broadcast use vstd::std_specs::vec::group_vec_axioms, vstd::seq::group_seq_axioms;

/// A JSON document as the library holds it. Numbers keep their decimal
/// text; objects keep their entries in the order the decoder gave them.
#[derive(Debug)]
pub enum Json {
    Null,
    Bool(bool),
    Number(String),
    Str(String),
    Array(Vec<Json>),
    Object(Vec<(String, Json)>),
}

/// The mathematical value of a JSON document.
pub enum JsonTree {
    Null,
    Bool(bool),
    Number(Seq<char>),
    Str(Seq<char>),
    Array(Seq<JsonTree>),
    Object(Seq<(Seq<char>, JsonTree)>),
}

pub open spec fn tree(j: Json) -> JsonTree
    decreases j,
{
    match j {
        Json::Null => JsonTree::Null,
        Json::Bool(b) => JsonTree::Bool(b),
        Json::Number(n) => JsonTree::Number(n@),
        Json::Str(s) => JsonTree::Str(s@),
        Json::Array(items) => JsonTree::Array(
            Seq::new(items@.len(), |i: int| if 0 <= i < items@.len() { tree(items@[i]) } else { JsonTree::Null }),
        ),
        Json::Object(entries) => JsonTree::Object(
            Seq::new(entries@.len(), |i: int|
                if 0 <= i < entries@.len() {
                    (entries@[i].0@, tree(entries@[i].1))
                } else {
                    (Seq::empty(), JsonTree::Null)
                },),
        ),
    }
}

impl View for Json {
    type V = JsonTree;

    open spec fn view(&self) -> JsonTree {
        tree(*self)
    }
}

/// `serde_json::Value`, the tree that serde_json decodes a text into.
#[verifier::external_type_specification]
#[verifier::external_body]
pub struct ExValue(serde_json::Value);

/// The document that a `serde_json::Value` holds.
pub uninterp spec fn value_tree(v: serde_json::Value) -> JsonTree;

/// The document that `serde_json::from_str` reads from a text, if it reads
/// one.
pub uninterp spec fn decoded(text: Seq<char>) -> Option<JsonTree>;

/// Relies on `serde_json::from_str::<serde_json::Value>`: the document it
/// reads from the text, or its failure, depends on the text alone.
#[verifier::external_body]
fn read_value(text: &str) -> (r: Option<serde_json::Value>)
    ensures
        r is Some <==> decoded(text@) is Some,
        r matches Some(v) ==> decoded(text@) == Some(value_tree(v)),
{
    serde_json::from_str(text).ok()
}

/// One level of a `serde_json::Value`: its variant, with the children not
/// yet converted.
pub enum Node {
    Null,
    Bool(bool),
    Number(String),
    Str(String),
    Array(Vec<serde_json::Value>),
    Object(Vec<(String, serde_json::Value)>),
}

/// Relies on the variants of `serde_json::Value`, a number written by the
/// `Display` of `serde_json::Number`, and on `serde_json::Map` handing out
/// its entries in its own order.
#[verifier::external_body]
fn open_value(v: serde_json::Value) -> (r: Node)
    ensures
        r matches Node::Null ==> value_tree(v) == JsonTree::Null,
        r matches Node::Bool(b) ==> value_tree(v) == JsonTree::Bool(b),
        r matches Node::Number(n) ==> value_tree(v) == JsonTree::Number(n@),
        r matches Node::Str(s) ==> value_tree(v) == JsonTree::Str(s@),
        r matches Node::Array(a) ==> value_tree(v) == JsonTree::Array(
            Seq::new(a@.len(), |i: int| value_tree(a@[i])),
        ),
        r matches Node::Object(e) ==> value_tree(v) == JsonTree::Object(
            Seq::new(e@.len(), |i: int| (e@[i].0@, value_tree(e@[i].1))),
        ),
{
    match v {
        serde_json::Value::Null => Node::Null,
        serde_json::Value::Bool(b) => Node::Bool(b),
        serde_json::Value::Number(n) => Node::Number(n.to_string()),
        serde_json::Value::String(s) => Node::Str(s),
        serde_json::Value::Array(a) => Node::Array(a),
        serde_json::Value::Object(m) => Node::Object(m.into_iter().collect()),
    }
}

/// Converts a decoded `serde_json::Value` into the library's own tree.
fn from_value(v: serde_json::Value) -> (j: Json)
    ensures
        j@ == value_tree(v),
    decreases value_tree(v),
{
    let ghost t = value_tree(v);
    match open_value(v) {
        Node::Null => Json::Null,
        Node::Bool(b) => Json::Bool(b),
        Node::Number(n) => Json::Number(n),
        Node::Str(s) => Json::Str(s),
        Node::Array(a) => {
            let ghost all = a@;
            let mut rest = a;
            let mut out: Vec<Json> = Vec::new();
            while rest.len() > 0
                invariant
                    t == value_tree(v),
                    t == JsonTree::Array(Seq::new(all.len(), |i: int| value_tree(all[i]))),
                    out@.len() + rest@.len() == all.len(),
                    rest@ == all.subrange(out@.len() as int, all.len() as int),
                    forall|i: int| 0 <= i < out@.len() ==> #[trigger] out@[i]@ == value_tree(all[i]),
                decreases rest@.len(),
            {
                let ghost k = out@.len() as int;
                let child = rest.remove(0);
                proof {
                    assert(child == all[k]);
                    let s = t->Array_0;
                    assert(s[k] == value_tree(child));
                    assert(decreases_to!(t => s));
                    assert(decreases_to!(s => s[k]));
                    assert(decreases_to!(t => value_tree(child)));
                }
                let c = from_value(child);
                out.push(c);
            }
            let j = Json::Array(out);
            proof {
                assert(forall|i: int| 0 <= i < out@.len() ==> tree(out@[i]) == #[trigger] out@[i]@);
                assert forall|i: int| 0 <= i < out@.len() implies tree(j)->Array_0[i] == t->Array_0[i] by {
                    assert(out@[i]@ == value_tree(all[i]));
                }
                assert(tree(j)->Array_0 =~= t->Array_0);
            }
            j
        },
        Node::Object(e) => {
            let ghost all = e@;
            let mut rest = e;
            let mut out: Vec<(String, Json)> = Vec::new();
            while rest.len() > 0
                invariant
                    t == value_tree(v),
                    t == JsonTree::Object(
                        Seq::new(all.len(), |i: int| (all[i].0@, value_tree(all[i].1))),
                    ),
                    out@.len() + rest@.len() == all.len(),
                    rest@ == all.subrange(out@.len() as int, all.len() as int),
                    forall|i: int|
                        0 <= i < out@.len() ==> #[trigger] out@[i].0@ == all[i].0@ && out@[i].1@
                            == value_tree(all[i].1),
                decreases rest@.len(),
            {
                let ghost k = out@.len() as int;
                let (key, child) = rest.remove(0);
                proof {
                    assert(child == all[k].1);
                    let s = t->Object_0;
                    assert(s[k].1 == value_tree(child));
                    assert(decreases_to!(t => s));
                    assert(decreases_to!(s => s[k]));
                    assert(decreases_to!(s[k] => s[k].1));
                    assert(decreases_to!(t => value_tree(child)));
                }
                let c = from_value(child);
                out.push((key, c));
            }
            let j = Json::Object(out);
            proof {
                assert(forall|i: int| 0 <= i < out@.len() ==> tree(out@[i].1) == #[trigger] out@[i].1@);
                assert(tree(j)->Object_0 =~= t->Object_0);
            }
            j
        },
    }
}

/// Reads a JSON document from a text.
pub fn parse(text: &str) -> (r: Option<Json>)
    ensures
        r is Some <==> decoded(text@) is Some,
        r matches Some(j) ==> decoded(text@) == Some(j@),
{
    match read_value(text) {
        Some(v) => Some(from_value(v)),
        None => None,
    }
}

/// The value under the first entry named `key`.
pub open spec fn find_entry(e: Seq<(Seq<char>, JsonTree)>, key: Seq<char>) -> Option<JsonTree>
    decreases e.len(),
{
    if e.len() == 0 {
        None
    } else if e[0].0 == key {
        Some(e[0].1)
    } else {
        find_entry(e.drop_first(), key)
    }
}

/// The member `key` of an object; `None` for any other kind of value.
pub open spec fn field(t: JsonTree, key: Seq<char>) -> Option<JsonTree> {
    match t {
        JsonTree::Object(e) => find_entry(e, key),
        _ => None,
    }
}

/// `field` along an optional value.
pub open spec fn get(t: Option<JsonTree>, key: Seq<char>) -> Option<JsonTree> {
    match t {
        Some(x) => field(x, key),
        None => None,
    }
}

pub open spec fn str_of(t: Option<JsonTree>) -> Option<Seq<char>> {
    match t {
        Some(JsonTree::Str(s)) => Some(s),
        _ => None,
    }
}

pub open spec fn array_of(t: Option<JsonTree>) -> Option<Seq<JsonTree>> {
    match t {
        Some(JsonTree::Array(a)) => Some(a),
        _ => None,
    }
}

pub open spec fn entries_of(t: Option<JsonTree>) -> Option<Seq<(Seq<char>, JsonTree)>> {
    match t {
        Some(JsonTree::Object(e)) => Some(e),
        _ => None,
    }
}

/// The first element of an array.
pub open spec fn first_of(t: Option<JsonTree>) -> Option<JsonTree> {
    match array_of(t) {
        Some(a) if a.len() > 0 => Some(a[0]),
        _ => None,
    }
}

/// The tree behind an optional reference.
pub open spec fn seen(r: Option<&Json>) -> Option<JsonTree> {
    match r {
        Some(j) => Some(j@),
        None => None,
    }
}

/// The entries of a JSON object, keys and values as the tree holds them.
pub open spec fn entries_view(e: Seq<(String, Json)>) -> Seq<(Seq<char>, JsonTree)> {
    Seq::new(e.len(), |i: int| (e[i].0@, e[i].1@))
}

pub open spec fn items_view(a: Seq<Json>) -> Seq<JsonTree> {
    Seq::new(a.len(), |i: int| a[i]@)
}

impl Json {
    /// The member `key` of this value, if it is an object that has one.
    pub fn get(&self, key: &str) -> (r: Option<&Json>)
        ensures
            seen(r) == field(self@, key@),
    {
        match self {
            Json::Object(entries) => {
                proof {
                    assert(self@->Object_0 =~= entries_view(entries@));
                    assert(entries_view(entries@).subrange(0, entries@.len() as int)
                        =~= entries_view(entries@));
                }
                let k = String::from_str(key);
                let mut i: usize = 0;
                while i < entries.len()
                    invariant
                        i <= entries@.len(),
                        k@ == key@,
                        field(self@, key@) == find_entry(
                            entries_view(entries@).subrange(i as int, entries@.len() as int),
                            key@,
                        ),
                    decreases entries@.len() - i,
                {
                    let ghost rest = entries_view(entries@).subrange(i as int, entries@.len() as int);
                    if entries[i].0 == k {
                        return Some(&entries[i].1);
                    }
                    proof {
                        assert(rest.drop_first() =~= entries_view(entries@).subrange(
                            i + 1,
                            entries@.len() as int,
                        ));
                    }
                    i = i + 1;
                }
                None
            },
            _ => None,
        }
    }

    /// The text of this value, if it is a string.
    pub fn as_str(&self) -> (r: Option<&String>)
        ensures
            match r {
                Some(s) => str_of(Some(self@)) == Some(s@),
                None => str_of(Some(self@)) is None,
            },
    {
        match self {
            Json::Str(s) => Some(s),
            _ => None,
        }
    }

    /// The elements of this value, if it is an array.
    pub fn as_array(&self) -> (r: Option<&Vec<Json>>)
        ensures
            match r {
                Some(a) => array_of(Some(self@)) == Some(items_view(a@)),
                None => array_of(Some(self@)) is None,
            },
    {
        match self {
            Json::Array(a) => {
                proof {
                    assert(self@->Array_0 =~= items_view(a@));
                }
                Some(a)
            },
            _ => None,
        }
    }

    /// The entries of this value, if it is an object.
    pub fn as_object(&self) -> (r: Option<&Vec<(String, Json)>>)
        ensures
            match r {
                Some(e) => entries_of(Some(self@)) == Some(entries_view(e@)),
                None => entries_of(Some(self@)) is None,
            },
    {
        match self {
            Json::Object(e) => {
                proof {
                    assert(self@->Object_0 =~= entries_view(e@));
                }
                Some(e)
            },
            _ => None,
        }
    }
}

/// The member `key` of an optional value.
pub fn at<'a>(j: Option<&'a Json>, key: &str) -> (r: Option<&'a Json>)
    ensures
        seen(r) == get(seen(j), key@),
{
    match j {
        Some(x) => x.get(key),
        None => None,
    }
}

/// The first element of an optional value, if it is a non-empty array.
pub fn first<'a>(j: Option<&'a Json>) -> (r: Option<&'a Json>)
    ensures
        seen(r) == first_of(seen(j)),
{
    match j {
        Some(x) => match x.as_array() {
            Some(a) => {
                if a.len() > 0 {
                    Some(&a[0])
                } else {
                    None
                }
            },
            None => None,
        },
        None => None,
    }
}

/// The text of an optional value, if it is a string.
pub fn text<'a>(j: Option<&'a Json>) -> (r: Option<&'a String>)
    ensures
        match r {
            Some(s) => str_of(seen(j)) == Some(s@),
            None => str_of(seen(j)) is None,
        },
{
    match j {
        Some(x) => x.as_str(),
        None => None,
    }
}

} // verus!
