use vstd::prelude::*;
use crate::error::Error;
use crate::json::{
    Json, JsonTree, parse, decoded, at, first, text, field, get, str_of, array_of, entries_of,
    first_of, seen, items_view, entries_view,
};
use crate::wiki::{Params, ParamsView, params_view};

verus! {

/// The results of `f` on the elements of `s` where it gives one, in order.
pub open spec fn keep<A>(s: Seq<JsonTree>, f: spec_fn(JsonTree) -> Option<A>) -> Seq<A>
    decreases s.len(),
{
    if s.len() == 0 {
        Seq::empty()
    } else {
        let rest = keep(s.drop_last(), f);
        match f(s.last()) {
            Some(a) => rest.push(a),
            None => rest,
        }
    }
}

/// The text under `key` of an object element.
pub open spec fn text_at(key: Seq<char>) -> spec_fn(JsonTree) -> Option<Seq<char>> {
    |x: JsonTree| str_of(field(x, key))
}

/// A language entry: its code and its name, both texts.
pub open spec fn language_of() -> spec_fn(JsonTree) -> Option<(Seq<char>, Seq<char>)> {
    |x: JsonTree|
        match (str_of(field(x, "code"@)), str_of(field(x, "*"@))) {
            (Some(c), Some(n)) => Some((c, n)),
            _ => None,
        }
}

pub open spec fn query_part(t: JsonTree, name: Seq<char>) -> Option<JsonTree> {
    get(field(t, "query"@), name)
}

/// The target of the first redirect a response declares.
pub open spec fn redirect_of(t: JsonTree) -> Option<Seq<char>> {
    str_of(get(first_of(query_part(t, "redirects"@)), "to"@))
}

/// The entries of the response's page map.
pub open spec fn pages_of(t: JsonTree) -> Option<Seq<(Seq<char>, JsonTree)>> {
    entries_of(query_part(t, "pages"@))
}

/// The first page of the response's page map.
pub open spec fn first_page_of(t: JsonTree) -> Option<JsonTree> {
    match pages_of(t) {
        Some(e) if e.len() > 0 => Some(e[0].1),
        _ => None,
    }
}

/// The text a continuation value is sent as.
pub open spec fn scalar_text(t: JsonTree) -> Option<Seq<char>> {
    match t {
        JsonTree::Null => Some(Seq::empty()),
        JsonTree::Bool(b) => Some(if b { "1"@ } else { "0"@ }),
        JsonTree::Number(n) => Some(n),
        JsonTree::Str(s) => Some(s),
        _ => None,
    }
}

/// The parameters of a continuation object, or `None` where one of its
/// values is an array or an object.
pub open spec fn cont_params(e: Seq<(Seq<char>, JsonTree)>) -> Option<ParamsView>
    decreases e.len(),
{
    if e.len() == 0 {
        Some(Seq::empty())
    } else {
        match (cont_params(e.drop_last()), scalar_text(e.last().1)) {
            (Some(p), Some(v)) => Some(p.push((e.last().0, v))),
            _ => None,
        }
    }
}

/// The continuation a response carries: `Ok(None)` where it has no
/// `continue` object, `Err` where that object holds a value that cannot be
/// sent back.
pub open spec fn cont_of(t: JsonTree) -> Result<Option<ParamsView>, ()> {
    match entries_of(field(t, "continue"@)) {
        None => Ok(None),
        Some(e) => match cont_params(e) {
            Some(p) => Ok(Some(p)),
            None => Err(()),
        },
    }
}

pub open spec fn opt_text(r: Option<String>) -> Option<Seq<char>> {
    match r {
        Some(s) => Some(s@),
        None => None,
    }
}

pub open spec fn opt_params(r: Option<Params>) -> Option<ParamsView> {
    match r {
        Some(p) => Some(params_view(p)),
        None => None,
    }
}

/// The texts under `key` of the object elements of `items` that have one.
pub fn texts_at(items: &Vec<Json>, key: &str) -> (r: Vec<String>)
    ensures
        r.deep_view() == keep(items_view(items@), text_at(key@)),
{
    let mut r: Vec<String> = Vec::new();
    let mut i: usize = 0;
    while i < items.len()
        invariant
            i <= items@.len(),
            r.deep_view() == keep(items_view(items@).take(i as int), text_at(key@)),
        decreases items@.len() - i,
    {
        let ghost before = r.deep_view();
        let ghost s = items_view(items@).take(i as int + 1);
        proof {
            assert(s.drop_last() =~= items_view(items@).take(i as int));
            assert(s.last() == items@[i as int]@);
        }
        match text(items[i].get(key)) {
            Some(t) => {
                r.push(t.clone());
                proof {
                    assert(r.deep_view() =~= before.push(t@));
                }
            },
            None => {},
        }
        i = i + 1;
    }
    proof {
        assert(items_view(items@).take(items@.len() as int) =~= items_view(items@));
    }
    r
}

/// The titles in the list `query.<list>` of a search-like response.
pub fn read_titles(response: &str, list: &str) -> (r: Result<Vec<String>, Error>)
    ensures
        match decoded(response@) {
            None => r matches Err(Error::JSONError),
            Some(t) => match array_of(query_part(t, list@)) {
                None => r matches Err(Error::JSONPathError),
                Some(a) => r matches Ok(v) && v.deep_view() == keep(a, text_at("title"@)),
            },
        },
{
    let j = match parse(response) {
        Some(j) => j,
        None => return Err(Error::JSONError),
    };
    match at(at(Some(&j), "query"), list) {
        Some(l) => match l.as_array() {
            Some(a) => Ok(texts_at(a, "title")),
            None => Err(Error::JSONPathError),
        },
        None => Err(Error::JSONPathError),
    }
}

/// The section headings of a `parse` response.
pub fn read_sections(response: &str) -> (r: Result<Vec<String>, Error>)
    ensures
        match decoded(response@) {
            None => r matches Err(Error::JSONError),
            Some(t) => match array_of(get(field(t, "parse"@), "sections"@)) {
                None => r matches Err(Error::JSONPathError),
                Some(a) => r matches Ok(v) && v.deep_view() == keep(a, text_at("line"@)),
            },
        },
{
    let j = match parse(response) {
        Some(j) => j,
        None => return Err(Error::JSONError),
    };
    match at(at(Some(&j), "parse"), "sections") {
        Some(l) => match l.as_array() {
            Some(a) => Ok(texts_at(a, "line")),
            None => Err(Error::JSONPathError),
        },
        None => Err(Error::JSONPathError),
    }
}

/// The languages a site-info response lists, as (code, name).
pub fn read_languages(response: &str) -> (r: Result<Vec<(String, String)>, Error>)
    ensures
        match decoded(response@) {
            None => r matches Err(Error::JSONError),
            Some(t) => match array_of(query_part(t, "languages"@)) {
                None => r matches Err(Error::JSONPathError),
                Some(a) => r matches Ok(v) && v.deep_view() == keep(a, language_of()),
            },
        },
{
    let j = match parse(response) {
        Some(j) => j,
        None => return Err(Error::JSONError),
    };
    let items = match at(at(Some(&j), "query"), "languages") {
        Some(l) => match l.as_array() {
            Some(a) => a,
            None => return Err(Error::JSONPathError),
        },
        None => return Err(Error::JSONPathError),
    };
    let mut r: Vec<(String, String)> = Vec::new();
    let mut i: usize = 0;
    while i < items.len()
        invariant
            i <= items@.len(),
            r.deep_view() == keep(items_view(items@).take(i as int), language_of()),
        decreases items@.len() - i,
    {
        let ghost before = r.deep_view();
        let ghost s = items_view(items@).take(i as int + 1);
        proof {
            assert(s.drop_last() =~= items_view(items@).take(i as int));
            assert(s.last() == items@[i as int]@);
        }
        match (text(items[i].get("code")), text(items[i].get("*"))) {
            (Some(c), Some(n)) => {
                r.push((c.clone(), n.clone()));
                proof {
                    assert(r.deep_view() =~= before.push((c@, n@)));
                }
            },
            _ => {},
        }
        i = i + 1;
    }
    proof {
        assert(items_view(items@).take(items@.len() as int) =~= items_view(items@));
    }
    Ok(r)
}

/// The target of the first redirect the response declares, if any.
pub fn redirect(j: &Json) -> (r: Option<String>)
    ensures
        opt_text(r) == redirect_of(j@),
{
    match text(at(first(at(at(Some(j), "query"), "redirects")), "to")) {
        Some(s) => Some(s.clone()),
        None => None,
    }
}

/// The entries of the response's page map.
pub fn pages(j: &Json) -> (r: Option<&Vec<(String, Json)>>)
    ensures
        match r {
            Some(e) => pages_of(j@) == Some(entries_view(e@)),
            None => pages_of(j@) is None,
        },
{
    match at(at(Some(j), "query"), "pages") {
        Some(p) => p.as_object(),
        None => None,
    }
}

/// The first page of the response's page map.
pub fn first_page(j: &Json) -> (r: Option<&Json>)
    ensures
        seen(r) == first_page_of(j@),
{
    match pages(j) {
        Some(e) => {
            if e.len() > 0 {
                Some(&e[0].1)
            } else {
                None
            }
        },
        None => None,
    }
}

/// The text a continuation value is sent as.
pub fn scalar(v: &Json) -> (r: Option<String>)
    ensures
        opt_text(r) == scalar_text(v@),
{
    match v {
        Json::Null => Some(String::new()),
        Json::Bool(b) => Some(String::from_str(if *b { "1" } else { "0" })),
        Json::Number(n) => Some(n.clone()),
        Json::Str(s) => Some(s.clone()),
        _ => None,
    }
}

/// The continuation parameters a response carries, to be sent back with
/// the next request; `None` where it has no `continue` object.
pub fn parse_cont(j: &Json) -> (r: Result<Option<Params>, Error>)
    ensures
        match cont_of(j@) {
            Ok(c) => r matches Ok(p) && opt_params(p) == c,
            Err(_) => r matches Err(Error::JSONPathError),
        },
{
    let entries = match j.get("continue") {
        Some(c) => match c.as_object() {
            Some(e) => e,
            None => return Ok(None),
        },
        None => return Ok(None),
    };
    let ghost all = entries_view(entries@);
    let mut out: Params = Vec::new();
    let mut i: usize = 0;
    while i < entries.len()
        invariant
            i <= entries@.len(),
            all == entries_view(entries@),
            entries_of(field(j@, "continue"@)) == Some(all),
            cont_params(all.take(i as int)) == Some(params_view(out)),
        decreases entries@.len() - i,
    {
        let ghost s = all.take(i as int + 1);
        proof {
            assert(s.drop_last() =~= all.take(i as int));
        }
        match scalar(&entries[i].1) {
            Some(v) => {
                let ghost before = params_view(out);
                out.push((entries[i].0.clone(), v));
                proof {
                    assert(params_view(out) =~= before.push((entries@[i as int].0@, v@)));
                }
            },
            None => {
                proof {
                    assert(s.last() == all[i as int]);
                    assert(cont_params(s) is None);
                    lemma_cont_params_prefix(all, i as int + 1);
                }
                return Err(Error::JSONPathError);
            },
        }
        i = i + 1;
    }
    proof {
        assert(all.take(entries@.len() as int) =~= all);
    }
    Ok(Some(out))
}

/// A continuation object with an unsendable value among its first `k`
/// entries has no parameters.
proof fn lemma_cont_params_prefix(e: Seq<(Seq<char>, JsonTree)>, k: int)
    requires
        0 <= k <= e.len(),
        cont_params(e.take(k)) is None,
    ensures
        cont_params(e) is None,
    decreases e.len() - k,
{
    if k < e.len() {
        assert(e.take(k + 1).drop_last() =~= e.take(k));
        lemma_cont_params_prefix(e, k + 1);
    } else {
        assert(e.take(k) =~= e);
    }
}

} // verus!
