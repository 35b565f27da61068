use vstd::prelude::*;
use crate::items::Collection;
use crate::wiki::{Params, ParamsView, Wikipedia, params_view, push_param, add_query_tail, query_tail};

verus! {

/// How a page is addressed: by title or by page id.
#[derive(Debug)]
pub enum TitlePageId {
    Title(String),
    PageId(String),
}

impl TitlePageId {
    /// The parameter that carries the identifier.
    pub open spec fn param(&self) -> (Seq<char>, Seq<char>) {
        match self {
            TitlePageId::Title(s) => ("titles"@, s@),
            TitlePageId::PageId(s) => ("pageids"@, s@),
        }
    }

    pub fn query_param(&self) -> (r: (String, String))
        ensures
            (r.0@, r.1@) == self.param(),
    {
        match self {
            TitlePageId::Title(s) => (String::from_str("titles"), s.clone()),
            TitlePageId::PageId(s) => (String::from_str("pageids"), s.clone()),
        }
    }

    pub fn copy(&self) -> (r: TitlePageId)
        ensures
            r.param() == self.param(),
            r is Title <==> self is Title,
    {
        match self {
            TitlePageId::Title(s) => TitlePageId::Title(s.clone()),
            TitlePageId::PageId(s) => TitlePageId::PageId(s.clone()),
        }
    }
}

/// A page of the wiki, addressed by title or by page id.
#[derive(Debug)]
pub struct Page<'a> {
    pub wikipedia: &'a Wikipedia,
    pub identifier: TitlePageId,
}

impl<'a> PartialEq for Page<'a> {
    fn eq(&self, other: &Page<'a>) -> (r: bool) {
        match (&self.identifier, &other.identifier) {
            (TitlePageId::Title(a), TitlePageId::Title(b)) => *a == *b,
            (TitlePageId::PageId(a), TitlePageId::PageId(b)) => *a == *b,
            _ => {
                proof {
                    reveal_strlit("titles");
                    reveal_strlit("pageids");
                    assert("titles"@.len() != "pageids"@.len());
                }
                false
            },
        }
    }
}

impl<'a> vstd::std_specs::cmp::PartialEqSpecImpl for Page<'a> {
    open spec fn obeys_eq_spec() -> bool {
        true
    }

    /// Two pages are equal when they are addressed the same way.
    open spec fn eq_spec(&self, other: &Page<'a>) -> bool {
        self.identifier.param() == other.identifier.param()
    }
}

/// What one request about a single page asks for.
#[derive(Debug, Clone, Copy, PartialEq, Eq, Structural)]
pub enum PageField {
    PageId,
    Title,
    Content,
    HtmlContent,
    Summary,
    Coordinates,
}

/// The parameters particular to a single-page request.
pub open spec fn field_head(f: PageField) -> ParamsView {
    match f {
        PageField::PageId | PageField::Title => seq![
            ("prop"@, "info|pageprops"@),
            ("inprop"@, "url"@),
            ("ppprop"@, "disambiguation"@),
            ("redirects"@, ""@),
        ],
        PageField::Content => seq![
            ("prop"@, "extracts|revisions"@),
            ("explaintext"@, ""@),
            ("rvprop"@, "ids"@),
            ("redirects"@, ""@),
        ],
        PageField::HtmlContent => seq![
            ("prop"@, "revisions"@),
            ("rvprop"@, "content"@),
            ("rvlimit"@, "1"@),
            ("rvparse"@, ""@),
            ("redirects"@, ""@),
        ],
        PageField::Summary => seq![
            ("prop"@, "extracts"@),
            ("explaintext"@, ""@),
            ("exintro"@, ""@),
            ("redirects"@, ""@),
        ],
        PageField::Coordinates => seq![
            ("prop"@, "coordinates"@),
            ("colimit"@, "max"@),
            ("redirects"@, ""@),
        ],
    }
}

/// The full request for `f` about the page `id`.
pub open spec fn field_query(f: PageField, id: TitlePageId) -> ParamsView {
    field_head(f) + query_tail() + seq![id.param()]
}

/// The parameters particular to a collection request.
pub open spec fn collection_head(c: Collection, w: Wikipedia) -> ParamsView {
    match c {
        Collection::Images => seq![
            ("generator"@, "images"@),
            ("gimlimit"@, w.images_results@),
            ("prop"@, "imageinfo"@),
            ("iiprop"@, "url"@),
        ],
        Collection::References => seq![("prop"@, "extlinks"@), ("ellimit"@, w.links_results@)],
        Collection::Links => seq![
            ("prop"@, "links"@),
            ("plnamespace"@, "0"@),
            ("ellimit"@, w.links_results@),
        ],
        Collection::Categories => seq![("prop"@, "categories"@), ("cllimit"@, w.categories_results@)],
        Collection::LangLinks => seq![("prop"@, "langlinks"@), ("lllimit"@, w.links_results@)],
    }
}

/// The parameters every request of collection `c` about `id` starts with.
pub open spec fn collection_base(c: Collection, w: Wikipedia, id: TitlePageId) -> ParamsView {
    collection_head(c, w) + query_tail() + seq![id.param()]
}

/// The request for one page of collection `c`: the continuation received
/// last is sent back, and the first request sends `continue=` instead.
pub open spec fn collection_query(
    c: Collection,
    w: Wikipedia,
    id: TitlePageId,
    cont: Option<ParamsView>,
) -> ParamsView {
    collection_base(c, w, id) + match cont {
        Some(p) => p,
        None => seq![("continue"@, ""@)],
    }
}

/// A collection request is its base followed by the continuation, or by
/// `continue=` where there is none.
pub proof fn lemma_collection_query(c: Collection, w: Wikipedia, id: TitlePageId, cont: Option<ParamsView>)
    ensures
        collection_query(c, w, id, cont) == crate::iter::request_for(collection_base(c, w, id), cont),
{
}

/// The request for the section list of the page with id `pageid`.
pub open spec fn sections_query(pageid: Seq<char>) -> ParamsView {
    seq![("prop"@, "sections"@), ("format"@, "json"@), ("action"@, "parse"@), ("pageid"@, pageid)]
}

impl<'a> Page<'a> {
    /// Creates a new `Page` given a `title`.
    pub fn from_title(wikipedia: &'a Wikipedia, title: String) -> (p: Page<'a>)
        ensures
            p.wikipedia == wikipedia,
            p.identifier.param() == ("titles"@, title@),
            p.identifier is Title,
    {
        Page { wikipedia, identifier: TitlePageId::Title(title) }
    }

    /// Creates a new `Page` given a `pageid`.
    pub fn from_pageid(wikipedia: &'a Wikipedia, pageid: String) -> (p: Page<'a>)
        ensures
            p.wikipedia == wikipedia,
            p.identifier.param() == ("pageids"@, pageid@),
            p.identifier is PageId,
    {
        Page { wikipedia, identifier: TitlePageId::PageId(pageid) }
    }

    /// The request for the sections of the page whose id is `pageid`.
    pub fn sections_query(pageid: &str) -> (r: Params)
        ensures
            params_view(r) == sections_query(pageid@),
    {
        let mut r: Params = Vec::new();
        push_param(&mut r, "prop", "sections");
        push_param(&mut r, "format", "json");
        push_param(&mut r, "action", "parse");
        push_param(&mut r, "pageid", pageid);
        r
    }
}

impl Wikipedia {
    /// Creates a new `Page` given a `title`.
    pub fn page_from_title<'a>(&'a self, title: String) -> (p: Page<'a>)
        ensures
            p.wikipedia == self,
            p.identifier.param() == ("titles"@, title@),
            p.identifier is Title,
    {
        Page::from_title(self, title)
    }

    /// Creates a new `Page` given a `pageid`.
    pub fn page_from_pageid<'a>(&'a self, pageid: String) -> (p: Page<'a>)
        ensures
            p.wikipedia == self,
            p.identifier.param() == ("pageids"@, pageid@),
            p.identifier is PageId,
    {
        Page::from_pageid(self, pageid)
    }
}

/// The request for `f` about the page `id`.
pub fn field_query_of(f: PageField, id: &TitlePageId) -> (r: Params)
    ensures
        params_view(r) == field_query(f, *id),
{
    let mut r: Params = Vec::new();
    match f {
        PageField::PageId | PageField::Title => {
            push_param(&mut r, "prop", "info|pageprops");
            push_param(&mut r, "inprop", "url");
            push_param(&mut r, "ppprop", "disambiguation");
            push_param(&mut r, "redirects", "");
        },
        PageField::Content => {
            push_param(&mut r, "prop", "extracts|revisions");
            push_param(&mut r, "explaintext", "");
            push_param(&mut r, "rvprop", "ids");
            push_param(&mut r, "redirects", "");
        },
        PageField::HtmlContent => {
            push_param(&mut r, "prop", "revisions");
            push_param(&mut r, "rvprop", "content");
            push_param(&mut r, "rvlimit", "1");
            push_param(&mut r, "rvparse", "");
            push_param(&mut r, "redirects", "");
        },
        PageField::Summary => {
            push_param(&mut r, "prop", "extracts");
            push_param(&mut r, "explaintext", "");
            push_param(&mut r, "exintro", "");
            push_param(&mut r, "redirects", "");
        },
        PageField::Coordinates => {
            push_param(&mut r, "prop", "coordinates");
            push_param(&mut r, "colimit", "max");
            push_param(&mut r, "redirects", "");
        },
    }
    proof {
        assert(params_view(r) =~= field_head(f));
    }
    let ghost head = params_view(r);
    add_query_tail(&mut r);
    let (k, v) = id.query_param();
    push_param(&mut r, k.as_str(), v.as_str());
    proof {
        assert(params_view(r) =~= field_query(f, *id));
    }
    r
}

/// The request for one page of collection `c` about the page `id`.
pub fn collection_query_of(c: Collection, w: &Wikipedia, id: &TitlePageId, cont: &Option<Params>)
    -> (r: Params)
    ensures
        params_view(r) == collection_query(
            c,
            *w,
            *id,
            match cont {
                Some(p) => Some(params_view(*p)),
                None => None,
            },
        ),
{
    let mut r: Params = Vec::new();
    match c {
        Collection::Images => {
            push_param(&mut r, "generator", "images");
            push_param(&mut r, "gimlimit", w.images_results.as_str());
            push_param(&mut r, "prop", "imageinfo");
            push_param(&mut r, "iiprop", "url");
        },
        Collection::References => {
            push_param(&mut r, "prop", "extlinks");
            push_param(&mut r, "ellimit", w.links_results.as_str());
        },
        Collection::Links => {
            push_param(&mut r, "prop", "links");
            push_param(&mut r, "plnamespace", "0");
            push_param(&mut r, "ellimit", w.links_results.as_str());
        },
        Collection::Categories => {
            push_param(&mut r, "prop", "categories");
            push_param(&mut r, "cllimit", w.categories_results.as_str());
        },
        Collection::LangLinks => {
            push_param(&mut r, "prop", "langlinks");
            push_param(&mut r, "lllimit", w.links_results.as_str());
        },
    }
    proof {
        assert(params_view(r) =~= collection_head(c, *w));
    }
    add_query_tail(&mut r);
    let (k, v) = id.query_param();
    push_param(&mut r, k.as_str(), v.as_str());
    let ghost before = params_view(r);
    match cont {
        Some(p) => {
            let mut i: usize = 0;
            while i < p.len()
                invariant
                    i <= p@.len(),
                    params_view(r) == before + params_view(*p).take(i as int),
                decreases p@.len() - i,
            {
                push_param(&mut r, p[i].0.as_str(), p[i].1.as_str());
                proof {
                    assert(params_view(r) =~= before + params_view(*p).take(i as int + 1));
                }
                i = i + 1;
            }
            proof {
                assert(params_view(*p).take(p@.len() as int) =~= params_view(*p));
            }
        },
        None => {
            push_param(&mut r, "continue", "");
        },
    }
    proof {
        assert(params_view(r) =~= collection_query(
            c,
            *w,
            *id,
            match cont {
                Some(p) => Some(params_view(*p)),
                None => None,
            },
        ));
    }
    r
}

} // verus!
