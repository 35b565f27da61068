use vstd::prelude::*;
use crate::error::Error;
use crate::json::{Json, JsonTree, parse, decoded, at, first, text, get, str_of, entries_of, first_of, seen};
use crate::page::{Page, PageField, TitlePageId, field_query, field_query_of};
use crate::response::{pages_of, first_page_of, redirect_of, redirect, pages, first_page};
use crate::wiki::{Params, Wikipedia, params_view};

verus! {

/// How many redirects a lookup follows before it gives up.
pub const MAX_REDIRECTS: u32 = 10;

/// What a single-page lookup finds.
#[derive(Debug, PartialEq, Eq)]
pub enum Answer {
    /// A page id, a title, or the page's text.
    Text(String),
    /// The page's first coordinates as the decimal texts of latitude and
    /// longitude, if it has any.
    Coordinates(Option<(String, String)>),
}

pub enum AnswerView {
    Text(Seq<char>),
    Coordinates(Option<(Seq<char>, Seq<char>)>),
}

pub open spec fn answer_view(a: Answer) -> AnswerView {
    match a {
        Answer::Text(s) => AnswerView::Text(s@),
        Answer::Coordinates(None) => AnswerView::Coordinates(None),
        Answer::Coordinates(Some((a, b))) => AnswerView::Coordinates(Some((a@, b@))),
    }
}

/// The decimal text of a number.
pub open spec fn number_of(t: Option<JsonTree>) -> Option<Seq<char>> {
    match t {
        Some(JsonTree::Number(n)) => Some(n),
        _ => None,
    }
}

/// What a response without a redirect answers for `f`; `None` where it
/// lacks what `f` reads.
pub open spec fn field_answer(f: PageField, t: JsonTree) -> Option<AnswerView> {
    let page = first_page_of(t);
    match f {
        PageField::PageId => match pages_of(t) {
            Some(e) if e.len() > 0 => Some(AnswerView::Text(e[0].0)),
            _ => None,
        },
        PageField::Title => match str_of(get(page, "title"@)) {
            Some(s) => Some(AnswerView::Text(s)),
            None => None,
        },
        PageField::Content | PageField::Summary => match str_of(get(page, "extract"@)) {
            Some(s) => Some(AnswerView::Text(s)),
            None => None,
        },
        PageField::HtmlContent => match str_of(get(first_of(get(page, "revisions"@)), "*"@)) {
            Some(s) => Some(AnswerView::Text(s)),
            None => None,
        },
        PageField::Coordinates => {
            let c = first_of(get(page, "coordinates"@));
            match entries_of(c) {
                None => Some(AnswerView::Coordinates(None)),
                Some(_) => match (number_of(get(c, "lat"@)), number_of(get(c, "lon"@))) {
                    (Some(a), Some(b)) => Some(AnswerView::Coordinates(Some((a, b)))),
                    _ => None,
                },
            }
        },
    }
}

fn number<'a>(j: Option<&'a Json>) -> (r: Option<&'a String>)
    ensures
        match r {
            Some(s) => number_of(seen(j)) == Some(s@),
            None => number_of(seen(j)) is None,
        },
{
    match j {
        Some(Json::Number(n)) => Some(n),
        _ => None,
    }
}

/// Reads what a response without a redirect answers for `f`.
pub fn read_field(f: PageField, j: &Json) -> (r: Result<Answer, Error>)
    ensures
        match field_answer(f, j@) {
            Some(a) => r matches Ok(x) && answer_view(x) == a,
            None => r matches Err(Error::JSONPathError),
        },
{
    let page = first_page(j);
    let found = match f {
        PageField::PageId => match pages(j) {
            Some(e) => {
                if e.len() > 0 {
                    Some(&e[0].0)
                } else {
                    None
                }
            },
            None => None,
        },
        PageField::Title => text(at(page, "title")),
        PageField::Content | PageField::Summary => text(at(page, "extract")),
        PageField::HtmlContent => text(at(first(at(page, "revisions")), "*")),
        PageField::Coordinates => {
            let c = first(at(page, "coordinates"));
            match c {
                Some(Json::Object(_)) => {},
                _ => {
                    return Ok(Answer::Coordinates(None));
                },
            }
            return match (number(at(c, "lat")), number(at(c, "lon"))) {
                (Some(a), Some(b)) => Ok(Answer::Coordinates(Some((a.clone(), b.clone())))),
                _ => Err(Error::JSONPathError),
            };
        },
    };
    match found {
        Some(s) => Ok(Answer::Text(s.clone())),
        None => Err(Error::JSONPathError),
    }
}

/// What a lookup does after a response.
#[derive(Debug)]
pub enum Step {
    /// The lookup is over.
    Done(Result<Answer, Error>),
    /// The page redirected: send the lookup's new `request`.
    Again,
}

/// One question about one page, asked again of the target wherever the
/// server declares a redirect.
pub struct Lookup<'a> {
    pub wikipedia: &'a Wikipedia,
    pub field: PageField,
    pub identifier: TitlePageId,
    /// Redirects followed so far.
    pub redirects: u32,
}

impl<'a> Lookup<'a> {
    /// A lookup of `field` about `page`.
    pub fn new(page: &Page<'a>, field: PageField) -> (l: Lookup<'a>)
        ensures
            l.wikipedia == page.wikipedia,
            l.field == field,
            l.identifier.param() == page.identifier.param(),
            l.identifier is Title <==> page.identifier is Title,
            l.redirects == 0,
    {
        Lookup { wikipedia: page.wikipedia, field, identifier: page.identifier.copy(), redirects: 0 }
    }

    /// The answer that needs no request: the id of a page addressed by id,
    /// or the title of one addressed by title.
    pub fn known(&self) -> (r: Option<String>)
        ensures
            match (self.field, self.identifier) {
                (PageField::PageId, TitlePageId::PageId(s)) => r matches Some(x) && x@ == s@,
                (PageField::Title, TitlePageId::Title(s)) => r matches Some(x) && x@ == s@,
                _ => r is None,
            },
    {
        match (self.field, &self.identifier) {
            (PageField::PageId, TitlePageId::PageId(s)) => Some(s.clone()),
            (PageField::Title, TitlePageId::Title(s)) => Some(s.clone()),
            _ => None,
        }
    }

    /// The request to send now.
    pub fn request(&self) -> (r: Params)
        ensures
            params_view(r) == field_query(self.field, self.identifier),
    {
        field_query_of(self.field, &self.identifier)
    }

    /// Takes the response to `request`. A declared redirect restarts the
    /// lookup on the target's title (a title lookup answers with that
    /// title); past `MAX_REDIRECTS` redirects the lookup fails.
    pub fn receive(&mut self, response: Result<String, Error>) -> (r: Step)
        ensures
            final(self).wikipedia == old(self).wikipedia,
            final(self).field == old(self).field,
            !(r is Again) ==> final(self).identifier == old(self).identifier
                && final(self).redirects == old(self).redirects,
            match response {
                Err(e) => r == Step::Done(Err(e)),
                Ok(text) => match decoded(text@) {
                    None => r matches Step::Done(Err(Error::JSONError)),
                    Some(t) => match redirect_of(t) {
                        Some(target) => if old(self).field == PageField::Title {
                            r matches Step::Done(Ok(Answer::Text(s))) && s@ == target
                        } else if old(self).redirects >= MAX_REDIRECTS {
                            r matches Step::Done(Err(Error::RedirectLoop))
                        } else {
                            &&& r is Again
                            &&& final(self).identifier is Title
                            &&& final(self).identifier.param() == ("titles"@, target)
                            &&& final(self).redirects == old(self).redirects + 1
                        },
                        None => match field_answer(old(self).field, t) {
                            Some(a) => r matches Step::Done(Ok(x)) && answer_view(x) == a,
                            None => r matches Step::Done(Err(Error::JSONPathError)),
                        },
                    },
                },
            },
    {
        let text = match response {
            Ok(t) => t,
            Err(e) => return Step::Done(Err(e)),
        };
        let j = match parse(text.as_str()) {
            Some(j) => j,
            None => return Step::Done(Err(Error::JSONError)),
        };
        match redirect(&j) {
            Some(target) => {
                if self.field == PageField::Title {
                    Step::Done(Ok(Answer::Text(target)))
                } else if self.redirects >= MAX_REDIRECTS {
                    Step::Done(Err(Error::RedirectLoop))
                } else {
                    self.identifier = TitlePageId::Title(target);
                    self.redirects = self.redirects + 1;
                    Step::Again
                }
            },
            None => Step::Done(read_field(self.field, &j)),
        }
    }
}

} // verus!
