use vstd::prelude::*;
use crate::error::Error;
use crate::items::{Collection, IterItem};
use crate::json::{Json, JsonTree, parse, decoded, field, array_of, items_view, entries_view};
use crate::page::{Page, collection_base, collection_query_of, lemma_collection_query};
use crate::response::{keep, pages_of, cont_of, cont_params, pages, parse_cont, opt_params};
use crate::wiki::{Params, ParamsView, params_view};

verus! {

/// Where a paginated listing stands.
#[derive(Debug, Clone, Copy, PartialEq, Eq, Structural)]
pub enum IterState {
    /// Nothing requested yet.
    Fresh,
    /// A page has been asked for and its response is awaited.
    Fetching,
    /// Items of the last page are at hand, or a continuation is.
    Ready,
    /// The listing has ended; it stays ended.
    Exhausted,
}

/// What a pull on a listing gives.
#[derive(Debug)]
pub enum Pull<B> {
    /// The next item.
    Item(B),
    /// The listing needs the response to this request before it can go on;
    /// hand it to `receive`.
    Fetch(Params),
    /// The listing has ended.
    End,
}

/// The key under the first page that holds the elements of `c`; images
/// are not read from it, as they come as pages of their own.
pub open spec fn list_key(c: Collection) -> Seq<char> {
    match c {
        Collection::Images => "images"@,
        Collection::References => "extlinks"@,
        Collection::Links => "links"@,
        Collection::Categories => "categories"@,
        Collection::LangLinks => "langlinks"@,
    }
}

/// The values of a page map, in order.
pub open spec fn page_values(e: Seq<(Seq<char>, JsonTree)>) -> Seq<JsonTree> {
    Seq::new(e.len(), |i: int| e[i].1)
}

/// The raw elements and the continuation that one response of collection
/// `c` carries; `None` where the response lacks its page map or carries an
/// unsendable continuation. Images are the pages themselves; the other
/// collections are a list under the first page; where there is no page or
/// no list, the response has no items. Only a missing continuation ends a
/// listing.
pub open spec fn page_items(c: Collection, t: JsonTree) -> Option<(Seq<JsonTree>, Option<ParamsView>)> {
    match (pages_of(t), cont_of(t)) {
        (Some(e), Ok(cont)) => if c == Collection::Images {
            Some((page_values(e), cont))
        } else if e.len() == 0 {
            Some((Seq::empty(), cont))
        } else {
            match array_of(field(e[0].1, list_key(c))) {
                Some(a) => Some((a, cont)),
                None => Some((Seq::empty(), cont)),
            }
        },
        _ => None,
    }
}

pub open spec fn decoder<B: IterItem>() -> spec_fn(JsonTree) -> Option<B::V> {
    |t: JsonTree| B::decode(t)
}

pub open spec fn views<B: View>(s: Seq<B>) -> Seq<B::V> {
    Seq::new(s.len(), |i: int| s[i]@)
}

/// Decodes the elements of `items`, dropping those that do not decode.
fn decode_items<B: IterItem>(items: &Vec<Json>) -> (r: Vec<B>)
    ensures
        views(r@) == keep(items_view(items@), decoder::<B>()),
{
    let mut r: Vec<B> = Vec::new();
    let mut i: usize = 0;
    while i < items.len()
        invariant
            i <= items@.len(),
            views(r@) == keep(items_view(items@).take(i as int), decoder::<B>()),
        decreases items@.len() - i,
    {
        let ghost before = views(r@);
        let ghost s = items_view(items@).take(i as int + 1);
        proof {
            assert(s.drop_last() =~= items_view(items@).take(i as int));
            assert(s.last() == items@[i as int]@);
        }
        match B::from_value(&items[i]) {
            Some(x) => {
                r.push(x);
                proof {
                    assert(views(r@) =~= before.push(r@.last()@));
                }
            },
            None => {},
        }
        i = i + 1;
    }
    proof {
        assert(items_view(items@).take(items@.len() as int) =~= items_view(items@));
    }
    r
}

/// Decodes the values of a page map, dropping those that do not decode.
fn decode_values<B: IterItem>(entries: &Vec<(String, Json)>) -> (r: Vec<B>)
    ensures
        views(r@) == keep(page_values(entries_view(entries@)), decoder::<B>()),
{
    let ghost all = page_values(entries_view(entries@));
    let mut r: Vec<B> = Vec::new();
    let mut i: usize = 0;
    while i < entries.len()
        invariant
            i <= entries@.len(),
            all == page_values(entries_view(entries@)),
            views(r@) == keep(all.take(i as int), decoder::<B>()),
        decreases entries@.len() - i,
    {
        let ghost before = views(r@);
        let ghost s = all.take(i as int + 1);
        proof {
            assert(s.drop_last() =~= all.take(i as int));
            assert(s.last() == entries@[i as int].1@);
        }
        match B::from_value(&entries[i].1) {
            Some(x) => {
                r.push(x);
                proof {
                    assert(views(r@) =~= before.push(r@.last()@));
                }
            },
            None => {},
        }
        i = i + 1;
    }
    proof {
        assert(all.take(entries@.len() as int) =~= all);
    }
    r
}

/// The decoded items and the continuation of one response of collection
/// `B::kind()`, or why the response cannot be read.
pub fn read_page<B: IterItem>(response: &str) -> (r: Result<(Vec<B>, Option<Params>), Error>)
    ensures
        match decoded(response@) {
            None => r matches Err(Error::JSONError),
            Some(t) => match page_items(B::kind(), t) {
                None => r matches Err(Error::JSONPathError),
                Some((items, cont)) => r matches Ok((v, c)) && views(v@) == keep(
                    items,
                    decoder::<B>(),
                ) && opt_params(c) == cont,
            },
        },
{
    let j = match parse(response) {
        Some(j) => j,
        None => return Err(Error::JSONError),
    };
    let entries = match pages(&j) {
        Some(e) => e,
        None => return Err(Error::JSONPathError),
    };
    let cont = match parse_cont(&j) {
        Ok(c) => c,
        Err(e) => return Err(e),
    };
    let c = B::collection();
    match c {
        Collection::Images => Ok((decode_values(entries), cont)),
        _ => {
            if entries.len() == 0 {
                return Ok((Vec::new(), cont));
            }
            let key = match c {
                Collection::References => "extlinks",
                Collection::Links => "links",
                Collection::Categories => "categories",
                _ => "langlinks",
            };
            match entries[0].1.get(key) {
                Some(l) => match l.as_array() {
                    Some(a) => Ok((decode_items(a), cont)),
                    None => Ok((Vec::new(), cont)),
                },
                None => Ok((Vec::new(), cont)),
            }
        },
    }
}

/// What a listing holds, as far as its behaviour depends on it.
pub struct IterModel<V> {
    pub state: IterState,
    /// Items at hand, in the order they will be handed out.
    pub pending: Seq<V>,
    /// The continuation the last response carried.
    pub cont: Option<ParamsView>,
    /// Whether the listing ended on a failure.
    pub failed: bool,
}

/// What a pull gives, as a value.
pub enum PullModel<V> {
    Item(V),
    Fetch(ParamsView),
    End,
}

/// The request for the next page: the parameters `base` of the listing,
/// then the continuation, or `continue=` where there is none yet.
pub open spec fn request_for(base: ParamsView, cont: Option<ParamsView>) -> ParamsView {
    base + match cont {
        Some(p) => p,
        None => seq![("continue"@, ""@)],
    }
}

/// One pull on a listing whose requests start with `base`.
pub open spec fn pull_step<V>(m: IterModel<V>, base: ParamsView) -> (PullModel<V>, IterModel<V>) {
    match m.state {
        IterState::Fresh | IterState::Fetching => (
            PullModel::Fetch(request_for(base, m.cont)),
            IterModel { state: IterState::Fetching, ..m },
        ),
        IterState::Exhausted => (PullModel::End, m),
        IterState::Ready => if m.pending.len() > 0 {
            (PullModel::Item(m.pending[0]), IterModel { pending: m.pending.drop_first(), ..m })
        } else if m.cont is Some {
            (
                PullModel::Fetch(request_for(base, m.cont)),
                IterModel { state: IterState::Fetching, ..m },
            )
        } else {
            (PullModel::End, IterModel { state: IterState::Exhausted, ..m })
        },
    }
}

/// The listing after `n` pulls.
pub open spec fn pulled<V>(m: IterModel<V>, base: ParamsView, n: nat) -> IterModel<V>
    decreases n,
{
    if n == 0 {
        m
    } else {
        pull_step(pulled(m, base, (n - 1) as nat), base).1
    }
}

/// A response taken in: `page` is its decoded items and continuation, or
/// `None` where it could not be read. Only a listing that awaits one takes it.
pub open spec fn receive_step<V>(
    m: IterModel<V>,
    page: Option<(Seq<V>, Option<ParamsView>)>,
) -> IterModel<V> {
    if m.state != IterState::Fetching {
        m
    } else {
        match page {
            None => IterModel {
                state: IterState::Exhausted,
                pending: Seq::empty(),
                cont: None,
                failed: true,
            },
            Some((items, cont)) => IterModel { state: IterState::Ready, pending: items, cont, failed: m.failed },
        }
    }
}

pub open spec fn pull_view<B: View>(p: Pull<B>) -> PullModel<B::V> {
    match p {
        Pull::Item(x) => PullModel::Item(x@),
        Pull::Fetch(q) => PullModel::Fetch(params_view(q)),
        Pull::End => PullModel::End,
    }
}

/// The decoded page a response to a listing of `B` gives, if it can be read.
pub open spec fn response_page<B: IterItem>(response: Result<String, Error>) -> Option<
    (Seq<B::V>, Option<ParamsView>),
> {
    match response {
        Err(_) => None,
        Ok(text) => match decoded(text@) {
            None => None,
            Some(t) => match page_items(B::kind(), t) {
                None => None,
                Some((items, cont)) => Some((keep(items, decoder::<B>()), cont)),
            },
        },
    }
}

/// Pulls compose: `a + b` pulls are `a` pulls and then `b` more.
pub proof fn lemma_pulled_add<V>(m: IterModel<V>, base: ParamsView, a: nat, b: nat)
    ensures
        pulled(m, base, a + b) == pulled(pulled(m, base, a), base, b),
    decreases b,
{
    if b > 0 {
        lemma_pulled_add(m, base, a, (b - 1) as nat);
        assert((a + b - 1) as nat == a + (b - 1) as nat);
    }
}

/// An ended listing stays ended: every pull gives the end and changes
/// nothing, and a response is ignored.
pub proof fn ended_listing_stays_ended<V>(
    m: IterModel<V>,
    base: ParamsView,
    page: Option<(Seq<V>, Option<ParamsView>)>,
    n: nat,
)
    requires
        m.state == IterState::Exhausted,
    ensures
        pull_step(m, base) == (PullModel::<V>::End, m),
        receive_step(m, page) == m,
        pulled(m, base, n) == m,
    decreases n,
{
    if n > 0 {
        ended_listing_stays_ended(m, base, page, (n - 1) as nat);
    }
}

/// The items at hand are handed out one per pull, each once and in order,
/// with no request in between.
pub proof fn items_come_once_in_order<V>(m: IterModel<V>, base: ParamsView, k: nat)
    requires
        m.state == IterState::Ready,
        k <= m.pending.len(),
    ensures
        pulled(m, base, k) == (IterModel {
            pending: m.pending.subrange(k as int, m.pending.len() as int),
            ..m
        }),
        k < m.pending.len() ==> pull_step(pulled(m, base, k), base).0 == PullModel::Item(
            m.pending[k as int],
        ),
    decreases k,
{
    if k > 0 {
        items_come_once_in_order(m, base, (k - 1) as nat);
        let prev = pulled(m, base, (k - 1) as nat);
        assert(prev.pending.drop_first() =~= m.pending.subrange(k as int, m.pending.len() as int));
    } else {
        assert(m.pending.subrange(0, m.pending.len() as int) =~= m.pending);
    }
}

/// Once the items of a page are handed out, the next request sends back
/// exactly the continuation that page carried, in the place where the
/// first request sent `continue=`.
pub proof fn continuation_is_sent_back<V>(
    m: IterModel<V>,
    base: ParamsView,
    items: Seq<V>,
    cont: ParamsView,
)
    requires
        m.state == IterState::Fetching,
    ensures
        ({
            let after = receive_step(m, Some((items, Some(cont))));
            pull_step(pulled(after, base, items.len()), base).0 == PullModel::<V>::Fetch(base + cont)
        }),
        request_for(base, None) == base + seq![("continue"@, ""@)],
{
    let after = receive_step(m, Some((items, Some(cont))));
    items_come_once_in_order(after, base, items.len());
    assert(items.subrange(items.len() as int, items.len() as int) =~= Seq::<V>::empty());
}

/// After a page without a continuation, the listing ends once its items
/// are handed out, without any further request, and stays ended.
pub proof fn listing_ends_without_continuation<V>(
    m: IterModel<V>,
    base: ParamsView,
    items: Seq<V>,
    n: nat,
)
    requires
        m.state == IterState::Fetching,
        n > items.len(),
    ensures
        ({
            let after = receive_step(m, Some((items, None)));
            &&& pull_step(pulled(after, base, items.len()), base).0 == PullModel::<V>::End
            &&& pulled(after, base, n).state == IterState::Exhausted
            &&& pull_step(pulled(after, base, n), base).0 == PullModel::<V>::End
        }),
{
    let after = receive_step(m, Some((items, None)));
    let len = items.len();
    items_come_once_in_order(after, base, len);
    assert(items.subrange(len as int, len as int) =~= Seq::<V>::empty());
    let ended = pulled(after, base, len + 1);
    assert(ended.state == IterState::Exhausted);
    lemma_pulled_add(after, base, len + 1, (n - len - 1) as nat);
    assert(len + 1 + (n - len - 1) as nat == n);
    ended_listing_stays_ended(ended, base, None, (n - len - 1) as nat);
}

/// Items are at hand only while the listing is ready to hand them out.
pub open spec fn holds_items_only_when_ready<V>(m: IterModel<V>) -> bool {
    m.state != IterState::Ready ==> m.pending.len() == 0
}

/// Pages are fetched on demand: a pull asks for a page only when no item
/// is at hand, and pulls and responses keep items at hand only while the
/// listing is ready. A new listing starts that way.
pub proof fn pages_are_fetched_on_demand<V>(
    m: IterModel<V>,
    base: ParamsView,
    page: Option<(Seq<V>, Option<ParamsView>)>,
)
    requires
        holds_items_only_when_ready(m),
    ensures
        pull_step(m, base).0 is Fetch ==> m.pending.len() == 0,
        holds_items_only_when_ready(pull_step(m, base).1),
        holds_items_only_when_ready(receive_step(m, page)),
        holds_items_only_when_ready(
            IterModel::<V> { state: IterState::Fresh, pending: Seq::empty(), cont: None, failed: false },
        ),
{
}

/// A continuation object whose values are all strings is sent back as it
/// stands: each key with its string, in order.
pub proof fn string_continuation_is_verbatim(e: Seq<(Seq<char>, JsonTree)>)
    requires
        forall|i: int| 0 <= i < e.len() ==> (#[trigger] e[i]).1 is Str,
    ensures
        cont_params(e) == Some(Seq::new(e.len(), |i: int| (e[i].0, e[i].1->Str_0))),
    decreases e.len(),
{
    if e.len() > 0 {
        let rest = e.drop_last();
        assert forall|i: int| 0 <= i < rest.len() implies (#[trigger] rest[i]).1 is Str by {
            assert(rest[i] == e[i]);
        }
        string_continuation_is_verbatim(rest);
        assert(e.last() == e[e.len() - 1]);
        assert(Seq::new(rest.len(), |i: int| (rest[i].0, rest[i].1->Str_0)).push(
            (e.last().0, e.last().1->Str_0),
        ) =~= Seq::new(e.len(), |i: int| (e[i].0, e[i].1->Str_0)));
    }
}

/// A lazy listing of one collection of a page, fetched page by page.
///
/// The listing asks for one page at a time and only once every item of the
/// page before has been handed out. It ends when a response carries no
/// continuation and its items are all handed out; it never yields an item
/// twice, and once ended it stays ended.
pub struct Iter<'a, B> {
    page: &'a Page<'a>,
    /// Items of the last page not yet handed out, in order.
    buffer: Vec<B>,
    /// The continuation the last response carried.
    cont: Option<Params>,
    state: IterState,
    /// Why the listing ended early, if it did.
    failure: Option<Error>,
}

impl<'a, B: IterItem> Iter<'a, B> {
    pub closed spec fn page(&self) -> &'a Page<'a> {
        self.page
    }

    pub closed spec fn model(&self) -> IterModel<B::V> {
        IterModel {
            state: self.state,
            pending: views(self.buffer@),
            cont: opt_params(self.cont),
            failed: self.failure is Some,
        }
    }

    pub closed spec fn failure(&self) -> Option<Error> {
        self.failure
    }

    /// The parameters every request of this listing starts with.
    pub open spec fn base(&self) -> ParamsView {
        collection_base(B::kind(), *self.page().wikipedia, self.page().identifier)
    }

    /// A listing of the collection `B` of `page`; nothing is requested yet.
    pub fn new(page: &'a Page<'a>) -> (it: Iter<'a, B>)
        ensures
            it.page() == page,
            it.model() == (IterModel::<B::V> {
                state: IterState::Fresh,
                pending: Seq::empty(),
                cont: None,
                failed: false,
            }),
            it.failure() is None,
    {
        let it = Iter { page, buffer: Vec::new(), cont: None, state: IterState::Fresh, failure: None };
        proof {
            assert(views(it.buffer@) =~= Seq::<B::V>::empty());
        }
        it
    }

    /// Pulls the next item: the first item at hand; else, where a
    /// continuation is at hand or nothing was requested yet, the request for
    /// the next page; else the end.
    pub fn next(&mut self) -> (r: Pull<B>)
        ensures
            final(self).page() == old(self).page(),
            final(self).failure() == old(self).failure(),
            (pull_view(r), final(self).model()) == pull_step(old(self).model(), old(self).base()),
    {
        proof {
            lemma_collection_query(B::kind(), *self.page.wikipedia, self.page.identifier, opt_params(self.cont));
        }
        match self.state {
            IterState::Exhausted => Pull::End,
            IterState::Ready => {
                if self.buffer.len() > 0 {
                    let ghost before = views(self.buffer@);
                    let x = self.buffer.remove(0);
                    proof {
                        assert(views(self.buffer@) =~= before.drop_first());
                    }
                    Pull::Item(x)
                } else if self.cont.is_some() {
                    self.state = IterState::Fetching;
                    Pull::Fetch(
                        collection_query_of(
                            B::collection(),
                            self.page.wikipedia,
                            &self.page.identifier,
                            &self.cont,
                        ),
                    )
                } else {
                    self.state = IterState::Exhausted;
                    Pull::End
                }
            },
            _ => {
                self.state = IterState::Fetching;
                Pull::Fetch(
                    collection_query_of(
                        B::collection(),
                        self.page.wikipedia,
                        &self.page.identifier,
                        &self.cont,
                    ),
                )
            },
        }
    }

    /// Takes the response to the request `next` asked for: its items
    /// replace those at hand and its continuation the one sent. A failed
    /// transport, a text that is not JSON or a response without its page map
    /// ends the listing, and the reason is kept. Outside `Fetching` a
    /// response is ignored.
    pub fn receive(&mut self, response: Result<String, Error>)
        ensures
            final(self).page() == old(self).page(),
            final(self).model() == receive_step(old(self).model(), response_page::<B>(response)),
            old(self).state() != IterState::Fetching ==> final(self).failure() == old(self).failure(),
            old(self).state() == IterState::Fetching ==> match response {
                Err(e) => final(self).failure() == Some(e),
                Ok(text) => match decoded(text@) {
                    None => final(self).failure() matches Some(Error::JSONError),
                    Some(t) => match page_items(B::kind(), t) {
                        None => final(self).failure() matches Some(Error::JSONPathError),
                        Some(_) => final(self).failure() == old(self).failure(),
                    },
                },
            },
    {
        if self.state != IterState::Fetching {
            return;
        }
        let text = match response {
            Ok(t) => t,
            Err(e) => {
                self.fail(e);
                return;
            },
        };
        match read_page::<B>(text.as_str()) {
            Ok((items, cont)) => {
                self.buffer = items;
                self.cont = cont;
                self.state = IterState::Ready;
            },
            Err(e) => {
                self.fail(e);
            },
        }
    }

    fn fail(&mut self, e: Error)
        ensures
            final(self).page() == old(self).page(),
            final(self).model() == (IterModel::<B::V> {
                state: IterState::Exhausted,
                pending: Seq::empty(),
                cont: None,
                failed: true,
            }),
            final(self).failure() == Some(e),
    {
        self.buffer = Vec::new();
        self.cont = None;
        self.state = IterState::Exhausted;
        self.failure = Some(e);
        proof {
            assert(views(self.buffer@) =~= Seq::<B::V>::empty());
        }
    }

    pub open spec fn state(&self) -> IterState {
        self.model().state
    }

    /// Whether the listing has ended for good.
    pub fn is_exhausted(&self) -> (r: bool)
        ensures
            r == (self.state() == IterState::Exhausted),
    {
        self.state == IterState::Exhausted
    }

    /// Why the listing ended early, if it did.
    pub fn failure_reason(&self) -> (r: Option<&Error>)
        ensures
            r is Some <==> self.failure() is Some,
            r matches Some(e) ==> self.failure() == Some(*e),
    {
        match &self.failure {
            Some(e) => Some(e),
            None => None,
        }
    }
}

} // verus!
