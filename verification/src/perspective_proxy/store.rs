//! The link store as the facade sees it: the requests it takes, and a model
//! of what serving them does to the links of a perspective.

use crate::text::{clone_opt, opt_view, views};
use crate::types::{spec_normalize, LinkExpression, LinkExpressionView, LinkView};
use vstd::prelude::*;
use vstd::string::*;

verus! {

/// Which links a query asks for. A part that is absent restricts nothing.
#[derive(Debug, PartialEq, Eq)]
pub struct LinkQuery {
    pub source: Option<String>,
    pub target: Option<String>,
    pub predicate: Option<String>,
    pub from_date: Option<String>,
    pub until_date: Option<String>,
    pub limit: Option<u64>,
}

/// The mathematical value of a [`LinkQuery`].
pub struct LinkQueryView {
    pub source: Option<Seq<char>>,
    pub target: Option<Seq<char>>,
    pub predicate: Option<Seq<char>>,
    pub from_date: Option<Seq<char>>,
    pub until_date: Option<Seq<char>>,
    pub limit: Option<u64>,
}

impl View for LinkQuery {
    type V = LinkQueryView;

    open spec fn view(&self) -> LinkQueryView {
        LinkQueryView {
            source: opt_view(self.source),
            target: opt_view(self.target),
            predicate: opt_view(self.predicate),
            from_date: opt_view(self.from_date),
            until_date: opt_view(self.until_date),
            limit: self.limit,
        }
    }
}

impl Clone for LinkQuery {
    fn clone(&self) -> (out: Self)
        ensures
            out@ == self@,
    {
        LinkQuery {
            source: clone_opt(&self.source),
            target: clone_opt(&self.target),
            predicate: clone_opt(&self.predicate),
            from_date: clone_opt(&self.from_date),
            until_date: clone_opt(&self.until_date),
            limit: self.limit,
        }
    }
}

/// A request to the link store.
#[derive(Debug, PartialEq, Eq)]
pub enum Request {
    AddLink {
        perspective_uuid: String,
        source: String,
        target: String,
        predicate: Option<String>,
        status: Option<String>,
    },
    QueryLinks { perspective_uuid: String, query: LinkQuery },
    RemoveLink { perspective_uuid: String, link: LinkExpression },
    Infer { perspective_uuid: String, prolog_query: String },
}

/// The mathematical value of a [`Request`].
pub enum RequestView {
    AddLink {
        perspective_uuid: Seq<char>,
        source: Seq<char>,
        target: Seq<char>,
        predicate: Option<Seq<char>>,
        status: Option<Seq<char>>,
    },
    QueryLinks { perspective_uuid: Seq<char>, query: LinkQueryView },
    RemoveLink { perspective_uuid: Seq<char>, link: LinkExpressionView },
    Infer { perspective_uuid: Seq<char>, prolog_query: Seq<char> },
}

impl View for Request {
    type V = RequestView;

    open spec fn view(&self) -> RequestView {
        match self {
            Request::AddLink { perspective_uuid, source, target, predicate, status } => {
                RequestView::AddLink {
                    perspective_uuid: perspective_uuid@,
                    source: source@,
                    target: target@,
                    predicate: opt_view(*predicate),
                    status: opt_view(*status),
                }
            },
            Request::QueryLinks { perspective_uuid, query } => RequestView::QueryLinks {
                perspective_uuid: perspective_uuid@,
                query: query@,
            },
            Request::RemoveLink { perspective_uuid, link } => RequestView::RemoveLink {
                perspective_uuid: perspective_uuid@,
                link: link@,
            },
            Request::Infer { perspective_uuid, prolog_query } => RequestView::Infer {
                perspective_uuid: perspective_uuid@,
                prolog_query: prolog_query@,
            },
        }
    }
}

impl Clone for Request {
    fn clone(&self) -> (out: Self)
        ensures
            out@ == self@,
    {
        match self {
            Request::AddLink { perspective_uuid, source, target, predicate, status } => {
                Request::AddLink {
                    perspective_uuid: perspective_uuid.clone(),
                    source: source.clone(),
                    target: target.clone(),
                    predicate: clone_opt(predicate),
                    status: clone_opt(status),
                }
            },
            Request::QueryLinks { perspective_uuid, query } => Request::QueryLinks {
                perspective_uuid: perspective_uuid.clone(),
                query: query.clone(),
            },
            Request::RemoveLink { perspective_uuid, link } => Request::RemoveLink {
                perspective_uuid: perspective_uuid.clone(),
                link: link.clone(),
            },
            Request::Infer { perspective_uuid, prolog_query } => Request::Infer {
                perspective_uuid: perspective_uuid.clone(),
                prolog_query: prolog_query.clone(),
            },
        }
    }
}

/// A failure of the link store, with the reason that the store gave.
#[derive(Debug, PartialEq, Eq)]
pub struct StoreError {
    pub reason: String,
}

impl View for StoreError {
    type V = Seq<char>;

    open spec fn view(&self) -> Seq<char> {
        self.reason@
    }
}

/// What the store answered to one request, as a mathematical value.
pub open spec fn spec_outcome_view(outcome: Result<(), StoreError>) -> Result<(), Seq<char>> {
    match outcome {
        Ok(()) => Ok(()),
        Err(e) => Err(e@),
    }
}

/// The requests of one operation on their way through the store: they are
/// served one after the other, and the first failure ends the operation.
/// Nothing is sent after a failure, and nothing that was served is undone.
pub struct RequestRun {
    requests: Vec<Request>,
    served: usize,
    failure: Option<StoreError>,
}

/// The mathematical value of a [`RequestRun`]: the requests, how many of
/// them were served, and the failure that ended the run, if one did.
pub struct RequestRunView {
    pub requests: Seq<RequestView>,
    pub served: nat,
    pub failure: Option<Seq<char>>,
}

/// The request to send now: the first that was not served, unless the run
/// has failed or every request was served.
pub open spec fn spec_next_request(run: RequestRunView) -> Option<RequestView> {
    if run.failure is None && run.served < run.requests.len() {
        Some(run.requests[run.served as int])
    } else {
        None
    }
}

/// The run after the store answered the request that was sent: a success
/// counts the request as served, a failure ends the run. A run that waits
/// for no answer stays as it is.
pub open spec fn spec_recorded(run: RequestRunView, outcome: Result<(), Seq<char>>) -> RequestRunView {
    if spec_next_request(run) is None {
        run
    } else {
        match outcome {
            Ok(()) => RequestRunView { served: run.served + 1, ..run },
            Err(reason) => RequestRunView { failure: Some(reason), ..run },
        }
    }
}

/// How the operation ended: with the failure that ended the run, or well
/// once every request was served. None while requests are still to send.
pub open spec fn spec_run_result(run: RequestRunView) -> Option<Result<(), Seq<char>>> {
    match run.failure {
        Some(reason) => Some(Err(reason)),
        None => if run.served >= run.requests.len() {
            Some(Ok(()))
        } else {
            None
        },
    }
}

impl View for RequestRun {
    type V = RequestRunView;

    closed spec fn view(&self) -> RequestRunView {
        RequestRunView {
            requests: views(self.requests@),
            served: self.served as nat,
            failure: match self.failure {
                Some(e) => Some(e@),
                None => None,
            },
        }
    }
}

impl RequestRun {
    /// A run of the given requests, none of them served yet.
    pub fn new(requests: Vec<Request>) -> (out: Self)
        ensures
            out@ == (RequestRunView { requests: views(requests@), served: 0, failure: None }),
    {
        RequestRun { requests, served: 0, failure: None }
    }

    /// A run that failed before its first request, as after a query that the
    /// store did not answer: it holds no request and sends none.
    pub fn failed(error: StoreError) -> (out: Self)
        ensures
            out@ == (RequestRunView {
                requests: Seq::empty(),
                served: 0,
                failure: Some(error@),
            }),
    {
        let out = RequestRun { requests: Vec::new(), served: 0, failure: Some(error) };
        assert(views(out.requests@) =~= Seq::<RequestView>::empty());
        out
    }

    /// The request to send now, none if the run has ended.
    pub fn next(&self) -> (out: Option<Request>)
        ensures
            out is Some <==> spec_next_request(self@) is Some,
            out matches Some(request) ==> request@ == spec_next_request(self@)->0,
    {
        if self.failure.is_none() && self.served < self.requests.len() {
            assert(views(self.requests@)[self.served as int] == self.requests@[self.served as int]@);
            Some(self.requests[self.served].clone())
        } else {
            None
        }
    }

    /// Takes note of what the store answered to the request that
    /// [`next`](Self::next) gave.
    pub fn record(&mut self, outcome: Result<(), StoreError>)
        ensures
            final(self)@ == spec_recorded(old(self)@, spec_outcome_view(outcome)),
    {
        if self.failure.is_none() && self.served < self.requests.len() {
            match outcome {
                Ok(()) => {
                    self.served = self.served + 1;
                },
                Err(e) => {
                    self.failure = Some(e);
                },
            }
        }
    }

    /// How the operation ended, none while requests are still to send.
    pub fn result(&self) -> (out: Option<Result<(), StoreError>>)
        ensures
            match spec_run_result(self@) {
                None => out is None,
                Some(Ok(())) => out == Some(Ok::<(), StoreError>(())),
                Some(Err(reason)) => out matches Some(Err(e)) && e@ == reason,
            },
    {
        match &self.failure {
            Some(e) => Some(Err(StoreError { reason: e.reason.clone() })),
            None => if self.served >= self.requests.len() {
                Some(Ok(()))
            } else {
                None
            },
        }
    }

    /// How many requests were served.
    pub fn served(&self) -> (out: usize)
        ensures
            out == self@.served,
    {
        self.served
    }
}

/// A failure ends the run for good: the failed request is the last one
/// sent, whatever is recorded afterwards; the result is that failure; and
/// the requests served before it stay served.
pub proof fn law_failure_ends_the_run(
    run: RequestRunView,
    reason: Seq<char>,
    later: Result<(), Seq<char>>,
)
    requires
        spec_next_request(run) is Some,
    ensures
        spec_next_request(spec_recorded(run, Err(reason))) is None,
        spec_run_result(spec_recorded(run, Err(reason))) == Some(
            Err::<(), Seq<char>>(reason),
        ),
        spec_recorded(run, Err(reason)).served == run.served,
        spec_recorded(run, Err(reason)).requests == run.requests,
        spec_recorded(spec_recorded(run, Err(reason)), later) == spec_recorded(run, Err(reason)),
{
}

/// The run after the store answered well to its next `count` requests.
pub open spec fn spec_served_well(run: RequestRunView, count: nat) -> RequestRunView
    decreases count,
{
    if count == 0 {
        run
    } else {
        spec_recorded(spec_served_well(run, (count - 1) as nat), Ok(()))
    }
}

/// A run whose requests are all answered well sends them in order, each
/// once, and ends well behind the last.
pub proof fn law_run_sends_every_request_in_order(requests: Seq<RequestView>, count: nat)
    requires
        count <= requests.len(),
    ensures
        spec_served_well(RequestRunView { requests, served: 0, failure: None }, count)
            == (RequestRunView { requests, served: count, failure: None }),
        count < requests.len() ==> spec_next_request(
            spec_served_well(RequestRunView { requests, served: 0, failure: None }, count),
        ) == Some(requests[count as int]),
        count == requests.len() ==> spec_run_result(
            spec_served_well(RequestRunView { requests, served: 0, failure: None }, count),
        ) == Some(Ok::<(), Seq<char>>(())),
    decreases count,
{
    if count > 0 {
        law_run_sends_every_request_in_order(requests, (count - 1) as nat);
    }
}

/// Whether a link is one from `source` under `predicate`.
pub open spec fn spec_asks_for(
    link: LinkExpressionView,
    source: Seq<char>,
    predicate: Seq<char>,
) -> bool {
    link.data.source == source && link.data.predicate == Some(predicate)
}

/// The store's answer to the query for the links from `source` under
/// `predicate`: those links of the store, in the store's order.
pub open spec fn spec_answer(
    store: Seq<LinkExpressionView>,
    source: Seq<char>,
    predicate: Seq<char>,
) -> Seq<LinkExpressionView>
    decreases store.len(),
{
    if store.len() == 0 {
        Seq::empty()
    } else if spec_asks_for(store.last(), source, predicate) {
        spec_answer(store.drop_last(), source, predicate).push(store.last())
    } else {
        spec_answer(store.drop_last(), source, predicate)
    }
}

/// The store without a link: every link equal to it is gone.
pub open spec fn spec_without(
    store: Seq<LinkExpressionView>,
    link: LinkExpressionView,
) -> Seq<LinkExpressionView>
    decreases store.len(),
{
    if store.len() == 0 {
        Seq::empty()
    } else if store.last() == link {
        spec_without(store.drop_last(), link)
    } else {
        spec_without(store.drop_last(), link).push(store.last())
    }
}

/// The link expression that the store keeps for an added link: the link in
/// normal form, under the author, timestamp, proof and status that the store
/// gives it.
pub open spec fn spec_stored(
    source: Seq<char>,
    predicate: Option<Seq<char>>,
    target: Seq<char>,
    envelope: LinkExpressionView,
) -> LinkExpressionView {
    LinkExpressionView {
        data: spec_normalize(LinkView { source, predicate, target }),
        ..envelope
    }
}

/// The store after it served one request. An addition appends the link under
/// the envelope that the store gives it; a removal takes the link out; a
/// query changes nothing.
pub open spec fn spec_serve(
    store: Seq<LinkExpressionView>,
    request: RequestView,
    envelope: LinkExpressionView,
) -> Seq<LinkExpressionView> {
    match request {
        RequestView::AddLink { source, predicate, target, .. } => store.push(
            spec_stored(source, predicate, target, envelope),
        ),
        RequestView::RemoveLink { link, .. } => spec_without(store, link),
        _ => store,
    }
}

/// The store after it served requests in order, the request at position `i`
/// under the envelope `envelopes[i]`.
pub open spec fn spec_serve_all(
    store: Seq<LinkExpressionView>,
    requests: Seq<RequestView>,
    envelopes: Seq<LinkExpressionView>,
) -> Seq<LinkExpressionView>
    decreases requests.len(),
{
    if requests.len() == 0 {
        store
    } else {
        spec_serve(
            spec_serve_all(store, requests.drop_last(), envelopes),
            requests.last(),
            envelopes[requests.len() - 1],
        )
    }
}

/// Every link of an answer is a link of the store that the query asks for,
/// and every such link of the store is in the answer.
pub proof fn lemma_answer(store: Seq<LinkExpressionView>, source: Seq<char>, predicate: Seq<char>)
    ensures
        forall|i: int|
            0 <= i < spec_answer(store, source, predicate).len() ==> {
                &&& spec_asks_for(#[trigger] spec_answer(store, source, predicate)[i], source, predicate)
                &&& store.contains(spec_answer(store, source, predicate)[i])
            },
        forall|j: int|
            0 <= j < store.len() && spec_asks_for(#[trigger] store[j], source, predicate)
                ==> spec_answer(store, source, predicate).contains(store[j]),
    decreases store.len(),
{
    if store.len() > 0 {
        let before = store.drop_last();
        let answer = spec_answer(store, source, predicate);
        let earlier = spec_answer(before, source, predicate);
        lemma_answer(before, source, predicate);
        assert forall|i: int| 0 <= i < answer.len() implies {
            &&& spec_asks_for(#[trigger] answer[i], source, predicate)
            &&& store.contains(answer[i])
        } by {
            if i < earlier.len() {
                assert(answer[i] == earlier[i]);
                let at = choose|at: int| 0 <= at < before.len() && before[at] == earlier[i];
                assert(store[at] == earlier[i]);
            } else {
                assert(answer[i] == store.last());
                assert(store[store.len() - 1] == store.last());
            }
        }
        assert forall|j: int|
            0 <= j < store.len() && spec_asks_for(#[trigger] store[j], source, predicate) implies answer.contains(
            store[j],
        ) by {
            if j < before.len() {
                assert(before[j] == store[j]);
                let at = choose|at: int| 0 <= at < earlier.len() && earlier[at] == before[j];
                assert(answer[at] == store[j]);
            } else {
                assert(answer[answer.len() - 1] == store[j]);
            }
        }
    }
}

/// A store that holds no link that the query asks for answers with nothing.
pub proof fn lemma_answer_empty(
    store: Seq<LinkExpressionView>,
    source: Seq<char>,
    predicate: Seq<char>,
)
    requires
        forall|j: int| 0 <= j < store.len() ==> !spec_asks_for(#[trigger] store[j], source, predicate),
    ensures
        spec_answer(store, source, predicate) == Seq::<LinkExpressionView>::empty(),
    decreases store.len(),
{
    if store.len() > 0 {
        let before = store.drop_last();
        assert forall|j: int| 0 <= j < before.len() implies !spec_asks_for(
            #[trigger] before[j],
            source,
            predicate,
        ) by {
            assert(before[j] == store[j]);
        }
        lemma_answer_empty(before, source, predicate);
        assert(!spec_asks_for(store[store.len() - 1], source, predicate));
    }
}

/// What is left without a link are links of the store, none of them the link.
pub proof fn lemma_without(store: Seq<LinkExpressionView>, link: LinkExpressionView)
    ensures
        forall|i: int|
            0 <= i < spec_without(store, link).len() ==> {
                &&& (#[trigger] spec_without(store, link)[i]) != link
                &&& store.contains(spec_without(store, link)[i])
            },
    decreases store.len(),
{
    if store.len() > 0 {
        let before = store.drop_last();
        let left = spec_without(store, link);
        let earlier = spec_without(before, link);
        lemma_without(before, link);
        assert forall|i: int| 0 <= i < left.len() implies {
            &&& (#[trigger] left[i]) != link
            &&& store.contains(left[i])
        } by {
            if i < earlier.len() {
                assert(left[i] == earlier[i]);
                let at = choose|at: int| 0 <= at < before.len() && before[at] == earlier[i];
                assert(store[at] == earlier[i]);
            } else {
                assert(left[i] == store.last());
                assert(store[store.len() - 1] == store.last());
            }
        }
    }
}



/// The requests that remove the given links, in order.
pub open spec fn spec_removals(
    perspective_uuid: Seq<char>,
    links: Seq<LinkExpressionView>,
) -> Seq<RequestView> {
    Seq::new(links.len(), |i: int| RequestView::RemoveLink { perspective_uuid, link: links[i] })
}

/// After the removals of some links were served, what is left are links of
/// the store, none of them one of the removed.
pub proof fn lemma_removals(
    store: Seq<LinkExpressionView>,
    perspective_uuid: Seq<char>,
    links: Seq<LinkExpressionView>,
    envelopes: Seq<LinkExpressionView>,
)
    ensures
        forall|i: int|
            0 <= i < spec_serve_all(
                store,
                spec_removals(perspective_uuid, links),
                envelopes,
            ).len() ==> {
                &&& store.contains(
                    #[trigger] spec_serve_all(
                        store,
                        spec_removals(perspective_uuid, links),
                        envelopes,
                    )[i],
                )
                &&& !links.contains(
                    spec_serve_all(store, spec_removals(perspective_uuid, links), envelopes)[i],
                )
            },
    decreases links.len(),
{
    let requests = spec_removals(perspective_uuid, links);
    let left = spec_serve_all(store, requests, envelopes);
    if links.len() == 0 {
        assert(left == store);
        assert forall|i: int| 0 <= i < left.len() implies store.contains(#[trigger] left[i])
            && !links.contains(left[i]) by {
            assert(store[i] == left[i]);
        }
    } else {
        let fewer = links.drop_last();
        assert(requests.drop_last() =~= spec_removals(perspective_uuid, fewer));
        let earlier = spec_serve_all(store, spec_removals(perspective_uuid, fewer), envelopes);
        lemma_removals(store, perspective_uuid, fewer, envelopes);
        assert(requests.last() == RequestView::RemoveLink { perspective_uuid, link: links.last() });
        assert(left == spec_without(earlier, links.last()));
        lemma_without(earlier, links.last());
        assert forall|i: int| 0 <= i < left.len() implies store.contains(#[trigger] left[i])
            && !links.contains(left[i]) by {
            let at = choose|at: int| 0 <= at < earlier.len() && earlier[at] == left[i];
            assert(store.contains(earlier[at]));
            assert(!fewer.contains(earlier[at]));
            if links.contains(left[i]) {
                let j = choose|j: int| 0 <= j < links.len() && links[j] == left[i];
                if j < fewer.len() {
                    assert(fewer[j] == left[i]);
                }
            }
        }
    }
}

} // verus!
