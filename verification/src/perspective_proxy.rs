//! The query facade over a perspective: the requests it sends to the link
//! store, the decisions it takes on the answers, and the action language.
//!
//! The link store is an outside collaborator. The facade therefore works in
//! steps: a method either builds the requests to send, or takes the store's
//! answer and decides on it. Nothing here waits for the store.

pub mod actions;
pub mod store;
pub mod subjects;

use crate::perspective_proxy::actions::{
    ordered, parse_action, plan, spec_execute_action, ActionPlan, ParseError, Substitution,
};
use crate::perspective_proxy::store::{
    law_run_sends_every_request_in_order, lemma_answer, lemma_answer_empty, lemma_removals,
    spec_answer, spec_asks_for, spec_removals, spec_run_result, spec_served_well,
    spec_serve_all, spec_stored, LinkQuery, LinkQueryView, Request, RequestRun, RequestRunView,
    RequestView, StoreError,
};
use crate::text::{opt_view, views};
use crate::types::{LinkExpression, LinkExpressionView};
use vstd::prelude::*;
use vstd::string::*;

verus! {

/// The facade over one perspective of the link store.
#[derive(Debug, PartialEq, Eq)]
pub struct PerspectiveProxy {
    pub perspective_uuid: String,
}

/// Why a single target could not be told.
#[derive(Debug, Clone, Copy, PartialEq, Eq, Structural)]
pub enum SingleTargetError {
    /// No link matches.
    NotFound,
    /// More than one link matches.
    Ambiguous,
}

impl SingleTargetError {
    /// The text shown to the caller.
    pub fn message(&self) -> (out: String)
        ensures
            out@ == (match *self {
                SingleTargetError::NotFound => "No links found"@,
                SingleTargetError::Ambiguous => "Multiple links found"@,
            }),
    {
        match self {
            SingleTargetError::NotFound => String::from_str("No links found"),
            SingleTargetError::Ambiguous => String::from_str("Multiple links found"),
        }
    }
}

/// The single target among the links that answer a query: the target of the
/// only link, if there is exactly one.
pub open spec fn spec_single_target(links: Seq<LinkExpressionView>) -> Result<
    Seq<char>,
    SingleTargetError,
> {
    if links.len() == 0 {
        Err(SingleTargetError::NotFound)
    } else if links.len() > 1 {
        Err(SingleTargetError::Ambiguous)
    } else {
        Ok(links[0].data.target)
    }
}

/// The query for the links from `source` under `predicate`.
pub open spec fn spec_target_query(source: Seq<char>, predicate: Seq<char>) -> LinkQueryView {
    LinkQueryView {
        source: Some(source),
        target: None,
        predicate: Some(predicate),
        from_date: None,
        until_date: None,
        limit: None,
    }
}

/// The requests that set the single target of `source` under `predicate`:
/// one removal for each link that is there, in order, then the addition of
/// the new link as a shared one.
pub open spec fn spec_set_single_target(
    perspective_uuid: Seq<char>,
    existing: Seq<LinkExpressionView>,
    source: Seq<char>,
    predicate: Seq<char>,
    target: Seq<char>,
) -> Seq<RequestView> {
    Seq::new(
        existing.len(),
        |i: int| RequestView::RemoveLink { perspective_uuid, link: existing[i] },
    ).push(
        RequestView::AddLink {
            perspective_uuid,
            source,
            target,
            predicate: Some(predicate),
            status: Some("shared"@),
        },
    )
}

impl PerspectiveProxy {
    /// The facade over the perspective `perspective_uuid`.
    pub fn new(perspective_uuid: String) -> (out: Self)
        ensures
            out.perspective_uuid == perspective_uuid,
    {
        PerspectiveProxy { perspective_uuid }
    }

    /// The request that adds a link.
    pub fn add_link(
        &self,
        source: String,
        target: String,
        predicate: Option<String>,
        status: Option<String>,
    ) -> (out: Request)
        ensures
            out@ == (RequestView::AddLink {
                perspective_uuid: self.perspective_uuid@,
                source: source@,
                target: target@,
                predicate: opt_view(predicate),
                status: opt_view(status),
            }),
    {
        Request::AddLink {
            perspective_uuid: self.perspective_uuid.clone(),
            source,
            target,
            predicate,
            status,
        }
    }

    /// The request that asks for the links that a query describes.
    pub fn get(&self, query: LinkQuery) -> (out: Request)
        ensures
            out@ == (RequestView::QueryLinks {
                perspective_uuid: self.perspective_uuid@,
                query: query@,
            }),
    {
        Request::QueryLinks { perspective_uuid: self.perspective_uuid.clone(), query }
    }

    /// The request that runs a query of the logic engine.
    pub fn infer(&self, prolog_query: String) -> (out: Request)
        ensures
            out@ == (RequestView::Infer {
                perspective_uuid: self.perspective_uuid@,
                prolog_query: prolog_query@,
            }),
    {
        Request::Infer { perspective_uuid: self.perspective_uuid.clone(), prolog_query }
    }

    /// The request that asks for the links from `source` under `predicate`.
    /// Its answer is what [`get_single_target`](Self::get_single_target) and
    /// [`set_single_target`](Self::set_single_target) take.
    pub fn single_target_query(&self, source: String, predicate: String) -> (out: Request)
        ensures
            out@ == (RequestView::QueryLinks {
                perspective_uuid: self.perspective_uuid@,
                query: spec_target_query(source@, predicate@),
            }),
    {
        Request::QueryLinks {
            perspective_uuid: self.perspective_uuid.clone(),
            query: LinkQuery {
                source: Some(source),
                target: None,
                predicate: Some(predicate),
                from_date: None,
                until_date: None,
                limit: None,
            },
        }
    }

    /// The single target among the links that answered the query of
    /// [`single_target_query`](Self::single_target_query): no link is
    /// `NotFound`, several are `Ambiguous`.
    pub fn get_single_target(&self, links: &Vec<LinkExpression>) -> (out: Result<
        String,
        SingleTargetError,
    >)
        ensures
            out is Ok <==> links.len() == 1,
            out matches Ok(target) ==> Ok::<Seq<char>, SingleTargetError>(target@)
                == spec_single_target(views(links@)),
            out matches Err(e) ==> Err::<Seq<char>, SingleTargetError>(e) == spec_single_target(
                views(links@),
            ),
    {
        if links.len() == 0 {
            return Err(SingleTargetError::NotFound);
        }
        if links.len() > 1 {
            return Err(SingleTargetError::Ambiguous);
        }
        assert(views(links@)[0] == links@[0]@);
        Ok(links[0].data.target.clone())
    }

    /// The requests that make `target` the single target of `source` under
    /// `predicate`, given the links that answered the query of
    /// [`single_target_query`](Self::single_target_query). The requests are to
    /// be served in order; they are no transaction.
    pub fn set_single_target(
        &self,
        existing: &Vec<LinkExpression>,
        source: String,
        predicate: String,
        target: String,
    ) -> (out: Vec<Request>)
        ensures
            views(out@) == spec_set_single_target(
                self.perspective_uuid@,
                views(existing@),
                source@,
                predicate@,
                target@,
            ),
    {
        let mut out: Vec<Request> = Vec::new();
        let mut i: usize = 0;
        while i < existing.len()
            invariant
                i <= existing.len(),
                out@.len() == i,
                forall|k: int|
                    0 <= k < i ==> (#[trigger] out@[k])@ == (RequestView::RemoveLink {
                        perspective_uuid: self.perspective_uuid@,
                        link: existing@[k]@,
                    }),
            decreases existing.len() - i,
        {
            out.push(
                Request::RemoveLink {
                    perspective_uuid: self.perspective_uuid.clone(),
                    link: existing[i].clone(),
                },
            );
            i += 1;
        }
        out.push(
            Request::AddLink {
                perspective_uuid: self.perspective_uuid.clone(),
                source,
                target,
                predicate: Some(predicate),
                status: Some(String::from_str("shared")),
            },
        );
        assert(views(out@) =~= spec_set_single_target(
            self.perspective_uuid@,
            views(existing@),
            source@,
            predicate@,
            target@,
        ));
        out
    }

    /// The run that makes `target` the single target of `source` under
    /// `predicate`, given what the store answered to the query of
    /// [`single_target_query`](Self::single_target_query). Where the query
    /// failed the run has failed with it and sends nothing: no link is
    /// removed and none is added. Else it is the run of the requests of
    /// [`set_single_target`](Self::set_single_target).
    pub fn set_single_target_run(
        &self,
        answer: Result<Vec<LinkExpression>, StoreError>,
        source: String,
        predicate: String,
        target: String,
    ) -> (out: RequestRun)
        ensures
            out@ == (match answer {
                Ok(existing) => RequestRunView {
                    requests: spec_set_single_target(
                        self.perspective_uuid@,
                        views(existing@),
                        source@,
                        predicate@,
                        target@,
                    ),
                    served: 0,
                    failure: None,
                },
                Err(e) => RequestRunView {
                    requests: Seq::empty(),
                    served: 0,
                    failure: Some(e@),
                },
            }),
    {
        match answer {
            Ok(existing) => RequestRun::new(
                self.set_single_target(&existing, source, predicate, target),
            ),
            Err(e) => RequestRun::failed(e),
        }
    }

    /// Plans an action: reads the commands of `action`, makes each concrete
    /// (`this` stands for `base`, then `params` apply, one for each pattern,
    /// in the order of the patterns), and lists the calls they stand for. A text that does not parse is an error and
    /// gives no call.
    pub fn execute_action(&self, action: &str, base: &str, params: &Vec<Substitution>) -> (out:
        Result<ActionPlan, ParseError>)
        ensures
            out is Ok <==> spec_execute_action(action@, base@, views(params@)) is Ok,
            out matches Ok(planned) ==> planned@ == spec_execute_action(
                action@,
                base@,
                views(params@),
            )->Ok_0,
            out matches Err(e) ==> e == spec_execute_action(action@, base@, views(params@))->Err_0,
    {
        match parse_action(action) {
            Ok(commands) => Ok(plan(&commands, base, &ordered(params))),
            Err(e) => Err(e),
        }
    }
}



/// Once the requests of [`PerspectiveProxy::set_single_target`] were served
/// in order, with nothing served in between, the single target of `source`
/// under `predicate` is `target`: whatever the store held before, and under
/// whatever author, timestamp and proof it keeps the new link. The predicate
/// must not be empty: an empty predicate is normalised away, and no query
/// for it finds the link again.
pub proof fn law_single_target_after_set(
    store: Seq<LinkExpressionView>,
    perspective_uuid: Seq<char>,
    source: Seq<char>,
    predicate: Seq<char>,
    target: Seq<char>,
    envelopes: Seq<LinkExpressionView>,
)
    requires
        predicate.len() > 0,
    ensures
        spec_single_target(
            spec_answer(
                spec_serve_all(
                    store,
                    spec_set_single_target(
                        perspective_uuid,
                        spec_answer(store, source, predicate),
                        source,
                        predicate,
                        target,
                    ),
                    envelopes,
                ),
                source,
                predicate,
            ),
        ) == Ok::<Seq<char>, SingleTargetError>(target),
{
    let existing = spec_answer(store, source, predicate);
    let requests = spec_set_single_target(perspective_uuid, existing, source, predicate, target);
    let removals = spec_removals(perspective_uuid, existing);
    assert(requests.drop_last() =~= removals);
    let cleared = spec_serve_all(store, removals, envelopes);
    lemma_removals(store, perspective_uuid, existing, envelopes);
    lemma_answer(store, source, predicate);
    assert forall|j: int| 0 <= j < cleared.len() implies !spec_asks_for(
        #[trigger] cleared[j],
        source,
        predicate,
    ) by {
        let at = choose|at: int| 0 <= at < store.len() && store[at] == cleared[j];
        if spec_asks_for(store[at], source, predicate) {
            assert(existing.contains(store[at]));
        }
    }
    lemma_answer_empty(cleared, source, predicate);
    let kept = spec_stored(source, Some(predicate), target, envelopes[requests.len() - 1]);
    assert(predicate != Seq::<char>::empty());
    assert(spec_asks_for(kept, source, predicate));
    let after = spec_serve_all(store, requests, envelopes);
    assert(after == cleared.push(kept));
    assert(after.drop_last() =~= cleared);
    assert(spec_answer(after, source, predicate) == Seq::<LinkExpressionView>::empty().push(kept));
}


/// A run of [`PerspectiveProxy::set_single_target_run`] that the store
/// answers well to the end, with nothing served in between, ends well, and
/// the single target of `source` under `predicate` is then `target`. The
/// predicate must not be empty.
pub proof fn law_single_target_after_complete_run(
    store: Seq<LinkExpressionView>,
    perspective_uuid: Seq<char>,
    source: Seq<char>,
    predicate: Seq<char>,
    target: Seq<char>,
    envelopes: Seq<LinkExpressionView>,
)
    requires
        predicate.len() > 0,
    ensures
        ({
            let requests = spec_set_single_target(
                perspective_uuid,
                spec_answer(store, source, predicate),
                source,
                predicate,
                target,
            );
            let run = RequestRunView { requests, served: 0, failure: None };
            &&& spec_run_result(spec_served_well(run, requests.len())) == Some(
                Ok::<(), Seq<char>>(()),
            )
            &&& spec_single_target(
                spec_answer(spec_serve_all(store, requests, envelopes), source, predicate),
            ) == Ok::<Seq<char>, SingleTargetError>(target)
        }),
{
    let requests = spec_set_single_target(
        perspective_uuid,
        spec_answer(store, source, predicate),
        source,
        predicate,
        target,
    );
    law_run_sends_every_request_in_order(requests, requests.len());
    law_single_target_after_set(store, perspective_uuid, source, predicate, target, envelopes);
}

} // verus!
