//! Gateways as the outcome of the requests made of them.
//!
//! A gateway changes only by creations and by changes to controls. Looking at
//! a whole sequence of such requests, this module shows what the counters
//! mean: after the requests, an identifier counts as handed out exactly if it
//! did so before or one of the creations answered it, and no two creations of
//! one kind answer the same identifier.

use crate::gateway::{ControlEventView, GatewayView, ResourceKind};
use vstd::prelude::*;

verus! {

/// A request that changes the gateway. Validation and the click query change
/// nothing and are not listed.
pub enum Request {
    /// Create a resource of the given kind.
    Create(ResourceKind),
    /// Write a change to a control into the journal.
    Change(ControlEventView),
}

impl GatewayView {
    /// The gateway after one more request.
    pub open spec fn step(self, request: Request) -> GatewayView {
        match request {
            Request::Create(kind) => self.mint(kind),
            Request::Change(event) => self.record(event),
        }
    }

    /// The gateway after `requests`, made of `self` one after the other.
    pub open spec fn run(self, requests: Seq<Request>) -> GatewayView
        decreases requests.len(),
    {
        if requests.len() == 0 {
            self
        } else {
            self.run(requests.drop_last()).step(requests.last())
        }
    }

    /// The identifier answered to the request at position `at`: for a
    /// creation, the next identifier of its kind in the gateway that the
    /// earlier requests left behind. A change to a control answers nothing,
    /// written `0` here.
    pub open spec fn answer(self, requests: Seq<Request>, at: int) -> usize
        recommends
            0 <= at < requests.len(),
    {
        match requests[at] {
            Request::Create(kind) => self.run(requests.take(at)).next_id(kind),
            Request::Change(_) => 0,
        }
    }

    /// Whether some creation of `kind` among `requests` answered `id`.
    pub open spec fn created(self, requests: Seq<Request>, kind: ResourceKind, id: usize) -> bool {
        exists|at: int|
            0 <= at < requests.len() && requests[at] == Request::Create(kind)
                && #[trigger] self.answer(requests, at) == id
    }

    /// Appending a request leaves the answers to the earlier requests as they
    /// were.
    proof fn lemma_answer_of_prefix(self, requests: Seq<Request>, at: int)
        requires
            0 <= at < requests.len() - 1,
        ensures
            self.answer(requests, at) == self.answer(requests.drop_last(), at),
    {
        assert(requests.take(at) =~= requests.drop_last().take(at));
    }

    /// Requests never move a counter back: after more requests, each kind has
    /// at least as many identifiers handed out as after fewer.
    pub proof fn lemma_run_grows(self, requests: Seq<Request>, fewer: int, kind: ResourceKind)
        requires
            0 <= fewer <= requests.len(),
        ensures
            self.run(requests.take(fewer)).issued(kind) <= self.run(requests).issued(kind),
        decreases requests.len(),
    {
        if fewer == requests.len() {
            assert(requests.take(fewer) =~= requests);
        } else {
            assert(requests.drop_last().take(fewer) =~= requests.take(fewer));
            self.lemma_run_grows(requests.drop_last(), fewer, kind);
        }
    }

    /// After any requests, the identifiers handed out are those handed out
    /// before and those, other than `0`, that a creation among the requests
    /// answered. So an identifier that was not handed out before and that no
    /// creation answered is not handed out, and every lookup of it comes back
    /// empty.
    pub proof fn lemma_issued_iff_created(
        self,
        requests: Seq<Request>,
        kind: ResourceKind,
        id: usize,
    )
        ensures
            self.run(requests).is_issued(kind, id) <==> self.is_issued(kind, id) || (id != 0
                && self.created(requests, kind, id)),
        decreases requests.len(),
    {
        if requests.len() > 0 {
            let earlier = requests.drop_last();
            let last = requests.len() - 1;
            self.lemma_issued_iff_created(earlier, kind, id);
            assert(requests.take(last) =~= earlier);
            if self.created(earlier, kind, id) {
                let at = choose|at: int|
                    0 <= at < earlier.len() && earlier[at] == Request::Create(kind)
                        && #[trigger] self.answer(earlier, at) == id;
                self.lemma_answer_of_prefix(requests, at);
                assert(self.answer(requests, at) == id);
            }
            if self.created(requests, kind, id) {
                let at = choose|at: int|
                    0 <= at < requests.len() && requests[at] == Request::Create(kind)
                        && #[trigger] self.answer(requests, at) == id;
                if at < last {
                    self.lemma_answer_of_prefix(requests, at);
                    assert(self.answer(earlier, at) == id);
                }
            }
            if requests[last] == Request::Create(kind) && id != 0 && self.run(earlier).next_id(kind)
                == id {
                assert(self.answer(requests, last) == id);
            }
        }
    }

    /// In a gateway that started out empty, the identifiers handed out are
    /// exactly those, other than `0`, that a creation answered.
    pub proof fn lemma_issued_iff_created_since_empty(
        requests: Seq<Request>,
        kind: ResourceKind,
        id: usize,
    )
        ensures
            GatewayView::initial().run(requests).is_issued(kind, id) <==> id != 0
                && GatewayView::initial().created(requests, kind, id),
    {
        GatewayView::initial().lemma_issued_iff_created(requests, kind, id);
    }

    /// Two creations of one kind never answer the same identifier, unless the
    /// later one answers `0` because the counter is exhausted: the earlier of
    /// the two answers the smaller identifier. Neither identifier was handed
    /// out before the requests.
    pub proof fn lemma_created_ids_differ(
        self,
        requests: Seq<Request>,
        kind: ResourceKind,
        first: int,
        second: int,
    )
        requires
            0 <= first < second < requests.len(),
            requests[first] == Request::Create(kind),
            requests[second] == Request::Create(kind),
            self.answer(requests, second) != 0,
        ensures
            0 < self.answer(requests, first) < self.answer(requests, second),
            !self.is_issued(kind, self.answer(requests, first)),
            !self.is_issued(kind, self.answer(requests, second)),
    {
        let until_second = requests.take(second);
        let until_first = requests.take(first);
        let past_first = requests.take(first + 1);
        assert(until_second.take(first + 1) =~= past_first);
        assert(until_second.take(first) =~= until_first);
        assert(past_first.drop_last() =~= until_first);
        assert(until_first.take(0) =~= Seq::<Request>::empty());
        // The count that the second creation starts from is at least the count
        // right after the first one; the count that the first one starts from
        // is at least the count before all requests.
        self.lemma_run_grows(until_second, first + 1, kind);
        self.lemma_run_grows(until_second, first, kind);
        self.lemma_run_grows(until_first, 0, kind);
    }
}

} // verus!
