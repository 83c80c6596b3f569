//! Friends and friend requests.

use vstd::prelude::*;
use vstd::string::StringExecFns;

verus! {

/// A friend of the current user.
#[derive(Debug, PartialEq, Eq)]
pub struct Friend {
    pub id: i32,
    pub name: String,
}

/// A `Friend` with its name as a sequence of characters.
pub struct FriendView {
    pub id: i32,
    pub name: Seq<char>,
}

impl View for Friend {
    type V = FriendView;

    open spec fn view(&self) -> FriendView {
        FriendView { id: self.id, name: self.name@ }
    }
}

impl DeepView for Friend {
    type V = FriendView;

    open spec fn deep_view(&self) -> FriendView {
        self@
    }
}

impl Clone for Friend {
    fn clone(&self) -> (copy: Self)
        ensures
            copy == *self,
    {
        Friend { id: self.id, name: self.name.clone() }
    }
}

/// How far a friend request has come.
#[allow(clippy::upper_case_acronyms)]
#[derive(Debug, Clone, Copy, PartialEq, Eq, Hash, Structural)]
pub enum FriendRequestStatus {
    WAIT,
    APPROVE,
    REJECT,
}

impl FriendRequestStatus {
    /// The status as the user reads it.
    pub open spec fn spec_label(self) -> Seq<char> {
        match self {
            FriendRequestStatus::WAIT => "等待处理"@,
            FriendRequestStatus::APPROVE => "已通过"@,
            FriendRequestStatus::REJECT => "已拒绝"@,
        }
    }

    /// The status as the user reads it.
    pub fn label(self) -> (text: String)
        ensures
            text@ == self.spec_label(),
    {
        match self {
            FriendRequestStatus::WAIT => String::from_str("等待处理"),
            FriendRequestStatus::APPROVE => String::from_str("已通过"),
            FriendRequestStatus::REJECT => String::from_str("已拒绝"),
        }
    }

    /// The status that a decision gives a request.
    pub fn from_decision(accept: bool) -> (status: Self)
        ensures
            status == Self::spec_from_decision(accept),
    {
        if accept {
            FriendRequestStatus::APPROVE
        } else {
            FriendRequestStatus::REJECT
        }
    }

    /// The status that a decision gives a request.
    pub open spec fn spec_from_decision(accept: bool) -> Self {
        if accept {
            FriendRequestStatus::APPROVE
        } else {
            FriendRequestStatus::REJECT
        }
    }
}

/// A request to become friends.
#[derive(Debug, PartialEq, Eq)]
pub struct FriendReq {
    pub id: i32,
    pub request_id: i32,
    pub request_name: String,
    /// When the request was made, in seconds since the epoch.
    pub create_time: i64,
    pub reason: Option<String>,
    pub status: FriendRequestStatus,
}

/// A `FriendReq` with its texts as sequences of characters.
pub struct FriendReqView {
    pub id: i32,
    pub request_id: i32,
    pub request_name: Seq<char>,
    pub create_time: i64,
    pub reason: Option<Seq<char>>,
    pub status: FriendRequestStatus,
}

impl View for FriendReq {
    type V = FriendReqView;

    open spec fn view(&self) -> FriendReqView {
        FriendReqView {
            id: self.id,
            request_id: self.request_id,
            request_name: self.request_name@,
            create_time: self.create_time,
            reason: self.reason.deep_view(),
            status: self.status,
        }
    }
}

impl DeepView for FriendReq {
    type V = FriendReqView;

    open spec fn deep_view(&self) -> FriendReqView {
        self@
    }
}

impl Clone for FriendReq {
    fn clone(&self) -> (copy: Self)
        ensures
            copy == *self,
    {
        FriendReq {
            id: self.id,
            request_id: self.request_id,
            request_name: self.request_name.clone(),
            create_time: self.create_time,
            reason: self.reason.clone(),
            status: self.status,
        }
    }
}


/// Where `request` goes in among `sorted`: behind every request that was
/// made no later than it.
pub open spec fn insert_position(sorted: Seq<FriendReqView>, create_time: i64) -> int
    decreases sorted.len(),
{
    if sorted.len() == 0 {
        0
    } else if sorted.last().create_time <= create_time {
        sorted.len() as int
    } else {
        insert_position(sorted.drop_last(), create_time)
    }
}

/// The requests in the order in which they were made, oldest first.
/// Requests made at the same time keep the order that they came in.
pub open spec fn sorted_by_create_time(reqs: Seq<FriendReqView>) -> Seq<FriendReqView>
    decreases reqs.len(),
{
    if reqs.len() == 0 {
        Seq::empty()
    } else {
        let front = sorted_by_create_time(reqs.drop_last());
        front.insert(insert_position(front, reqs.last().create_time), reqs.last())
    }
}

/// Whether no request stands before one that was made earlier.
pub open spec fn is_ordered_by_create_time(reqs: Seq<FriendReqView>) -> bool {
    forall|i: int, j: int| 0 <= i <= j < reqs.len() ==> reqs[i].create_time <= reqs[j].create_time
}

/// The position found lies within the sequence or right behind it; in an
/// ordered sequence, what stands before it was made no later and what
/// stands from it on was made later.
pub proof fn lemma_insert_position(sorted: Seq<FriendReqView>, create_time: i64)
    ensures
        0 <= insert_position(sorted, create_time) <= sorted.len(),
        forall|i: int|
            insert_position(sorted, create_time) <= i < sorted.len() ==> (#[trigger] sorted[i]).create_time
                > create_time,
        is_ordered_by_create_time(sorted) ==> forall|i: int|
            0 <= i < insert_position(sorted, create_time) ==> (#[trigger] sorted[i]).create_time
                <= create_time,
    decreases sorted.len(),
{
    if sorted.len() > 0 && sorted.last().create_time > create_time {
        lemma_insert_position(sorted.drop_last(), create_time);
        let front = sorted.drop_last();
        assert forall|i: int|
            insert_position(sorted, create_time) <= i < sorted.len() implies (#[trigger] sorted[i]).create_time
            > create_time by {
            if i < front.len() {
                assert(sorted[i] == front[i]);
            }
        }
        if is_ordered_by_create_time(sorted) {
            assert(is_ordered_by_create_time(front)) by {
                assert forall|i: int, j: int| 0 <= i <= j < front.len() implies front[i].create_time
                    <= front[j].create_time by {
                    assert(front[i] == sorted[i] && front[j] == sorted[j]);
                }
            }
            assert forall|i: int| 0 <= i < insert_position(sorted, create_time) implies (
            #[trigger] sorted[i]).create_time <= create_time by {
                assert(sorted[i] == front[i]);
            }
        }
    }
}

/// Sorting gives an ordered sequence that holds what was sorted: no request
/// more, none less, none changed.
pub proof fn lemma_sorted_by_create_time(reqs: Seq<FriendReqView>)
    ensures
        is_ordered_by_create_time(sorted_by_create_time(reqs)),
        sorted_by_create_time(reqs).len() == reqs.len(),
        sorted_by_create_time(reqs).to_multiset() == reqs.to_multiset(),
    decreases reqs.len(),
{
    broadcast use vstd::seq_lib::group_to_multiset_ensures;

    if reqs.len() == 0 {
        assert(sorted_by_create_time(reqs) =~= reqs);
    } else {
        let front = sorted_by_create_time(reqs.drop_last());
        let last = reqs.last();
        let at = insert_position(front, last.create_time);
        lemma_sorted_by_create_time(reqs.drop_last());
        lemma_insert_position(front, last.create_time);
        let out = front.insert(at, last);
        assert forall|i: int, j: int| 0 <= i <= j < out.len() implies out[i].create_time
            <= out[j].create_time by {
            if i < at && j > at {
                assert(out[i] == front[i] && out[j] == front[j - 1]);
            } else if i > at {
                assert(out[i] == front[i - 1] && out[j] == front[j - 1]);
            } else if j < at {
                assert(out[i] == front[i] && out[j] == front[j]);
            }
        }
        assert(out.to_multiset() == front.to_multiset().insert(last)) by {
            vstd::seq_lib::lemma_multiset_commutative(front.take(at).push(last), front.skip(at));
            vstd::seq_lib::lemma_multiset_commutative(front.take(at), front.skip(at));
            assert(out =~= front.take(at).push(last) + front.skip(at));
            assert(front =~= front.take(at) + front.skip(at));
            assert(front.take(at).push(last).to_multiset() == front.take(at).to_multiset().insert(
                last,
            ));
            assert(out.to_multiset() =~= front.to_multiset().insert(last));
        }
        assert(reqs =~= reqs.drop_last().push(last));
        assert(reqs.to_multiset() == reqs.drop_last().to_multiset().insert(last));
    }
}

/// Puts the requests in the order in which they were made, oldest first.
pub fn sort_by_create_time(reqs: Vec<FriendReq>) -> (sorted: Vec<FriendReq>)
    ensures
        sorted.deep_view() == sorted_by_create_time(reqs.deep_view()),
{
    let ghost incoming = reqs.deep_view();
    let ghost elements = reqs@;
    let mut sorted: Vec<FriendReq> = Vec::new();
    assert(sorted.deep_view() =~= sorted_by_create_time(incoming.take(0)));
    for request in it: reqs.into_iter()
        invariant
            it.seq() == elements,
            incoming.len() == elements.len(),
            forall|i: int| 0 <= i < elements.len() ==> (#[trigger] elements[i])@ == incoming[i],
            sorted.deep_view() == sorted_by_create_time(incoming.take(it.index() as int)),
    {
        let ghost k = it.index() as int;
        let ghost front = sorted.deep_view();
        assert(request@ == incoming[k]);
        assert(incoming.take(k + 1).drop_last() =~= incoming.take(k));
        let mut at: usize = sorted.len();
        assert(front.take(at as int) =~= front);
        while at > 0 && sorted[at - 1].create_time > request.create_time
            invariant
                at <= sorted.len(),
                front == sorted.deep_view(),
                insert_position(front, request.create_time) == insert_position(
                    front.take(at as int),
                    request.create_time,
                ),
            decreases at,
        {
            assert(front.take(at as int).drop_last() =~= front.take(at as int - 1));
            at = at - 1;
        }
        assert(insert_position(front, request.create_time) == at) by {
            let head = front.take(at as int);
            if at > 0 {
                assert(head.last() == front[at as int - 1]);
            }
        }
        sorted.insert(at, request);
        assert(sorted.deep_view() =~= front.insert(at as int, incoming[k]));
    }
    assert(incoming.take(incoming.len() as int) =~= incoming);
    sorted
}

} // verus!
