use vstd::prelude::*;
use crate::address::{Address, LOCAL, is_random_local, random_address};
use crate::label::{
    Ftype, Role, label, label_of, label_prefix, label_suffix, lemma_label_identifies,
    lemma_labels_differ_in_tag_only, role_order,
};

verus! {

/// Why no bundle came out.
#[derive(Clone, Copy, Debug, PartialEq, Eq, Structural)]
pub enum BundleError {
    /// The allocator had no address for the label of this role.
    Exhausted(Role),
}

/// The four addresses of one forwarder, one for each role, fixed once the
/// bundle is made.
#[derive(Debug)]
pub struct Addresses {
    main_remote: Address,
    main_internal: Address,
    heartbeat: Address,
    completion_callback: Address,
}

impl View for Addresses {
    type V = Seq<(u8, Seq<u8>)>;

    /// The addresses, in the order of `role_order`.
    closed spec fn view(&self) -> Seq<(u8, Seq<u8>)> {
        seq![
            self.main_remote@,
            self.main_internal@,
            self.heartbeat@,
            self.completion_callback@,
        ]
    }
}

/// Whether the allocator may give this reply when asked with the label of
/// this role.
pub open spec fn answers<F: Fn(String) -> Option<Address>>(
    alloc: F,
    ftype: Ftype,
    role: Role,
    reply: Option<Address>,
) -> bool {
    exists|hint: String|
        hint@ == label_of(ftype, role) && #[trigger] call_ensures(alloc, (hint,), reply)
}

/// Whether the replies form one run of requests: one request per role, in
/// role order, up to and including the first refusal, and no more than four.
pub open spec fn is_run(replies: Seq<Option<Address>>) -> bool {
    &&& 1 <= replies.len() <= 4
    &&& forall|i: int| 0 <= i < replies.len() - 1 ==> (#[trigger] replies[i]) is Some
    &&& replies.len() < 4 ==> replies.last() is None
}

/// Whether the allocator may have given these replies to the requests of a
/// run, each made with the label of its role.
pub open spec fn answered<F: Fn(String) -> Option<Address>>(
    alloc: F,
    ftype: Ftype,
    replies: Seq<Option<Address>>,
) -> bool {
    forall|i: int| 0 <= i < replies.len() ==> answers(alloc, ftype, role_order()[i], #[trigger] replies[i])
}

/// What a run of replies comes to: where all four were granted, the bundle
/// of exactly those addresses in role order; else the error that names the
/// role whose request was refused.
pub open spec fn yields(r: Result<Addresses, BundleError>, replies: Seq<Option<Address>>) -> bool {
    match r {
        Ok(b) => {
            &&& replies.len() == 4
            &&& replies.last() is Some
            &&& b@ == seq![
                replies[0]->Some_0@,
                replies[1]->Some_0@,
                replies[2]->Some_0@,
                replies[3]->Some_0@,
            ]
        },
        Err(e) => {
            &&& replies.last() is None
            &&& e == BundleError::Exhausted(role_order()[replies.len() - 1])
        },
    }
}

/// What building a bundle with the allocator may come to: the outcome of
/// one run of requests that it answered.
pub open spec fn generated_by<F: Fn(String) -> Option<Address>>(
    alloc: F,
    ftype: Ftype,
    r: Result<Addresses, BundleError>,
) -> bool {
    exists|replies: Seq<Option<Address>>|
        #[trigger] is_run(replies) && answered(alloc, ftype, replies) && yields(r, replies)
}

/// Whether the allocator never hands out addresses that are the same for
/// two different hints.
pub open spec fn issues_unique<F: Fn(String) -> Option<Address>>(alloc: F) -> bool {
    forall|h1: String, h2: String, a1: Address, a2: Address|
        h1@ != h2@ && #[trigger] call_ensures(alloc, (h1,), Some(a1)) && #[trigger] call_ensures(
            alloc,
            (h2,),
            Some(a2),
        ) ==> a1@ != a2@
}

/// Asks the allocator once, with the label of the role.
fn request<F: Fn(String) -> Option<Address>>(ftype: Ftype, role: Role, alloc: &F) -> (r: Option<
    Address,
>)
    requires
        forall|hint: String| call_requires(*alloc, (hint,)),
    ensures
        answers(*alloc, ftype, role, r),
{
    let hint = label(ftype, role);
    let ghost h = hint;
    let r = alloc(hint);
    assert(call_ensures(*alloc, (h,), r));
    r
}

impl Addresses {
    /// Builds a bundle for a forwarder of the given kind: asks the
    /// allocator for one address per role, with the role's label as hint,
    /// in role order, and stops at the first refusal. The addresses are
    /// kept as the allocator handed them out; no bundle comes out unless
    /// all four requests were granted.
    pub fn generate_with<F: Fn(String) -> Option<Address>>(ftype: Ftype, alloc: F) -> (r: Result<
        Addresses,
        BundleError,
    >)
        requires
            forall|hint: String| call_requires(alloc, (hint,)),
        ensures
            generated_by(alloc, ftype, r),
    {
        let r0 = request(ftype, Role::MainRemote, &alloc);
        let ghost replies = seq![r0];
        let main_remote = match r0 {
            Some(a) => a,
            None => {
                assert(is_run(replies) && answered(alloc, ftype, replies));
                return Err(BundleError::Exhausted(Role::MainRemote));
            },
        };
        let r1 = request(ftype, Role::MainInternal, &alloc);
        let ghost replies = seq![r0, r1];
        let main_internal = match r1 {
            Some(a) => a,
            None => {
                assert(is_run(replies) && answered(alloc, ftype, replies));
                return Err(BundleError::Exhausted(Role::MainInternal));
            },
        };
        let r2 = request(ftype, Role::Heartbeat, &alloc);
        let ghost replies = seq![r0, r1, r2];
        let heartbeat = match r2 {
            Some(a) => a,
            None => {
                assert(is_run(replies) && answered(alloc, ftype, replies));
                return Err(BundleError::Exhausted(Role::Heartbeat));
            },
        };
        let r3 = request(ftype, Role::Child, &alloc);
        let ghost replies = seq![r0, r1, r2, r3];
        let completion_callback = match r3 {
            Some(a) => a,
            None => {
                assert(is_run(replies) && answered(alloc, ftype, replies));
                return Err(BundleError::Exhausted(Role::Child));
            },
        };
        let b = Addresses { main_remote, main_internal, heartbeat, completion_callback };
        assert(is_run(replies) && answered(alloc, ftype, replies));
        assert(yields(Ok::<Addresses, BundleError>(b), replies));
        Ok(b)
    }

    /// Builds a bundle for a forwarder of the given kind from four fresh
    /// random local addresses, drawn in role order.
    pub fn generate(ftype: Ftype) -> (b: Addresses)
        ensures
            b@.len() == 4,
            forall|i: int| 0 <= i < 4 ==> is_random_local(#[trigger] b@[i]),
    {
        let draw = |hint: String| -> (a: Option<Address>)
            ensures
                a matches Some(x) && is_random_local(x@),
            { Some(random_address(LOCAL)) };
        let r = Addresses::generate_with(ftype, draw);
        proof {
            let replies = choose|replies: Seq<Option<Address>>|
                #[trigger] is_run(replies) && answered(draw, ftype, replies) && yields(r, replies);
            assert forall|i: int| 0 <= i < replies.len() implies {
                &&& (#[trigger] replies[i]) is Some
                &&& is_random_local(replies[i]->Some_0@)
            } by {
                assert(answers(draw, ftype, role_order()[i], replies[i]));
                let hint = choose|hint: String|
                    hint@ == label_of(ftype, role_order()[i]) && #[trigger] call_ensures(
                        draw,
                        (hint,),
                        replies[i],
                    );
                assert(call_ensures(draw, (hint,), replies[i]));
            }
            assert(replies[replies.len() - 1] is Some);
        }
        match r {
            Ok(b) => b,
            Err(_) => vstd::pervasive::unreached(),
        }
    }
}

impl Addresses {
    /// The address by which the remote service reaches the forwarder.
    pub fn main_remote(&self) -> (r: &Address)
        ensures
            r@ == self@[0],
    {
        &self.main_remote
    }

    /// The address by which other actors of the node reach the forwarder.
    pub fn main_internal(&self) -> (r: &Address)
        ensures
            r@ == self@[1],
    {
        &self.main_internal
    }

    /// The address that receives heartbeats.
    pub fn heartbeat(&self) -> (r: &Address)
        ensures
            r@ == self@[2],
    {
        &self.heartbeat
    }

    /// The address that receives the completion callback.
    pub fn completion_callback(&self) -> (r: &Address)
        ensures
            r@ == self@[3],
    {
        &self.completion_callback
    }
}

/// Where the allocator never hands out one address for two different
/// hints, every bundle built with it holds four pairwise distinct addresses:
/// the roles' labels all differ.
pub proof fn lemma_distinct_from_allocator<F: Fn(String) -> Option<Address>>(
    alloc: F,
    ftype: Ftype,
    r: Result<Addresses, BundleError>,
)
    requires
        generated_by(alloc, ftype, r),
        issues_unique(alloc),
        r is Ok,
    ensures
        r->Ok_0@.len() == 4,
        r->Ok_0@.no_duplicates(),
{
    let b = r->Ok_0;
    let replies = choose|replies: Seq<Option<Address>>|
        #[trigger] is_run(replies) && answered(alloc, ftype, replies) && yields(r, replies);
    assert forall|i: int, j: int| 0 <= i < 4 && 0 <= j < 4 && i != j implies b@[i] != b@[j] by {
        assert(answers(alloc, ftype, role_order()[i], replies[i]));
        assert(answers(alloc, ftype, role_order()[j], replies[j]));
        let hi = choose|hint: String|
            hint@ == label_of(ftype, role_order()[i]) && #[trigger] call_ensures(alloc, (hint,), replies[i]);
        let hj = choose|hint: String|
            hint@ == label_of(ftype, role_order()[j]) && #[trigger] call_ensures(alloc, (hint,), replies[j]);
        if hi@ == hj@ {
            lemma_label_identifies(ftype, role_order()[i], ftype, role_order()[j]);
        }
        assert(call_ensures(alloc, (hi,), Some(replies[i]->Some_0)));
        assert(call_ensures(alloc, (hj,), Some(replies[j]->Some_0)));
    }
}

/// A bundle is made whole or not at all: where the third request of a run
/// is refused, the run ends there, the fourth request is never made, and
/// the outcome is the heartbeat role's error, with no bundle.
pub proof fn lemma_all_or_nothing(r: Result<Addresses, BundleError>, replies: Seq<Option<Address>>)
    requires
        is_run(replies),
        yields(r, replies),
        replies.len() >= 3,
        replies[2] is None,
    ensures
        replies.len() == 3,
        r == Err::<Addresses, BundleError>(BundleError::Exhausted(Role::Heartbeat)),
{
    if replies.len() == 4 {
        assert(replies[2] is Some);
    }
}

/// The i-th request of a run is made with a hint that is the common label
/// prefix, the kind's tag and the i-th role's suffix: for two runs of one
/// kind the hints agree, and for two kinds they differ in the tag alone.
pub proof fn lemma_request_hints<F: Fn(String) -> Option<Address>, G: Fn(String) -> Option<Address>>(
    alloc1: F,
    k1: Ftype,
    replies1: Seq<Option<Address>>,
    alloc2: G,
    k2: Ftype,
    replies2: Seq<Option<Address>>,
    i: int,
)
    requires
        is_run(replies1),
        answered(alloc1, k1, replies1),
        is_run(replies2),
        answered(alloc2, k2, replies2),
        0 <= i < replies1.len(),
        0 <= i < replies2.len(),
    ensures
        exists|h1: String, h2: String|
            {
                &&& h1@ == label_prefix() + k1.tag() + label_suffix(role_order()[i])
                &&& h2@ == label_prefix() + k2.tag() + label_suffix(role_order()[i])
                &&& #[trigger] call_ensures(alloc1, (h1,), replies1[i])
                &&& #[trigger] call_ensures(alloc2, (h2,), replies2[i])
            },
        k1 == k2 ==> label_of(k1, role_order()[i]) == label_of(k2, role_order()[i]),
        k1 != k2 ==> k1.tag() != k2.tag(),
{
    assert(answers(alloc1, k1, role_order()[i], replies1[i]));
    assert(answers(alloc2, k2, role_order()[i], replies2[i]));
    if k1 != k2 {
        lemma_labels_differ_in_tag_only(k1, k2, role_order()[i]);
    }
}

} // verus!
