use crate::api::{fail_on, failure, Action, ApiRequest, Reply};
use crate::error::{ProviderError, Resource, Step};
use crate::instance::{locate, located, Identity, Instance};
use vstd::prelude::*;

verus! {

/// Seconds to wait between deleting the instance and deleting its
/// security group, while the provider finishes the first deletion.
pub const SETTLE_SECONDS: u64 = 10;

/// Where a teardown stands.
pub enum DeletePhase {
    /// Waiting for the instance listing.
    Listing,
    /// Waiting for the instance deletion; `group` is the security group
    /// to delete after it.
    DeletingInstance { group: Option<String> },
    /// Waiting out the settle interval.
    Settling { group_id: String },
    /// Waiting for the security group deletion.
    DeletingGroup,
    Finished,
    Failed,
}

/// The teardown of the identity's instance and of its security group:
/// list, delete the instance, wait the settle interval, delete the group.
pub struct Delete {
    pub identity: Identity,
    pub phase: DeletePhase,
}

/// The security group that a teardown removes with an instance: its first.
pub open spec fn first_group(inst: Instance) -> Option<String> {
    if inst.security_groups@.len() > 0 {
        Some(inst.security_groups@[0])
    } else {
        None
    }
}

impl Delete {
    /// A teardown for the identity, and its first action: list the
    /// instances.
    pub fn new(identity: Identity) -> (r: (Delete, Action))
        ensures
            r.0.identity == identity,
            r.0.phase is Listing,
            r.1 == Action::Call(ApiRequest::ListInstances),
    {
        (Delete { identity, phase: DeletePhase::Listing }, Action::Call(ApiRequest::ListInstances))
    }

    pub open spec fn is_terminal(self) -> bool {
        self.phase is Finished || self.phase is Failed
    }

    /// The next phase and action, given the reply to the last action.
    pub open spec fn step(self, reply: Reply) -> (DeletePhase, Action) {
        match self.phase {
            DeletePhase::Listing => match reply {
                Reply::Instances(list) => match located(list@, self.identity) {
                    Some(i) => (
                        DeletePhase::DeletingInstance { group: first_group(list@[i]) },
                        Action::Call(ApiRequest::DeleteInstance { id: list@[i].id }),
                    ),
                    None => (
                        DeletePhase::Failed,
                        Action::Fail(ProviderError::NotFound(Resource::Instance)),
                    ),
                },
                _ => (DeletePhase::Failed, Action::Fail(failure(Step::ListInstances, reply))),
            },
            DeletePhase::DeletingInstance { group } => match reply {
                Reply::Accepted => match group {
                    Some(g) => (
                        DeletePhase::Settling { group_id: g },
                        Action::Wait { seconds: SETTLE_SECONDS },
                    ),
                    None => (DeletePhase::Finished, Action::Done),
                },
                Reply::Missing => (
                    DeletePhase::Failed,
                    Action::Fail(ProviderError::NotFound(Resource::Instance)),
                ),
                _ => (DeletePhase::Failed, Action::Fail(failure(Step::DeleteInstance, reply))),
            },
            DeletePhase::Settling { group_id } => match reply {
                Reply::Waited => (
                    DeletePhase::DeletingGroup,
                    Action::Call(ApiRequest::DeleteSecurityGroup { id: group_id }),
                ),
                _ => (DeletePhase::Failed, Action::Fail(failure(Step::Settle, reply))),
            },
            DeletePhase::DeletingGroup => match reply {
                Reply::Accepted | Reply::Missing => (DeletePhase::Finished, Action::Done),
                _ => (
                    DeletePhase::Failed,
                    Action::Fail(failure(Step::DeleteSecurityGroup, reply)),
                ),
            },
            DeletePhase::Finished => (DeletePhase::Finished, Action::Done),
            DeletePhase::Failed => (DeletePhase::Failed, Action::Done),
        }
    }

    /// Advances the teardown on the reply to its last action. A security
    /// group that is already gone counts as deleted.
    pub fn next(&mut self, reply: Reply) -> (a: Action)
        requires
            !old(self).is_terminal(),
        ensures
            final(self).identity == old(self).identity,
            (final(self).phase, a) == old(self).step(reply),
    {
        let mut phase = DeletePhase::Failed;
        std::mem::swap(&mut self.phase, &mut phase);
        match phase {
            DeletePhase::Listing => match reply {
                Reply::Instances(list) => match locate(&list, &self.identity) {
                    Ok(i) => {
                        let inst = &list[i];
                        let group = if inst.security_groups.len() > 0 {
                            Some(inst.security_groups[0].clone())
                        } else {
                            None
                        };
                        self.phase = DeletePhase::DeletingInstance { group };
                        Action::Call(ApiRequest::DeleteInstance { id: inst.id.clone() })
                    },
                    Err(e) => Action::Fail(e),
                },
                _ => Action::Fail(fail_on(Step::ListInstances, reply)),
            },
            DeletePhase::DeletingInstance { group } => match reply {
                Reply::Accepted => match group {
                    Some(g) => {
                        self.phase = DeletePhase::Settling { group_id: g };
                        Action::Wait { seconds: SETTLE_SECONDS }
                    },
                    None => {
                        self.phase = DeletePhase::Finished;
                        Action::Done
                    },
                },
                Reply::Missing => Action::Fail(ProviderError::NotFound(Resource::Instance)),
                _ => Action::Fail(fail_on(Step::DeleteInstance, reply)),
            },
            DeletePhase::Settling { group_id } => match reply {
                Reply::Waited => {
                    self.phase = DeletePhase::DeletingGroup;
                    Action::Call(ApiRequest::DeleteSecurityGroup { id: group_id })
                },
                _ => Action::Fail(fail_on(Step::Settle, reply)),
            },
            DeletePhase::DeletingGroup => match reply {
                Reply::Accepted | Reply::Missing => {
                    self.phase = DeletePhase::Finished;
                    Action::Done
                },
                _ => Action::Fail(fail_on(Step::DeleteSecurityGroup, reply)),
            },
            DeletePhase::Finished | DeletePhase::Failed => Action::Done,
        }
    }
}

/// The actions a teardown takes on a run of replies, until it ends.
pub open spec fn delete_run(d: Delete, replies: Seq<Reply>) -> Seq<Action>
    decreases replies.len(),
{
    if replies.len() == 0 || d.is_terminal() {
        Seq::empty()
    } else {
        let (phase, a) = d.step(replies[0]);
        seq![a] + delete_run(Delete { phase, ..d }, replies.drop_first())
    }
}

pub open spec fn deletes_instance(a: Action) -> bool {
    a matches Action::Call(ApiRequest::DeleteInstance { .. })
}

pub open spec fn deletes_group(a: Action) -> bool {
    a matches Action::Call(ApiRequest::DeleteSecurityGroup { .. })
}

/// How many actions separate a phase from the group deletion.
pub open spec fn rank(p: DeletePhase) -> int {
    match p {
        DeletePhase::Listing => 0,
        DeletePhase::DeletingInstance { .. } => 1,
        DeletePhase::Settling { .. } => 2,
        DeletePhase::DeletingGroup => 3,
        _ => 4,
    }
}

proof fn lemma_order_from(d: Delete, replies: Seq<Reply>)
    requires
        !d.is_terminal(),
    ensures
        forall|k: int|
            0 <= k < delete_run(d, replies).len() && deletes_group(
                #[trigger] delete_run(d, replies)[k],
            ) ==> {
                &&& k + rank(d.phase) == 2
                &&& rank(d.phase) == 0 ==> deletes_instance(delete_run(d, replies)[0])
                &&& rank(d.phase) <= 1 ==> delete_run(d, replies)[1 - rank(d.phase)]
                    == Action::Wait { seconds: SETTLE_SECONDS }
            },
    decreases replies.len(),
{
    if replies.len() > 0 {
        let (phase, a) = d.step(replies[0]);
        let next = Delete { phase, ..d };
        let rest = replies.drop_first();
        let run = delete_run(d, replies);
        assert(run == seq![a] + delete_run(next, rest));
        if !next.is_terminal() {
            lemma_order_from(next, rest);
            assert(rank(next.phase) == rank(d.phase) + 1);
        } else {
            assert(delete_run(next, rest) == Seq::<Action>::empty());
        }
    }
}

/// A teardown deletes the security group only as its third action after
/// the listing: after deleting the instance and then waiting the settle
/// interval.
pub proof fn lemma_group_deleted_after_instance(identity: Identity, replies: Seq<Reply>)
    ensures
        ({
            let run = delete_run(Delete { identity, phase: DeletePhase::Listing }, replies);
            forall|k: int|
                0 <= k < run.len() && deletes_group(#[trigger] run[k]) ==> {
                    &&& k == 2
                    &&& deletes_instance(run[0])
                    &&& run[1] == Action::Wait { seconds: SETTLE_SECONDS }
                }
        }),
{
    lemma_order_from(Delete { identity, phase: DeletePhase::Listing }, replies);
}

/// The full teardown of a located instance that has a security group:
/// the instance is deleted, the settle interval waited, then the group is
/// deleted, and the teardown completes whether the group was still there
/// or already gone.
pub proof fn lemma_delete_sequence(identity: Identity, list: Vec<Instance>, last: Reply)
    requires
        located(list@, identity) is Some,
        list@[located(list@, identity)->0].security_groups@.len() > 0,
        last is Accepted || last is Missing,
    ensures
        ({
            let inst = list@[located(list@, identity)->0];
            delete_run(
                Delete { identity, phase: DeletePhase::Listing },
                seq![Reply::Instances(list), Reply::Accepted, Reply::Waited, last],
            ) == seq![
                Action::Call(ApiRequest::DeleteInstance { id: inst.id }),
                Action::Wait { seconds: SETTLE_SECONDS },
                Action::Call(ApiRequest::DeleteSecurityGroup { id: inst.security_groups@[0] }),
                Action::Done,
            ]
        }),
{
    let replies = seq![Reply::Instances(list), Reply::Accepted, Reply::Waited, last];
    let d0 = Delete { identity, phase: DeletePhase::Listing };
    let (p1, a1) = d0.step(replies[0]);
    let d1 = Delete { phase: p1, ..d0 };
    let (p2, a2) = d1.step(replies[1]);
    let d2 = Delete { phase: p2, ..d0 };
    let (p3, a3) = d2.step(replies[2]);
    let d3 = Delete { phase: p3, ..d0 };
    let (p4, a4) = d3.step(replies[3]);
    let d4 = Delete { phase: p4, ..d0 };
    assert(replies.drop_first() =~= seq![Reply::Accepted, Reply::Waited, last]);
    assert(replies.drop_first().drop_first() =~= seq![Reply::Waited, last]);
    assert(replies.drop_first().drop_first().drop_first() =~= seq![last]);
    assert(replies.drop_first().drop_first().drop_first().drop_first() =~= Seq::<Reply>::empty());
    assert(delete_run(d4, Seq::<Reply>::empty()) == Seq::<Action>::empty());
    assert(delete_run(d3, seq![last]) =~= seq![a4]);
    assert(delete_run(d2, seq![Reply::Waited, last]) =~= seq![a3, a4]);
    assert(delete_run(d1, seq![Reply::Accepted, Reply::Waited, last]) =~= seq![a2, a3, a4]);
    assert(delete_run(d0, replies) =~= seq![a1, a2, a3, a4]);
}

} // verus!
