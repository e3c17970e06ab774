use crate::api::{ApiRequest, BootMode};
use crate::error::{ProviderError, Resource};
use crate::size::same_text;
use vstd::prelude::*;

verus! {

/// An instance as listed by the provider.
pub struct Instance {
    pub id: String,
    /// The provider's state, as its own lower-case text.
    pub state: String,
    /// The label mapping, one entry per key.
    pub labels: Vec<(String, String)>,
    pub public_ip: Option<String>,
    /// The identities of the security groups the instance belongs to.
    pub security_groups: Vec<String>,
}

/// How an instance is tied to a machine identity through its labels.
#[derive(Clone, Copy, Debug, PartialEq, Eq, Structural)]
pub enum LabelRule {
    /// `devpod_instance` is `true` and `devpod_instance_id` is the identity.
    MarkerAndId,
    /// `devpod_instance_id` is the identity.
    IdOnly,
}

/// The machine identity and the rule that ties instances to it.
pub struct Identity {
    pub machine_id: String,
    pub rule: LabelRule,
}

pub open spec fn marker_key() -> Seq<char> {
    "devpod_instance"@
}

pub open spec fn marker_value() -> Seq<char> {
    "true"@
}

pub open spec fn id_key() -> Seq<char> {
    "devpod_instance_id"@
}

pub open spec fn has_label(labels: Seq<(String, String)>, key: Seq<char>, value: Seq<char>) -> bool {
    exists|i: int| 0 <= i < labels.len() && labels[i].0@ == key && labels[i].1@ == value
}

/// Whether an instance belongs to the machine identity.
pub open spec fn correlates(inst: Instance, machine_id: Seq<char>, rule: LabelRule) -> bool {
    &&& has_label(inst.labels@, id_key(), machine_id)
    &&& rule == LabelRule::MarkerAndId ==> has_label(inst.labels@, marker_key(), marker_value())
}

/// Whether `i` is the first instance in listing order that belongs to the
/// identity.
pub open spec fn first_correlating(instances: Seq<Instance>, identity: Identity, i: int) -> bool {
    &&& 0 <= i < instances.len()
    &&& correlates(instances[i], identity.machine_id@, identity.rule)
    &&& forall|j: int|
        0 <= j < i ==> !correlates(#[trigger] instances[j], identity.machine_id@, identity.rule)
}

/// The instance of the identity: the first that correlates, if any.
pub open spec fn located(instances: Seq<Instance>, identity: Identity) -> Option<int> {
    if exists|i: int| first_correlating(instances, identity, i) {
        Some(choose|i: int| first_correlating(instances, identity, i))
    } else {
        None
    }
}

pub proof fn lemma_first_correlating_unique(instances: Seq<Instance>, identity: Identity, i: int)
    requires
        first_correlating(instances, identity, i),
    ensures
        located(instances, identity) == Some(i),
{
    let k = choose|k: int| first_correlating(instances, identity, k);
    if k < i {
        assert(!correlates(instances[k], identity.machine_id@, identity.rule));
    } else if i < k {
        assert(!correlates(instances[i], identity.machine_id@, identity.rule));
    }
}

/// Whether the labels hold `key` with `value`.
pub fn find_label(labels: &Vec<(String, String)>, key: &str, value: &str) -> (r: bool)
    ensures
        r == has_label(labels@, key@, value@),
{
    let mut i: usize = 0;
    while i < labels.len()
        invariant
            i <= labels@.len(),
            forall|j: int| 0 <= j < i ==> !(labels@[j].0@ == key@ && labels@[j].1@ == value@),
        decreases labels@.len() - i,
    {
        if same_text(labels[i].0.as_str(), key) && same_text(labels[i].1.as_str(), value) {
            return true;
        }
        i = i + 1;
    }
    false
}

/// Whether an instance belongs to the identity.
pub fn is_devpod_instance(inst: &Instance, identity: &Identity) -> (r: bool)
    ensures
        r == correlates(*inst, identity.machine_id@, identity.rule),
{
    if !find_label(&inst.labels, "devpod_instance_id", identity.machine_id.as_str()) {
        return false;
    }
    match identity.rule {
        LabelRule::MarkerAndId => find_label(&inst.labels, "devpod_instance", "true"),
        LabelRule::IdOnly => true,
    }
}

/// Finds the instance of the identity: the first in listing order that
/// correlates with it. Where exactly one correlates, that one is returned.
pub fn locate(instances: &Vec<Instance>, identity: &Identity) -> (r: Result<usize, ProviderError>)
    ensures
        match r {
            Ok(i) => located(instances@, *identity) == Some(i as int),
            Err(e) => located(instances@, *identity) is None && e == ProviderError::NotFound(
                Resource::Instance,
            ),
        },
        located(instances@, *identity) is None <==> forall|j: int|
            0 <= j < instances@.len() ==> !correlates(
                #[trigger] instances@[j],
                identity.machine_id@,
                identity.rule,
            ),
        forall|k: int|
            0 <= k < instances@.len() && correlates(
                #[trigger] instances@[k],
                identity.machine_id@,
                identity.rule,
            ) && (forall|j: int|
                0 <= j < instances@.len() && j != k ==> !correlates(
                    #[trigger] instances@[j],
                    identity.machine_id@,
                    identity.rule,
                )) ==> r == Ok::<usize, ProviderError>(k as usize),
{
    let mut i: usize = 0;
    while i < instances.len()
        invariant
            i <= instances@.len(),
            forall|j: int|
                0 <= j < i ==> !correlates(
                    #[trigger] instances@[j],
                    identity.machine_id@,
                    identity.rule,
                ),
        decreases instances@.len() - i,
    {
        if is_devpod_instance(&instances[i], identity) {
            proof {
                lemma_first_correlating_unique(instances@, *identity, i as int);
                assert forall|k: int|
                    0 <= k < instances@.len() && correlates(
                        #[trigger] instances@[k],
                        identity.machine_id@,
                        identity.rule,
                    ) && (forall|j: int|
                        0 <= j < instances@.len() && j != k ==> !correlates(
                            #[trigger] instances@[j],
                            identity.machine_id@,
                            identity.rule,
                        )) implies k == i by {
                    if k != i {
                        assert(!correlates(instances@[i as int], identity.machine_id@, identity.rule));
                    }
                }
            }
            return Ok(i);
        }
        i = i + 1;
    }
    proof {
        if exists|i: int| first_correlating(instances@, *identity, i) {
            let k = choose|i: int| first_correlating(instances@, *identity, i);
            assert(!correlates(instances@[k], identity.machine_id@, identity.rule));
        }
    }
    Err(ProviderError::NotFound(Resource::Instance))
}

/// The normalised status of an instance.
#[derive(Clone, Copy, Debug, PartialEq, Eq, Structural)]
pub enum StatusToken {
    Running,
    Stopped,
    Busy,
    NotFound,
    Error,
}

impl StatusToken {
    pub open spec fn text(self) -> Seq<char> {
        match self {
            StatusToken::Running => "Running"@,
            StatusToken::Stopped => "Stopped"@,
            StatusToken::Busy => "Busy"@,
            StatusToken::NotFound => "NotFound"@,
            StatusToken::Error => "Error"@,
        }
    }

    /// The printable token.
    pub fn as_str(&self) -> (r: &'static str)
        ensures
            r@ == self.text(),
    {
        match self {
            StatusToken::Running => "Running",
            StatusToken::Stopped => "Stopped",
            StatusToken::Busy => "Busy",
            StatusToken::NotFound => "NotFound",
            StatusToken::Error => "Error",
        }
    }
}

/// The token of a provider state. A state outside the recognised ones
/// gives `NotFound`.
pub open spec fn status_of(state: Seq<char>) -> StatusToken {
    if state == "running"@ {
        StatusToken::Running
    } else if state == "stopped"@ {
        StatusToken::Stopped
    } else if state == "busy"@ {
        StatusToken::Busy
    } else if state == "error"@ {
        StatusToken::Error
    } else {
        StatusToken::NotFound
    }
}

/// Every provider state has exactly one token, and every state outside
/// the recognised ones has the same one, `NotFound`.
pub proof fn lemma_status_total(state: Seq<char>)
    ensures
        state != "running"@ && state != "stopped"@ && state != "busy"@ && state != "error"@
            ==> status_of(state) == StatusToken::NotFound,
        state == "running"@ ==> status_of(state) == StatusToken::Running,
        state == "stopped"@ ==> status_of(state) == StatusToken::Stopped,
        state == "busy"@ ==> status_of(state) == StatusToken::Busy,
        state == "error"@ ==> status_of(state) == StatusToken::Error,
{
    reveal_strlit("running");
    reveal_strlit("stopped");
    reveal_strlit("busy");
    reveal_strlit("error");
    assert("running"@[0] != "stopped"@[0]);
    assert("running"@[0] != "busy"@[0]);
    assert("running"@[0] != "error"@[0]);
    assert("stopped"@[0] != "busy"@[0]);
    assert("stopped"@[0] != "error"@[0]);
    assert("busy"@[0] != "error"@[0]);
}

/// Normalises a provider state.
pub fn status_of_state(state: &str) -> (r: StatusToken)
    ensures
        r == status_of(state@),
{
    if same_text(state, "running") {
        StatusToken::Running
    } else if same_text(state, "stopped") {
        StatusToken::Stopped
    } else if same_text(state, "busy") {
        StatusToken::Busy
    } else if same_text(state, "error") {
        StatusToken::Error
    } else {
        StatusToken::NotFound
    }
}

/// Starting the instance of an identity.
pub struct Start {
    pub boot_mode: BootMode,
}

/// Stopping the instance of an identity.
pub struct Stop {}

/// Querying the status of the instance of an identity.
pub struct Status {}

impl Start {
    /// The start request for the identity's instance, from a fresh listing.
    pub fn request(&self, instances: &Vec<Instance>, identity: &Identity) -> (r: Result<
        ApiRequest,
        ProviderError,
    >)
        ensures
            match r {
                Ok(req) => located(instances@, *identity) matches Some(i) && req
                    == (ApiRequest::StartInstance {
                    id: instances@[i].id,
                    boot_mode: self.boot_mode,
                }),
                Err(e) => located(instances@, *identity) is None && e
                    == ProviderError::NotFound(Resource::Instance),
            },
    {
        let i = locate(instances, identity)?;
        Ok(ApiRequest::StartInstance { id: instances[i].id.clone(), boot_mode: self.boot_mode })
    }
}

impl Stop {
    /// The stop request for the identity's instance, from a fresh listing.
    pub fn request(&self, instances: &Vec<Instance>, identity: &Identity) -> (r: Result<
        ApiRequest,
        ProviderError,
    >)
        ensures
            match r {
                Ok(req) => located(instances@, *identity) matches Some(i) && req
                    == (ApiRequest::StopInstance { id: instances@[i].id }),
                Err(e) => located(instances@, *identity) is None && e
                    == ProviderError::NotFound(Resource::Instance),
            },
    {
        let i = locate(instances, identity)?;
        Ok(ApiRequest::StopInstance { id: instances[i].id.clone() })
    }
}

impl Status {
    /// The status of the identity's instance, from a fresh listing.
    pub fn token(&self, instances: &Vec<Instance>, identity: &Identity) -> (r: Result<
        StatusToken,
        ProviderError,
    >)
        ensures
            match r {
                Ok(t) => located(instances@, *identity) matches Some(i) && t == status_of(
                    instances@[i].state@,
                ),
                Err(e) => located(instances@, *identity) is None && e
                    == ProviderError::NotFound(Resource::Instance),
            },
    {
        let i = locate(instances, identity)?;
        Ok(status_of_state(instances[i].state.as_str()))
    }
}

} // verus!
