use crate::error::{ProviderError, Step};
use crate::instance::Instance;
use crate::size::Size;
use vstd::prelude::*;

verus! {

/// A template as listed by the provider.
pub struct TemplateRecord {
    pub id: String,
    pub name: String,
    /// The zones the template can be used in.
    pub zones: Vec<String>,
}

/// An instance type as listed by the provider; `size` is `None` for a
/// size outside the vocabulary.
pub struct InstanceTypeRecord {
    pub id: String,
    pub size: Option<Size>,
}

/// A security group as the provider holds it.
pub struct SecurityGroupRecord {
    pub id: String,
    pub name: String,
    pub external_sources: Vec<String>,
}

/// How a started instance boots.
#[derive(Clone, Copy, Debug, PartialEq, Eq, Structural)]
pub enum BootMode {
    /// The provider's standard boot.
    Standard,
    /// Network boot through EFI, for rescue.
    NetbootEfi,
    /// Network boot, for rescue.
    Netboot,
}

/// Everything an instance creation request carries.
pub struct ProvisioningSpec {
    /// The machine identity; also the instance's name.
    pub machine_id: String,
    pub template_id: String,
    pub instance_type_id: String,
    /// Disk size in GiB.
    pub disk_size: u64,
    pub security_group_id: String,
    /// Base64-encoded cloud-init document.
    pub user_data: String,
    pub auto_start: bool,
    /// Whether the instance gets a public IPv4 address.
    pub public_ipv4: bool,
}

/// A call to the provider's API.
pub enum ApiRequest {
    ListInstances,
    CreateSecurityGroup { name: String, description: String },
    AddExternalSource { group_id: String, cidr: String },
    /// An ingress TCP rule for one port.
    AddIngressRule { group_id: String, port: u16 },
    GetSecurityGroup { id: String },
    ListTemplates,
    ListInstanceTypes,
    CreateInstance(ProvisioningSpec),
    DeleteInstance { id: String },
    DeleteSecurityGroup { id: String },
    StartInstance { id: String, boot_mode: BootMode },
    StopInstance { id: String },
}

/// What came back from the last action.
pub enum Reply {
    /// The instances visible to the account.
    Instances(Vec<Instance>),
    /// A resource was created; `id` is its identity.
    Created { id: String },
    /// A security group was fetched.
    Group(SecurityGroupRecord),
    Templates(Vec<TemplateRecord>),
    InstanceTypes(Vec<InstanceTypeRecord>),
    /// The call succeeded with nothing to report.
    Accepted,
    /// The target of the call does not exist.
    Missing,
    /// The call failed with this message.
    Failed(String),
    /// A requested wait has elapsed.
    Waited,
}

/// What the caller is asked to do next.
pub enum Action {
    Call(ApiRequest),
    Wait { seconds: u64 },
    /// The operation completed.
    Done,
    /// The operation stopped on this error.
    Fail(ProviderError),
}

/// The failure that ends a step on a reply that is not its success.
pub open spec fn failure(step: Step, reply: Reply) -> ProviderError {
    match reply {
        Reply::Failed(message) => ProviderError::Transport { step, message },
        _ => ProviderError::UnexpectedReply(step),
    }
}

/// Turns a reply that is not the step's success into its failure.
pub fn fail_on(step: Step, reply: Reply) -> (r: ProviderError)
    ensures
        r == failure(step, reply),
{
    match reply {
        Reply::Failed(message) => ProviderError::Transport { step, message },
        _ => ProviderError::UnexpectedReply(step),
    }
}

/// The outcome of a call whose success carries nothing.
pub fn acknowledge(step: Step, reply: Reply) -> (r: Result<(), ProviderError>)
    ensures
        match reply {
            Reply::Accepted => r is Ok,
            _ => r == Err::<(), ProviderError>(failure(step, reply)),
        },
{
    match reply {
        Reply::Accepted => Ok(()),
        _ => Err(fail_on(step, reply)),
    }
}

/// The instances of a listing reply.
pub fn instances_of(reply: Reply) -> (r: Result<Vec<Instance>, ProviderError>)
    ensures
        match reply {
            Reply::Instances(list) => r == Ok::<Vec<Instance>, ProviderError>(list),
            _ => r == Err::<Vec<Instance>, ProviderError>(failure(Step::ListInstances, reply)),
        },
{
    match reply {
        Reply::Instances(list) => Ok(list),
        _ => Err(fail_on(Step::ListInstances, reply)),
    }
}

} // verus!
