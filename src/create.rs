use crate::api::{
    fail_on, failure, Action, ApiRequest, InstanceTypeRecord, ProvisioningSpec, Reply,
    TemplateRecord,
};
use crate::error::{ProviderError, Resource, Setting, Step};
use crate::health::SSH_PORT;
use crate::instance::{correlates, id_key, marker_key, marker_value, Instance, LabelRule};
use crate::lookup::{first_where, lemma_first_where, lemma_first_where_none};
use crate::options::Options;
use crate::size::{map_str_to_size, same_text, size_of_token, Size};
use base64::Engine as _;
use vstd::prelude::*;

verus! {

/// Appended to the machine identity to name its security group.
pub const GROUP_SUFFIX: &'static str = "-sg";

pub const GROUP_DESCRIPTION: &'static str = "Security group for devpod instance";

/// The external source the security group admits.
pub const OPEN_CIDR: &'static str = "0.0.0.0/0";

/// The cloud-init document up to the authorised public key.
pub const CLOUD_CONFIG_HEAD: &'static str = "#cloud-config\nusers:\n- name: devpod\n  shell: /bin/bash\n  groups: [ sudo, docker ]\n  ssh_authorized_keys:\n  - ";

/// The cloud-init document after the authorised public key.
pub const CLOUD_CONFIG_TAIL: &'static str = "\n  sudo: [ \"ALL=(ALL) NOPASSWD:ALL\" ]\n";

// ---------------------------------------------------------------- parsing

pub open spec fn is_digit(c: char) -> bool {
    '0' <= c <= '9'
}

pub open spec fn decimal_value(s: Seq<char>) -> int
    decreases s.len(),
{
    if s.len() == 0 {
        0
    } else {
        decimal_value(s.drop_last()) * 10 + (s.last() as int - '0' as int)
    }
}

/// The number a text of decimal digits writes, if it is one that fits in
/// a `u64`.
pub open spec fn parse_decimal(s: Seq<char>) -> Option<u64> {
    if s.len() > 0 && (forall|i: int| 0 <= i < s.len() ==> is_digit(#[trigger] s[i]))
        && decimal_value(s) <= u64::MAX {
        Some(decimal_value(s) as u64)
    } else {
        None
    }
}

/// Reads a disk size written in decimal digits.
pub fn parse_disk_size(s: &str) -> (r: Option<u64>)
    ensures
        r == parse_decimal(s@),
{
    let n = s.unicode_len();
    if n == 0 {
        return None;
    }
    let mut acc: u64 = 0;
    let mut overflow = false;
    let mut i: usize = 0;
    while i < n
        invariant
            n == s@.len(),
            i <= n,
            forall|j: int| 0 <= j < i ==> is_digit(#[trigger] s@[j]),
            !overflow ==> acc == decimal_value(s@.subrange(0, i as int)),
            overflow ==> decimal_value(s@.subrange(0, i as int)) > u64::MAX,
        decreases n - i,
    {
        let c = s.get_char(i);
        if !('0' <= c && c <= '9') {
            return None;
        }
        let d = (c as u32 - '0' as u32) as u64;
        assert(s@.subrange(0, i + 1).drop_last() == s@.subrange(0, i as int));
        proof {
            let v = decimal_value(s@.subrange(0, i as int));
            assert(decimal_value(s@.subrange(0, i + 1)) == v * 10 + d);
            if overflow {
                assert(v * 10 + d > u64::MAX) by (nonlinear_arith)
                    requires
                        v > u64::MAX,
                        d >= 0,
                ;
            }
        }
        if !overflow {
            if acc > (u64::MAX - d) / 10 {
                overflow = true;
                proof {
                    let v = acc as int;
                    assert(v * 10 + d > u64::MAX) by (nonlinear_arith)
                        requires
                            v > (u64::MAX - d) / 10,
                            0 <= d <= 9,
                    ;
                }
            } else {
                proof {
                    let v = acc as int;
                    assert(v * 10 + d <= u64::MAX) by (nonlinear_arith)
                        requires
                            v <= (u64::MAX - d) / 10,
                            0 <= d <= 9,
                    ;
                }
                acc = acc * 10 + d;
            }
        }
        i = i + 1;
    }
    assert(s@.subrange(0, n as int) == s@);
    if overflow {
        None
    } else {
        Some(acc)
    }
}

// ---------------------------------------------------------- cloud-init

/// The cloud-init document that creates the `devpod` user with
/// passwordless sudo and authorises `public_key` for it.
pub open spec fn cloud_config_text(public_key: Seq<char>) -> Seq<char> {
    CLOUD_CONFIG_HEAD@ + public_key + CLOUD_CONFIG_TAIL@
}

pub fn cloud_config(public_key: &str) -> (r: String)
    ensures
        r@ == cloud_config_text(public_key@),
{
    let text = String::from_str(CLOUD_CONFIG_HEAD);
    let text = text.concat(public_key);
    text.concat(CLOUD_CONFIG_TAIL)
}

/// The standard, padded base64 encoding of the UTF-8 bytes of a text.
pub uninterp spec fn base64_of(text: Seq<char>) -> Seq<char>;

/// Relies on base64's `general_purpose::STANDARD.encode`: the encoding
/// depends on the input alone. It panics only where the encoded length
/// overflows `usize`; a text of at most `usize::MAX / 8` characters has at
/// most `usize::MAX / 2` bytes, which rules that out.
#[verifier::external_body]
fn encode_base64(text: &str) -> (r: String)
    requires
        text@.len() <= usize::MAX / 8,
    ensures
        r@ == base64_of(text@),
{
    base64::engine::general_purpose::STANDARD.encode(text)
}

// ---------------------------------------------------------- resolution

/// Whether a template is the one configured: its name matches exactly and,
/// where a zone is required, the template is offered there.
pub open spec fn template_fits(t: TemplateRecord, name: Seq<char>, zone: Option<String>) -> bool {
    &&& t.name@ == name
    &&& zone matches Some(z) ==> exists|k: int| 0 <= k < t.zones@.len() && t.zones@[k]@ == z@
}

pub open spec fn first_template(
    list: Seq<TemplateRecord>,
    name: Seq<char>,
    zone: Option<String>,
) -> Option<int> {
    first_where(list.len() as int, |k: int| template_fits(list[k], name, zone))
}

pub open spec fn type_fits(t: InstanceTypeRecord, size: Size) -> bool {
    t.size == Some(size)
}

pub open spec fn first_type(list: Seq<InstanceTypeRecord>, size: Size) -> Option<int> {
    first_where(list.len() as int, |k: int| type_fits(list[k], size))
}

fn offered_in(zones: &Vec<String>, zone: &String) -> (r: bool)
    ensures
        r == exists|k: int| 0 <= k < zones@.len() && zones@[k]@ == zone@,
{
    let mut i: usize = 0;
    while i < zones.len()
        invariant
            i <= zones@.len(),
            forall|k: int| 0 <= k < i ==> zones@[k]@ != zone@,
        decreases zones@.len() - i,
    {
        if zones[i] == *zone {
            return true;
        }
        i = i + 1;
    }
    false
}

/// Finds the configured template: the first, in listing order, that fits.
pub fn resolve_template(templates: &Vec<TemplateRecord>, name: &str, zone: &Option<String>) -> (r:
    Result<usize, ProviderError>)
    ensures
        match first_template(templates@, name@, *zone) {
            Some(i) => r == Ok::<usize, ProviderError>(i as usize),
            None => r == Err::<usize, ProviderError>(ProviderError::NotFound(Resource::Template)),
        },
{
    let ghost p = |k: int| template_fits(templates@[k], name@, *zone);
    let mut i: usize = 0;
    while i < templates.len()
        invariant
            i <= templates@.len(),
            p == (|k: int| template_fits(templates@[k], name@, *zone)),
            forall|j: int| 0 <= j < i ==> !#[trigger] p(j),
        decreases templates@.len() - i,
    {
        let t = &templates[i];
        let fits = same_text(t.name.as_str(), name) && match zone {
            Some(z) => offered_in(&t.zones, z),
            None => true,
        };
        if fits {
            proof {
                lemma_first_where(templates@.len() as int, p, i as int);
            }
            return Ok(i);
        }
        i = i + 1;
    }
    proof {
        lemma_first_where_none(templates@.len() as int, p);
    }
    Err(ProviderError::NotFound(Resource::Template))
}

/// Finds the configured instance type: the size token must be in the
/// vocabulary, and the type is the first in listing order of that size.
pub fn resolve_instance_type(types: &Vec<InstanceTypeRecord>, token: &str) -> (r: Result<
    usize,
    ProviderError,
>)
    ensures
        match size_of_token(token@) {
            None => r == Err::<usize, ProviderError>(
                ProviderError::InvalidConfiguration(Setting::InstanceType),
            ),
            Some(z) => match first_type(types@, z) {
                Some(i) => r == Ok::<usize, ProviderError>(i as usize),
                None => r == Err::<usize, ProviderError>(
                    ProviderError::NotFound(Resource::InstanceType),
                ),
            },
        },
{
    let size = match map_str_to_size(token) {
        Some(z) => z,
        None => return Err(ProviderError::InvalidConfiguration(Setting::InstanceType)),
    };
    let ghost p = |k: int| type_fits(types@[k], size);
    let mut i: usize = 0;
    while i < types.len()
        invariant
            i <= types@.len(),
            p == (|k: int| type_fits(types@[k], size)),
            size_of_token(token@) == Some(size),
            forall|j: int| 0 <= j < i ==> !#[trigger] p(j),
        decreases types@.len() - i,
    {
        let matches = match types[i].size {
            Some(z) => z == size,
            None => false,
        };
        if matches {
            proof {
                assert(p(i as int));
                lemma_first_where(types@.len() as int, p, i as int);
            }
            return Ok(i);
        }
        i = i + 1;
    }
    proof {
        lemma_first_where_none(types@.len() as int, p);
    }
    Err(ProviderError::NotFound(Resource::InstanceType))
}

// ---------------------------------------------------------- provisioning

impl ProvisioningSpec {
    /// The label mapping of the instance: the marker and the machine
    /// identity.
    pub fn labels(&self) -> (r: Vec<(String, String)>)
        ensures
            r@.len() == 2,
            r@[0].0@ == marker_key(),
            r@[0].1@ == marker_value(),
            r@[1].0@ == id_key(),
            r@[1].1@ == self.machine_id@,
    {
        let mut labels: Vec<(String, String)> = Vec::new();
        labels.push((String::from_str("devpod_instance"), String::from_str("true")));
        labels.push((String::from_str("devpod_instance_id"), self.machine_id.clone()));
        labels
    }
}

/// An instance that carries the labels of a provisioning request belongs
/// to the request's machine identity, under either label rule.
pub proof fn lemma_created_instance_correlates(
    inst: Instance,
    spec: ProvisioningSpec,
    rule: LabelRule,
)
    requires
        inst.labels@.len() == 2,
        inst.labels@[0].0@ == marker_key(),
        inst.labels@[0].1@ == marker_value(),
        inst.labels@[1].0@ == id_key(),
        inst.labels@[1].1@ == spec.machine_id@,
    ensures
        correlates(inst, spec.machine_id@, rule),
{
    assert(inst.labels@[1].0@ == id_key() && inst.labels@[1].1@ == spec.machine_id@);
    assert(inst.labels@[0].0@ == marker_key() && inst.labels@[0].1@ == marker_value());
}

/// The fixed part of a provisioning run.
pub struct CreateConfig {
    pub machine_id: String,
    pub template_name: String,
    /// The zone a template must be offered in, where that is required.
    pub zone: Option<String>,
    pub size_token: String,
    pub disk_size: u64,
    /// The base64-encoded cloud-init document.
    pub user_data: String,
    pub group_name: String,
    pub group_description: String,
    pub open_cidr: String,
}

/// Where a provisioning run stands.
pub enum CreatePhase {
    /// Waiting for the security group creation.
    CreatingGroup,
    /// Waiting for the external source to be added.
    AddingSource { group_id: String },
    /// Waiting for the SSH rule to be added.
    AddingRule { group_id: String },
    /// Waiting for the security group's server-side state.
    FetchingGroup { group_id: String },
    /// Waiting for the template listing.
    ListingTemplates { group_id: String },
    /// Waiting for the instance type listing.
    ListingTypes { group_id: String, template_id: String },
    /// Waiting for the instance creation.
    CreatingInstance,
    Finished,
    Failed,
}

/// A provisioning run: security group, its source and SSH rule, template
/// and instance type resolution, then the instance. Each step waits for the
/// previous one; the first failure ends the run, and what was created
/// before it stays.
pub struct Create {
    pub config: CreateConfig,
    pub phase: CreatePhase,
}

/// Whether a configuration is the one made from these settings.
pub open spec fn configured(
    c: CreateConfig,
    options: Options,
    zone: Option<String>,
    disk_size: u64,
    user_data: Seq<char>,
) -> bool {
    &&& c.machine_id@ == options.machine_id@
    &&& c.template_name@ == options.template@
    &&& c.zone == zone
    &&& c.size_token@ == options.instance_type@
    &&& c.disk_size == disk_size
    &&& c.user_data@ == user_data
    &&& c.group_name@ == options.machine_id@ + GROUP_SUFFIX@
    &&& c.group_description@ == GROUP_DESCRIPTION@
    &&& c.open_cidr@ == OPEN_CIDR@
}

/// The first action of every run: create the security group.
pub open spec fn first_action(c: CreateConfig) -> Action {
    Action::Call(
        ApiRequest::CreateSecurityGroup { name: c.group_name, description: c.group_description },
    )
}

impl Create {
    /// A run from the settings and an already encoded cloud-init document,
    /// with its first action. The disk size must be a decimal number.
    pub fn with_user_data(options: &Options, zone: Option<String>, user_data: String) -> (r:
        Result<(Create, Action), ProviderError>)
        ensures
            match parse_decimal(options.disk_size@) {
                None => r matches Err(e) && e == ProviderError::InvalidConfiguration(
                    Setting::DiskSize,
                ),
                Some(d) => r matches Ok((c, a)) && configured(
                    c.config,
                    *options,
                    zone,
                    d,
                    user_data@,
                ) && c.phase is CreatingGroup && a == first_action(c.config),
            },
    {
        let disk_size = match parse_disk_size(options.disk_size.as_str()) {
            Some(d) => d,
            None => return Err(ProviderError::InvalidConfiguration(Setting::DiskSize)),
        };
        let group_name = options.machine_id.clone().concat(GROUP_SUFFIX);
        let config = CreateConfig {
            machine_id: options.machine_id.clone(),
            template_name: options.template.clone(),
            zone,
            size_token: options.instance_type.clone(),
            disk_size,
            user_data,
            group_name,
            group_description: String::from_str(GROUP_DESCRIPTION),
            open_cidr: String::from_str(OPEN_CIDR),
        };
        let action = Action::Call(
            ApiRequest::CreateSecurityGroup {
                name: config.group_name.clone(),
                description: config.group_description.clone(),
            },
        );
        Ok((Create { config, phase: CreatePhase::CreatingGroup }, action))
    }

    /// A run from the settings and the public key to authorise, with its
    /// first action. The user data is the base64 encoding of the cloud-init
    /// document for the key. A key too large to encode is refused.
    pub fn new(options: &Options, public_key: &str, zone: Option<String>) -> (r: Result<
        (Create, Action),
        ProviderError,
    >)
        ensures
            cloud_config_text(public_key@).len() > usize::MAX / 8 ==> (r
                matches Err(e) && e == ProviderError::InvalidConfiguration(Setting::MachineFolder)),
            cloud_config_text(public_key@).len() <= usize::MAX / 8 ==> (
            match parse_decimal(options.disk_size@) {
                None => r matches Err(e) && e == ProviderError::InvalidConfiguration(
                    Setting::DiskSize,
                ),
                Some(d) => r matches Ok((c, a)) && configured(
                    c.config,
                    *options,
                    zone,
                    d,
                    base64_of(cloud_config_text(public_key@)),
                ) && c.phase is CreatingGroup && a == first_action(c.config),
            }),
    {
        let text = cloud_config(public_key);
        if text.as_str().unicode_len() > usize::MAX / 8 {
            return Err(ProviderError::InvalidConfiguration(Setting::MachineFolder));
        }
        let user_data = encode_base64(text.as_str());
        Create::with_user_data(options, zone, user_data)
    }

    pub open spec fn is_terminal(self) -> bool {
        self.phase is Finished || self.phase is Failed
    }

    /// The next phase and action, given the reply to the last action.
    pub open spec fn step(self, reply: Reply) -> (CreatePhase, Action) {
        let c = self.config;
        match self.phase {
            CreatePhase::CreatingGroup => match reply {
                Reply::Created { id } => (
                    CreatePhase::AddingSource { group_id: id },
                    Action::Call(ApiRequest::AddExternalSource { group_id: id, cidr: c.open_cidr }),
                ),
                _ => (CreatePhase::Failed, Action::Fail(failure(Step::CreateSecurityGroup, reply))),
            },
            CreatePhase::AddingSource { group_id } => match reply {
                Reply::Accepted => (
                    CreatePhase::AddingRule { group_id },
                    Action::Call(ApiRequest::AddIngressRule { group_id, port: SSH_PORT }),
                ),
                _ => (CreatePhase::Failed, Action::Fail(failure(Step::AddExternalSource, reply))),
            },
            CreatePhase::AddingRule { group_id } => match reply {
                Reply::Accepted => (
                    CreatePhase::FetchingGroup { group_id },
                    Action::Call(ApiRequest::GetSecurityGroup { id: group_id }),
                ),
                _ => (CreatePhase::Failed, Action::Fail(failure(Step::AddRule, reply))),
            },
            CreatePhase::FetchingGroup { group_id } => match reply {
                Reply::Group(g) => (
                    CreatePhase::ListingTemplates { group_id: g.id },
                    Action::Call(ApiRequest::ListTemplates),
                ),
                _ => (CreatePhase::Failed, Action::Fail(failure(Step::GetSecurityGroup, reply))),
            },
            CreatePhase::ListingTemplates { group_id } => match reply {
                Reply::Templates(list) => match first_template(list@, c.template_name@, c.zone) {
                    Some(i) => (
                        CreatePhase::ListingTypes { group_id, template_id: list@[i].id },
                        Action::Call(ApiRequest::ListInstanceTypes),
                    ),
                    None => (
                        CreatePhase::Failed,
                        Action::Fail(ProviderError::NotFound(Resource::Template)),
                    ),
                },
                _ => (CreatePhase::Failed, Action::Fail(failure(Step::ListTemplates, reply))),
            },
            CreatePhase::ListingTypes { group_id, template_id } => match reply {
                Reply::InstanceTypes(list) => match size_of_token(c.size_token@) {
                    None => (
                        CreatePhase::Failed,
                        Action::Fail(ProviderError::InvalidConfiguration(Setting::InstanceType)),
                    ),
                    Some(z) => match first_type(list@, z) {
                        Some(i) => (
                            CreatePhase::CreatingInstance,
                            Action::Call(
                                ApiRequest::CreateInstance(
                                    ProvisioningSpec {
                                        machine_id: c.machine_id,
                                        template_id,
                                        instance_type_id: list@[i].id,
                                        disk_size: c.disk_size,
                                        security_group_id: group_id,
                                        user_data: c.user_data,
                                        auto_start: true,
                                        public_ipv4: true,
                                    },
                                ),
                            ),
                        ),
                        None => (
                            CreatePhase::Failed,
                            Action::Fail(ProviderError::NotFound(Resource::InstanceType)),
                        ),
                    },
                },
                _ => (CreatePhase::Failed, Action::Fail(failure(Step::ListInstanceTypes, reply))),
            },
            CreatePhase::CreatingInstance => match reply {
                Reply::Accepted | Reply::Created { .. } => (CreatePhase::Finished, Action::Done),
                _ => (CreatePhase::Failed, Action::Fail(failure(Step::CreateInstance, reply))),
            },
            CreatePhase::Finished => (CreatePhase::Finished, Action::Done),
            CreatePhase::Failed => (CreatePhase::Failed, Action::Done),
        }
    }

    /// Advances the run on the reply to its last action.
    pub fn next(&mut self, reply: Reply) -> (a: Action)
        requires
            !old(self).is_terminal(),
        ensures
            final(self).config == old(self).config,
            (final(self).phase, a) == old(self).step(reply),
    {
        let mut phase = CreatePhase::Failed;
        std::mem::swap(&mut self.phase, &mut phase);
        match phase {
            CreatePhase::CreatingGroup => match reply {
                Reply::Created { id } => {
                    let group_id = id.clone();
                    self.phase = CreatePhase::AddingSource { group_id: id };
                    Action::Call(
                        ApiRequest::AddExternalSource {
                            group_id,
                            cidr: self.config.open_cidr.clone(),
                        },
                    )
                },
                _ => Action::Fail(fail_on(Step::CreateSecurityGroup, reply)),
            },
            CreatePhase::AddingSource { group_id } => match reply {
                Reply::Accepted => {
                    let id = group_id.clone();
                    self.phase = CreatePhase::AddingRule { group_id };
                    Action::Call(ApiRequest::AddIngressRule { group_id: id, port: SSH_PORT })
                },
                _ => Action::Fail(fail_on(Step::AddExternalSource, reply)),
            },
            CreatePhase::AddingRule { group_id } => match reply {
                Reply::Accepted => {
                    let id = group_id.clone();
                    self.phase = CreatePhase::FetchingGroup { group_id };
                    Action::Call(ApiRequest::GetSecurityGroup { id })
                },
                _ => Action::Fail(fail_on(Step::AddRule, reply)),
            },
            CreatePhase::FetchingGroup { group_id: _ } => match reply {
                Reply::Group(g) => {
                    self.phase = CreatePhase::ListingTemplates { group_id: g.id };
                    Action::Call(ApiRequest::ListTemplates)
                },
                _ => Action::Fail(fail_on(Step::GetSecurityGroup, reply)),
            },
            CreatePhase::ListingTemplates { group_id } => match reply {
                Reply::Templates(list) => match resolve_template(
                    &list,
                    self.config.template_name.as_str(),
                    &self.config.zone,
                ) {
                    Ok(i) => {
                        self.phase = CreatePhase::ListingTypes {
                            group_id,
                            template_id: list[i].id.clone(),
                        };
                        Action::Call(ApiRequest::ListInstanceTypes)
                    },
                    Err(e) => Action::Fail(e),
                },
                _ => Action::Fail(fail_on(Step::ListTemplates, reply)),
            },
            CreatePhase::ListingTypes { group_id, template_id } => match reply {
                Reply::InstanceTypes(list) => match resolve_instance_type(
                    &list,
                    self.config.size_token.as_str(),
                ) {
                    Ok(i) => {
                        self.phase = CreatePhase::CreatingInstance;
                        Action::Call(
                            ApiRequest::CreateInstance(
                                ProvisioningSpec {
                                    machine_id: self.config.machine_id.clone(),
                                    template_id,
                                    instance_type_id: list[i].id.clone(),
                                    disk_size: self.config.disk_size,
                                    security_group_id: group_id,
                                    user_data: self.config.user_data.clone(),
                                    auto_start: true,
                                    public_ipv4: true,
                                },
                            ),
                        )
                    },
                    Err(e) => Action::Fail(e),
                },
                _ => Action::Fail(fail_on(Step::ListInstanceTypes, reply)),
            },
            CreatePhase::CreatingInstance => match reply {
                Reply::Accepted | Reply::Created { .. } => {
                    self.phase = CreatePhase::Finished;
                    Action::Done
                },
                _ => Action::Fail(fail_on(Step::CreateInstance, reply)),
            },
            CreatePhase::Finished | CreatePhase::Failed => Action::Done,
        }
    }
}

/// The actions a provisioning run takes on a run of replies, until it ends.
pub open spec fn create_run(c: Create, replies: Seq<Reply>) -> Seq<Action>
    decreases replies.len(),
{
    if replies.len() == 0 || c.is_terminal() {
        Seq::empty()
    } else {
        let (phase, a) = c.step(replies[0]);
        seq![a] + create_run(Create { phase, ..c }, replies.drop_first())
    }
}

pub open spec fn creates_instance(a: Action) -> bool {
    a matches Action::Call(ApiRequest::CreateInstance(_))
}

/// Whether a listing holds no template that the run would take.
pub open spec fn lacks_template(c: CreateConfig, reply: Reply) -> bool {
    reply matches Reply::Templates(list) ==> first_template(list@, c.template_name@, c.zone) is None
}

/// The phases before a template is resolved.
pub open spec fn before_template(p: CreatePhase) -> bool {
    ||| p is CreatingGroup
    ||| p is AddingSource
    ||| p is AddingRule
    ||| p is FetchingGroup
    ||| p is ListingTemplates
    ||| p is Failed
}

/// A run whose template listings never hold the configured template never
/// asks for an instance; its template listing ends it with `NotFound`.
pub proof fn lemma_no_instance_without_template(c: Create, replies: Seq<Reply>)
    requires
        before_template(c.phase),
        forall|k: int| 0 <= k < replies.len() ==> lacks_template(c.config, #[trigger] replies[k]),
    ensures
        forall|k: int|
            0 <= k < create_run(c, replies).len() ==> !creates_instance(
                #[trigger] create_run(c, replies)[k],
            ),
        c.phase is ListingTemplates && replies.len() > 0 && replies[0] is Templates ==> create_run(
            c,
            replies,
        ) == seq![Action::Fail(ProviderError::NotFound(Resource::Template))],
    decreases replies.len(),
{
    if replies.len() > 0 && !c.is_terminal() {
        let (phase, a) = c.step(replies[0]);
        let next = Create { phase, ..c };
        let rest = replies.drop_first();
        assert(lacks_template(c.config, replies[0]));
        assert forall|k: int| 0 <= k < rest.len() implies lacks_template(
            next.config,
            #[trigger] rest[k],
        ) by {
            assert(rest[k] == replies[k + 1]);
        }
        lemma_no_instance_without_template(next, rest);
        assert(create_run(c, replies) == seq![a] + create_run(next, rest));
        if c.phase is ListingTemplates && replies[0] is Templates {
            assert(create_run(next, rest) == Seq::<Action>::empty());
            assert(create_run(c, replies) =~= seq![a]);
        }
    }
}

} // verus!
