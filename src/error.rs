use vstd::prelude::*;

verus! {

/// A configuration setting read from the environment.
#[derive(Clone, Copy, Debug, PartialEq, Eq, Structural)]
pub enum Setting {
    Template,
    InstanceType,
    DiskSize,
    MachineId,
    MachineFolder,
}

/// A provider resource that a lookup can fail to find.
#[derive(Clone, Copy, Debug, PartialEq, Eq, Structural)]
pub enum Resource {
    Instance,
    Template,
    InstanceType,
}

/// The provider call during which a failure happened.
#[derive(Clone, Copy, Debug, PartialEq, Eq, Structural)]
pub enum Step {
    ListInstances,
    CreateSecurityGroup,
    AddExternalSource,
    AddRule,
    GetSecurityGroup,
    ListTemplates,
    ListInstanceTypes,
    CreateInstance,
    DeleteInstance,
    DeleteSecurityGroup,
    StartInstance,
    StopInstance,
    Settle,
}

/// Failures of the provisioning and lifecycle operations.
#[derive(Clone, Debug)]
pub enum ProviderError {
    /// A required setting is absent.
    ConfigurationMissing(Setting),
    /// A setting is present but unusable (a size outside the vocabulary,
    /// a disk size that is not a number).
    InvalidConfiguration(Setting),
    /// No matching instance, template or instance type.
    NotFound(Resource),
    /// A provider call failed; the message is the transport's own.
    Transport { step: Step, message: String },
    /// A provider call answered with a reply of the wrong kind.
    UnexpectedReply(Step),
}

/// Failures of the remote execution engine.
#[derive(Clone, Debug)]
pub enum SshError {
    /// The SSH session failed (handshake, channel, exec, read).
    Session(String),
    /// The key was rejected.
    Auth(String),
    /// The TCP connection failed.
    Io(String),
    /// The command's standard output is not valid UTF-8.
    Utf8,
    /// Port 22 of the host never accepted a connection.
    HealthCheckFailed(String),
    /// The transport reported an event that does not fit the session's
    /// phase.
    UnexpectedEvent,
}

impl Setting {
    /// The environment variable that holds this setting.
    pub fn variable(&self) -> (r: &'static str)
        ensures
            r@ == self.variable_spec(),
    {
        match self {
            Setting::Template => "TEMPLATE",
            Setting::InstanceType => "INSTANCE_TYPE",
            Setting::DiskSize => "DISK_SIZE",
            Setting::MachineId => "MACHINE_ID",
            Setting::MachineFolder => "MACHINE_FOLDER",
        }
    }

    pub open spec fn variable_spec(&self) -> Seq<char> {
        match self {
            Setting::Template => "TEMPLATE"@,
            Setting::InstanceType => "INSTANCE_TYPE"@,
            Setting::DiskSize => "DISK_SIZE"@,
            Setting::MachineId => "MACHINE_ID"@,
            Setting::MachineFolder => "MACHINE_FOLDER"@,
        }
    }
}

} // verus!
