use crate::error::{ProviderError, Setting};
use vstd::prelude::*;

verus! {

/// The settings of one run, as read from the environment.
pub struct Options {
    pub template: String,
    pub instance_type: String,
    pub disk_size: String,
    pub machine_id: String,
    pub machine_folder: String,
}

/// The value of the variable `name` in an environment listing: the first
/// entry with that name, as the process environment has one per name.
pub open spec fn env_lookup(env: Seq<(String, String)>, name: Seq<char>) -> Option<Seq<char>>
    decreases env.len(),
{
    if env.len() == 0 {
        None
    } else {
        let earlier = env_lookup(env.drop_last(), name);
        if earlier is Some {
            earlier
        } else if env.last().0@ == name {
            Some(env.last().1@)
        } else {
            None
        }
    }
}

/// A name found in a prefix of the listing keeps its value in the whole.
proof fn lemma_lookup_prefix(env: Seq<(String, String)>, name: Seq<char>, k: int)
    requires
        0 <= k <= env.len(),
        env_lookup(env.subrange(0, k), name) is Some,
    ensures
        env_lookup(env, name) == env_lookup(env.subrange(0, k), name),
    decreases env.len(),
{
    if k < env.len() {
        assert(env.drop_last().subrange(0, k) == env.subrange(0, k));
        lemma_lookup_prefix(env.drop_last(), name, k);
    } else {
        assert(env.subrange(0, k) == env);
    }
}

pub open spec fn setting_value(env: Seq<(String, String)>, s: Setting) -> Option<Seq<char>> {
    env_lookup(env, s.variable_spec())
}

/// The first required setting that the environment lacks. The machine
/// identity and folder are required unless the run only initialises the
/// account.
pub open spec fn first_missing(env: Seq<(String, String)>, init: bool) -> Option<Setting> {
    if setting_value(env, Setting::Template) is None {
        Some(Setting::Template)
    } else if setting_value(env, Setting::InstanceType) is None {
        Some(Setting::InstanceType)
    } else if setting_value(env, Setting::DiskSize) is None {
        Some(Setting::DiskSize)
    } else if !init && setting_value(env, Setting::MachineId) is None {
        Some(Setting::MachineId)
    } else if !init && setting_value(env, Setting::MachineFolder) is None {
        Some(Setting::MachineFolder)
    } else {
        None
    }
}

/// Looks `name` up in an environment listing.
pub fn lookup_var(env: &Vec<(String, String)>, name: &str) -> (r: Option<String>)
    ensures
        match r {
            Some(v) => env_lookup(env@, name@) == Some(v@),
            None => env_lookup(env@, name@) is None,
        },
{
    let key = name.to_owned();
    let mut i: usize = 0;
    while i < env.len()
        invariant
            i <= env@.len(),
            key@ == name@,
            env_lookup(env@.subrange(0, i as int), name@) is None,
        decreases env@.len() - i,
    {
        assert(env@.subrange(0, i + 1).drop_last() == env@.subrange(0, i as int));
        if env[i].0 == key {
            proof {
                lemma_lookup_prefix(env@, name@, i + 1);
            }
            return Some(env[i].1.clone());
        }
        i = i + 1;
    }
    assert(env@.subrange(0, env@.len() as int) == env@);
    None
}

fn required(env: &Vec<(String, String)>, s: Setting) -> (r: Result<String, ProviderError>)
    ensures
        match r {
            Ok(v) => setting_value(env@, s) == Some(v@),
            Err(e) => setting_value(env@, s) is None && e == ProviderError::ConfigurationMissing(s),
        },
{
    match lookup_var(env, s.variable()) {
        Some(v) => Ok(v),
        None => Err(ProviderError::ConfigurationMissing(s)),
    }
}

/// Reads the settings from an environment listing (name, value pairs).
/// With `init` the run only initialises the account, and the machine
/// identity and folder are left empty.
pub fn from_env(init: bool, env: &Vec<(String, String)>) -> (r: Result<Options, ProviderError>)
    ensures
        match r {
            Ok(o) => {
                &&& first_missing(env@, init) is None
                &&& setting_value(env@, Setting::Template) == Some(o.template@)
                &&& setting_value(env@, Setting::InstanceType) == Some(o.instance_type@)
                &&& setting_value(env@, Setting::DiskSize) == Some(o.disk_size@)
                &&& init ==> o.machine_id@.len() == 0 && o.machine_folder@.len() == 0
                &&& !init ==> setting_value(env@, Setting::MachineId) == Some(o.machine_id@)
                &&& !init ==> setting_value(env@, Setting::MachineFolder) == Some(
                    o.machine_folder@,
                )
            },
            Err(e) => first_missing(env@, init) matches Some(s) && e
                == ProviderError::ConfigurationMissing(s),
        },
{
    let template = required(env, Setting::Template)?;
    let instance_type = required(env, Setting::InstanceType)?;
    let disk_size = required(env, Setting::DiskSize)?;
    if init {
        return Ok(
            Options {
                template,
                instance_type,
                disk_size,
                machine_id: String::new(),
                machine_folder: String::new(),
            },
        );
    }
    let machine_id = required(env, Setting::MachineId)?;
    let machine_folder = required(env, Setting::MachineFolder)?;
    Ok(Options { template, instance_type, disk_size, machine_id, machine_folder })
}

} // verus!
