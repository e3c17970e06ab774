use devpod_exoscale::api::{acknowledge, instances_of, ApiRequest, BootMode, Reply};
use devpod_exoscale::error::{ProviderError, Resource, Step};
use devpod_exoscale::instance::{
    is_devpod_instance, locate, status_of_state, Identity, Instance, LabelRule, Start, Status,
    StatusToken, Stop,
};

fn inst(id: &str, state: &str, labels: &[(&str, &str)]) -> Instance {
    Instance {
        id: id.to_string(),
        state: state.to_string(),
        labels: labels.iter().map(|(k, v)| (k.to_string(), v.to_string())).collect(),
        public_ip: Some("203.0.113.7".to_string()),
        security_groups: vec![format!("sg-{}", id)],
    }
}

fn identity(id: &str, rule: LabelRule) -> Identity {
    Identity { machine_id: id.to_string(), rule }
}

fn listing() -> Vec<Instance> {
    vec![
        inst("i-1", "running", &[("team", "web")]),
        inst("i-2", "stopped", &[("devpod_instance", "true"), ("devpod_instance_id", "alpha")]),
        inst("i-3", "running", &[("devpod_instance_id", "beta")]),
        inst("i-4", "running", &[("devpod_instance", "false"), ("devpod_instance_id", "gamma")]),
    ]
}

#[test]
fn locate_finds_the_unique_correlated_instance() {
    let list = listing();
    assert_eq!(locate(&list, &identity("alpha", LabelRule::MarkerAndId)).unwrap(), 1);
    assert_eq!(locate(&list, &identity("alpha", LabelRule::IdOnly)).unwrap(), 1);
}

#[test]
fn locate_fails_with_not_found_when_nothing_correlates() {
    let list = listing();
    assert!(matches!(
        locate(&list, &identity("delta", LabelRule::IdOnly)),
        Err(ProviderError::NotFound(Resource::Instance))
    ));
    assert!(matches!(
        locate(&Vec::new(), &identity("alpha", LabelRule::MarkerAndId)),
        Err(ProviderError::NotFound(Resource::Instance))
    ));
}

#[test]
fn label_rules_differ_on_a_missing_or_false_marker() {
    let list = listing();
    // Only the identity label: found under the looser rule alone.
    assert!(matches!(
        locate(&list, &identity("beta", LabelRule::MarkerAndId)),
        Err(ProviderError::NotFound(Resource::Instance))
    ));
    assert_eq!(locate(&list, &identity("beta", LabelRule::IdOnly)).unwrap(), 2);
    // A marker that is not "true".
    assert!(!is_devpod_instance(&list[3], &identity("gamma", LabelRule::MarkerAndId)));
    assert!(is_devpod_instance(&list[3], &identity("gamma", LabelRule::IdOnly)));
}

#[test]
fn locate_takes_the_first_of_several_matches() {
    let mut list = listing();
    list.push(inst("i-5", "running", &[("devpod_instance", "true"), ("devpod_instance_id", "alpha")]));
    assert_eq!(locate(&list, &identity("alpha", LabelRule::MarkerAndId)).unwrap(), 1);
}

#[test]
fn status_mapping_is_total() {
    assert_eq!(status_of_state("running"), StatusToken::Running);
    assert_eq!(status_of_state("stopped"), StatusToken::Stopped);
    assert_eq!(status_of_state("busy"), StatusToken::Busy);
    assert_eq!(status_of_state("error"), StatusToken::Error);
    assert_eq!(status_of_state("notfound"), StatusToken::NotFound);
    for other in ["starting", "stopping", "migrating", "destroyed", "", "Running"] {
        assert_eq!(status_of_state(other), StatusToken::NotFound);
    }
}

#[test]
fn status_tokens_print() {
    assert_eq!(StatusToken::Running.as_str(), "Running");
    assert_eq!(StatusToken::Stopped.as_str(), "Stopped");
    assert_eq!(StatusToken::Busy.as_str(), "Busy");
    assert_eq!(StatusToken::NotFound.as_str(), "NotFound");
    assert_eq!(StatusToken::Error.as_str(), "Error");
}

#[test]
fn status_of_the_located_instance() {
    let list = listing();
    let id = identity("alpha", LabelRule::MarkerAndId);
    assert_eq!(Status {}.token(&list, &id).unwrap(), StatusToken::Stopped);
    let none = identity("nobody", LabelRule::MarkerAndId);
    assert!(matches!(
        Status {}.token(&list, &none),
        Err(ProviderError::NotFound(Resource::Instance))
    ));
}

#[test]
fn start_and_stop_target_the_located_instance() {
    let list = listing();
    let id = identity("alpha", LabelRule::MarkerAndId);
    match (Start { boot_mode: BootMode::Standard }).request(&list, &id) {
        Ok(ApiRequest::StartInstance { id, boot_mode }) => {
            assert_eq!(id, "i-2");
            assert_eq!(boot_mode, BootMode::Standard);
        }
        _ => panic!("expected a start request"),
    }
    match (Start { boot_mode: BootMode::NetbootEfi }).request(&list, &id) {
        Ok(ApiRequest::StartInstance { boot_mode, .. }) => assert_eq!(boot_mode, BootMode::NetbootEfi),
        _ => panic!("expected a start request"),
    }
    match (Stop {}).request(&list, &id) {
        Ok(ApiRequest::StopInstance { id }) => assert_eq!(id, "i-2"),
        _ => panic!("expected a stop request"),
    }
    let none = identity("nobody", LabelRule::IdOnly);
    assert!(matches!(
        (Stop {}).request(&list, &none),
        Err(ProviderError::NotFound(Resource::Instance))
    ));
}

#[test]
fn replies_to_simple_calls() {
    assert!(acknowledge(Step::StopInstance, Reply::Accepted).is_ok());
    match acknowledge(Step::StartInstance, Reply::Failed("busy".to_string())) {
        Err(ProviderError::Transport { step, message }) => {
            assert_eq!(step, Step::StartInstance);
            assert_eq!(message, "busy");
        }
        _ => panic!("expected a transport failure"),
    }
    assert!(matches!(
        acknowledge(Step::StopInstance, Reply::Waited),
        Err(ProviderError::UnexpectedReply(Step::StopInstance))
    ));
    assert_eq!(instances_of(Reply::Instances(listing())).unwrap().len(), 4);
    assert!(matches!(
        instances_of(Reply::Accepted),
        Err(ProviderError::UnexpectedReply(Step::ListInstances))
    ));
}
