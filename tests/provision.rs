use base64::Engine as _;
use devpod_exoscale::api::{Action, ApiRequest, InstanceTypeRecord, Reply, SecurityGroupRecord, TemplateRecord};
use devpod_exoscale::create::{
    cloud_config, parse_disk_size, resolve_instance_type, resolve_template, Create, CreatePhase,
};
use devpod_exoscale::error::{ProviderError, Resource, Setting, Step};
use devpod_exoscale::instance::{locate, Identity, Instance, LabelRule};
use devpod_exoscale::options::Options;
use devpod_exoscale::size::Size;

const KEY: &str = "ssh-rsa AAAAB3NzaC1yc2EAAAADAQABAAABAQC7 devpod";

fn options(template: &str, size: &str, disk: &str) -> Options {
    Options {
        template: template.to_string(),
        instance_type: size.to_string(),
        disk_size: disk.to_string(),
        machine_id: "dev-42".to_string(),
        machine_folder: "/tmp/dev-42".to_string(),
    }
}

fn template(id: &str, name: &str, zones: &[&str]) -> TemplateRecord {
    TemplateRecord {
        id: id.to_string(),
        name: name.to_string(),
        zones: zones.iter().map(|z| z.to_string()).collect(),
    }
}

fn templates() -> Vec<TemplateRecord> {
    vec![
        template("t-1", "Debian 12", &["ch-gva-2"]),
        template("t-2", "Ubuntu 22.04", &["de-fra-1"]),
        template("t-3", "Ubuntu 22.04", &["ch-gva-2", "at-vie-1"]),
    ]
}

fn types() -> Vec<InstanceTypeRecord> {
    vec![
        InstanceTypeRecord { id: "it-0".to_string(), size: None },
        InstanceTypeRecord { id: "it-1".to_string(), size: Some(Size::Small) },
        InstanceTypeRecord { id: "it-2".to_string(), size: Some(Size::Medium) },
        InstanceTypeRecord { id: "it-3".to_string(), size: Some(Size::Medium) },
    ]
}

fn group(id: &str) -> Reply {
    Reply::Group(SecurityGroupRecord {
        id: id.to_string(),
        name: "dev-42-sg".to_string(),
        external_sources: vec!["0.0.0.0/0".to_string()],
    })
}

/// Drives a run up to the template listing.
fn up_to_templates(c: &mut Create) {
    assert!(matches!(c.next(Reply::Created { id: "sg-9".to_string() }), Action::Call(ApiRequest::AddExternalSource { .. })));
    assert!(matches!(c.next(Reply::Accepted), Action::Call(ApiRequest::AddIngressRule { .. })));
    assert!(matches!(c.next(Reply::Accepted), Action::Call(ApiRequest::GetSecurityGroup { .. })));
    assert!(matches!(c.next(group("sg-9")), Action::Call(ApiRequest::ListTemplates)));
}

#[test]
fn create_runs_every_step_in_order() {
    let (mut c, first) = Create::new(&options("Ubuntu 22.04", "medium", "50"), KEY, None).unwrap();
    match first {
        Action::Call(ApiRequest::CreateSecurityGroup { name, description }) => {
            assert_eq!(name, "dev-42-sg");
            assert_eq!(description, "Security group for devpod instance");
        }
        _ => panic!("expected the security group first"),
    }
    match c.next(Reply::Created { id: "sg-9".to_string() }) {
        Action::Call(ApiRequest::AddExternalSource { group_id, cidr }) => {
            assert_eq!(group_id, "sg-9");
            assert_eq!(cidr, "0.0.0.0/0");
        }
        _ => panic!("expected the external source"),
    }
    match c.next(Reply::Accepted) {
        Action::Call(ApiRequest::AddIngressRule { group_id, port }) => {
            assert_eq!(group_id, "sg-9");
            assert_eq!(port, 22);
        }
        _ => panic!("expected the rule"),
    }
    match c.next(Reply::Accepted) {
        Action::Call(ApiRequest::GetSecurityGroup { id }) => assert_eq!(id, "sg-9"),
        _ => panic!("expected the group fetch"),
    }
    assert!(matches!(c.next(group("sg-9")), Action::Call(ApiRequest::ListTemplates)));
    assert!(matches!(c.next(Reply::Templates(templates())), Action::Call(ApiRequest::ListInstanceTypes)));
    let spec = match c.next(Reply::InstanceTypes(types())) {
        Action::Call(ApiRequest::CreateInstance(spec)) => spec,
        _ => panic!("expected the instance creation"),
    };
    assert_eq!(spec.machine_id, "dev-42");
    assert_eq!(spec.template_id, "t-2");
    assert_eq!(spec.instance_type_id, "it-2");
    assert_eq!(spec.disk_size, 50);
    assert_eq!(spec.security_group_id, "sg-9");
    assert!(spec.auto_start);
    assert!(spec.public_ipv4);
    let decoded = base64::engine::general_purpose::STANDARD.decode(&spec.user_data).unwrap();
    let expected = format!(
        "#cloud-config\nusers:\n- name: devpod\n  shell: /bin/bash\n  groups: [ sudo, docker ]\n  ssh_authorized_keys:\n  - {}\n  sudo: [ \"ALL=(ALL) NOPASSWD:ALL\" ]\n",
        KEY
    );
    assert_eq!(String::from_utf8(decoded).unwrap(), expected);
    assert_ne!(spec.user_data, expected);
    assert!(matches!(c.next(Reply::Created { id: "op-1".to_string() }), Action::Done));
}

#[test]
fn create_with_absent_template_fails_without_creating_an_instance() {
    let (mut c, _) = Create::new(&options("Arch", "medium", "50"), KEY, None).unwrap();
    up_to_templates(&mut c);
    match c.next(Reply::Templates(templates())) {
        Action::Fail(ProviderError::NotFound(Resource::Template)) => {}
        _ => panic!("expected NotFound"),
    }
    assert!(matches!(c.phase, CreatePhase::Failed));
}

#[test]
fn zone_requirement_filters_templates() {
    let list = templates();
    assert_eq!(resolve_template(&list, "Ubuntu 22.04", &None).unwrap(), 1);
    assert_eq!(resolve_template(&list, "Ubuntu 22.04", &Some("ch-gva-2".to_string())).unwrap(), 2);
    assert!(matches!(
        resolve_template(&list, "Ubuntu 22.04", &Some("bg-sof-1".to_string())),
        Err(ProviderError::NotFound(Resource::Template))
    ));
    assert!(matches!(
        resolve_template(&list, "ubuntu 22.04", &None),
        Err(ProviderError::NotFound(Resource::Template))
    ));
}

#[test]
fn instance_type_resolution() {
    let list = types();
    assert_eq!(resolve_instance_type(&list, "medium").unwrap(), 2);
    assert_eq!(resolve_instance_type(&list, "small").unwrap(), 1);
    assert!(matches!(
        resolve_instance_type(&list, "huge"),
        Err(ProviderError::NotFound(Resource::InstanceType))
    ));
    assert!(matches!(
        resolve_instance_type(&list, "xyz"),
        Err(ProviderError::InvalidConfiguration(Setting::InstanceType))
    ));
}

#[test]
fn create_with_unknown_size_fails_with_invalid_configuration() {
    let (mut c, _) = Create::new(&options("Ubuntu 22.04", "xyz", "50"), KEY, None).unwrap();
    up_to_templates(&mut c);
    assert!(matches!(c.next(Reply::Templates(templates())), Action::Call(ApiRequest::ListInstanceTypes)));
    assert!(matches!(
        c.next(Reply::InstanceTypes(types())),
        Action::Fail(ProviderError::InvalidConfiguration(Setting::InstanceType))
    ));
}

#[test]
fn create_without_matching_instance_type_fails_with_not_found() {
    let (mut c, _) = Create::new(&options("Ubuntu 22.04", "jumbo", "50"), KEY, None).unwrap();
    up_to_templates(&mut c);
    c.next(Reply::Templates(templates()));
    assert!(matches!(
        c.next(Reply::InstanceTypes(types())),
        Action::Fail(ProviderError::NotFound(Resource::InstanceType))
    ));
}

#[test]
fn create_stops_on_the_first_failed_step() {
    let (mut c, _) = Create::new(&options("Ubuntu 22.04", "medium", "50"), KEY, None).unwrap();
    assert!(matches!(c.next(Reply::Created { id: "sg-9".to_string() }), Action::Call(_)));
    match c.next(Reply::Failed("quota exceeded".to_string())) {
        Action::Fail(ProviderError::Transport { step, message }) => {
            assert_eq!(step, Step::AddExternalSource);
            assert_eq!(message, "quota exceeded");
        }
        _ => panic!("expected a transport failure"),
    }
    let (mut c, _) = Create::new(&options("Ubuntu 22.04", "medium", "50"), KEY, None).unwrap();
    assert!(matches!(
        c.next(Reply::Accepted),
        Action::Fail(ProviderError::UnexpectedReply(Step::CreateSecurityGroup))
    ));
}

#[test]
fn create_refuses_a_disk_size_that_is_not_a_number() {
    for disk in ["", "fifty", "-5", "5.0", "18446744073709551616"] {
        assert!(matches!(
            Create::new(&options("Ubuntu 22.04", "medium", disk), KEY, None),
            Err(ProviderError::InvalidConfiguration(Setting::DiskSize))
        ));
    }
}

#[test]
fn disk_size_parsing() {
    assert_eq!(parse_disk_size("50"), Some(50));
    assert_eq!(parse_disk_size("007"), Some(7));
    assert_eq!(parse_disk_size("18446744073709551615"), Some(u64::MAX));
    assert_eq!(parse_disk_size("18446744073709551616"), None);
    assert_eq!(parse_disk_size("99999999999999999999x"), None);
    assert_eq!(parse_disk_size(""), None);
    assert_eq!(parse_disk_size("+5"), None);
    assert_eq!(parse_disk_size(" 5"), None);
}

#[test]
fn cloud_config_authorises_the_key() {
    let text = cloud_config("ssh-ed25519 AAAA k");
    assert!(text.starts_with("#cloud-config\nusers:\n- name: devpod\n"));
    assert!(text.contains("  ssh_authorized_keys:\n  - ssh-ed25519 AAAA k\n"));
    assert!(text.ends_with("  sudo: [ \"ALL=(ALL) NOPASSWD:ALL\" ]\n"));
}

#[test]
fn created_instance_is_located_by_its_labels() {
    let (mut c, _) = Create::new(&options("Ubuntu 22.04", "medium", "50"), KEY, None).unwrap();
    up_to_templates(&mut c);
    c.next(Reply::Templates(templates()));
    let spec = match c.next(Reply::InstanceTypes(types())) {
        Action::Call(ApiRequest::CreateInstance(spec)) => spec,
        _ => panic!("expected the instance creation"),
    };
    let labels = spec.labels();
    assert_eq!(
        labels,
        vec![
            ("devpod_instance".to_string(), "true".to_string()),
            ("devpod_instance_id".to_string(), "dev-42".to_string()),
        ]
    );
    let inst = Instance {
        id: "i-new".to_string(),
        state: "starting".to_string(),
        labels,
        public_ip: None,
        security_groups: vec!["sg-9".to_string()],
    };
    let list = vec![inst];
    for rule in [LabelRule::MarkerAndId, LabelRule::IdOnly] {
        let id = Identity { machine_id: "dev-42".to_string(), rule };
        assert_eq!(locate(&list, &id).unwrap(), 0);
    }
}

#[test]
fn create_with_user_data_keeps_it_as_given() {
    let (mut c, _) =
        Create::with_user_data(&options("Ubuntu 22.04", "small", "10"), Some("de-fra-1".to_string()), "dXNlcg==".to_string())
            .unwrap();
    up_to_templates(&mut c);
    c.next(Reply::Templates(templates()));
    match c.next(Reply::InstanceTypes(types())) {
        Action::Call(ApiRequest::CreateInstance(spec)) => {
            assert_eq!(spec.user_data, "dXNlcg==");
            assert_eq!(spec.template_id, "t-2");
            assert_eq!(spec.instance_type_id, "it-1");
            assert_eq!(spec.disk_size, 10);
        }
        _ => panic!("expected the instance creation"),
    }
}
