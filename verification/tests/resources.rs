use cluster_resources::CollectionResponse;
use cluster_resources::Kind;
use cluster_resources::ListQuery;
use cluster_resources::Metadata;
use cluster_resources::Status;
use cluster_resources::Resource;
use cluster_resources::Timestamp;
use cluster_resources::digits::u32_to_decimal;

const ALL_KINDS: [Kind; 8] = [
    Kind::ConfigMap,
    Kind::DaemonSet,
    Kind::Deployment,
    Kind::NetworkPolicy,
    Kind::Node,
    Kind::Pod,
    Kind::Secret,
    Kind::Service,
];

#[test]
fn route_of_every_kind() {
    assert_eq!(Kind::ConfigMap.route(), "configmaps");
    assert_eq!(Kind::DaemonSet.route(), "daemonsets");
    assert_eq!(Kind::Deployment.route(), "deployments");
    assert_eq!(Kind::NetworkPolicy.route(), "networkpolicies");
    assert_eq!(Kind::Node.route(), "nodes");
    assert_eq!(Kind::Pod.route(), "pods");
    assert_eq!(Kind::Secret.route(), "secrets");
    assert_eq!(Kind::Service.route(), "services");
}

#[test]
fn routes_nonempty_lowercase_unique() {
    for (i, a) in ALL_KINDS.iter().enumerate() {
        let route = a.route();
        assert!(!route.is_empty());
        assert!(route.chars().all(|c| c.is_ascii_lowercase()));
        for b in ALL_KINDS.iter().skip(i + 1) {
            assert_ne!(route, b.route());
        }
    }
}

#[test]
fn display_name_is_the_tag_name() {
    assert_eq!(Kind::ConfigMap.display_name(), "ConfigMap");
    assert_eq!(Kind::DaemonSet.display_name(), "DaemonSet");
    assert_eq!(Kind::Deployment.display_name(), "Deployment");
    assert_eq!(Kind::NetworkPolicy.display_name(), "NetworkPolicy");
    assert_eq!(Kind::Node.display_name(), "Node");
    assert_eq!(Kind::Pod.display_name(), "Pod");
    assert_eq!(Kind::Secret.display_name(), "Secret");
    assert_eq!(Kind::Service.display_name(), "Service");
}

#[test]
fn default_query_renders_empty() {
    let pairs = ListQuery::default().as_query_pairs();
    assert!(pairs.is_empty());
}

#[test]
fn chained_refinement_example() {
    let pairs = ListQuery::default()
        .label_selector("tier=frontend")
        .timeout_seconds(30)
        .as_query_pairs();
    let expected = vec![
        ("labelSelector".to_string(), "tier=frontend".to_string()),
        ("timeoutSeconds".to_string(), "30".to_string()),
    ];
    assert_eq!(pairs, expected);
}

#[test]
fn every_parameter_combination_renders_exactly_the_set_keys() {
    for mask in 0u32..16 {
        let mut q = ListQuery::default();
        let mut expected: Vec<(String, String)> = Vec::new();
        if mask & 1 != 0 {
            q = q.field_selector("status.phase=Running");
            expected.push(("fieldSelector".into(), "status.phase=Running".into()));
        }
        if mask & 2 != 0 {
            q = q.label_selector("app=x");
            expected.push(("labelSelector".into(), "app=x".into()));
        }
        if mask & 4 != 0 {
            q = q.resource_version("12345");
            expected.push(("resourceVersion".into(), "12345".into()));
        }
        if mask & 8 != 0 {
            q = q.timeout_seconds(7);
            expected.push(("timeoutSeconds".into(), "7".into()));
        }
        let pairs = q.as_query_pairs();
        assert_eq!(pairs, expected);
        let keys: Vec<&str> = pairs.iter().map(|p| p.0.as_str()).collect();
        let mut sorted = keys.clone();
        sorted.sort();
        sorted.dedup();
        assert_eq!(keys, sorted);
    }
}

#[test]
fn refinement_order_does_not_matter_for_key_order() {
    let pairs = ListQuery::default()
        .timeout_seconds(5)
        .resource_version("9")
        .label_selector("a=b")
        .field_selector("c=d")
        .as_query_pairs();
    let keys: Vec<&str> = pairs.iter().map(|p| p.0.as_str()).collect();
    assert_eq!(
        keys,
        vec!["fieldSelector", "labelSelector", "resourceVersion", "timeoutSeconds"]
    );
}

#[test]
fn refining_leaves_the_original_untouched() {
    let q1 = ListQuery::default().field_selector("metadata.name=a");
    let before = q1.as_query_pairs();
    let q2 = q1.label_selector("app=x");
    assert_eq!(q1.as_query_pairs(), before);
    assert_ne!(q2.as_query_pairs(), before);
    let q3 = q1.field_selector("metadata.name=b");
    assert_eq!(q1.as_query_pairs(), before);
    assert_eq!(
        q3.as_query_pairs(),
        vec![("fieldSelector".to_string(), "metadata.name=b".to_string())]
    );
}

#[test]
fn later_refinement_of_one_parameter_wins() {
    let pairs = ListQuery::default()
        .resource_version("1")
        .resource_version("2")
        .as_query_pairs();
    assert_eq!(pairs, vec![("resourceVersion".to_string(), "2".to_string())]);
}

#[test]
fn timeout_renders_in_canonical_decimal() {
    assert_eq!(u32_to_decimal(0), "0");
    assert_eq!(u32_to_decimal(7), "7");
    assert_eq!(u32_to_decimal(30), "30");
    assert_eq!(u32_to_decimal(1000000), "1000000");
    assert_eq!(u32_to_decimal(4294967295), "4294967295");
    let pairs = ListQuery::default().timeout_seconds(0).as_query_pairs();
    assert_eq!(pairs, vec![("timeoutSeconds".to_string(), "0".to_string())]);
}

#[test]
fn default_metadata_reports_every_field_absent() {
    let m = Metadata::default();
    assert!(m.name.is_none());
    assert!(m.namespace.is_none());
    assert!(m.uid.is_none());
    assert!(m.creation_timestamp.is_none());
    assert!(m.annotations.is_none());
    assert!(m.labels.is_none());
}

#[test]
fn metadata_with_every_field_set_keeps_the_values() {
    let m = Metadata {
        name: Some("web".to_string()),
        namespace: Some("default".to_string()),
        uid: Some("4be35a9c".to_string()),
        creation_timestamp: Some(Timestamp::new(1700000000, 500000000)),
        annotations: Some(vec![("team".to_string(), "infra".to_string())]),
        labels: Some(vec![
            ("app".to_string(), "web".to_string()),
            ("tier".to_string(), "frontend".to_string()),
        ]),
    };
    assert_eq!(m.name.as_deref(), Some("web"));
    assert_eq!(m.namespace.as_deref(), Some("default"));
    assert_eq!(m.uid.as_deref(), Some("4be35a9c"));
    let t = m.creation_timestamp.unwrap();
    assert_eq!(t.secs, 1700000000);
    assert_eq!(t.nanos, 500000000);
    assert_eq!(m.annotations.as_ref().unwrap().len(), 1);
    assert_eq!(m.labels.as_ref().unwrap()[1].0, "tier");
}

#[test]
fn status_carries_its_fields() {
    let s = Status {
        kind: "Status".to_string(),
        api_version: "v1".to_string(),
        metadata: Metadata::default(),
        status: "Failure".to_string(),
        message: "pods \"web\" not found".to_string(),
    };
    assert_eq!(s.kind, "Status");
    assert_eq!(s.api_version, "v1");
    assert_eq!(s.status, "Failure");
    assert_eq!(s.message, "pods \"web\" not found");
}

#[test]
fn absent_member_field_yields_no_items() {
    let r: CollectionResponse<String> = CollectionResponse { items: None };
    assert!(r.into_items().is_empty());
}

#[test]
fn empty_member_field_yields_no_items() {
    let r: CollectionResponse<String> = CollectionResponse { items: Some(Vec::new()) };
    assert!(r.into_items().is_empty());
}

#[test]
fn members_come_out_in_server_order() {
    let r = CollectionResponse {
        items: Some(vec!["a".to_string(), "c".to_string(), "b".to_string()]),
    };
    assert_eq!(
        r.into_items(),
        vec!["a".to_string(), "c".to_string(), "b".to_string()]
    );
}

struct FakePod;

impl cluster_resources::Resource for FakePod {
    fn kind() -> Kind {
        Kind::Pod
    }
}

struct FakeNode;

impl cluster_resources::Resource for FakeNode {
    fn kind() -> Kind {
        Kind::Node
    }

    fn default_namespace() -> Option<&'static str> {
        None
    }
}

#[test]
fn resource_capability_defaults() {
    assert_eq!(FakePod::kind().route(), "pods");
    assert_eq!(FakePod::default_namespace(), Some("default"));
    assert_eq!(FakePod::api(), "/api/v1");
}

#[test]
fn cluster_scoped_resource_overrides_namespace() {
    assert_eq!(FakeNode::kind().route(), "nodes");
    assert_eq!(FakeNode::default_namespace(), None);
    assert_eq!(FakeNode::api(), "/api/v1");
}
