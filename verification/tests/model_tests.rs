use volume_model::model::{
    ExclusiveLabel, InclusiveLabel, Nexus, Protocol, Topology, Volume, VolumeHealPolicy,
    VolumeSpec, VolumeState, VolumeStatus,
};
use volume_model::requests::{get_volumes, CreateVolume, Filter, GetVolumes, PublishVolume,
    SetVolumeReplica, UnpublishVolume};

fn simple_spec(uuid: &str) -> VolumeSpec {
    VolumeSpec {
        uuid: uuid.to_string(),
        size: 1073741824,
        num_replicas: 1,
        policy: VolumeHealPolicy { self_heal: false, topology: None },
        topology: Topology { labelled: None, explicit: None },
    }
}

fn nexus_on(node: &str) -> Nexus {
    Nexus {
        node: node.to_string(),
        size: 1073741824,
        status: VolumeStatus::Online,
        share: Protocol::Off,
    }
}

#[test]
fn target_node_unpublished() {
    let state = VolumeState {
        uuid: "u1".to_string(),
        size: 1073741824,
        status: VolumeStatus::Online,
        protocol: Protocol::Off,
        children: vec![],
    };
    assert_eq!(state.target_node(), Some(None));
}

#[test]
fn target_node_published() {
    let state = VolumeState::from_nexus(&"u1".to_string(), &nexus_on("node-a"));
    assert_eq!(state.target_node(), Some(Some("node-a".to_string())));
}

#[test]
fn target_node_indeterminate() {
    let state = VolumeState {
        uuid: "u1".to_string(),
        size: 1073741824,
        status: VolumeStatus::Online,
        protocol: Protocol::Off,
        children: vec![nexus_on("node-a"), nexus_on("node-b")],
    };
    assert_eq!(state.target_node(), None);
}

#[test]
fn from_nexus_copies_fields() {
    let nexus = Nexus {
        node: "node-a".to_string(),
        size: 42,
        status: VolumeStatus::Degraded,
        share: Protocol::Nvmf,
    };
    let state = VolumeState::from_nexus(&"u1".to_string(), &nexus);
    assert_eq!(state.uuid, "u1".to_string());
    assert_eq!(state.size, 42);
    assert_eq!(state.status, VolumeStatus::Degraded);
    assert_eq!(state.protocol, Protocol::Nvmf);
    assert_eq!(state.children.len(), 1);
    assert_eq!(state.children[0].node, "node-a".to_string());
}

#[test]
fn volume_new_and_getters() {
    let spec = simple_spec("u1");
    let volume = Volume::new(&spec, &None);
    assert_eq!(volume.get_spec().uuid, "u1".to_string());
    assert!(volume.get_state().is_none());

    let state = VolumeState::from_nexus(&"u1".to_string(), &nexus_on("node-a"));
    let volume = Volume::new(&spec, &Some(state));
    assert_eq!(volume.get_state().unwrap().children.len(), 1);
}

#[test]
fn allowed_nodes_empty_without_explicit() {
    let req = CreateVolume {
        uuid: "u1".to_string(),
        size: 1,
        replicas: 1,
        policy: VolumeHealPolicy { self_heal: false, topology: None },
        topology: Topology { labelled: None, explicit: None },
    };
    assert!(req.allowed_nodes().is_empty());
}

#[test]
fn allowed_nodes_from_explicit() {
    let req = CreateVolume {
        uuid: "u1".to_string(),
        size: 1,
        replicas: 1,
        policy: VolumeHealPolicy { self_heal: false, topology: None },
        topology: Topology {
            labelled: None,
            explicit: Some(volume_model::model::ExplicitTopology {
                allowed_nodes: vec!["node-a".to_string(), "node-b".to_string()],
                preferred_nodes: vec!["node-a".to_string()],
            }),
        },
    };
    assert_eq!(req.allowed_nodes(), vec!["node-a".to_string(), "node-b".to_string()]);
}

#[test]
fn request_constructors_keep_fields() {
    let publish = PublishVolume::new("u1".to_string(), Some("node-a".to_string()), None);
    assert_eq!(publish.uuid, "u1".to_string());
    assert_eq!(publish.target_node, Some("node-a".to_string()));
    assert!(publish.share.is_none());

    let unpublish = UnpublishVolume::new("u1".to_string());
    assert_eq!(unpublish.uuid, "u1".to_string());

    let set = SetVolumeReplica::new("u1".to_string(), 3);
    assert_eq!(set.uuid, "u1".to_string());
    assert_eq!(set.replicas, 3);
}

#[test]
fn get_volumes_filters_by_uuid() {
    let volumes = vec![
        Volume::new(&simple_spec("u1"), &None),
        Volume::new(&simple_spec("u2"), &None),
        Volume::new(&simple_spec("u1"), &None),
    ];
    let all = get_volumes(&volumes, &GetVolumes { filter: Filter::All });
    assert_eq!(all.len(), 3);
    let only = get_volumes(&volumes, &GetVolumes { filter: Filter::Volume("u1".to_string()) });
    assert_eq!(only.len(), 2);
    assert_eq!(only[0].spec.uuid, "u1".to_string());
    assert_eq!(only[1].spec.uuid, "u1".to_string());
}

#[test]
fn labels_wrap_strings() {
    let e = ExclusiveLabel::new("Zone".to_string());
    assert_eq!(e.0, "Zone".to_string());
    let i = InclusiveLabel::new("Zone: A".to_string());
    assert_eq!(i.0, "Zone: A".to_string());
}
