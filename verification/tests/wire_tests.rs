use volume_model::model;
use volume_model::wire;
use volume_model::VolumeError;

const VALID_UUID: &str = "f3a6c1f2-6a2d-4a6e-9c3b-1d2e3f405060";

fn model_spec(uuid: &str) -> model::VolumeSpec {
    model::VolumeSpec {
        uuid: uuid.to_string(),
        size: 1073741824,
        num_replicas: 2,
        policy: model::VolumeHealPolicy {
            self_heal: true,
            topology: Some(model::Topology {
                labelled: None,
                explicit: Some(model::ExplicitTopology {
                    allowed_nodes: vec!["node-a".to_string()],
                    preferred_nodes: vec!["node-a".to_string()],
                }),
            }),
        },
        topology: model::Topology {
            labelled: Some(model::LabelledTopology {
                node_topology: model::NodeTopology {
                    exclusion: vec![model::ExclusiveLabel::new("Zone".to_string())],
                    inclusion: vec![model::InclusiveLabel::new("Zone: A".to_string())],
                },
                pool_topology: model::PoolTopology {
                    inclusion: vec![model::InclusiveLabel::new("Tier".to_string())],
                },
            }),
            explicit: None,
        },
    }
}

fn model_state(uuid: &str) -> model::VolumeState {
    model::VolumeState {
        uuid: uuid.to_string(),
        size: 1073741824,
        status: model::VolumeStatus::Degraded,
        protocol: model::Protocol::Nvmf,
        children: vec![model::Nexus {
            node: "node-a".to_string(),
            size: 1073741824,
            status: model::VolumeStatus::Degraded,
            share: model::Protocol::Nvmf,
        }],
    }
}

#[test]
fn status_idempotent_for_every_variant() {
    let variants = [
        model::VolumeStatus::Unknown,
        model::VolumeStatus::Online,
        model::VolumeStatus::Degraded,
        model::VolumeStatus::Faulted,
    ];
    for s in variants {
        let wire_form = wire::status_to_wire(s);
        assert_eq!(wire::status_from_wire(Some(wire_form)), s);
    }
}

#[test]
fn protocol_idempotent_for_every_variant() {
    let variants = [model::Protocol::Off, model::Protocol::Nvmf, model::Protocol::Iscsi];
    for p in variants {
        assert_eq!(wire::protocol_from_wire(wire::protocol_to_wire(p)), p);
    }
}

#[test]
fn share_protocol_idempotent_for_every_variant() {
    let variants = [model::VolumeShareProtocol::Nvmf, model::VolumeShareProtocol::Iscsi];
    for p in variants {
        assert_eq!(wire::share_from_wire(wire::share_to_wire(p)), p);
    }
}

#[test]
fn absent_status_decodes_to_unknown() {
    assert_eq!(wire::status_from_wire(None), model::VolumeStatus::Unknown);
    let w = wire::VolumeState::new(vec![], wire::Protocol::Off, 1, VALID_UUID.to_string());
    assert!(w.status.is_none());
    assert_eq!(w.to_model().status, model::VolumeStatus::Unknown);
}

#[test]
fn new_all_keeps_status() {
    let w = wire::VolumeState::new_all(
        vec![],
        wire::Protocol::Iscsi,
        7,
        Some(wire::VolumeStatus::Faulted),
        VALID_UUID.to_string(),
    );
    let m = w.to_model();
    assert_eq!(m.status, model::VolumeStatus::Faulted);
    assert_eq!(m.protocol, model::Protocol::Iscsi);
    assert_eq!(m.size, 7);
}

#[test]
fn topology_round_trip_is_identity() {
    let spec = model_spec(VALID_UUID);
    let wire_topology = wire::Topology::from_model(&spec.topology);
    let back = wire_topology.to_model();
    let labelled = back.labelled.unwrap();
    assert_eq!(labelled.node_topology.exclusion[0].0, "Zone".to_string());
    assert_eq!(labelled.node_topology.inclusion[0].0, "Zone: A".to_string());
    assert_eq!(labelled.pool_topology.inclusion[0].0, "Tier".to_string());
    assert!(back.explicit.is_none());
}

#[test]
fn heal_policy_round_trip_is_identity() {
    let spec = model_spec(VALID_UUID);
    let back = wire::VolumeHealPolicy::from_model(&spec.policy).to_model();
    assert!(back.self_heal);
    let topology = back.topology.unwrap();
    let explicit = topology.explicit.unwrap();
    assert_eq!(explicit.allowed_nodes, vec!["node-a".to_string()]);
    assert_eq!(explicit.preferred_nodes, vec!["node-a".to_string()]);
}

#[test]
fn volume_round_trip_is_identity() {
    let volume = model::Volume {
        spec: model_spec(VALID_UUID),
        state: Some(model_state(VALID_UUID)),
    };
    let encoded = wire::Volume::from_model(&volume).unwrap();
    let decoded = encoded.to_model();
    assert_eq!(decoded.spec.uuid, volume.spec.uuid);
    assert_eq!(decoded.spec.size, volume.spec.size);
    assert_eq!(decoded.spec.num_replicas, volume.spec.num_replicas);
    let state = decoded.state.unwrap();
    let original = volume.state.unwrap();
    assert_eq!(state.uuid, original.uuid);
    assert_eq!(state.size, original.size);
    assert_eq!(state.status, original.status);
    assert_eq!(state.protocol, original.protocol);
    assert_eq!(state.children.len(), 1);
    assert_eq!(state.children[0].node, original.children[0].node);
    assert_eq!(state.children[0].share, original.children[0].share);
    assert_eq!(state.children[0].status, original.children[0].status);
}

#[test]
fn encoded_state_always_carries_status() {
    let encoded = wire::VolumeState::from_model(&model_state(VALID_UUID)).unwrap();
    assert_eq!(encoded.status, Some(wire::VolumeStatus::Degraded));
    assert_eq!(encoded.protocol, wire::Protocol::Nvmf);
    assert_eq!(encoded.uuid, VALID_UUID.to_string());
    assert_eq!(encoded.children.len(), 1);
    assert_eq!(encoded.children[0].node, "node-a".to_string());
}

#[test]
fn malformed_id_is_a_recoverable_error() {
    assert!(!wire::valid_volume_id(&"u1".to_string()));
    assert!(wire::valid_volume_id(&VALID_UUID.to_string()));

    let volume = model::Volume { spec: model_spec("u1"), state: None };
    assert!(matches!(
        wire::Volume::from_model(&volume),
        Err(VolumeError::InvalidIdentifier)
    ));

    let bad_state = model::Volume {
        spec: model_spec(VALID_UUID),
        state: Some(model_state("not-a-uuid")),
    };
    assert!(matches!(
        wire::Volume::from_model(&bad_state),
        Err(VolumeError::InvalidIdentifier)
    ));
}

#[test]
fn uuid_formats_accepted_by_the_parser() {
    // Simple (unhyphenated) and urn forms parse too; arbitrary strings do not.
    assert!(wire::valid_volume_id(&"f3a6c1f26a2d4a6e9c3b1d2e3f405060".to_string()));
    assert!(wire::valid_volume_id(
        &format!("urn:uuid:{}", VALID_UUID)
    ));
    assert!(!wire::valid_volume_id(&"".to_string()));
    assert!(!wire::valid_volume_id(&"node-a".to_string()));
}
