use volume_model::lifecycle::{
    apply_operation, create_volume, lifecycle, publish_volume, set_volume_replica, share_volume,
    topology_valid, unpublish_volume, unshare_volume, LifecycleState, VolumeOperation,
};
use volume_model::model::{
    ExplicitTopology, LabelledTopology, NodeTopology, PoolTopology, Protocol, Topology,
    VolumeHealPolicy, VolumeShareProtocol, VolumeStatus,
};
use volume_model::requests::CreateVolume;
use volume_model::VolumeError;

fn create_request(uuid: &str, size: u64, replicas: u64) -> CreateVolume {
    CreateVolume {
        uuid: uuid.to_string(),
        size,
        replicas,
        policy: VolumeHealPolicy { self_heal: false, topology: None },
        topology: Topology { labelled: None, explicit: None },
    }
}

#[test]
fn create_yields_unpublished_volume_without_state() {
    let req = create_request("u1", 1073741824, 1);
    let volume = create_volume(&req).unwrap();
    assert!(volume.state.is_none());
    assert_eq!(volume.spec.uuid, "u1".to_string());
    assert_eq!(volume.spec.size, 1073741824);
    assert_eq!(volume.spec.num_replicas, 1);
    assert_eq!(lifecycle(&volume), LifecycleState::Unpublished);
}

#[test]
fn create_rejects_zero_size_and_zero_replicas() {
    assert!(matches!(
        create_volume(&create_request("u1", 0, 1)),
        Err(VolumeError::InvalidArgument)
    ));
    assert!(matches!(
        create_volume(&create_request("u1", 1, 0)),
        Err(VolumeError::InvalidArgument)
    ));
}

#[test]
fn create_rejects_ambiguous_topology() {
    let mut req = create_request("u1", 1, 1);
    req.topology = Topology {
        labelled: Some(LabelledTopology {
            node_topology: NodeTopology { exclusion: vec![], inclusion: vec![] },
            pool_topology: PoolTopology { inclusion: vec![] },
        }),
        explicit: Some(ExplicitTopology { allowed_nodes: vec![], preferred_nodes: vec![] }),
    };
    assert!(matches!(create_volume(&req), Err(VolumeError::InvalidTopology)));
}

#[test]
fn create_rejects_preferred_outside_allowed() {
    let mut req = create_request("u1", 1, 1);
    req.topology = Topology {
        labelled: None,
        explicit: Some(ExplicitTopology {
            allowed_nodes: vec!["node-a".to_string()],
            preferred_nodes: vec!["node-b".to_string()],
        }),
    };
    assert!(!topology_valid(&req.topology));
    assert!(matches!(create_volume(&req), Err(VolumeError::InvalidTopology)));
}

#[test]
fn publish_with_share_reaches_shared() {
    let volume = create_volume(&create_request("u1", 1073741824, 1)).unwrap();
    let published = publish_volume(
        &volume,
        &"node-a".to_string(),
        Some(VolumeShareProtocol::Nvmf),
    );
    let state = published.state.as_ref().unwrap();
    assert_eq!(state.children.len(), 1);
    assert_eq!(state.children[0].node, "node-a".to_string());
    assert_eq!(state.protocol, Protocol::Nvmf);
    assert_eq!(state.status, VolumeStatus::Online);
    assert_eq!(state.size, 1073741824);
    assert_eq!(lifecycle(&published), LifecycleState::Shared);
}

#[test]
fn publish_without_share_reaches_published() {
    let volume = create_volume(&create_request("u1", 64, 1)).unwrap();
    let published = publish_volume(&volume, &"node-a".to_string(), None);
    assert_eq!(lifecycle(&published), LifecycleState::Published);
    assert_eq!(published.state.unwrap().protocol, Protocol::Off);
}

#[test]
fn share_requires_published_state() {
    let volume = create_volume(&create_request("u1", 64, 1)).unwrap();
    // Unpublished: no nexus to share.
    assert!(matches!(
        share_volume(&volume, VolumeShareProtocol::Iscsi),
        Err(VolumeError::IllegalTransition)
    ));
    let published = publish_volume(&volume, &"node-a".to_string(), None);
    let shared = share_volume(&published, VolumeShareProtocol::Iscsi).unwrap();
    assert_eq!(lifecycle(&shared), LifecycleState::Shared);
    assert_eq!(shared.state.as_ref().unwrap().protocol, Protocol::Iscsi);
    assert_eq!(shared.state.as_ref().unwrap().children[0].share, Protocol::Iscsi);
}

#[test]
fn share_on_already_shared_volume_fails() {
    let volume = create_volume(&create_request("u1", 64, 1)).unwrap();
    let shared = publish_volume(&volume, &"node-a".to_string(), Some(VolumeShareProtocol::Nvmf));
    assert_eq!(lifecycle(&shared), LifecycleState::Shared);
    // Re-sharing, even over another protocol, is an illegal transition.
    assert!(matches!(
        share_volume(&shared, VolumeShareProtocol::Iscsi),
        Err(VolumeError::IllegalTransition)
    ));
    // The protocol is unchanged.
    assert_eq!(shared.state.unwrap().protocol, Protocol::Nvmf);
}

#[test]
fn unshare_moves_back_to_published() {
    let volume = create_volume(&create_request("u1", 64, 1)).unwrap();
    let shared = publish_volume(&volume, &"node-a".to_string(), Some(VolumeShareProtocol::Nvmf));
    let unshared = unshare_volume(&shared).unwrap();
    assert_eq!(lifecycle(&unshared), LifecycleState::Published);
    assert_eq!(unshared.state.unwrap().protocol, Protocol::Off);
    // Unsharing an unshared volume is an illegal transition.
    let published = publish_volume(&volume, &"node-a".to_string(), None);
    assert!(matches!(unshare_volume(&published), Err(VolumeError::IllegalTransition)));
}

#[test]
fn unpublish_clears_children() {
    let volume = create_volume(&create_request("u1", 64, 1)).unwrap();
    let shared = publish_volume(&volume, &"node-a".to_string(), Some(VolumeShareProtocol::Nvmf));
    let unpublished = unpublish_volume(&shared);
    assert_eq!(lifecycle(&unpublished), LifecycleState::Unpublished);
    let state = unpublished.state.unwrap();
    assert!(state.children.is_empty());
    assert_eq!(state.protocol, Protocol::Off);
    // Idempotent on a never-reconciled volume.
    let untouched = unpublish_volume(&volume);
    assert!(untouched.state.is_none());
}

#[test]
fn full_lifecycle_through_the_dispatcher() {
    let created = apply_operation(
        None,
        &VolumeOperation::Create(create_request("u1", 1073741824, 1)),
    )
    .unwrap();
    assert_eq!(lifecycle(created.as_ref().unwrap()), LifecycleState::Unpublished);

    let published = apply_operation(
        created,
        &VolumeOperation::Publish { node: "node-a".to_string(), share: None },
    )
    .unwrap();
    assert_eq!(lifecycle(published.as_ref().unwrap()), LifecycleState::Published);

    let shared = apply_operation(
        published,
        &VolumeOperation::Share(VolumeShareProtocol::Nvmf),
    )
    .unwrap();
    assert_eq!(lifecycle(shared.as_ref().unwrap()), LifecycleState::Shared);

    let unshared = apply_operation(shared, &VolumeOperation::Unshare).unwrap();
    let unpublished = apply_operation(unshared, &VolumeOperation::Unpublish).unwrap();
    assert_eq!(lifecycle(unpublished.as_ref().unwrap()), LifecycleState::Unpublished);

    let destroyed = apply_operation(unpublished, &VolumeOperation::Destroy).unwrap();
    assert!(destroyed.is_none());
}

#[test]
fn dispatcher_rejects_missing_and_duplicate_volumes() {
    // Nothing but creation is legal on a missing or destroyed volume.
    assert!(matches!(
        apply_operation(None, &VolumeOperation::Unpublish),
        Err(VolumeError::IllegalTransition)
    ));
    assert!(matches!(
        apply_operation(None, &VolumeOperation::Destroy),
        Err(VolumeError::IllegalTransition)
    ));
    // Creating a volume that already exists is illegal in turn.
    let existing = create_volume(&create_request("u1", 64, 1)).unwrap();
    assert!(matches!(
        apply_operation(
            Some(existing),
            &VolumeOperation::Create(create_request("u1", 64, 1))
        ),
        Err(VolumeError::IllegalTransition)
    ));
}

#[test]
fn set_volume_replica_bounds() {
    let volume = create_volume(&create_request("u1", 64, 1)).unwrap();
    let adjusted = set_volume_replica(&volume, 3).unwrap();
    assert_eq!(adjusted.spec.num_replicas, 3);
    assert!(matches!(set_volume_replica(&volume, 0), Err(VolumeError::InvalidArgument)));
    let max = set_volume_replica(&volume, 255).unwrap();
    assert_eq!(max.spec.num_replicas, 255);
}
