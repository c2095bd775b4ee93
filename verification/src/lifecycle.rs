//! Publish/share lifecycle state machine: pure transitions from an observed
//! volume and a lifecycle request to the next volume value or a structured
//! error. Placement and nexus orchestration are delegated to the caller;
//! every function here is a synchronous computation over in-memory values.
use vstd::prelude::*;
use crate::VolumeError;
use crate::model::{
    protocol_of_share, topology_wf, Nexus, NexusView, Protocol, Topology, Volume, VolumeSpec,
    VolumeSpecView, VolumeState, VolumeStateView, VolumeStatus, VolumeShareProtocol, VolumeView,
};
use crate::requests::CreateVolume;

verus! {

/// Where a volume stands in its lifecycle, derived from its observed state.
#[derive(Clone, Copy, Debug, PartialEq, Eq, Structural)]
pub enum LifecycleState {
    /// No nexus exists (or the volume was never reconciled).
    Unpublished,
    /// Exactly one nexus exists, not shared over a network protocol.
    Published,
    /// Exactly one nexus exists, shared over a network protocol.
    Shared,
    /// More than one nexus exists: illegal under the single-nexus
    /// assumption, and no transition is legal from here but unpublishing.
    Indeterminate,
}

/// Lifecycle position of a volume value.
pub open spec fn lifecycle_of(v: VolumeView) -> LifecycleState {
    match v.state {
        Option::None => LifecycleState::Unpublished,
        Option::Some(s) => if s.children.len() == 0 {
            LifecycleState::Unpublished
        } else if s.children.len() > 1 {
            LifecycleState::Indeterminate
        } else if s.protocol is Off {
            LifecycleState::Published
        } else {
            LifecycleState::Shared
        },
    }
}

/// Compute the lifecycle position of a volume.
pub fn lifecycle(v: &Volume) -> (r: LifecycleState)
    ensures
        r == lifecycle_of(v@),
{
    match &v.state {
        Option::None => LifecycleState::Unpublished,
        Option::Some(s) => {
            if s.children.len() == 0 {
                LifecycleState::Unpublished
            } else if s.children.len() > 1 {
                LifecycleState::Indeterminate
            } else if matches!(s.protocol, Protocol::Off) {
                LifecycleState::Published
            } else {
                LifecycleState::Shared
            }
        },
    }
}

/// The volume a valid creation request produces: the requested spec, with
/// no observed state until the first reconciliation.
pub open spec fn created_view(req: CreateVolume) -> VolumeView {
    VolumeView {
        spec: VolumeSpecView {
            uuid: req.uuid@,
            size: req.size,
            num_replicas: req.replicas,
            policy: req.policy@,
            topology: req.topology@,
        },
        state: Option::None,
    }
}

/// Validate a creation request and produce the new, unpublished volume:
/// the size must be positive, the replica count at least one, and the
/// topology well-formed. Replica placement itself is delegated to the
/// external scheduler.
pub fn create_volume(req: &CreateVolume) -> (r: Result<Volume, VolumeError>)
    ensures
        req.size == 0 || req.replicas == 0 ==> r == Result::<Volume, VolumeError>::Err(
            VolumeError::InvalidArgument,
        ),
        req.size > 0 && req.replicas > 0 && !topology_wf(req.topology@) ==> r == Result::<
            Volume,
            VolumeError,
        >::Err(VolumeError::InvalidTopology),
        req.size > 0 && req.replicas > 0 && topology_wf(req.topology@) ==> (match r {
            Result::Ok(v) => v@ == created_view(*req) && lifecycle_of(v@)
                == LifecycleState::Unpublished,
            Result::Err(_) => false,
        }),
{
    if req.size == 0 || req.replicas == 0 {
        return Result::Err(VolumeError::InvalidArgument);
    }
    if !topology_valid(&req.topology) {
        return Result::Err(VolumeError::InvalidTopology);
    }
    Result::Ok(
        Volume {
            spec: VolumeSpec {
                uuid: req.uuid.clone(),
                size: req.size,
                num_replicas: req.replicas,
                policy: req.policy.clone(),
                topology: req.topology.clone(),
            },
            state: Option::None,
        },
    )
}

/// Whether the string `node` occurs in a node id list.
fn contains_node(list: &Vec<String>, node: &String) -> (b: bool)
    ensures
        b == list@.map_values(|s: String| s@).contains(node@),
{
    let mut i: usize = 0;
    while i < list.len()
        invariant
            0 <= i <= list@.len(),
            forall|k: int| 0 <= k < i ==> list@[k]@ != node@,
        decreases list@.len() - i,
    {
        if list[i] == *node {
            assert(list@.map_values(|s: String| s@)[i as int] == node@);
            return true;
        }
        i += 1;
    }
    false
}

/// Whether a topology is well-formed: not both labelled and explicit, and
/// the preferred nodes a subset of the allowed nodes where both lists are
/// non-empty.
pub fn topology_valid(t: &Topology) -> (b: bool)
    ensures
        b == topology_wf(t@),
{
    if matches!(t.labelled, Option::Some(_)) && matches!(t.explicit, Option::Some(_)) {
        return false;
    }
    match &t.explicit {
        Option::None => true,
        Option::Some(e) => {
            if e.allowed_nodes.len() == 0 || e.preferred_nodes.len() == 0 {
                return true;
            }
            let mut i: usize = 0;
            while i < e.preferred_nodes.len()
                invariant
                    0 <= i <= e.preferred_nodes@.len(),
                    t@.explicit == Option::Some(e@),
                    !(t@.labelled is Some),
                    e@.allowed_nodes.len() != 0,
                    e@.preferred_nodes.len() != 0,
                    forall|k: int|
                        0 <= k < i ==> e@.allowed_nodes.contains(#[trigger] e@.preferred_nodes[k]),
                decreases e.preferred_nodes@.len() - i,
            {
                if !contains_node(&e.allowed_nodes, &e.preferred_nodes[i]) {
                    proof {
                        assert(e@.preferred_nodes[i as int] == e.preferred_nodes@[i as int]@);
                        assert(!e@.allowed_nodes.contains(e@.preferred_nodes[i as int]));
                        assert(!topology_wf(t@));
                    }
                    return false;
                }
                i += 1;
            }
            true
        },
    }
}

/// The volume that publishing on `node` with an optional share protocol
/// produces: one fresh nexus on that node, sized from the spec, online,
/// and shared as requested.
pub open spec fn published_view(
    v: VolumeView,
    node: Seq<char>,
    share: Option<VolumeShareProtocol>,
) -> VolumeView {
    let nexus = NexusView {
        node,
        size: v.spec.size,
        status: VolumeStatus::Online,
        share: protocol_of_share(share),
    };
    VolumeView {
        spec: v.spec,
        state: Option::Some(
            VolumeStateView {
                uuid: v.spec.uuid,
                size: v.spec.size,
                status: VolumeStatus::Online,
                protocol: protocol_of_share(share),
                children: seq![nexus],
            },
        ),
    }
}

/// The requested share protocol as a nexus protocol, `Off` when absent.
pub fn share_protocol(share: Option<VolumeShareProtocol>) -> (p: Protocol)
    ensures
        p == protocol_of_share(share),
{
    match share {
        Option::None => Protocol::Off,
        Option::Some(VolumeShareProtocol::Nvmf) => Protocol::Nvmf,
        Option::Some(VolumeShareProtocol::Iscsi) => Protocol::Iscsi,
    }
}

/// Publish a volume on `node`: any existing nexus is unpublished first (at
/// most one nexus is ever active), a fresh nexus is created on the node,
/// and it is shared via the given protocol when one is supplied. The node
/// is the request's target node, or the scheduler's choice when the
/// request names none.
pub fn publish_volume(v: &Volume, node: &String, share: Option<VolumeShareProtocol>) -> (r: Volume)
    ensures
        r@ == published_view(v@, node@, share),
        share is Some ==> lifecycle_of(r@) == LifecycleState::Shared,
        share is None ==> lifecycle_of(r@) == LifecycleState::Published,
{
    let protocol = share_protocol(share);
    let nexus = Nexus {
        node: node.clone(),
        size: v.spec.size,
        status: VolumeStatus::Online,
        share: protocol,
    };
    let mut children: Vec<Nexus> = Vec::new();
    children.push(nexus);
    proof {
        assert(children@.map_values(|n: Nexus| n@) =~= seq![
            NexusView {
                node: node@,
                size: v.spec.size,
                status: VolumeStatus::Online,
                share: protocol_of_share(share),
            },
        ]);
    }
    Volume {
        spec: v.spec.clone(),
        state: Option::Some(
            VolumeState {
                uuid: v.spec.uuid.clone(),
                size: v.spec.size,
                status: VolumeStatus::Online,
                protocol,
                children,
            },
        ),
    }
}

/// The volume that unpublishing produces: the nexus set emptied and the
/// share protocol cleared; a never-reconciled volume is left as it is.
pub open spec fn unpublished_view(v: VolumeView) -> VolumeView {
    match v.state {
        Option::None => v,
        Option::Some(s) => VolumeView {
            spec: v.spec,
            state: Option::Some(
                VolumeStateView {
                    uuid: s.uuid,
                    size: s.size,
                    status: s.status,
                    protocol: Protocol::Off,
                    children: Seq::empty(),
                },
            ),
        },
    }
}

/// Unpublish a volume from any node where it may be published: unshares
/// and destroys all children nexuses. Idempotent: an already unpublished
/// volume is returned unchanged.
pub fn unpublish_volume(v: &Volume) -> (r: Volume)
    ensures
        r@ == unpublished_view(v@),
        lifecycle_of(r@) == LifecycleState::Unpublished,
{
    match &v.state {
        Option::None => v.clone(),
        Option::Some(s) => {
            let children: Vec<Nexus> = Vec::new();
            proof {
                assert(children@.map_values(|n: Nexus| n@) =~= Seq::<NexusView>::empty());
            }
            Volume {
                spec: v.spec.clone(),
                state: Option::Some(
                    VolumeState {
                        uuid: s.uuid.clone(),
                        size: s.size,
                        status: s.status,
                        protocol: Protocol::Off,
                        children,
                    },
                ),
            }
        },
    }
}

/// The protocol a share request asks for, as a nexus protocol.
pub open spec fn protocol_of(p: VolumeShareProtocol) -> Protocol {
    protocol_of_share(Option::Some(p))
}

/// The volume that sharing a published volume produces: the single nexus
/// and the volume state both carry the requested protocol.
pub open spec fn shared_view(v: VolumeView, p: VolumeShareProtocol) -> VolumeView {
    let s = v.state->0;
    VolumeView {
        spec: v.spec,
        state: Option::Some(
            VolumeStateView {
                uuid: s.uuid,
                size: s.size,
                status: s.status,
                protocol: protocol_of(p),
                children: seq![
                    NexusView {
                        node: s.children[0].node,
                        size: s.children[0].size,
                        status: s.children[0].status,
                        share: protocol_of(p),
                    },
                ],
            },
        ),
    }
}

/// Share a published volume over a network protocol. Legal only from the
/// published, unshared position: sharing an unpublished volume, or one
/// that is already shared (over any protocol), fails with
/// `IllegalTransition` — re-sharing never silently changes the protocol;
/// unshare first.
pub fn share_volume(v: &Volume, protocol: VolumeShareProtocol) -> (r: Result<Volume, VolumeError>)
    ensures
        lifecycle_of(v@) != LifecycleState::Published ==> r == Result::<Volume, VolumeError>::Err(
            VolumeError::IllegalTransition,
        ),
        lifecycle_of(v@) == LifecycleState::Published ==> (match r {
            Result::Ok(shared) => shared@ == shared_view(v@, protocol) && lifecycle_of(shared@)
                == LifecycleState::Shared,
            Result::Err(_) => false,
        }),
{
    match &v.state {
        Option::None => Result::Err(VolumeError::IllegalTransition),
        Option::Some(s) => {
            if s.children.len() != 1 || !matches!(s.protocol, Protocol::Off) {
                return Result::Err(VolumeError::IllegalTransition);
            }
            let p = share_protocol(Option::Some(protocol));
            let child = &s.children[0];
            let nexus = Nexus { node: child.node.clone(), size: child.size, status: child.status, share: p };
            let mut children: Vec<Nexus> = Vec::new();
            children.push(nexus);
            proof {
                assert(children@.map_values(|n: Nexus| n@) =~= shared_view(
                    v@,
                    protocol,
                ).state->0.children);
            }
            Result::Ok(
                Volume {
                    spec: v.spec.clone(),
                    state: Option::Some(
                        VolumeState {
                            uuid: s.uuid.clone(),
                            size: s.size,
                            status: s.status,
                            protocol: p,
                            children,
                        },
                    ),
                },
            )
        },
    }
}

/// The volume that unsharing a shared volume produces: the single nexus
/// and the volume state both fall back to `Off`.
pub open spec fn unshared_view(v: VolumeView) -> VolumeView {
    let s = v.state->0;
    VolumeView {
        spec: v.spec,
        state: Option::Some(
            VolumeStateView {
                uuid: s.uuid,
                size: s.size,
                status: s.status,
                protocol: Protocol::Off,
                children: seq![
                    NexusView {
                        node: s.children[0].node,
                        size: s.children[0].size,
                        status: s.children[0].status,
                        share: Protocol::Off,
                    },
                ],
            },
        ),
    }
}

/// Stop sharing a volume: legal only from the shared position, and moves
/// the volume back to published.
pub fn unshare_volume(v: &Volume) -> (r: Result<Volume, VolumeError>)
    ensures
        lifecycle_of(v@) != LifecycleState::Shared ==> r == Result::<Volume, VolumeError>::Err(
            VolumeError::IllegalTransition,
        ),
        lifecycle_of(v@) == LifecycleState::Shared ==> (match r {
            Result::Ok(unshared) => unshared@ == unshared_view(v@) && lifecycle_of(unshared@)
                == LifecycleState::Published,
            Result::Err(_) => false,
        }),
{
    match &v.state {
        Option::None => Result::Err(VolumeError::IllegalTransition),
        Option::Some(s) => {
            if s.children.len() != 1 || matches!(s.protocol, Protocol::Off) {
                return Result::Err(VolumeError::IllegalTransition);
            }
            let child = &s.children[0];
            let nexus = Nexus {
                node: child.node.clone(),
                size: child.size,
                status: child.status,
                share: Protocol::Off,
            };
            let mut children: Vec<Nexus> = Vec::new();
            children.push(nexus);
            proof {
                assert(children@.map_values(|n: Nexus| n@) =~= unshared_view(v@).state->0.children);
            }
            Result::Ok(
                Volume {
                    spec: v.spec.clone(),
                    state: Option::Some(
                        VolumeState {
                            uuid: s.uuid.clone(),
                            size: s.size,
                            status: s.status,
                            protocol: Protocol::Off,
                            children,
                        },
                    ),
                },
            )
        },
    }
}

/// Adjust the desired replica count of a volume that is not destroyed:
/// the count must lie between one and the `u8` maximum, and only the
/// desired spec changes — replica addition or removal is delegated to the
/// external scheduler.
pub fn set_volume_replica(v: &Volume, replicas: u8) -> (r: Result<Volume, VolumeError>)
    ensures
        replicas == 0 ==> r == Result::<Volume, VolumeError>::Err(VolumeError::InvalidArgument),
        replicas > 0 ==> (match r {
            Result::Ok(adjusted) => adjusted@ == (VolumeView {
                spec: VolumeSpecView { num_replicas: replicas as u64, ..v@.spec },
                state: v@.state,
            }),
            Result::Err(_) => false,
        }),
{
    if replicas == 0 {
        return Result::Err(VolumeError::InvalidArgument);
    }
    let mut adjusted = v.clone();
    adjusted.spec.num_replicas = replicas as u64;
    Result::Ok(adjusted)
}

/// One lifecycle operation, with any outside decision already resolved:
/// for a publish, the node is the request's target node or, where the
/// request named none, the node the external scheduler picked.
pub enum VolumeOperation {
    /// Create the volume.
    Create(CreateVolume),
    /// Publish it on a node, optionally sharing it.
    Publish { node: String, share: Option<VolumeShareProtocol> },
    /// Unpublish it from wherever it is published.
    Unpublish,
    /// Share it over a network protocol.
    Share(VolumeShareProtocol),
    /// Stop sharing it.
    Unshare,
    /// Adjust the desired replica count.
    SetReplica(u8),
    /// Destroy it, removing the volume record.
    Destroy,
}

/// View of a volume record: `None` when the volume does not exist, because
/// it was never created or because it was destroyed.
pub open spec fn record_view(record: Option<Volume>) -> Option<VolumeView> {
    match record {
        Option::None => Option::None,
        Option::Some(v) => Option::Some(v@),
    }
}

/// Whether a transition result is a success yielding the expected record.
pub open spec fn steps_to(
    r: Result<Option<Volume>, VolumeError>,
    expected: Option<VolumeView>,
) -> bool {
    match r {
        Result::Ok(rec) => record_view(rec) == expected,
        Result::Err(_) => false,
    }
}

/// Apply one lifecycle operation to a volume record. A record of `None`
/// stands for a volume that does not exist — never created, or destroyed,
/// the terminal state: only creation is legal there, and creating an
/// existing volume is illegal in turn. Destruction always succeeds on an
/// existing volume, whatever its lifecycle position, and removes the
/// record.
pub fn apply_operation(record: Option<Volume>, op: &VolumeOperation) -> (r: Result<
    Option<Volume>,
    VolumeError,
>)
    ensures
        record is None ==> (match *op {
            VolumeOperation::Create(req) => {
                &&& (req.size == 0 || req.replicas == 0) ==> r == Result::<
                    Option<Volume>,
                    VolumeError,
                >::Err(VolumeError::InvalidArgument)
                &&& (req.size > 0 && req.replicas > 0 && !topology_wf(req.topology@)) ==> r
                    == Result::<Option<Volume>, VolumeError>::Err(VolumeError::InvalidTopology)
                &&& (req.size > 0 && req.replicas > 0 && topology_wf(req.topology@)) ==> steps_to(
                    r,
                    Option::Some(created_view(req)),
                )
            },
            _ => r == Result::<Option<Volume>, VolumeError>::Err(VolumeError::IllegalTransition),
        }),
        record matches Some(v) ==> (match *op {
            VolumeOperation::Create(_) => r == Result::<Option<Volume>, VolumeError>::Err(
                VolumeError::IllegalTransition,
            ),
            VolumeOperation::Publish { node, share } => steps_to(
                r,
                Option::Some(published_view(v@, node@, share)),
            ),
            VolumeOperation::Unpublish => steps_to(r, Option::Some(unpublished_view(v@))),
            VolumeOperation::Share(p) => if lifecycle_of(v@) == LifecycleState::Published {
                steps_to(r, Option::Some(shared_view(v@, p)))
            } else {
                r == Result::<Option<Volume>, VolumeError>::Err(VolumeError::IllegalTransition)
            },
            VolumeOperation::Unshare => if lifecycle_of(v@) == LifecycleState::Shared {
                steps_to(r, Option::Some(unshared_view(v@)))
            } else {
                r == Result::<Option<Volume>, VolumeError>::Err(VolumeError::IllegalTransition)
            },
            VolumeOperation::SetReplica(n) => if n == 0 {
                r == Result::<Option<Volume>, VolumeError>::Err(VolumeError::InvalidArgument)
            } else {
                steps_to(
                    r,
                    Option::Some(
                        VolumeView {
                            spec: VolumeSpecView { num_replicas: n as u64, ..v@.spec },
                            state: v@.state,
                        },
                    ),
                )
            },
            VolumeOperation::Destroy => steps_to(r, Option::None),
        }),
{
    match record {
        Option::None => match op {
            VolumeOperation::Create(req) => match create_volume(req) {
                Result::Ok(v) => Result::Ok(Option::Some(v)),
                Result::Err(e) => Result::Err(e),
            },
            _ => Result::Err(VolumeError::IllegalTransition),
        },
        Option::Some(v) => match op {
            VolumeOperation::Create(_) => Result::Err(VolumeError::IllegalTransition),
            VolumeOperation::Publish { node, share } => Result::Ok(
                Option::Some(publish_volume(&v, node, *share)),
            ),
            VolumeOperation::Unpublish => Result::Ok(Option::Some(unpublish_volume(&v))),
            VolumeOperation::Share(p) => match share_volume(&v, *p) {
                Result::Ok(shared) => Result::Ok(Option::Some(shared)),
                Result::Err(e) => Result::Err(e),
            },
            VolumeOperation::Unshare => match unshare_volume(&v) {
                Result::Ok(unshared) => Result::Ok(Option::Some(unshared)),
                Result::Err(e) => Result::Err(e),
            },
            VolumeOperation::SetReplica(n) => match set_volume_replica(&v, *n) {
                Result::Ok(adjusted) => Result::Ok(Option::Some(adjusted)),
                Result::Err(e) => Result::Err(e),
            },
            VolumeOperation::Destroy => Result::Ok(Option::None),
        },
    }
}

} // verus!
