//! Lifecycle request value objects: one typed record per legal volume
//! operation, carrying no behaviour beyond validated construction.
use vstd::prelude::*;
use crate::model::{Topology, Volume, VolumeHealPolicy, VolumeShareProtocol};

verus! {

/// Selects which volumes a `GetVolumes` request returns.
pub enum Filter {
    /// Every volume.
    All,
    /// Only the volume with this id.
    Volume(String),
}

/// Whether a volume passes a filter.
pub open spec fn filter_admits(filter: Filter, v: crate::model::VolumeView) -> bool {
    match filter {
        Filter::All => true,
        Filter::Volume(uuid) => v.spec.uuid == uuid@,
    }
}

/// Get volumes.
pub struct GetVolumes {
    /// Filter volumes.
    pub filter: Filter,
}

/// List the volumes that pass the request's filter, in their original order.
pub fn get_volumes(volumes: &Vec<Volume>, request: &GetVolumes) -> (res: Vec<Volume>)
    ensures
        res@.map_values(|v: Volume| v@) == volumes@.map_values(|v: Volume| v@).filter(
            |v: crate::model::VolumeView| filter_admits(request.filter, v),
        ),
{
    let ghost admits = |v: crate::model::VolumeView| filter_admits(request.filter, v);
    let mut res: Vec<Volume> = Vec::new();
    let mut i: usize = 0;
    while i < volumes.len()
        invariant
            i <= volumes.len(),
            res@.map_values(|v: Volume| v@) == volumes@.subrange(0, i as int).map_values(
                |v: Volume| v@,
            ).filter(admits),
            admits == (|v: crate::model::VolumeView| filter_admits(request.filter, v)),
        decreases volumes.len() - i,
    {
        let ghost prefix = volumes@.subrange(0, i as int).map_values(|v: Volume| v@);
        let admitted = match &request.filter {
            Filter::All => true,
            Filter::Volume(uuid) => volumes[i].spec.uuid == *uuid,
        };
        proof {
            assert(admitted == admits(volumes@[i as int]@));
        }
        if admitted {
            res.push(volumes[i].clone());
        }
        proof {
            let x = volumes@[i as int]@;
            let next = volumes@.subrange(0, i + 1 as int).map_values(|v: Volume| v@);
            assert(next =~= prefix.push(x));
            assert(prefix.push(x).drop_last() =~= prefix);
            assert(prefix.push(x).last() == x);
            reveal_with_fuel(Seq::filter, 2);
            assert(prefix.push(x).filter(admits) == if admits(x) {
                prefix.filter(admits).push(x)
            } else {
                prefix.filter(admits)
            });
            assert(res@.map_values(|v: Volume| v@) =~= next.filter(admits));
        }
        i += 1;
    }
    proof {
        assert(volumes@.subrange(0, volumes@.len() as int) =~= volumes@);
    }
    res
}

/// Create volume.
pub struct CreateVolume {
    /// Id of the volume.
    pub uuid: String,
    /// Size of the volume in bytes.
    pub size: u64,
    /// Number of storage replicas.
    pub replicas: u64,
    /// Volume healing policy.
    pub policy: VolumeHealPolicy,
    /// Initial replica placement topology.
    pub topology: Topology,
}

impl CreateVolume {
    /// The explicitly selected allowed nodes, empty when the topology has no
    /// explicit part.
    pub fn allowed_nodes(&self) -> (res: Vec<String>)
        ensures
            res@.map_values(|s: String| s@) == (match self.topology@.explicit {
                Option::None => Seq::<Seq<char>>::empty(),
                Option::Some(e) => e.allowed_nodes,
            }),
    {
        match &self.topology.explicit {
            Option::None => {
                let res: Vec<String> = Vec::new();
                proof {
                    assert(res@.map_values(|s: String| s@) =~= Seq::<Seq<char>>::empty());
                }
                res
            },
            Option::Some(e) => {
                let res = e.allowed_nodes.clone();
                proof {
                    assert(res@ =~= e.allowed_nodes@);
                }
                res
            },
        }
    }
}

/// Add a nexus to a volume: reserved for future multi-nexus support.
pub struct AddVolumeNexus {
    /// Id of the volume.
    pub uuid: String,
    /// Preferred node id for the nexus.
    pub preferred_node: Option<String>,
}

/// Remove a nexus from a volume: reserved for future multi-nexus support.
pub struct RemoveVolumeNexus {
    /// Id of the volume.
    pub uuid: String,
    /// Id of the node where the nexus lives.
    pub node: Option<String>,
}

/// Publish a volume on a node.
/// Unpublishes the nexus if it is published somewhere else and creates a
/// nexus on the given node; then shares the nexus via the provided share
/// protocol, if any.
pub struct PublishVolume {
    /// Id of the volume.
    pub uuid: String,
    /// The node where front-end IO will be sent to.
    pub target_node: Option<String>,
    /// Share protocol.
    pub share: Option<VolumeShareProtocol>,
}

impl PublishVolume {
    /// Create a new `PublishVolume` from the provided arguments.
    pub fn new(
        uuid: String,
        target_node: Option<String>,
        share: Option<VolumeShareProtocol>,
    ) -> (res: Self)
        ensures
            res.uuid == uuid,
            res.target_node == target_node,
            res.share == share,
    {
        PublishVolume { uuid, target_node, share }
    }
}

/// Unpublish a volume from any node where it may be published.
/// Unshares the children nexuses from the volume and destroys them.
pub struct UnpublishVolume {
    /// Id of the volume.
    pub uuid: String,
}

impl UnpublishVolume {
    /// Create a new `UnpublishVolume` for the given id.
    pub fn new(uuid: String) -> (res: Self)
        ensures
            res.uuid == uuid,
    {
        UnpublishVolume { uuid }
    }
}

/// Share a volume over a network protocol.
pub struct ShareVolume {
    /// Id of the volume.
    pub uuid: String,
    /// Share protocol.
    pub protocol: VolumeShareProtocol,
}

/// Unshare a volume.
pub struct UnshareVolume {
    /// Id of the volume.
    pub uuid: String,
}

/// Set the volume replica count.
pub struct SetVolumeReplica {
    /// Id of the volume.
    pub uuid: String,
    /// Replica count.
    pub replicas: u8,
}

impl SetVolumeReplica {
    /// Create a new `SetVolumeReplica` from the provided arguments.
    pub fn new(uuid: String, replicas: u8) -> (res: Self)
        ensures
            res.uuid == uuid,
            res.replicas == replicas,
    {
        SetVolumeReplica { uuid, replicas }
    }
}

/// Delete a volume.
pub struct DestroyVolume {
    /// Id of the volume.
    pub uuid: String,
}

} // verus!
