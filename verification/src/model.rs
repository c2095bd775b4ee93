//! Core volume resource model: status and protocol enumerations, placement
//! labels and topologies, the volume spec/state aggregate, and the lifecycle
//! request value objects.
use vstd::prelude::*;

verus! {

/// Health of a volume, derived from its nexus. The same enumeration serves
/// the nexus itself, so the two can never diverge.
#[derive(Clone, Copy, Debug, PartialEq, Eq, Structural)]
pub enum VolumeStatus {
    Unknown,
    Online,
    Degraded,
    Faulted,
}

/// How a nexus is exposed, `Off` meaning not shared over the network.
#[derive(Clone, Copy, Debug, PartialEq, Eq, Structural)]
pub enum Protocol {
    Off,
    Nvmf,
    Iscsi,
}

/// Network protocols a volume can be shared over. The same enumeration
/// serves the nexus share requests, so the two can never diverge.
#[derive(Clone, Copy, Debug, PartialEq, Eq, Structural)]
pub enum VolumeShareProtocol {
    Nvmf,
    Iscsi,
}

/// The share protocol of a published nexus: the requested network protocol,
/// or `Off` when no share was requested.
pub open spec fn protocol_of_share(share: Option<VolumeShareProtocol>) -> Protocol {
    match share {
        Option::None => Protocol::Off,
        Option::Some(VolumeShareProtocol::Nvmf) => Protocol::Nvmf,
        Option::Some(VolumeShareProtocol::Iscsi) => Protocol::Iscsi,
    }
}

/// Excludes resources that carry the same label name, e.g. "Zone": no two
/// nodes selected for one volume may both carry a "Zone" label, whatever
/// their values. Holds the label name alone, in the form "NAME".
pub struct ExclusiveLabel(pub String);

impl View for ExclusiveLabel {
    type V = Seq<char>;

    open spec fn view(&self) -> Seq<char> {
        self.0@
    }
}

impl Clone for ExclusiveLabel {
    fn clone(&self) -> (res: Self)
        ensures
            res == *self,
    {
        ExclusiveLabel(self.0.clone())
    }
}

impl ExclusiveLabel {
    /// Wrap a raw label name.
    pub fn new(label: String) -> (res: Self)
        ensures
            res@ == label@,
    {
        ExclusiveLabel(label)
    }
}

/// Includes only resources that carry a matching label: "NAME" matches any
/// label with that name, "NAME: VALUE" requires the exact name and value.
pub struct InclusiveLabel(pub String);

impl View for InclusiveLabel {
    type V = Seq<char>;

    open spec fn view(&self) -> Seq<char> {
        self.0@
    }
}

impl Clone for InclusiveLabel {
    fn clone(&self) -> (res: Self)
        ensures
            res == *self,
    {
        InclusiveLabel(self.0.clone())
    }
}

impl InclusiveLabel {
    /// Wrap a raw label, "NAME" or "NAME: VALUE".
    pub fn new(label: String) -> (res: Self)
        ensures
            res@ == label@,
    {
        InclusiveLabel(label)
    }
}

/// A nexus: the single point through which a volume's replicas are exposed
/// on a consuming node.
pub struct Nexus {
    /// Id of the node hosting the nexus.
    pub node: String,
    /// Size of the nexus in bytes.
    pub size: u64,
    /// Health of the nexus.
    pub status: VolumeStatus,
    /// Protocol the nexus is currently shared over, if any.
    pub share: Protocol,
}

/// Mathematical value of a [`Nexus`].
#[verifier::ext_equal]
pub struct NexusView {
    pub node: Seq<char>,
    pub size: u64,
    pub status: VolumeStatus,
    pub share: Protocol,
}

impl View for Nexus {
    type V = NexusView;

    open spec fn view(&self) -> NexusView {
        NexusView { node: self.node@, size: self.size, status: self.status, share: self.share }
    }
}

impl Clone for Nexus {
    fn clone(&self) -> (res: Self)
        ensures
            res == *self,
    {
        Nexus { node: self.node.clone(), size: self.size, status: self.status, share: self.share }
    }
}

/// Node placement constraints: exclusion and inclusion label sets.
pub struct NodeTopology {
    /// Exclusive labels: no two selected nodes may share such a label name.
    pub exclusion: Vec<ExclusiveLabel>,
    /// Inclusive labels: every selected node must match each of them.
    pub inclusion: Vec<InclusiveLabel>,
}

/// Mathematical value of a [`NodeTopology`].
#[verifier::ext_equal]
pub struct NodeTopologyView {
    pub exclusion: Seq<Seq<char>>,
    pub inclusion: Seq<Seq<char>>,
}

impl View for NodeTopology {
    type V = NodeTopologyView;

    open spec fn view(&self) -> NodeTopologyView {
        NodeTopologyView {
            exclusion: self.exclusion@.map_values(|l: ExclusiveLabel| l@),
            inclusion: self.inclusion@.map_values(|l: InclusiveLabel| l@),
        }
    }
}

impl Clone for NodeTopology {
    fn clone(&self) -> (res: Self)
        ensures
            res@ == self@,
    {
        let exclusion = self.exclusion.clone();
        let inclusion = self.inclusion.clone();
        proof {
            assert(exclusion@ =~= self.exclusion@);
            assert(inclusion@ =~= self.inclusion@);
        }
        NodeTopology { exclusion, inclusion }
    }
}

/// Pool placement constraints: an inclusion label set. Pools have no
/// exclusion concept.
pub struct PoolTopology {
    /// Inclusive labels: every selected pool must match each of them.
    pub inclusion: Vec<InclusiveLabel>,
}

impl View for PoolTopology {
    type V = Seq<Seq<char>>;

    open spec fn view(&self) -> Seq<Seq<char>> {
        self.inclusion@.map_values(|l: InclusiveLabel| l@)
    }
}

impl Clone for PoolTopology {
    fn clone(&self) -> (res: Self)
        ensures
            res@ == self@,
    {
        let inclusion = self.inclusion.clone();
        proof {
            assert(inclusion@ =~= self.inclusion@);
        }
        PoolTopology { inclusion }
    }
}

/// Combined node and pool label constraints.
pub struct LabelledTopology {
    /// Node topology.
    pub node_topology: NodeTopology,
    /// Pool topology.
    pub pool_topology: PoolTopology,
}

/// Mathematical value of a [`LabelledTopology`].
#[verifier::ext_equal]
pub struct LabelledTopologyView {
    pub node_topology: NodeTopologyView,
    pub pool_topology: Seq<Seq<char>>,
}

impl View for LabelledTopology {
    type V = LabelledTopologyView;

    open spec fn view(&self) -> LabelledTopologyView {
        LabelledTopologyView {
            node_topology: self.node_topology@,
            pool_topology: self.pool_topology@,
        }
    }
}

impl Clone for LabelledTopology {
    fn clone(&self) -> (res: Self)
        ensures
            res@ == self@,
    {
        LabelledTopology {
            node_topology: self.node_topology.clone(),
            pool_topology: self.pool_topology.clone(),
        }
    }
}

/// Explicit node placement: replicas may only go to `allowed_nodes`, and
/// `preferred_nodes` orders the qualifying candidates.
pub struct ExplicitTopology {
    /// Replicas can only be placed on these nodes.
    pub allowed_nodes: Vec<String>,
    /// Preferred nodes to place the replicas.
    pub preferred_nodes: Vec<String>,
}

/// Mathematical value of an [`ExplicitTopology`].
#[verifier::ext_equal]
pub struct ExplicitTopologyView {
    pub allowed_nodes: Seq<Seq<char>>,
    pub preferred_nodes: Seq<Seq<char>>,
}

impl View for ExplicitTopology {
    type V = ExplicitTopologyView;

    open spec fn view(&self) -> ExplicitTopologyView {
        ExplicitTopologyView {
            allowed_nodes: self.allowed_nodes@.map_values(|s: String| s@),
            preferred_nodes: self.preferred_nodes@.map_values(|s: String| s@),
        }
    }
}

impl Clone for ExplicitTopology {
    fn clone(&self) -> (res: Self)
        ensures
            res@ == self@,
    {
        let allowed_nodes = self.allowed_nodes.clone();
        let preferred_nodes = self.preferred_nodes.clone();
        proof {
            assert(allowed_nodes@ =~= self.allowed_nodes@);
            assert(preferred_nodes@ =~= self.preferred_nodes@);
        }
        ExplicitTopology { allowed_nodes, preferred_nodes }
    }
}

/// Top-level placement directive: label-based, explicit, or unconstrained.
/// At most one of `labelled` and `explicit` may be populated; validation
/// rejects the ambiguous both-set combination (see `topology_wf`).
pub struct Topology {
    /// Volume topology using labels.
    pub labelled: Option<LabelledTopology>,
    /// Volume topology, explicitly selected.
    pub explicit: Option<ExplicitTopology>,
}

/// Mathematical value of a [`Topology`].
#[verifier::ext_equal]
pub struct TopologyView {
    pub labelled: Option<LabelledTopologyView>,
    pub explicit: Option<ExplicitTopologyView>,
}

impl View for Topology {
    type V = TopologyView;

    open spec fn view(&self) -> TopologyView {
        TopologyView {
            labelled: match self.labelled {
                Option::None => Option::None,
                Option::Some(l) => Option::Some(l@),
            },
            explicit: match self.explicit {
                Option::None => Option::None,
                Option::Some(e) => Option::Some(e@),
            },
        }
    }
}

impl Clone for Topology {
    fn clone(&self) -> (res: Self)
        ensures
            res@ == self@,
    {
        Topology {
            labelled: match &self.labelled {
                Option::None => Option::None,
                Option::Some(l) => Option::Some(l.clone()),
            },
            explicit: match &self.explicit {
                Option::None => Option::None,
                Option::Some(e) => Option::Some(e.clone()),
            },
        }
    }
}

/// A topology is well-formed when it is not ambiguous (labelled and explicit
/// both populated) and, where both node lists are non-empty, the preferred
/// nodes are a subset of the allowed nodes.
pub open spec fn topology_wf(t: TopologyView) -> bool {
    &&& !(t.labelled is Some && t.explicit is Some)
    &&& match t.explicit {
        Option::None => true,
        Option::Some(e) => e.allowed_nodes.len() == 0 || e.preferred_nodes.len() == 0
            || (forall|i: int|
            0 <= i < e.preferred_nodes.len() ==> e.allowed_nodes.contains(
                #[trigger] e.preferred_nodes[i],
            )),
    }
}

/// Healing policy: whether the control plane replaces failed replicas by
/// itself, and an optional topology override for choosing the replacement.
pub struct VolumeHealPolicy {
    /// The server will attempt to heal the volume by itself; the client
    /// should not attempt to do the same if this is enabled.
    pub self_heal: bool,
    /// Topology to choose a replacement replica for self healing
    /// (overrides the initial creation topology).
    pub topology: Option<Topology>,
}

/// Mathematical value of a [`VolumeHealPolicy`].
#[verifier::ext_equal]
pub struct VolumeHealPolicyView {
    pub self_heal: bool,
    pub topology: Option<TopologyView>,
}

impl View for VolumeHealPolicy {
    type V = VolumeHealPolicyView;

    open spec fn view(&self) -> VolumeHealPolicyView {
        VolumeHealPolicyView {
            self_heal: self.self_heal,
            topology: match self.topology {
                Option::None => Option::None,
                Option::Some(t) => Option::Some(t@),
            },
        }
    }
}

impl Clone for VolumeHealPolicy {
    fn clone(&self) -> (res: Self)
        ensures
            res@ == self@,
    {
        VolumeHealPolicy {
            self_heal: self.self_heal,
            topology: match &self.topology {
                Option::None => Option::None,
                Option::Some(t) => Option::Some(t.clone()),
            },
        }
    }
}

/// Desired state of a volume: what the caller asked for at creation.
pub struct VolumeSpec {
    /// Id of the volume.
    pub uuid: String,
    /// Size of the volume in bytes.
    pub size: u64,
    /// Desired number of storage replicas.
    pub num_replicas: u64,
    /// Volume healing policy.
    pub policy: VolumeHealPolicy,
    /// Initial replica placement topology.
    pub topology: Topology,
}

/// Mathematical value of a [`VolumeSpec`].
#[verifier::ext_equal]
pub struct VolumeSpecView {
    pub uuid: Seq<char>,
    pub size: u64,
    pub num_replicas: u64,
    pub policy: VolumeHealPolicyView,
    pub topology: TopologyView,
}

impl View for VolumeSpec {
    type V = VolumeSpecView;

    open spec fn view(&self) -> VolumeSpecView {
        VolumeSpecView {
            uuid: self.uuid@,
            size: self.size,
            num_replicas: self.num_replicas,
            policy: self.policy@,
            topology: self.topology@,
        }
    }
}

impl Clone for VolumeSpec {
    fn clone(&self) -> (res: Self)
        ensures
            res@ == self@,
    {
        VolumeSpec {
            uuid: self.uuid.clone(),
            size: self.size,
            num_replicas: self.num_replicas,
            policy: self.policy.clone(),
            topology: self.topology.clone(),
        }
    }
}

/// Observed runtime state of a volume, reduced from its live nexus.
pub struct VolumeState {
    /// Id of the volume this state belongs to.
    pub uuid: String,
    /// Size of the volume in bytes.
    pub size: u64,
    /// Current health of the volume.
    pub status: VolumeStatus,
    /// Current share protocol.
    pub protocol: Protocol,
    /// Children nexuses; at most one under the single-nexus assumption.
    pub children: Vec<Nexus>,
}

/// Mathematical value of a [`VolumeState`].
#[verifier::ext_equal]
pub struct VolumeStateView {
    pub uuid: Seq<char>,
    pub size: u64,
    pub status: VolumeStatus,
    pub protocol: Protocol,
    pub children: Seq<NexusView>,
}

impl View for VolumeState {
    type V = VolumeStateView;

    open spec fn view(&self) -> VolumeStateView {
        VolumeStateView {
            uuid: self.uuid@,
            size: self.size,
            status: self.status,
            protocol: self.protocol,
            children: self.children@.map_values(|n: Nexus| n@),
        }
    }
}

impl Clone for VolumeState {
    fn clone(&self) -> (res: Self)
        ensures
            res@ == self@,
    {
        let children = self.children.clone();
        proof {
            assert(children@ =~= self.children@);
        }
        VolumeState {
            uuid: self.uuid.clone(),
            size: self.size,
            status: self.status,
            protocol: self.protocol,
            children,
        }
    }
}

/// View of an optional volume state.
pub open spec fn opt_state_view(state: Option<VolumeState>) -> Option<VolumeStateView> {
    match state {
        Option::None => Option::None,
        Option::Some(s) => Option::Some(s@),
    }
}

impl VolumeState {
    /// Reduce a single live nexus into the volume's observed state: size,
    /// status and protocol are copied from the nexus, which becomes the sole
    /// child. ANA/multipath is not supported, hence the single nexus.
    pub fn from_nexus(uuid: &String, nexus: &Nexus) -> (res: Self)
        ensures
            res@ == (VolumeStateView {
                uuid: uuid@,
                size: nexus.size,
                status: nexus.status,
                protocol: nexus.share,
                children: seq![nexus@],
            }),
    {
        let mut children: Vec<Nexus> = Vec::new();
        children.push(nexus.clone());
        proof {
            assert(children@.map_values(|n: Nexus| n@) =~= seq![nexus@]);
        }
        VolumeState {
            uuid: uuid.clone(),
            size: nexus.size,
            status: nexus.status,
            protocol: nexus.share,
            children,
        }
    }

    /// Get the target node if the volume is published: `Some(Some(node))`
    /// when exactly one nexus exists, `Some(None)` when none does (not
    /// published), and `None` when more than one does — the target is
    /// indeterminate under a multi-nexus topology, and callers must not
    /// read that as "unpublished".
    pub fn target_node(&self) -> (res: Option<Option<String>>)
        ensures
            self.children@.len() > 1 ==> res is None,
            self.children@.len() == 0 ==> res == Option::Some(Option::<String>::None),
            self.children@.len() == 1 ==> (match res {
                Option::Some(Option::Some(node)) => node@ == self.children@[0].node@,
                _ => false,
            }),
    {
        if self.children.len() > 1 {
            return Option::None;
        }
        if self.children.len() == 0 {
            Option::Some(Option::None)
        } else {
            Option::Some(Option::Some(self.children[0].node.clone()))
        }
    }
}

/// A volume: the desired spec together with the observed runtime state,
/// absent until the volume has been reconciled at least once.
pub struct Volume {
    /// Desired specification of the volume.
    pub spec: VolumeSpec,
    /// Runtime state of the volume.
    pub state: Option<VolumeState>,
}

/// Mathematical value of a [`Volume`].
#[verifier::ext_equal]
pub struct VolumeView {
    pub spec: VolumeSpecView,
    pub state: Option<VolumeStateView>,
}

impl View for Volume {
    type V = VolumeView;

    open spec fn view(&self) -> VolumeView {
        VolumeView { spec: self.spec@, state: opt_state_view(self.state) }
    }
}

impl Clone for Volume {
    fn clone(&self) -> (res: Self)
        ensures
            res@ == self@,
    {
        Volume {
            spec: self.spec.clone(),
            state: match &self.state {
                Option::None => Option::None,
                Option::Some(s) => Option::Some(s.clone()),
            },
        }
    }
}

impl Volume {
    /// Construct a new volume from its parts.
    pub fn new(spec: &VolumeSpec, state: &Option<VolumeState>) -> (res: Self)
        ensures
            res@ == (VolumeView { spec: spec@, state: opt_state_view(*state) }),
    {
        Volume {
            spec: spec.clone(),
            state: match state {
                Option::None => Option::None,
                Option::Some(s) => Option::Some(s.clone()),
            },
        }
    }

    /// Get the volume spec.
    pub fn get_spec(&self) -> (res: VolumeSpec)
        ensures
            res@ == self.spec@,
    {
        self.spec.clone()
    }

    /// Get the volume state.
    pub fn get_state(&self) -> (res: Option<VolumeState>)
        ensures
            opt_state_view(res) == opt_state_view(self.state),
    {
        match &self.state {
            Option::None => Option::None,
            Option::Some(s) => Option::Some(s.clone()),
        }
    }
}

} // verus!
