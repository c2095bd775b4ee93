//! Wire mapping layer: the external REST schema as its own set of types,
//! with lossless bidirectional conversion to and from the internal model.
//!
//! Status and protocol enumerations are remapped through total, explicit
//! match tables; an absent wire status degrades to `Unknown` rather than
//! failing, to stay forward compatible. Volume ids are validated as UUIDs
//! on the way out and the conversion fails with a recoverable
//! `InvalidIdentifier` error — never a panic — when a stored id is
//! malformed.
use vstd::prelude::*;
use crate::VolumeError;

verus! {

/// Volume health on the wire.
#[derive(Clone, Copy, Debug, PartialEq, Eq, Structural)]
pub enum VolumeStatus {
    Unknown,
    Online,
    Degraded,
    Faulted,
}

/// Nexus share protocol on the wire, `Off` meaning not shared.
#[derive(Clone, Copy, Debug, PartialEq, Eq, Structural)]
pub enum Protocol {
    Off,
    Nvmf,
    Iscsi,
}

/// Volume share protocol on the wire.
#[derive(Clone, Copy, Debug, PartialEq, Eq, Structural)]
pub enum VolumeShareProtocol {
    Nvmf,
    Iscsi,
}

/// Wire form of an internal volume status.
pub open spec fn status_to_wire_spec(s: crate::model::VolumeStatus) -> VolumeStatus {
    match s {
        crate::model::VolumeStatus::Unknown => VolumeStatus::Unknown,
        crate::model::VolumeStatus::Online => VolumeStatus::Online,
        crate::model::VolumeStatus::Degraded => VolumeStatus::Degraded,
        crate::model::VolumeStatus::Faulted => VolumeStatus::Faulted,
    }
}

/// Internal form of a wire volume status.
pub open spec fn status_of_wire_spec(s: VolumeStatus) -> crate::model::VolumeStatus {
    match s {
        VolumeStatus::Unknown => crate::model::VolumeStatus::Unknown,
        VolumeStatus::Online => crate::model::VolumeStatus::Online,
        VolumeStatus::Degraded => crate::model::VolumeStatus::Degraded,
        VolumeStatus::Faulted => crate::model::VolumeStatus::Faulted,
    }
}

/// Internal form of an optional wire status: an absent status is not an
/// error and decodes to `Unknown`.
pub open spec fn status_of_opt_wire_spec(s: Option<VolumeStatus>) -> crate::model::VolumeStatus {
    match s {
        Option::None => crate::model::VolumeStatus::Unknown,
        Option::Some(w) => status_of_wire_spec(w),
    }
}

/// Convert an internal volume status to its wire form.
pub fn status_to_wire(s: crate::model::VolumeStatus) -> (r: VolumeStatus)
    ensures
        r == status_to_wire_spec(s),
{
    match s {
        crate::model::VolumeStatus::Unknown => VolumeStatus::Unknown,
        crate::model::VolumeStatus::Online => VolumeStatus::Online,
        crate::model::VolumeStatus::Degraded => VolumeStatus::Degraded,
        crate::model::VolumeStatus::Faulted => VolumeStatus::Faulted,
    }
}

/// Convert an optional wire status back, an absent one to `Unknown`.
pub fn status_from_wire(s: Option<VolumeStatus>) -> (r: crate::model::VolumeStatus)
    ensures
        r == status_of_opt_wire_spec(s),
{
    match s {
        Option::None => crate::model::VolumeStatus::Unknown,
        Option::Some(VolumeStatus::Unknown) => crate::model::VolumeStatus::Unknown,
        Option::Some(VolumeStatus::Online) => crate::model::VolumeStatus::Online,
        Option::Some(VolumeStatus::Degraded) => crate::model::VolumeStatus::Degraded,
        Option::Some(VolumeStatus::Faulted) => crate::model::VolumeStatus::Faulted,
    }
}

/// Wire form of an internal nexus protocol.
pub open spec fn protocol_to_wire_spec(p: crate::model::Protocol) -> Protocol {
    match p {
        crate::model::Protocol::Off => Protocol::Off,
        crate::model::Protocol::Nvmf => Protocol::Nvmf,
        crate::model::Protocol::Iscsi => Protocol::Iscsi,
    }
}

/// Internal form of a wire nexus protocol.
pub open spec fn protocol_of_wire_spec(p: Protocol) -> crate::model::Protocol {
    match p {
        Protocol::Off => crate::model::Protocol::Off,
        Protocol::Nvmf => crate::model::Protocol::Nvmf,
        Protocol::Iscsi => crate::model::Protocol::Iscsi,
    }
}

/// Convert an internal nexus protocol to its wire form.
pub fn protocol_to_wire(p: crate::model::Protocol) -> (r: Protocol)
    ensures
        r == protocol_to_wire_spec(p),
{
    match p {
        crate::model::Protocol::Off => Protocol::Off,
        crate::model::Protocol::Nvmf => Protocol::Nvmf,
        crate::model::Protocol::Iscsi => Protocol::Iscsi,
    }
}

/// Convert a wire nexus protocol to its internal form.
pub fn protocol_from_wire(p: Protocol) -> (r: crate::model::Protocol)
    ensures
        r == protocol_of_wire_spec(p),
{
    match p {
        Protocol::Off => crate::model::Protocol::Off,
        Protocol::Nvmf => crate::model::Protocol::Nvmf,
        Protocol::Iscsi => crate::model::Protocol::Iscsi,
    }
}

/// Wire form of an internal volume share protocol.
pub open spec fn share_to_wire_spec(p: crate::model::VolumeShareProtocol) -> VolumeShareProtocol {
    match p {
        crate::model::VolumeShareProtocol::Nvmf => VolumeShareProtocol::Nvmf,
        crate::model::VolumeShareProtocol::Iscsi => VolumeShareProtocol::Iscsi,
    }
}

/// Internal form of a wire volume share protocol.
pub open spec fn share_of_wire_spec(p: VolumeShareProtocol) -> crate::model::VolumeShareProtocol {
    match p {
        VolumeShareProtocol::Nvmf => crate::model::VolumeShareProtocol::Nvmf,
        VolumeShareProtocol::Iscsi => crate::model::VolumeShareProtocol::Iscsi,
    }
}

/// Convert an internal volume share protocol to its wire form.
pub fn share_to_wire(p: crate::model::VolumeShareProtocol) -> (r: VolumeShareProtocol)
    ensures
        r == share_to_wire_spec(p),
{
    match p {
        crate::model::VolumeShareProtocol::Nvmf => VolumeShareProtocol::Nvmf,
        crate::model::VolumeShareProtocol::Iscsi => VolumeShareProtocol::Iscsi,
    }
}

/// Convert a wire volume share protocol to its internal form.
pub fn share_from_wire(p: VolumeShareProtocol) -> (r: crate::model::VolumeShareProtocol)
    ensures
        r == share_of_wire_spec(p),
{
    match p {
        VolumeShareProtocol::Nvmf => crate::model::VolumeShareProtocol::Nvmf,
        VolumeShareProtocol::Iscsi => crate::model::VolumeShareProtocol::Iscsi,
    }
}

/// Decoding an encoded volume status yields the original for every
/// defined variant.
pub proof fn lemma_status_round_trip(s: crate::model::VolumeStatus)
    ensures
        status_of_opt_wire_spec(Option::Some(status_to_wire_spec(s))) == s,
{
}

/// Decoding an encoded nexus protocol yields the original for every
/// defined variant.
pub proof fn lemma_protocol_round_trip(p: crate::model::Protocol)
    ensures
        protocol_of_wire_spec(protocol_to_wire_spec(p)) == p,
{
}

/// Decoding an encoded volume share protocol yields the original for
/// every defined variant.
pub proof fn lemma_share_round_trip(p: crate::model::VolumeShareProtocol)
    ensures
        share_of_wire_spec(share_to_wire_spec(p)) == p,
{
}

/// Extract the raw strings of an exclusive label list.
fn strings_of_exclusive(labels: &Vec<crate::model::ExclusiveLabel>) -> (r: Vec<String>)
    ensures
        r@.map_values(|s: String| s@) == labels@.map_values(
            |l: crate::model::ExclusiveLabel| l@,
        ),
{
    let mut r: Vec<String> = Vec::new();
    let mut i: usize = 0;
    while i < labels.len()
        invariant
            0 <= i <= labels@.len(),
            r@.len() == i,
            forall|m: int| 0 <= m < i ==> r@[m]@ == labels@[m]@,
        decreases labels@.len() - i,
    {
        r.push(labels[i].0.clone());
        i += 1;
    }
    proof {
        assert(r@.map_values(|s: String| s@) =~= labels@.map_values(
            |l: crate::model::ExclusiveLabel| l@,
        ));
    }
    r
}

/// Wrap raw strings as exclusive labels.
fn exclusive_of_strings(labels: &Vec<String>) -> (r: Vec<crate::model::ExclusiveLabel>)
    ensures
        r@.map_values(|l: crate::model::ExclusiveLabel| l@) == labels@.map_values(
            |s: String| s@,
        ),
{
    let mut r: Vec<crate::model::ExclusiveLabel> = Vec::new();
    let mut i: usize = 0;
    while i < labels.len()
        invariant
            0 <= i <= labels@.len(),
            r@.len() == i,
            forall|m: int| 0 <= m < i ==> r@[m]@ == labels@[m]@,
        decreases labels@.len() - i,
    {
        r.push(crate::model::ExclusiveLabel(labels[i].clone()));
        i += 1;
    }
    proof {
        assert(r@.map_values(|l: crate::model::ExclusiveLabel| l@) =~= labels@.map_values(
            |s: String| s@,
        ));
    }
    r
}

/// Extract the raw strings of an inclusive label list.
fn strings_of_inclusive(labels: &Vec<crate::model::InclusiveLabel>) -> (r: Vec<String>)
    ensures
        r@.map_values(|s: String| s@) == labels@.map_values(
            |l: crate::model::InclusiveLabel| l@,
        ),
{
    let mut r: Vec<String> = Vec::new();
    let mut i: usize = 0;
    while i < labels.len()
        invariant
            0 <= i <= labels@.len(),
            r@.len() == i,
            forall|m: int| 0 <= m < i ==> r@[m]@ == labels@[m]@,
        decreases labels@.len() - i,
    {
        r.push(labels[i].0.clone());
        i += 1;
    }
    proof {
        assert(r@.map_values(|s: String| s@) =~= labels@.map_values(
            |l: crate::model::InclusiveLabel| l@,
        ));
    }
    r
}

/// Wrap raw strings as inclusive labels.
fn inclusive_of_strings(labels: &Vec<String>) -> (r: Vec<crate::model::InclusiveLabel>)
    ensures
        r@.map_values(|l: crate::model::InclusiveLabel| l@) == labels@.map_values(
            |s: String| s@,
        ),
{
    let mut r: Vec<crate::model::InclusiveLabel> = Vec::new();
    let mut i: usize = 0;
    while i < labels.len()
        invariant
            0 <= i <= labels@.len(),
            r@.len() == i,
            forall|m: int| 0 <= m < i ==> r@[m]@ == labels@[m]@,
        decreases labels@.len() - i,
    {
        r.push(crate::model::InclusiveLabel(labels[i].clone()));
        i += 1;
    }
    proof {
        assert(r@.map_values(|l: crate::model::InclusiveLabel| l@) =~= labels@.map_values(
            |s: String| s@,
        ));
    }
    r
}

/// Node placement constraints on the wire: raw label strings.
pub struct NodeTopology {
    /// Exclusive label names.
    pub exclusion: Vec<String>,
    /// Inclusive labels, "NAME" or "NAME: VALUE".
    pub inclusion: Vec<String>,
}

impl View for NodeTopology {
    type V = crate::model::NodeTopologyView;

    open spec fn view(&self) -> crate::model::NodeTopologyView {
        crate::model::NodeTopologyView {
            exclusion: self.exclusion@.map_values(|s: String| s@),
            inclusion: self.inclusion@.map_values(|s: String| s@),
        }
    }
}

impl NodeTopology {
    /// Encode an internal node topology; label order is preserved.
    pub fn from_model(t: &crate::model::NodeTopology) -> (r: Self)
        ensures
            r@ == t@,
    {
        NodeTopology {
            exclusion: strings_of_exclusive(&t.exclusion),
            inclusion: strings_of_inclusive(&t.inclusion),
        }
    }

    /// Decode to an internal node topology; label order is preserved.
    pub fn to_model(&self) -> (r: crate::model::NodeTopology)
        ensures
            r@ == self@,
    {
        crate::model::NodeTopology {
            exclusion: exclusive_of_strings(&self.exclusion),
            inclusion: inclusive_of_strings(&self.inclusion),
        }
    }
}

/// Pool placement constraints on the wire: raw inclusive label strings.
pub struct PoolTopology {
    /// Inclusive labels, "NAME" or "NAME: VALUE".
    pub inclusion: Vec<String>,
}

impl View for PoolTopology {
    type V = Seq<Seq<char>>;

    open spec fn view(&self) -> Seq<Seq<char>> {
        self.inclusion@.map_values(|s: String| s@)
    }
}

impl PoolTopology {
    /// Encode an internal pool topology; label order is preserved.
    pub fn from_model(t: &crate::model::PoolTopology) -> (r: Self)
        ensures
            r@ == t@,
    {
        PoolTopology { inclusion: strings_of_inclusive(&t.inclusion) }
    }

    /// Decode to an internal pool topology; label order is preserved.
    pub fn to_model(&self) -> (r: crate::model::PoolTopology)
        ensures
            r@ == self@,
    {
        crate::model::PoolTopology { inclusion: inclusive_of_strings(&self.inclusion) }
    }
}

/// Combined node and pool label constraints on the wire.
pub struct LabelledTopology {
    /// Node topology.
    pub node_topology: NodeTopology,
    /// Pool topology.
    pub pool_topology: PoolTopology,
}

impl View for LabelledTopology {
    type V = crate::model::LabelledTopologyView;

    open spec fn view(&self) -> crate::model::LabelledTopologyView {
        crate::model::LabelledTopologyView {
            node_topology: self.node_topology@,
            pool_topology: self.pool_topology@,
        }
    }
}

impl LabelledTopology {
    /// Encode an internal labelled topology.
    pub fn from_model(t: &crate::model::LabelledTopology) -> (r: Self)
        ensures
            r@ == t@,
    {
        LabelledTopology {
            node_topology: NodeTopology::from_model(&t.node_topology),
            pool_topology: PoolTopology::from_model(&t.pool_topology),
        }
    }

    /// Decode to an internal labelled topology.
    pub fn to_model(&self) -> (r: crate::model::LabelledTopology)
        ensures
            r@ == self@,
    {
        crate::model::LabelledTopology {
            node_topology: self.node_topology.to_model(),
            pool_topology: self.pool_topology.to_model(),
        }
    }
}

/// Explicit node placement on the wire.
pub struct ExplicitTopology {
    /// Replicas can only be placed on these nodes.
    pub allowed_nodes: Vec<String>,
    /// Preferred nodes to place the replicas.
    pub preferred_nodes: Vec<String>,
}

impl View for ExplicitTopology {
    type V = crate::model::ExplicitTopologyView;

    open spec fn view(&self) -> crate::model::ExplicitTopologyView {
        crate::model::ExplicitTopologyView {
            allowed_nodes: self.allowed_nodes@.map_values(|s: String| s@),
            preferred_nodes: self.preferred_nodes@.map_values(|s: String| s@),
        }
    }
}

impl ExplicitTopology {
    /// Encode an internal explicit topology; node order is preserved.
    pub fn from_model(t: &crate::model::ExplicitTopology) -> (r: Self)
        ensures
            r@ == t@,
    {
        let allowed_nodes = t.allowed_nodes.clone();
        let preferred_nodes = t.preferred_nodes.clone();
        proof {
            assert(allowed_nodes@ =~= t.allowed_nodes@);
            assert(preferred_nodes@ =~= t.preferred_nodes@);
        }
        ExplicitTopology { allowed_nodes, preferred_nodes }
    }

    /// Decode to an internal explicit topology; node order is preserved.
    pub fn to_model(&self) -> (r: crate::model::ExplicitTopology)
        ensures
            r@ == self@,
    {
        let allowed_nodes = self.allowed_nodes.clone();
        let preferred_nodes = self.preferred_nodes.clone();
        proof {
            assert(allowed_nodes@ =~= self.allowed_nodes@);
            assert(preferred_nodes@ =~= self.preferred_nodes@);
        }
        crate::model::ExplicitTopology { allowed_nodes, preferred_nodes }
    }
}

/// Top-level placement directive on the wire.
pub struct Topology {
    /// Volume topology using labels.
    pub labelled: Option<LabelledTopology>,
    /// Volume topology, explicitly selected.
    pub explicit: Option<ExplicitTopology>,
}

impl View for Topology {
    type V = crate::model::TopologyView;

    open spec fn view(&self) -> crate::model::TopologyView {
        crate::model::TopologyView {
            labelled: match self.labelled {
                Option::None => Option::None,
                Option::Some(l) => Option::Some(l@),
            },
            explicit: match self.explicit {
                Option::None => Option::None,
                Option::Some(e) => Option::Some(e@),
            },
        }
    }
}

impl Topology {
    /// Encode an internal topology.
    pub fn from_model(t: &crate::model::Topology) -> (r: Self)
        ensures
            r@ == t@,
    {
        Topology {
            labelled: match &t.labelled {
                Option::None => Option::None,
                Option::Some(l) => Option::Some(LabelledTopology::from_model(l)),
            },
            explicit: match &t.explicit {
                Option::None => Option::None,
                Option::Some(e) => Option::Some(ExplicitTopology::from_model(e)),
            },
        }
    }

    /// Decode to an internal topology.
    pub fn to_model(&self) -> (r: crate::model::Topology)
        ensures
            r@ == self@,
    {
        crate::model::Topology {
            labelled: match &self.labelled {
                Option::None => Option::None,
                Option::Some(l) => Option::Some(l.to_model()),
            },
            explicit: match &self.explicit {
                Option::None => Option::None,
                Option::Some(e) => Option::Some(e.to_model()),
            },
        }
    }
}

/// Healing policy on the wire.
pub struct VolumeHealPolicy {
    /// The server will attempt to heal the volume by itself.
    pub self_heal: bool,
    /// Topology to choose a replacement replica for self healing.
    pub topology: Option<Topology>,
}

impl View for VolumeHealPolicy {
    type V = crate::model::VolumeHealPolicyView;

    open spec fn view(&self) -> crate::model::VolumeHealPolicyView {
        crate::model::VolumeHealPolicyView {
            self_heal: self.self_heal,
            topology: match self.topology {
                Option::None => Option::None,
                Option::Some(t) => Option::Some(t@),
            },
        }
    }
}

impl VolumeHealPolicy {
    /// Encode an internal healing policy.
    pub fn from_model(p: &crate::model::VolumeHealPolicy) -> (r: Self)
        ensures
            r@ == p@,
    {
        VolumeHealPolicy {
            self_heal: p.self_heal,
            topology: match &p.topology {
                Option::None => Option::None,
                Option::Some(t) => Option::Some(Topology::from_model(t)),
            },
        }
    }

    /// Decode to an internal healing policy.
    pub fn to_model(&self) -> (r: crate::model::VolumeHealPolicy)
        ensures
            r@ == self@,
    {
        crate::model::VolumeHealPolicy {
            self_heal: self.self_heal,
            topology: match &self.topology {
                Option::None => Option::None,
                Option::Some(t) => Option::Some(t.to_model()),
            },
        }
    }
}

/// Mathematical value of a wire [`Nexus`].
#[verifier::ext_equal]
pub struct NexusView {
    pub node: Seq<char>,
    pub size: u64,
    pub status: VolumeStatus,
    pub share: Protocol,
}

/// A nexus on the wire.
pub struct Nexus {
    /// Id of the node hosting the nexus.
    pub node: String,
    /// Size of the nexus in bytes.
    pub size: u64,
    /// Health of the nexus.
    pub status: VolumeStatus,
    /// Protocol the nexus is shared over, if any.
    pub share: Protocol,
}

impl View for Nexus {
    type V = NexusView;

    open spec fn view(&self) -> NexusView {
        NexusView { node: self.node@, size: self.size, status: self.status, share: self.share }
    }
}

/// Wire form of an internal nexus.
pub open spec fn nexus_to_wire_spec(n: crate::model::NexusView) -> NexusView {
    NexusView {
        node: n.node,
        size: n.size,
        status: status_to_wire_spec(n.status),
        share: protocol_to_wire_spec(n.share),
    }
}

/// Internal form of a wire nexus.
pub open spec fn nexus_of_wire_spec(n: NexusView) -> crate::model::NexusView {
    crate::model::NexusView {
        node: n.node,
        size: n.size,
        status: status_of_wire_spec(n.status),
        share: protocol_of_wire_spec(n.share),
    }
}

impl Nexus {
    /// Encode an internal nexus.
    pub fn from_model(n: &crate::model::Nexus) -> (r: Self)
        ensures
            r@ == nexus_to_wire_spec(n@),
    {
        Nexus {
            node: n.node.clone(),
            size: n.size,
            status: status_to_wire(n.status),
            share: protocol_to_wire(n.share),
        }
    }

    /// Decode to an internal nexus.
    pub fn to_model(&self) -> (r: crate::model::Nexus)
        ensures
            r@ == nexus_of_wire_spec(self@),
    {
        crate::model::Nexus {
            node: self.node.clone(),
            size: self.size,
            status: match self.status {
                VolumeStatus::Unknown => crate::model::VolumeStatus::Unknown,
                VolumeStatus::Online => crate::model::VolumeStatus::Online,
                VolumeStatus::Degraded => crate::model::VolumeStatus::Degraded,
                VolumeStatus::Faulted => crate::model::VolumeStatus::Faulted,
            },
            share: protocol_from_wire(self.share),
        }
    }
}

/// Encode a nexus list element-wise, preserving order.
fn children_from_model(children: &Vec<crate::model::Nexus>) -> (r: Vec<Nexus>)
    ensures
        r@.map_values(|n: Nexus| n@) == children@.map_values(|n: crate::model::Nexus| n@)
            .map_values(|nv: crate::model::NexusView| nexus_to_wire_spec(nv)),
{
    let mut r: Vec<Nexus> = Vec::new();
    let mut i: usize = 0;
    while i < children.len()
        invariant
            0 <= i <= children@.len(),
            r@.len() == i,
            forall|m: int| 0 <= m < i ==> r@[m]@ == nexus_to_wire_spec(children@[m]@),
        decreases children@.len() - i,
    {
        r.push(Nexus::from_model(&children[i]));
        i += 1;
    }
    proof {
        assert(r@.map_values(|n: Nexus| n@) =~= children@.map_values(
            |n: crate::model::Nexus| n@,
        ).map_values(|nv: crate::model::NexusView| nexus_to_wire_spec(nv)));
    }
    r
}

/// Decode a nexus list element-wise, preserving order.
fn children_to_model(children: &Vec<Nexus>) -> (r: Vec<crate::model::Nexus>)
    ensures
        r@.map_values(|n: crate::model::Nexus| n@) == children@.map_values(|n: Nexus| n@)
            .map_values(|nv: NexusView| nexus_of_wire_spec(nv)),
{
    let mut r: Vec<crate::model::Nexus> = Vec::new();
    let mut i: usize = 0;
    while i < children.len()
        invariant
            0 <= i <= children@.len(),
            r@.len() == i,
            forall|m: int| 0 <= m < i ==> r@[m]@ == nexus_of_wire_spec(children@[m]@),
        decreases children@.len() - i,
    {
        r.push(children[i].to_model());
        i += 1;
    }
    proof {
        assert(r@.map_values(|n: crate::model::Nexus| n@) =~= children@.map_values(
            |n: Nexus| n@,
        ).map_values(|nv: NexusView| nexus_of_wire_spec(nv)));
    }
    r
}

/// Whether a string is a syntactically valid UUID. The exact grammar
/// (hyphenated, simple, braced and urn forms) belongs to the external
/// parser; contracts only ever compare this value for one string.
pub uninterp spec fn uuid_valid(s: Seq<char>) -> bool;

/// Relies on uuid::Uuid::parse_str: whether a string parses as a UUID
/// depends on its characters alone, and the call returns an error rather
/// than panicking on malformed input.
#[verifier::external_body]
fn parse_uuid_ok(s: &str) -> (r: bool)
    ensures
        r == uuid_valid(s@),
{
    uuid::Uuid::parse_str(s).is_ok()
}

/// Whether a volume id is a syntactically valid UUID: ids that fail this
/// are rejected by the wire encoders with `InvalidIdentifier`.
pub fn valid_volume_id(uuid: &String) -> (r: bool)
    ensures
        r == uuid_valid(uuid@),
{
    parse_uuid_ok(uuid.as_str())
}

/// Desired volume specification on the wire.
pub struct VolumeSpec {
    /// Id of the volume.
    pub uuid: String,
    /// Size of the volume in bytes.
    pub size: u64,
    /// Desired number of storage replicas.
    pub num_replicas: u64,
    /// Volume healing policy.
    pub policy: VolumeHealPolicy,
    /// Initial replica placement topology.
    pub topology: Topology,
}

impl View for VolumeSpec {
    type V = crate::model::VolumeSpecView;

    open spec fn view(&self) -> crate::model::VolumeSpecView {
        crate::model::VolumeSpecView {
            uuid: self.uuid@,
            size: self.size,
            num_replicas: self.num_replicas,
            policy: self.policy@,
            topology: self.topology@,
        }
    }
}

impl VolumeSpec {
    /// Encode an internal volume spec, validating its id: a malformed id
    /// is a recoverable `InvalidIdentifier` error, never a panic.
    pub fn from_model(s: &crate::model::VolumeSpec) -> (r: Result<Self, VolumeError>)
        ensures
            r is Ok <==> uuid_valid(s@.uuid),
            r is Ok ==> r->Ok_0@ == s@,
            r is Err ==> r->Err_0 == VolumeError::InvalidIdentifier,
    {
        if !valid_volume_id(&s.uuid) {
            return Result::Err(VolumeError::InvalidIdentifier);
        }
        Result::Ok(
            VolumeSpec {
                uuid: s.uuid.clone(),
                size: s.size,
                num_replicas: s.num_replicas,
                policy: VolumeHealPolicy::from_model(&s.policy),
                topology: Topology::from_model(&s.topology),
            },
        )
    }

    /// Decode to an internal volume spec.
    pub fn to_model(&self) -> (r: crate::model::VolumeSpec)
        ensures
            r@ == self@,
    {
        crate::model::VolumeSpec {
            uuid: self.uuid.clone(),
            size: self.size,
            num_replicas: self.num_replicas,
            policy: self.policy.to_model(),
            topology: self.topology.to_model(),
        }
    }
}

/// Mathematical value of a wire [`VolumeState`].
#[verifier::ext_equal]
pub struct VolumeStateView {
    pub children: Seq<NexusView>,
    pub protocol: Protocol,
    pub size: u64,
    pub status: Option<VolumeStatus>,
    pub uuid: Seq<char>,
}

/// Runtime state of the volume on the wire. The status is optional on the
/// wire: absent on read decodes to `Unknown`, and the encoder always
/// populates it.
pub struct VolumeState {
    /// Array of children nexuses.
    pub children: Vec<Nexus>,
    /// Current share protocol.
    pub protocol: Protocol,
    /// Size of the volume in bytes.
    pub size: u64,
    /// Current status of the volume, if known.
    pub status: Option<VolumeStatus>,
    /// Id of the volume.
    pub uuid: String,
}

impl View for VolumeState {
    type V = VolumeStateView;

    open spec fn view(&self) -> VolumeStateView {
        VolumeStateView {
            children: self.children@.map_values(|n: Nexus| n@),
            protocol: self.protocol,
            size: self.size,
            status: self.status,
            uuid: self.uuid@,
        }
    }
}

/// Wire form of an internal volume state: the status is always populated
/// on the way out.
pub open spec fn state_to_wire_spec(s: crate::model::VolumeStateView) -> VolumeStateView {
    VolumeStateView {
        children: s.children.map_values(|nv: crate::model::NexusView| nexus_to_wire_spec(nv)),
        protocol: protocol_to_wire_spec(s.protocol),
        size: s.size,
        status: Option::Some(status_to_wire_spec(s.status)),
        uuid: s.uuid,
    }
}

/// Internal form of a wire volume state: an absent status decodes to
/// `Unknown`.
pub open spec fn state_of_wire_spec(s: VolumeStateView) -> crate::model::VolumeStateView {
    crate::model::VolumeStateView {
        uuid: s.uuid,
        size: s.size,
        status: status_of_opt_wire_spec(s.status),
        protocol: protocol_of_wire_spec(s.protocol),
        children: s.children.map_values(|nv: NexusView| nexus_of_wire_spec(nv)),
    }
}

impl VolumeState {
    /// Wire volume state from the required fields alone; the status stays
    /// unset.
    pub fn new(children: Vec<Nexus>, protocol: Protocol, size: u64, uuid: String) -> (r: Self)
        ensures
            r@ == (VolumeStateView {
                children: children@.map_values(|n: Nexus| n@),
                protocol,
                size,
                status: Option::None,
                uuid: uuid@,
            }),
    {
        VolumeState { children, protocol, size, status: Option::None, uuid }
    }

    /// Wire volume state from all fields.
    pub fn new_all(
        children: Vec<Nexus>,
        protocol: Protocol,
        size: u64,
        status: Option<VolumeStatus>,
        uuid: String,
    ) -> (r: Self)
        ensures
            r@ == (VolumeStateView {
                children: children@.map_values(|n: Nexus| n@),
                protocol,
                size,
                status,
                uuid: uuid@,
            }),
    {
        VolumeState { children, protocol, size, status, uuid }
    }

    /// Encode an internal volume state, validating its id: a malformed id
    /// is a recoverable `InvalidIdentifier` error, never a panic.
    pub fn from_model(s: &crate::model::VolumeState) -> (r: Result<Self, VolumeError>)
        ensures
            r is Ok <==> uuid_valid(s@.uuid),
            r is Ok ==> r->Ok_0@ == state_to_wire_spec(s@),
            r is Err ==> r->Err_0 == VolumeError::InvalidIdentifier,
    {
        if !valid_volume_id(&s.uuid) {
            return Result::Err(VolumeError::InvalidIdentifier);
        }
        Result::Ok(
            VolumeState {
                children: children_from_model(&s.children),
                protocol: protocol_to_wire(s.protocol),
                size: s.size,
                status: Option::Some(status_to_wire(s.status)),
                uuid: s.uuid.clone(),
            },
        )
    }

    /// Decode to an internal volume state; an absent status becomes
    /// `Unknown`.
    pub fn to_model(&self) -> (r: crate::model::VolumeState)
        ensures
            r@ == state_of_wire_spec(self@),
    {
        crate::model::VolumeState {
            uuid: self.uuid.clone(),
            size: self.size,
            status: status_from_wire(self.status),
            protocol: protocol_from_wire(self.protocol),
            children: children_to_model(&self.children),
        }
    }
}

/// Mathematical value of a wire [`Volume`].
#[verifier::ext_equal]
pub struct VolumeView {
    pub spec: crate::model::VolumeSpecView,
    pub state: Option<VolumeStateView>,
}

/// A volume on the wire: desired spec plus optional observed state.
pub struct Volume {
    /// Desired specification of the volume.
    pub spec: VolumeSpec,
    /// Runtime state of the volume.
    pub state: Option<VolumeState>,
}

impl View for Volume {
    type V = VolumeView;

    open spec fn view(&self) -> VolumeView {
        VolumeView {
            spec: self.spec@,
            state: match self.state {
                Option::None => Option::None,
                Option::Some(s) => Option::Some(s@),
            },
        }
    }
}

/// Wire form of an internal volume.
pub open spec fn volume_to_wire_spec(v: crate::model::VolumeView) -> VolumeView {
    VolumeView {
        spec: v.spec,
        state: match v.state {
            Option::None => Option::None,
            Option::Some(s) => Option::Some(state_to_wire_spec(s)),
        },
    }
}

/// Internal form of a wire volume.
pub open spec fn volume_of_wire_spec(w: VolumeView) -> crate::model::VolumeView {
    crate::model::VolumeView {
        spec: w.spec,
        state: match w.state {
            Option::None => Option::None,
            Option::Some(s) => Option::Some(state_of_wire_spec(s)),
        },
    }
}

impl Volume {
    /// Encode an internal volume, validating the ids carried by its spec
    /// and, when present, its state: a malformed id is a recoverable
    /// `InvalidIdentifier` error, never a panic.
    pub fn from_model(v: &crate::model::Volume) -> (r: Result<Self, VolumeError>)
        ensures
            r is Ok <==> uuid_valid(v@.spec.uuid) && (v@.state is Some ==> uuid_valid(
                v@.state->0.uuid,
            )),
            r is Ok ==> r->Ok_0@ == volume_to_wire_spec(v@),
            r is Err ==> r->Err_0 == VolumeError::InvalidIdentifier,
    {
        let spec = match VolumeSpec::from_model(&v.spec) {
            Result::Ok(spec) => spec,
            Result::Err(e) => {
                return Result::Err(e);
            },
        };
        let state = match &v.state {
            Option::None => Option::None,
            Option::Some(s) => match VolumeState::from_model(s) {
                Result::Ok(w) => Option::Some(w),
                Result::Err(e) => {
                    return Result::Err(e);
                },
            },
        };
        Result::Ok(Volume { spec, state })
    }

    /// Decode to an internal volume.
    pub fn to_model(&self) -> (r: crate::model::Volume)
        ensures
            r@ == volume_of_wire_spec(self@),
    {
        crate::model::Volume {
            spec: self.spec.to_model(),
            state: match &self.state {
                Option::None => Option::None,
                Option::Some(s) => Option::Some(s.to_model()),
            },
        }
    }
}

/// Decoding an encoded nexus yields the original.
pub proof fn lemma_nexus_round_trip(n: crate::model::NexusView)
    ensures
        nexus_of_wire_spec(nexus_to_wire_spec(n)) == n,
{
}

/// Decoding an encoded volume state yields the original: the encoder
/// always populates the status, so nothing is lost on the way back.
pub proof fn lemma_state_round_trip(s: crate::model::VolumeStateView)
    ensures
        state_of_wire_spec(state_to_wire_spec(s)) == s,
{
    let rt = state_of_wire_spec(state_to_wire_spec(s));
    assert forall|m: int| 0 <= m < s.children.len() implies rt.children[m] == s.children[m] by {
        lemma_nexus_round_trip(s.children[m]);
    }
    assert(rt.children =~= s.children);
    assert(rt =~= s);
}

/// Decoding an encoded volume yields the original: the wire round trip is
/// the identity on every volume value.
pub proof fn lemma_volume_round_trip(v: crate::model::VolumeView)
    ensures
        volume_of_wire_spec(volume_to_wire_spec(v)) == v,
{
    match v.state {
        Option::None => {
        },
        Option::Some(s) => {
            lemma_state_round_trip(s);
        },
    }
    assert(volume_of_wire_spec(volume_to_wire_spec(v)) =~= v);
}

} // verus!
