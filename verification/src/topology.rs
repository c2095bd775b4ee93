//! Label and topology evaluator: decides whether a candidate node or pool,
//! described by its own label set, satisfies a placement constraint set.
//!
//! An inclusive label is a raw string "NAME" or "NAME: VALUE": the first
//! form matches a candidate carrying a label with that name whatever its
//! value, the second requires the exact name and value. An exclusive label
//! is a raw name: no two nodes selected for the same volume may both carry
//! a label with that name.
use vstd::prelude::*;
use crate::model::{ExclusiveLabel, ExplicitTopology, InclusiveLabel, NodeTopology, PoolTopology};

verus! {

/// A name/value label carried by a candidate node or pool.
pub struct ResourceLabel {
    /// Label name.
    pub key: String,
    /// Label value.
    pub value: String,
}

/// Mathematical value of a [`ResourceLabel`].
#[verifier::ext_equal]
pub struct ResourceLabelView {
    pub key: Seq<char>,
    pub value: Seq<char>,
}

impl View for ResourceLabel {
    type V = ResourceLabelView;

    open spec fn view(&self) -> ResourceLabelView {
        ResourceLabelView { key: self.key@, value: self.value@ }
    }
}

impl Clone for ResourceLabel {
    fn clone(&self) -> (res: Self)
        ensures
            res == *self,
    {
        ResourceLabel { key: self.key.clone(), value: self.value.clone() }
    }
}

/// Views of a label list.
pub open spec fn label_views(labels: Seq<ResourceLabel>) -> Seq<ResourceLabelView> {
    labels.map_values(|l: ResourceLabel| l@)
}

/// Index of the first ':' in `s`, or `s.len()` if there is none.
pub open spec fn first_colon(s: Seq<char>) -> int
    decreases s.len(),
{
    if s.len() == 0 {
        0
    } else if s[0] == ':' {
        0
    } else {
        1 + first_colon(s.drop_first())
    }
}

/// `first_colon` lies within the string, points at a ':' unless it is the
/// length, and nothing before it is a ':'.
pub proof fn lemma_first_colon(s: Seq<char>)
    ensures
        0 <= first_colon(s) <= s.len(),
        first_colon(s) < s.len() ==> s[first_colon(s)] == ':',
        forall|k: int| 0 <= k < first_colon(s) ==> s[k] != ':',
    decreases s.len(),
{
    if s.len() != 0 && s[0] != ':' {
        let rest = s.drop_first();
        lemma_first_colon(rest);
        if first_colon(s) < s.len() {
            assert(s[first_colon(s)] == rest[first_colon(rest)]);
        }
        assert forall|k: int| 0 <= k < first_colon(s) implies s[k] != ':' by {
            if k > 0 {
                assert(s[k] == rest[k - 1]);
            }
        }
    }
}

/// A position that is a ':' with none before it, or the length of a string
/// without any ':', is exactly `first_colon`.
pub proof fn lemma_first_colon_at(s: Seq<char>, j: int)
    requires
        0 <= j <= s.len(),
        forall|k: int| 0 <= k < j ==> s[k] != ':',
        j < s.len() ==> s[j] == ':',
        j == s.len() ==> forall|k: int| 0 <= k < s.len() ==> s[k] != ':',
    ensures
        first_colon(s) == j,
    decreases j,
{
    if j > 0 {
        lemma_first_colon_at(s.drop_first(), j - 1);
    }
}

/// The name part of an inclusive label: everything before the first ':'.
pub open spec fn label_key(l: Seq<char>) -> Seq<char> {
    l.subrange(0, first_colon(l))
}

/// The value part of an inclusive label: everything after the first ':',
/// with a single space after the ':' skipped if present. Meaningful only
/// when the label contains a ':'.
pub open spec fn label_value(l: Seq<char>) -> Seq<char> {
    let j = first_colon(l);
    if j + 1 < l.len() && l[j + 1] == ' ' {
        l.subrange(j + 2, l.len() as int)
    } else {
        l.subrange(j + 1, l.len() as int)
    }
}

/// Whether an inclusive label `l` matches a candidate label with the given
/// name and value: a name-only label matches by name alone, a "NAME: VALUE"
/// label requires exact equality of both.
pub open spec fn inclusive_matches(l: Seq<char>, key: Seq<char>, value: Seq<char>) -> bool {
    if first_colon(l) == l.len() {
        l == key
    } else {
        label_key(l) == key && label_value(l) == value
    }
}

/// Whether an inclusive label matches any label of a candidate.
pub open spec fn inclusive_matches_any(l: Seq<char>, labels: Seq<ResourceLabelView>) -> bool {
    exists|i: int| 0 <= i < labels.len() && inclusive_matches(l, labels[i].key, labels[i].value)
}

/// Whether a candidate carries a label with the given name.
pub open spec fn has_label_named(name: Seq<char>, labels: Seq<ResourceLabelView>) -> bool {
    exists|i: int| 0 <= i < labels.len() && labels[i].key == name
}

/// Whether a candidate satisfies every inclusive label of a list.
pub open spec fn all_inclusions_match(
    inclusion: Seq<Seq<char>>,
    labels: Seq<ResourceLabelView>,
) -> bool {
    forall|i: int| 0 <= i < inclusion.len() ==> inclusive_matches_any(#[trigger] inclusion[i], labels)
}

/// Whether some exclusion name is carried both by the candidate and by a
/// node already selected for the same volume.
pub open spec fn exclusion_conflict(
    exclusion: Seq<Seq<char>>,
    candidate: Seq<ResourceLabelView>,
    used: Seq<ResourceLabelView>,
) -> bool {
    exists|i: int|
        0 <= i < exclusion.len() && has_label_named(#[trigger] exclusion[i], candidate)
            && has_label_named(exclusion[i], used)
}

/// Whether a candidate node satisfies a node topology, given the labels
/// `used` carried by the nodes already selected for the same volume.
pub open spec fn matches_node_spec(
    t: crate::model::NodeTopologyView,
    candidate: Seq<ResourceLabelView>,
    used: Seq<ResourceLabelView>,
) -> bool {
    all_inclusions_match(t.inclusion, candidate) && !exclusion_conflict(
        t.exclusion,
        candidate,
        used,
    )
}

/// Whether a candidate pool satisfies a pool topology.
pub open spec fn matches_pool_spec(
    inclusion: Seq<Seq<char>>,
    candidate: Seq<ResourceLabelView>,
) -> bool {
    all_inclusions_match(inclusion, candidate)
}

/// Compare `s[s_from..s_to]` with `t[t_from..t_to]` character by character.
fn range_eq(s: &str, s_from: usize, s_to: usize, t: &str, t_from: usize, t_to: usize) -> (b: bool)
    requires
        s_from <= s_to <= s@.len(),
        t_from <= t_to <= t@.len(),
    ensures
        b == (s@.subrange(s_from as int, s_to as int) == t@.subrange(
            t_from as int,
            t_to as int,
        )),
{
    let ghost sr = s@.subrange(s_from as int, s_to as int);
    let ghost tr = t@.subrange(t_from as int, t_to as int);
    if s_to - s_from != t_to - t_from {
        proof {
            assert(sr.len() != tr.len());
        }
        return false;
    }
    let mut k: usize = 0;
    while k < s_to - s_from
        invariant
            0 <= k <= s_to - s_from,
            s_from <= s_to <= s@.len(),
            t_from <= t_to <= t@.len(),
            s_to - s_from == t_to - t_from,
            sr == s@.subrange(s_from as int, s_to as int),
            tr == t@.subrange(t_from as int, t_to as int),
            forall|m: int| 0 <= m < k ==> sr[m] == tr[m],
        decreases s_to - s_from - k,
    {
        if s.get_char(s_from + k) != t.get_char(t_from + k) {
            proof {
                assert(sr[k as int] != tr[k as int]);
            }
            return false;
        }
        k += 1;
    }
    proof {
        assert(sr =~= tr);
    }
    true
}

/// Index of the first ':' in `s`, or its length if there is none.
fn find_colon(s: &str, n: usize) -> (r: usize)
    requires
        n as int == s@.len(),
    ensures
        r as int == first_colon(s@),
{
    let mut i: usize = 0;
    while i < n
        invariant
            0 <= i <= n,
            n as int == s@.len(),
            forall|k: int| 0 <= k < i ==> s@[k] != ':',
        decreases n - i,
    {
        if s.get_char(i) == ':' {
            proof {
                lemma_first_colon_at(s@, i as int);
            }
            return i;
        }
        i += 1;
    }
    proof {
        lemma_first_colon_at(s@, n as int);
    }
    n
}

impl InclusiveLabel {
    /// Whether this inclusive label matches one candidate label.
    pub fn matches_label(&self, label: &ResourceLabel) -> (b: bool)
        ensures
            b == inclusive_matches(self@, label@.key, label@.value),
    {
        let s = self.0.as_str();
        let n = s.unicode_len();
        let j = find_colon(s, n);
        proof {
            lemma_first_colon(self@);
        }
        if j == n {
            self.0 == label.key
        } else {
            let kref = label.key.as_str();
            let kn = kref.unicode_len();
            let key_ok = range_eq(s, 0, j, kref, 0, kn);
            proof {
                assert(kref@.subrange(0, kn as int) =~= label@.key);
            }
            let start: usize = if j + 1 < n && s.get_char(j + 1) == ' ' {
                j + 2
            } else {
                j + 1
            };
            let vref = label.value.as_str();
            let vn = vref.unicode_len();
            let value_ok = range_eq(s, start, n, vref, 0, vn);
            proof {
                assert(vref@.subrange(0, vn as int) =~= label@.value);
            }
            key_ok && value_ok
        }
    }

    /// Whether this inclusive label matches any label of a candidate.
    pub fn matches_any(&self, labels: &Vec<ResourceLabel>) -> (b: bool)
        ensures
            b == inclusive_matches_any(self@, label_views(labels@)),
    {
        let mut i: usize = 0;
        while i < labels.len()
            invariant
                0 <= i <= labels@.len(),
                forall|k: int|
                    0 <= k < i ==> !inclusive_matches(
                        self@,
                        label_views(labels@)[k].key,
                        label_views(labels@)[k].value,
                    ),
            decreases labels@.len() - i,
        {
            if self.matches_label(&labels[i]) {
                assert(inclusive_matches(
                    self@,
                    label_views(labels@)[i as int].key,
                    label_views(labels@)[i as int].value,
                ));
                return true;
            }
            i += 1;
        }
        false
    }
}

/// Whether a candidate carries a label with the given name.
fn carries_name(name: &String, labels: &Vec<ResourceLabel>) -> (b: bool)
    ensures
        b == has_label_named(name@, label_views(labels@)),
{
    let mut i: usize = 0;
    while i < labels.len()
        invariant
            0 <= i <= labels@.len(),
            forall|k: int| 0 <= k < i ==> label_views(labels@)[k].key != name@,
        decreases labels@.len() - i,
    {
        if labels[i].key == *name {
            assert(label_views(labels@)[i as int].key == name@);
            return true;
        }
        i += 1;
    }
    false
}

impl NodeTopology {
    /// Whether a candidate node, described by its labels, satisfies this
    /// topology given the labels `used` carried by the nodes already
    /// selected for the same volume: every inclusive label must match the
    /// candidate, and no exclusive label name may be carried both by the
    /// candidate and by an already selected node.
    pub fn matches_node(&self, candidate: &Vec<ResourceLabel>, used: &Vec<ResourceLabel>) -> (b:
        bool)
        ensures
            b == matches_node_spec(self@, label_views(candidate@), label_views(used@)),
    {
        let mut i: usize = 0;
        while i < self.inclusion.len()
            invariant
                0 <= i <= self.inclusion@.len(),
                forall|k: int|
                    0 <= k < i ==> inclusive_matches_any(
                        #[trigger] self@.inclusion[k],
                        label_views(candidate@),
                    ),
            decreases self.inclusion@.len() - i,
        {
            if !self.inclusion[i].matches_any(candidate) {
                assert(!inclusive_matches_any(self@.inclusion[i as int], label_views(candidate@)));
                return false;
            }
            i += 1;
        }
        let mut e: usize = 0;
        while e < self.exclusion.len()
            invariant
                0 <= e <= self.exclusion@.len(),
                all_inclusions_match(self@.inclusion, label_views(candidate@)),
                forall|k: int|
                    0 <= k < e ==> !(has_label_named(
                        #[trigger] self@.exclusion[k],
                        label_views(candidate@),
                    ) && has_label_named(self@.exclusion[k], label_views(used@))),
            decreases self.exclusion@.len() - e,
        {
            if carries_name(&self.exclusion[e].0, candidate) && carries_name(
                &self.exclusion[e].0,
                used,
            ) {
                assert(has_label_named(self@.exclusion[e as int], label_views(candidate@))
                    && has_label_named(self@.exclusion[e as int], label_views(used@)));
                return false;
            }
            e += 1;
        }
        true
    }
}

impl PoolTopology {
    /// Whether a candidate pool, described by its labels, satisfies this
    /// topology: every inclusive label must match the candidate.
    pub fn matches_pool(&self, candidate: &Vec<ResourceLabel>) -> (b: bool)
        ensures
            b == matches_pool_spec(self@, label_views(candidate@)),
    {
        let mut i: usize = 0;
        while i < self.inclusion.len()
            invariant
                0 <= i <= self.inclusion@.len(),
                forall|k: int|
                    0 <= k < i ==> inclusive_matches_any(
                        #[trigger] self@[k],
                        label_views(candidate@),
                    ),
            decreases self.inclusion@.len() - i,
        {
            if !self.inclusion[i].matches_any(candidate) {
                assert(!inclusive_matches_any(self@[i as int], label_views(candidate@)));
                return false;
            }
            i += 1;
        }
        true
    }
}

impl ExplicitTopology {
    /// Whether a node qualifies under this explicit topology: every node
    /// does when `allowed_nodes` is empty, otherwise only its members.
    /// `preferred_nodes` is a sort key among qualifying candidates, not a
    /// filter (see `preference_rank`).
    pub fn allows(&self, node: &String) -> (b: bool)
        ensures
            b == (self@.allowed_nodes.len() == 0 || self@.allowed_nodes.contains(node@)),
    {
        if self.allowed_nodes.len() == 0 {
            return true;
        }
        let mut i: usize = 0;
        while i < self.allowed_nodes.len()
            invariant
                0 <= i <= self.allowed_nodes@.len(),
                forall|k: int| 0 <= k < i ==> self@.allowed_nodes[k] != node@,
            decreases self.allowed_nodes@.len() - i,
        {
            if self.allowed_nodes[i] == *node {
                assert(self@.allowed_nodes[i as int] == node@);
                return true;
            }
            i += 1;
        }
        false
    }

    /// Sort key of a qualifying node: its position in `preferred_nodes`,
    /// or their number when it is not preferred at all. Lower ranks sort
    /// first.
    pub fn preference_rank(&self, node: &String) -> (r: usize)
        ensures
            r <= self@.preferred_nodes.len(),
            r < self@.preferred_nodes.len() ==> self@.preferred_nodes[r as int] == node@,
            forall|k: int| 0 <= k < r ==> self@.preferred_nodes[k] != node@,
            r == self@.preferred_nodes.len() ==> !self@.preferred_nodes.contains(node@),
    {
        let mut i: usize = 0;
        while i < self.preferred_nodes.len()
            invariant
                0 <= i <= self.preferred_nodes@.len(),
                forall|k: int| 0 <= k < i ==> self@.preferred_nodes[k] != node@,
            decreases self.preferred_nodes@.len() - i,
        {
            if self.preferred_nodes[i] == *node {
                assert(self@.preferred_nodes[i as int] == node@);
                return i;
            }
            i += 1;
        }
        self.preferred_nodes.len()
    }
}

/// A candidate node offered to the selection driver: its id and its labels.
pub struct CandidateNode {
    /// Id of the node.
    pub id: String,
    /// Labels the node carries.
    pub labels: Vec<ResourceLabel>,
}

/// Mathematical value of a [`CandidateNode`].
#[verifier::ext_equal]
pub struct CandidateNodeView {
    pub id: Seq<char>,
    pub labels: Seq<ResourceLabelView>,
}

impl View for CandidateNode {
    type V = CandidateNodeView;

    open spec fn view(&self) -> CandidateNodeView {
        CandidateNodeView { id: self.id@, labels: label_views(self.labels@) }
    }
}

/// The ids a greedy pass selects from `cands` under topology `t`, having
/// already accumulated the labels `used` from earlier selections: each
/// candidate is taken in order iff it matches against the labels of those
/// taken before it.
pub open spec fn select_spec(
    cands: Seq<CandidateNodeView>,
    t: crate::model::NodeTopologyView,
    used: Seq<ResourceLabelView>,
) -> Seq<Seq<char>>
    decreases cands.len(),
{
    if cands.len() == 0 {
        Seq::empty()
    } else if matches_node_spec(t, cands[0].labels, used) {
        seq![cands[0].id] + select_spec(cands.drop_first(), t, used + cands[0].labels)
    } else {
        select_spec(cands.drop_first(), t, used)
    }
}

impl NodeTopology {
    /// Greedily select, in order, every candidate that satisfies this
    /// topology against the labels of the candidates selected before it.
    /// Under an exclusive label this keeps any two selected nodes from
    /// sharing that label name.
    pub fn select_nodes(&self, candidates: &Vec<CandidateNode>) -> (r: Vec<String>)
        ensures
            r@.map_values(|s: String| s@) == select_spec(
                candidates@.map_values(|c: CandidateNode| c@),
                self@,
                Seq::empty(),
            ),
    {
        let ghost cv = candidates@.map_values(|c: CandidateNode| c@);
        let mut r: Vec<String> = Vec::new();
        let mut used: Vec<ResourceLabel> = Vec::new();
        let mut i: usize = 0;
        proof {
            assert(label_views(used@) =~= Seq::<ResourceLabelView>::empty());
            assert(cv.subrange(0, cv.len() as int) =~= cv);
        }
        while i < candidates.len()
            invariant
                0 <= i <= candidates@.len(),
                cv == candidates@.map_values(|c: CandidateNode| c@),
                r@.map_values(|s: String| s@) + select_spec(
                    cv.subrange(i as int, cv.len() as int),
                    self@,
                    label_views(used@),
                ) == select_spec(cv, self@, Seq::empty()),
            decreases candidates@.len() - i,
        {
            let ghost rem = cv.subrange(i as int, cv.len() as int);
            let ghost used0 = label_views(used@);
            proof {
                assert(rem[0] == cv[i as int]);
                assert(rem.drop_first() =~= cv.subrange(i + 1 as int, cv.len() as int));
            }
            if self.matches_node(&candidates[i].labels, &used) {
                proof {
                    assert(candidates@[i as int]@.labels == label_views(
                        candidates@[i as int].labels@,
                    ));
                    assert(select_spec(rem, self@, used0) == seq![cv[i as int].id] + select_spec(
                        rem.drop_first(),
                        self@,
                        used0 + cv[i as int].labels,
                    ));
                }
                r.push(candidates[i].id.clone());
                let ghost used_pre = used@;
                let mut k: usize = 0;
                while k < candidates[i].labels.len()
                    invariant
                        0 <= k <= candidates@[i as int].labels@.len(),
                        0 <= i < candidates@.len(),
                        used@ =~= used_pre + candidates@[i as int].labels@.subrange(0, k as int),
                    decreases candidates@[i as int].labels@.len() - k,
                {
                    used.push(candidates[i].labels[k].clone());
                    proof {
                        assert(used@ =~= used_pre + candidates@[i as int].labels@.subrange(
                            0,
                            k + 1 as int,
                        ));
                    }
                    k += 1;
                }
                proof {
                    assert(candidates@[i as int].labels@.subrange(
                        0,
                        candidates@[i as int].labels@.len() as int,
                    ) =~= candidates@[i as int].labels@);
                    assert(used@ =~= used_pre + candidates@[i as int].labels@);
                    assert(label_views(used@) =~= used0 + cv[i as int].labels);
                    let prev = r@.map_values(|s: String| s@).drop_last();
                    assert(prev.push(cv[i as int].id) =~= prev + seq![cv[i as int].id]);
                    assert((prev + seq![cv[i as int].id]) + select_spec(
                        rem.drop_first(),
                        self@,
                        used0 + cv[i as int].labels,
                    ) =~= prev + (seq![cv[i as int].id] + select_spec(
                        rem.drop_first(),
                        self@,
                        used0 + cv[i as int].labels,
                    )));
                    assert(r@.map_values(|s: String| s@) =~= prev.push(cv[i as int].id));
                }
            } else {
                proof {
                    assert(select_spec(rem, self@, used0) == select_spec(
                        rem.drop_first(),
                        self@,
                        used0,
                    ));
                }
            }
            i += 1;
        }
        proof {
            assert(cv.subrange(cv.len() as int, cv.len() as int) =~= Seq::<
                CandidateNodeView,
            >::empty());
            assert(r@.map_values(|s: String| s@) + Seq::<Seq<char>>::empty() =~= r@.map_values(
                |s: String| s@,
            ));
        }
        r
    }
}

/// The candidates a greedy pass selects from `cands` under topology `t`,
/// in order: the same recursion as [`select_spec`], keeping the whole
/// candidate rather than its id alone.
pub open spec fn selected_candidates(
    cands: Seq<CandidateNodeView>,
    t: crate::model::NodeTopologyView,
    used: Seq<ResourceLabelView>,
) -> Seq<CandidateNodeView>
    decreases cands.len(),
{
    if cands.len() == 0 {
        Seq::empty()
    } else if matches_node_spec(t, cands[0].labels, used) {
        seq![cands[0]] + selected_candidates(cands.drop_first(), t, used + cands[0].labels)
    } else {
        selected_candidates(cands.drop_first(), t, used)
    }
}

/// The ids the selection computes are exactly the ids of the selected
/// candidates.
pub proof fn lemma_select_ids(
    cands: Seq<CandidateNodeView>,
    t: crate::model::NodeTopologyView,
    used: Seq<ResourceLabelView>,
)
    ensures
        select_spec(cands, t, used) == selected_candidates(cands, t, used).map_values(
            |c: CandidateNodeView| c.id,
        ),
    decreases cands.len(),
{
    if cands.len() == 0 {
        assert(select_spec(cands, t, used) =~= selected_candidates(cands, t, used).map_values(
            |c: CandidateNodeView| c.id,
        ));
    } else if matches_node_spec(t, cands[0].labels, used) {
        lemma_select_ids(cands.drop_first(), t, used + cands[0].labels);
        assert(select_spec(cands, t, used) =~= selected_candidates(cands, t, used).map_values(
            |c: CandidateNodeView| c.id,
        ));
    } else {
        lemma_select_ids(cands.drop_first(), t, used);
    }
}

/// A label name carried somewhere in either list is carried in their
/// concatenation.
pub proof fn lemma_has_name_concat(
    e: Seq<char>,
    a: Seq<ResourceLabelView>,
    b: Seq<ResourceLabelView>,
)
    ensures
        has_label_named(e, a) ==> has_label_named(e, a + b),
        has_label_named(e, b) ==> has_label_named(e, a + b),
{
    if has_label_named(e, a) {
        let k = choose|k: int| 0 <= k < a.len() && a[k].key == e;
        assert((a + b)[k].key == e);
    }
    if has_label_named(e, b) {
        let k = choose|k: int| 0 <= k < b.len() && b[k].key == e;
        assert((a + b)[a.len() + k].key == e);
    }
}

/// Once the accumulated labels carry an excluded name, no candidate the
/// greedy pass still selects carries that name.
pub proof fn lemma_selected_none_carry(
    cands: Seq<CandidateNodeView>,
    t: crate::model::NodeTopologyView,
    used: Seq<ResourceLabelView>,
    e: Seq<char>,
)
    requires
        t.exclusion.contains(e),
        has_label_named(e, used),
    ensures
        forall|m: int|
            0 <= m < selected_candidates(cands, t, used).len() ==> !has_label_named(
                e,
                #[trigger] selected_candidates(cands, t, used)[m].labels,
            ),
    decreases cands.len(),
{
    if cands.len() != 0 {
        if matches_node_spec(t, cands[0].labels, used) {
            if has_label_named(e, cands[0].labels) {
                lemma_exclusion_disqualifies(t, cands[0].labels, used, e);
            }
            lemma_has_name_concat(e, used, cands[0].labels);
            lemma_selected_none_carry(cands.drop_first(), t, used + cands[0].labels, e);
            let rest = selected_candidates(cands.drop_first(), t, used + cands[0].labels);
            assert forall|m: int|
                0 <= m < selected_candidates(cands, t, used).len() implies !has_label_named(
                e,
                #[trigger] selected_candidates(cands, t, used)[m].labels,
            ) by {
                if m > 0 {
                    assert(selected_candidates(cands, t, used)[m] == rest[m - 1]);
                }
            }
        } else {
            lemma_selected_none_carry(cands.drop_first(), t, used, e);
            assert forall|m: int|
                0 <= m < selected_candidates(cands, t, used).len() implies !has_label_named(
                e,
                #[trigger] selected_candidates(cands, t, used)[m].labels,
            ) by {
                assert(selected_candidates(cands, t, used)[m] == selected_candidates(
                    cands.drop_first(),
                    t,
                    used,
                )[m]);
            }
        }
    }
}

/// No two candidates the greedy pass selects both carry an excluded label
/// name, whatever their label values: under `ExclusiveLabel("Zone")`, at
/// most one node carrying a "Zone" label is ever selected.
pub proof fn lemma_select_exclusion_pairwise(
    cands: Seq<CandidateNodeView>,
    t: crate::model::NodeTopologyView,
    used: Seq<ResourceLabelView>,
    e: Seq<char>,
    i: int,
    j: int,
)
    requires
        t.exclusion.contains(e),
        0 <= i < j < selected_candidates(cands, t, used).len(),
        has_label_named(e, selected_candidates(cands, t, used)[i].labels),
    ensures
        !has_label_named(e, selected_candidates(cands, t, used)[j].labels),
    decreases cands.len(),
{
    let sel = selected_candidates(cands, t, used);
    if matches_node_spec(t, cands[0].labels, used) {
        let rest = selected_candidates(cands.drop_first(), t, used + cands[0].labels);
        if i == 0 {
            lemma_has_name_concat(e, used, cands[0].labels);
            lemma_selected_none_carry(cands.drop_first(), t, used + cands[0].labels, e);
            assert(sel[j] == rest[j - 1]);
        } else {
            assert(sel[i] == rest[i - 1]);
            assert(sel[j] == rest[j - 1]);
            lemma_select_exclusion_pairwise(
                cands.drop_first(),
                t,
                used + cands[0].labels,
                e,
                i - 1,
                j - 1,
            );
        }
    } else {
        lemma_select_exclusion_pairwise(cands.drop_first(), t, used, e, i, j);
    }
}

/// No candidate that matches a node topology can carry an excluded label
/// name that a node already selected for the same volume also carries: the
/// exclusion rule is a pairwise "no two selected nodes share this label
/// name", whatever the label values.
pub proof fn lemma_exclusion_disqualifies(
    t: crate::model::NodeTopologyView,
    candidate: Seq<ResourceLabelView>,
    used: Seq<ResourceLabelView>,
    e: Seq<char>,
)
    requires
        t.exclusion.contains(e),
        has_label_named(e, candidate),
        has_label_named(e, used),
    ensures
        !matches_node_spec(t, candidate, used),
{
    let i = choose|i: int| 0 <= i < t.exclusion.len() && t.exclusion[i] == e;
    assert(has_label_named(t.exclusion[i], candidate) && has_label_named(t.exclusion[i], used));
}

/// A name-only inclusive label (no ':' in it) matches a candidate label by
/// name alone: the candidate's value does not enter into it.
pub proof fn lemma_inclusive_name_only(l: Seq<char>, key: Seq<char>, v1: Seq<char>, v2: Seq<char>)
    requires
        first_colon(l) == l.len(),
    ensures
        inclusive_matches(l, key, v1) == inclusive_matches(l, key, v2),
        inclusive_matches(l, key, v1) == (l == key),
{
}

/// A "NAME: VALUE" inclusive label matches exactly the candidate labels
/// whose name and value both equal its own parts.
pub proof fn lemma_inclusive_name_value(l: Seq<char>, key: Seq<char>, value: Seq<char>)
    requires
        first_colon(l) < l.len(),
    ensures
        inclusive_matches(l, key, value) == (key == label_key(l) && value == label_value(l)),
{
}

} // verus!
