//! Configuration projects: the optimistic, versioned write and the reads of
//! the `ConfigurationProjectStore` boundary, with a verified in-memory store.

use crate::bytes::{bytes_lt, lemma_bytes_lt_total, lemma_bytes_lt_trans, push_bytes, sort_keys, sorted_order, lists_index};
use crate::config::{
    project_check, project_conflict, pg_not_found, validate_project, validate_text_value,
    text_value_check, ConfigurationProjectTarget, ConfigurationProjectTargetKind,
    PutConfigurationProject,
};
use crate::error::ControlPlaneError;
use crate::runs::str_bytes;
use vstd::prelude::*;
use vstd::string::StringSliceAdditionalSpecFns;

verus! {

/// A stored configuration project with its targets.
#[derive(Debug, Clone, PartialEq, Eq)]
pub struct ConfigurationProjectRecord {
    pub id: String,
    pub tenant_id: String,
    pub name: String,
    pub description: String,
    pub status: String,
    pub version: u64,
    pub created_unix_ms: u64,
    pub updated_unix_ms: u64,
    pub targets: Vec<ConfigurationProjectTarget>,
}

/// The value of a configuration project record, its targets as a sequence.
pub struct ProjectView {
    pub id: String,
    pub tenant_id: String,
    pub name: String,
    pub description: String,
    pub status: String,
    pub version: u64,
    pub created_unix_ms: u64,
    pub updated_unix_ms: u64,
    pub targets: Seq<ConfigurationProjectTarget>,
}

impl View for ConfigurationProjectRecord {
    type V = ProjectView;

    open spec fn view(&self) -> ProjectView {
        ProjectView {
            id: self.id,
            tenant_id: self.tenant_id,
            name: self.name,
            description: self.description,
            status: self.status,
            version: self.version,
            created_unix_ms: self.created_unix_ms,
            updated_unix_ms: self.updated_unix_ms,
            targets: self.targets@,
        }
    }
}

/// The rank of a target kind in the durable order, which sorts by the kind's
/// name: `repository` before `scm_account`.
pub open spec fn kind_rank(k: ConfigurationProjectTargetKind) -> u8 {
    match k {
        ConfigurationProjectTargetKind::Repository => 0,
        ConfigurationProjectTargetKind::ScmAccount => 1,
    }
}

/// The sort key of a target: its kind's rank, then its id's bytes.
pub open spec fn target_key(t: ConfigurationProjectTarget) -> Seq<u8> {
    seq![kind_rank(t.kind)] + str_bytes(t.id)
}

/// The order in which a project's targets are read back: by kind name, then
/// by target id, byte-wise.
pub open spec fn target_before(a: ConfigurationProjectTarget, b: ConfigurationProjectTarget) -> bool {
    kind_rank(a.kind) < kind_rank(b.kind) || (a.kind == b.kind && bytes_lt(
        str_bytes(a.id),
        str_bytes(b.id),
    ))
}

/// The order in which a tenant's projects are listed: by name, then by id,
/// byte-wise.
pub open spec fn project_before(a: ProjectView, b: ProjectView) -> bool {
    bytes_lt(str_bytes(a.name), str_bytes(b.name)) || (str_bytes(a.name) == str_bytes(b.name)
        && bytes_lt(str_bytes(a.id), str_bytes(b.id)))
}

/// The sort key of a project: its name's bytes, a NUL byte, its id's bytes.
pub open spec fn project_key(p: ProjectView) -> Seq<u8> {
    str_bytes(p.name) + seq![0u8] + str_bytes(p.id)
}

proof fn lemma_target_key(a: ConfigurationProjectTarget, b: ConfigurationProjectTarget)
    ensures
        bytes_lt(target_key(a), target_key(b)) == target_before(a, b),
        target_key(a) == target_key(b) ==> a.kind == b.kind && str_bytes(a.id) == str_bytes(b.id),
{
    let ka = target_key(a);
    let kb = target_key(b);
    assert(ka.drop_first() =~= str_bytes(a.id));
    assert(kb.drop_first() =~= str_bytes(b.id));
    if ka == kb {
        assert(ka[0] == kb[0]);
    }
}

proof fn lemma_separated_key(n1: Seq<u8>, i1: Seq<u8>, n2: Seq<u8>, i2: Seq<u8>)
    requires
        !n1.contains(0u8),
        !n2.contains(0u8),
    ensures
        bytes_lt(n1 + seq![0u8] + i1, n2 + seq![0u8] + i2) == (bytes_lt(n1, n2) || (n1 == n2
            && bytes_lt(i1, i2))),
    decreases n1.len(),
{
    let k1 = n1 + seq![0u8] + i1;
    let k2 = n2 + seq![0u8] + i2;
    if n1.len() == 0 {
        if n2.len() == 0 {
            assert(k1.drop_first() =~= i1);
            assert(k2.drop_first() =~= i2);
            assert(n1 =~= n2);
        } else {
            assert(n2[0] != 0u8) by {
                assert(n2.contains(n2[0]) || n2[0] != 0u8);
            }
            assert(k1[0] == 0u8);
            assert(k2[0] == n2[0]);
        }
    } else if n2.len() == 0 {
        assert(n1[0] != 0u8) by {
            assert(n1.contains(n1[0]) || n1[0] != 0u8);
        }
        assert(k2[0] == 0u8);
        assert(k1[0] == n1[0]);
    } else {
        assert(k1[0] == n1[0]);
        assert(k2[0] == n2[0]);
        if n1[0] == n2[0] {
            assert(k1.drop_first() =~= n1.drop_first() + seq![0u8] + i1);
            assert(k2.drop_first() =~= n2.drop_first() + seq![0u8] + i2);
            assert(!n1.drop_first().contains(0u8)) by {
                if n1.drop_first().contains(0u8) {
                    let j = choose|j: int| 0 <= j < n1.drop_first().len() && n1.drop_first()[j] == 0u8;
                    assert(n1[j + 1] == 0u8);
                }
            }
            assert(!n2.drop_first().contains(0u8)) by {
                if n2.drop_first().contains(0u8) {
                    let j = choose|j: int| 0 <= j < n2.drop_first().len() && n2.drop_first()[j] == 0u8;
                    assert(n2[j + 1] == 0u8);
                }
            }
            lemma_separated_key(n1.drop_first(), i1, n2.drop_first(), i2);
            if n1.drop_first() == n2.drop_first() {
                assert(n1 =~= seq![n1[0]] + n1.drop_first());
                assert(n2 =~= seq![n2[0]] + n2.drop_first());
            }
            if n1 == n2 {
                assert(n1.drop_first() == n2.drop_first());
            }
        }
    }
}

/// Builds `a`, a NUL byte, then `b`.
fn separated_key(a: &[u8], b: &[u8]) -> (res: Vec<u8>)
    ensures
        res@ == a@ + seq![0u8] + b@,
{
    let mut out: Vec<u8> = Vec::new();
    push_bytes(&mut out, a);
    out.push(0u8);
    push_bytes(&mut out, b);
    proof {
        assert(out@ =~= a@ + seq![0u8] + b@);
    }
    out
}

fn target_key_exec(t: &ConfigurationProjectTarget) -> (res: Vec<u8>)
    ensures
        res@ == target_key(*t),
{
    let mut out: Vec<u8> = Vec::new();
    match t.kind {
        ConfigurationProjectTargetKind::Repository => out.push(0u8),
        ConfigurationProjectTargetKind::ScmAccount => out.push(1u8),
    }
    push_bytes(&mut out, t.id.as_str().as_bytes());
    proof {
        assert(out@ =~= target_key(*t));
    }
    out
}

fn clone_target(t: &ConfigurationProjectTarget) -> (res: ConfigurationProjectTarget)
    ensures
        res == *t,
{
    ConfigurationProjectTarget { kind: t.kind, id: t.id.clone(), created_unix_ms: t.created_unix_ms }
}

/// The targets that a project holds once written: the requested ones, each
/// once, ordered by `target_before`.
pub open spec fn targets_sorted_from(out: Seq<ConfigurationProjectTarget>, input: Seq<ConfigurationProjectTarget>) -> bool {
    &&& out.len() == input.len()
    &&& forall|q: int| 0 <= q < out.len() ==> input.contains(#[trigger] out[q])
    &&& forall|i: int| 0 <= i < input.len() ==> out.contains(#[trigger] input[i])
    &&& forall|a: int, b: int| 0 <= a < b < out.len() ==> target_before(#[trigger] out[a], #[trigger] out[b])
}

/// Orders targets whose (kind, id) pairs are distinct.
fn sort_targets(targets: &Vec<ConfigurationProjectTarget>) -> (res: Vec<ConfigurationProjectTarget>)
    requires
        forall|i: int, j: int|
            0 <= i < j < targets@.len() ==> !(targets@[i].kind == targets@[j].kind && str_bytes(
                targets@[i].id,
            ) == str_bytes(targets@[j].id)),
    ensures
        targets_sorted_from(res@, targets@),
{
    let mut keys: Vec<Vec<u8>> = Vec::new();
    let mut k: usize = 0;
    while k < targets.len()
        invariant
            0 <= k <= targets@.len(),
            keys@.len() == k,
            forall|i: int| 0 <= i < k ==> (#[trigger] keys@[i])@ == target_key(targets@[i]),
        decreases targets@.len() - k,
    {
        keys.push(target_key_exec(&targets[k]));
        k += 1;
    }
    proof {
        assert forall|i: int, j: int| 0 <= i < j < keys@.len() implies keys@[i]@ != keys@[j]@ by {
            lemma_target_key(targets@[i], targets@[j]);
        }
    }
    let order = sort_keys(&keys);
    let ghost ks = keys@.map_values(|k: Vec<u8>| k@);
    let mut out: Vec<ConfigurationProjectTarget> = Vec::new();
    let mut q: usize = 0;
    while q < order.len()
        invariant
            0 <= q <= order@.len(),
            ks == keys@.map_values(|k: Vec<u8>| k@),
            sorted_order(ks, order@),
            keys@.len() == targets@.len(),
            forall|i: int| 0 <= i < targets@.len() ==> (#[trigger] keys@[i])@ == target_key(targets@[i]),
            out@.len() == q,
            forall|p: int| 0 <= p < q ==> #[trigger] out@[p] == targets@[order@[p] as int],
        decreases order@.len() - q,
    {
        out.push(clone_target(&targets[order[q]]));
        q += 1;
    }
    proof {
        assert forall|p: int| 0 <= p < out@.len() implies targets@.contains(#[trigger] out@[p]) by {
            assert(targets@[order@[p] as int] == out@[p]);
        }
        assert forall|i: int| 0 <= i < targets@.len() implies out@.contains(#[trigger] targets@[i]) by {
            assert(lists_index(order@, i));
            let p = choose|p: int| 0 <= p < order@.len() && order@[p] == i;
            assert(out@[p] == targets@[i]);
        }
        assert forall|a: int, b: int| 0 <= a < b < out@.len() implies target_before(
            #[trigger] out@[a],
            #[trigger] out@[b],
        ) by {
            let ia = order@[a] as int;
            let ib = order@[b] as int;
            assert(bytes_lt(ks[ia], ks[ib]));
            lemma_target_key(targets@[ia], targets@[ib]);
        }
    }
    out
}

pub const FIELD_PROJECT_VERSION: &'static str = "configuration project version";

pub const FIELD_PROJECT_CREATION: &'static str = "configuration project creation";

pub const FIELD_PROJECT_UPDATE: &'static str = "configuration project update";

pub const MSG_PROJECT_UPDATE_ORDER: &'static str = "configuration project update precedes creation";

pub const KIND_PROJECT: &'static str = "configuration project";

/// The version conflict of a write that found `actual`.
pub open spec fn version_conflict(input: PutConfigurationProject, actual: u64) -> ControlPlaneError {
    ControlPlaneError::ConfigurationProjectVersionConflict {
        id: input.id,
        expected: input.expected_version,
        actual,
    }
}

/// The update time may not precede the creation time, and the version and
/// both times must fit a PostgreSQL `BIGINT`.
pub open spec fn stored_times_check(input: PutConfigurationProject, version: u64, created: u64) -> Result<
    (u64, u64),
    ControlPlaneError,
> {
    if input.updated_unix_ms < created {
        Err(ControlPlaneError::InvalidInput(MSG_PROJECT_UPDATE_ORDER))
    } else if version > i64::MAX {
        Err(ControlPlaneError::IntegerRange { field: FIELD_PROJECT_VERSION })
    } else if created > i64::MAX {
        Err(ControlPlaneError::IntegerRange { field: FIELD_PROJECT_CREATION })
    } else if input.updated_unix_ms > i64::MAX {
        Err(ControlPlaneError::IntegerRange { field: FIELD_PROJECT_UPDATE })
    } else {
        Ok((version, created))
    }
}

/// The version and creation time a project write stores, given the version
/// and creation time of the tenant's current project with that id: a new
/// project must expect version 0 and starts at 1, created now; an existing
/// one must expect its current version and moves to the next one.
pub open spec fn project_write_plan(input: PutConfigurationProject, existing: Option<(u64, u64)>) -> Result<
    (u64, u64),
    ControlPlaneError,
> {
    match existing {
        None => if input.expected_version == 0 {
            stored_times_check(input, 1, input.updated_unix_ms)
        } else {
            Err(version_conflict(input, 0))
        },
        Some((actual, created)) => if actual != input.expected_version {
            Err(version_conflict(input, actual))
        } else if actual == u64::MAX {
            Err(ControlPlaneError::IntegerRange { field: FIELD_PROJECT_VERSION })
        } else {
            stored_times_check(input, (actual + 1) as u64, created)
        },
    }
}

/// Decides the version and creation time of a project write from the
/// tenant's current project with the same id, if any (its version and
/// creation time).
pub fn plan_project_write(input: &PutConfigurationProject, existing: Option<(u64, u64)>) -> (res:
    Result<(u64, u64), ControlPlaneError>)
    ensures
        res == project_write_plan(*input, existing),
{
    let (version, created) = match existing {
        None => {
            if input.expected_version != 0 {
                return Err(project_conflict(input, 0));
            }
            (1u64, input.updated_unix_ms)
        },
        Some((actual, created)) => {
            if actual != input.expected_version {
                return Err(project_conflict(input, actual));
            }
            if actual == u64::MAX {
                return Err(ControlPlaneError::IntegerRange { field: FIELD_PROJECT_VERSION });
            }
            (actual + 1, created)
        },
    };
    if input.updated_unix_ms < created {
        return Err(ControlPlaneError::InvalidInput(MSG_PROJECT_UPDATE_ORDER));
    }
    if version > 0x7fff_ffff_ffff_ffffu64 {
        return Err(ControlPlaneError::IntegerRange { field: FIELD_PROJECT_VERSION });
    }
    if created > 0x7fff_ffff_ffff_ffffu64 {
        return Err(ControlPlaneError::IntegerRange { field: FIELD_PROJECT_CREATION });
    }
    if input.updated_unix_ms > 0x7fff_ffff_ffff_ffffu64 {
        return Err(ControlPlaneError::IntegerRange { field: FIELD_PROJECT_UPDATE });
    }
    Ok((version, created))
}

/// The project that a successful write stores.
pub open spec fn project_written(p: ProjectView, input: PutConfigurationProject, version: u64, created: u64) -> bool {
    &&& p.id == input.id
    &&& p.tenant_id == input.tenant_id
    &&& p.name == input.name
    &&& p.description == input.description
    &&& p.status == input.status
    &&& p.version == version
    &&& p.created_unix_ms == created
    &&& p.updated_unix_ms == input.updated_unix_ms
    &&& targets_sorted_from(p.targets, input.targets@)
}

/// Whether the project `p` belongs to the tenant whose id has the bytes `tenant`.
pub open spec fn of_tenant(p: ProjectView, tenant: Seq<u8>) -> bool {
    str_bytes(p.tenant_id) == tenant
}

/// What a project write owes, from the store's projects `m` (keyed by the
/// bytes of their ids) to the projects `m2` it leaves: the validation error,
/// the version decision's error, `NotFound` when another tenant owns the id,
/// or the stored project.
pub open spec fn put_outcome(
    m: Map<Seq<u8>, ProjectView>,
    input: PutConfigurationProject,
    m2: Map<Seq<u8>, ProjectView>,
    res: Result<ConfigurationProjectRecord, ControlPlaneError>,
) -> bool {
    let id = str_bytes(input.id);
    let tenant = str_bytes(input.tenant_id);
    let existing = if m.contains_key(id) && of_tenant(m[id], tenant) {
        Some((m[id].version, m[id].created_unix_ms))
    } else {
        None
    };
    match project_check(input) {
        Err(e) => res == Err::<ConfigurationProjectRecord, ControlPlaneError>(e) && m2 == m,
        Ok(()) => match project_write_plan(input, existing) {
            Err(e) => res == Err::<ConfigurationProjectRecord, ControlPlaneError>(e) && m2 == m,
            Ok((version, created)) => if m.contains_key(id) && !of_tenant(m[id], tenant) {
                &&& res matches Err(ControlPlaneError::NotFound { kind, id: missing })
                &&& kind == KIND_PROJECT
                &&& missing@ == input.id@
                &&& m2 == m
            } else {
                &&& res matches Ok(r)
                &&& project_written(r@, input, version, created)
                &&& m2 == m.insert(id, r@)
            },
        },
    }
}

/// `s` lists, ordered by name and id, exactly the projects of the tenant.
pub open spec fn lists_tenant_projects(m: Map<Seq<u8>, ProjectView>, tenant: Seq<u8>, s: Seq<ProjectView>) -> bool {
    &&& forall|q: int|
        0 <= q < s.len() ==> m.contains_key(str_bytes((#[trigger] s[q]).id)) && m[str_bytes(s[q].id)]
            == s[q] && of_tenant(s[q], tenant)
    &&& forall|k: Seq<u8>| #[trigger] m.contains_key(k) && of_tenant(m[k], tenant) ==> s.contains(m[k])
    &&& forall|a: int, b: int| 0 <= a < b < s.len() ==> project_before(#[trigger] s[a], #[trigger] s[b])
}

/// The reads and the optimistic write of configuration projects, over the
/// projects a store holds keyed by the bytes of their ids.
pub trait ConfigurationProjectStore {
    /// The projects the store holds, keyed by the bytes of their ids.
    spec fn projects_view(&self) -> Map<Seq<u8>, ProjectView>;

    /// Creates a project (expected version 0) or replaces the tenant's
    /// project at its expected version, and returns what was stored.
    fn put_project(&mut self, input: &PutConfigurationProject) -> (res: Result<
        ConfigurationProjectRecord,
        ControlPlaneError,
    >)
        ensures
            put_outcome(old(self).projects_view(), *input, final(self).projects_view(), res),
    ;

    /// The tenant's project with the given id.
    fn project(&self, tenant_id: &str, project_id: &str) -> (res: Result<
        ConfigurationProjectRecord,
        ControlPlaneError,
    >)
        ensures
            if self.projects_view().contains_key(project_id.spec_bytes()) && of_tenant(
                self.projects_view()[project_id.spec_bytes()],
                tenant_id.spec_bytes(),
            ) {
                res matches Ok(r) && r@ == self.projects_view()[project_id.spec_bytes()]
            } else {
                &&& res matches Err(ControlPlaneError::NotFound { kind, id: missing })
                &&& kind == KIND_PROJECT
                &&& missing@ == project_id@
            },
    ;

    /// The tenant's projects, ordered by name and id.
    fn projects(&self, tenant_id: &str) -> (res: Result<Vec<ConfigurationProjectRecord>, ControlPlaneError>)
        ensures
            match text_value_check(tenant_id.spec_bytes()) {
                Err(e) => res == Err::<Vec<ConfigurationProjectRecord>, ControlPlaneError>(e),
                Ok(()) => res matches Ok(v) && lists_tenant_projects(
                    self.projects_view(),
                    tenant_id.spec_bytes(),
                    v@.map_values(|r: ConfigurationProjectRecord| r@),
                ),
            },
    ;
}

/// Configuration projects held in memory, with the semantics of the durable
/// store: one project per id, each owned by one tenant.
pub struct MemoryConfigurationStore {
    projects: Vec<ConfigurationProjectRecord>,
}

/// Whether some stored project has the id bytes `id`.
pub open spec fn has_project(s: Seq<ConfigurationProjectRecord>, id: Seq<u8>) -> bool {
    exists|i: int| 0 <= i < s.len() && str_bytes((#[trigger] s[i]).id) == id
}

/// The stored projects keyed by the bytes of their ids.
pub open spec fn projects_map(s: Seq<ConfigurationProjectRecord>) -> Map<Seq<u8>, ProjectView> {
    Map::new(
        |id: Seq<u8>| has_project(s, id),
        |id: Seq<u8>| s[choose|i: int| 0 <= i < s.len() && str_bytes(s[i].id) == id]@,
    )
}

/// No two stored projects share an id, and no name holds a NUL byte.
pub open spec fn projects_wf(s: Seq<ConfigurationProjectRecord>) -> bool {
    &&& forall|i: int, j: int|
        0 <= i < j < s.len() ==> str_bytes((#[trigger] s[i]).id) != str_bytes((#[trigger] s[j]).id)
    &&& forall|i: int| 0 <= i < s.len() ==> !str_bytes((#[trigger] s[i]).name).contains(0u8)
}

proof fn lemma_projects_map_at(s: Seq<ConfigurationProjectRecord>, i: int)
    requires
        projects_wf(s),
        0 <= i < s.len(),
    ensures
        projects_map(s).contains_key(str_bytes(s[i].id)),
        projects_map(s)[str_bytes(s[i].id)] == s[i]@,
{
    let id = str_bytes(s[i].id);
    assert(has_project(s, id));
    let j = choose|j: int| 0 <= j < s.len() && str_bytes(s[j].id) == id;
    if j != i {
        if j < i {
            assert(str_bytes(s[j].id) != str_bytes(s[i].id));
        } else {
            assert(str_bytes(s[i].id) != str_bytes(s[j].id));
        }
    }
}

proof fn lemma_projects_map_set(s: Seq<ConfigurationProjectRecord>, i: int, r: ConfigurationProjectRecord)
    requires
        projects_wf(s),
        0 <= i < s.len(),
        str_bytes(r.id) == str_bytes(s[i].id),
        !str_bytes(r.name).contains(0u8),
    ensures
        projects_wf(s.update(i, r)),
        projects_map(s.update(i, r)) == projects_map(s).insert(str_bytes(r.id), r@),
{
    let s2 = s.update(i, r);
    assert forall|a: int, b: int| 0 <= a < b < s2.len() implies str_bytes((#[trigger] s2[a]).id) != str_bytes((#[trigger] s2[b]).id) by {
        assert(str_bytes(s[a].id) != str_bytes(s[b].id));
    }
    assert forall|k: int| 0 <= k < s2.len() implies !str_bytes((#[trigger] s2[k]).name).contains(0u8) by {
        if k != i {
            assert(s2[k] == s[k]);
        }
    }
    let m = projects_map(s).insert(str_bytes(r.id), r@);
    let m2 = projects_map(s2);
    assert forall|k: Seq<u8>| #[trigger] m2.contains_key(k) == m.contains_key(k) by {
        if has_project(s2, k) {
            let j = choose|j: int| 0 <= j < s2.len() && str_bytes(s2[j].id) == k;
            if j != i {
                assert(has_project(s, k)) by {
                    assert(s[j] == s2[j]);
                }
            }
        }
        if has_project(s, k) {
            let j = choose|j: int| 0 <= j < s.len() && str_bytes(s[j].id) == k;
            if j != i {
                assert(s[j] == s2[j]);
            }
            assert(has_project(s2, k)) by {
                if j == i {
                    assert(str_bytes(s2[i].id) == k);
                } else {
                    assert(str_bytes(s2[j].id) == k);
                }
            }
        }
        if k == str_bytes(r.id) {
            assert(str_bytes(s2[i].id) == k);
        }
    }
    assert forall|k: Seq<u8>| #[trigger] m2.contains_key(k) implies m2[k] == m[k] by {
        let j = choose|j: int| 0 <= j < s2.len() && str_bytes(s2[j].id) == k;
        lemma_projects_map_at(s2, j);
        if j == i {
            assert(m2[k] == r@);
        } else {
            assert(s2[j] == s[j]);
            lemma_projects_map_at(s, j);
        }
    }
    assert(m2 =~= m);
}

proof fn lemma_projects_map_push(s: Seq<ConfigurationProjectRecord>, r: ConfigurationProjectRecord)
    requires
        projects_wf(s),
        !has_project(s, str_bytes(r.id)),
        !str_bytes(r.name).contains(0u8),
    ensures
        projects_wf(s.push(r)),
        projects_map(s.push(r)) == projects_map(s).insert(str_bytes(r.id), r@),
{
    let s2 = s.push(r);
    let n = s.len() as int;
    assert forall|a: int, b: int| 0 <= a < b < s2.len() implies str_bytes((#[trigger] s2[a]).id) != str_bytes((#[trigger] s2[b]).id) by {
        if b == n {
            assert(s2[a] == s[a]);
        } else {
            assert(str_bytes(s[a].id) != str_bytes(s[b].id));
        }
    }
    assert forall|k: int| 0 <= k < s2.len() implies !str_bytes((#[trigger] s2[k]).name).contains(0u8) by {
        if k < n {
            assert(s2[k] == s[k]);
        }
    }
    let m = projects_map(s).insert(str_bytes(r.id), r@);
    let m2 = projects_map(s2);
    assert forall|k: Seq<u8>| #[trigger] m2.contains_key(k) == m.contains_key(k) by {
        if has_project(s2, k) {
            let j = choose|j: int| 0 <= j < s2.len() && str_bytes(s2[j].id) == k;
            if j < n {
                assert(s[j] == s2[j]);
                assert(has_project(s, k));
            }
        }
        if has_project(s, k) {
            let j = choose|j: int| 0 <= j < s.len() && str_bytes(s[j].id) == k;
            assert(s2[j] == s[j]);
            assert(has_project(s2, k));
        }
        if k == str_bytes(r.id) {
            assert(str_bytes(s2[n].id) == k);
        }
    }
    assert forall|k: Seq<u8>| #[trigger] m2.contains_key(k) implies m2[k] == m[k] by {
        let j = choose|j: int| 0 <= j < s2.len() && str_bytes(s2[j].id) == k;
        lemma_projects_map_at(s2, j);
        if j < n {
            assert(s2[j] == s[j]);
            lemma_projects_map_at(s, j);
        }
    }
    assert(m2 =~= m);
}

impl View for MemoryConfigurationStore {
    type V = Map<Seq<u8>, ProjectView>;

    closed spec fn view(&self) -> Map<Seq<u8>, ProjectView> {
        projects_map(self.projects@)
    }
}

fn clone_record(r: &ConfigurationProjectRecord) -> (res: ConfigurationProjectRecord)
    ensures
        res@ == r@,
{
    let mut targets: Vec<ConfigurationProjectTarget> = Vec::new();
    let mut i: usize = 0;
    while i < r.targets.len()
        invariant
            0 <= i <= r.targets@.len(),
            targets@ == r.targets@.take(i as int),
        decreases r.targets@.len() - i,
    {
        targets.push(clone_target(&r.targets[i]));
        i += 1;
        proof {
            assert(targets@ =~= r.targets@.take(i as int));
        }
    }
    proof {
        assert(targets@ =~= r.targets@);
    }
    ConfigurationProjectRecord {
        id: r.id.clone(),
        tenant_id: r.tenant_id.clone(),
        name: r.name.clone(),
        description: r.description.clone(),
        status: r.status.clone(),
        version: r.version,
        created_unix_ms: r.created_unix_ms,
        updated_unix_ms: r.updated_unix_ms,
        targets,
    }
}

impl MemoryConfigurationStore {
    #[verifier::type_invariant]
    closed spec fn wf(self) -> bool {
        projects_wf(self.projects@)
    }

    /// A store without projects.
    pub fn new() -> (s: Self)
        ensures
            s@ == Map::<Seq<u8>, ProjectView>::empty(),
    {
        let s = MemoryConfigurationStore { projects: Vec::new() };
        proof {
            assert(projects_map(s.projects@) =~= Map::<Seq<u8>, ProjectView>::empty());
        }
        s
    }

    /// The index of the stored project with the id `id`.
    fn find(&self, id: &str) -> (res: Option<usize>)
        ensures
            match res {
                Some(i) => i < self.projects@.len() && str_bytes(self.projects@[i as int].id)
                    == id.spec_bytes(),
                None => !has_project(self.projects@, id.spec_bytes()),
            },
    {
        let mut i: usize = 0;
        while i < self.projects.len()
            invariant
                0 <= i <= self.projects@.len(),
                forall|j: int| 0 <= j < i ==> str_bytes((#[trigger] self.projects@[j]).id) != id.spec_bytes(),
            decreases self.projects@.len() - i,
        {
            if crate::bytes::str_is(self.projects[i].id.as_str(), id) {
                return Some(i);
            }
            i += 1;
        }
        None
    }
}

impl ConfigurationProjectStore for MemoryConfigurationStore {
    open spec fn projects_view(&self) -> Map<Seq<u8>, ProjectView> {
        self@
    }

    fn put_project(&mut self, input: &PutConfigurationProject) -> (res: Result<
        ConfigurationProjectRecord,
        ControlPlaneError,
    >) {
        proof {
            use_type_invariant(&*self);
        }
        validate_project(input)?;
        let found = self.find(input.id.as_str());
        let existing = match found {
            Some(i) => {
                if crate::bytes::str_is(self.projects[i].tenant_id.as_str(), input.tenant_id.as_str()) {
                    Some((self.projects[i].version, self.projects[i].created_unix_ms))
                } else {
                    None
                }
            },
            None => None,
        };
        proof {
            match found {
                Some(i) => lemma_projects_map_at(self.projects@, i as int),
                None => {},
            }
        }
        let (version, created) = plan_project_write(input, existing)?;
        proof {
            crate::config::lemma_valid_project_targets_distinct(*input, input.targets@.len());
        }
        let targets = sort_targets(&input.targets);
        let record = ConfigurationProjectRecord {
            id: input.id.clone(),
            tenant_id: input.tenant_id.clone(),
            name: input.name.clone(),
            description: input.description.clone(),
            status: input.status.clone(),
            version,
            created_unix_ms: created,
            updated_unix_ms: input.updated_unix_ms,
            targets,
        };
        match found {
            Some(i) => {
                if existing.is_none() {
                    return Err(pg_not_found(KIND_PROJECT, input.id.as_str()));
                }
                let stored = clone_record(&record);
                proof {
                    lemma_projects_map_set(self.projects@, i as int, stored);
                }
                let mut projects: Vec<ConfigurationProjectRecord> = Vec::new();
                std::mem::swap(&mut projects, &mut self.projects);
                projects.set(i, stored);
                self.projects = projects;
            },
            None => {
                let stored = clone_record(&record);
                proof {
                    lemma_projects_map_push(self.projects@, stored);
                }
                let mut projects: Vec<ConfigurationProjectRecord> = Vec::new();
                std::mem::swap(&mut projects, &mut self.projects);
                projects.push(stored);
                self.projects = projects;
            },
        }
        Ok(record)
    }

    fn project(&self, tenant_id: &str, project_id: &str) -> (res: Result<
        ConfigurationProjectRecord,
        ControlPlaneError,
    >)
    {
        proof {
            use_type_invariant(self);
        }
        match self.find(project_id) {
            Some(i) => {
                proof {
                    lemma_projects_map_at(self.projects@, i as int);
                }
                if crate::bytes::str_is(self.projects[i].tenant_id.as_str(), tenant_id) {
                    Ok(clone_record(&self.projects[i]))
                } else {
                    Err(pg_not_found(KIND_PROJECT, project_id))
                }
            },
            None => Err(pg_not_found(KIND_PROJECT, project_id)),
        }
    }

    fn projects(&self, tenant_id: &str) -> (res: Result<Vec<ConfigurationProjectRecord>, ControlPlaneError>)
    {
        proof {
            use_type_invariant(self);
        }
        validate_text_value(tenant_id)?;
        let s = &self.projects;
        let mut chosen: Vec<usize> = Vec::new();
        let mut keys: Vec<Vec<u8>> = Vec::new();
        let mut i: usize = 0;
        while i < s.len()
            invariant
                0 <= i <= s@.len(),
                s == self.projects,
                projects_wf(s@),
                chosen@.len() == keys@.len(),
                forall|a: int, b: int| 0 <= a < b < chosen@.len() ==> chosen@[a] < chosen@[b],
                forall|q: int|
                    0 <= q < chosen@.len() ==> (#[trigger] chosen@[q]) < i && of_tenant(
                        s@[chosen@[q] as int]@,
                        tenant_id.spec_bytes(),
                    ) && keys@[q]@ == project_key(s@[chosen@[q] as int]@),
                forall|j: int|
                    0 <= j < i && of_tenant(s@[j]@, tenant_id.spec_bytes()) ==> #[trigger] lists_index(
                        chosen@,
                        j,
                    ),
            decreases s@.len() - i,
        {
            if crate::bytes::str_is(s[i].tenant_id.as_str(), tenant_id) {
                let ghost old_chosen = chosen@;
                chosen.push(i);
                keys.push(separated_key(s[i].name.as_str().as_bytes(), s[i].id.as_str().as_bytes()));
                proof {
                    assert forall|j: int|
                        0 <= j < i + 1 && of_tenant(s@[j]@, tenant_id.spec_bytes()) implies #[trigger] lists_index(
                        chosen@,
                        j,
                    ) by {
                        if j == i {
                            assert(chosen@[old_chosen.len() as int] == j);
                        } else {
                            assert(lists_index(old_chosen, j));
                            let q = choose|q: int| 0 <= q < old_chosen.len() && old_chosen[q] == j;
                            assert(chosen@[q] == j);
                        }
                    }
                }
            }
            i += 1;
        }
        proof {
            assert forall|a: int, b: int| 0 <= a < b < keys@.len() implies keys@[a]@ != keys@[b]@ by {
                let x = s@[chosen@[a] as int];
                let y = s@[chosen@[b] as int];
                lemma_separated_key(str_bytes(x.name), str_bytes(x.id), str_bytes(y.name), str_bytes(y.id));
                lemma_separated_key(str_bytes(y.name), str_bytes(y.id), str_bytes(x.name), str_bytes(x.id));
                lemma_bytes_lt_total(str_bytes(x.name), str_bytes(y.name));
                lemma_bytes_lt_total(str_bytes(x.id), str_bytes(y.id));
                lemma_bytes_lt_total(keys@[a]@, keys@[b]@);
                assert(str_bytes(x.id) != str_bytes(y.id));
            }
        }
        let order = sort_keys(&keys);
        let ghost ks = keys@.map_values(|k: Vec<u8>| k@);
        let mut out: Vec<ConfigurationProjectRecord> = Vec::new();
        let mut q: usize = 0;
        while q < order.len()
            invariant
                0 <= q <= order@.len(),
                s == self.projects,
                ks == keys@.map_values(|k: Vec<u8>| k@),
                sorted_order(ks, order@),
                chosen@.len() == keys@.len(),
                forall|p: int| 0 <= p < chosen@.len() ==> (#[trigger] chosen@[p]) < s@.len(),
                out@.len() == q,
                forall|p: int| 0 <= p < q ==> (#[trigger] out@[p])@ == s@[chosen@[order@[p] as int] as int]@,
            decreases order@.len() - q,
        {
            out.push(clone_record(&s[chosen[order[q]]]));
            q += 1;
        }
        proof {
            let m = projects_map(s@);
            let v = out@.map_values(|r: ConfigurationProjectRecord| r@);
            let t = tenant_id.spec_bytes();
            assert forall|p: int| 0 <= p < v.len() implies m.contains_key(str_bytes((#[trigger] v[p]).id)) && m[str_bytes(v[p].id)] == v[p] && of_tenant(v[p], t) by {
                lemma_projects_map_at(s@, chosen@[order@[p] as int] as int);
            }
            assert forall|k: Seq<u8>| #[trigger] m.contains_key(k) && of_tenant(m[k], t) implies v.contains(m[k]) by {
                let j = choose|j: int| 0 <= j < s@.len() && str_bytes(s@[j].id) == k;
                lemma_projects_map_at(s@, j);
                assert(lists_index(chosen@, j));
                let c = choose|c: int| 0 <= c < chosen@.len() && chosen@[c] == j;
                assert(lists_index(order@, c));
                let p = choose|p: int| 0 <= p < order@.len() && order@[p] == c;
                assert(v[p] == m[k]);
            }
            assert forall|a: int, b: int| 0 <= a < b < v.len() implies project_before(#[trigger] v[a], #[trigger] v[b]) by {
                let ca = order@[a] as int;
                let cb = order@[b] as int;
                assert(bytes_lt(ks[ca], ks[cb]));
                let x = s@[chosen@[ca] as int];
                let y = s@[chosen@[cb] as int];
                lemma_separated_key(str_bytes(x.name), str_bytes(x.id), str_bytes(y.name), str_bytes(y.id));
            }
        }
        Ok(out)
    }
}

/// A successful write is what a read of the tenant's project then returns:
/// the store holds the returned project under its id, owned by the tenant.
pub proof fn law_read_your_write(
    m: Map<Seq<u8>, ProjectView>,
    input: PutConfigurationProject,
    m2: Map<Seq<u8>, ProjectView>,
    r: ConfigurationProjectRecord,
)
    requires
        put_outcome(m, input, m2, Ok(r)),
    ensures
        m2.contains_key(str_bytes(input.id)),
        m2[str_bytes(input.id)] == r@,
        of_tenant(r@, str_bytes(input.tenant_id)),
{
}

/// A successful write shows in the tenant's listing: any listing of the
/// tenant's projects after it holds the written project, and every project
/// it holds is the tenant's as the store then has it.
pub proof fn law_listing_after_write(
    m: Map<Seq<u8>, ProjectView>,
    input: PutConfigurationProject,
    m2: Map<Seq<u8>, ProjectView>,
    r: ConfigurationProjectRecord,
    listing: Seq<ProjectView>,
)
    requires
        put_outcome(m, input, m2, Ok(r)),
        lists_tenant_projects(m2, str_bytes(input.tenant_id), listing),
    ensures
        listing.contains(r@),
        forall|q: int| 0 <= q < listing.len() ==> m2[str_bytes((#[trigger] listing[q]).id)] == listing[q],
{
    assert(m2.contains_key(str_bytes(input.id)) && of_tenant(m2[str_bytes(input.id)], str_bytes(input.tenant_id)));
}

/// A new project starts at version 1, created at its update time; a
/// replacement moves its project to the next version and keeps its creation
/// time.
pub proof fn law_write_versions(
    m: Map<Seq<u8>, ProjectView>,
    input: PutConfigurationProject,
    m2: Map<Seq<u8>, ProjectView>,
    r: ConfigurationProjectRecord,
)
    requires
        put_outcome(m, input, m2, Ok(r)),
    ensures
        m.contains_key(str_bytes(input.id)) ==> r.version == m[str_bytes(input.id)].version + 1
            && r.created_unix_ms == m[str_bytes(input.id)].created_unix_ms && input.expected_version
            == m[str_bytes(input.id)].version,
        !m.contains_key(str_bytes(input.id)) ==> r.version == 1 && r.created_unix_ms
            == input.updated_unix_ms && input.expected_version == 0,
{
}

/// A refused write changes nothing, and a successful one changes no other
/// project.
pub proof fn law_write_isolation(
    m: Map<Seq<u8>, ProjectView>,
    input: PutConfigurationProject,
    m2: Map<Seq<u8>, ProjectView>,
    res: Result<ConfigurationProjectRecord, ControlPlaneError>,
)
    requires
        put_outcome(m, input, m2, res),
    ensures
        res is Err ==> m2 == m,
        forall|k: Seq<u8>| k != str_bytes(input.id) ==> (#[trigger] m2.contains_key(k) == m.contains_key(k)
            && (m.contains_key(k) ==> m2[k] == m[k])),
{
}

/// A valid write that expects another version than the tenant's current
/// project has is refused with the version it found.
pub proof fn law_stale_write_conflicts(
    m: Map<Seq<u8>, ProjectView>,
    input: PutConfigurationProject,
    m2: Map<Seq<u8>, ProjectView>,
    res: Result<ConfigurationProjectRecord, ControlPlaneError>,
)
    requires
        put_outcome(m, input, m2, res),
        project_check(input) is Ok,
        m.contains_key(str_bytes(input.id)),
        of_tenant(m[str_bytes(input.id)], str_bytes(input.tenant_id)),
        m[str_bytes(input.id)].version != input.expected_version,
    ensures
        res == Err::<ConfigurationProjectRecord, ControlPlaneError>(
            version_conflict(input, m[str_bytes(input.id)].version),
        ),
        m2 == m,
{
}

} // verus!
