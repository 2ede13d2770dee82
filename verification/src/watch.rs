//! Upstream-change watcher: a persisted baseline mapping each tracked fork
//! to its last-seen commit hash, and the step that compares one fork's
//! latest remote hash against the baseline and emits a rebuild dispatch
//! record for every registered project supporting that fork.

use vstd::pervasive::VecAdditionalExecFns;
use vstd::prelude::*;
use vstd::string::StrSliceExecFns;
use vstd::string::StringExecFns;

use crate::config::ProjectConfig;
use crate::config::Registry;
use crate::strings::pair_views;
use crate::strings::starts_with_str;
use crate::strings::str_eq;
use crate::variant::normalize_variant;
use crate::variant::normalize_variant_spec;

verus! {

/// View of the baseline: key/hash pairs in storage order.
pub type BaselineView = Seq<(Seq<char>, Seq<char>)>;

/// Index of the first pair whose key is `k`, or -1 when there is none.
pub open spec fn key_index(s: BaselineView, k: Seq<char>) -> int
    decreases s.len(),
{
    if s.len() == 0 {
        -1
    } else if s[0].0 == k {
        0
    } else {
        let r = key_index(s.drop_first(), k);
        if r == -1 {
            -1
        } else {
            r + 1
        }
    }
}

proof fn lemma_key_index(s: BaselineView, k: Seq<char>)
    ensures
        key_index(s, k) == -1 ==> forall|j: int| 0 <= j < s.len() ==> s[j].0 != k,
        key_index(s, k) >= 0 ==> {
            &&& 0 <= key_index(s, k) < s.len()
            &&& s[key_index(s, k)].0 == k
            &&& forall|j: int| 0 <= j < key_index(s, k) ==> s[j].0 != k
        },
        key_index(s, k) >= -1,
    decreases s.len(),
{
    if s.len() > 0 && s[0].0 != k {
        lemma_key_index(s.drop_first(), k);
        let r = key_index(s.drop_first(), k);
        if r == -1 {
            assert forall|j: int| 0 <= j < s.len() implies s[j].0 != k by {
                if j > 0 {
                    assert(s.drop_first()[j - 1] == s[j]);
                }
            }
        } else {
            assert(s.drop_first()[r] == s[r + 1]);
            assert forall|j: int| 0 <= j < r + 1 implies s[j].0 != k by {
                if j > 0 {
                    assert(s.drop_first()[j - 1] == s[j]);
                }
            }
        }
    }
}

/// `key_index` finds exactly the first match.
proof fn lemma_key_index_first(s: BaselineView, k: Seq<char>, i: int)
    requires
        0 <= i < s.len(),
        s[i].0 == k,
        forall|j: int| 0 <= j < i ==> s[j].0 != k,
    ensures
        key_index(s, k) == i,
    decreases s.len(),
{
    if i > 0 {
        assert(s.drop_first()[i - 1] == s[i]);
        assert forall|j: int| 0 <= j < i - 1 implies s.drop_first()[j].0 != k by {
            assert(s.drop_first()[j] == s[j + 1]);
        }
        lemma_key_index_first(s.drop_first(), k, i - 1);
    }
}

/// The hash stored under `k`, if any.
pub open spec fn kv_get(s: BaselineView, k: Seq<char>) -> Option<Seq<char>> {
    let i = key_index(s, k);
    if i >= 0 {
        Some(s[i].1)
    } else {
        None
    }
}

/// The hash stored under `k`, the empty string when absent.
pub open spec fn stored_hash(s: BaselineView, k: Seq<char>) -> Seq<char> {
    match kv_get(s, k) {
        Some(h) => h,
        None => Seq::empty(),
    }
}

/// The baseline with `k` now mapping to `v`: the first pair under `k` is
/// replaced, or a new pair is appended.
pub open spec fn kv_set(s: BaselineView, k: Seq<char>, v: Seq<char>) -> BaselineView {
    let i = key_index(s, k);
    if i >= 0 {
        s.update(i, (k, v))
    } else {
        s.push((k, v))
    }
}

/// No key occurs twice.
pub open spec fn distinct_keys(s: BaselineView) -> bool {
    forall|i: int, j: int| 0 <= i < j < s.len() ==> s[i].0 != s[j].0
}

/// How appending a pair changes the first-match index.
proof fn lemma_key_index_push(s: BaselineView, p: (Seq<char>, Seq<char>), k: Seq<char>)
    ensures
        key_index(s.push(p), k) == if key_index(s, k) >= 0 {
            key_index(s, k)
        } else if p.0 == k {
            s.len() as int
        } else {
            -1 as int
        },
    decreases s.len(),
{
    if s.len() == 0 {
        assert(s.push(p)[0] == p);
        if p.0 != k {
            assert(s.push(p).drop_first() =~= Seq::<(Seq<char>, Seq<char>)>::empty());
            assert(key_index(s.push(p).drop_first(), k) == -1);
        }
    } else {
        assert(s.push(p)[0] == s[0]);
        assert(s.push(p).drop_first() =~= s.drop_first().push(p));
        lemma_key_index_push(s.drop_first(), p, k);
    }
}

/// How appending a pair changes a lookup: an already-present key keeps its
/// value, the appended key becomes readable, everything else stays absent.
proof fn lemma_kv_get_push(s: BaselineView, p: (Seq<char>, Seq<char>), k: Seq<char>)
    ensures
        kv_get(s.push(p), k) == if key_index(s, k) >= 0 {
            kv_get(s, k)
        } else if p.0 == k {
            Some(p.1)
        } else {
            None::<Seq<char>>
        },
{
    lemma_key_index_push(s, p, k);
    lemma_key_index(s, k);
    let ki = key_index(s, k);
    if ki >= 0 {
        assert(s.push(p)[ki] == s[ki]);
    } else if p.0 == k {
        assert(s.push(p)[s.len() as int] == p);
    }
}

/// The persisted upstream baseline: variant token to last-seen commit
/// hash, keys unique, `sukisuultra` never stored.
pub struct Baseline {
    entries: Vec<(String, String)>,
}

impl View for Baseline {
    type V = BaselineView;

    closed spec fn view(&self) -> BaselineView {
        pair_views(self.entries@)
    }
}

impl Baseline {
    /// An empty baseline, as used when no baseline file exists yet.
    pub fn new() -> (b: Baseline)
        ensures
            b@ == Seq::<(Seq<char>, Seq<char>)>::empty(),
            distinct_keys(b@),
    {
        let b = Baseline { entries: Vec::new() };
        proof {
            assert(b@ =~= Seq::<(Seq<char>, Seq<char>)>::empty());
        }
        b
    }

    /// The baseline as loaded from persisted key/hash pairs: the first
    /// pair wins when a key repeats, and any pair under the deprecated
    /// `sukisuultra` key is dropped.
    pub fn from_entries(list: &Vec<(String, String)>) -> (b: Baseline)
        ensures
            distinct_keys(b@),
            kv_get(b@, "sukisuultra"@) is None,
            forall|k: Seq<char>| k != "sukisuultra"@ ==> #[trigger] kv_get(b@, k) == kv_get(
                pair_views(list@),
                k,
            ),
    {
        let mut b = Baseline { entries: Vec::new() };
        proof {
            assert(b@ =~= Seq::<(Seq<char>, Seq<char>)>::empty());
        }
        let mut i: usize = 0;
        while i < list.len()
            invariant
                0 <= i <= list@.len(),
                distinct_keys(b@),
                kv_get(b@, "sukisuultra"@) is None,
                forall|k: Seq<char>| k != "sukisuultra"@ ==> #[trigger] kv_get(b@, k) == kv_get(
                    pair_views(list@.subrange(0, i as int)),
                    k,
                ),
            decreases list@.len() - i,
        {
            let ghost prev = b@;
            let ghost prev_list = pair_views(list@.subrange(0, i as int));
            let key = &list[i].0;
            let val = &list[i].1;
            proof {
                assert(list@.subrange(0, i + 1) =~= list@.subrange(0, i as int).push(
                    list@[i as int],
                ));
                assert(pair_views(list@.subrange(0, i + 1)) =~= prev_list.push((key@, val@)));
            }
            let ghost next_list = pair_views(list@.subrange(0, i + 1));
            let is_alias = str_eq(key.as_str(), "sukisuultra");
            let dup = b.find(key.as_str());
            if !is_alias && dup.is_none() {
                b.entries.push((key.clone(), val.clone()));
                proof {
                    assert(b@ =~= prev.push((key@, val@)));
                    lemma_key_index(prev, key@);
                    assert forall|x: int, y: int| 0 <= x < y < b@.len() implies b@[x].0
                        != b@[y].0 by {
                        if y == b@.len() - 1 {
                            assert(prev[x].0 != key@);
                        }
                    }
                    assert forall|k: Seq<char>| k != "sukisuultra"@ implies #[trigger] kv_get(
                        b@,
                        k,
                    ) == kv_get(next_list, k) by {
                        assert(kv_get(prev, k) == kv_get(prev_list, k));
                        lemma_kv_get_push(prev, (key@, val@), k);
                        lemma_kv_get_push(prev_list, (key@, val@), k);
                    }
                    lemma_kv_get_push(prev, (key@, val@), "sukisuultra"@);
                    assert(kv_get(b@, "sukisuultra"@) is None);
                }
            } else {
                proof {
                    assert forall|k: Seq<char>| k != "sukisuultra"@ implies #[trigger] kv_get(
                        b@,
                        k,
                    ) == kv_get(next_list, k) by {
                        assert(kv_get(prev, k) == kv_get(prev_list, k));
                        lemma_kv_get_push(prev_list, (key@, val@), k);
                        if key@ == k {
                            // the pair was skipped as a duplicate: its key is
                            // already stored, in the baseline and in the prefix
                            assert(kv_get(prev, key@) == kv_get(prev_list, key@));
                            assert(key_index(prev, key@) >= 0);
                            assert(kv_get(prev_list, key@) is Some);
                        }
                    }
                }
            }
            i = i + 1;
        }
        proof {
            assert(list@.subrange(0, list@.len() as int) =~= list@);
        }
        b
    }

    /// Index of the pair stored under `k`.
    pub fn find(&self, k: &str) -> (r: Option<usize>)
        ensures
            match r {
                Some(i) => 0 <= i < self@.len() && key_index(self@, k@) == i,
                None => key_index(self@, k@) == -1,
            },
    {
        let mut i: usize = 0;
        while i < self.entries.len()
            invariant
                0 <= i <= self@.len(),
                self@.len() == self.entries@.len(),
                forall|j: int| 0 <= j < i ==> self@[j].0 != k@,
            decreases self@.len() - i,
        {
            if str_eq(self.entries[i].0.as_str(), k) {
                proof {
                    assert(self@[i as int].0 == self.entries@[i as int].0@);
                    lemma_key_index_first(self@, k@, i as int);
                }
                return Some(i);
            }
            proof {
                assert(self@[i as int].0 == self.entries@[i as int].0@);
            }
            i = i + 1;
        }
        proof {
            lemma_key_index(self@, k@);
            let ki = key_index(self@, k@);
            if ki >= 0 {
                assert(self@[ki].0 == k@);
                assert(self@[ki].0 != k@);
            }
        }
        None
    }

    /// The hash stored under `k`.
    pub fn get(&self, k: &str) -> (r: Option<&String>)
        ensures
            match r {
                Some(h) => kv_get(self@, k@) == Some(h@),
                None => kv_get(self@, k@) is None,
            },
    {
        match self.find(k) {
            Some(i) => Some(&self.entries[i].1),
            None => None,
        }
    }

    /// Store `v` under `k`, replacing the first stored pair or appending.
    pub fn set(&mut self, k: &str, v: &str)
        ensures
            final(self)@ == kv_set(old(self)@, k@, v@),
            distinct_keys(old(self)@) ==> distinct_keys(final(self)@),
    {
        let ghost prev = self@;
        match self.find(k) {
            Some(i) => {
                self.entries.set(i, (String::from_str(k), String::from_str(v)));
                proof {
                    assert(self@ =~= prev.update(i as int, (k@, v@)));
                    lemma_key_index(prev, k@);
                    if distinct_keys(prev) {
                        assert forall|x: int, y: int| 0 <= x < y < self@.len() implies self@[x].0
                            != self@[y].0 by {
                            assert(prev[i as int].0 == k@);
                            assert(self@[x].0 == prev[x].0);
                            assert(self@[y].0 == prev[y].0);
                        }
                    }
                }
            },
            None => {
                self.entries.push((String::from_str(k), String::from_str(v)));
                proof {
                    assert(self@ =~= prev.push((k@, v@)));
                    lemma_key_index(prev, k@);
                    if distinct_keys(prev) {
                        assert forall|x: int, y: int| 0 <= x < y < self@.len() implies self@[x].0
                            != self@[y].0 by {
                            if y == self@.len() - 1 {
                                assert(prev[x].0 != k@);
                            }
                        }
                    }
                }
            },
        }
    }

    /// The stored pairs, for persistence.
    pub fn entries(&self) -> (r: &Vec<(String, String)>)
        ensures
            pair_views(r@) == self@,
    {
        &self.entries
    }
}

/// One unit of rebuild work emitted by the watcher.
pub struct DispatchRecord {
    pub project: String,
    pub variant: String,
    pub commit_id: String,
}

impl View for DispatchRecord {
    type V = (Seq<char>, Seq<char>, Seq<char>);

    open spec fn view(&self) -> (Seq<char>, Seq<char>, Seq<char>) {
        (self.project@, self.variant@, self.commit_id@)
    }
}

/// Views of a dispatch list.
pub open spec fn dispatch_views(s: Seq<DispatchRecord>) -> Seq<(Seq<char>, Seq<char>, Seq<char>)> {
    s.map_values(|d: DispatchRecord| d@)
}

/// Whether a registered project declares support for the (normalized)
/// variant `v` in its supported list.
pub open spec fn project_supports(p: ProjectConfig, v: Seq<char>) -> bool {
    match p.supported_ksu {
        Some(l) => exists|i: int|
            0 <= i < l@.len() && normalize_variant_spec((#[trigger] l@[i])@) == v,
        None => false,
    }
}

/// Whether a registry entry receives a dispatch for variant `v`: reserved
/// `_`-prefixed keys never do; others do when they support `v`.
pub open spec fn entry_dispatched(e: (String, ProjectConfig), v: Seq<char>) -> bool {
    !"_"@.is_prefix_of(e.0@) && project_supports(e.1, v)
}

/// The dispatch records emitted for one changed fork, in registry order.
pub open spec fn dispatch_list(
    reg: Seq<(String, ProjectConfig)>,
    v: Seq<char>,
    commit: Seq<char>,
) -> Seq<(Seq<char>, Seq<char>, Seq<char>)>
    decreases reg.len(),
{
    if reg.len() == 0 {
        Seq::empty()
    } else {
        dispatch_list(reg.drop_last(), v, commit) + if entry_dispatched(reg.last(), v) {
            seq![(reg.last().0@, v, commit)]
        } else {
            Seq::empty()
        }
    }
}

/// The first seven characters of a commit hash, or all of a shorter one.
pub open spec fn short_hash_spec(h: Seq<char>) -> Seq<char> {
    h.subrange(
        0,
        if h.len() < 7 {
            h.len() as int
        } else {
            7
        },
    )
}

pub fn commit_short(h: &str) -> (r: String)
    ensures
        r@ == short_hash_spec(h@),
{
    let hl = h.unicode_len();
    let end = if hl < 7 {
        hl
    } else {
        7
    };
    let sub = h.substring_char(0, end);
    String::from_str(sub)
}

/// The baseline after one fork observation: unchanged when the stored hash
/// (empty when absent) already equals the latest one, else updated.
pub open spec fn baseline_after(b: BaselineView, v: Seq<char>, h: Seq<char>) -> BaselineView {
    if stored_hash(b, v) == h {
        b
    } else {
        kv_set(b, v, h)
    }
}

/// The dispatch records of one fork observation: none when nothing
/// changed, else one per supporting project.
pub open spec fn observe_dispatch(
    b: BaselineView,
    v: Seq<char>,
    h: Seq<char>,
    reg: Seq<(String, ProjectConfig)>,
) -> Seq<(Seq<char>, Seq<char>, Seq<char>)> {
    if stored_hash(b, v) == h {
        Seq::empty()
    } else {
        dispatch_list(reg, v, short_hash_spec(h))
    }
}

/// Whether a project declares support for variant `v`, counting the
/// deprecated alias as its canonical fork.
pub fn supports_variant(p: &ProjectConfig, v: &str) -> (r: bool)
    ensures
        r == project_supports(*p, v@),
{
    match &p.supported_ksu {
        None => false,
        Some(l) => {
            let mut i: usize = 0;
            while i < l.len()
                invariant
                    p.supported_ksu is Some && p.supported_ksu->0 == *l,
                    0 <= i <= l@.len(),
                    forall|j: int| 0 <= j < i ==> normalize_variant_spec((#[trigger] l@[j])@)
                        != v@,
                decreases l@.len() - i,
            {
                let n = normalize_variant(l[i].as_str());
                if str_eq(n.as_str(), v) {
                    proof {
                        let lv = p.supported_ksu->0;
                        assert(lv == *l);
                        assert(normalize_variant_spec((lv@[i as int])@) == v@);
                        assert(project_supports(*p, v@));
                    }
                    return true;
                }
                i = i + 1;
            }
            false
        },
    }
}

/// One watcher step for one fork: compare the latest remote hash of
/// variant `v` to the stored baseline; on a change, store the full new
/// hash and emit one dispatch record, carrying the seven-character commit
/// id, for every non-reserved project that supports the fork. With no
/// change the baseline is untouched and nothing is dispatched.
pub fn observe_fork(
    baseline: &mut Baseline,
    variant: &str,
    latest: &str,
    registry: &Registry,
) -> (updates: Vec<DispatchRecord>)
    ensures
        final(baseline)@ == baseline_after(old(baseline)@, variant@, latest@),
        distinct_keys(old(baseline)@) ==> distinct_keys(final(baseline)@),
        dispatch_views(updates@) == observe_dispatch(old(baseline)@, variant@, latest@, registry@),
{
    let unchanged = match baseline.get(variant) {
        Some(h) => str_eq(h.as_str(), latest),
        None => latest.is_empty(),
    };
    proof {
        if kv_get(old(baseline)@, variant@) is None {
            assert(stored_hash(old(baseline)@, variant@) == Seq::<char>::empty());
            if latest@.len() == 0 {
                assert(latest@ =~= Seq::<char>::empty());
            } else {
                assert(latest@.len() != Seq::<char>::empty().len());
            }
        }
        assert(unchanged == (stored_hash(old(baseline)@, variant@) == latest@));
    }
    if unchanged {
        let r: Vec<DispatchRecord> = Vec::new();
        proof {
            assert(dispatch_views(r@) =~= Seq::<(Seq<char>, Seq<char>, Seq<char>)>::empty());
        }
        return r;
    }
    baseline.set(variant, latest);
    let short = commit_short(latest);
    let mut updates: Vec<DispatchRecord> = Vec::new();
    proof {
        assert(dispatch_views(updates@) =~= dispatch_list(
            registry@.subrange(0, 0),
            variant@,
            short@,
        ));
    }
    let mut i: usize = 0;
    while i < registry.len()
        invariant
            short@ == short_hash_spec(latest@),
            0 <= i <= registry@.len(),
            dispatch_views(updates@) == dispatch_list(
                registry@.subrange(0, i as int),
                variant@,
                short@,
            ),
        decreases registry@.len() - i,
    {
        let ghost prev = dispatch_views(updates@);
        let key = &registry[i].0;
        let reserved = starts_with_str(key.as_str(), "_");
        if !reserved && supports_variant(&registry[i].1, variant) {
            updates.push(
                DispatchRecord {
                    project: key.clone(),
                    variant: String::from_str(variant),
                    commit_id: short.clone(),
                },
            );
            proof {
                assert(dispatch_views(updates@) =~= prev.push((key@, variant@, short@)));
            }
        }
        proof {
            let sub1 = registry@.subrange(0, i + 1);
            assert(sub1.drop_last() =~= registry@.subrange(0, i as int));
            assert(sub1.last() == registry@[i as int]);
            if entry_dispatched(registry@[i as int], variant@) {
                assert(dispatch_views(updates@) =~= dispatch_list(
                    registry@.subrange(0, i as int),
                    variant@,
                    short@,
                ) + seq![(key@, variant@, short@)]);
            } else {
                assert(dispatch_views(updates@) =~= dispatch_list(
                    registry@.subrange(0, i as int),
                    variant@,
                    short@,
                ) + Seq::<(Seq<char>, Seq<char>, Seq<char>)>::empty());
            }
        }
        i = i + 1;
    }
    proof {
        assert(registry@.subrange(0, registry@.len() as int) =~= registry@);
    }
    updates
}

/// Observing a fork twice with no further upstream change is idempotent:
/// after one observation the stored hash equals the latest one, so a
/// second observation with the same hash leaves the baseline unchanged and
/// dispatches nothing.
pub proof fn lemma_watch_idempotent(
    b: BaselineView,
    v: Seq<char>,
    h: Seq<char>,
    reg: Seq<(String, ProjectConfig)>,
)
    ensures
        stored_hash(baseline_after(b, v, h), v) == h,
        baseline_after(baseline_after(b, v, h), v, h) == baseline_after(b, v, h),
        observe_dispatch(baseline_after(b, v, h), v, h, reg) == Seq::<
            (Seq<char>, Seq<char>, Seq<char>),
        >::empty(),
{
    if stored_hash(b, v) != h {
        let i = key_index(b, v);
        lemma_key_index(b, v);
        if i >= 0 {
            let s2 = b.update(i, (v, h));
            assert(s2[i].0 == v);
            assert forall|j: int| 0 <= j < i implies s2[j].0 != v by {
                assert(s2[j] == b[j]);
            }
            lemma_key_index_first(s2, v, i);
        } else {
            let s2 = b.push((v, h));
            assert(s2[b.len() as int] == (v, h));
            assert forall|j: int| 0 <= j < b.len() implies s2[j].0 != v by {
                assert(s2[j] == b[j]);
            }
            lemma_key_index_first(s2, v, b.len() as int);
        }
    }
}

/// A lookup sees only the keys, so it is the same in two pair lists whose
/// keys agree pointwise.
proof fn lemma_key_index_same_keys(s1: BaselineView, s2: BaselineView, q: Seq<char>)
    requires
        s1.len() == s2.len(),
        forall|i: int| 0 <= i < s1.len() ==> (#[trigger] s1[i]).0 == s2[i].0,
    ensures
        key_index(s1, q) == key_index(s2, q),
    decreases s1.len(),
{
    if s1.len() > 0 {
        assert(s1[0].0 == s2[0].0);
        if s1[0].0 != q {
            assert forall|i: int| 0 <= i < s1.drop_first().len() implies (#[trigger] s1.drop_first()[i]).0
                == s2.drop_first()[i].0 by {
                assert(s1.drop_first()[i] == s1[i + 1]);
                assert(s2.drop_first()[i] == s2[i + 1]);
            }
            lemma_key_index_same_keys(s1.drop_first(), s2.drop_first(), q);
        }
    }
}

/// What a store does to a lookup: the stored key reads back the new hash,
/// every other key is untouched.
proof fn lemma_kv_get_set(s: BaselineView, k: Seq<char>, v: Seq<char>, q: Seq<char>)
    ensures
        kv_get(kv_set(s, k, v), q) == if q == k {
            Some(v)
        } else {
            kv_get(s, q)
        },
{
    lemma_key_index(s, k);
    lemma_key_index(s, q);
    let i = key_index(s, k);
    if i >= 0 {
        let s2 = s.update(i, (k, v));
        assert forall|j: int| 0 <= j < s.len() implies (#[trigger] s[j]).0 == s2[j].0 by {
            if j != i {
                assert(s2[j] == s[j]);
            }
        }
        lemma_key_index_same_keys(s, s2, q);
        let kq = key_index(s, q);
        if q == k {
            assert(s2[i].1 == v);
        } else if kq >= 0 {
            assert(s[kq].0 == q && s[i].0 == k);
            assert(s2[kq] == s[kq]);
        }
    } else {
        lemma_kv_get_push(s, (k, v), q);
    }
}

/// Observing one fork never disturbs what is stored under another.
proof fn lemma_baseline_after_other(b: BaselineView, v2: Seq<char>, h2: Seq<char>, v: Seq<char>)
    requires
        v2 != v,
    ensures
        stored_hash(baseline_after(b, v2, h2), v) == stored_hash(b, v),
{
    if stored_hash(b, v2) != h2 {
        lemma_kv_get_set(b, v2, h2, v);
    }
}

/// The baseline after one full watcher scan, which observes each fork's
/// latest remote hash in order.
pub open spec fn scan_baseline(b: BaselineView, obs: Seq<(Seq<char>, Seq<char>)>) -> BaselineView
    decreases obs.len(),
{
    if obs.len() == 0 {
        b
    } else {
        scan_baseline(baseline_after(b, obs[0].0, obs[0].1), obs.drop_first())
    }
}

/// Everything one full watcher scan dispatches.
pub open spec fn scan_dispatch(
    b: BaselineView,
    obs: Seq<(Seq<char>, Seq<char>)>,
    reg: Seq<(String, ProjectConfig)>,
) -> Seq<(Seq<char>, Seq<char>, Seq<char>)>
    decreases obs.len(),
{
    if obs.len() == 0 {
        Seq::empty()
    } else {
        observe_dispatch(b, obs[0].0, obs[0].1, reg) + scan_dispatch(
            baseline_after(b, obs[0].0, obs[0].1),
            obs.drop_first(),
            reg,
        )
    }
}

/// A scan that never observes fork `v` leaves `v`'s stored hash alone.
proof fn lemma_scan_preserves_other(
    b: BaselineView,
    obs: Seq<(Seq<char>, Seq<char>)>,
    v: Seq<char>,
)
    requires
        forall|i: int| 0 <= i < obs.len() ==> (#[trigger] obs[i]).0 != v,
    ensures
        stored_hash(scan_baseline(b, obs), v) == stored_hash(b, v),
    decreases obs.len(),
{
    if obs.len() > 0 {
        lemma_baseline_after_other(b, obs[0].0, obs[0].1, v);
        assert forall|i: int| 0 <= i < obs.drop_first().len() implies (#[trigger] obs.drop_first()[i]).0
            != v by {
            assert(obs.drop_first()[i] == obs[i + 1]);
        }
        lemma_scan_preserves_other(baseline_after(b, obs[0].0, obs[0].1), obs.drop_first(), v);
    }
}

/// Running the watcher twice with no upstream change in between is
/// idempotent: after one full scan every observed fork's stored hash
/// equals its latest one, so a second scan of the same observations leaves
/// the baseline unchanged and dispatches nothing. The scanned forks are
/// distinct, as the fork table's are.
pub proof fn lemma_watch_run_idempotent(
    b: BaselineView,
    obs: Seq<(Seq<char>, Seq<char>)>,
    reg: Seq<(String, ProjectConfig)>,
)
    requires
        forall|i: int, j: int|
            0 <= i < j < obs.len() ==> (#[trigger] obs[i]).0 != (#[trigger] obs[j]).0,
    ensures
        scan_baseline(scan_baseline(b, obs), obs) == scan_baseline(b, obs),
        scan_dispatch(scan_baseline(b, obs), obs, reg) == Seq::<
            (Seq<char>, Seq<char>, Seq<char>),
        >::empty(),
    decreases obs.len(),
{
    if obs.len() > 0 {
        let v = obs[0].0;
        let h = obs[0].1;
        let b_after = baseline_after(b, v, h);
        let rest = obs.drop_first();
        let b1 = scan_baseline(b_after, rest);

        lemma_watch_idempotent(b, v, h, reg);
        assert forall|i: int| 0 <= i < rest.len() implies (#[trigger] rest[i]).0 != v by {
            assert(rest[i] == obs[i + 1]);
            assert(obs[0].0 != obs[i + 1].0);
        }
        lemma_scan_preserves_other(b_after, rest, v);
        assert(stored_hash(b1, v) == h);

        assert forall|i: int, j: int| 0 <= i < j < rest.len() implies (#[trigger] rest[i]).0
            != (#[trigger] rest[j]).0 by {
            assert(rest[i] == obs[i + 1]);
            assert(rest[j] == obs[j + 1]);
        }
        lemma_watch_run_idempotent(b_after, rest, reg);

        assert(scan_baseline(b1, obs) == scan_baseline(baseline_after(b1, v, h), rest));
        assert(baseline_after(b1, v, h) == b1);
        assert(scan_dispatch(b1, obs, reg) =~= Seq::<(Seq<char>, Seq<char>, Seq<char>)>::empty());
    }
}

} // verus!
