use vstd::hash_map::StringHashMap;
use vstd::prelude::*;

verus! {

broadcast use vstd::hash_map::group_hash_map_axioms;

/// The texts of a list of ids.
pub open spec fn ids_view(v: Vec<String>) -> Seq<Seq<char>> {
    v@.map_values(|x: String| x@)
}

/// The stream ids of the sessions streaming `run_id`.
pub open spec fn sessions_of(sessions: Map<Seq<char>, Seq<char>>, run_id: Seq<char>) -> Set<Seq<char>> {
    sessions.dom().filter(|s: Seq<char>| sessions[s] == run_id)
}

/// A copy of `v`.
fn copy_ids(v: &Vec<String>) -> (r: Vec<String>)
    ensures
        ids_view(r) == ids_view(*v),
{
    let mut r: Vec<String> = Vec::new();
    let mut i: usize = 0;
    while i < v.len()
        invariant
            i <= v@.len(),
            ids_view(r) == ids_view(*v).subrange(0, i as int),
        decreases v@.len() - i,
    {
        let ghost before = ids_view(r);
        let c = v[i].clone();
        r.push(c);
        assert(ids_view(r) == before.push(v@[i as int]@));
        assert(ids_view(*v).subrange(0, i + 1) == ids_view(*v).subrange(0, i as int).push(
            ids_view(*v)[i as int],
        ));
        i = i + 1;
    }
    assert(ids_view(*v).subrange(0, v@.len() as int) == ids_view(*v));
    r
}

/// A copy of `v` with `id` appended.
fn with_id(v: &Vec<String>, id: &String) -> (r: Vec<String>)
    ensures
        ids_view(r) == ids_view(*v).push(id@),
{
    let mut r = copy_ids(v);
    r.push(id.clone());
    assert(ids_view(r) == ids_view(*v).push(id@));
    r
}

/// A copy of `v` without the entries equal to `id`, in the same order.
fn without_id(v: &Vec<String>, id: &str) -> (r: Vec<String>)
    ensures
        forall|x: Seq<char>| ids_view(r).contains(x) <==> (ids_view(*v).contains(x) && x != id@),
        ids_view(*v).no_duplicates() ==> ids_view(r).no_duplicates(),
{
    let ghost iv = ids_view(*v);
    let ghost mut src: Seq<int> = Seq::empty();
    let mut r: Vec<String> = Vec::new();
    let mut i: usize = 0;
    while i < v.len()
        invariant
            i <= v@.len(),
            iv == ids_view(*v),
            src.len() == ids_view(r).len(),
            forall|k: int|
                0 <= k < src.len() ==> 0 <= #[trigger] src[k] < i && iv[src[k]] == ids_view(r)[k],
            forall|a: int, b: int| 0 <= a < b < src.len() ==> #[trigger] src[a] < #[trigger] src[b],
            forall|k: int| 0 <= k < ids_view(r).len() ==> #[trigger] ids_view(r)[k] != id@,
            forall|j: int| 0 <= j < i && iv[j] != id@ ==> ids_view(r).contains(#[trigger] iv[j]),
        decreases v@.len() - i,
    {
        let ghost before = ids_view(r);
        if !same_id(v[i].as_str(), id) {
            r.push(v[i].clone());
            proof {
                assert(ids_view(r) == before.push(iv[i as int]));
                src = src.push(i as int);
                assert forall|j: int| 0 <= j < i + 1 && iv[j] != id@ implies ids_view(
                    r,
                ).contains(#[trigger] iv[j]) by {
                    if j < i {
                        let k = choose|k: int| 0 <= k < before.len() && before[k] == iv[j];
                        assert(ids_view(r)[k] == iv[j]);
                    } else {
                        assert(ids_view(r)[before.len() as int] == iv[j]);
                    }
                }
            }
        } else {
            proof {
                assert forall|j: int| 0 <= j < i + 1 && iv[j] != id@ implies ids_view(
                    r,
                ).contains(#[trigger] iv[j]) by {
                    assert(j < i);
                }
            }
        }
        i = i + 1;
    }
    proof {
        assert forall|x: Seq<char>| ids_view(r).contains(x) <==> (iv.contains(x) && x != id@) by {
            if ids_view(r).contains(x) {
                let k = choose|k: int| 0 <= k < ids_view(r).len() && ids_view(r)[k] == x;
                assert(iv[src[k]] == x);
            }
            if iv.contains(x) && x != id@ {
                let j = choose|j: int| 0 <= j < iv.len() && iv[j] == x;
                assert(ids_view(r).contains(iv[j]));
            }
        }
        if iv.no_duplicates() {
            assert forall|a: int, b: int|
                0 <= a < ids_view(r).len() && 0 <= b < ids_view(r).len() && a != b implies ids_view(
                r,
            )[a] != ids_view(r)[b] by {
                if a < b {
                    assert(src[a] < src[b]);
                } else {
                    assert(src[b] < src[a]);
                }
                assert(iv[src[a]] == ids_view(r)[a]);
                assert(iv[src[b]] == ids_view(r)[b]);
            }
        }
    }
    r
}

fn same_id(a: &str, b: &str) -> (r: bool)
    ensures
        r == (a@ == b@),
{
    crate::text::same_text(a, b)
}

/// A character of the Crockford Base32 alphabet that ULIDs are written in:
/// the digits and the upper-case letters but `I`, `L`, `O` and `U`.
pub open spec fn is_crockford_char(c: char) -> bool {
    ('0' <= c && c <= '9') || ('A' <= c && c <= 'Z' && c != 'I' && c != 'L' && c != 'O' && c != 'U')
}

/// Calls `ulid::Ulid::new()` and renders it with its `Display`. The ULID
/// depends on the clock and on a random source; the contract claims only its
/// text form, which the crate writes as 26 characters of the Crockford
/// alphabet (`base32::encode_to_array` with `ULID_LEN`).
#[verifier::external_body]
fn ulid_text() -> (id: String)
    ensures
        id@.len() == 26,
        forall|i: int| 0 <= i < id@.len() ==> is_crockford_char(#[trigger] id@[i]),
{
    ulid::Ulid::new().to_string()
}

/// A fresh session id: a new ULID in its 26-character text form.
pub fn new_stream_id() -> (id: String)
    ensures
        id@.len() == 26,
        forall|i: int| 0 <= i < id@.len() ==> is_crockford_char(#[trigger] id@[i]),
{
    ulid_text()
}

/// The primary index (`stream_id → (run_id, handle)`) and the secondary one
/// (`run_id → stream ids`) agree: every session is listed under its run, and
/// every list is non-empty, holds each id once and only sessions of its run.
pub open spec fn indices_agree<H>(
    by_stream: Map<Seq<char>, (String, H)>,
    by_run: Map<Seq<char>, Vec<String>>,
) -> bool {
    &&& forall|s: Seq<char>| #[trigger]
        by_stream.contains_key(s) ==> {
            let r = by_stream[s].0@;
            by_run.contains_key(r) && ids_view(by_run[r]).contains(s)
        }
    &&& forall|r: Seq<char>| #[trigger]
        by_run.contains_key(r) ==> {
            let ids = ids_view(by_run[r]);
            &&& ids.len() > 0
            &&& ids.no_duplicates()
            &&& forall|i: int| 0 <= i < ids.len() ==> by_stream.contains_key(#[trigger] ids[i]) && by_stream[ids[i]].0@ == r
        }
}

/// `after` is the secondary index `before` with `sid` taken out of every
/// list: no list holds it any more, every list keeps its other ids and holds
/// no new one, and a list that became empty is gone.
pub open spec fn detached(
    before: Map<Seq<char>, Vec<String>>,
    after: Map<Seq<char>, Vec<String>>,
    sid: Seq<char>,
) -> bool {
    &&& forall|r: Seq<char>| #[trigger]
        after.contains_key(r) ==> {
            &&& before.contains_key(r)
            &&& ids_view(after[r]).len() > 0
            &&& ids_view(after[r]).no_duplicates()
            &&& !ids_view(after[r]).contains(sid)
            &&& forall|x: Seq<char>| #[trigger] ids_view(after[r]).contains(x) ==> ids_view(before[r]).contains(x)
        }
    &&& forall|r: Seq<char>, x: Seq<char>|
        before.contains_key(r) && #[trigger] ids_view(before[r]).contains(x) && x != sid ==> after.contains_key(r)
            && ids_view(after[r]).contains(x)
}

/// An id listed under a run is a session of that run.
proof fn lemma_listed<H>(
    by_stream: Map<Seq<char>, (String, H)>,
    by_run: Map<Seq<char>, Vec<String>>,
    r: Seq<char>,
    x: Seq<char>,
)
    requires
        indices_agree(by_stream, by_run),
        by_run.contains_key(r),
        ids_view(by_run[r]).contains(x),
    ensures
        by_stream.contains_key(x),
        by_stream[x].0@ == r,
{
    let ids = ids_view(by_run[r]);
    let i = choose|i: int| 0 <= i < ids.len() && ids[i] == x;
    assert(by_stream.contains_key(ids[i]));
}

/// Central registry of the active SSE sessions.
///
/// Two indices are kept:
/// - **by stream id** (primary): `stream_id → (run_id, handle)`, for
///   per-session operations (pause, resume, terminate);
/// - **by run id** (secondary): `run_id → stream ids`, to tell how many
///   sessions stream a given run.
///
/// The indices always agree (see `wf`): a stream id is listed under a run id
/// exactly when the primary index maps it to that run, and a run id is kept
/// only while it has a session. The handle type `H` is what the caller keeps
/// per session (a weak reference to the running session).
#[verifier::reject_recursive_types(H)]
pub struct StreamManager<H> {
    by_stream_id: StringHashMap<(String, H)>,
    by_run_id: StringHashMap<Vec<String>>,
}

impl<H> StreamManager<H> {
    /// The sessions, as `stream_id → run_id`.
    pub closed spec fn sessions(&self) -> Map<Seq<char>, Seq<char>> {
        Map::new(
            |s: Seq<char>| self.by_stream_id@.contains_key(s),
            |s: Seq<char>| self.by_stream_id@[s].0@,
        )
    }

    /// The handle of each session, by stream id.
    pub closed spec fn handles(&self) -> Map<Seq<char>, H> {
        Map::new(
            |s: Seq<char>| self.by_stream_id@.contains_key(s),
            |s: Seq<char>| self.by_stream_id@[s].1,
        )
    }

    /// The two indices agree.
    pub closed spec fn wf(&self) -> bool {
        &&& self.by_stream_id@.dom().finite()
        &&& indices_agree(self.by_stream_id@, self.by_run_id@)
    }

    proof fn lemma_run_index(&self, run_id: Seq<char>)
        requires
            self.wf(),
        ensures
            self.by_run_id@.contains_key(run_id) ==> ids_view(self.by_run_id@[run_id]).to_set()
                == sessions_of(self.sessions(), run_id),
            !self.by_run_id@.contains_key(run_id) ==> sessions_of(self.sessions(), run_id)
                == Set::<Seq<char>>::empty(),
    {
        let m = self.sessions();
        if self.by_run_id@.contains_key(run_id) {
            let ids = ids_view(self.by_run_id@[run_id]);
            assert forall|s: Seq<char>| ids.to_set().contains(s) <==> sessions_of(m, run_id).contains(
                s,
            ) by {
                if ids.to_set().contains(s) {
                    let i = choose|i: int| 0 <= i < ids.len() && ids[i] == s;
                    assert(self.by_stream_id@.contains_key(ids[i]));
                }
                if sessions_of(m, run_id).contains(s) {
                    assert(self.by_stream_id@.contains_key(s));
                }
            }
            assert(ids.to_set() =~= sessions_of(m, run_id));
        } else {
            assert forall|s: Seq<char>| !sessions_of(m, run_id).contains(s) by {
                if sessions_of(m, run_id).contains(s) {
                    assert(self.by_stream_id@.contains_key(s));
                }
            }
            assert(sessions_of(m, run_id) =~= Set::<Seq<char>>::empty());
        }
    }

    /// The registry holds finitely many sessions.
    pub proof fn lemma_sessions_finite(&self)
        requires
            self.wf(),
        ensures
            self.sessions().dom().finite(),
    {
        assert(self.sessions().dom() =~= self.by_stream_id@.dom());
    }

    /// An empty registry.
    pub fn new() -> (r: Self)
        ensures
            r.wf(),
            r.sessions() == Map::<Seq<char>, Seq<char>>::empty(),
            r.handles() == Map::<Seq<char>, H>::empty(),
    {
        let r = StreamManager { by_stream_id: StringHashMap::new(), by_run_id: StringHashMap::new() };
        assert(r.sessions() =~= Map::<Seq<char>, Seq<char>>::empty());
        assert(r.handles() =~= Map::<Seq<char>, H>::empty());
        r
    }

    /// Removes `stream_id` from the list of `run_id` in the secondary index,
    /// dropping the run id when its list becomes empty.
    fn detach(&mut self, run_id: &str, stream_id: &str)
        requires
            old(self).by_run_id@.contains_key(run_id@),
            ids_view(old(self).by_run_id@[run_id@]).no_duplicates(),
            ids_view(old(self).by_run_id@[run_id@]).len() > 0,
        ensures
            final(self).by_stream_id@ == old(self).by_stream_id@,
            forall|r: Seq<char>|
                r != run_id@ ==> (#[trigger] final(self).by_run_id@.contains_key(r)
                    == old(self).by_run_id@.contains_key(r)) && (old(self).by_run_id@.contains_key(r)
                    ==> final(self).by_run_id@[r] == old(self).by_run_id@[r]),
            final(self).by_run_id@.contains_key(run_id@) ==> {
                let ids = ids_view(final(self).by_run_id@[run_id@]);
                &&& ids.len() > 0
                &&& ids.no_duplicates()
                &&& forall|x: Seq<char>|
                    ids.contains(x) <==> (ids_view(old(self).by_run_id@[run_id@]).contains(x) && x
                        != stream_id@)
            },
            !final(self).by_run_id@.contains_key(run_id@) ==> forall|x: Seq<char>|
                ids_view(old(self).by_run_id@[run_id@]).contains(x) ==> x == stream_id@,
    {
        let remaining = match self.by_run_id.get(run_id) {
            Some(ids) => without_id(ids, stream_id),
            None => Vec::new(),
        };
        if remaining.len() == 0 {
            proof {
                assert forall|x: Seq<char>|
                    ids_view(old(self).by_run_id@[run_id@]).contains(x) implies x == stream_id@ by {
                    if x != stream_id@ {
                        assert(ids_view(remaining).contains(x));
                    }
                }
            }
            self.by_run_id.remove(run_id);
        } else {
            self.by_run_id.insert(String::from_str(run_id), remaining);
        }
    }

    /// Takes `stream_id` out of the list of the run it is registered for, if
    /// it is registered; the primary index is left as it is.
    fn detach_stream(&mut self, stream_id: &str)
        requires
            old(self).wf(),
        ensures
            final(self).by_stream_id@ == old(self).by_stream_id@,
            detached(old(self).by_run_id@, final(self).by_run_id@, stream_id@),
    {
        let ghost old_stream = self.by_stream_id@;
        let ghost old_run = self.by_run_id@;
        let previous_run: Option<String> = match self.by_stream_id.get(stream_id) {
            Some(entry) => Some(entry.0.clone()),
            None => None,
        };
        match previous_run {
            Some(prev) => {
                self.detach(prev.as_str(), stream_id);
                proof {
                    let mid = self.by_run_id@;
                    assert forall|r: Seq<char>| #[trigger] mid.contains_key(r) implies {
                        &&& old_run.contains_key(r)
                        &&& ids_view(mid[r]).len() > 0
                        &&& ids_view(mid[r]).no_duplicates()
                        &&& !ids_view(mid[r]).contains(stream_id@)
                        &&& forall|x: Seq<char>| #[trigger] ids_view(mid[r]).contains(x) ==> ids_view(old_run[r]).contains(x)
                    } by {
                        if r != prev@ && ids_view(mid[r]).contains(stream_id@) {
                            lemma_listed(old_stream, old_run, r, stream_id@);
                        }
                    }
                    assert forall|r: Seq<char>, x: Seq<char>|
                        old_run.contains_key(r) && #[trigger] ids_view(old_run[r]).contains(x) && x
                            != stream_id@ implies mid.contains_key(r) && ids_view(mid[r]).contains(x) by {
                        if r == prev@ && !mid.contains_key(r) {
                            assert(x == stream_id@);
                        }
                    }
                }
            },
            None => {
                proof {
                    assert forall|r: Seq<char>| #[trigger] old_run.contains_key(r) implies !ids_view(
                        old_run[r],
                    ).contains(stream_id@) by {
                        if ids_view(old_run[r]).contains(stream_id@) {
                            lemma_listed(old_stream, old_run, r, stream_id@);
                        }
                    }
                }
            },
        }
    }

    /// Registers a session: `stream_id` streams `run_id`, and `handle` is kept
    /// for it. A stream id that was registered before is re-registered.
    pub fn register(&mut self, stream_id: String, run_id: String, handle: H)
        requires
            old(self).wf(),
        ensures
            final(self).wf(),
            final(self).sessions() == old(self).sessions().insert(stream_id@, run_id@),
            final(self).handles() == old(self).handles().insert(stream_id@, handle),
    {
        let ghost old_stream = self.by_stream_id@;
        let ghost old_run = self.by_run_id@;
        let ghost sid = stream_id@;
        self.detach_stream(stream_id.as_str());
        let ghost mid = self.by_run_id@;
        let listed: Vec<String> = match self.by_run_id.get(run_id.as_str()) {
            Some(ids) => with_id(ids, &stream_id),
            None => {
                let mut v: Vec<String> = Vec::new();
                v.push(stream_id.clone());
                v
            },
        };
        let ghost prev_ids = if mid.contains_key(run_id@) {
            ids_view(mid[run_id@])
        } else {
            Seq::<Seq<char>>::empty()
        };
        proof {
            let ids = ids_view(listed);
            assert(ids == prev_ids.push(sid));
            assert(!prev_ids.contains(sid));
            assert forall|a: int, b: int|
                0 <= a < ids.len() && 0 <= b < ids.len() && a != b implies ids[a] != ids[b] by {
                if a < ids.len() - 1 {
                    assert(prev_ids[a] == ids[a]);
                }
                if b < ids.len() - 1 {
                    assert(prev_ids[b] == ids[b]);
                }
            }
        }
        self.by_run_id.insert(run_id.clone(), listed);
        self.by_stream_id.insert(stream_id, (run_id, handle));
        proof {
            let ns = self.by_stream_id@;
            let nr = self.by_run_id@;
            // every session is listed under its run
            assert forall|s: Seq<char>| #[trigger] ns.contains_key(s) implies {
                let r = ns[s].0@;
                nr.contains_key(r) && ids_view(nr[r]).contains(s)
            } by {
                if s == sid {
                    assert(ids_view(nr[run_id@]).last() == sid);
                } else {
                    let r = old_stream[s].0@;
                    assert(ids_view(old_run[r]).contains(s));
                    assert(mid.contains_key(r) && ids_view(mid[r]).contains(s));
                    if r == run_id@ {
                        let i = choose|i: int| 0 <= i < prev_ids.len() && prev_ids[i] == s;
                        assert(ids_view(nr[r])[i] == s);
                    }
                }
            }
            // every list holds only sessions of its run
            assert forall|r: Seq<char>| #[trigger] nr.contains_key(r) implies {
                let ids = ids_view(nr[r]);
                &&& ids.len() > 0
                &&& ids.no_duplicates()
                &&& forall|i: int| 0 <= i < ids.len() ==> ns.contains_key(#[trigger] ids[i]) && ns[ids[i]].0@ == r
            } by {
                let ids = ids_view(nr[r]);
                assert forall|i: int| 0 <= i < ids.len() implies ns.contains_key(#[trigger] ids[i])
                    && ns[ids[i]].0@ == r by {
                    let x = ids[i];
                    if r != run_id@ || i < ids.len() - 1 {
                        assert(mid.contains_key(r) && ids_view(mid[r])[i] == x);
                        assert(ids_view(mid[r]).contains(x));
                        lemma_listed(old_stream, old_run, r, x);
                    }
                }
            }
            assert(self.sessions() =~= old(self).sessions().insert(stream_id@, run_id@));
            assert(self.handles() =~= old(self).handles().insert(stream_id@, handle));
        }
    }

    /// Removes the session `stream_id` from both indices; its run id goes
    /// when it was the run's last session. Unknown ids change nothing.
    pub fn unregister(&mut self, stream_id: &str)
        requires
            old(self).wf(),
        ensures
            final(self).wf(),
            final(self).sessions() == old(self).sessions().remove(stream_id@),
            final(self).handles() == old(self).handles().remove(stream_id@),
    {
        let ghost old_stream = self.by_stream_id@;
        let ghost old_run = self.by_run_id@;
        self.detach_stream(stream_id);
        self.by_stream_id.remove(stream_id);
        proof {
            let ns = self.by_stream_id@;
            let nr = self.by_run_id@;
            assert forall|s: Seq<char>| #[trigger] ns.contains_key(s) implies {
                let r = ns[s].0@;
                nr.contains_key(r) && ids_view(nr[r]).contains(s)
            } by {
                let r = old_stream[s].0@;
                assert(ids_view(old_run[r]).contains(s));
            }
            assert forall|r: Seq<char>| #[trigger] nr.contains_key(r) implies {
                let ids = ids_view(nr[r]);
                &&& ids.len() > 0
                &&& ids.no_duplicates()
                &&& forall|i: int| 0 <= i < ids.len() ==> ns.contains_key(#[trigger] ids[i]) && ns[ids[i]].0@ == r
            } by {
                let ids = ids_view(nr[r]);
                assert forall|i: int| 0 <= i < ids.len() implies ns.contains_key(#[trigger] ids[i])
                    && ns[ids[i]].0@ == r by {
                    assert(ids.contains(ids[i]));
                    lemma_listed(old_stream, old_run, r, ids[i]);
                }
            }
            assert(self.sessions() =~= old(self).sessions().remove(stream_id@));
            assert(self.handles() =~= old(self).handles().remove(stream_id@));
        }
    }

    /// Looks up the handle of a session by its `stream_id`.
    pub fn get(&self, stream_id: &str) -> (r: Option<&H>)
        ensures
            match r {
                Some(h) => self.handles().contains_key(stream_id@) && *h == self.handles()[stream_id@],
                None => !self.handles().contains_key(stream_id@),
            },
    {
        match self.by_stream_id.get(stream_id) {
            Some(entry) => Some(&entry.1),
            None => None,
        }
    }

    /// Number of sessions streaming a given `run_id`.
    pub fn session_count_for(&self, run_id: &str) -> (n: usize)
        requires
            self.wf(),
        ensures
            n == sessions_of(self.sessions(), run_id@).len(),
    {
        proof {
            self.lemma_run_index(run_id@);
        }
        match self.by_run_id.get(run_id) {
            Some(ids) => {
                proof {
                    ids_view(*ids).unique_seq_to_set();
                }
                ids.len()
            },
            None => 0,
        }
    }

    /// All stream ids of the sessions streaming a given `run_id`, each once.
    pub fn sessions_for(&self, run_id: &str) -> (v: Vec<String>)
        requires
            self.wf(),
        ensures
            ids_view(v).no_duplicates(),
            ids_view(v).to_set() == sessions_of(self.sessions(), run_id@),
    {
        proof {
            self.lemma_run_index(run_id@);
        }
        match self.by_run_id.get(run_id) {
            Some(ids) => {
                let out = copy_ids(ids);
                out
            },
            None => {
                let v: Vec<String> = Vec::new();
                assert(ids_view(v).to_set() =~= Set::<Seq<char>>::empty());
                v
            },
        }
    }

    /// Every session has its handle, and every handle belongs to a session.
    pub proof fn lemma_every_session_has_handle(&self)
        ensures
            self.handles().dom() == self.sessions().dom(),
    {
        assert(self.handles().dom() =~= self.sessions().dom());
    }

    /// Total number of sessions across all run ids.
    pub fn total_active(&self) -> (n: usize)
        ensures
            n == self.sessions().len(),
    {
        assert(self.sessions().dom() =~= self.by_stream_id@.dom());
        self.by_stream_id.len()
    }
}

// ── Laws ─────────────────────────────────────────────────────────────────────

/// The sum of the session counts of the runs in `runs`.
pub open spec fn count_sum(sessions: Map<Seq<char>, Seq<char>>, runs: Seq<Seq<char>>) -> nat
    decreases runs.len(),
{
    if runs.len() == 0 {
        0
    } else {
        count_sum(sessions, runs.drop_last()) + sessions_of(sessions, runs.last()).len()
    }
}

/// The sessions whose run is one of `runs`.
pub open spec fn sessions_among(sessions: Map<Seq<char>, Seq<char>>, runs: Seq<Seq<char>>) -> Set<Seq<char>> {
    sessions.dom().filter(|s: Seq<char>| runs.contains(sessions[s]))
}

proof fn lemma_count_sum(sessions: Map<Seq<char>, Seq<char>>, runs: Seq<Seq<char>>)
    requires
        sessions.dom().finite(),
        runs.no_duplicates(),
    ensures
        count_sum(sessions, runs) == sessions_among(sessions, runs).len(),
    decreases runs.len(),
{
    if runs.len() == 0 {
        assert(sessions_among(sessions, runs) =~= Set::<Seq<char>>::empty());
    } else {
        let rest = runs.drop_last();
        let r = runs.last();
        assert(rest.no_duplicates()) by {
            assert forall|a: int, b: int| 0 <= a < rest.len() && 0 <= b < rest.len() && a != b implies rest[a]
                != rest[b] by {
                assert(rest[a] == runs[a] && rest[b] == runs[b]);
            }
        }
        lemma_count_sum(sessions, rest);
        let a = sessions_among(sessions, rest);
        let b = sessions_of(sessions, r);
        assert forall|x: Seq<char>| runs.contains(x) <==> (rest.contains(x) || x == r) by {
            if runs.contains(x) {
                let i = choose|i: int| 0 <= i < runs.len() && runs[i] == x;
                if i < runs.len() - 1 {
                    assert(rest[i] == x);
                }
            }
            if rest.contains(x) {
                let i = choose|i: int| 0 <= i < rest.len() && rest[i] == x;
                assert(runs[i] == x);
            }
            if x == r {
                assert(runs[runs.len() - 1] == x);
            }
        }
        assert(!rest.contains(r)) by {
            if rest.contains(r) {
                let i = choose|i: int| 0 <= i < rest.len() && rest[i] == r;
                assert(runs[i] == runs[runs.len() - 1]);
            }
        }
        assert(sessions_among(sessions, runs) =~= a + b);
        assert(a.disjoint(b));
        sessions.dom().lemma_len_filter(|s: Seq<char>| rest.contains(sessions[s]));
        sessions.dom().lemma_len_filter(|s: Seq<char>| sessions[s] == r);
        vstd::set_lib::lemma_set_disjoint_lens(a, b);
    }
}

/// The total number of sessions is the sum of the runs' session counts:
/// for a list of run ids that names each run once and covers the run of every
/// session, the counts add up to the total.
pub proof fn law_total_is_sum_of_run_counts(sessions: Map<Seq<char>, Seq<char>>, runs: Seq<Seq<char>>)
    requires
        sessions.dom().finite(),
        runs.no_duplicates(),
        forall|s: Seq<char>| sessions.contains_key(s) ==> runs.contains(#[trigger] sessions[s]),
    ensures
        count_sum(sessions, runs) == sessions.len(),
{
    lemma_count_sum(sessions, runs);
    assert(sessions_among(sessions, runs) =~= sessions.dom());
}

/// The stream ids listed for a run (each once, as `sessions_for` lists them)
/// are as many as the run's session count, and each is a session of that
/// run.
pub proof fn law_listed_sessions_match_count(
    sessions: Map<Seq<char>, Seq<char>>,
    run_id: Seq<char>,
    listed: Seq<Seq<char>>,
)
    requires
        listed.no_duplicates(),
        listed.to_set() == sessions_of(sessions, run_id),
    ensures
        listed.len() == sessions_of(sessions, run_id).len(),
        forall|i: int|
            0 <= i < listed.len() ==> sessions.contains_key(#[trigger] listed[i]) && sessions[listed[i]]
                == run_id,
{
    listed.unique_seq_to_set();
    assert forall|i: int| 0 <= i < listed.len() implies sessions.contains_key(#[trigger] listed[i])
        && sessions[listed[i]] == run_id by {
        assert(listed.to_set().contains(listed[i]));
    }
}

/// A new session of `run_id` adds one to that run's session count and leaves
/// every other run's sessions unchanged.
pub proof fn law_register_counts(
    sessions: Map<Seq<char>, Seq<char>>,
    stream_id: Seq<char>,
    run_id: Seq<char>,
    other_run: Seq<char>,
)
    requires
        sessions.dom().finite(),
        !sessions.contains_key(stream_id),
    ensures
        sessions_of(sessions.insert(stream_id, run_id), run_id).len() == sessions_of(
            sessions,
            run_id,
        ).len() + 1,
        other_run != run_id ==> sessions_of(sessions.insert(stream_id, run_id), other_run)
            == sessions_of(sessions, other_run),
{
    let after = sessions.insert(stream_id, run_id);
    assert(sessions_of(after, run_id) =~= sessions_of(sessions, run_id).insert(stream_id));
    assert(!sessions_of(sessions, run_id).contains(stream_id));
    assert(sessions_of(sessions, run_id).finite()) by {
        sessions.dom().lemma_len_filter(|s: Seq<char>| sessions[s] == run_id);
    }
    if other_run != run_id {
        assert(sessions_of(after, other_run) =~= sessions_of(sessions, other_run));
    }
}

/// Dropping a session removes one from its run's session count and leaves
/// every other run's sessions unchanged.
pub proof fn law_unregister_counts(
    sessions: Map<Seq<char>, Seq<char>>,
    stream_id: Seq<char>,
    other_run: Seq<char>,
)
    requires
        sessions.dom().finite(),
        sessions.contains_key(stream_id),
    ensures
        sessions_of(sessions.remove(stream_id), sessions[stream_id]).len() + 1 == sessions_of(
            sessions,
            sessions[stream_id],
        ).len(),
        other_run != sessions[stream_id] ==> sessions_of(sessions.remove(stream_id), other_run)
            == sessions_of(sessions, other_run),
{
    let run_id = sessions[stream_id];
    let after = sessions.remove(stream_id);
    assert(sessions_of(after, run_id) =~= sessions_of(sessions, run_id).remove(stream_id));
    assert(sessions_of(sessions, run_id).finite()) by {
        sessions.dom().lemma_len_filter(|s: Seq<char>| sessions[s] == run_id);
    }
    if other_run != run_id {
        assert(sessions_of(after, other_run) =~= sessions_of(sessions, other_run));
    }
}

} // verus!
