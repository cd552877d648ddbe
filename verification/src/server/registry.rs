//! The decisions of the server state about indexed projects and sessions:
//! which project was active last, which one to evict when the server is at
//! capacity, and what a session's project lookup is answered with.
use vstd::prelude::*;
use dashmap::DashMap;
use crate::index::file_entry::Timestamp;
use crate::server::errors::AppError;
use crate::text::str_eq;

verus! {

broadcast use vstd::string::group_string_axioms;

/// What the server state reads of a session: the project it works on.
#[derive(Debug)]
pub struct Session {
    pub project_path: String,
}

/// `a` is no later than `b`.
pub open spec fn no_later(a: Timestamp, b: Timestamp) -> bool {
    a.secs < b.secs || (a.secs == b.secs && a.nanos <= b.nanos)
}

/// The projects by root, each with the time it was last active.
pub uninterp spec fn activity_entries(m: DashMap<String, Timestamp>) -> Map<Seq<char>, Timestamp>;

/// The sessions by id.
pub uninterp spec fn session_entries(m: DashMap<String, Session>) -> Map<Seq<char>, Session>;

/// `DashMap::new`: an empty map.
#[verifier::external_body]
fn activity_new() -> (r: DashMap<String, Timestamp>)
    ensures
        activity_entries(r).dom() == Set::<Seq<char>>::empty(),
{
    DashMap::new()
}

/// `DashMap::insert`: the root now maps to the time, any earlier time replaced.
#[verifier::external_body]
fn activity_insert(m: &mut DashMap<String, Timestamp>, k: String, v: Timestamp)
    ensures
        activity_entries(*final(m)) == activity_entries(*old(m)).insert(k@, v),
{
    m.insert(k, v);
}

/// `DashMap::remove`: the root is gone.
#[verifier::external_body]
fn activity_remove(m: &mut DashMap<String, Timestamp>, k: &str)
    ensures
        activity_entries(*final(m)) == activity_entries(*old(m)).remove(k@),
{
    m.remove(k);
}

/// `DashMap::contains_key`.
#[verifier::external_body]
fn activity_contains(m: &DashMap<String, Timestamp>, k: &str) -> (r: bool)
    ensures
        r == activity_entries(*m).contains_key(k@),
{
    m.contains_key(k)
}

/// `DashMap::len`: the number of entries.
#[verifier::external_body]
fn activity_len(m: &DashMap<String, Timestamp>) -> (r: usize)
    ensures
        r == activity_entries(*m).len(),
{
    m.len()
}

/// `DashMap::iter`, with every entry copied out, in the order the shards are
/// walked; each root comes exactly once.
#[verifier::external_body]
fn activity_items(m: &DashMap<String, Timestamp>) -> (r: Vec<(String, Timestamp)>)
    ensures
        forall|i: int|
            0 <= i < r@.len() ==> #[trigger] activity_entries(*m).get(r@[i].0@) == Some(r@[i].1),
        forall|i: int, j: int| 0 <= i < j < r@.len() ==> r@[i].0@ != r@[j].0@,
        forall|k: Seq<char>|
            #[trigger] activity_entries(*m).contains_key(k) ==> exists|i: int|
                0 <= i < r@.len() && r@[i].0@ == k,
{
    m.iter().map(|e| (e.key().clone(), *e.value())).collect()
}

/// `DashMap::new`: an empty map.
#[verifier::external_body]
fn sessions_new() -> (r: DashMap<String, Session>)
    ensures
        session_entries(r).dom() == Set::<Seq<char>>::empty(),
{
    DashMap::new()
}

/// `DashMap::get`, with the project path of the session found copied out.
#[verifier::external_body]
fn session_project(m: &DashMap<String, Session>, k: &str) -> (r: Option<String>)
    ensures
        match r {
            Some(p) => session_entries(*m).contains_key(k@) && session_entries(*m)[k@].project_path@ == p@,
            None => !session_entries(*m).contains_key(k@),
        },
{
    m.get(k).map(|s| s.value().project_path.clone())
}

/// `DashMap::retain`, keeping the sessions whose project is not `path`.
#[verifier::external_body]
fn sessions_retain_elsewhere(m: &mut DashMap<String, Session>, path: &str)
    ensures
        session_entries(*final(m)) == session_entries(*old(m)).filter_keys(
            |k: Seq<char>| session_entries(*old(m))[k].project_path@ != path@,
        ),
{
    m.retain(|_, s| works_elsewhere(s, path))
}

/// Whether the session works on a project other than `path`.
pub fn works_elsewhere(s: &Session, path: &str) -> (r: bool)
    ensures
        r == (s.project_path@ != path@),
{
    !str_eq(s.project_path.as_str(), path)
}

/// Whether `a` is strictly earlier than `b`.
pub fn earlier(a: Timestamp, b: Timestamp) -> (r: bool)
    ensures
        r == !no_later(b, a),
{
    a.secs < b.secs || (a.secs == b.secs && a.nanos < b.nanos)
}

/// The message a lookup for an unknown session is answered with.
pub open spec fn session_not_found_message(id: Seq<char>) -> Seq<char> {
    "Session '"@ + id + "' not found"@
}

/// The message a lookup for a session whose project was evicted is answered with.
pub open spec fn project_gone_message(path: Seq<char>) -> Seq<char> {
    "Project at '"@ + path
        + "' was evicted due to capacity limits. Start a new session to re-index, or increase --max-projects."@
}

/// The indexed projects and the sessions working on them.
pub struct ProjectRegistry {
    /// Indexed projects by canonical root, with the time each was last active.
    pub projects: DashMap<String, Timestamp>,
    /// Sessions by id.
    pub sessions: DashMap<String, Session>,
    pub max_projects: usize,
}

/// What the first step of opening a project comes to.
pub enum Admission {
    /// The project is already indexed.
    Known,
    /// There is room for the project; the root of the project evicted to
    /// make it, if one was.
    Admitted(Option<String>),
}

impl ProjectRegistry {
    /// The projects, by root.
    pub open spec fn active(&self) -> Map<Seq<char>, Timestamp> {
        activity_entries(self.projects)
    }

    /// The sessions, by id.
    pub open spec fn sessions_view(&self) -> Map<Seq<char>, Session> {
        session_entries(self.sessions)
    }

    /// No more projects than the capacity, and finitely many.
    pub open spec fn wf(&self) -> bool {
        &&& self.active().dom().finite()
        &&& self.active().len() <= self.max_projects
    }

    /// No projects and no sessions yet.
    pub fn new(max_projects: usize) -> (r: ProjectRegistry)
        ensures
            r.wf(),
            r.max_projects == max_projects,
            r.active().dom() == Set::<Seq<char>>::empty(),
            r.sessions_view().dom() == Set::<Seq<char>>::empty(),
    {
        let r = ProjectRegistry { projects: activity_new(), sessions: sessions_new(), max_projects };
        assert(r.active().dom() =~= Set::<Seq<char>>::empty());
        r
    }

    /// Whether the project is indexed; if it is, it becomes active at `now`.
    pub fn find_project(&mut self, root: &str, now: Timestamp) -> (r: bool)
        requires
            old(self).wf(),
        ensures
            final(self).wf(),
            final(self).max_projects == old(self).max_projects,
            final(self).sessions_view() == old(self).sessions_view(),
            r == old(self).active().contains_key(root@),
            final(self).active() == if r {
                old(self).active().insert(root@, now)
            } else {
                old(self).active()
            },
    {
        if activity_contains(&self.projects, root) {
            activity_insert(&mut self.projects, String::from_str(root), now);
            assert(self.active().dom() =~= old(self).active().dom());
            true
        } else {
            false
        }
    }

    /// Makes the project active at `now`, when it is indexed.
    pub fn touch_project(&mut self, root: &str, now: Timestamp)
        requires
            old(self).wf(),
        ensures
            final(self).wf(),
            final(self).max_projects == old(self).max_projects,
            final(self).sessions_view() == old(self).sessions_view(),
            final(self).active() == if old(self).active().contains_key(root@) {
                old(self).active().insert(root@, now)
            } else {
                old(self).active()
            },
    {
        self.find_project(root, now);
    }

    /// Evicts the least recently active project, and every session working
    /// on it; an error when there is no project. Gives the evicted root.
    pub fn evict_lru(&mut self) -> (r: Result<String, AppError>)
        requires
            old(self).wf(),
        ensures
            final(self).wf(),
            final(self).max_projects == old(self).max_projects,
            match r {
                Ok(v) => {
                    &&& old(self).active().contains_key(v@)
                    &&& forall|k: Seq<char>|
                        #[trigger] old(self).active().contains_key(k) ==> no_later(
                            old(self).active()[v@],
                            old(self).active()[k],
                        )
                    &&& final(self).active() == old(self).active().remove(v@)
                    &&& final(self).sessions_view() == old(self).sessions_view().filter_keys(
                        |k: Seq<char>| old(self).sessions_view()[k].project_path@ != v@,
                    )
                },
                Err(e) => {
                    &&& old(self).active().dom() == Set::<Seq<char>>::empty()
                    &&& e matches AppError::Internal(m) && m@ == "No projects to evict"@
                    &&& final(self).active() == old(self).active()
                    &&& final(self).sessions_view() == old(self).sessions_view()
                },
            },
    {
        let items = activity_items(&self.projects);
        if items.len() == 0 {
            proof {
                assert forall|k: Seq<char>| !#[trigger] self.active().contains_key(k) by {
                    if self.active().contains_key(k) {
                        let i = choose|i: int| 0 <= i < items@.len() && items@[i].0@ == k;
                    }
                }
                assert(self.active().dom() =~= Set::<Seq<char>>::empty());
            }
            return Err(AppError::Internal(String::from_str("No projects to evict")));
        }
        let mut best: usize = 0;
        let mut i: usize = 1;
        while i < items.len()
            invariant
                1 <= i <= items@.len(),
                best < i,
                forall|j: int| 0 <= j < i ==> no_later(items@[best as int].1, #[trigger] items@[j].1),
            decreases items@.len() - i,
        {
            if earlier(items[i].1, items[best].1) {
                best = i;
            }
            i = i + 1;
        }
        let victim = items[best].0.clone();
        proof {
            assert(self.active().get(items@[best as int].0@) == Some(items@[best as int].1));
            assert forall|k: Seq<char>| #[trigger] self.active().contains_key(k) implies no_later(
                self.active()[victim@],
                self.active()[k],
            ) by {
                let j = choose|j: int| 0 <= j < items@.len() && items@[j].0@ == k;
                assert(self.active().get(items@[j].0@) == Some(items@[j].1));
            }
        }
        activity_remove(&mut self.projects, victim.as_str());
        sessions_retain_elsewhere(&mut self.sessions, victim.as_str());
        proof {
            assert(self.active().dom() =~= old(self).active().dom().remove(victim@));
        }
        Ok(victim)
    }

    /// Makes room for one more project: at capacity, the least recently
    /// active project is evicted (and given back); below it, nothing changes.
    pub fn make_room(&mut self) -> (r: Result<Option<String>, AppError>)
        requires
            old(self).wf(),
        ensures
            final(self).wf(),
            final(self).max_projects == old(self).max_projects,
            old(self).active().len() < old(self).max_projects ==> (r matches Ok(None)
                && final(self).active() == old(self).active()
                && final(self).sessions_view() == old(self).sessions_view()),
            r matches Ok(Some(v)) ==> {
                &&& old(self).active().contains_key(v@)
                &&& forall|k: Seq<char>|
                    #[trigger] old(self).active().contains_key(k) ==> no_later(
                        old(self).active()[v@],
                        old(self).active()[k],
                    )
                &&& final(self).active() == old(self).active().remove(v@)
                &&& final(self).sessions_view() == old(self).sessions_view().filter_keys(
                    |k: Seq<char>| old(self).sessions_view()[k].project_path@ != v@,
                )
            },
            old(self).max_projects > 0 && old(self).active().len() >= old(self).max_projects
                ==> r matches Ok(Some(_)),
            r is Err <==> (old(self).max_projects == 0),
            r is Ok ==> final(self).active().len() < final(self).max_projects,
    {
        if activity_len(&self.projects) >= self.max_projects {
            match self.evict_lru() {
                Ok(v) => {
                    proof {
                        assert(old(self).active().contains_key(v@));
                        assert(self.active().dom() =~= old(self).active().dom().remove(v@));
                    }
                    Ok(Some(v))
                },
                Err(e) => Err(e),
            }
        } else {
            Ok(None)
        }
    }

    /// The first step of opening the project at `root`, before any indexing:
    /// an indexed project becomes active at `now` and is known; otherwise
    /// room is made for it, the least recently active project (and its
    /// sessions) being evicted at capacity and given back.
    pub fn admit_project(&mut self, root: &str, now: Timestamp) -> (r: Result<Admission, AppError>)
        requires
            old(self).wf(),
        ensures
            final(self).wf(),
            final(self).max_projects == old(self).max_projects,
            old(self).active().contains_key(root@) ==> (r matches Ok(Admission::Known)
                && final(self).active() == old(self).active().insert(root@, now)
                && final(self).sessions_view() == old(self).sessions_view()),
            !old(self).active().contains_key(root@) ==> match r {
                Ok(Admission::Known) => false,
                Ok(Admission::Admitted(None)) => {
                    &&& old(self).active().len() < old(self).max_projects
                    &&& final(self).active() == old(self).active()
                    &&& final(self).sessions_view() == old(self).sessions_view()
                },
                Ok(Admission::Admitted(Some(v))) => {
                    &&& 0 < old(self).max_projects <= old(self).active().len()
                    &&& old(self).active().contains_key(v@)
                    &&& forall|k: Seq<char>|
                        #[trigger] old(self).active().contains_key(k) ==> no_later(
                            old(self).active()[v@],
                            old(self).active()[k],
                        )
                    &&& final(self).active() == old(self).active().remove(v@)
                    &&& final(self).sessions_view() == old(self).sessions_view().filter_keys(
                        |k: Seq<char>| old(self).sessions_view()[k].project_path@ != v@,
                    )
                },
                Err(_) => old(self).max_projects == 0,
            },
            r matches Ok(Admission::Admitted(_)) ==> final(self).active().len() < final(self).max_projects,
    {
        if self.find_project(root, now) {
            return Ok(Admission::Known);
        }
        match self.make_room() {
            Ok(evicted) => Ok(Admission::Admitted(evicted)),
            Err(e) => Err(e),
        }
    }

    /// Records a newly indexed project, active at `now`.
    pub fn register_project(&mut self, root: String, now: Timestamp)
        requires
            old(self).wf(),
            old(self).active().len() < old(self).max_projects,
        ensures
            final(self).wf(),
            final(self).max_projects == old(self).max_projects,
            final(self).sessions_view() == old(self).sessions_view(),
            final(self).active() == old(self).active().insert(root@, now),
    {
        let ghost k = root@;
        activity_insert(&mut self.projects, root, now);
        proof {
            if old(self).active().contains_key(k) {
                assert(self.active().dom() =~= old(self).active().dom());
            } else {
                assert(self.active().dom() =~= old(self).active().dom().insert(k));
            }
        }
    }

    /// The project root of a session: not found when there is no such
    /// session, gone when its project has been evicted.
    pub fn get_project_for_session(&self, session_id: &str) -> (r: Result<String, AppError>)
        ensures
            !self.sessions_view().contains_key(session_id@) ==> (r matches Err(AppError::NotFound(m))
                && m@ == session_not_found_message(session_id@)),
            self.sessions_view().contains_key(session_id@) ==> ({
                let p = self.sessions_view()[session_id@].project_path@;
                if self.active().contains_key(p) {
                    r matches Ok(root) && root@ == p
                } else {
                    r matches Err(AppError::Gone(m)) && m@ == project_gone_message(p)
                }
            }),
    {
        let path = match session_project(&self.sessions, session_id) {
            Some(p) => p,
            None => {
                let mut m = String::from_str("Session '");
                m.append(session_id);
                m.append("' not found");
                return Err(AppError::NotFound(m));
            },
        };
        if activity_contains(&self.projects, path.as_str()) {
            Ok(path)
        } else {
            let mut m = String::from_str("Project at '");
            m.append(path.as_str());
            m.append(
                "' was evicted due to capacity limits. Start a new session to re-index, or increase --max-projects.",
            );
            Err(AppError::Gone(m))
        }
    }
}

/// After an eviction, no remaining session works on the evicted project, and
/// the evicted project was no later active than any other.
pub proof fn law_eviction_drops_its_sessions(before: ProjectRegistry, after: ProjectRegistry, v: Seq<char>)
    requires
        before.wf(),
        before.active().contains_key(v),
        forall|k: Seq<char>|
            #[trigger] before.active().contains_key(k) ==> no_later(before.active()[v], before.active()[k]),
        after.active() == before.active().remove(v),
        after.sessions_view() == before.sessions_view().filter_keys(
            |k: Seq<char>| before.sessions_view()[k].project_path@ != v,
        ),
    ensures
        !after.active().contains_key(v),
        forall|k: Seq<char>| #[trigger] after.sessions_view().contains_key(k) ==> after.sessions_view()[k].project_path@ != v,
        forall|k: Seq<char>| #[trigger] after.active().contains_key(k) ==> no_later(before.active()[v], after.active()[k]),
{
}

/// Making room and then recording a new project never takes the server
/// past its capacity.
pub proof fn law_capacity_kept(before: ProjectRegistry, roomy: ProjectRegistry, after: ProjectRegistry, root: Seq<char>, now: Timestamp)
    requires
        before.wf(),
        roomy.wf(),
        roomy.max_projects == before.max_projects,
        roomy.active().len() < roomy.max_projects,
        after.max_projects == roomy.max_projects,
        after.active() == roomy.active().insert(root, now),
    ensures
        after.active().len() <= before.max_projects,
{
    if roomy.active().contains_key(root) {
        assert(after.active().dom() =~= roomy.active().dom());
    } else {
        assert(after.active().dom() =~= roomy.active().dom().insert(root));
    }
}

} // verus!
