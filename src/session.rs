use vstd::prelude::*;

verus! {

/// Routing id under which an edge keeps its own connection to the supernode.
pub const DEFAULT_CLIENT_ID: &'static str = "default_client_id";

/// A session is stale once more than this many milliseconds passed since its last ping.
pub const STALE_AFTER_MS: u64 = 60_000;

/// The admin listing shows sessions pinged at most this many milliseconds ago.
pub const LIVE_WITHIN_MS: u64 = 30_000;

/// One authenticated edge: the number of its transport connection, the
/// metadata of its `Auth` frame, and the monotonic time (in milliseconds) of
/// its last ping.
#[derive(Debug)]
pub struct TransportSession {
    pub conn: u64,
    pub meta: Vec<u8>,
    pub ping_at: u64,
}

/// The mathematical form of a [`TransportSession`].
pub struct SessionView {
    pub conn: u64,
    pub meta: Seq<u8>,
    pub ping_at: u64,
}

impl View for TransportSession {
    type V = SessionView;

    open spec fn view(&self) -> SessionView {
        SessionView { conn: self.conn, meta: self.meta@, ping_at: self.ping_at }
    }
}

impl TransportSession {
    /// A copy of this session.
    pub fn duplicate(&self) -> (r: TransportSession)
        ensures
            r@ == self@,
    {
        TransportSession { conn: self.conn, meta: self.meta.clone(), ping_at: self.ping_at }
    }
}

/// Whether a session last pinged at `ping_at` is stale at time `now`.
pub open spec fn stale_at(ping_at: u64, now: u64) -> bool {
    now - ping_at > STALE_AFTER_MS
}

/// Whether a session last pinged at `ping_at` counts as live at time `now`.
pub open spec fn live_at(ping_at: u64, now: u64) -> bool {
    now - ping_at <= LIVE_WITHIN_MS
}

/// Tells whether a session last pinged at `ping_at` is stale at `now`.
pub fn is_stale(ping_at: u64, now: u64) -> (r: bool)
    ensures
        r == stale_at(ping_at, now),
{
    now > ping_at && now - ping_at > STALE_AFTER_MS
}

/// Tells whether a session last pinged at `ping_at` is live at `now`.
pub fn is_live(ping_at: u64, now: u64) -> (r: bool)
    ensures
        r == live_at(ping_at, now),
{
    now <= ping_at || now - ping_at <= LIVE_WITHIN_MS
}

/// The registry after a sweep at `now`: every stale entry is gone, the rest stays.
pub open spec fn swept(m: Map<Seq<char>, SessionView>, now: u64) -> Map<Seq<char>, SessionView> {
    m.restrict(m.dom().filter(|k: Seq<char>| !stale_at(m[k].ping_at, now)))
}

/// The concurrent map of the `dashmap` crate, whose contents Verus does not see.
#[verifier::external_type_specification]
#[verifier::external_body]
#[verifier::reject_recursive_types(K)]
#[verifier::reject_recursive_types(V)]
#[verifier::reject_recursive_types(S)]
pub struct ExDashMap<K, V, S>(dashmap::DashMap<K, V, S>);

/// The sessions that a map holds, by routing id.
pub uninterp spec fn registry_contents(m: dashmap::DashMap<String, TransportSession>) -> Map<Seq<char>, SessionView>;

/// The session registry: at most one session per routing id.
pub struct SessionRegistry {
    map: dashmap::DashMap<String, TransportSession>,
}

impl View for SessionRegistry {
    type V = Map<Seq<char>, SessionView>;

    closed spec fn view(&self) -> Map<Seq<char>, SessionView> {
        registry_contents(self.map)
    }
}

/// Relies on `DashMap::new`: a map with no entries.
#[verifier::external_body]
fn map_new() -> (fresh: dashmap::DashMap<String, TransportSession>)
    ensures
        registry_contents(fresh).dom() == Set::<Seq<char>>::empty(),
{
    dashmap::DashMap::new()
}

/// Relies on `DashMap::insert`: the entry under `id` becomes `s`, replacing any earlier one.
#[verifier::external_body]
fn map_insert(m: &mut dashmap::DashMap<String, TransportSession>, id: String, s: TransportSession)
    ensures
        registry_contents(*final(m)) == registry_contents(*old(m)).insert(id@, s@),
{
    m.insert(id, s);
}

/// Relies on `DashMap::get`: a copy of the entry under `id`, if there is one.
#[verifier::external_body]
fn map_get(m: &dashmap::DashMap<String, TransportSession>, id: &str) -> (o: Option<TransportSession>)
    ensures
        o.is_some() == registry_contents(*m).contains_key(id@),
        o.is_some() ==> o.unwrap()@ == registry_contents(*m)[id@],
{
    m.get(id).map(|e| e.value().duplicate())
}

/// Relies on `DashMap::remove`: the entry under `id` is gone, the others stay.
#[verifier::external_body]
fn map_remove(m: &mut dashmap::DashMap<String, TransportSession>, id: &str)
    ensures
        registry_contents(*final(m)) == registry_contents(*old(m)).remove(id@),
{
    m.remove(id);
}

/// Relies on `DashMap::retain`: the entries that are stale at `now` are dropped.
#[verifier::external_body]
fn map_retain_fresh(m: &mut dashmap::DashMap<String, TransportSession>, now: u64)
    ensures
        registry_contents(*final(m)) == swept(registry_contents(*old(m)), now),
{
    m.retain(|_, s| !is_stale(s.ping_at, now));
}

/// Relies on `DashMap::iter`: a copy of every entry, once each, in the map's own order.
#[verifier::external_body]
fn map_entries(m: &dashmap::DashMap<String, TransportSession>) -> (v: Vec<(String, TransportSession)>)
    ensures
        is_listing(v@, registry_contents(*m)),
{
    m.iter().map(|e| (e.key().clone(), e.value().duplicate())).collect()
}

/// Whether `v` lists every entry of `m` exactly once, in some order.
pub open spec fn is_listing(v: Seq<(String, TransportSession)>, m: Map<Seq<char>, SessionView>) -> bool {
    &&& forall|i: int| 0 <= i < v.len() ==> #[trigger] m.contains_key(v[i].0@) && m[v[i].0@] == v[i].1@
    &&& forall|i: int, j: int| 0 <= i < j < v.len() ==> v[i].0@ != v[j].0@
    &&& forall|k: Seq<char>| #[trigger] m.contains_key(k) ==> exists|i: int| 0 <= i < v.len() && v[i].0@ == k
}

impl SessionRegistry {
    /// An empty registry.
    pub fn new() -> (r: SessionRegistry)
        ensures
            r@.dom() == Set::<Seq<char>>::empty(),
    {
        SessionRegistry { map: map_new() }
    }

    /// Binds `id` to `session`; a session already under `id` is dropped.
    pub fn insert_session(&mut self, id: String, session: TransportSession)
        ensures
            final(self)@ == old(self)@.insert(id@, session@),
    {
        map_insert(&mut self.map, id, session)
    }

    /// Drops the session under `id`, if any.
    pub fn remove_session(&mut self, id: &str)
        ensures
            final(self)@ == old(self)@.remove(id@),
    {
        map_remove(&mut self.map, id)
    }

    /// The session under `id`, if any.
    pub fn get_session(&self, id: &str) -> (r: Option<TransportSession>)
        ensures
            r.is_some() == self@.contains_key(id@),
            r.is_some() ==> r.unwrap()@ == self@[id@],
    {
        map_get(&self.map, id)
    }

    /// The session under [`DEFAULT_CLIENT_ID`], if any.
    pub fn get_default_session(&self) -> (r: Option<TransportSession>)
        ensures
            r.is_some() == self@.contains_key(DEFAULT_CLIENT_ID@),
            r.is_some() ==> r.unwrap()@ == self@[DEFAULT_CLIENT_ID@],
    {
        map_get(&self.map, DEFAULT_CLIENT_ID)
    }

    /// Records a ping at `now` for the session under `id`; tells whether there was one.
    pub fn refresh_session_by_id(&mut self, id: &str, now: u64) -> (found: bool)
        ensures
            found == old(self)@.contains_key(id@),
            found ==> final(self)@ == old(self)@.insert(
                id@,
                SessionView { ping_at: now, ..old(self)@[id@] },
            ),
            !found ==> final(self)@ == old(self)@,
    {
        match map_get(&self.map, id) {
            Some(s) => {
                let refreshed = TransportSession { conn: s.conn, meta: s.meta, ping_at: now };
                map_insert(&mut self.map, String::from_str(id), refreshed);
                true
            },
            None => false,
        }
    }

    /// Drops every session that is stale at `now`.
    pub fn clear_expired_sessions(&mut self, now: u64)
        ensures
            final(self)@ == swept(old(self)@, now),
    {
        map_retain_fresh(&mut self.map, now)
    }

    /// A copy of every session with its routing id, each once, in no fixed order.
    pub fn snapshot(&self) -> (r: Vec<(String, TransportSession)>)
        ensures
            is_listing(r@, self@),
    {
        map_entries(&self.map)
    }
}

/// A routing id holds one record at a time: binding it again replaces the
/// earlier record and leaves every other id as it was.
pub proof fn lemma_one_record_per_id(
    m: Map<Seq<char>, SessionView>,
    id: Seq<char>,
    first: SessionView,
    second: SessionView,
)
    ensures
        m.insert(id, first).insert(id, second) == m.insert(id, second),
        m.insert(id, second).dom() == m.dom().insert(id),
        m.insert(id, second)[id] == second,
{
    assert(m.insert(id, first).insert(id, second) =~= m.insert(id, second));
}

/// After a sweep at `now`, no entry that was stale at `now` is left, and
/// every entry that was not stale is kept unchanged.
pub proof fn lemma_sweep_evicts_stale(m: Map<Seq<char>, SessionView>, now: u64, id: Seq<char>)
    ensures
        m.contains_key(id) && stale_at(m[id].ping_at, now) ==> !swept(m, now).contains_key(id),
        m.contains_key(id) && !stale_at(m[id].ping_at, now) ==> swept(m, now).contains_key(id)
            && swept(m, now)[id] == m[id],
        !m.contains_key(id) ==> !swept(m, now).contains_key(id),
{
}

} // verus!
