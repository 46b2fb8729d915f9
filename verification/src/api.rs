//! The bookkeeping of the management API: relay instances by id, their
//! configuration and status, and the answers to each request.
use vstd::prelude::*;
use vstd::string::*;
use crate::conf::EndpointConf;
use crate::conf::endpoint::EndpointConfView;
use crate::text::str_eq;

verus! {

/// The state of a relay instance.
#[derive(Debug, Clone)]
pub enum InstanceStatus {
    Running,
    Stopped,
    Failed(String),
}

/// The model of an instance's state, with a failure's message as characters.
pub enum StatusView {
    Running,
    Stopped,
    Failed(Seq<char>),
}

impl View for InstanceStatus {
    type V = StatusView;

    open spec fn view(&self) -> StatusView {
        match self {
            InstanceStatus::Running => StatusView::Running,
            InstanceStatus::Stopped => StatusView::Stopped,
            InstanceStatus::Failed(m) => StatusView::Failed(m@),
        }
    }
}

impl InstanceStatus {
    /// A copy of the status.
    pub fn duplicate(&self) -> (r: InstanceStatus)
        ensures
            r@ == self@,
    {
        match self {
            InstanceStatus::Running => InstanceStatus::Running,
            InstanceStatus::Stopped => InstanceStatus::Stopped,
            InstanceStatus::Failed(m) => InstanceStatus::Failed(m.clone()),
        }
    }
}

/// A relay instance managed through the API.
#[derive(Debug, Clone)]
pub struct Instance {
    pub id: String,
    pub config: EndpointConf,
    pub status: InstanceStatus,
}

/// The model of an instance.
pub struct InstanceView {
    pub id: Seq<char>,
    pub config: EndpointConfView,
    pub status: StatusView,
}

impl View for Instance {
    type V = InstanceView;

    open spec fn view(&self) -> InstanceView {
        InstanceView { id: self.id@, config: self.config@, status: self.status@ }
    }
}

impl Instance {
    /// A copy of the instance.
    pub fn duplicate(&self) -> (r: Instance)
        ensures
            r@ == self@,
    {
        Instance { id: self.id.clone(), config: self.config.duplicate(), status: self.status.duplicate() }
    }
}

/// An instance and whether its TCP and UDP relays are held running.
#[derive(Debug, Clone)]
pub struct InstanceEntry {
    pub instance: Instance,
    pub has_tcp: bool,
    pub has_udp: bool,
}

/// The model of an entry.
pub struct EntryView {
    pub instance: InstanceView,
    pub has_tcp: bool,
    pub has_udp: bool,
}

impl View for InstanceEntry {
    type V = EntryView;

    open spec fn view(&self) -> EntryView {
        EntryView { instance: self.instance@, has_tcp: self.has_tcp, has_udp: self.has_udp }
    }
}

/// Why a request was refused.
#[derive(Debug, Clone, Copy, PartialEq, Eq, Structural)]
pub enum ApiError {
    NotFound,
    Conflict,
    InternalServerError,
}

impl ApiError {
    /// The HTTP status code of the refusal.
    pub fn status_code(&self) -> (r: u16)
        ensures
            r == (match self {
                ApiError::NotFound => 404u16,
                ApiError::Conflict => 409u16,
                ApiError::InternalServerError => 500u16,
            }),
    {
        match self {
            ApiError::NotFound => 404,
            ApiError::Conflict => 409,
            ApiError::InternalServerError => 500,
        }
    }
}

/// Whether a request may proceed: always when no key is configured,
/// otherwise only when the key it presents equals the configured one.
pub fn is_authorized(api_key: &Option<String>, presented: Option<&str>) -> (r: bool)
    ensures
        r == (match api_key {
            None => true,
            Some(k) => presented matches Some(p) && p@ == k@,
        }),
{
    match api_key {
        None => true,
        Some(k) => match presented {
            Some(p) => str_eq(p, k.as_str()),
            None => false,
        },
    }
}

/// The entries as a map by id, given that no id occurs twice.
pub open spec fn entry_map(s: Seq<EntryView>) -> Map<Seq<char>, EntryView> {
    Map::new(
        |k: Seq<char>| exists|i: int| 0 <= i < s.len() && #[trigger] s[i].instance.id == k,
        |k: Seq<char>| s[choose|i: int| 0 <= i < s.len() && #[trigger] s[i].instance.id == k],
    )
}

/// No id occurs twice, and each entry is filed under its instance's id.
pub open spec fn ids_unique(s: Seq<EntryView>) -> bool {
    forall|i: int, j: int|
        0 <= i < s.len() && 0 <= j < s.len() && i != j ==> #[trigger] s[i].instance.id != #[trigger] s[j].instance.id
}

proof fn lemma_map_at(s: Seq<EntryView>, i: int)
    requires
        ids_unique(s),
        0 <= i < s.len(),
    ensures
        entry_map(s).contains_key(s[i].instance.id),
        entry_map(s)[s[i].instance.id] == s[i],
{
    let k = s[i].instance.id;
    assert(exists|j: int| 0 <= j < s.len() && #[trigger] s[j].instance.id == k);
    let j = choose|j: int| 0 <= j < s.len() && #[trigger] s[j].instance.id == k;
    assert(j == i);
}

proof fn lemma_map_push(s: Seq<EntryView>, e: EntryView)
    requires
        ids_unique(s),
        !entry_map(s).contains_key(e.instance.id),
    ensures
        ids_unique(s.push(e)),
        entry_map(s.push(e)) == entry_map(s).insert(e.instance.id, e),
{
    let t = s.push(e);
    assert forall|i: int, j: int| 0 <= i < t.len() && 0 <= j < t.len() && i != j implies #[trigger] t[i].instance.id
        != #[trigger] t[j].instance.id by {
        if i == s.len() {
            assert(t[j] == s[j]);
        } else if j == s.len() {
            assert(t[i] == s[i]);
        } else {
            assert(t[i] == s[i] && t[j] == s[j]);
        }
    }
    assert forall|k: Seq<char>| #[trigger] entry_map(t).contains_key(k) == entry_map(s).insert(e.instance.id, e).contains_key(k) by {
        if entry_map(s).contains_key(k) {
            let i = choose|i: int| 0 <= i < s.len() && #[trigger] s[i].instance.id == k;
            assert(t[i] == s[i]);
        }
        if entry_map(t).contains_key(k) && k != e.instance.id {
            let i = choose|i: int| 0 <= i < t.len() && #[trigger] t[i].instance.id == k;
            assert(i < s.len());
            assert(t[i] == s[i]);
        }
        if k == e.instance.id {
            assert(t[s.len() as int] == e);
        }
    }
    assert forall|k: Seq<char>| #[trigger] entry_map(t).contains_key(k) implies entry_map(t)[k] == entry_map(s).insert(
        e.instance.id, e)[k] by {
        let i = choose|i: int| 0 <= i < t.len() && #[trigger] t[i].instance.id == k;
        lemma_map_at(t, i);
        if i < s.len() {
            assert(t[i] == s[i]);
            lemma_map_at(s, i);
        }
    }
    assert(entry_map(t) =~= entry_map(s).insert(e.instance.id, e));
}

proof fn lemma_map_update(s: Seq<EntryView>, i: int, e: EntryView)
    requires
        ids_unique(s),
        0 <= i < s.len(),
        e.instance.id == s[i].instance.id,
    ensures
        ids_unique(s.update(i, e)),
        entry_map(s.update(i, e)) == entry_map(s).insert(e.instance.id, e),
{
    let t = s.update(i, e);
    assert forall|a: int, b: int| 0 <= a < t.len() && 0 <= b < t.len() && a != b implies #[trigger] t[a].instance.id
        != #[trigger] t[b].instance.id by {
        assert(t[a].instance.id == s[a].instance.id);
        assert(t[b].instance.id == s[b].instance.id);
    }
    assert forall|k: Seq<char>| #[trigger] entry_map(t).contains_key(k) == entry_map(s).insert(e.instance.id, e).contains_key(k) by {
        if entry_map(s).contains_key(k) {
            let j = choose|j: int| 0 <= j < s.len() && #[trigger] s[j].instance.id == k;
            assert(t[j].instance.id == s[j].instance.id);
        }
        if entry_map(t).contains_key(k) {
            let j = choose|j: int| 0 <= j < t.len() && #[trigger] t[j].instance.id == k;
            assert(t[j].instance.id == s[j].instance.id);
        }
        if k == e.instance.id {
            assert(t[i] == e);
        }
    }
    assert forall|k: Seq<char>| #[trigger] entry_map(t).contains_key(k) implies entry_map(t)[k] == entry_map(s).insert(
        e.instance.id, e)[k] by {
        let j = choose|j: int| 0 <= j < t.len() && #[trigger] t[j].instance.id == k;
        lemma_map_at(t, j);
        if j != i {
            assert(t[j] == s[j]);
            lemma_map_at(s, j);
        }
    }
    assert(entry_map(t) =~= entry_map(s).insert(e.instance.id, e));
}

proof fn lemma_map_remove(s: Seq<EntryView>, i: int)
    requires
        ids_unique(s),
        0 <= i < s.len(),
    ensures
        ids_unique(s.remove(i)),
        entry_map(s.remove(i)) == entry_map(s).remove(s[i].instance.id),
{
    let t = s.remove(i);
    let k0 = s[i].instance.id;
    assert forall|a: int, b: int| 0 <= a < t.len() && 0 <= b < t.len() && a != b implies #[trigger] t[a].instance.id
        != #[trigger] t[b].instance.id by {
        let a2 = if a < i { a } else { a + 1 };
        let b2 = if b < i { b } else { b + 1 };
        assert(t[a] == s[a2]);
        assert(t[b] == s[b2]);
    }
    assert forall|k: Seq<char>| #[trigger] entry_map(t).contains_key(k) == entry_map(s).remove(k0).contains_key(k) by {
        if entry_map(s).contains_key(k) && k != k0 {
            let j = choose|j: int| 0 <= j < s.len() && #[trigger] s[j].instance.id == k;
            assert(j != i);
            let j2 = if j < i { j } else { j - 1 };
            assert(t[j2] == s[j]);
        }
        if entry_map(t).contains_key(k) {
            let j = choose|j: int| 0 <= j < t.len() && #[trigger] t[j].instance.id == k;
            let j2 = if j < i { j } else { j + 1 };
            assert(t[j] == s[j2]);
            assert(j2 != i);
        }
    }
    assert forall|k: Seq<char>| #[trigger] entry_map(t).contains_key(k) implies entry_map(t)[k] == entry_map(s).remove(
        k0)[k] by {
        let j = choose|j: int| 0 <= j < t.len() && #[trigger] t[j].instance.id == k;
        lemma_map_at(t, j);
        let j2 = if j < i { j } else { j + 1 };
        assert(t[j] == s[j2]);
        lemma_map_at(s, j2);
    }
    assert(entry_map(t) =~= entry_map(s).remove(k0));
}

/// The entry a started instance is filed as: running with the relays that
/// were started, or failed with the message and no relay held.
pub open spec fn started_entry(
    id: Seq<char>,
    config: EndpointConfView,
    started: Result<(bool, bool), Seq<char>>,
) -> EntryView {
    match started {
        Ok((t, u)) => EntryView {
            instance: InstanceView { id, config, status: StatusView::Running },
            has_tcp: t,
            has_udp: u,
        },
        Err(m) => EntryView {
            instance: InstanceView { id, config, status: StatusView::Failed(m) },
            has_tcp: false,
            has_udp: false,
        },
    }
}

/// The model of how starting relays went, with a failure's message as
/// characters.
pub open spec fn started_view(started: Result<(bool, bool), String>) -> Result<(bool, bool), Seq<char>> {
    match started {
        Ok(x) => Ok(x),
        Err(m) => Err(m@),
    }
}

/// Whether a start request is refused as a conflict: relays are held and
/// the instance is running.
pub open spec fn start_conflicts(e: EntryView) -> bool {
    (e.has_tcp || e.has_udp) && e.instance.status is Running
}

/// Whether a stop request is refused as a conflict: no relay is held and
/// the instance is not running.
pub open spec fn stop_conflicts(e: EntryView) -> bool {
    !e.has_tcp && !e.has_udp && !(e.instance.status is Running)
}

/// The relay instances of the management API, by id.
pub struct InstanceTable {
    entries: Vec<InstanceEntry>,
}

impl View for InstanceTable {
    type V = Map<Seq<char>, EntryView>;

    closed spec fn view(&self) -> Map<Seq<char>, EntryView> {
        entry_map(self.entries@.map_values(|e: InstanceEntry| e@))
    }
}

impl InstanceTable {
    /// The table's entries are filed under distinct ids.
    pub closed spec fn wf(&self) -> bool {
        ids_unique(self.entries@.map_values(|e: InstanceEntry| e@))
    }

    /// An empty table.
    pub fn new() -> (r: InstanceTable)
        ensures
            r.wf(),
            r@ == Map::<Seq<char>, EntryView>::empty(),
    {
        let r = InstanceTable { entries: Vec::new() };
        assert(r@ =~= Map::<Seq<char>, EntryView>::empty());
        r
    }

    fn find(&self, id: &str) -> (r: Option<usize>)
        requires
            self.wf(),
        ensures
            match r {
                Some(i) => i < self.entries@.len() && self.entries@[i as int].instance.id@ == id@
                    && self@.contains_key(id@) && self@[id@] == self.entries@[i as int]@,
                None => !self@.contains_key(id@),
            },
    {
        let ghost s = self.entries@.map_values(|e: InstanceEntry| e@);
        let mut i: usize = 0;
        while i < self.entries.len()
            invariant
                i <= self.entries@.len(),
                s == self.entries@.map_values(|e: InstanceEntry| e@),
                ids_unique(s),
                forall|j: int| 0 <= j < i ==> #[trigger] s[j].instance.id != id@,
            decreases self.entries@.len() - i,
        {
            if str_eq(self.entries[i].instance.id.as_str(), id) {
                proof {
                    lemma_map_at(s, i as int);
                }
                return Some(i);
            }
            i = i + 1;
        }
        proof {
            if self@.contains_key(id@) {
                let j = choose|j: int| 0 <= j < s.len() && #[trigger] s[j].instance.id == id@;
                assert(s[j].instance.id != id@);
            }
        }
        None
    }

    /// Whether an instance has the id.
    pub fn contains(&self, id: &str) -> (r: bool)
        requires
            self.wf(),
        ensures
            r == self@.contains_key(id@),
    {
        self.find(id).is_some()
    }

    /// Every instance, each once.
    pub fn list(&self) -> (r: Vec<Instance>)
        requires
            self.wf(),
        ensures
            forall|i: int| 0 <= i < r@.len() ==> #[trigger] self@.contains_key(r@[i].id@)
                && self@[r@[i].id@].instance == r@[i]@,
            forall|k: Seq<char>| #[trigger] self@.contains_key(k) ==> exists|i: int| 0 <= i < r@.len() && r@[i]@
                == self@[k].instance,
            forall|i: int, j: int| 0 <= i < r@.len() && 0 <= j < r@.len() && i != j ==> #[trigger] r@[i].id@
                != #[trigger] r@[j].id@,
    {
        let ghost s = self.entries@.map_values(|e: InstanceEntry| e@);
        let mut r: Vec<Instance> = Vec::new();
        let mut i: usize = 0;
        while i < self.entries.len()
            invariant
                i <= self.entries@.len(),
                s == self.entries@.map_values(|e: InstanceEntry| e@),
                ids_unique(s),
                r@.len() == i,
                forall|j: int| 0 <= j < i ==> #[trigger] r@[j]@ == s[j].instance,
            decreases self.entries@.len() - i,
        {
            r.push(self.entries[i].instance.duplicate());
            i = i + 1;
        }
        proof {
            assert forall|i: int| 0 <= i < r@.len() implies #[trigger] self@.contains_key(r@[i].id@)
                && self@[r@[i].id@].instance == r@[i]@ by {
                lemma_map_at(s, i);
            }
            assert forall|k: Seq<char>| #[trigger] self@.contains_key(k) implies exists|i: int| 0 <= i < r@.len()
                && r@[i]@ == self@[k].instance by {
                let j = choose|j: int| 0 <= j < s.len() && #[trigger] s[j].instance.id == k;
                lemma_map_at(s, j);
                assert(r@[j]@ == self@[k].instance);
            }
            assert forall|i: int, j: int| 0 <= i < r@.len() && 0 <= j < r@.len() && i != j implies #[trigger] r@[i].id@
                != #[trigger] r@[j].id@ by {
                assert(r@[i]@ == s[i].instance);
                assert(r@[j]@ == s[j].instance);
                assert(s[i].instance.id != s[j].instance.id);
            }
        }
        r
    }

    /// The instance with the id, if any.
    pub fn get(&self, id: &str) -> (r: Option<Instance>)
        requires
            self.wf(),
        ensures
            match r {
                Some(x) => self@.contains_key(id@) && x@ == self@[id@].instance,
                None => !self@.contains_key(id@),
            },
    {
        match self.find(id) {
            Some(i) => Some(self.entries[i].instance.duplicate()),
            None => None,
        }
    }

    /// Files `e` under its instance's id, replacing what was filed there.
    fn put(&mut self, e: InstanceEntry)
        requires
            old(self).wf(),
        ensures
            final(self).wf(),
            final(self)@ == old(self)@.insert(e@.instance.id, e@),
    {
        let ghost s = self.entries@.map_values(|x: InstanceEntry| x@);
        match self.find(e.instance.id.as_str()) {
            Some(i) => {
                self.entries.set(i, e);
                proof {
                    assert(self.entries@.map_values(|x: InstanceEntry| x@) =~= s.update(i as int, e@));
                    lemma_map_update(s, i as int, e@);
                }
            },
            None => {
                self.entries.push(e);
                proof {
                    assert(self.entries@.map_values(|x: InstanceEntry| x@) =~= s.push(e@));
                    lemma_map_push(s, e@);
                }
            },
        }
    }

    /// Files a new instance under `id`: running with the relays that were
    /// started for it, or failed when they could not be started, in which
    /// case the request fails.
    pub fn create(
        &mut self,
        id: String,
        config: EndpointConf,
        started: Result<(bool, bool), String>,
    ) -> (r: Result<Instance, ApiError>)
        requires
            old(self).wf(),
        ensures
            final(self).wf(),
            final(self)@ == old(self)@.insert(id@, started_entry(id@, config@, started_view(started))),
            match r {
                Ok(x) => started is Ok && x@ == started_entry(id@, config@, started_view(started)).instance,
                Err(e) => started is Err && e == ApiError::InternalServerError,
            },
    {
        let ghost entry = started_entry(id@, config@, started_view(started));
        match started {
            Ok((t, u)) => {
                let instance = Instance { id, config, status: InstanceStatus::Running };
                let answer = instance.duplicate();
                self.put(InstanceEntry { instance, has_tcp: t, has_udp: u });
                Ok(answer)
            },
            Err(m) => {
                let instance = Instance { id, config, status: InstanceStatus::Failed(m) };
                self.put(InstanceEntry { instance, has_tcp: false, has_udp: false });
                Err(ApiError::InternalServerError)
            },
        }
    }

    /// Replaces the configuration of the instance with the id and runs it
    /// with the relays started for the new configuration; when they could
    /// not be started the instance keeps its configuration, fails, and the
    /// request fails. An unknown id is refused and changes nothing.
    pub fn update(
        &mut self,
        id: &str,
        config: EndpointConf,
        started: Result<(bool, bool), String>,
    ) -> (r: Result<Instance, ApiError>)
        requires
            old(self).wf(),
        ensures
            final(self).wf(),
            !old(self)@.contains_key(id@) ==> r == Err::<Instance, ApiError>(ApiError::NotFound)
                && final(self)@ == old(self)@,
            old(self)@.contains_key(id@) ==> {
                let entry = match started {
                    Ok(_) => started_entry(id@, config@, started_view(started)),
                    Err(_) => started_entry(id@, old(self)@[id@].instance.config, started_view(started)),
                };
                &&& final(self)@ == old(self)@.insert(id@, entry)
                &&& match r {
                    Ok(x) => started is Ok && x@ == entry.instance,
                    Err(e) => started is Err && e == ApiError::InternalServerError,
                }
            },
    {
        match self.find(id) {
            None => Err(ApiError::NotFound),
            Some(i) => {
                let key = self.entries[i].instance.id.clone();
                match started {
                    Ok((t, u)) => {
                        let instance = Instance { id: key, config, status: InstanceStatus::Running };
                        let answer = instance.duplicate();
                        self.put(InstanceEntry { instance, has_tcp: t, has_udp: u });
                        Ok(answer)
                    },
                    Err(m) => {
                        let old_config = self.entries[i].instance.config.duplicate();
                        let instance = Instance { id: key, config: old_config, status: InstanceStatus::Failed(m) };
                        self.put(InstanceEntry { instance, has_tcp: false, has_udp: false });
                        Err(ApiError::InternalServerError)
                    },
                }
            },
        }
    }

    /// Whether the instance with the id may be started: refused when the id
    /// is unknown, or as a conflict when it holds relays and is running.
    pub fn check_start(&self, id: &str) -> (r: Result<(), ApiError>)
        requires
            self.wf(),
        ensures
            r == (if !self@.contains_key(id@) {
                Err(ApiError::NotFound)
            } else if start_conflicts(self@[id@]) {
                Err(ApiError::Conflict)
            } else {
                Ok(())
            }),
    {
        match self.find(id) {
            None => Err(ApiError::NotFound),
            Some(i) => {
                let e = &self.entries[i];
                let running = match e.instance.status {
                    InstanceStatus::Running => true,
                    _ => false,
                };
                if (e.has_tcp || e.has_udp) && running {
                    Err(ApiError::Conflict)
                } else {
                    Ok(())
                }
            },
        }
    }

    /// Records the relays started for the instance with the id: it runs with
    /// them, or fails when they could not be started, in which case the
    /// request fails. An unknown id is refused and changes nothing.
    pub fn record_start(&mut self, id: &str, started: Result<(bool, bool), String>) -> (r: Result<Instance, ApiError>)
        requires
            old(self).wf(),
        ensures
            final(self).wf(),
            !old(self)@.contains_key(id@) ==> r == Err::<Instance, ApiError>(ApiError::NotFound)
                && final(self)@ == old(self)@,
            old(self)@.contains_key(id@) ==> {
                let entry = started_entry(id@, old(self)@[id@].instance.config, started_view(started));
                &&& final(self)@ == old(self)@.insert(id@, entry)
                &&& match r {
                    Ok(x) => started is Ok && x@ == entry.instance,
                    Err(e) => started is Err && e == ApiError::InternalServerError,
                }
            },
    {
        match self.find(id) {
            None => Err(ApiError::NotFound),
            Some(i) => {
                let key = self.entries[i].instance.id.clone();
                let config = self.entries[i].instance.config.duplicate();
                match started {
                    Ok((t, u)) => {
                        let instance = Instance { id: key, config, status: InstanceStatus::Running };
                        let answer = instance.duplicate();
                        self.put(InstanceEntry { instance, has_tcp: t, has_udp: u });
                        Ok(answer)
                    },
                    Err(m) => {
                        let instance = Instance { id: key, config, status: InstanceStatus::Failed(m) };
                        self.put(InstanceEntry { instance, has_tcp: false, has_udp: false });
                        Err(ApiError::InternalServerError)
                    },
                }
            },
        }
    }

    /// Stops the instance with the id: it is marked stopped and holds no
    /// relay. Refused when the id is unknown, or as a conflict when it holds
    /// no relay and is not running; a refusal changes nothing.
    pub fn stop(&mut self, id: &str) -> (r: Result<Instance, ApiError>)
        requires
            old(self).wf(),
        ensures
            final(self).wf(),
            !old(self)@.contains_key(id@) ==> r == Err::<Instance, ApiError>(ApiError::NotFound)
                && final(self)@ == old(self)@,
            old(self)@.contains_key(id@) && stop_conflicts(old(self)@[id@]) ==> r == Err::<Instance, ApiError>(
                ApiError::Conflict) && final(self)@ == old(self)@,
            old(self)@.contains_key(id@) && !stop_conflicts(old(self)@[id@]) ==> {
                let entry = EntryView {
                    instance: InstanceView { status: StatusView::Stopped, ..old(self)@[id@].instance },
                    has_tcp: false,
                    has_udp: false,
                };
                &&& final(self)@ == old(self)@.insert(id@, entry)
                &&& r matches Ok(x) && x@ == entry.instance
            },
    {
        match self.find(id) {
            None => Err(ApiError::NotFound),
            Some(i) => {
                let e = &self.entries[i];
                let running = match e.instance.status {
                    InstanceStatus::Running => true,
                    _ => false,
                };
                if !e.has_tcp && !e.has_udp && !running {
                    return Err(ApiError::Conflict);
                }
                let instance = Instance {
                    id: e.instance.id.clone(),
                    config: e.instance.config.duplicate(),
                    status: InstanceStatus::Stopped,
                };
                let answer = instance.duplicate();
                self.put(InstanceEntry { instance, has_tcp: false, has_udp: false });
                Ok(answer)
            },
        }
    }

    /// Removes the instance with the id; an unknown id is refused.
    pub fn delete(&mut self, id: &str) -> (r: Result<(), ApiError>)
        requires
            old(self).wf(),
        ensures
            final(self).wf(),
            r == (if old(self)@.contains_key(id@) { Ok(()) } else { Err(ApiError::NotFound) }),
            final(self)@ == old(self)@.remove(id@),
    {
        let ghost s = self.entries@.map_values(|x: InstanceEntry| x@);
        match self.find(id) {
            None => {
                assert(old(self)@.remove(id@) =~= old(self)@);
                Err(ApiError::NotFound)
            },
            Some(i) => {
                self.entries.remove(i);
                proof {
                    assert(self.entries@.map_values(|x: InstanceEntry| x@) =~= s.remove(i as int));
                    lemma_map_remove(s, i as int);
                }
                Ok(())
            },
        }
    }
}

} // verus!
