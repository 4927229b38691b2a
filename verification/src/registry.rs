use crate::models::judge_servers::JudgeServerInfo;
use crate::models::judge_servers::JudgeServerInfoView;
use vstd::prelude::*;

verus! {

/// A server whose last heartbeat is older than this many seconds is stale.
pub const HEARTBEAT_TIMEOUT_SECS: u64 = 5;

/// Largest number of tasks that a server with `cpu_core` cores runs at once.
pub open spec fn capacity(cpu_core: i32) -> int {
    2 * cpu_core
}

/// The server can take one more task: it may run twice its core count.
pub open spec fn has_capacity(server: JudgeServerInfoView) -> bool {
    server.task_number + 1 <= capacity(server.cpu_core)
}

/// The last heartbeat of the server is at most five seconds old at `now`.
pub open spec fn is_fresh(server: JudgeServerInfoView, now: u64) -> bool {
    now - server.heartbeat_time <= HEARTBEAT_TIMEOUT_SECS
}

/// A task may be dispatched to the server at `now`.
pub open spec fn is_eligible(server: JudgeServerInfoView, now: u64) -> bool {
    &&& !server.is_deprecated
    &&& has_capacity(server)
    &&& is_fresh(server, now)
}

/// Index of the first entry at or after `from` whose endpoint is `url`.
pub open spec fn position_from(servers: Seq<JudgeServerInfoView>, url: Seq<char>, from: int) -> Option<int>
    decreases servers.len() - from,
{
    if from < 0 || from >= servers.len() {
        None
    } else if servers[from].service_url == url {
        Some(from)
    } else {
        position_from(servers, url, from + 1)
    }
}

/// Index of the entry whose endpoint is `url`.
pub open spec fn position(servers: Seq<JudgeServerInfoView>, url: Seq<char>) -> Option<int> {
    position_from(servers, url, 0)
}

/// Index of the first entry at or after `from` that is eligible at `now`.
pub open spec fn first_eligible_from(servers: Seq<JudgeServerInfoView>, now: u64, from: int) -> Option<int>
    decreases servers.len() - from,
{
    if from < 0 || from >= servers.len() {
        None
    } else if is_eligible(servers[from], now) {
        Some(from)
    } else {
        first_eligible_from(servers, now, from + 1)
    }
}

/// Index of the first entry, in registry order, that is eligible at `now`.
pub open spec fn first_eligible(servers: Seq<JudgeServerInfoView>, now: u64) -> Option<int> {
    first_eligible_from(servers, now, 0)
}

/// No two entries share an endpoint.
pub open spec fn distinct_urls(servers: Seq<JudgeServerInfoView>) -> bool {
    forall|i: int, j: int|
        0 <= i < j < servers.len() ==> servers[i].service_url != servers[j].service_url
}

/// Validity of a registry: one entry per endpoint, no negative task count.
pub open spec fn registry_wf(servers: Seq<JudgeServerInfoView>) -> bool {
    &&& distinct_urls(servers)
    &&& forall|i: int| 0 <= i < servers.len() ==> (#[trigger] servers[i]).task_number >= 0
}

/// The registry after `info` has replaced the entry of its endpoint, or has
/// been added behind the others where the endpoint was unknown.
pub open spec fn inserted(servers: Seq<JudgeServerInfoView>, info: JudgeServerInfoView) -> Seq<JudgeServerInfoView> {
    match position(servers, info.service_url) {
        Some(i) => servers.update(i, info),
        None => servers.push(info),
    }
}

/// The entry with one more task in flight.
pub open spec fn with_task_number(server: JudgeServerInfoView, task_number: i32) -> JudgeServerInfoView {
    JudgeServerInfoView { task_number, ..server }
}

/// A slot of the server at `url` can be reserved: the server is known and its
/// counter is below the largest value it can hold.
pub open spec fn can_reserve(servers: Seq<JudgeServerInfoView>, url: Seq<char>) -> bool {
    match position(servers, url) {
        Some(i) => servers[i].task_number < i32::MAX,
        None => false,
    }
}

/// The registry after one slot of the server at `url` has been reserved.
pub open spec fn reserved(servers: Seq<JudgeServerInfoView>, url: Seq<char>) -> Seq<JudgeServerInfoView> {
    match position(servers, url) {
        Some(i) => if servers[i].task_number < i32::MAX {
            servers.update(i, with_task_number(servers[i], (servers[i].task_number + 1) as i32))
        } else {
            servers
        },
        None => servers,
    }
}

/// A slot of the server at `url` can be released: the server is known and has
/// a task in flight.
pub open spec fn can_release(servers: Seq<JudgeServerInfoView>, url: Seq<char>) -> bool {
    match position(servers, url) {
        Some(i) => servers[i].task_number > 0,
        None => false,
    }
}

/// The registry after one slot of the server at `url` has been released.
pub open spec fn released(servers: Seq<JudgeServerInfoView>, url: Seq<char>) -> Seq<JudgeServerInfoView> {
    match position(servers, url) {
        Some(i) => if servers[i].task_number > 0 {
            servers.update(i, with_task_number(servers[i], (servers[i].task_number - 1) as i32))
        } else {
            servers
        },
        None => servers,
    }
}

/// Number of tasks in flight on the server at `url`: zero for an endpoint that
/// the registry does not know.
pub open spec fn task_number_of(servers: Seq<JudgeServerInfoView>, url: Seq<char>) -> i32 {
    match position(servers, url) {
        Some(i) => servers[i].task_number,
        None => 0,
    }
}

/// `position_from` finds the entry of `url` where there is one, and nothing
/// where there is none.
pub proof fn lemma_position_from(servers: Seq<JudgeServerInfoView>, url: Seq<char>, from: int)
    requires
        0 <= from <= servers.len(),
    ensures
        match position_from(servers, url, from) {
            Some(i) => {
                &&& from <= i < servers.len()
                &&& servers[i].service_url == url
                &&& forall|j: int| from <= j < i ==> servers[j].service_url != url
            },
            None => forall|j: int| from <= j < servers.len() ==> servers[j].service_url != url,
        },
    decreases servers.len() - from,
{
    if from < servers.len() && servers[from].service_url != url {
        lemma_position_from(servers, url, from + 1);
    }
}

/// In a registry with one entry per endpoint, `position` of an entry's
/// endpoint is that entry's index.
pub proof fn lemma_position_of_entry(servers: Seq<JudgeServerInfoView>, i: int)
    requires
        distinct_urls(servers),
        0 <= i < servers.len(),
    ensures
        position(servers, servers[i].service_url) == Some(i),
{
    lemma_position_from(servers, servers[i].service_url, 0);
}

/// `first_eligible_from` finds the first eligible entry where there is one.
pub proof fn lemma_first_eligible_from(servers: Seq<JudgeServerInfoView>, now: u64, from: int)
    requires
        0 <= from <= servers.len(),
    ensures
        match first_eligible_from(servers, now, from) {
            Some(i) => {
                &&& from <= i < servers.len()
                &&& is_eligible(servers[i], now)
                &&& forall|j: int| from <= j < i ==> !is_eligible(servers[j], now)
            },
            None => forall|j: int| from <= j < servers.len() ==> !is_eligible(servers[j], now),
        },
    decreases servers.len() - from,
{
    if from < servers.len() && !is_eligible(servers[from], now) {
        lemma_first_eligible_from(servers, now, from + 1);
    }
}

/// Replacing or adding an entry keeps a registry valid.
pub proof fn lemma_inserted_wf(servers: Seq<JudgeServerInfoView>, info: JudgeServerInfoView)
    requires
        registry_wf(servers),
        info.task_number >= 0,
    ensures
        registry_wf(inserted(servers, info)),
{
    lemma_position_from(servers, info.service_url, 0);
}

/// Reserving and releasing keep a registry valid.
pub proof fn lemma_reserved_released_wf(servers: Seq<JudgeServerInfoView>, url: Seq<char>)
    requires
        registry_wf(servers),
    ensures
        registry_wf(reserved(servers, url)),
        registry_wf(released(servers, url)),
{
    lemma_position_from(servers, url, 0);
}

/// Two registries that list the same endpoints in the same order find each
/// endpoint at the same index.
pub proof fn lemma_position_same_urls(
    servers: Seq<JudgeServerInfoView>,
    others: Seq<JudgeServerInfoView>,
    url: Seq<char>,
    from: int,
)
    requires
        0 <= from <= servers.len(),
        servers.len() == others.len(),
        forall|k: int| 0 <= k < servers.len() ==> servers[k].service_url == others[k].service_url,
    ensures
        position_from(servers, url, from) == position_from(others, url, from),
    decreases servers.len() - from,
{
    if from < servers.len() && servers[from].service_url != url {
        lemma_position_same_urls(servers, others, url, from + 1);
    }
}

/// Reserving a slot adds one to the task count of the server, if it can be
/// reserved, and leaves the task counts of all other endpoints as they were.
pub proof fn lemma_task_number_of_reserved(servers: Seq<JudgeServerInfoView>, url: Seq<char>, other: Seq<char>)
    requires
        registry_wf(servers),
    ensures
        task_number_of(reserved(servers, url), other) == task_number_of(servers, other) + (if other
            == url && can_reserve(servers, url) {
            1int
        } else {
            0int
        }),
{
    lemma_position_from(servers, url, 0);
    lemma_position_from(servers, other, 0);
    lemma_position_same_urls(servers, reserved(servers, url), other, 0);
}

/// Releasing a slot takes one from the task count of the server, if it has a
/// task in flight, and leaves the task counts of all other endpoints as they
/// were.
pub proof fn lemma_task_number_of_released(servers: Seq<JudgeServerInfoView>, url: Seq<char>, other: Seq<char>)
    requires
        registry_wf(servers),
    ensures
        task_number_of(released(servers, url), other) == task_number_of(servers, other) - (if other
            == url && can_release(servers, url) {
            1int
        } else {
            0int
        }),
{
    lemma_position_from(servers, url, 0);
    lemma_position_from(servers, other, 0);
    lemma_position_same_urls(servers, released(servers, url), other, 0);
}

/// After `info` has been recorded, its endpoint has the task count of
/// `info`, and every other endpoint has the task count that it had.
pub proof fn lemma_task_number_of_inserted(servers: Seq<JudgeServerInfoView>, info: JudgeServerInfoView, other: Seq<char>)
    requires
        registry_wf(servers),
    ensures
        task_number_of(inserted(servers, info), other) == (if other == info.service_url {
            info.task_number
        } else {
            task_number_of(servers, other)
        }),
{
    let after = inserted(servers, info);
    lemma_position_from(servers, info.service_url, 0);
    lemma_position_from(servers, other, 0);
    lemma_position_from(after, other, 0);
    match position(servers, info.service_url) {
        Some(i) => {
            lemma_position_same_urls(servers, after, other, 0);
        },
        None => {
            if other == info.service_url {
                assert(after[servers.len() as int].service_url == other);
            } else if position(servers, other).is_some() {
                let k = position(servers, other).unwrap();
                assert(after[k] == servers[k]);
            }
        },
    }
}

/// In-memory table of the known judge servers, one entry per service
/// endpoint, in the order in which the endpoints were first recorded.
pub struct JudgeServerInfos {
    entries: Vec<JudgeServerInfo>,
}

impl View for JudgeServerInfos {
    type V = Seq<JudgeServerInfoView>;

    closed spec fn view(&self) -> Seq<JudgeServerInfoView> {
        Seq::new(self.entries@.len(), |i: int| self.entries@[i]@)
    }
}

impl JudgeServerInfos {
    /// The table holds one entry per endpoint and no negative task count.
    pub open spec fn wf(&self) -> bool {
        registry_wf(self@)
    }

    /// A registry without servers.
    pub fn new() -> (infos: Self)
        ensures
            infos@ == Seq::<JudgeServerInfoView>::empty(),
            infos.wf(),
    {
        JudgeServerInfos { entries: Vec::new() }
    }

    /// Number of known servers.
    pub fn len(&self) -> (n: usize)
        ensures
            n == self@.len(),
    {
        self.entries.len()
    }

    /// The entry at `index`, in registry order.
    pub fn entry(&self, index: usize) -> (info: &JudgeServerInfo)
        requires
            index < self@.len(),
        ensures
            info@ == self@[index as int],
    {
        &self.entries[index]
    }

    /// Index of the entry of the server at `url`.
    pub fn index_of(&self, url: &str) -> (index: Option<usize>)
        ensures
            match index {
                Some(i) => i < self@.len() && position(self@, url@) == Some(i as int),
                None => position(self@, url@).is_none(),
            },
    {
        let wanted = url.to_owned();
        let mut i: usize = 0;
        while i < self.entries.len()
            invariant
                i <= self.entries.len(),
                wanted@ == url@,
                position(self@, url@) == position_from(self@, url@, i as int),
            decreases self.entries.len() - i,
        {
            if self.entries[i].service_url == wanted {
                return Some(i);
            }
            i += 1;
        }
        None
    }

    /// The entry of the server at `url`.
    pub fn get(&self, url: &str) -> (info: Option<&JudgeServerInfo>)
        ensures
            match info {
                Some(found) => position(self@, url@).is_some()
                    && found@ == self@[position(self@, url@).unwrap()],
                None => position(self@, url@).is_none(),
            },
    {
        match self.index_of(url) {
            Some(i) => Some(&self.entries[i]),
            None => None,
        }
    }

    /// Records `info` under its endpoint: it replaces the entry of that
    /// endpoint as a whole, or joins the table behind the other entries.
    pub(crate) fn insert(&mut self, info: JudgeServerInfo)
        ensures
            final(self)@ == inserted(old(self)@, info@),
            old(self).wf() && info@.task_number >= 0 ==> final(self).wf(),
    {
        proof {
            if self.wf() && info@.task_number >= 0 {
                lemma_inserted_wf(self@, info@);
            }
        }
        match self.index_of(info.service_url.as_str()) {
            Some(i) => {
                self.entries.set(i, info);
                assert(self@ =~= inserted(old(self)@, info@));
            },
            None => {
                self.entries.push(info);
                assert(self@ =~= inserted(old(self)@, info@));
            },
        }
    }

    /// Counts one more task in flight on the server at `url`. Returns whether
    /// it did: an unknown endpoint, or a counter that is full, changes nothing.
    pub fn reserve(&mut self, url: &str) -> (done: bool)
        ensures
            done == can_reserve(old(self)@, url@),
            final(self)@ == reserved(old(self)@, url@),
            old(self).wf() ==> final(self).wf(),
    {
        proof {
            if self.wf() {
                lemma_reserved_released_wf(self@, url@);
            }
        }
        match self.index_of(url) {
            Some(i) => {
                if self.entries[i].task_number < i32::MAX {
                    self.entries[i].task_number = self.entries[i].task_number + 1;
                    assert(self@ =~= reserved(old(self)@, url@));
                    true
                } else {
                    false
                }
            },
            None => false,
        }
    }

    /// Counts one task less in flight on the server at `url`. Returns whether
    /// it did: an unknown endpoint, or a server without a task in flight,
    /// changes nothing.
    pub fn release(&mut self, url: &str) -> (done: bool)
        ensures
            done == can_release(old(self)@, url@),
            final(self)@ == released(old(self)@, url@),
            old(self).wf() ==> final(self).wf(),
    {
        proof {
            if self.wf() {
                lemma_reserved_released_wf(self@, url@);
            }
        }
        match self.index_of(url) {
            Some(i) => {
                if self.entries[i].task_number > 0 {
                    self.entries[i].task_number = self.entries[i].task_number - 1;
                    assert(self@ =~= released(old(self)@, url@));
                    true
                } else {
                    false
                }
            },
            None => false,
        }
    }
}

} // verus!
