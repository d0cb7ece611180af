//! The registry of live sessions: for each agent name, the session that owns
//! it and the sending end of that session's bounded outbound queue. A name has
//! at most one entry; registering it again supersedes the old session, whose
//! queue closes once its sender is dropped.

use vstd::prelude::*;
use crate::codec::Command;

verus! {

#[verifier::external_type_specification]
#[verifier::external_body]
#[verifier::reject_recursive_types(T)]
pub struct ExSender<T>(tokio::sync::mpsc::Sender<T>);

#[verifier::external_type_specification]
#[verifier::external_body]
#[verifier::reject_recursive_types(T)]
pub struct ExReceiver<T>(tokio::sync::mpsc::Receiver<T>);

/// How many commands may wait for one agent before dispatch fails fast.
pub const OUTBOUND_CAPACITY: usize = 8;

/// What became of one attempt to queue a command.
#[derive(Debug, Clone, Copy, PartialEq, Eq, Structural)]
pub enum SendOutcome {
    Queued,
    /// The queue holds as many commands as it may.
    Full,
    /// The receiving session has gone.
    Closed,
}

/// Relies on `tokio::sync::mpsc::channel`, which panics on a zero capacity
/// and on one above its semaphore's limit, `usize::MAX >> 3`.
#[verifier::external_body]
fn bounded_channel(capacity: usize) -> (r: (
    tokio::sync::mpsc::Sender<Command>,
    tokio::sync::mpsc::Receiver<Command>,
))
    requires
        0 < capacity <= usize::MAX >> 3,
{
    tokio::sync::mpsc::channel(capacity)
}

/// Relies on `tokio::sync::mpsc::Sender::try_send`, which never waits; what
/// it returns depends on the receiving side.
#[verifier::external_body]
fn try_send(tx: &tokio::sync::mpsc::Sender<Command>, c: Command) -> (r: SendOutcome) {
    match tx.try_send(c) {
        Ok(()) => SendOutcome::Queued,
        Err(tokio::sync::mpsc::error::TrySendError::Full(_)) => SendOutcome::Full,
        Err(tokio::sync::mpsc::error::TrySendError::Closed(_)) => SendOutcome::Closed,
    }
}

/// A new outbound queue for one session, holding at most `OUTBOUND_CAPACITY`
/// commands.
pub fn outbound_queue() -> (r: (
    tokio::sync::mpsc::Sender<Command>,
    tokio::sync::mpsc::Receiver<Command>,
)) {
    proof {
        vstd::bits::lemma_usize_shr_is_div(usize::MAX, 3);
        vstd::arithmetic::power2::lemma2_to64();
    }
    bounded_channel(OUTBOUND_CAPACITY)
}

/// Why a command could not be queued.
#[derive(Debug, Clone, Copy, PartialEq, Eq, Structural)]
pub enum DispatchError {
    /// No session holds the name, or its session has gone.
    NotConnected,
    /// The agent's queue is full.
    QueueFull,
}

pub open spec fn dispatch_result_of(o: SendOutcome) -> Result<(), DispatchError> {
    match o {
        SendOutcome::Queued => Ok(()),
        SendOutcome::Full => Err(DispatchError::QueueFull),
        SendOutcome::Closed => Err(DispatchError::NotConnected),
    }
}

/// What a dispatch reports for what the queue did with the command.
pub fn dispatch_result(o: SendOutcome) -> (r: Result<(), DispatchError>)
    ensures
        r == dispatch_result_of(o),
{
    match o {
        SendOutcome::Queued => Ok(()),
        SendOutcome::Full => Err(DispatchError::QueueFull),
        SendOutcome::Closed => Err(DispatchError::NotConnected),
    }
}

/// The registry after `name` is registered for `session`.
pub open spec fn after_register(m: Map<Seq<char>, u64>, name: Seq<char>, session: u64) -> Map<
    Seq<char>,
    u64,
> {
    m.insert(name, session)
}

/// The registry after `session` of `name` tears down: its entry goes only if
/// the session still owns it.
pub open spec fn after_unregister(m: Map<Seq<char>, u64>, name: Seq<char>, session: u64) -> Map<
    Seq<char>,
    u64,
> {
    if m.contains_key(name) && m[name] == session {
        m.remove(name)
    } else {
        m
    }
}

struct Entry {
    name: String,
    session: u64,
    handle: tokio::sync::mpsc::Sender<Command>,
}

/// The result of a registration.
#[derive(Debug, Clone, Copy, PartialEq, Eq, Structural)]
pub struct Registered {
    /// The number of the new session.
    pub session: u64,
    /// The session that held the name before, whose queue is now closed.
    pub superseded: Option<u64>,
}

/// The live sessions, by agent name.
pub struct Registry {
    entries: Vec<Entry>,
    next_session: u64,
    model: Ghost<Map<Seq<char>, u64>>,
}

impl View for Registry {
    type V = Map<Seq<char>, u64>;

    closed spec fn view(&self) -> Map<Seq<char>, u64> {
        self.model@
    }
}

impl Registry {
    /// Each name has one entry, and the model maps it to that entry's session.
    pub closed spec fn wf(&self) -> bool {
        &&& forall|i: int, j: int|
            0 <= i < j < self.entries@.len() ==> #[trigger] self.entries@[i].name@
                != #[trigger] self.entries@[j].name@
        &&& forall|i: int|
            0 <= i < self.entries@.len() ==> self.model@.contains_key(
                #[trigger] self.entries@[i].name@,
            ) && self.model@[self.entries@[i].name@] == self.entries@[i].session
        &&& forall|k: Seq<char>|
            #[trigger] self.model@.contains_key(k) ==> exists|i: int|
                0 <= i < self.entries@.len() && #[trigger] self.entries@[i].name@ == k
        &&& forall|i: int|
            0 <= i < self.entries@.len() ==> #[trigger] self.entries@[i].session
                < self.next_session
    }

    /// The sending end of the queue of the session that holds `k`.
    pub closed spec fn spec_handle(&self, k: Seq<char>) -> tokio::sync::mpsc::Sender<Command> {
        self.entries@[choose|i: int| 0 <= i < self.entries@.len() && #[trigger] self.entries@[i].name@ == k].handle
    }

    /// The number that the next registration will get.
    pub closed spec fn spec_next_session(&self) -> u64 {
        self.next_session
    }

    /// An empty registry.
    pub fn new() -> (r: Registry)
        ensures
            r.wf(),
            r@ == Map::<Seq<char>, u64>::empty(),
    {
        Registry { entries: Vec::new(), next_session: 0, model: Ghost(Map::empty()) }
    }

    fn find(&self, name: &String) -> (r: Option<usize>)
        requires
            self.wf(),
        ensures
            r matches Some(i) ==> i < self.entries@.len() && self.entries@[i as int].name@
                == name@,
            r is None ==> !self@.contains_key(name@),
    {
        let mut i: usize = 0;
        while i < self.entries.len()
            invariant
                self.wf(),
                i <= self.entries@.len(),
                forall|j: int| 0 <= j < i ==> #[trigger] self.entries@[j].name@ != name@,
            decreases self.entries@.len() - i,
        {
            if self.entries[i].name == *name {
                return Some(i);
            }
            i = i + 1;
        }
        None
    }

    /// Whether a session holds `name`.
    pub fn contains(&self, name: &String) -> (r: bool)
        requires
            self.wf(),
        ensures
            r == self@.contains_key(name@),
    {
        match self.find(name) {
            Some(_) => true,
            None => false,
        }
    }

    /// The session that holds `name`, if any.
    pub fn session_of(&self, name: &String) -> (r: Option<u64>)
        requires
            self.wf(),
        ensures
            r is Some <==> self@.contains_key(name@),
            r matches Some(s) ==> s == self@[name@],
    {
        match self.find(name) {
            Some(i) => Some(self.entries[i].session),
            None => None,
        }
    }

    /// Gives `name` to a new session whose queue `handle` feeds. A session
    /// that held the name before is superseded: its sender is dropped, so its
    /// queue closes. Refused (`None`) only once every session number is spent.
    pub fn register(&mut self, name: String, handle: tokio::sync::mpsc::Sender<Command>) -> (r:
        Option<Registered>)
        requires
            old(self).wf(),
        ensures
            final(self).wf(),
            r is None <==> old(self).spec_next_session() == u64::MAX,
            r is None ==> final(self)@ == old(self)@,
            r matches Some(reg) ==> {
                &&& reg.session == old(self).spec_next_session()
                &&& final(self)@ == after_register(old(self)@, name@, reg.session)
                &&& reg.superseded == (if old(self)@.contains_key(name@) {
                    Some(old(self)@[name@])
                } else {
                    None
                })
                &&& reg.superseded matches Some(s) ==> s < reg.session
                &&& final(self).spec_handle(name@) == handle
                &&& final(self).spec_next_session() == reg.session + 1
            },
            forall|k: Seq<char>|
                k != name@ && #[trigger] old(self)@.contains_key(k) ==> final(self).spec_handle(k)
                    == old(self).spec_handle(k),
    {
        if self.next_session == u64::MAX {
            return None;
        }
        let session = self.next_session;
        let found = self.find(&name);
        let ghost key = name@;
        let superseded = match found {
            Some(i) => {
                let old_session = self.entries[i].session;
                let entry = Entry { name, session, handle };
                self.entries.set(i, entry);
                Some(old_session)
            },
            None => {
                self.entries.push(Entry { name, session, handle });
                None
            },
        };
        self.next_session = session + 1;
        self.model = Ghost(self.model@.insert(key, session));
        proof {
            let m = self.model@;
            assert forall|k: Seq<char>| #[trigger] m.contains_key(k) implies exists|i: int|
                0 <= i < self.entries@.len() && #[trigger] self.entries@[i].name@ == k by {
                if k != key {
                    let i = choose|i: int|
                        0 <= i < old(self).entries@.len() && #[trigger] old(self).entries@[i].name@
                            == k;
                    assert(self.entries@[i].name@ == k);
                } else {
                    match found {
                        Some(i) => assert(self.entries@[i as int].name@ == k),
                        None => assert(self.entries@[self.entries@.len() - 1].name@ == k),
                    }
                }
            }
            let idx: int = match found {
                Some(i) => i as int,
                None => self.entries@.len() - 1,
            };
            self.lemma_index_of(idx);
            match found {
                Some(i) => assert(old(self).entries@[i as int].session < old(self).next_session),
                None => {},
            }
            assert forall|k: Seq<char>|
                k != key && #[trigger] old(self)@.contains_key(k) implies self.spec_handle(k)
                == old(self).spec_handle(k) by {
                let j = choose|j: int|
                    0 <= j < old(self).entries@.len() && #[trigger] old(self).entries@[j].name@
                        == k;
                old(self).lemma_index_of(j);
                assert(self.entries@[j] == old(self).entries@[j]);
                self.lemma_index_of(j);
            }
        }
        Some(Registered { session, superseded })
    }

    /// Tears down `session` of `name`: its entry goes if that session still
    /// holds the name; a later session's entry is left in place.
    pub fn unregister(&mut self, name: &String, session: u64) -> (removed: bool)
        requires
            old(self).wf(),
        ensures
            final(self).wf(),
            removed == (old(self)@.contains_key(name@) && old(self)@[name@] == session),
            final(self)@ == after_unregister(old(self)@, name@, session),
            final(self).spec_next_session() == old(self).spec_next_session(),
            forall|k: Seq<char>|
                k != name@ && #[trigger] old(self)@.contains_key(k) ==> final(self).spec_handle(k)
                    == old(self).spec_handle(k),
    {
        match self.find(name) {
            Some(i) => {
                if self.entries[i].session == session {
                    let ghost before = self.entries@;
                    let _gone = self.entries.remove(i);
                    self.model = Ghost(self.model@.remove(name@));
                    proof {
                        let m = self.model@;
                        assert forall|k: Seq<char>| #[trigger] m.contains_key(k) implies exists|
                            j: int,
                        |
                            0 <= j < self.entries@.len() && #[trigger] self.entries@[j].name@
                                == k by {
                            let j = choose|j: int|
                                0 <= j < before.len() && #[trigger] before[j].name@ == k;
                            if j < i {
                                assert(self.entries@[j].name@ == k);
                            } else {
                                assert(j != i);
                                assert(self.entries@[j - 1].name@ == k);
                            }
                        }
                        assert forall|a: int, b: int|
                            0 <= a < b < self.entries@.len() implies #[trigger] self.entries@[a].name@
                            != #[trigger] self.entries@[b].name@ by {
                            let a0 = if a < i { a } else { a + 1 };
                            let b0 = if b < i { b } else { b + 1 };
                            assert(self.entries@[a] == before[a0]);
                            assert(self.entries@[b] == before[b0]);
                        }
                        assert forall|j: int|
                            0 <= j < self.entries@.len() implies m.contains_key(
                            #[trigger] self.entries@[j].name@,
                        ) && m[self.entries@[j].name@] == self.entries@[j].session by {
                            let j0 = if j < i { j } else { j + 1 };
                            assert(self.entries@[j] == before[j0]);
                            assert(j0 != i);
                        }
                        assert forall|k: Seq<char>|
                            k != name@ && #[trigger] old(self)@.contains_key(k) implies self.spec_handle(k)
                            == old(self).spec_handle(k) by {
                            let j = choose|j: int|
                                0 <= j < before.len() && #[trigger] before[j].name@ == k;
                            old(self).lemma_index_of(j);
                            let j1 = if j < i { j } else { j - 1 };
                            assert(j != i);
                            assert(self.entries@[j1] == before[j]);
                            self.lemma_index_of(j1);
                        }
                    }
                    true
                } else {
                    false
                }
            },
            None => false,
        }
    }

    /// The sending end of the queue of the session that holds `name`: the
    /// handle that registered it.
    pub fn queue_of(&self, name: &String) -> (r: Option<&tokio::sync::mpsc::Sender<Command>>)
        requires
            self.wf(),
        ensures
            r is None <==> !self@.contains_key(name@),
            r matches Some(h) ==> *h == self.spec_handle(name@),
    {
        match self.find(name) {
            Some(i) => {
                proof {
                    self.lemma_index_of(i as int);
                }
                Some(&self.entries[i].handle)
            },
            None => None,
        }
    }

    /// Queues `cmd` for the agent `name` without waiting, on the queue that
    /// `queue_of` gives. A name that no session holds is `NotConnected` and
    /// nothing is sent; otherwise the result is what that queue did with the
    /// command (`dispatch_result`), which depends on the receiving session.
    pub fn dispatch(&self, name: &String, cmd: Command) -> (r: Result<(), DispatchError>)
        requires
            self.wf(),
        ensures
            !self@.contains_key(name@) ==> r == Err::<(), DispatchError>(
                DispatchError::NotConnected,
            ),
    {
        match self.queue_of(name) {
            Some(h) => dispatch_result(try_send(h, cmd)),
            None => Err(DispatchError::NotConnected),
        }
    }

    /// The entry at `i` is the one `spec_handle` picks for its name.
    proof fn lemma_index_of(&self, i: int)
        requires
            self.wf(),
            0 <= i < self.entries@.len(),
        ensures
            self.spec_handle(self.entries@[i].name@) == self.entries@[i].handle,
            self@.contains_key(self.entries@[i].name@),
    {
        let k = self.entries@[i].name@;
        let j = choose|j: int| 0 <= j < self.entries@.len() && #[trigger] self.entries@[j].name@ == k;
        if j != i {
            if j < i {
                assert(self.entries@[j].name@ != self.entries@[i].name@);
            } else {
                assert(self.entries@[i].name@ != self.entries@[j].name@);
            }
        }
    }

    /// Every session the registry holds has a number below the next one, so
    /// a new registration never reuses a held number.
    pub proof fn lemma_sessions_below_next(&self)
        requires
            self.wf(),
        ensures
            forall|k: Seq<char>| #[trigger] self@.contains_key(k) ==> self@[k] < self.spec_next_session(),
    {
        assert forall|k: Seq<char>| #[trigger] self@.contains_key(k) implies self@[k] < self.spec_next_session() by {
            let i = choose|i: int| 0 <= i < self.entries@.len() && #[trigger] self.entries@[i].name@ == k;
            assert(self.model@[self.entries@[i].name@] == self.entries@[i].session);
        }
    }
}

/// Registering a session under a name and then tearing that session down
/// leaves the name with no session, whatever the registry held before; a
/// dispatch to it is then `NotConnected`. (That a name never has two
/// entries is `Registry::wf`, which every operation keeps.)
pub proof fn lemma_teardown_frees_name(m: Map<Seq<char>, u64>, name: Seq<char>, session: u64)
    ensures
        !after_unregister(after_register(m, name, session), name, session).contains_key(name),
{
}

/// The teardown of a superseded session leaves the session that replaced it
/// registered.
pub proof fn lemma_superseded_teardown_keeps_successor(
    m: Map<Seq<char>, u64>,
    name: Seq<char>,
    old_session: u64,
    new_session: u64,
)
    requires
        old_session != new_session,
    ensures
        after_unregister(
            after_register(after_register(m, name, old_session), name, new_session),
            name,
            old_session,
        ) == after_register(m, name, new_session),
{
    assert(after_register(after_register(m, name, old_session), name, new_session)
        =~= after_register(m, name, new_session));
}

} // verus!
