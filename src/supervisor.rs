use vstd::prelude::*;

use crate::registry::Registry;

verus! {

/// A live session: its number, which tells it apart from later sessions of
/// the same identity, and its cancellation token.
pub struct LiveSession<T> {
    pub number: u64,
    pub token: T,
}

/// Live sessions after a "connected" notification for `id`, and whether a
/// session is spawned for it: only when none is live yet.
pub open spec fn connect_step<T>(
    live: Map<Seq<char>, LiveSession<T>>,
    id: Seq<char>,
    entry: LiveSession<T>,
) -> (Map<Seq<char>, LiveSession<T>>, bool) {
    if live.contains_key(id) {
        (live, false)
    } else {
        (live.insert(id, entry), true)
    }
}

/// Whether `id` has a live session numbered `number`.
pub open spec fn owns<T>(live: Map<Seq<char>, LiveSession<T>>, id: Seq<char>, number: u64) -> bool {
    live.contains_key(id) && live[id].number == number
}

/// Owner of the device registries: which identities have a live session
/// (with its number and cancellation token) and which of them have a ready
/// device.
pub struct Supervisor<D, T> {
    pub devices: Registry<D>,
    pub sessions: Registry<LiveSession<T>>,
    pub next_number: u64,
}

impl<D, T> Supervisor<D, T> {
    /// Both registries are well formed, and every ready device belongs to a
    /// live session.
    pub open spec fn wf(&self) -> bool {
        &&& self.devices.wf()
        &&& self.sessions.wf()
        &&& self.devices.view().dom().subset_of(self.sessions.view().dom())
    }

    pub fn new() -> (r: Supervisor<D, T>)
        ensures
            r.wf(),
            r.devices.view() == Map::<Seq<char>, D>::empty(),
            r.sessions.view() == Map::<Seq<char>, LiveSession<T>>::empty(),
    {
        Supervisor { devices: Registry::new(), sessions: Registry::new(), next_number: 0 }
    }

    /// Handles a device found at startup or announced as connected. When the
    /// identity has no live session yet, records one with `token` and returns
    /// its number: the caller spawns it. A device that already has a live
    /// session is left alone.
    pub fn on_connected(&mut self, id: String, token: T) -> (r: Option<u64>)
        requires
            old(self).wf(),
        ensures
            final(self).wf(),
            (final(self).sessions.view(), r is Some) == connect_step(
                old(self).sessions.view(),
                id@,
                LiveSession { number: old(self).next_number, token },
            ),
            r matches Some(n) ==> n == old(self).next_number,
            r is Some ==> final(self).next_number == (if old(self).next_number < u64::MAX {
                (old(self).next_number + 1) as u64
            } else {
                0u64
            }),
            r is None ==> final(self).next_number == old(self).next_number,
            final(self).devices.view() == old(self).devices.view(),
    {
        if self.sessions.contains(&id) {
            None
        } else {
            let number = self.next_number;
            self.sessions.insert(id, LiveSession { number, token });
            self.next_number = if number < u64::MAX {
                number + 1
            } else {
                0
            };
            Some(number)
        }
    }

    /// Records the ready device of session `number` of `id`. A device whose
    /// session is no longer live is handed back.
    pub fn attach_device(&mut self, id: String, number: u64, dev: D) -> (r: Option<D>)
        requires
            old(self).wf(),
        ensures
            final(self).wf(),
            final(self).sessions.view() == old(self).sessions.view(),
            owns(old(self).sessions.view(), id@, number) ==> r is None
                && final(self).devices.view() == old(self).devices.view().insert(id@, dev),
            !owns(old(self).sessions.view(), id@, number) ==> r == Some(dev)
                && final(self).devices.view() == old(self).devices.view(),
    {
        let live = match self.sessions.get(&id) {
            Some(s) => s.number == number,
            None => false,
        };
        if live {
            self.devices.insert(id, dev);
            None
        } else {
            Some(dev)
        }
    }

    /// Forgets the session of `id` and its device after a disconnect
    /// notification. Returns the session's token so that the caller can
    /// cancel it.
    pub fn disconnect(&mut self, id: &String) -> (r: Option<T>)
        requires
            old(self).wf(),
        ensures
            final(self).wf(),
            final(self).sessions.view() == old(self).sessions.view().remove(id@),
            final(self).devices.view() == old(self).devices.view().remove(id@),
            r is Some <==> old(self).sessions.view().contains_key(id@),
            r matches Some(t) ==> t == old(self).sessions.view()[id@].token,
    {
        self.devices.remove(id);
        match self.sessions.remove(id) {
            Some(s) => Some(s.token),
            None => None,
        }
    }

    /// Forgets session `number` of `id` and its device when that session
    /// tears down. A later session of the same identity is left alone.
    pub fn end_session(&mut self, id: &String, number: u64) -> (r: Option<T>)
        requires
            old(self).wf(),
        ensures
            final(self).wf(),
            owns(old(self).sessions.view(), id@, number) ==> final(self).sessions.view() == old(
                self,
            ).sessions.view().remove(id@) && final(self).devices.view() == old(
                self,
            ).devices.view().remove(id@) && r == Some(old(self).sessions.view()[id@].token),
            !owns(old(self).sessions.view(), id@, number) ==> r is None && final(self).sessions.view()
                == old(self).sessions.view() && final(self).devices.view() == old(
                self,
            ).devices.view(),
    {
        let own = match self.sessions.get(id) {
            Some(s) => s.number == number,
            None => false,
        };
        if own {
            self.disconnect(id)
        } else {
            None
        }
    }

    /// Whether `id` has a live session.
    pub fn is_live(&self, id: &String) -> (r: bool)
        requires
            self.wf(),
        ensures
            r == self.sessions.view().contains_key(id@),
    {
        self.sessions.contains(id)
    }

    /// The ready device of `id`.
    pub fn device(&self, id: &String) -> (r: Option<&D>)
        requires
            self.wf(),
        ensures
            r is Some <==> self.devices.view().contains_key(id@),
            r matches Some(d) ==> *d == self.devices.view()[id@],
    {
        self.devices.get(id)
    }

    /// The token of `id`'s live session.
    pub fn token(&self, id: &String) -> (r: Option<&T>)
        requires
            self.wf(),
        ensures
            r is Some <==> self.sessions.view().contains_key(id@),
            r matches Some(t) ==> *t == self.sessions.view()[id@].token,
    {
        match self.sessions.get(id) {
            Some(s) => Some(&s.token),
            None => None,
        }
    }

    /// Identities of every live session: the ones to cancel at shutdown.
    pub fn live_ids(&self) -> (r: Vec<String>)
        requires
            self.wf(),
        ensures
            r@.len() == self.sessions.view().dom().len(),
            forall|k: Seq<char>|
                self.sessions.view().contains_key(k) <==> exists|i: int|
                    0 <= i < r@.len() && #[trigger] r@[i]@ == k,
    {
        self.sessions.ids()
    }
}

/// Two "connected" notifications for one identity leave exactly one live
/// session for it: the second never spawns, and the first spawns only when
/// none was live.
pub proof fn lemma_connected_twice<T>(
    live: Map<Seq<char>, LiveSession<T>>,
    id: Seq<char>,
    first: LiveSession<T>,
    second: LiveSession<T>,
)
    ensures
        ({
            let (after_first, spawned_first) = connect_step(live, id, first);
            let (after_second, spawned_second) = connect_step(after_first, id, second);
            &&& after_second.contains_key(id)
            &&& after_second.dom() == live.dom().insert(id)
            &&& spawned_first == !live.contains_key(id)
            &&& !spawned_second
            &&& after_second == after_first
        }),
{
    let (after_first, _) = connect_step(live, id, first);
    assert(after_first.dom() =~= live.dom().insert(id));
}

} // verus!
