//! The per-tournament publish/subscribe registry: one bounded broadcast
//! channel per room, created on first subscription.
use vstd::prelude::*;
use dashmap::DashMap;
use tokio::sync::broadcast::{Receiver, Sender};
use crate::events::TournamentEvent;
use crate::ids::ObjectId;

verus! {

#[verifier::external_type_specification]
#[verifier::external_body]
#[verifier::reject_recursive_types(K)]
#[verifier::reject_recursive_types(V)]
#[verifier::reject_recursive_types(S)]
pub struct ExDashMap<K, V, S>(DashMap<K, V, S>);

#[verifier::external_type_specification]
#[verifier::external_body]
#[verifier::reject_recursive_types(T)]
pub struct ExSender<T>(Sender<T>);

#[verifier::external_type_specification]
#[verifier::external_body]
#[verifier::reject_recursive_types(T)]
pub struct ExReceiver<T>(Receiver<T>);

/// How many events a room buffers for a subscriber that falls behind.
pub const CHANNEL_CAPACITY: usize = 100;

/// The rooms a registry holds, by key.
pub uninterp spec fn room_keys(m: DashMap<(u32, u64), Sender<TournamentEvent>>) -> Set<(u32, u64)>;

/// Relies on `DashMap::new`: the map starts empty.
#[verifier::external_body]
fn rooms_new() -> (r: DashMap<(u32, u64), Sender<TournamentEvent>>)
    ensures
        room_keys(r) == Set::<(u32, u64)>::empty(),
{
    DashMap::new()
}

/// Relies on `DashMap::insert`: afterwards `k` is held, and nothing else changed.
#[verifier::external_body]
fn rooms_insert(
    m: &mut DashMap<(u32, u64), Sender<TournamentEvent>>,
    k: (u32, u64),
    s: Sender<TournamentEvent>,
)
    ensures
        room_keys(*final(m)) == room_keys(*old(m)).insert(k),
{
    m.insert(k, s);
}

/// Relies on `DashMap::remove`: afterwards `k` is no longer held, and nothing
/// else changed.
#[verifier::external_body]
fn rooms_remove(m: &mut DashMap<(u32, u64), Sender<TournamentEvent>>, k: (u32, u64))
    ensures
        room_keys(*final(m)) == room_keys(*old(m)).remove(k),
{
    m.remove(&k);
}

/// Relies on `DashMap::len`: the number of keys held.
#[verifier::external_body]
fn rooms_len(m: &DashMap<(u32, u64), Sender<TournamentEvent>>) -> (r: usize)
    ensures
        r == room_keys(*m).len(),
{
    m.len()
}

/// Relies on `DashMap::iter`: each key held, once.
#[verifier::external_body]
fn rooms_list(m: &DashMap<(u32, u64), Sender<TournamentEvent>>) -> (r: Vec<(u32, u64)>)
    ensures
        r@.to_set() == room_keys(*m),
        r@.no_duplicates(),
{
    m.iter().map(|e| *e.key()).collect()
}

/// Relies on `DashMap::get`: a handle on `k`'s sender (a clone of it) exactly
/// when `k` is held.
#[verifier::external_body]
fn rooms_get(m: &DashMap<(u32, u64), Sender<TournamentEvent>>, k: (u32, u64)) -> (r: Option<
    Sender<TournamentEvent>,
>)
    ensures
        r is Some <==> room_keys(*m).contains(k),
{
    m.get(&k).map(|s| s.value().clone())
}

/// Relies on tokio's `broadcast::channel`, which panics on a capacity of zero:
/// a sender and its first receiver.
#[verifier::external_body]
fn open_channel(capacity: usize) -> (r: (Sender<TournamentEvent>, Receiver<TournamentEvent>))
    requires
        0 < capacity <= usize::MAX / 2,
{
    tokio::sync::broadcast::channel(capacity)
}

/// Relies on tokio's `Sender::subscribe`: a receiver of the events sent from
/// now on.
#[verifier::external_body]
fn sender_subscribe(s: &Sender<TournamentEvent>) -> (r: Receiver<TournamentEvent>) {
    s.subscribe()
}

/// Relies on tokio's `Sender::send`, whose only failure is having no live
/// receiver; that failure is ignored.
#[verifier::external_body]
fn sender_send(s: &Sender<TournamentEvent>, e: TournamentEvent) {
    let _ = s.send(e);
}

/// Relies on tokio's `Sender::receiver_count`: the live receivers at the time
/// of the call, which other tasks change by dropping theirs.
#[verifier::external_body]
fn sender_receivers(s: &Sender<TournamentEvent>) -> (r: usize) {
    s.receiver_count()
}

/// The rooms of `counts` (pairs of a room and its live subscribers) that have
/// no subscriber left, in order.
pub open spec fn idle(counts: Seq<((u32, u64), usize)>) -> Seq<(u32, u64)>
    decreases counts.len(),
{
    if counts.len() == 0 {
        Seq::empty()
    } else {
        let rest = idle(counts.drop_last());
        if counts.last().1 == 0 {
            rest.push(counts.last().0)
        } else {
            rest
        }
    }
}

/// The rooms among `counts` whose subscriber count is zero.
pub fn idle_rooms(counts: &Vec<((u32, u64), usize)>) -> (r: Vec<(u32, u64)>)
    ensures
        r@ == idle(counts@),
{
    let mut r: Vec<(u32, u64)> = Vec::new();
    let mut i: usize = 0;
    while i < counts.len()
        invariant
            i <= counts@.len(),
            r@ == idle(counts@.subrange(0, i as int)),
        decreases counts@.len() - i,
    {
        assert(counts@.subrange(0, i as int + 1).drop_last() =~= counts@.subrange(0, i as int));
        let (k, n) = counts[i];
        if n == 0 {
            r.push(k);
        }
        i = i + 1;
    }
    assert(counts@.subrange(0, counts@.len() as int) =~= counts@);
    r
}

/// Live rooms, one per tournament that has had a subscriber.
pub struct TournamentBroadcaster {
    rooms: DashMap<(u32, u64), Sender<TournamentEvent>>,
}

impl TournamentBroadcaster {
    /// A registry holds finitely many rooms.
    #[verifier::type_invariant]
    spec fn finitely_many(self) -> bool {
        room_keys(self.rooms).finite()
    }

    /// The keys of the rooms held.
    pub closed spec fn room_ids(&self) -> Set<(u32, u64)> {
        room_keys(self.rooms)
    }

    pub fn new() -> (r: TournamentBroadcaster)
        ensures
            r.room_ids() == Set::<(u32, u64)>::empty(),
            r.room_ids().finite(),
    {
        TournamentBroadcaster { rooms: rooms_new() }
    }

    /// A new subscription to `tournament_id`'s room, created if it does not
    /// exist yet; it receives the events published from now on.
    pub fn subscribe(&mut self, tournament_id: &ObjectId) -> (r: Receiver<TournamentEvent>)
        ensures
            final(self).room_ids() == old(self).room_ids().insert(tournament_id.key()),
            final(self).room_ids().finite(),
    {
        proof {
            use_type_invariant(&*self);
        }
        let k = tournament_id.key();
        match rooms_get(&self.rooms, k) {
            Some(s) => {
                assert(self.room_ids().insert(k) =~= self.room_ids());
                sender_subscribe(&s)
            },
            None => {
                let (s, rx) = open_channel(CHANNEL_CAPACITY);
                let mut rooms = rooms_new();
                std::mem::swap(&mut rooms, &mut self.rooms);
                rooms_insert(&mut rooms, k, s);
                self.rooms = rooms;
                rx
            },
        }
    }

    /// Sends `event` to every current subscriber of `tournament_id`'s room. A
    /// room that does not exist, or has no subscriber, drops the event.
    pub fn broadcast(&self, tournament_id: &ObjectId, event: TournamentEvent) {
        if let Some(s) = rooms_get(&self.rooms, tournament_id.key()) {
            sender_send(&s, event);
        }
    }

    /// Removes the rooms that have no subscriber left. Returns each room that
    /// was held with the number of live subscribers it had when looked at;
    /// exactly the rooms counted at zero are removed.
    pub fn cleanup(&mut self) -> (r: Vec<((u32, u64), usize)>)
        ensures
            r@.map_values(|p: ((u32, u64), usize)| p.0).to_set() == old(self).room_ids(),
            final(self).room_ids() == old(self).room_ids().difference(idle(r@).to_set()),
            final(self).room_ids().finite(),
    {
        proof {
            use_type_invariant(&*self);
        }
        let keys = rooms_list(&self.rooms);
        let mut counts: Vec<((u32, u64), usize)> = Vec::new();
        let mut i: usize = 0;
        while i < keys.len()
            invariant
                i <= keys@.len(),
                keys@.to_set() == self.room_ids(),
                counts@.len() == i,
                forall|j: int| 0 <= j < i ==> (#[trigger] counts@[j]).0 == keys@[j],
            decreases keys@.len() - i,
        {
            let k = keys[i];
            assert(keys@.contains(k) && keys@.to_set().contains(k));
            match rooms_get(&self.rooms, k) {
                Some(s) => {
                    counts.push((k, sender_receivers(&s)));
                },
                None => {
                    assert(false);
                },
            }
            i = i + 1;
        }
        assert(counts@.map_values(|p: ((u32, u64), usize)| p.0) =~= keys@);
        let idle_keys = idle_rooms(&counts);
        let ghost before = self.room_ids();
        let mut rooms = rooms_new();
        std::mem::swap(&mut rooms, &mut self.rooms);
        let mut j: usize = 0;
        while j < idle_keys.len()
            invariant
                j <= idle_keys@.len(),
                before.finite(),
                room_keys(rooms) == before.difference(idle_keys@.subrange(0, j as int).to_set()),
            decreases idle_keys@.len() - j,
        {
            let ghost done = idle_keys@.subrange(0, j as int);
            rooms_remove(&mut rooms, idle_keys[j]);
            proof {
                assert(idle_keys@.subrange(0, j as int + 1) =~= done.push(idle_keys@[j as int]));
                done.lemma_push_to_set_commute(idle_keys@[j as int]);
                assert(before.difference(done.to_set()).remove(idle_keys@[j as int]) =~= before.difference(
                    done.push(idle_keys@[j as int]).to_set(),
                ));
            }
            j = j + 1;
        }
        assert(idle_keys@.subrange(0, idle_keys@.len() as int) =~= idle_keys@);
        self.rooms = rooms;
        counts
    }

    /// The live subscribers of `tournament_id`'s room; zero when there is no
    /// such room.
    pub fn subscriber_count(&self, tournament_id: &ObjectId) -> (r: usize)
        ensures
            !self.room_ids().contains(tournament_id.key()) ==> r == 0,
    {
        match rooms_get(&self.rooms, tournament_id.key()) {
            Some(s) => sender_receivers(&s),
            None => 0,
        }
    }

    /// The number of rooms held.
    pub fn room_count(&self) -> (r: usize)
        ensures
            r == self.room_ids().len(),
            self.room_ids().finite(),
    {
        proof {
            use_type_invariant(self);
        }
        rooms_len(&self.rooms)
    }
}

} // verus!
