use vstd::prelude::*;

verus! {

/// What changed, so that a cached view of it must be considered stale.
#[derive(Clone, Copy, Debug, PartialEq, Eq, Structural)]
pub enum EntityChange {
    AllPodcasts,
    Podcast(i32),
    PodcastEpisodes(i32),
    Episode(i32),
}

/// Why a publish reached nobody.
#[derive(Clone, Copy, Debug, PartialEq, Eq, Structural)]
pub enum BusError {
    /// No observer is registered.
    NoObserver,
}

/// One event handed to one observer.
#[derive(Clone, Copy, Debug, PartialEq, Eq, Structural)]
pub struct Delivery {
    pub observer: u64,
    pub event: EntityChange,
}

/// The registry of observers of domain changes. A publish reaches exactly the
/// observers registered at that moment, in registration order; nothing is kept
/// for observers that register later.
pub struct ChangeBus {
    observers: Vec<u64>,
}

impl View for ChangeBus {
    type V = Seq<u64>;

    closed spec fn view(&self) -> Seq<u64> {
        self.observers@
    }
}

impl ChangeBus {
    /// No observer is registered twice.
    pub open spec fn wf(&self) -> bool {
        self@.no_duplicates()
    }

    pub fn new() -> (r: ChangeBus)
        ensures
            r@ == Seq::<u64>::empty(),
            r.wf(),
    {
        ChangeBus { observers: Vec::new() }
    }

    fn position_of(&self, observer: u64) -> (r: Option<usize>)
        ensures
            r matches Some(i) ==> i < self@.len() && self@[i as int] == observer,
            r is None ==> !self@.contains(observer),
    {
        let mut i: usize = 0;
        while i < self.observers.len()
            invariant
                i <= self@.len(),
                forall|j: int| 0 <= j < i ==> self@[j] != observer,
            decreases self@.len() - i,
        {
            if self.observers[i] == observer {
                return Some(i);
            }
            i = i + 1;
        }
        None
    }

    /// Registers an observer; registering one that is already registered
    /// changes nothing. Returns whether it was added.
    pub fn subscribe(&mut self, observer: u64) -> (r: bool)
        requires
            old(self).wf(),
        ensures
            final(self).wf(),
            r == !old(self)@.contains(observer),
            r ==> final(self)@ == old(self)@.push(observer),
            !r ==> final(self)@ == old(self)@,
    {
        if self.position_of(observer).is_some() {
            return false;
        }
        self.observers.push(observer);
        proof {
            assert forall|a: int, b: int|
                0 <= a < b < self@.len() implies self@[a] != self@[b] by {
                if b == self@.len() - 1 {
                    assert(old(self)@.contains(old(self)@[a]));
                }
            }
        }
        true
    }

    /// Removes an observer. Returns whether it was registered.
    pub fn unsubscribe(&mut self, observer: u64) -> (r: bool)
        requires
            old(self).wf(),
        ensures
            final(self).wf(),
            r == old(self)@.contains(observer),
            final(self)@ == old(self)@.remove_value(observer),
    {
        match self.position_of(observer) {
            None => {
                proof {
                    old(self)@.index_of_first_ensures(observer);
                }
                false
            },
            Some(i) => {
                proof {
                    old(self)@.index_of_first_ensures(observer);
                    let k = old(self)@.index_of_first(observer).unwrap();
                    assert(k == i as int);
                }
                self.observers.remove(i);
                proof {
                    assert(final(self)@ =~= old(self)@.remove_value(observer));
                    assert forall|a: int, b: int|
                        0 <= a < b < self@.len() implies self@[a] != self@[b] by {
                        let a0 = if a < i { a } else { a + 1 };
                        let b0 = if b < i { b } else { b + 1 };
                        assert(self@[a] == old(self)@[a0]);
                        assert(self@[b] == old(self)@[b0]);
                    }
                }
                true
            },
        }
    }

    pub fn observers(&self) -> (r: Vec<u64>)
        ensures
            r@ == self@,
    {
        self.observers.clone()
    }

    /// The deliveries of `event`: one to each registered observer, in order of
    /// registration. Fails when no observer is registered.
    pub fn publish(&self, event: EntityChange) -> (r: Result<Vec<Delivery>, BusError>)
        ensures
            self@.len() == 0 ==> r == Err::<Vec<Delivery>, BusError>(BusError::NoObserver),
            self@.len() > 0 ==> (r matches Ok(ds) && ds@ == deliveries(self@, event)),
    {
        if self.observers.len() == 0 {
            return Err(BusError::NoObserver);
        }
        let mut ds: Vec<Delivery> = Vec::new();
        let mut i: usize = 0;
        while i < self.observers.len()
            invariant
                i <= self@.len(),
                ds@ == deliveries(self@.take(i as int), event),
            decreases self@.len() - i,
        {
            ds.push(Delivery { observer: self.observers[i], event });
            proof {
                assert(self@.take(i + 1).drop_last() =~= self@.take(i as int));
            }
            i = i + 1;
        }
        assert(self@.take(self@.len() as int) =~= self@);
        Ok(ds)
    }
}

/// The deliveries of `event` to `observers`, in their order.
pub open spec fn deliveries(observers: Seq<u64>, event: EntityChange) -> Seq<Delivery> {
    observers.map_values(|o: u64| Delivery { observer: o, event })
}

/// The changes announced after a sync of all podcasts: all podcasts, then for
/// each podcast, in order, the podcast and its episodes.
pub open spec fn sync_changes(ids: Seq<i32>) -> Seq<EntityChange>
    decreases ids.len(),
{
    if ids.len() == 0 {
        seq![EntityChange::AllPodcasts]
    } else {
        sync_changes(ids.drop_last()) + seq![
            EntityChange::Podcast(ids.last()),
            EntityChange::PodcastEpisodes(ids.last()),
        ]
    }
}

/// The changes to publish once all podcasts have been synced, given the ids of
/// the podcasts stored afterwards.
pub fn changes_after_sync(ids: &Vec<i32>) -> (r: Vec<EntityChange>)
    ensures
        r@ == sync_changes(ids@),
{
    let mut r: Vec<EntityChange> = Vec::new();
    r.push(EntityChange::AllPodcasts);
    let mut i: usize = 0;
    assert(ids@.take(0) =~= Seq::<i32>::empty());
    while i < ids.len()
        invariant
            i <= ids@.len(),
            r@ == sync_changes(ids@.take(i as int)),
        decreases ids@.len() - i,
    {
        let id = ids[i];
        r.push(EntityChange::Podcast(id));
        r.push(EntityChange::PodcastEpisodes(id));
        proof {
            assert(ids@.take(i + 1).drop_last() =~= ids@.take(i as int));
            assert(r@ =~= sync_changes(ids@.take(i + 1)));
        }
        i = i + 1;
    }
    assert(ids@.take(ids@.len() as int) =~= ids@);
    r
}

} // verus!
