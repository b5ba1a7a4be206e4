use vstd::prelude::*;

use crate::clock::wall_clock_millis;

verus! {

/// A value that carries a timestamp in milliseconds since the Unix epoch.
pub trait GetTime {
    spec fn time_spec(&self) -> u128;

    fn get_time(&self) -> (r: u128)
        ensures
            r == self.time_spec(),
    ;
}

/// Release delay of a fresh queue, in milliseconds.
pub const DEFAULT_TIME_BUFFER: u128 = 2000;

/// `s` is ordered by ascending timestamp.
pub open spec fn sorted_by_time<T: GetTime>(s: Seq<T>) -> bool {
    forall|i: int, j: int| 0 <= i <= j < s.len() ==> s[i].time_spec() <= s[j].time_spec()
}

/// An element stamped `t` may leave a queue with release delay `buffer` at `now`.
pub open spec fn is_ripe(t: u128, now: u128, buffer: u128) -> bool {
    now - t >= buffer
}

/// Milliseconds until an element stamped `t` may leave, saturated at `u128::MAX`.
pub open spec fn wait_until_ripe(t: u128, now: u128, buffer: u128) -> u128 {
    if is_ripe(t, now, buffer) {
        0
    } else if t + buffer - now > u128::MAX {
        u128::MAX
    } else {
        (t + buffer - now) as u128
    }
}

/// `s` holds an element that satisfies `f`.
pub open spec fn any_satisfies<T, F: Fn(&T) -> bool>(s: Seq<T>, f: F) -> bool {
    exists|i: int| 0 <= i < s.len() && f.ensures((&s[i],), true)
}

/// Successive pops hand out non-decreasing timestamps: in a well-formed queue,
/// which `new` and `insert` keep, the element that leaves first is no younger
/// than the one that leaves next.
pub proof fn lemma_pop_order<T: GetTime>(before: Seq<T>, first: T, after: Seq<T>, second: T)
    requires
        sorted_by_time(before),
        before.len() > 0,
        first == before[0],
        after == before.drop_first(),
        after.len() > 0,
        second == after[0],
    ensures
        first.time_spec() <= second.time_spec(),
{
    assert(second == before[1]);
}

/// A buffer that hands out its elements oldest first, and each only once it
/// is at least `time_buffer` milliseconds old. Every element is admitted on
/// insertion, however old; age is checked only on release.
pub struct TimeQueue<T: GetTime> {
    time_buffer: u128,
    elements: Vec<T>,
}

impl<T: GetTime> View for TimeQueue<T> {
    type V = Seq<T>;

    closed spec fn view(&self) -> Seq<T> {
        self.elements@
    }
}

impl<T: GetTime> TimeQueue<T> {
    /// The release delay in milliseconds.
    pub closed spec fn time_buffer(&self) -> u128 {
        self.time_buffer
    }

    /// Milliseconds from `now` until the oldest element may leave; the
    /// release delay when the queue is empty.
    pub open spec fn wait_at(&self, now: u128) -> u128 {
        if self@.len() == 0 {
            self.time_buffer()
        } else {
            wait_until_ripe(self@[0].time_spec(), now, self.time_buffer())
        }
    }

    pub open spec fn wf(&self) -> bool {
        sorted_by_time(self@)
    }

    /// An empty queue with the default release delay.
    pub fn new() -> (q: TimeQueue<T>)
        ensures
            q@ == Seq::<T>::empty(),
            q.time_buffer() == DEFAULT_TIME_BUFFER,
            q.wf(),
    {
        TimeQueue { time_buffer: DEFAULT_TIME_BUFFER, elements: Vec::new() }
    }

    /// Number of elements not yet released.
    pub fn len(&self) -> (r: usize)
        ensures
            r == self@.len(),
    {
        self.elements.len()
    }

    /// Adds `element` after every queued element that is not younger than it,
    /// keeping the queue ordered by timestamp.
    pub fn insert(&mut self, element: T)
        requires
            old(self).wf(),
        ensures
            final(self).wf(),
            final(self).time_buffer() == old(self).time_buffer(),
            exists|k: int|
                0 <= k <= old(self)@.len() && final(self)@ == old(self)@.insert(k, element)
                    && (forall|i: int| 0 <= i < k ==> old(self)@[i].time_spec() <= element.time_spec())
                    && (forall|i: int|
                    k <= i < old(self)@.len() ==> old(self)@[i].time_spec() > element.time_spec()),
    {
        let t = element.get_time();
        let mut k: usize = 0;
        while k < self.elements.len() && self.elements[k].get_time() <= t
            invariant
                k <= self.elements@.len(),
                self.elements@ == old(self).elements@,
                self.time_buffer == old(self).time_buffer,
                sorted_by_time(self.elements@),
                forall|i: int| 0 <= i < k ==> self.elements@[i].time_spec() <= t,
            decreases self.elements@.len() - k,
        {
            k = k + 1;
        }
        let ghost before = self.elements@;
        self.elements.insert(k, element);
        proof {
            let after = self.elements@;
            assert forall|i: int| k <= i < before.len() implies before[i].time_spec() > t by {
                assert(before[k as int].time_spec() > t);
                assert(before[k as int].time_spec() <= before[i].time_spec());
            }
            assert forall|i: int, j: int| 0 <= i <= j < after.len() implies after[i].time_spec()
                <= after[j].time_spec() by {
                if i < k && j < k {
                    assert(after[i] == before[i] && after[j] == before[j]);
                } else if i < k && j > k {
                    assert(after[i] == before[i] && after[j] == before[j - 1]);
                } else if i > k {
                    assert(after[i] == before[i - 1] && after[j] == before[j - 1]);
                } else if i < k {
                    assert(after[i] == before[i]);
                } else if j > k {
                    assert(after[j] == before[j - 1]);
                }
            }
        }
    }

    /// Removes and returns the oldest element if it is at least the release
    /// delay old at time `now`; otherwise leaves the queue as it is.
    pub fn pop_at(&mut self, now: u128) -> (r: Option<T>)
        requires
            old(self).wf(),
        ensures
            final(self).wf(),
            final(self).time_buffer() == old(self).time_buffer(),
            r matches Some(e) ==> is_ripe(e.time_spec(), now, old(self).time_buffer()),
            if old(self)@.len() > 0 && is_ripe(old(self)@[0].time_spec(), now, old(self).time_buffer()) {
                r == Some(old(self)@[0]) && final(self)@ == old(self)@.drop_first()
            } else {
                r.is_none() && final(self)@ == old(self)@
            },
    {
        if self.elements.len() == 0 {
            return None;
        }
        let t = self.elements[0].get_time();
        if now >= t && now - t >= self.time_buffer {
            let e = self.elements.remove(0);
            assert(self.elements@ =~= old(self)@.drop_first());
            Some(e)
        } else {
            None
        }
    }

    /// `pop_at` at the current wall-clock time: whatever the clock shows, a
    /// returned element is the oldest one and leaves the queue.
    pub fn pop(&mut self) -> (r: Option<T>)
        requires
            old(self).wf(),
        ensures
            final(self).wf(),
            final(self).time_buffer() == old(self).time_buffer(),
            match r {
                Some(e) => old(self)@.len() > 0 && e == old(self)@[0] && final(self)@
                    == old(self)@.drop_first(),
                None => final(self)@ == old(self)@,
            },
    {
        let now = wall_clock_millis();
        self.pop_at(now as u128)
    }

    /// Milliseconds from `now` until the oldest element may leave, or the
    /// release delay when the queue is empty.
    pub fn most_recent_event_at(&self, now: u128) -> (r: u128)
        ensures
            r == self.wait_at(now),
    {
        if self.elements.len() == 0 {
            return self.time_buffer;
        }
        let t = self.elements[0].get_time();
        if now >= t && now - t >= self.time_buffer {
            0
        } else if now >= t {
            self.time_buffer - (now - t)
        } else if t - now > u128::MAX - self.time_buffer {
            u128::MAX
        } else {
            (t - now) + self.time_buffer
        }
    }

    /// `most_recent_event_at` on the wall clock.
    pub fn most_recent_event(&self) -> (r: u128)
        ensures
            exists|now: u128| r == #[trigger] self.wait_at(now),
    {
        let now = wall_clock_millis() as u128;
        let r = self.most_recent_event_at(now);
        assert(r == self.wait_at(now));
        r
    }

    /// Whether a not-yet-released element satisfies `f`. The queue is only read.
    pub fn find<F: Fn(&T) -> bool>(&self, f: F) -> (r: bool)
        requires
            forall|i: int| 0 <= i < self@.len() ==> f.requires((&self@[i],)),
        ensures
            r ==> any_satisfies(self@, f),
            !r ==> forall|i: int| 0 <= i < self@.len() ==> f.ensures((&self@[i],), false),
    {
        let mut i: usize = 0;
        while i < self.elements.len()
            invariant
                i <= self.elements@.len(),
                forall|j: int| 0 <= j < self@.len() ==> f.requires((&self@[j],)),
                forall|j: int| 0 <= j < i ==> f.ensures((&self@[j],), false),
            decreases self.elements@.len() - i,
        {
            let e = &self.elements[i];
            assert(f.requires((&self@[i as int],)));
            if f(e) {
                return true;
            }
            i = i + 1;
        }
        false
    }
}

} // verus!
