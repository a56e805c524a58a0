use vstd::prelude::*;

use crate::track::{Item, ItemView, TrackId};

verus! {

/// The views of a sequence of items.
pub open spec fn views(s: Seq<Item>) -> Seq<ItemView> {
    s.map_values(|i: Item| i@)
}

/// `s` with the entries at `0` and `n` exchanged.
pub open spec fn swapped<A>(s: Seq<A>, n: int) -> Seq<A> {
    s.update(0, s[n]).update(n, s[0])
}

/// Whether item `i` was requested by `user`.
pub open spec fn by_user(i: ItemView, user: Seq<char>) -> bool {
    i.user == Some(user)
}

/// The number of items in `s` requested by `user`.
pub open spec fn count_by_user(s: Seq<ItemView>, user: Seq<char>) -> nat
    decreases s.len(),
{
    if s.len() == 0 {
        0
    } else {
        count_by_user(s.drop_last(), user) + if by_user(s.last(), user) {
            1nat
        } else {
            0nat
        }
    }
}

/// The total play time of `s`, in milliseconds.
pub open spec fn total_ms(s: Seq<ItemView>) -> nat
    decreases s.len(),
{
    if s.len() == 0 {
        0
    } else {
        total_ms(s.drop_last()) + s.last().duration_ms as nat
    }
}

/// The position of the last item of `s` requested by `user`, if any.
pub open spec fn last_by_user(s: Seq<ItemView>, user: Seq<char>) -> Option<int>
    decreases s.len(),
{
    if s.len() == 0 {
        None
    } else if by_user(s.last(), user) {
        Some(s.len() - 1)
    } else {
        last_by_user(s.drop_last(), user)
    }
}

/// Whether no two entries of `s` share a track identifier.
pub open spec fn unique_tracks(s: Seq<ItemView>) -> bool {
    forall|i: int, j: int|
        0 <= i < s.len() && 0 <= j < s.len() && i != j ==> #[trigger] s[i].track_id
            != #[trigger] s[j].track_id
}

/// The items that resolved, in order; those that did not are skipped.
pub open spec fn resolved_views(s: Seq<Option<Item>>) -> Seq<ItemView>
    decreases s.len(),
{
    if s.len() == 0 {
        Seq::empty()
    } else {
        match s.last() {
            Some(i) => resolved_views(s.drop_last()).push(i@),
            None => resolved_views(s.drop_last()),
        }
    }
}

/// The ordered queue of pending requests.
pub struct Queue {
    items: Vec<Item>,
}

impl View for Queue {
    type V = Seq<ItemView>;

    closed spec fn view(&self) -> Seq<ItemView> {
        views(self.items@)
    }
}

/// Copies every item of `s`.
pub fn clone_items(s: &Vec<Item>) -> (r: Vec<Item>)
    ensures
        views(r@) == views(s@),
{
    let mut r: Vec<Item> = Vec::new();
    let mut i: usize = 0;
    while i < s.len()
        invariant
            i <= s.len(),
            r@.len() == i,
            forall|k: int| 0 <= k < i ==> #[trigger] r@[k]@ == s@[k]@,
        decreases s.len() - i,
    {
        r.push(s[i].clone());
        i = i + 1;
    }
    assert(views(r@) =~= views(s@));
    r
}

impl Queue {
    /// An empty queue.
    pub fn new() -> (r: Queue)
        ensures
            r@ == Seq::<ItemView>::empty(),
    {
        let r = Queue { items: Vec::new() };
        assert(r@ =~= Seq::<ItemView>::empty());
        r
    }

    /// A queue holding `items`, in order.
    pub fn from_items(items: Vec<Item>) -> (r: Queue)
        ensures
            r@ == views(items@),
    {
        Queue { items }
    }

    /// Rebuilds the queue from its durable records, each already resolved
    /// to an item or to `None` where resolving failed: the items that
    /// resolved, in record order.
    pub fn restore(resolved: Vec<Option<Item>>) -> (r: Queue)
        ensures
            r@ == resolved_views(resolved@),
    {
        let mut items: Vec<Item> = Vec::new();
        let mut rest = resolved;
        let ghost all = rest@;
        proof {
            assert(views(items@) =~= resolved_views(all.subrange(0, 0)));
        }
        let n = rest.len();
        let mut i: usize = 0;
        while i < n
            invariant
                n == all.len(),
                i <= n,
                rest@ == all.subrange(i as int, n as int),
                views(items@) == resolved_views(all.subrange(0, i as int)),
            decreases n - i,
        {
            let next = rest.remove(0);
            proof {
                assert(next == all[i as int]);
                assert(all.subrange(0, i + 1).drop_last() =~= all.subrange(0, i as int));
            }
            match next {
                Some(item) => {
                    let ghost before = items@;
                    items.push(item);
                    proof {
                        assert(views(items@) =~= views(before).push(item@));
                    }
                },
                None => {},
            }
            i = i + 1;
        }
        proof {
            assert(all.subrange(0, n as int) =~= all);
        }
        Queue { items }
    }

    /// Number of pending items; a queue never holds more than a `usize`
    /// counts.
    pub fn len(&self) -> (r: usize)
        ensures
            r == self@.len(),
            self@.len() <= usize::MAX,
    {
        self.items.len()
    }

    /// Whether the queue is empty.
    pub fn is_empty(&self) -> (r: bool)
        ensures
            r == (self@.len() == 0),
    {
        self.items.len() == 0
    }

    /// A copy of the item at the head of the queue.
    pub fn front(&self) -> (r: Option<Item>)
        ensures
            self@.len() == 0 ==> r is None,
            self@.len() > 0 ==> r is Some && r->0@ == self@[0],
    {
        if self.items.len() == 0 {
            None
        } else {
            Some(self.items[0].clone())
        }
    }

    /// A copy of every pending item, in order.
    pub fn list(&self) -> (r: Vec<Item>)
        ensures
            views(r@) == self@,
    {
        clone_items(&self.items)
    }

    /// Removes and returns the head of the queue.
    pub fn pop_front(&mut self) -> (r: Option<Item>)
        ensures
            old(self)@.len() == 0 ==> r is None && final(self)@ == old(self)@,
            old(self)@.len() > 0 ==> r is Some && r->0@ == old(self)@[0] && final(self)@
                == old(self)@.drop_first(),
    {
        if self.items.len() == 0 {
            None
        } else {
            let item = self.items.remove(0);
            assert(self@ =~= old(self)@.drop_first());
            Some(item)
        }
    }

    /// Appends an item at the back of the queue.
    pub fn push_back(&mut self, item: Item)
        ensures
            final(self)@ == old(self)@.push(item@),
    {
        self.items.push(item);
        assert(self@ =~= old(self)@.push(item@));
    }

    /// Removes every pending item and returns them in order.
    pub fn purge(&mut self) -> (r: Vec<Item>)
        ensures
            views(r@) == old(self)@,
            final(self)@ == Seq::<ItemView>::empty(),
    {
        let mut purged: Vec<Item> = Vec::new();
        std::mem::swap(&mut purged, &mut self.items);
        assert(self@ =~= Seq::<ItemView>::empty());
        purged
    }

    /// Removes the item at position `n`, if there is one.
    pub fn remove_at(&mut self, n: usize) -> (r: Option<Item>)
        ensures
            n >= old(self)@.len() ==> r is None && final(self)@ == old(self)@,
            n < old(self)@.len() ==> r is Some && r->0@ == old(self)@[n as int] && final(self)@
                == old(self)@.remove(n as int),
    {
        if n >= self.items.len() {
            None
        } else {
            let item = self.items.remove(n);
            assert(self@ =~= old(self)@.remove(n as int));
            Some(item)
        }
    }

    /// Removes the item at the back of the queue, if any.
    pub fn remove_last(&mut self) -> (r: Option<Item>)
        ensures
            old(self)@.len() == 0 ==> r is None && final(self)@ == old(self)@,
            old(self)@.len() > 0 ==> r is Some && r->0@ == old(self)@.last() && final(self)@
                == old(self)@.drop_last(),
    {
        match self.items.pop() {
            None => None,
            Some(item) => {
                assert(self@ =~= old(self)@.drop_last());
                Some(item)
            },
        }
    }

    /// The position of the last item requested by `user`.
    pub fn rposition_by_user(&self, user: &str) -> (r: Option<usize>)
        ensures
            r matches Some(p) ==> last_by_user(self@, user@) == Some(p as int),
            r is None ==> last_by_user(self@, user@) is None,
    {
        let mut i: usize = self.items.len();
        assert(self@.subrange(0, i as int) =~= self@);
        while i > 0
            invariant
                i <= self.items@.len(),
                last_by_user(self@, user@) == last_by_user(self@.subrange(0, i as int), user@),
            decreases i,
        {
            proof {
                assert(self@.subrange(0, i as int).drop_last() =~= self@.subrange(0, i - 1));
            }
            if self.items[i - 1].requested_by(user) {
                return Some(i - 1);
            }
            i = i - 1;
        }
        None
    }

    /// Removes the last item requested by `user`, if any.
    pub fn remove_last_by_user(&mut self, user: &str) -> (r: Option<Item>)
        ensures
            last_by_user(old(self)@, user@) is None ==> r is None && final(self)@ == old(self)@,
            last_by_user(old(self)@, user@) matches Some(p) ==> r is Some && r->0@ == old(
                self,
            )@[p] && final(self)@ == old(self)@.remove(p),
    {
        proof {
            assert(self@.subrange(0, self@.len() as int) =~= self@);
        }
        match self.rposition_by_user(user) {
            None => None,
            Some(p) => {
                proof {
                    lemma_last_by_user_in_range(self@, user@);
                }
                self.remove_at(p)
            },
        }
    }

    /// Swaps the item at position `n` with the head of the queue and
    /// returns a copy of the new head.
    pub fn promote_song(&mut self, n: usize) -> (r: Option<Item>)
        ensures
            n >= old(self)@.len() ==> r is None && final(self)@ == old(self)@,
            n < old(self)@.len() ==> r is Some && r->0@ == old(self)@[n as int] && final(self)@
                == swapped(old(self)@, n as int),
    {
        if n >= self.items.len() {
            return None;
        }
        if n > 0 {
            let b = self.items.remove(n);
            let a = self.items.remove(0);
            self.items.insert(0, b);
            self.items.insert(n, a);
        }
        assert(self@ =~= swapped(old(self)@, n as int));
        Some(self.items[0].clone())
    }

    /// The position of the item with track `id`, if any.
    pub fn position_of(&self, id: &TrackId) -> (r: Option<usize>)
        ensures
            r matches Some(p) ==> p < self@.len() && self@[p as int].track_id == id@ && forall|
                k: int,
            |
                0 <= k < p ==> #[trigger] self@[k].track_id != id@,
            r is None ==> forall|k: int| 0 <= k < self@.len() ==> #[trigger] self@[k].track_id != id@,
    {
        let mut i: usize = 0;
        while i < self.items.len()
            invariant
                i <= self.items@.len(),
                forall|k: int| 0 <= k < i ==> #[trigger] self@[k].track_id != id@,
            decreases self.items@.len() - i,
        {
            if self.items[i].track_id.same(id) {
                return Some(i);
            }
            i = i + 1;
        }
        None
    }

    /// The number of pending items requested by `user`.
    pub fn count_by_user(&self, user: &str) -> (r: usize)
        ensures
            r == count_by_user(self@, user@),
    {
        let mut n: usize = 0;
        let mut i: usize = 0;
        while i < self.items.len()
            invariant
                i <= self.items@.len(),
                n == count_by_user(self@.subrange(0, i as int), user@),
                n <= i,
            decreases self.items@.len() - i,
        {
            proof {
                assert(self@.subrange(0, i + 1).drop_last() =~= self@.subrange(0, i as int));
            }
            if self.items[i].requested_by(user) {
                n = n + 1;
            }
            i = i + 1;
        }
        assert(self@.subrange(0, i as int) =~= self@);
        n
    }

    /// The total play time of the pending items, in milliseconds.
    pub fn total_ms(&self) -> (r: u128)
        ensures
            r == total_ms(self@),
    {
        let mut t: u128 = 0;
        let mut i: usize = 0;
        while i < self.items.len()
            invariant
                i <= self.items@.len(),
                t == total_ms(self@.subrange(0, i as int)),
                t <= i * 0xffff_ffff_ffff_ffff,
            decreases self.items@.len() - i,
        {
            proof {
                assert(self@.subrange(0, i + 1).drop_last() =~= self@.subrange(0, i as int));
                assert((i + 1) * 0xffff_ffff_ffff_ffff == i * 0xffff_ffff_ffff_ffff
                    + 0xffff_ffff_ffff_ffff) by (nonlinear_arith);
                assert(i * 0xffff_ffff_ffff_ffffu128 <= 0xffff_ffff_ffff_ffff * 0xffff_ffff_ffff_ffffu128) by (nonlinear_arith)
                    requires i <= 0xffff_ffff_ffff_ffffu128;
            }
            t = t + self.items[i].duration_ms as u128;
            i = i + 1;
        }
        assert(self@.subrange(0, i as int) =~= self@);
        t
    }
}

proof fn lemma_last_by_user_in_range(s: Seq<ItemView>, user: Seq<char>)
    ensures
        last_by_user(s, user) matches Some(p) ==> 0 <= p < s.len() && by_user(s[p], user),
    decreases s.len(),
{
    if s.len() > 0 && !by_user(s.last(), user) {
        lemma_last_by_user_in_range(s.drop_last(), user);
    }
}

} // verus!
