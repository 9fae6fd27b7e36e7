//! A sparse, integer-keyed collection visited in ascending key order.
use vstd::prelude::*;

verus! {

/// Index of the first entry whose key is not below `pos`: in a list sorted by
/// key, where an entry for `pos` stands or would be inserted.
pub open spec fn rank<T>(s: Seq<(i64, T)>, pos: i64) -> nat
    decreases s.len(),
{
    if s.len() == 0 || s[0].0 >= pos {
        0
    } else {
        1 + rank(s.drop_first(), pos)
    }
}

/// Keys strictly increase along the list, so each key occurs at most once.
pub open spec fn sorted_keys<T>(s: Seq<(i64, T)>) -> bool {
    forall|i: int, j: int| 0 <= i < j < s.len() ==> s[i].0 < s[j].0
}

proof fn lemma_rank_is<T>(s: Seq<(i64, T)>, pos: i64, i: int)
    requires
        0 <= i <= s.len(),
        forall|j: int| 0 <= j < i ==> s[j].0 < pos,
        i == s.len() || s[i].0 >= pos,
    ensures
        rank(s, pos) == i,
    decreases i,
{
    if i > 0 {
        let t = s.drop_first();
        assert forall|j: int| 0 <= j < i - 1 implies t[j].0 < pos by {
            assert(t[j] == s[j + 1]);
        }
        if i - 1 < t.len() {
            assert(t[i - 1] == s[i]);
        }
        lemma_rank_is(t, pos, i - 1);
    }
}

/// Items stored at integer priority slots. Lower slots come first.
pub struct PriorityProvider<T> {
    providers: Vec<(i64, T)>,
    lowest_priority: i64,
    upper_priority: i64,
}

impl<T> PriorityProvider<T> {
    /// The stored entries, slot and item, in ascending slot order.
    pub closed spec fn entries(&self) -> Seq<(i64, T)> {
        self.providers@
    }

    /// The stored items in ascending slot order.
    pub open spec fn items(&self) -> Seq<T> {
        self.entries().map_values(|e: (i64, T)| e.1)
    }

    /// The lowest slot used so far (never above 0).
    pub closed spec fn lowest(&self) -> i64 {
        self.lowest_priority
    }

    /// The highest slot used so far (never below 0).
    pub closed spec fn upper(&self) -> i64 {
        self.upper_priority
    }

    pub open spec fn wf(&self) -> bool {
        &&& sorted_keys(self.entries())
        &&& self.lowest() <= 0 <= self.upper()
        &&& forall|i: int|
            0 <= i < self.entries().len() ==> self.lowest() <= #[trigger] self.entries()[i].0
                <= self.upper()
    }

    /// Whether an item is stored at slot `pos`.
    pub open spec fn has_at(&self, pos: i64) -> bool {
        let r = rank(self.entries(), pos) as int;
        r < self.entries().len() && self.entries()[r].0 == pos
    }

    /// The item stored at slot `pos`, if any.
    pub open spec fn spec_get_at(&self, pos: i64) -> Option<T> {
        if self.has_at(pos) {
            Some(self.entries()[rank(self.entries(), pos) as int].1)
        } else {
            None
        }
    }

    /// The entries once `provider` is stored at `pos`, replacing what was there.
    pub open spec fn entries_after_set(&self, pos: i64, provider: T) -> Seq<(i64, T)> {
        let r = rank(self.entries(), pos) as int;
        if self.has_at(pos) {
            self.entries().update(r, (pos, provider))
        } else {
            self.entries().insert(r, (pos, provider))
        }
    }

    pub fn new() -> (r: PriorityProvider<T>)
        ensures
            r.wf(),
            r.entries() == Seq::<(i64, T)>::empty(),
            r.lowest() == 0,
            r.upper() == 0,
    {
        PriorityProvider { providers: Vec::new(), lowest_priority: 0, upper_priority: 0 }
    }

    pub fn get_lowest_priority(&self) -> (r: i64)
        ensures
            r == self.lowest(),
    {
        self.lowest_priority
    }

    pub fn get_upper_priority(&self) -> (r: i64)
        ensures
            r == self.upper(),
    {
        self.upper_priority
    }

    /// Index of the first entry whose slot is not below `pos`.
    fn find_rank(&self, pos: i64) -> (r: usize)
        ensures
            r == rank(self.entries(), pos),
            r <= self.entries().len(),
            forall|j: int| 0 <= j < r ==> self.entries()[j].0 < pos,
            r < self.entries().len() ==> self.entries()[r as int].0 >= pos,
    {
        let mut i: usize = 0;
        while i < self.providers.len() && self.providers[i].0 < pos
            invariant
                0 <= i <= self.providers@.len(),
                forall|j: int| 0 <= j < i ==> self.providers@[j].0 < pos,
            decreases self.providers@.len() - i,
        {
            i = i + 1;
        }
        proof {
            lemma_rank_is(self.providers@, pos, i as int);
        }
        i
    }

    /// Returns an iterator over the items in ascending slot order.
    pub fn iter(&self) -> (r: PriorityProviderIterator<'_, T>)
        ensures
            r.source() == self.entries(),
            r.position() == 0,
    {
        PriorityProviderIterator::new(self)
    }

    /// Returns the item at slot `pos`.
    pub fn get_at(&self, pos: i64) -> (r: Option<&T>)
        ensures
            match r {
                Some(x) => self.spec_get_at(pos) == Some(*x),
                None => self.spec_get_at(pos) is None,
            },
    {
        let i = self.find_rank(pos);
        if i < self.providers.len() && self.providers[i].0 == pos {
            Some(&self.providers[i].1)
        } else {
            None
        }
    }

    /// Returns the item at slot `pos` for changing in place.
    pub fn get_at_mut(&mut self, pos: i64) -> (r: Option<&mut T>)
        ensures
            match r {
                Some(x) => {
                    &&& old(self).spec_get_at(pos) == Some(*x)
                    &&& final(self).entries() == old(self).entries().update(
                        rank(old(self).entries(), pos) as int,
                        (pos, *final(x)),
                    )
                    &&& final(self).lowest() == old(self).lowest()
                    &&& final(self).upper() == old(self).upper()
                },
                None => {
                    &&& old(self).spec_get_at(pos) is None
                    &&& *final(self) == *old(self)
                },
            },
    {
        let i = self.find_rank(pos);
        if i < self.providers.len() && self.providers[i].0 == pos {
            Some(&mut self.providers[i].1)
        } else {
            None
        }
    }

    /// Stores `provider` at slot `pos`, replacing what was there.
    pub fn set_at(&mut self, pos: i64, provider: T)
        requires
            old(self).wf(),
        ensures
            final(self).wf(),
            final(self).entries() == old(self).entries_after_set(pos, provider),
            final(self).lowest() == if pos < old(self).lowest() {
                pos
            } else {
                old(self).lowest()
            },
            final(self).upper() == if pos > old(self).upper() {
                pos
            } else {
                old(self).upper()
            },
    {
        let i = self.find_rank(pos);
        if i < self.providers.len() && self.providers[i].0 == pos {
            self.providers[i] = (pos, provider);
        } else {
            self.providers.insert(i, (pos, provider));
        }
        if pos > self.upper_priority {
            self.upper_priority = pos;
        }
        if pos < self.lowest_priority {
            self.lowest_priority = pos;
        }
    }

    /// Adds `provider` after every item stored so far.
    pub fn add(&mut self, provider: T)
        requires
            old(self).wf(),
            old(self).upper() < i64::MAX,
        ensures
            final(self).wf(),
            final(self).entries() == old(self).entries().push(
                ((old(self).upper() + 1) as i64, provider),
            ),
            final(self).lowest() == old(self).lowest(),
            final(self).upper() == old(self).upper() + 1,
    {
        let pos = self.upper_priority + 1;
        proof {
            lemma_rank_is(self.providers@, pos, self.providers@.len() as int);
            assert(self.providers@.insert(self.providers@.len() as int, (pos, provider))
                =~= self.providers@.push((pos, provider)));
        }
        self.set_at(pos, provider);
    }

    /// Adds `provider` before every item stored so far.
    pub fn add_top(&mut self, provider: T)
        requires
            old(self).wf(),
            old(self).lowest() > i64::MIN,
        ensures
            final(self).wf(),
            final(self).entries() == seq![((old(self).lowest() - 1) as i64, provider)]
                + old(self).entries(),
            final(self).lowest() == old(self).lowest() - 1,
            final(self).upper() == old(self).upper(),
    {
        let pos = self.lowest_priority - 1;
        proof {
            lemma_rank_is(self.providers@, pos, 0);
            assert(self.providers@.insert(0, (pos, provider)) =~= seq![(pos, provider)]
                + self.providers@);
        }
        self.set_at(pos, provider);
    }

    /// Returns the first item, in ascending slot order, that `filter` accepts.
    pub fn first<F: Fn(&T) -> bool>(&self, filter: &F) -> (r: Option<&T>)
        requires
            forall|i: int|
                0 <= i < self.items().len() ==> call_requires(*filter, (&self.items()[i],)),
        ensures
            match r {
                Some(x) => exists|i: int|
                    0 <= i < self.items().len() && self.items()[i] == *x && call_ensures(
                        *filter,
                        (&self.items()[i],),
                        true,
                    ) && forall|j: int|
                        0 <= j < i ==> call_ensures(*filter, (&self.items()[j],), false),
                None => forall|i: int|
                    0 <= i < self.items().len() ==> call_ensures(
                        *filter,
                        (&self.items()[i],),
                        false,
                    ),
            },
    {
        let mut i: usize = 0;
        while i < self.providers.len()
            invariant
                0 <= i <= self.items().len(),
                self.items().len() == self.providers@.len(),
                forall|k: int|
                    0 <= k < self.items().len() ==> call_requires(*filter, (&self.items()[k],)),
                forall|j: int|
                    0 <= j < i ==> call_ensures(*filter, (&self.items()[j],), false),
            decreases self.providers@.len() - i,
        {
            let item = &self.providers[i].1;
            assert(self.items()[i as int] == *item);
            if filter(item) {
                return Some(item);
            }
            i = i + 1;
        }
        None
    }

    /// Returns the first item, in ascending slot order, that `filter` accepts,
    /// for changing in place.
    pub fn first_mut<F: Fn(&T) -> bool>(&mut self, filter: &F) -> (r: Option<&mut T>)
        requires
            forall|i: int|
                0 <= i < old(self).items().len() ==> call_requires(
                    *filter,
                    (&old(self).items()[i],),
                ),
        ensures
            match r {
                Some(x) => exists|i: int|
                    0 <= i < old(self).items().len() && old(self).items()[i] == *x
                        && call_ensures(*filter, (&old(self).items()[i],), true) && (forall|j: int|
                        0 <= j < i ==> call_ensures(*filter, (&old(self).items()[j],), false))
                        && final(self).entries() == old(self).entries().update(
                        i,
                        (old(self).entries()[i].0, *final(x)),
                    ) && final(self).lowest() == old(self).lowest() && final(self).upper()
                        == old(self).upper(),
                None => {
                    &&& forall|i: int|
                        0 <= i < old(self).items().len() ==> call_ensures(
                            *filter,
                            (&old(self).items()[i],),
                            false,
                        )
                    &&& *final(self) == *old(self)
                },
            },
    {
        let mut i: usize = 0;
        while i < self.providers.len()
            invariant
                0 <= i <= self.items().len(),
                self.items().len() == self.providers@.len(),
                *self == *old(self),
                forall|k: int|
                    0 <= k < self.items().len() ==> call_requires(*filter, (&self.items()[k],)),
                forall|j: int|
                    0 <= j < i ==> call_ensures(*filter, (&self.items()[j],), false),
            decreases self.providers@.len() - i,
        {
            assert(self.items()[i as int] == self.providers@[i as int].1);
            if filter(&self.providers[i].1) {
                return Some(&mut self.providers[i].1);
            }
            i = i + 1;
        }
        None
    }

    /// Returns the first value that `f` gives, trying the items in ascending
    /// slot order; `f` is not applied to the items after it.
    pub fn map_first<U, F: Fn(&T) -> Option<U>>(&self, f: &F) -> (r: Option<U>)
        requires
            forall|i: int| 0 <= i < self.items().len() ==> call_requires(*f, (&self.items()[i],)),
        ensures
            match r {
                Some(u) => exists|i: int|
                    0 <= i < self.items().len() && call_ensures(*f, (&self.items()[i],), Some(u))
                        && forall|j: int|
                        0 <= j < i ==> call_ensures(*f, (&self.items()[j],), None::<U>),
                None => forall|i: int|
                    0 <= i < self.items().len() ==> call_ensures(*f, (&self.items()[i],), None::<U>),
            },
    {
        let mut i: usize = 0;
        while i < self.providers.len()
            invariant
                0 <= i <= self.items().len(),
                self.items().len() == self.providers@.len(),
                forall|k: int| 0 <= k < self.items().len() ==> call_requires(*f, (&self.items()[k],)),
                forall|j: int| 0 <= j < i ==> call_ensures(*f, (&self.items()[j],), None::<U>),
            decreases self.providers@.len() - i,
        {
            let item = &self.providers[i].1;
            assert(self.items()[i as int] == *item);
            match f(item) {
                Some(value) => {
                    return Some(value);
                },
                None => {},
            }
            i = i + 1;
        }
        None
    }

    /// As `map_first`, through a mutable borrow; the items are left unchanged.
    pub fn map_first_mut<U, F: Fn(&T) -> Option<U>>(&mut self, f: &F) -> (r: Option<U>)
        requires
            forall|i: int|
                0 <= i < old(self).items().len() ==> call_requires(*f, (&old(self).items()[i],)),
        ensures
            *final(self) == *old(self),
            match r {
                Some(u) => exists|i: int|
                    0 <= i < old(self).items().len() && call_ensures(
                        *f,
                        (&old(self).items()[i],),
                        Some(u),
                    ) && forall|j: int|
                        0 <= j < i ==> call_ensures(*f, (&old(self).items()[j],), None::<U>),
                None => forall|i: int|
                    0 <= i < old(self).items().len() ==> call_ensures(
                        *f,
                        (&old(self).items()[i],),
                        None::<U>,
                    ),
            },
    {
        self.map_first(f)
    }

    /// Passes each item in ascending slot order through `f`, which hands back
    /// the item to keep in its place and maybe a value; collects those values,
    /// in that order.
    pub fn map_mut<U, F: Fn(T) -> (T, Option<U>)>(&mut self, f: &F) -> (r: Vec<U>)
        requires
            forall|x: T| call_requires(*f, (x,)),
        ensures
            final(self).lowest() == old(self).lowest(),
            final(self).upper() == old(self).upper(),
            final(self).entries().len() == old(self).entries().len(),
            forall|i: int|
                0 <= i < old(self).entries().len() ==> #[trigger] final(self).entries()[i].0
                    == old(self).entries()[i].0,
            exists|outs: Seq<Option<U>>|
                {
                    &&& outs.len() == old(self).items().len()
                    &&& forall|i: int|
                        0 <= i < outs.len() ==> call_ensures(
                            *f,
                            (old(self).items()[i],),
                            (final(self).items()[i], #[trigger] outs[i]),
                        )
                    &&& r@ == present_values(outs)
                },
    {
        let mut rest: Vec<(i64, T)> = Vec::new();
        std::mem::swap(&mut rest, &mut self.providers);
        let ghost start = rest@;
        let mut result: Vec<U> = Vec::new();
        let ghost mut outs: Seq<Option<U>> = Seq::empty();
        while rest.len() > 0
            invariant
                self.providers@.len() + rest@.len() == start.len(),
                rest@ == start.subrange(self.providers@.len() as int, start.len() as int),
                self.lowest_priority == old(self).lowest_priority,
                self.upper_priority == old(self).upper_priority,
                start == old(self).providers@,
                forall|x: T| call_requires(*f, (x,)),
                outs.len() == self.providers@.len(),
                forall|k: int|
                    0 <= k < self.providers@.len() ==> #[trigger] self.providers@[k].0 == start[k].0,
                forall|k: int|
                    0 <= k < self.providers@.len() ==> call_ensures(
                        *f,
                        (start[k].1,),
                        (self.providers@[k].1, #[trigger] outs[k]),
                    ),
                result@ == present_values(outs),
            decreases rest@.len(),
        {
            let ghost n = self.providers@.len() as int;
            let (pos, item) = rest.remove(0);
            assert((pos, item) == start[n]);
            let (kept, out) = f(item);
            proof {
                lemma_present_values_push(outs, out);
                outs = outs.push(out);
            }
            self.providers.push((pos, kept));
            match out {
                Some(v) => result.push(v),
                None => {},
            }
            assert(rest@ =~= start.subrange(self.providers@.len() as int, start.len() as int));
        }
        proof {
            assert forall|k: int| 0 <= k < outs.len() implies call_ensures(
                *f,
                (old(self).items()[k],),
                (self.items()[k], #[trigger] outs[k]),
            ) by {
                assert(self.items()[k] == self.providers@[k].1);
                assert(old(self).items()[k] == start[k].1);
            }
        }
        result
    }

    /// Passes each item in ascending slot order through `f`, keeping in its
    /// place the item that `f` hands back.
    pub fn each_mut<F: Fn(T) -> T>(&mut self, f: &F)
        requires
            forall|x: T| call_requires(*f, (x,)),
        ensures
            final(self).lowest() == old(self).lowest(),
            final(self).upper() == old(self).upper(),
            final(self).entries().len() == old(self).entries().len(),
            forall|i: int|
                0 <= i < old(self).entries().len() ==> #[trigger] final(self).entries()[i].0
                    == old(self).entries()[i].0,
            forall|i: int|
                0 <= i < old(self).items().len() ==> call_ensures(
                    *f,
                    (old(self).items()[i],),
                    #[trigger] final(self).items()[i],
                ),
    {
        let mut rest: Vec<(i64, T)> = Vec::new();
        std::mem::swap(&mut rest, &mut self.providers);
        let ghost start = rest@;
        while rest.len() > 0
            invariant
                self.providers@.len() + rest@.len() == start.len(),
                rest@ == start.subrange(self.providers@.len() as int, start.len() as int),
                self.lowest_priority == old(self).lowest_priority,
                self.upper_priority == old(self).upper_priority,
                start == old(self).providers@,
                forall|x: T| call_requires(*f, (x,)),
                forall|k: int|
                    0 <= k < self.providers@.len() ==> #[trigger] self.providers@[k].0 == start[k].0,
                forall|k: int|
                    0 <= k < self.providers@.len() ==> call_ensures(
                        *f,
                        (start[k].1,),
                        #[trigger] self.providers@[k].1,
                    ),
            decreases rest@.len(),
        {
            let ghost n = self.providers@.len() as int;
            let (pos, item) = rest.remove(0);
            assert((pos, item) == start[n]);
            let kept = f(item);
            self.providers.push((pos, kept));
            assert(rest@ =~= start.subrange(self.providers@.len() as int, start.len() as int));
        }
        proof {
            assert forall|k: int| 0 <= k < old(self).items().len() implies call_ensures(
                *f,
                (old(self).items()[k],),
                #[trigger] self.items()[k],
            ) by {
                assert(self.items()[k] == self.providers@[k].1);
                assert(old(self).items()[k] == start[k].1);
            }
        }
    }
}

/// The values held by the `Some` elements of `outs`, in order.
pub open spec fn present_values<U>(outs: Seq<Option<U>>) -> Seq<U>
    decreases outs.len(),
{
    if outs.len() == 0 {
        Seq::empty()
    } else {
        let rest = present_values(outs.drop_last());
        match outs.last() {
            Some(u) => rest.push(u),
            None => rest,
        }
    }
}

proof fn lemma_present_values_push<U>(outs: Seq<Option<U>>, o: Option<U>)
    ensures
        present_values(outs.push(o)) == match o {
            Some(u) => present_values(outs).push(u),
            None => present_values(outs),
        },
{
    assert(outs.push(o).drop_last() == outs);
}

/// Walks the items of a `PriorityProvider` in ascending slot order.
pub struct PriorityProviderIterator<'a, T> {
    providers: &'a Vec<(i64, T)>,
    index: usize,
}

impl<'a, T> PriorityProviderIterator<'a, T> {
    /// The entries being walked.
    pub closed spec fn source(&self) -> Seq<(i64, T)> {
        self.providers@
    }

    /// How many entries have been handed out.
    pub closed spec fn position(&self) -> nat {
        self.index as nat
    }

    pub fn new(src: &'a PriorityProvider<T>) -> (r: PriorityProviderIterator<'a, T>)
        ensures
            r.source() == src.entries(),
            r.position() == 0,
    {
        PriorityProviderIterator { providers: &src.providers, index: 0 }
    }

    /// Hands out the next item, or `None` once every item has been handed out.
    pub fn next(&mut self) -> (r: Option<&'a T>)
        requires
            old(self).position() <= old(self).source().len(),
        ensures
            final(self).source() == old(self).source(),
            final(self).position() <= final(self).source().len(),
            old(self).position() < old(self).source().len() ==> {
                &&& r matches Some(x) && *x == old(self).source()[old(self).position() as int].1
                &&& final(self).position() == old(self).position() + 1
            },
            old(self).position() == old(self).source().len() ==> {
                &&& r is None
                &&& final(self).position() == old(self).position()
            },
    {
        if self.index >= self.providers.len() {
            return None;
        }
        let item = &self.providers[self.index].1;
        self.index = self.index + 1;
        Some(item)
    }
}

} // verus!
