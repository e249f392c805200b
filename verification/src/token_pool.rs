use vstd::prelude::*;
use crate::account::AccountId;
use vstd::arithmetic::div_mod::{lemma_mod_bound, lemma_small_mod};
use crate::entropy::{
    be_bytes, be_value, digest_residue, entropy_input, keccak_256, keccak_256_digest,
    lemma_digest_of, spec_entropy_input,
};
use crate::types::{Shiden34Error, Timestamp};

verus! {

/// The identifiers that have not been issued yet, and the counter that makes
/// each draw hash differently.
#[derive(Clone, Debug, PartialEq, Eq)]
pub struct TokenPool {
    pub unused: Vec<u64>,
    pub salt: u64,
}

/// The model of a pool: its identifiers as a sequence, and the salt.
pub struct PoolView {
    pub unused: Seq<u64>,
    pub salt: u64,
}

impl View for TokenPool {
    type V = PoolView;

    open spec fn view(&self) -> PoolView {
        PoolView { unused: self.unused@, salt: self.salt }
    }
}

impl PoolView {
    /// No identifier lies in the pool twice, and the salt can still be
    /// counted up once for every identifier that is left.
    pub open spec fn wf(self) -> bool {
        &&& self.unused.no_duplicates()
        &&& self.salt + self.unused.len() <= u64::MAX
    }

    /// The pool that holds the identifiers from `after + 1` to `through`, in
    /// rising order, with a fresh salt.
    pub open spec fn spec_range(after: u64, through: u64) -> PoolView {
        PoolView {
            unused: Seq::new(
                if after <= through {
                    (through - after) as nat
                } else {
                    0
                },
                |i: int| (after + 1 + i) as u64,
            ),
            salt: 0,
        }
    }

    /// The place that a digest selects: the digest, read as one number,
    /// modulo the number of identifiers left.
    pub open spec fn pick(self, digest: Seq<u8>) -> int {
        (be_value(digest) % self.unused.len()) as int
    }

    /// The pool once the identifier at `index` is gone: the last identifier
    /// takes its place, and the salt counts up.
    pub open spec fn without(self, index: int) -> PoolView {
        PoolView {
            unused: self.unused.update(index, self.unused.last()).drop_last(),
            salt: (self.salt + 1) as u64,
        }
    }

    /// The digest that decides the next draw for this caller at this time.
    pub open spec fn digest(self, caller: Seq<u8>, timestamp: Timestamp) -> Seq<u8> {
        keccak_256_digest(spec_entropy_input(self.salt, caller, timestamp))
    }

    /// The identifier that the next draw hands out.
    pub open spec fn drawn(self, caller: Seq<u8>, timestamp: Timestamp) -> u64 {
        self.unused[self.pick(self.digest(caller, timestamp))]
    }

    /// The pool after the next draw.
    pub open spec fn after_draw(self, caller: Seq<u8>, timestamp: Timestamp) -> PoolView {
        self.without(self.pick(self.digest(caller, timestamp)))
    }

    /// The identifiers that `count` draws in a row hand out, in order.
    pub open spec fn draws(self, caller: Seq<u8>, timestamp: Timestamp, count: nat) -> Seq<u64>
        decreases count,
    {
        if count == 0 {
            Seq::empty()
        } else {
            let before = (count - 1) as nat;
            self.draws(caller, timestamp, before).push(
                self.after_draws(caller, timestamp, before).drawn(caller, timestamp),
            )
        }
    }

    /// The pool after `count` draws in a row.
    pub open spec fn after_draws(
        self,
        caller: Seq<u8>,
        timestamp: Timestamp,
        count: nat,
    ) -> PoolView
        decreases count,
    {
        if count == 0 {
            self
        } else {
            self.after_draws(caller, timestamp, (count - 1) as nat).after_draw(caller, timestamp)
        }
    }
}

/// Taking one identifier out of a pool without repeats leaves a pool without
/// repeats that holds every other identifier and not the one taken.
pub proof fn lemma_without(pool: PoolView, index: int)
    requires
        pool.wf(),
        0 <= index < pool.unused.len(),
    ensures
        pool.without(index).wf(),
        pool.without(index).unused.len() == pool.unused.len() - 1,
        pool.without(index).salt == pool.salt + 1,
        forall|id: u64|
            pool.without(index).unused.contains(id) <==> (pool.unused.contains(id) && id
                != pool.unused[index]),
{
    let before = pool.unused;
    let after = pool.without(index).unused;
    let last = before.len() - 1;
    assert forall|i: int, j: int|
        0 <= i < after.len() && 0 <= j < after.len() && i != j implies after[i] != after[j] by {
        let from_i = if i == index { last } else { i };
        let from_j = if j == index { last } else { j };
        assert(after[i] == before[from_i]);
        assert(after[j] == before[from_j]);
    }
    assert forall|id: u64|
        after.contains(id) <==> (before.contains(id) && id != before[index]) by {
        if after.contains(id) {
            let i = choose|i: int| 0 <= i < after.len() && after[i] == id;
            let from_i = if i == index { last } else { i };
            assert(before[from_i] == id);
        }
        if before.contains(id) && id != before[index] {
            let k = choose|k: int| 0 <= k < before.len() && before[k] == id;
            let to_k = if k == last { index } else { k };
            assert(after[to_k] == id);
        }
    }
}

/// Whatever was drawn before, every identifier that is left can be the next
/// one drawn: for each of them there is a digest that selects it.
pub proof fn lemma_every_identifier_can_be_drawn(pool: PoolView, id: u64)
    requires
        pool.wf(),
        pool.unused.contains(id),
    ensures
        exists|digest: Seq<u8>|
            digest.len() == 32 && 0 <= #[trigger] pool.pick(digest) < pool.unused.len()
                && pool.unused[pool.pick(digest)] == id,
{
    let index = choose|i: int| 0 <= i < pool.unused.len() && pool.unused[i] == id;
    let digest = be_bytes(index as nat, 32);
    lemma_digest_of(index as nat);
    lemma_small_mod(index as nat, pool.unused.len());
    assert(pool.pick(digest) == index);
}

/// Every state of a pool keeps issued and unissued identifiers apart. Let
/// `initial` be split into the identifiers still in the pool and the ones
/// `issued` so far. Then the next draw, whatever decides it, hands out an
/// identifier of `initial` that was never issued before, and leaves
/// `initial` split in the same way.
pub proof fn lemma_draw_is_fresh(
    pool: PoolView,
    issued: Set<u64>,
    initial: Set<u64>,
    caller: Seq<u8>,
    timestamp: Timestamp,
)
    requires
        pool.wf(),
        pool.unused.len() > 0,
        forall|id: u64| initial.contains(id) <==> (pool.unused.contains(id) || issued.contains(id)),
        forall|id: u64| !(pool.unused.contains(id) && issued.contains(id)),
    ensures
        initial.contains(pool.drawn(caller, timestamp)),
        !issued.contains(pool.drawn(caller, timestamp)),
        pool.after_draw(caller, timestamp).wf(),
        forall|id: u64|
            initial.contains(id) <==> (pool.after_draw(caller, timestamp).unused.contains(id)
                || issued.insert(pool.drawn(caller, timestamp)).contains(id)),
        forall|id: u64|
            !(pool.after_draw(caller, timestamp).unused.contains(id) && issued.insert(
                pool.drawn(caller, timestamp),
            ).contains(id)),
{
    let index = pool.pick(pool.digest(caller, timestamp));
    lemma_mod_bound(be_value(pool.digest(caller, timestamp)) as int, pool.unused.len() as int);
    lemma_without(pool, index);
    assert(pool.unused.contains(pool.unused[index]));
}

/// Draws in a row hand out as many identifiers as were asked for, each of
/// them from the pool and no two alike, and leave exactly the others.
pub proof fn lemma_draws(pool: PoolView, caller: Seq<u8>, timestamp: Timestamp, count: nat)
    requires
        pool.wf(),
        count <= pool.unused.len(),
    ensures
        pool.draws(caller, timestamp, count).len() == count,
        pool.draws(caller, timestamp, count).no_duplicates(),
        pool.after_draws(caller, timestamp, count).wf(),
        pool.after_draws(caller, timestamp, count).unused.len() == pool.unused.len() - count,
        pool.after_draws(caller, timestamp, count).salt == pool.salt + count,
        forall|id: u64|
            pool.unused.contains(id) <==> (pool.after_draws(caller, timestamp, count).unused.contains(
                id,
            ) || pool.draws(caller, timestamp, count).contains(id)),
        forall|id: u64|
            !(pool.after_draws(caller, timestamp, count).unused.contains(id) && pool.draws(
                caller,
                timestamp,
                count,
            ).contains(id)),
    decreases count,
{
    if count > 0 {
        let before = (count - 1) as nat;
        lemma_draws(pool, caller, timestamp, before);
        let ids = pool.draws(caller, timestamp, before);
        let mid = pool.after_draws(caller, timestamp, before);
        let id = mid.drawn(caller, timestamp);
        lemma_draw_is_fresh(mid, ids.to_set(), pool.unused.to_set(), caller, timestamp);
        let all = pool.draws(caller, timestamp, count);
        assert(all == ids.push(id));
        assert forall|i: int, j: int|
            0 <= i < all.len() && 0 <= j < all.len() && i != j implies all[i] != all[j] by {
            if i < before {
                assert(ids.contains(all[i]));
            }
            if j < before {
                assert(ids.contains(all[j]));
            }
        }
        let end = mid.after_draw(caller, timestamp);
        assert(end == pool.after_draws(caller, timestamp, count));
        assert forall|x: u64| all.contains(x) <==> (ids.contains(x) || x == id) by {
            if all.contains(x) {
                let k = choose|k: int| 0 <= k < all.len() && all[k] == x;
                if k < before {
                    assert(ids[k] == x);
                }
            }
            if ids.contains(x) {
                let k = choose|k: int| 0 <= k < ids.len() && ids[k] == x;
                assert(all[k] == x);
            }
            if x == id {
                assert(all[before as int] == x);
            }
        }
        assert forall|x: u64|
            pool.unused.contains(x) <==> (end.unused.contains(x) || all.contains(x)) by {
            assert(pool.unused.to_set().contains(x) <==> pool.unused.contains(x));
            assert(ids.to_set().insert(id).contains(x) <==> (ids.contains(x) || x == id));
        }
        assert forall|x: u64| !(end.unused.contains(x) && all.contains(x)) by {
            assert(ids.to_set().insert(id).contains(x) <==> (ids.contains(x) || x == id));
        }
    }
}

impl TokenPool {
    /// The pool of the identifiers from `after + 1` to `through`. It is empty
    /// where `through` does not exceed `after`.
    pub fn with_range(after: u64, through: u64) -> (pool: TokenPool)
        ensures
            pool@ == PoolView::spec_range(after, through),
            pool@.wf(),
    {
        let mut unused: Vec<u64> = Vec::new();
        let mut next: u64 = after;
        while next < through
            invariant
                after <= next,
                next <= through || next == after,
                unused@.len() == next - after,
                forall|i: int| 0 <= i < unused@.len() ==> unused@[i] == after + 1 + i,
            decreases through - next,
        {
            next = next + 1;
            unused.push(next);
        }
        let pool = TokenPool { unused, salt: 0 };
        assert(pool@.unused =~= PoolView::spec_range(after, through).unused);
        pool
    }

    /// Whether this pool is one that the operations take: no identifier
    /// lies in it twice, and the salt leaves room for every draw to come.
    pub fn is_well_formed(&self) -> (ok: bool)
        ensures
            ok == self@.wf(),
    {
        let n = self.unused.len();
        if n as u64 > u64::MAX - self.salt {
            return false;
        }
        let mut i: usize = 0;
        while i < n
            invariant
                n == self.unused@.len(),
                i <= n,
                forall|a: int, b: int|
                    0 <= a < i && a < b < n ==> self.unused@[a] != self.unused@[b],
            decreases n - i,
        {
            let mut j: usize = i + 1;
            while j < n
                invariant
                    n == self.unused@.len(),
                    i < j <= n,
                    forall|b: int| i < b < j ==> self.unused@[i as int] != self.unused@[b],
                decreases n - j,
            {
                if self.unused[i] == self.unused[j] {
                    return false;
                }
                j = j + 1;
            }
            i = i + 1;
        }
        assert forall|a: int, b: int|
            0 <= a < self.unused@.len() && 0 <= b < self.unused@.len() && a != b implies #[trigger]
            self.unused@[a] != #[trigger] self.unused@[b] by {
            if a < b {
                assert(self.unused@[a] != self.unused@[b]);
            } else {
                assert(self.unused@[b] != self.unused@[a]);
            }
        }
        true
    }

    /// How many identifiers are left.
    pub fn remaining_count(&self) -> (count: u64)
        ensures
            count == self@.unused.len(),
    {
        self.unused.len() as u64
    }

    /// Takes out the identifier that `digest` selects. The last identifier of
    /// the pool moves into the gap, so that every identifier left can still
    /// be drawn. An empty pool is left as it is.
    pub fn take_by_digest(&mut self, digest: &[u8; 32]) -> (r: Result<u64, Shiden34Error>)
        requires
            old(self)@.wf(),
        ensures
            final(self)@.wf(),
            old(self)@.unused.len() == 0 ==> r == Err::<u64, Shiden34Error>(
                Shiden34Error::CollectionIsFull,
            ) && final(self)@ == old(self)@,
            old(self)@.unused.len() > 0 ==> r == Ok::<u64, Shiden34Error>(
                old(self)@.unused[old(self)@.pick(digest@)],
            ) && final(self)@ == old(self)@.without(old(self)@.pick(digest@)),
    {
        let len = self.unused.len();
        if len == 0 {
            return Err(Shiden34Error::CollectionIsFull);
        }
        let index = digest_residue(digest, len as u64) as usize;
        proof {
            lemma_without(self@, index as int);
        }
        let id = self.unused.swap_remove(index);
        self.salt = self.salt + 1;
        Ok(id)
    }

    /// Draws one identifier for `caller` at the time `timestamp`.
    pub fn draw_one(&mut self, caller: &AccountId, timestamp: Timestamp) -> (r: Result<
        u64,
        Shiden34Error,
    >)
        requires
            old(self)@.wf(),
        ensures
            final(self)@.wf(),
            old(self)@.unused.len() == 0 ==> r == Err::<u64, Shiden34Error>(
                Shiden34Error::CollectionIsFull,
            ) && final(self)@ == old(self)@,
            old(self)@.unused.len() > 0 ==> r == Ok::<u64, Shiden34Error>(
                old(self)@.drawn(caller@, timestamp),
            ) && final(self)@ == old(self)@.after_draw(caller@, timestamp),
    {
        let input = entropy_input(self.salt, caller, timestamp);
        let digest = keccak_256(&input);
        self.take_by_digest(&digest)
    }

    /// Draws `count` identifiers in a row for `caller` at the time
    /// `timestamp`, or none at all where the pool holds fewer.
    pub fn draw(&mut self, caller: &AccountId, timestamp: Timestamp, count: u64) -> (r: Result<
        Vec<u64>,
        Shiden34Error,
    >)
        requires
            old(self)@.wf(),
        ensures
            final(self)@.wf(),
            count > old(self)@.unused.len() ==> r == Err::<Vec<u64>, Shiden34Error>(
                Shiden34Error::CollectionIsFull,
            ) && final(self)@ == old(self)@,
            count <= old(self)@.unused.len() ==> r is Ok && r->Ok_0@ == old(self)@.draws(
                caller@,
                timestamp,
                count as nat,
            ) && final(self)@ == old(self)@.after_draws(caller@, timestamp, count as nat),
    {
        if count > self.remaining_count() {
            return Err(Shiden34Error::CollectionIsFull);
        }
        let ghost start = self@;
        let mut ids: Vec<u64> = Vec::new();
        let mut done: u64 = 0;
        while done < count
            invariant
                done <= count,
                count <= start.unused.len(),
                start.wf(),
                self@.wf(),
                self@ == start.after_draws(caller@, timestamp, done as nat),
                ids@ == start.draws(caller@, timestamp, done as nat),
            decreases count - done,
        {
            proof {
                lemma_draws(start, caller@, timestamp, done as nat);
            }
            match self.draw_one(caller, timestamp) {
                Ok(id) => {
                    ids.push(id);
                },
                Err(_) => {},
            }
            done = done + 1;
        }
        Ok(ids)
    }
}

} // verus!
