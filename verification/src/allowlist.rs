use vstd::prelude::*;
use crate::account::AccountId;
use crate::types::{GatedPhase, Shiden34Error};

verus! {

/// How many tokens one account may still mint in a gated stage.
#[derive(Clone, Copy, Debug, PartialEq, Eq)]
pub struct QuotaEntry {
    pub account: AccountId,
    pub quota: u64,
}

/// The accounts that may mint in one gated stage, each with what is left of
/// its quota. An account without an entry is not on the list, which is not
/// the same as an entry of zero.
#[derive(Clone, Debug, PartialEq, Eq)]
pub struct QuotaTable {
    pub entries: Vec<QuotaEntry>,
}

/// No account has two entries.
pub open spec fn distinct_accounts(entries: Seq<QuotaEntry>) -> bool {
    forall|i: int, j: int|
        0 <= i < j < entries.len() ==> (#[trigger] entries[i]).account@ != (
        #[trigger] entries[j]).account@
}

/// The quotas that a list of entries stands for, by account.
pub open spec fn quotas_of(entries: Seq<QuotaEntry>) -> Map<Seq<u8>, u64>
    decreases entries.len(),
{
    if entries.len() == 0 {
        Map::empty()
    } else {
        quotas_of(entries.drop_last()).insert(entries.last().account@, entries.last().quota)
    }
}

/// The quotas after each pair of `list` has been set, first to last.
pub open spec fn with_batch(quotas: Map<Seq<u8>, u64>, list: Seq<(AccountId, u64)>) -> Map<
    Seq<u8>,
    u64,
>
    decreases list.len(),
{
    if list.len() == 0 {
        quotas
    } else {
        with_batch(quotas, list.drop_last()).insert(list.last().0@, list.last().1)
    }
}

/// An account that has an entry has that entry's quota, and an account
/// without an entry has none.
pub proof fn lemma_quotas_lookup(entries: Seq<QuotaEntry>, account: Seq<u8>)
    requires
        distinct_accounts(entries),
    ensures
        forall|i: int|
            0 <= i < entries.len() && (#[trigger] entries[i]).account@ == account ==> quotas_of(
                entries,
            ).contains_key(account) && quotas_of(entries)[account] == entries[i].quota,
        (forall|i: int| 0 <= i < entries.len() ==> (#[trigger] entries[i]).account@ != account)
            ==> !quotas_of(entries).contains_key(account),
    decreases entries.len(),
{
    if entries.len() > 0 {
        let front = entries.drop_last();
        assert(distinct_accounts(front)) by {
            assert forall|i: int, j: int| 0 <= i < j < front.len() implies (
            #[trigger] front[i]).account@ != (#[trigger] front[j]).account@ by {
                assert(front[i] == entries[i]);
                assert(front[j] == entries[j]);
            }
        }
        lemma_quotas_lookup(front, account);
        assert forall|i: int|
            0 <= i < entries.len() && (#[trigger] entries[i]).account@ == account implies quotas_of(
            entries,
        ).contains_key(account) && quotas_of(entries)[account] == entries[i].quota by {
            if i < front.len() {
                assert(front[i] == entries[i]);
                assert(entries[i].account@ != entries[entries.len() - 1].account@);
            }
        }
        if forall|i: int| 0 <= i < entries.len() ==> (#[trigger] entries[i]).account@ != account {
            assert forall|i: int| 0 <= i < front.len() implies (#[trigger] front[i]).account@
                != account by {
                assert(front[i] == entries[i]);
            }
            assert(entries[entries.len() - 1].account@ != account);
        }
    }
}

/// Giving an entry another quota sets that account's quota and no other.
pub proof fn lemma_quotas_update(entries: Seq<QuotaEntry>, index: int, quota: u64)
    requires
        distinct_accounts(entries),
        0 <= index < entries.len(),
    ensures
        distinct_accounts(
            entries.update(index, QuotaEntry { account: entries[index].account, quota }),
        ),
        quotas_of(entries.update(index, QuotaEntry { account: entries[index].account, quota }))
            == quotas_of(entries).insert(entries[index].account@, quota),
    decreases entries.len(),
{
    let entry = QuotaEntry { account: entries[index].account, quota };
    let changed = entries.update(index, entry);
    assert(distinct_accounts(changed)) by {
        assert forall|i: int, j: int| 0 <= i < j < changed.len() implies (
        #[trigger] changed[i]).account@ != (#[trigger] changed[j]).account@ by {
            assert(changed[i].account@ == entries[i].account@);
            assert(changed[j].account@ == entries[j].account@);
        }
    }
    let front = entries.drop_last();
    let last = entries.len() - 1;
    if index == last {
        assert(changed.drop_last() =~= front);
        assert(quotas_of(changed) =~= quotas_of(entries).insert(entries[index].account@, quota));
    } else {
        assert(distinct_accounts(front)) by {
            assert forall|i: int, j: int| 0 <= i < j < front.len() implies (
            #[trigger] front[i]).account@ != (#[trigger] front[j]).account@ by {
                assert(front[i] == entries[i]);
                assert(front[j] == entries[j]);
            }
        }
        lemma_quotas_update(front, index, quota);
        assert(front[index] == entries[index]);
        assert(changed.drop_last() =~= front.update(index, entry));
        assert(changed.last() == entries.last());
        assert(entries[index].account@ != entries[last].account@);
        assert(quotas_of(changed) =~= quotas_of(entries).insert(entries[index].account@, quota));
    }
}

impl View for QuotaTable {
    type V = Map<Seq<u8>, u64>;

    open spec fn view(&self) -> Map<Seq<u8>, u64> {
        quotas_of(self.entries@)
    }
}

impl QuotaTable {
    pub open spec fn wf(&self) -> bool {
        distinct_accounts(self.entries@)
    }

    /// A table with nobody on it.
    pub fn new() -> (table: QuotaTable)
        ensures
            table.wf(),
            table@ == Map::<Seq<u8>, u64>::empty(),
    {
        QuotaTable { entries: Vec::new() }
    }

    /// Whether this table is one that the operations take: no account has
    /// two entries.
    pub fn is_well_formed(&self) -> (ok: bool)
        ensures
            ok == self.wf(),
    {
        let n = self.entries.len();
        let mut i: usize = 0;
        while i < n
            invariant
                n == self.entries@.len(),
                i <= n,
                forall|a: int, b: int|
                    0 <= a < i && a < b < n ==> (#[trigger] self.entries@[a]).account@ != (
                    #[trigger] self.entries@[b]).account@,
            decreases n - i,
        {
            let mut j: usize = i + 1;
            while j < n
                invariant
                    n == self.entries@.len(),
                    i < j <= n,
                    forall|b: int|
                        i < b < j ==> self.entries@[i as int].account@ != (
                        #[trigger] self.entries@[b]).account@,
                decreases n - j,
            {
                if self.entries[i].account == self.entries[j].account {
                    return false;
                }
                j = j + 1;
            }
            i = i + 1;
        }
        true
    }

    /// Where the entry of `account` stands, if it has one.
    fn position(&self, account: &AccountId) -> (at: Option<usize>)
        requires
            self.wf(),
        ensures
            match at {
                Some(i) => {
                    &&& i < self.entries@.len()
                    &&& self.entries@[i as int].account@ == account@
                    &&& self@.contains_key(account@)
                    &&& self@[account@] == self.entries@[i as int].quota
                },
                None => !self@.contains_key(account@),
            },
    {
        proof {
            lemma_quotas_lookup(self.entries@, account@);
        }
        let mut found: Option<usize> = None;
        let mut i: usize = 0;
        while found.is_none() && i < self.entries.len()
            invariant
                i <= self.entries@.len(),
                found is None ==> forall|k: int|
                    0 <= k < i ==> (#[trigger] self.entries@[k]).account@ != account@,
                found matches Some(at) ==> at < self.entries@.len()
                    && self.entries@[at as int].account@ == account@,
            decreases self.entries@.len() - i + (if found is None { 1int } else { 0int }),
        {
            if self.entries[i].account == *account {
                found = Some(i);
            } else {
                i = i + 1;
            }
        }
        found
    }

    /// What is left of the quota of `account`, if it is on the list.
    pub fn get(&self, account: &AccountId) -> (quota: Option<u64>)
        requires
            self.wf(),
        ensures
            quota == (if self@.contains_key(account@) {
                Some(self@[account@])
            } else {
                None
            }),
    {
        match self.position(account) {
            Some(i) => Some(self.entries[i].quota),
            None => None,
        }
    }

    /// Puts `account` on the list with `quota`, or replaces the quota that
    /// it had.
    pub fn set(&mut self, account: AccountId, quota: u64)
        requires
            old(self).wf(),
        ensures
            final(self).wf(),
            final(self)@ == old(self)@.insert(account@, quota),
    {
        match self.position(&account) {
            Some(i) => {
                proof {
                    lemma_quotas_update(self.entries@, i as int, quota);
                }
                let kept = self.entries[i].account;
                self.entries[i] = QuotaEntry { account: kept, quota };
            },
            None => {
                proof {
                    lemma_quotas_lookup(self.entries@, account@);
                    let grown = self.entries@.push(QuotaEntry { account, quota });
                    assert(grown.drop_last() =~= self.entries@);
                    assert forall|i: int, j: int| 0 <= i < j < grown.len() implies (
                    #[trigger] grown[i]).account@ != (#[trigger] grown[j]).account@ by {
                        assert(grown[i] == self.entries@[i]);
                        if j < self.entries@.len() {
                            assert(grown[j] == self.entries@[j]);
                        } else {
                            if self.entries@[i].account@ == account@ {
                                assert(self@.contains_key(account@));
                            }
                        }
                    }
                }
                self.entries.push(QuotaEntry { account, quota });
            },
        }
    }

    /// Takes `amount` off the quota of `account`. An account that is not on
    /// the list, or has less than `amount` left, keeps what it has.
    pub fn consume(&mut self, account: &AccountId, amount: u64) -> (r: Result<(), Shiden34Error>)
        requires
            old(self).wf(),
        ensures
            final(self).wf(),
            old(self)@.contains_key(account@) && amount <= old(self)@[account@] ==> r == Ok::<
                (),
                Shiden34Error,
            >(()) && final(self)@ == old(self)@.insert(
                account@,
                (old(self)@[account@] - amount) as u64,
            ),
            !(old(self)@.contains_key(account@) && amount <= old(self)@[account@]) ==> r == Err::<
                (),
                Shiden34Error,
            >(Shiden34Error::Unauthorized) && final(self)@ == old(self)@,
    {
        match self.position(account) {
            Some(i) => {
                let entry = self.entries[i];
                if amount > entry.quota {
                    return Err(Shiden34Error::Unauthorized);
                }
                proof {
                    lemma_quotas_update(self.entries@, i as int, (entry.quota - amount) as u64);
                }
                self.entries[i] = QuotaEntry {
                    account: entry.account,
                    quota: entry.quota - amount,
                };
                Ok(())
            },
            None => Err(Shiden34Error::Unauthorized),
        }
    }
}

/// The quotas of the two gated stages.
#[derive(Clone, Debug, PartialEq, Eq)]
pub struct AllowlistRegistry {
    pub prepresale: QuotaTable,
    pub presale: QuotaTable,
}

/// The model of a registry: for each gated stage the quotas by account.
pub struct AllowlistView {
    pub prepresale: Map<Seq<u8>, u64>,
    pub presale: Map<Seq<u8>, u64>,
}

impl AllowlistView {
    /// The quotas of one stage.
    pub open spec fn quotas(self, phase: GatedPhase) -> Map<Seq<u8>, u64> {
        match phase {
            GatedPhase::Prepresale => self.prepresale,
            GatedPhase::Presale => self.presale,
        }
    }

    /// These quotas, but for those of one stage.
    pub open spec fn with_quotas(
        self,
        phase: GatedPhase,
        quotas: Map<Seq<u8>, u64>,
    ) -> AllowlistView {
        match phase {
            GatedPhase::Prepresale => AllowlistView { prepresale: quotas, ..self },
            GatedPhase::Presale => AllowlistView { presale: quotas, ..self },
        }
    }

    /// What is left of an account's quota in one stage, if it is on that
    /// stage's list.
    pub open spec fn remaining(self, phase: GatedPhase, account: Seq<u8>) -> Option<u64> {
        if self.quotas(phase).contains_key(account) {
            Some(self.quotas(phase)[account])
        } else {
            None
        }
    }

    /// Whether an account may mint `amount` tokens in one stage: it is on
    /// the list and has that many left.
    pub open spec fn covers(self, phase: GatedPhase, account: Seq<u8>, amount: u64) -> bool {
        self.remaining(phase, account) matches Some(left) && amount <= left
    }

    /// These quotas with one account's quota set.
    pub open spec fn with_quota(
        self,
        phase: GatedPhase,
        account: Seq<u8>,
        quota: u64,
    ) -> AllowlistView {
        self.with_quotas(phase, self.quotas(phase).insert(account, quota))
    }

    /// These quotas with `amount` taken off one account's quota.
    pub open spec fn after_consume(
        self,
        phase: GatedPhase,
        account: Seq<u8>,
        amount: u64,
    ) -> AllowlistView {
        self.with_quota(phase, account, (self.quotas(phase)[account] - amount) as u64)
    }
}

impl View for AllowlistRegistry {
    type V = AllowlistView;

    open spec fn view(&self) -> AllowlistView {
        AllowlistView { prepresale: self.prepresale@, presale: self.presale@ }
    }
}

impl AllowlistRegistry {
    pub open spec fn wf(&self) -> bool {
        self.prepresale.wf() && self.presale.wf()
    }

    /// Whether this registry is one that the operations take.
    pub fn is_well_formed(&self) -> (ok: bool)
        ensures
            ok == self.wf(),
    {
        self.prepresale.is_well_formed() && self.presale.is_well_formed()
    }

    /// A registry with nobody on either list.
    pub fn new() -> (registry: AllowlistRegistry)
        ensures
            registry.wf(),
            registry@ == (AllowlistView { prepresale: Map::empty(), presale: Map::empty() }),
    {
        AllowlistRegistry { prepresale: QuotaTable::new(), presale: QuotaTable::new() }
    }

    /// Sets the quota of `account` in one stage; what it had before does not
    /// count. Only the administrator may.
    pub fn add(
        &mut self,
        caller_is_admin: bool,
        phase: GatedPhase,
        account: AccountId,
        quota: u64,
    ) -> (r: Result<(), Shiden34Error>)
        requires
            old(self).wf(),
        ensures
            final(self).wf(),
            caller_is_admin ==> r == Ok::<(), Shiden34Error>(()) && final(self)@ == old(
                self,
            )@.with_quota(phase, account@, quota),
            !caller_is_admin ==> r == Err::<(), Shiden34Error>(Shiden34Error::Unauthorized)
                && final(self)@ == old(self)@,
    {
        if !caller_is_admin {
            return Err(Shiden34Error::Unauthorized);
        }
        match phase {
            GatedPhase::Prepresale => self.prepresale.set(account, quota),
            GatedPhase::Presale => self.presale.set(account, quota),
        }
        Ok(())
    }

    /// Sets the quotas of a list of accounts in one stage, first to last, so
    /// that of an account named twice the later quota stands. Without the
    /// administrator's authority none is set.
    pub fn add_batch(
        &mut self,
        caller_is_admin: bool,
        phase: GatedPhase,
        list: &Vec<(AccountId, u64)>,
    ) -> (r: Result<(), Shiden34Error>)
        requires
            old(self).wf(),
        ensures
            final(self).wf(),
            caller_is_admin ==> r == Ok::<(), Shiden34Error>(()) && final(self)@ == old(
                self,
            )@.with_quotas(phase, with_batch(old(self)@.quotas(phase), list@)),
            !caller_is_admin ==> r == Err::<(), Shiden34Error>(Shiden34Error::Unauthorized)
                && final(self)@ == old(self)@,
    {
        if !caller_is_admin {
            return Err(Shiden34Error::Unauthorized);
        }
        let ghost start = self@;
        let mut i: usize = 0;
        while i < list.len()
            invariant
                i <= list@.len(),
                self.wf(),
                self@ == start.with_quotas(
                    phase,
                    with_batch(start.quotas(phase), list@.subrange(0, i as int)),
                ),
            decreases list@.len() - i,
        {
            let pair = list[i];
            proof {
                assert(list@.subrange(0, i + 1).drop_last() =~= list@.subrange(0, i as int));
            }
            match phase {
                GatedPhase::Prepresale => self.prepresale.set(pair.0, pair.1),
                GatedPhase::Presale => self.presale.set(pair.0, pair.1),
            }
            i = i + 1;
        }
        proof {
            assert(list@.subrange(0, list@.len() as int) =~= list@);
        }
        Ok(())
    }

    /// What is left of the quota of `account` in one stage, if it is on
    /// that stage's list.
    pub fn remaining(&self, phase: GatedPhase, account: &AccountId) -> (quota: Option<u64>)
        requires
            self.wf(),
        ensures
            quota == self@.remaining(phase, account@),
    {
        match phase {
            GatedPhase::Prepresale => self.prepresale.get(account),
            GatedPhase::Presale => self.presale.get(account),
        }
    }

    /// Takes `amount` off the quota of `account` in one stage. An account
    /// that is not on the list, or has less than `amount` left, keeps what
    /// it has.
    pub fn consume(&mut self, phase: GatedPhase, account: &AccountId, amount: u64) -> (r: Result<
        (),
        Shiden34Error,
    >)
        requires
            old(self).wf(),
        ensures
            final(self).wf(),
            old(self)@.covers(phase, account@, amount) ==> r == Ok::<(), Shiden34Error>(())
                && final(self)@ == old(self)@.after_consume(phase, account@, amount),
            !old(self)@.covers(phase, account@, amount) ==> r == Err::<(), Shiden34Error>(
                Shiden34Error::Unauthorized,
            ) && final(self)@ == old(self)@,
    {
        match phase {
            GatedPhase::Prepresale => self.prepresale.consume(account, amount),
            GatedPhase::Presale => self.presale.consume(account, amount),
        }
    }
}

} // verus!
