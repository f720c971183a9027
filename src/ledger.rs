//! The monthly byte budget: the ledger that processes share, and the
//! decisions taken on it when bytes are reserved and when a transfer ends.

use crate::calendar::{Date, UtcDateTime};
use ordermap::OrderMap;
use vstd::prelude::*;

verus! {

#[verifier::external_type_specification]
#[verifier::external_body]
#[verifier::reject_recursive_types(K)]
#[verifier::reject_recursive_types(V)]
#[verifier::reject_recursive_types(S)]
pub struct ExOrderMap<K, V, S>(OrderMap<K, V, S>);

/// A pending reservation in the ledger.
#[derive(Clone, Debug)]
pub struct QueueItem {
    pub description: String,
    pub amount: u64,
    pub time_added: UtcDateTime,
}

/// The entries of a queue, keyed by id, in insertion order.
pub uninterp spec fn queue_entries(q: OrderMap<String, QueueItem>) -> Seq<(Seq<char>, QueueItem)>;

/// Relies on OrderMap::new: the map starts empty.
#[verifier::external_body]
fn queue_new() -> (r: OrderMap<String, QueueItem>)
    ensures
        queue_entries(r) == Seq::<(Seq<char>, QueueItem)>::empty(),
{
    OrderMap::new()
}

/// Relies on OrderMap::len: the number of entries.
#[verifier::external_body]
fn queue_len(q: &OrderMap<String, QueueItem>) -> (r: usize)
    ensures
        r == queue_entries(*q).len(),
{
    q.len()
}

/// Relies on OrderMap::get_index_of: the position of the key in insertion
/// order, if it is present.
#[verifier::external_body]
fn queue_index_of(q: &OrderMap<String, QueueItem>, id: &str) -> (r: Option<usize>)
    ensures
        r matches Some(i) ==> i < queue_entries(*q).len() && queue_entries(*q)[i as int].0 == id@,
        r is None ==> forall|i: int|
            0 <= i < queue_entries(*q).len() ==> #[trigger] queue_entries(*q)[i].0 != id@,
{
    q.get_index_of(id)
}

/// Relies on OrderMap::get_index: the entry at a position in insertion order.
#[verifier::external_body]
fn queue_entry_at(q: &OrderMap<String, QueueItem>, index: usize) -> (r: Option<
    (&String, &QueueItem),
>)
    ensures
        r.is_some() <==> index < queue_entries(*q).len(),
        r matches Some(kv) ==> kv.0@ == queue_entries(*q)[index as int].0 && *kv.1 == queue_entries(
            *q,
        )[index as int].1,
{
    q.get_index(index)
}

/// Relies on OrderMap::entry and Entry::or_insert: a key already present
/// keeps its entry and place; a new key is added last.
#[verifier::external_body]
fn queue_insert_if_absent(q: &mut OrderMap<String, QueueItem>, id: String, item: QueueItem)
    ensures
        has_key(queue_entries(*old(q)), id@) ==> queue_entries(*final(q)) == queue_entries(*old(q)),
        !has_key(queue_entries(*old(q)), id@) ==> queue_entries(*final(q)) == queue_entries(
            *old(q),
        ).push((id@, item)),
{
    q.entry(id).or_insert(item);
}

/// Relies on OrderMap::remove, which shifts the later entries down and so
/// keeps their order.
#[verifier::external_body]
fn queue_remove(q: &mut OrderMap<String, QueueItem>, id: &str) -> (r: Option<QueueItem>)
    requires
        unique_keys(queue_entries(*old(q))),
    ensures
        forall|i: int|
            0 <= i < queue_entries(*old(q)).len() && #[trigger] queue_entries(*old(q))[i].0 == id@
                ==> r == Some(queue_entries(*old(q))[i].1) && queue_entries(*final(q))
                == queue_entries(*old(q)).remove(i),
        !has_key(queue_entries(*old(q)), id@) ==> r is None && queue_entries(*final(q))
            == queue_entries(*old(q)),
{
    q.remove(id)
}

pub open spec fn has_key(entries: Seq<(Seq<char>, QueueItem)>, id: Seq<char>) -> bool {
    exists|i: int| 0 <= i < entries.len() && #[trigger] entries[i].0 == id
}

pub open spec fn unique_keys(entries: Seq<(Seq<char>, QueueItem)>) -> bool {
    forall|i: int, j: int|
        0 <= i < entries.len() && 0 <= j < entries.len() && i != j ==> #[trigger] entries[i].0
            != #[trigger] entries[j].0
}

/// The sum of the amounts of the first `n` entries.
pub open spec fn amount_before(entries: Seq<(Seq<char>, QueueItem)>, n: int) -> int
    decreases n,
{
    if n <= 0 || entries.len() == 0 {
        0
    } else {
        amount_before(entries, n - 1) + entries[n - 1].1.amount
    }
}

pub open spec fn max_int(a: int, b: int) -> int {
    if a >= b {
        a
    } else {
        b
    }
}

/// The budget rule: what was used this month, what is queued ahead, and the
/// amount asked for fit within the limit, stretched to the amount when the
/// amount alone is larger.
pub open spec fn admits(used: int, ahead: int, amount: int, limit: int) -> bool {
    used + ahead + amount <= max_int(limit, amount)
}

/// The months to wait before the next check: one more than the number of
/// whole limits in what is queued ahead and the amount, as far as a `u64`
/// goes.
pub open spec fn wait_months(ahead: int, amount: int, limit: int) -> int {
    let m = 1 + (ahead + amount) / limit;
    if m > u64::MAX {
        u64::MAX as int
    } else {
        m
    }
}

/// Amounts queued are never negative, so neither is their sum.
proof fn lemma_amount_before_nonneg(entries: Seq<(Seq<char>, QueueItem)>, n: int)
    ensures
        amount_before(entries, n) >= 0,
    decreases n,
{
    if n > 0 && entries.len() > 0 {
        lemma_amount_before_nonneg(entries, n - 1);
    }
}

/// The sum of the first `n` amounts counts the amount of each entry `i`
/// below `n`.
proof fn lemma_amount_before_includes(entries: Seq<(Seq<char>, QueueItem)>, i: int, n: int)
    requires
        0 <= i < n <= entries.len(),
    ensures
        amount_before(entries, n) >= entries[i].1.amount,
    decreases n,
{
    if n == i + 1 {
        lemma_amount_before_nonneg(entries, i);
    } else {
        lemma_amount_before_includes(entries, i, n - 1);
    }
}

/// Reservations serialize: while entry `i` is still queued ahead of entry
/// `j`, the holder of `j` is not admitted when the two amounts together
/// exceed what `j` may use, `max(limit, amount of j)`. With a limit of 1000
/// and two reservations of 600, the second waits until the first is marked
/// complete.
pub proof fn lemma_later_waits_for_earlier(ledger: Ledger, i: int, j: int, limit: int)
    requires
        ledger.wf(),
        0 <= i < j < ledger.entries().len(),
        ledger.entries()[i].1.amount + ledger.entries()[j].1.amount > max_int(
            limit,
            ledger.entries()[j].1.amount as int,
        ),
    ensures
        !admits(
            ledger.used(),
            amount_before(ledger.entries(), j),
            ledger.entries()[j].1.amount as int,
            limit,
        ),
{
    lemma_amount_before_includes(ledger.entries(), i, j);
}

/// What a process waiting on the budget does next.
#[derive(Clone, Copy, Debug, PartialEq, Eq, Structural)]
pub enum Admission {
    /// The bytes may be moved now.
    Admitted,
    /// Check again at midnight UTC of the first day of the month this many
    /// months ahead.
    Wait { months: u64 },
    /// The id has no entry in the queue.
    NotQueued,
}

/// How marking a reservation complete went.
#[derive(Clone, Copy, Debug, PartialEq, Eq, Structural)]
pub enum Completion {
    /// The entry was removed and its amount added to the month's usage.
    Completed { amount: u64 },
    /// The id has no entry in the queue; the ledger is unchanged.
    NotQueued,
    /// The usage would exceed `u64::MAX`; the ledger is unchanged.
    UsageOverflow,
}

/// The state of the budget: the month it counts, the bytes used in it, and
/// the queue of reservations in the order in which they were made.
pub struct Ledger {
    current_month: Date,
    used_this_month: u64,
    queue: OrderMap<String, QueueItem>,
}

impl Ledger {
    pub closed spec fn month(&self) -> Date {
        self.current_month
    }

    pub closed spec fn used(&self) -> int {
        self.used_this_month as int
    }

    pub closed spec fn entries(&self) -> Seq<(Seq<char>, QueueItem)> {
        queue_entries(self.queue)
    }

    pub open spec fn wf(&self) -> bool {
        &&& self.month().wf()
        &&& unique_keys(self.entries())
        &&& 0 <= self.used() <= u64::MAX
    }

    /// The ledger of a first run: the month of `today`, nothing used, nothing
    /// queued.
    pub fn new(today: Date) -> (r: Ledger)
        requires
            today.wf(),
        ensures
            r.wf(),
            r.month() == today,
            r.used() == 0,
            r.entries() == Seq::<(Seq<char>, QueueItem)>::empty(),
    {
        Ledger { current_month: today, used_this_month: 0, queue: queue_new() }
    }

    /// A ledger with the given month and usage and an empty queue; entries
    /// are added with `enqueue`.
    pub fn with_usage(current_month: Date, used_this_month: u64) -> (r: Ledger)
        requires
            current_month.wf(),
        ensures
            r.wf(),
            r.month() == current_month,
            r.used() == used_this_month,
            r.entries() == Seq::<(Seq<char>, QueueItem)>::empty(),
    {
        Ledger { current_month, used_this_month, queue: queue_new() }
    }

    pub fn current_month(&self) -> (r: Date)
        ensures
            r == self.month(),
    {
        self.current_month
    }

    pub fn used_this_month(&self) -> (r: u64)
        ensures
            r == self.used(),
    {
        self.used_this_month
    }

    pub fn queue_len(&self) -> (r: usize)
        ensures
            r == self.entries().len(),
    {
        queue_len(&self.queue)
    }

    /// The entry at a position of the queue.
    pub fn entry_at(&self, index: usize) -> (r: Option<(&String, &QueueItem)>)
        ensures
            r.is_some() <==> index < self.entries().len(),
            r matches Some(kv) ==> kv.0@ == self.entries()[index as int].0 && *kv.1
                == self.entries()[index as int].1,
    {
        queue_entry_at(&self.queue, index)
    }

    pub fn contains(&self, id: &str) -> (r: bool)
        ensures
            r == has_key(self.entries(), id@),
    {
        queue_index_of(&self.queue, id).is_some()
    }

    /// Starts a new month when `today` lies in another month than the
    /// ledger's: the month becomes `today`'s and the usage drops to zero.
    pub fn roll_over(&mut self, today: Date)
        requires
            old(self).wf(),
            today.wf(),
        ensures
            final(self).wf(),
            final(self).entries() == old(self).entries(),
            old(self).month().same_month_spec(today) ==> final(self).month() == old(self).month()
                && final(self).used() == old(self).used(),
            !old(self).month().same_month_spec(today) ==> final(self).month() == today
                && final(self).used() == 0,
    {
        if !self.current_month.same_month(&today) {
            self.current_month = today;
            self.used_this_month = 0;
        }
    }

    /// Adds an entry for `id` at the end of the queue, unless the id has one
    /// already, which then stays as it is.
    pub fn enqueue(&mut self, id: String, item: QueueItem)
        requires
            old(self).wf(),
        ensures
            final(self).wf(),
            final(self).month() == old(self).month(),
            final(self).used() == old(self).used(),
            has_key(old(self).entries(), id@) ==> final(self).entries() == old(self).entries(),
            !has_key(old(self).entries(), id@) ==> final(self).entries() == old(
                self,
            ).entries().push((id@, item)),
    {
        let ghost key = id@;
        queue_insert_if_absent(&mut self.queue, id, item);
        proof {
            if !has_key(old(self).entries(), key) {
                let e = self.entries();
                assert forall|i: int, j: int|
                    0 <= i < e.len() && 0 <= j < e.len() && i != j implies #[trigger] e[i].0
                    != #[trigger] e[j].0 by {
                    if i == e.len() - 1 {
                        assert(old(self).entries()[j].0 == e[j].0);
                    } else if j == e.len() - 1 {
                        assert(old(self).entries()[i].0 == e[i].0);
                    } else {
                        assert(old(self).entries()[i] == e[i]);
                        assert(old(self).entries()[j] == e[j]);
                    }
                }
            }
        }
    }

    /// The sum of the amounts of the entries that precede position `index`.
    fn amount_ahead(&self, index: usize) -> (r: u128)
        requires
            index <= self.entries().len(),
        ensures
            r == amount_before(self.entries(), index as int),
            r <= index * (u64::MAX as int),
    {
        let mut total: u128 = 0;
        let mut i: usize = 0;
        while i < index
            invariant
                i <= index <= self.entries().len(),
                total == amount_before(self.entries(), i as int),
                total <= i * (u64::MAX as int),
            decreases index - i,
        {
            let (_, item) = queue_entry_at(&self.queue, i).unwrap();
            proof {
                assert((i + 1) * (u64::MAX as int) <= (usize::MAX as int) * (u64::MAX as int))
                    by (nonlinear_arith)
                    requires
                        i < usize::MAX,
                ;
                assert((i + 1) * (u64::MAX as int) == i * (u64::MAX as int) + u64::MAX)
                    by (nonlinear_arith);
            }
            total = total + item.amount as u128;
            i = i + 1;
        }
        total
    }

    /// Decides whether the holder of `id`, which reserved `amount` bytes, may
    /// go on under a monthly `limit`.
    pub fn admission(&self, id: &str, amount: u64, limit: u64) -> (r: Admission)
        requires
            self.wf(),
            limit > 0,
        ensures
            r is NotQueued <==> !has_key(self.entries(), id@),
            forall|i: int|
                0 <= i < self.entries().len() && #[trigger] self.entries()[i].0 == id@ ==> {
                    &&& (r is Admitted <==> admits(
                        self.used(),
                        amount_before(self.entries(), i),
                        amount as int,
                        limit as int,
                    ))
                    &&& (r matches Admission::Wait { months } ==> months == wait_months(
                        amount_before(self.entries(), i),
                        amount as int,
                        limit as int,
                    ))
                },
    {
        let index = match queue_index_of(&self.queue, id) {
            Some(index) => index,
            None => {
                return Admission::NotQueued;
            },
        };
        proof {
            assert(has_key(self.entries(), id@));
        }
        let ahead = self.amount_ahead(index);
        let ceiling: u64 = if limit >= amount {
            limit
        } else {
            amount
        };
        proof {
            assert(index * (u64::MAX as int) <= (usize::MAX as int) * (u64::MAX as int))
                by (nonlinear_arith)
                requires
                    index <= usize::MAX,
            ;
            assert((usize::MAX as int) * (u64::MAX as int) + 2 * (u64::MAX as int) <= u128::MAX);
        }
        let r = if self.used_this_month as u128 + ahead + amount as u128 <= ceiling as u128 {
            Admission::Admitted
        } else {
            let months: u128 = 1 + (ahead + amount as u128) / limit as u128;
            let months: u64 = if months > u64::MAX as u128 {
                u64::MAX
            } else {
                months as u64
            };
            Admission::Wait { months }
        };
        proof {
            assert forall|i: int|
                0 <= i < self.entries().len() && #[trigger] self.entries()[i].0 == id@ implies i
                == index by {
                if i != index {
                    assert(self.entries()[i].0 != self.entries()[index as int].0);
                }
            }
        }
        r
    }

    /// Removes the entry of `id` and adds its amount to the month's usage.
    pub fn mark_complete(&mut self, id: &str) -> (r: Completion)
        requires
            old(self).wf(),
        ensures
            final(self).wf(),
            final(self).month() == old(self).month(),
            r is NotQueued <==> !has_key(old(self).entries(), id@),
            r is NotQueued || r is UsageOverflow ==> final(self).entries() == old(self).entries()
                && final(self).used() == old(self).used(),
            forall|i: int|
                0 <= i < old(self).entries().len() && #[trigger] old(self).entries()[i].0 == id@
                    ==> {
                    let amount = old(self).entries()[i].1.amount;
                    &&& (r is UsageOverflow <==> old(self).used() + amount > u64::MAX)
                    &&& (r is Completed ==> r == Completion::Completed { amount }
                        && final(self).entries() == old(self).entries().remove(i)
                        && final(self).used() == old(self).used() + amount)
                },
            r is Completed ==> !has_key(final(self).entries(), id@),
    {
        let index = match queue_index_of(&self.queue, id) {
            Some(index) => index,
            None => {
                return Completion::NotQueued;
            },
        };
        let ghost before = self.entries();
        proof {
            assert(has_key(before, id@));
            assert forall|i: int|
                0 <= i < before.len() && #[trigger] before[i].0 == id@ implies i == index by {
                if i != index {
                    assert(before[i].0 != before[index as int].0);
                }
            }
        }
        let amount = queue_entry_at(&self.queue, index).unwrap().1.amount;
        if amount > u64::MAX - self.used_this_month {
            return Completion::UsageOverflow;
        }
        let removed = queue_remove(&mut self.queue, id);
        self.used_this_month = self.used_this_month + amount;
        proof {
            let e = self.entries();
            assert(e == before.remove(index as int));
            assert forall|i: int, j: int|
                0 <= i < e.len() && 0 <= j < e.len() && i != j implies #[trigger] e[i].0
                != #[trigger] e[j].0 by {
                let oi = if i < index { i } else { i + 1 };
                let oj = if j < index { j } else { j + 1 };
                assert(e[i] == before[oi]);
                assert(e[j] == before[oj]);
            }
            assert forall|i: int| 0 <= i < e.len() implies #[trigger] e[i].0 != id@ by {
                let oi = if i < index { i } else { i + 1 };
                assert(e[i] == before[oi]);
            }
        }
        Completion::Completed { amount }
    }
}

/// A budget of `limit` bytes a month, kept in a ledger file at `path`;
/// entries it adds carry `description`.
#[derive(Clone, Debug)]
pub struct FileBackedAmountLimiter {
    pub path: String,
    pub limit: u64,
    pub description: String,
}

/// A reservation held in the ledger of a file-backed limiter.
#[derive(Clone, Debug)]
pub struct FileBackedAmountReservation {
    pub limiter: FileBackedAmountLimiter,
    pub id: String,
}

impl FileBackedAmountLimiter {
    pub fn new(path: String, limit: u64, description: String) -> (r: FileBackedAmountLimiter)
        ensures
            r.path@ == path@,
            r.limit == limit,
            r.description@ == description@,
    {
        FileBackedAmountLimiter { path, limit, description }
    }

    /// Enters a reservation of `amount` bytes under `id`, made at `now`; an id
    /// already queued keeps its entry.
    pub fn enqueue(&self, ledger: &mut Ledger, id: &str, amount: u64, now: UtcDateTime)
        requires
            old(ledger).wf(),
        ensures
            final(ledger).wf(),
            final(ledger).month() == old(ledger).month(),
            final(ledger).used() == old(ledger).used(),
            has_key(old(ledger).entries(), id@) ==> final(ledger).entries() == old(
                ledger,
            ).entries(),
            !has_key(old(ledger).entries(), id@) ==> final(ledger).entries().len() == old(
                ledger,
            ).entries().len() + 1 && final(ledger).entries().drop_last() == old(ledger).entries()
                && final(ledger).entries().last().0 == id@ && final(ledger).entries().last().1.amount
                == amount && final(ledger).entries().last().1.description@ == self.description@
                && final(ledger).entries().last().1.time_added == now,
    {
        let item = QueueItem { description: self.description.clone(), amount, time_added: now };
        let key = id.to_owned();
        ledger.enqueue(key, item);
        proof {
            if !has_key(old(ledger).entries(), id@) {
                assert(ledger.entries().drop_last() == old(ledger).entries());
            }
        }
    }

    /// A reservation of `amount` bytes under `id`, made at `now`: the entry
    /// is queued (an id already queued keeps its entry), and the answer says
    /// whether the holder may go on now or when to check again. The holder
    /// goes on only on `Admitted`, which holds exactly when what was used
    /// this month, the amounts queued ahead of `id` and `amount` fit in
    /// `max(limit, amount)`.
    pub fn reserve(&self, ledger: &mut Ledger, id: &str, amount: u64, now: UtcDateTime) -> (r:
        Admission)
        requires
            old(ledger).wf(),
            self.limit > 0,
        ensures
            final(ledger).wf(),
            final(ledger).month() == old(ledger).month(),
            final(ledger).used() == old(ledger).used(),
            has_key(old(ledger).entries(), id@) ==> final(ledger).entries() == old(
                ledger,
            ).entries(),
            !has_key(old(ledger).entries(), id@) ==> final(ledger).entries().len() == old(
                ledger,
            ).entries().len() + 1 && final(ledger).entries().drop_last() == old(ledger).entries()
                && final(ledger).entries().last().0 == id@ && final(ledger).entries().last().1.amount
                == amount && final(ledger).entries().last().1.description@ == self.description@
                && final(ledger).entries().last().1.time_added == now,
            has_key(final(ledger).entries(), id@),
            !(r is NotQueued),
            forall|i: int|
                0 <= i < final(ledger).entries().len() && #[trigger] final(ledger).entries()[i].0
                    == id@ ==> {
                    &&& (r is Admitted <==> admits(
                        final(ledger).used(),
                        amount_before(final(ledger).entries(), i),
                        amount as int,
                        self.limit as int,
                    ))
                    &&& (r matches Admission::Wait { months } ==> months == wait_months(
                        amount_before(final(ledger).entries(), i),
                        amount as int,
                        self.limit as int,
                    ))
                },
    {
        self.enqueue(ledger, id, amount, now);
        proof {
            if !has_key(old(ledger).entries(), id@) {
                let last = ledger.entries().len() - 1;
                assert(ledger.entries()[last].0 == id@);
            }
        }
        ledger.admission(id, amount, self.limit)
    }

    /// Whether the holder of `id` may go on; see `Ledger::admission`.
    pub fn admission(&self, ledger: &Ledger, id: &str, amount: u64) -> (r: Admission)
        requires
            ledger.wf(),
            self.limit > 0,
        ensures
            r is NotQueued <==> !has_key(ledger.entries(), id@),
            forall|i: int|
                0 <= i < ledger.entries().len() && #[trigger] ledger.entries()[i].0 == id@ ==> {
                    &&& (r is Admitted <==> admits(
                        ledger.used(),
                        amount_before(ledger.entries(), i),
                        amount as int,
                        self.limit as int,
                    ))
                    &&& (r matches Admission::Wait { months } ==> months == wait_months(
                        amount_before(ledger.entries(), i),
                        amount as int,
                        self.limit as int,
                    ))
                },
    {
        ledger.admission(id, amount, self.limit)
    }

    /// The handle of the reservation of `id`, when the ledger still holds it.
    pub fn get_reservation(&self, ledger: &Ledger, id: &str) -> (r: Option<
        FileBackedAmountReservation,
    >)
        ensures
            r.is_some() <==> has_key(ledger.entries(), id@),
            r matches Some(res) ==> res.id@ == id@ && res.limiter.limit == self.limit
                && res.limiter.path@ == self.path@ && res.limiter.description@
                == self.description@,
    {
        if ledger.contains(id) {
            Some(
                FileBackedAmountReservation {
                    limiter: FileBackedAmountLimiter {
                        path: self.path.clone(),
                        limit: self.limit,
                        description: self.description.clone(),
                    },
                    id: id.to_owned(),
                },
            )
        } else {
            None
        }
    }
}

impl FileBackedAmountReservation {
    /// Ends the reservation: its entry leaves the queue and its amount is
    /// counted as used.
    pub fn mark_complete(&self, ledger: &mut Ledger) -> (r: Completion)
        requires
            old(ledger).wf(),
        ensures
            final(ledger).wf(),
            final(ledger).month() == old(ledger).month(),
            r is NotQueued <==> !has_key(old(ledger).entries(), self.id@),
            r is NotQueued || r is UsageOverflow ==> final(ledger).entries() == old(
                ledger,
            ).entries() && final(ledger).used() == old(ledger).used(),
            forall|i: int|
                0 <= i < old(ledger).entries().len() && #[trigger] old(ledger).entries()[i].0
                    == self.id@ ==> {
                    let amount = old(ledger).entries()[i].1.amount;
                    &&& (r is UsageOverflow <==> old(ledger).used() + amount > u64::MAX)
                    &&& (r is Completed ==> r == Completion::Completed { amount }
                        && final(ledger).entries() == old(ledger).entries().remove(i)
                        && final(ledger).used() == old(ledger).used() + amount)
                },
            r is Completed ==> !has_key(final(ledger).entries(), self.id@),
    {
        ledger.mark_complete(self.id.as_str())
    }
}

/// A limiter without a budget: every reservation is granted at once.
#[derive(Clone, Copy, Debug)]
pub struct UnlimitedAmountLimiter;

/// The reservation of an unlimited limiter; completing it does nothing.
#[derive(Clone, Copy, Debug)]
pub struct UnlimitedAmountReservation;

impl UnlimitedAmountLimiter {
    pub fn reserve(&self, amount: u64, id: &str) -> (r: UnlimitedAmountReservation) {
        UnlimitedAmountReservation
    }

    /// Every id has a reservation.
    pub fn get_reservation(&self, id: &str) -> (r: Option<UnlimitedAmountReservation>)
        ensures
            r.is_some(),
    {
        Some(UnlimitedAmountReservation)
    }
}

impl UnlimitedAmountReservation {
    pub fn mark_complete(&self) {
    }
}

} // verus!
