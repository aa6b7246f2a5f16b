//! Lists of transactions as a caller asks for them: narrowed down, ordered
//! by date and cut to a length.

use crate::calendar::Date;
use crate::classify::{filter_by_transaction_type, is_uncategorized, of_kind, untagged};
use crate::model::{Transaction, TransactionType, TransactionView};
use vstd::prelude::*;

verus! {

/// The direction in which a list is ordered by date.
#[derive(Clone, Copy, Debug, PartialEq, Eq, Structural)]
pub enum SortDirection {
    /// Newest first.
    Desc,
    /// Oldest first.
    Asc,
}

impl Default for SortDirection {
    fn default() -> (direction: SortDirection)
        ensures
            direction == SortDirection::Desc,
    {
        SortDirection::Desc
    }
}

/// The first date is not after the second: they compare by year, then by
/// month, then by day.
pub open spec fn date_le(a: Date, b: Date) -> bool {
    a.year < b.year || (a.year == b.year && (a.month < b.month || (a.month == b.month && a.day
        <= b.day)))
}

/// Tells whether the first date is not after the second.
pub fn not_after(a: Date, b: Date) -> (yes: bool)
    ensures
        yes == date_le(a, b),
{
    a.year < b.year || (a.year == b.year && (a.month < b.month || (a.month == b.month && a.day
        <= b.day)))
}

/// A transaction of the first date may stand before one of the second date
/// in a list ordered in the given direction.
pub open spec fn in_order(direction: SortDirection, first: Date, second: Date) -> bool {
    match direction {
        SortDirection::Asc => date_le(first, second),
        SortDirection::Desc => date_le(second, first),
    }
}

/// Tells whether the first date may stand before the second.
pub fn may_precede(direction: SortDirection, first: Date, second: Date) -> (yes: bool)
    ensures
        yes == in_order(direction, first, second),
{
    match direction {
        SortDirection::Asc => not_after(first, second),
        SortDirection::Desc => not_after(second, first),
    }
}

/// An ordered list with one more transaction, put behind the last
/// transaction that may stand before it.
pub open spec fn inserted(
    ordered: Seq<TransactionView>,
    tx: TransactionView,
    direction: SortDirection,
) -> Seq<TransactionView>
    decreases ordered.len(),
{
    if ordered.len() == 0 {
        seq![tx]
    } else if in_order(direction, ordered.last().date, tx.date) {
        ordered.push(tx)
    } else {
        inserted(ordered.drop_last(), tx, direction).push(ordered.last())
    }
}

/// The transactions ordered by date in the given direction. Transactions of
/// one date keep the order that they came in.
pub open spec fn ordered_by_date(transactions: Seq<TransactionView>, direction: SortDirection) -> Seq<
    TransactionView,
>
    decreases transactions.len(),
{
    if transactions.len() == 0 {
        Seq::empty()
    } else {
        inserted(
            ordered_by_date(transactions.drop_last(), direction),
            transactions.last(),
            direction,
        )
    }
}

/// The list is in order: each transaction may stand before each one behind
/// it.
pub open spec fn is_ordered(transactions: Seq<TransactionView>, direction: SortDirection) -> bool {
    forall|i: int, j: int|
        0 <= i < j < transactions.len() ==> in_order(
            direction,
            (#[trigger] transactions[i]).date,
            (#[trigger] transactions[j]).date,
        )
}

/// Putting a transaction into an ordered list at the place behind the last
/// one that may stand before it is inserting it there.
pub proof fn inserted_at(
    ordered: Seq<TransactionView>,
    tx: TransactionView,
    direction: SortDirection,
    place: int,
)
    requires
        0 <= place <= ordered.len(),
        place > 0 ==> in_order(direction, ordered[place - 1].date, tx.date),
        forall|i: int| place <= i < ordered.len() ==> !in_order(
            direction,
            (#[trigger] ordered[i]).date,
            tx.date,
        ),
    ensures
        inserted(ordered, tx, direction) == ordered.insert(place, tx),
    decreases ordered.len(),
{
    if ordered.len() == 0 {
        assert(ordered.insert(place, tx) =~= seq![tx]);
    } else if place == ordered.len() {
        assert(ordered.insert(place, tx) =~= ordered.push(tx));
    } else {
        let shorter = ordered.drop_last();
        assert(!in_order(direction, ordered[ordered.len() - 1].date, tx.date));
        assert forall|i: int| place <= i < shorter.len() implies !in_order(
            direction,
            (#[trigger] shorter[i]).date,
            tx.date,
        ) by {
            assert(shorter[i] == ordered[i]);
        }
        inserted_at(shorter, tx, direction, place);
        assert(shorter.insert(place, tx).push(ordered.last()) =~= ordered.insert(place, tx));
    }
}

/// Two dates compare one way or the other.
pub proof fn dates_compare(direction: SortDirection, a: Date, b: Date)
    ensures
        in_order(direction, a, b) || in_order(direction, b, a),
{
}

/// What may stand before a date may stand before every date behind it.
pub proof fn order_is_transitive(direction: SortDirection, a: Date, b: Date, c: Date)
    requires
        in_order(direction, a, b),
        in_order(direction, b, c),
    ensures
        in_order(direction, a, c),
{
}

/// Inserting into an ordered list leaves it ordered and adds the one
/// transaction to what it holds.
pub proof fn inserted_keeps_order(
    ordered: Seq<TransactionView>,
    tx: TransactionView,
    direction: SortDirection,
)
    requires
        is_ordered(ordered, direction),
    ensures
        is_ordered(inserted(ordered, tx, direction), direction),
        inserted(ordered, tx, direction).to_multiset() == ordered.to_multiset().insert(tx),
        inserted(ordered, tx, direction).len() == ordered.len() + 1,
    decreases ordered.len(),
{
    broadcast use vstd::seq_lib::group_to_multiset_ensures;

    let result = inserted(ordered, tx, direction);
    if ordered.len() == 0 {
        assert(ordered =~= Seq::empty());
        assert(result =~= Seq::<TransactionView>::empty().push(tx));
    } else if in_order(direction, ordered.last().date, tx.date) {
        assert forall|i: int, j: int| 0 <= i < j < result.len() implies in_order(
            direction,
            (#[trigger] result[i]).date,
            (#[trigger] result[j]).date,
        ) by {
            if j == ordered.len() {
                if i < ordered.len() - 1 {
                    assert(in_order(direction, ordered[i].date, ordered[ordered.len() - 1].date));
                    order_is_transitive(direction, ordered[i].date, ordered.last().date, tx.date);
                }
            } else {
                assert(in_order(direction, ordered[i].date, ordered[j].date));
            }
        }
    } else {
        let shorter = ordered.drop_last();
        let last = ordered.last();
        assert(is_ordered(shorter, direction)) by {
            assert forall|i: int, j: int| 0 <= i < j < shorter.len() implies in_order(
                direction,
                (#[trigger] shorter[i]).date,
                (#[trigger] shorter[j]).date,
            ) by {
                assert(in_order(direction, ordered[i].date, ordered[j].date));
            }
        }
        inserted_keeps_order(shorter, tx, direction);
        let inner = inserted(shorter, tx, direction);
        assert(result == inner.push(last));
        assert(ordered =~= shorter.push(last));
        dates_compare(direction, last.date, tx.date);
        assert forall|i: int, j: int| 0 <= i < j < result.len() implies in_order(
            direction,
            (#[trigger] result[i]).date,
            (#[trigger] result[j]).date,
        ) by {
            if j == inner.len() {
                // every transaction of `inner` is the new one or one of `shorter`
                assert(inner.to_multiset().count(inner[i]) > 0);
                if inner[i] != tx {
                    assert(shorter.to_multiset().count(inner[i]) > 0);
                    let k = choose|k: int| 0 <= k < shorter.len() && shorter[k] == inner[i];
                    assert(in_order(direction, ordered[k].date, ordered[ordered.len() - 1].date));
                }
            } else {
                assert(in_order(direction, inner[i].date, inner[j].date));
            }
        }
    }
}

/// The ordered list is in order and holds the transactions that came in,
/// each as often as it came.
pub proof fn ordered_is_a_sorted_permutation(
    transactions: Seq<TransactionView>,
    direction: SortDirection,
)
    ensures
        is_ordered(ordered_by_date(transactions, direction), direction),
        ordered_by_date(transactions, direction).to_multiset() == transactions.to_multiset(),
        ordered_by_date(transactions, direction).len() == transactions.len(),
    decreases transactions.len(),
{
    broadcast use vstd::seq_lib::group_to_multiset_ensures;

    if transactions.len() == 0 {
        assert(transactions =~= Seq::empty());
    } else {
        let shorter = transactions.drop_last();
        ordered_is_a_sorted_permutation(shorter, direction);
        inserted_keeps_order(ordered_by_date(shorter, direction), transactions.last(), direction);
        assert(transactions =~= shorter.push(transactions.last()));
    }
}

/// Orders the transactions by date in the given direction. Transactions of
/// one date keep the order that they came in.
pub fn sort_by_date(transactions: &mut Vec<Transaction>, direction: SortDirection)
    ensures
        final(transactions).deep_view() == ordered_by_date(
            old(transactions).deep_view(),
            direction,
        ),
{
    let ghost all = transactions.deep_view();
    let mut taken: Vec<Transaction> = Vec::new();
    core::mem::swap(transactions, &mut taken);
    proof {
        assert(all.take(0) =~= Seq::empty());
        assert(transactions.deep_view() =~= Seq::empty());
    }
    for tx in it: taken
        invariant
            it.seq().len() == all.len(),
            forall|k: int| 0 <= k < all.len() ==> (#[trigger] it.seq()[k])@ == all[k],
            transactions.deep_view() == ordered_by_date(all.take(it.index() as int), direction),
    {
        let ghost n = it.index() as int;
        let ghost ordered = transactions.deep_view();
        proof {
            assert(all.take(n + 1).drop_last() =~= all.take(n));
            assert(all.take(n + 1).last() == tx@);
        }
        let mut place: usize = transactions.len();
        while place > 0 && !may_precede(direction, transactions[place - 1].date, tx.date)
            invariant
                place <= transactions.len(),
                ordered == transactions.deep_view(),
                forall|i: int| place <= i < ordered.len() ==> !in_order(
                    direction,
                    (#[trigger] ordered[i]).date,
                    tx@.date,
                ),
            decreases place,
        {
            assert(ordered[place - 1] == transactions[place - 1]@);
            place -= 1;
        }
        proof {
            if place > 0 {
                assert(ordered[place - 1] == transactions[place - 1]@);
            }
            inserted_at(ordered, tx@, direction, place as int);
        }
        transactions.insert(place, tx);
        proof {
            assert(transactions.deep_view() =~= ordered.insert(place as int, tx@));
        }
    }
    proof {
        assert(all.take(all.len() as int) =~= all);
    }
}

/// The transactions that carry no tag, in their order.
pub open spec fn untagged_of(transactions: Seq<TransactionView>) -> Seq<TransactionView>
    decreases transactions.len(),
{
    if transactions.len() == 0 {
        Seq::empty()
    } else if untagged(transactions.last()) {
        untagged_of(transactions.drop_last()).push(transactions.last())
    } else {
        untagged_of(transactions.drop_last())
    }
}

/// Keeps the transactions that carry no tag and drops the others.
pub fn keep_uncategorized(transactions: &mut Vec<Transaction>)
    ensures
        final(transactions).deep_view() == untagged_of(old(transactions).deep_view()),
{
    let ghost all = transactions.deep_view();
    let mut taken: Vec<Transaction> = Vec::new();
    core::mem::swap(transactions, &mut taken);
    proof {
        assert(all.take(0) =~= Seq::empty());
        assert(transactions.deep_view() =~= Seq::empty());
    }
    for tx in it: taken
        invariant
            it.seq().len() == all.len(),
            forall|k: int| 0 <= k < all.len() ==> (#[trigger] it.seq()[k])@ == all[k],
            transactions.deep_view() == untagged_of(all.take(it.index() as int)),
    {
        let ghost n = it.index() as int;
        let ghost kept = transactions.deep_view();
        proof {
            assert(all.take(n + 1).drop_last() =~= all.take(n));
            assert(all.take(n + 1).last() == tx@);
        }
        if is_uncategorized(&tx) {
            transactions.push(tx);
            proof {
                assert(transactions.deep_view() =~= kept.push(tx@));
            }
        }
    }
    proof {
        assert(all.take(all.len() as int) =~= all);
    }
}

/// The first transactions of a list, up to the given number; all of them
/// where no number is given or the list is shorter.
pub open spec fn limited(transactions: Seq<TransactionView>, limit: Option<usize>) -> Seq<
    TransactionView,
> {
    match limit {
        Some(length) => if length <= transactions.len() {
            transactions.take(length as int)
        } else {
            transactions
        },
        None => transactions,
    }
}

/// What a caller asked for gets of a list of transactions: those without a
/// tag, where only these are asked for; of these the ones of the kind asked
/// for; ordered by date, newest first unless asked otherwise; and of these
/// no more than the number asked for.
pub open spec fn refined(
    transactions: Seq<TransactionView>,
    uncategorized: Option<bool>,
    kind: Option<TransactionType>,
    sort: Option<SortDirection>,
    limit: Option<usize>,
) -> Seq<TransactionView> {
    let narrowed = if uncategorized == Some(true) {
        untagged_of(transactions)
    } else {
        transactions
    };
    let direction = match sort {
        Some(direction) => direction,
        None => SortDirection::Desc,
    };
    limited(ordered_by_date(of_kind(narrowed, kind), direction), limit)
}

/// Narrows a list of transactions down to what a caller asked for, orders
/// it and cuts it to length.
pub fn refine_listing(
    transactions: Vec<Transaction>,
    uncategorized: Option<bool>,
    kind: Option<&TransactionType>,
    sort: Option<SortDirection>,
    limit: Option<usize>,
) -> (listed: Vec<Transaction>)
    ensures
        listed.deep_view() == refined(
            transactions.deep_view(),
            uncategorized,
            match kind {
                Some(kind) => Some(*kind),
                None => None,
            },
            sort,
            limit,
        ),
{
    let mut listed = transactions;
    if let Some(only) = uncategorized {
        if only {
            keep_uncategorized(&mut listed);
        }
    }
    filter_by_transaction_type(&mut listed, kind);
    let direction = match sort {
        Some(direction) => direction,
        None => SortDirection::default(),
    };
    sort_by_date(&mut listed, direction);
    if let Some(length) = limit {
        let ghost before = listed.deep_view();
        listed.truncate(length);
        proof {
            assert(listed.deep_view() =~= limited(before, limit));
        }
    }
    listed
}

} // verus!
