//! The accounts of a zerostate, each under its address.
use vstd::prelude::*;

use crate::config::{Account, Address};

verus! {

/// The place of the first entry at or after `from` that is under `address`, or the number of entries.
pub open spec fn place_of(entries: Seq<(Address, Account)>, address: Address, from: int) -> int
    decreases entries.len() - from,
{
    if from >= entries.len() {
        entries.len() as int
    } else if entries[from].0 == address {
        from
    } else {
        place_of(entries, address, from + 1)
    }
}

/// The account under `address`, if there is one.
pub open spec fn account_at(entries: Seq<(Address, Account)>, address: Address) -> Option<Account> {
    let place = place_of(entries, address, 0);
    if place < entries.len() {
        Some(entries[place].1)
    } else {
        None
    }
}

/// Puts an account under `address`, in place of the one that is there.
pub open spec fn with_account(
    entries: Seq<(Address, Account)>,
    address: Address,
    account: Account,
) -> Seq<(Address, Account)> {
    let place = place_of(entries, address, 0);
    if place < entries.len() {
        entries.update(place, (address, account))
    } else {
        entries.push((address, account))
    }
}

/// Puts entries one after another into an empty book.
pub open spec fn book_of(entries: Seq<(Address, Account)>) -> Seq<(Address, Account)>
    decreases entries.len(),
{
    if entries.len() == 0 {
        seq![]
    } else {
        with_account(book_of(entries.drop_last()), entries.last().0, entries.last().1)
    }
}

/// No address occurs twice.
pub open spec fn distinct_addresses(entries: Seq<(Address, Account)>) -> bool {
    forall|i: int, j: int|
        0 <= i < j < entries.len() ==> (#[trigger] entries[i]).0 != (#[trigger] entries[j]).0
}

/// The first entry at or after `from` that is an account and not just an empty entry, or the number
/// of entries.
pub open spec fn next_existing(entries: Seq<(Address, Account)>, from: int) -> int
    decreases entries.len() - from,
{
    if from >= entries.len() {
        entries.len() as int
    } else if entries[from].1.exists {
        from
    } else {
        next_existing(entries, from + 1)
    }
}

/// What [`next_existing`] finds: an account, with nothing but empty entries before it.
pub proof fn lemma_next_existing(entries: Seq<(Address, Account)>, from: int)
    requires
        0 <= from <= entries.len(),
    ensures
        from <= next_existing(entries, from) <= entries.len(),
        next_existing(entries, from) < entries.len() ==> entries[next_existing(
            entries,
            from,
        )].1.exists,
        forall|i: int|
            from <= i < next_existing(entries, from) ==> !(#[trigger] entries[i]).1.exists,
    decreases entries.len() - from,
{
    if from < entries.len() && !entries[from].1.exists {
        lemma_next_existing(entries, from + 1);
    }
}

proof fn lemma_place_of(entries: Seq<(Address, Account)>, address: Address, from: int)
    requires
        0 <= from <= entries.len(),
    ensures
        from <= place_of(entries, address, from) <= entries.len(),
        place_of(entries, address, from) < entries.len() ==> entries[place_of(
            entries,
            address,
            from,
        )].0 == address,
        forall|i: int|
            from <= i < place_of(entries, address, from) ==> (#[trigger] entries[i]).0 != address,
    decreases entries.len() - from,
{
    if from < entries.len() && entries[from].0 != address {
        lemma_place_of(entries, address, from + 1);
    }
}

/// The place is the only one that fits.
proof fn lemma_place_is(entries: Seq<(Address, Account)>, address: Address, from: int, place: int)
    requires
        0 <= from <= place <= entries.len(),
        place < entries.len() ==> entries[place].0 == address,
        forall|i: int| from <= i < place ==> (#[trigger] entries[i]).0 != address,
    ensures
        place_of(entries, address, from) == place,
    decreases place - from,
{
    if from < place {
        lemma_place_is(entries, address, from + 1, place);
    }
}

/// A put adds one entry at most.
pub proof fn lemma_put_adds_one(
    entries: Seq<(Address, Account)>,
    address: Address,
    account: Account,
)
    ensures
        entries.len() <= with_account(entries, address, account).len() <= entries.len() + 1,
{
    lemma_place_of(entries, address, 0);
}

/// A book answers for the account put last under an address, and otherwise as before.
pub proof fn law_put_then_look_up(
    entries: Seq<(Address, Account)>,
    address: Address,
    account: Account,
    other: Address,
)
    ensures
        account_at(with_account(entries, address, account), other) == (if other == address {
            Some(account)
        } else {
            account_at(entries, other)
        }),
{
    let after = with_account(entries, address, account);
    let place = place_of(entries, address, 0);
    lemma_place_of(entries, address, 0);
    lemma_place_of(entries, other, 0);
    let sought = place_of(entries, other, 0);
    if other == address {
        assert forall|i: int| 0 <= i < place implies (#[trigger] after[i]).0 != other by {
            assert(after[i] == entries[i]);
        }
        lemma_place_is(after, other, 0, place);
    } else if sought < entries.len() {
        assert forall|i: int| 0 <= i < sought implies (#[trigger] after[i]).0 != other by {
            assert(i != place ==> after[i] == entries[i]);
        }
        lemma_place_is(after, other, 0, sought);
    } else {
        assert forall|i: int| 0 <= i < after.len() implies (#[trigger] after[i]).0 != other by {
            assert(i != place ==> after[i] == entries[i]);
        }
        lemma_place_is(after, other, 0, after.len() as int);
    }
}

/// No address comes to be there twice.
pub proof fn law_put_keeps_addresses_distinct(
    entries: Seq<(Address, Account)>,
    address: Address,
    account: Account,
)
    requires
        distinct_addresses(entries),
    ensures
        distinct_addresses(with_account(entries, address, account)),
{
    lemma_place_of(entries, address, 0);
}

/// A book has no address twice, and no more entries than were put into it.
pub proof fn lemma_book_of(entries: Seq<(Address, Account)>)
    ensures
        distinct_addresses(book_of(entries)),
        book_of(entries).len() <= entries.len(),
    decreases entries.len(),
{
    if entries.len() > 0 {
        let rest = entries.drop_last();
        lemma_book_of(rest);
        law_put_keeps_addresses_distinct(book_of(rest), entries.last().0, entries.last().1);
        lemma_put_adds_one(book_of(rest), entries.last().0, entries.last().1);
    }
}

/// Looking up in a book where no address occurs twice finds exactly what is in it.
proof fn lemma_look_up(entries: Seq<(Address, Account)>, address: Address, account: Account)
    requires
        distinct_addresses(entries),
    ensures
        account_at(entries, address) == Some(account) <==> entries.contains((address, account)),
{
    let place = place_of(entries, address, 0);
    lemma_place_of(entries, address, 0);
    if entries.contains((address, account)) {
        let i = entries.index_of((address, account));
        assert(entries[i] == (address, account));
        lemma_place_is(entries, address, 0, i);
    }
    if place < entries.len() {
        assert(entries[place] == (entries[place].0, entries[place].1));
    }
}

/// Entries of which no two are under one address are all different.
proof fn lemma_no_entry_twice(entries: Seq<(Address, Account)>)
    requires
        distinct_addresses(entries),
    ensures
        entries.no_duplicates(),
{
    assert forall|i: int, j: int|
        0 <= i < entries.len() && 0 <= j < entries.len() && i != j implies entries[i] != entries[j] by {
        if i < j {
            assert(entries[i].0 != entries[j].0);
        } else {
            assert(entries[j].0 != entries[i].0);
        }
    }
}

/// Entries in another order have no address twice either.
pub proof fn lemma_permuted_stays_distinct(
    left: Seq<(Address, Account)>,
    right: Seq<(Address, Account)>,
)
    requires
        left.to_multiset() == right.to_multiset(),
        distinct_addresses(left),
    ensures
        distinct_addresses(right),
{
    left.to_multiset_ensures();
    right.to_multiset_ensures();
    lemma_no_entry_twice(left);
    left.lemma_multiset_has_no_duplicates();
    right.lemma_multiset_has_no_duplicates_conv();
    assert forall|i: int, j: int| 0 <= i < j < right.len() implies (#[trigger] right[i]).0 != (
    #[trigger] right[j]).0 by {
        assert(right.contains(right[i]) && right.contains(right[j]));
        assert(left.to_multiset().count(right[i]) > 0 && left.to_multiset().count(right[j]) > 0);
        let k = left.index_of(right[i]);
        let l = left.index_of(right[j]);
        assert(k != l);
        assert(left[k].0 != left[l].0);
    }
}

/// Where no address occurs twice, the order of the entries does not matter for looking up.
pub proof fn law_order_does_not_matter(
    left: Seq<(Address, Account)>,
    right: Seq<(Address, Account)>,
    address: Address,
)
    requires
        left.to_multiset() == right.to_multiset(),
        distinct_addresses(left),
    ensures
        account_at(left, address) == account_at(right, address),
{
    left.to_multiset_ensures();
    right.to_multiset_ensures();
    lemma_permuted_stays_distinct(left, right);
    if let Some(account) = account_at(left, address) {
        lemma_look_up(left, address, account);
        assert(left.to_multiset().count((address, account)) > 0);
        lemma_look_up(right, address, account);
    }
    if let Some(account) = account_at(right, address) {
        lemma_look_up(right, address, account);
        assert(right.to_multiset().count((address, account)) > 0);
        lemma_look_up(left, address, account);
    }
}

/// Books in which every address finds the same hold the same entries, in whatever order.
pub proof fn law_same_look_ups_same_entries(
    left: Seq<(Address, Account)>,
    right: Seq<(Address, Account)>,
)
    requires
        distinct_addresses(left),
        distinct_addresses(right),
        forall|address: Address| #[trigger]
            account_at(left, address) == account_at(right, address),
    ensures
        left.to_multiset() == right.to_multiset(),
{
    left.to_multiset_ensures();
    right.to_multiset_ensures();
    lemma_no_entry_twice(left);
    lemma_no_entry_twice(right);
    left.lemma_multiset_has_no_duplicates();
    right.lemma_multiset_has_no_duplicates();
    assert forall|entry: (Address, Account)|
        left.to_multiset().count(entry) == right.to_multiset().count(entry) by {
        lemma_look_up(left, entry.0, entry.1);
        lemma_look_up(right, entry.0, entry.1);
        assert(account_at(left, entry.0) == account_at(right, entry.0));
        assert((entry.0, entry.1) == entry);
        assert(left.to_multiset().contains(entry) <==> right.to_multiset().contains(entry));
    }
    assert(left.to_multiset() =~= right.to_multiset());
}

/// Entries of which no two are under one address make a book of just these entries.
pub proof fn lemma_book_of_distinct(entries: Seq<(Address, Account)>)
    requires
        distinct_addresses(entries),
    ensures
        book_of(entries) == entries,
    decreases entries.len(),
{
    if entries.len() > 0 {
        let rest = entries.drop_last();
        assert forall|i: int, j: int| 0 <= i < j < rest.len() implies (#[trigger] rest[i]).0 != (
        #[trigger] rest[j]).0 by {
            assert(rest[i] == entries[i] && rest[j] == entries[j]);
        }
        lemma_book_of_distinct(rest);
        assert forall|i: int| 0 <= i < rest.len() implies (#[trigger] rest[i]).0
            != entries.last().0 by {
            assert(rest[i] == entries[i]);
        }
        lemma_place_is(rest, entries.last().0, 0, rest.len() as int);
        assert(rest.push((entries.last().0, entries.last().1)) =~= entries);
    }
    assert(book_of(entries) =~= entries);
}

/// Accounts under addresses, no address twice. As in a hash map, what is put under an address takes
/// the place of what was there; the order of the entries means nothing.
pub struct AccountBook {
    entries: Vec<(Address, Account)>,
}

impl View for AccountBook {
    type V = Seq<(Address, Account)>;

    closed spec fn view(&self) -> Seq<(Address, Account)> {
        self.entries@
    }
}

/// Whether two addresses are the same.
fn same_address(left: &Address, right: &Address) -> (same: bool)
    ensures
        same == (*left == *right),
{
    let mut i: usize = 0;
    while i < 32
        invariant
            i <= 32,
            forall|j: int| 0 <= j < i ==> left[j] == right[j],
        decreases 32 - i,
    {
        if left[i] != right[i] {
            return false;
        }
        i += 1;
    }
    assert(*left =~= *right);
    true
}

impl AccountBook {
    #[verifier::type_invariant]
    spec fn well_formed(self) -> bool {
        distinct_addresses(self.entries@)
    }

    /// Makes a book of entries. Where an address occurs twice, the later entry counts.
    pub fn from_entries(entries: &Vec<(Address, Account)>) -> (book: AccountBook)
        ensures
            book@ == book_of(entries@),
            distinct_addresses(book@),
    {
        let mut list: Vec<(Address, Account)> = Vec::new();
        let mut i: usize = 0;
        while i < entries.len()
            invariant
                i <= entries@.len(),
                list@ == book_of(entries@.take(i as int)),
                distinct_addresses(list@),
            decreases entries@.len() - i,
        {
            let entry = entries[i];
            let ghost before = list@;
            put(&mut list, entry.0, entry.1);
            assert(entries@.take(i + 1).drop_last() =~= entries@.take(i as int));
            proof {
                law_put_keeps_addresses_distinct(before, entry.0, entry.1);
            }
            i += 1;
        }
        assert(entries@.take(i as int) =~= entries@);
        AccountBook { entries: list }
    }

    /// Puts an account under an address, in place of the one that is there.
    pub fn insert(self, address: Address, account: Account) -> (book: AccountBook)
        ensures
            book@ == with_account(self@, address, account),
            distinct_addresses(book@),
    {
        proof {
            use_type_invariant(&self);
            law_put_keeps_addresses_distinct(self@, address, account);
        }
        let mut entries = self.entries;
        put(&mut entries, address, account);
        AccountBook { entries }
    }

    /// How many entries there are.
    pub fn len(&self) -> (len: usize)
        ensures
            len == self@.len(),
            distinct_addresses(self@),
    {
        proof {
            use_type_invariant(self);
        }
        self.entries.len()
    }

    /// The entry at a place.
    pub fn get(&self, place: usize) -> (entry: (Address, Account))
        requires
            place < self@.len(),
        ensures
            entry == self@[place as int],
    {
        self.entries[place]
    }

    /// The first entry at or after `from` that is an account, or the number of entries.
    pub fn next_existing(&self, from: usize) -> (place: usize)
        requires
            from <= self@.len(),
        ensures
            place == next_existing(self@, from as int),
    {
        let mut i: usize = from;
        while i < self.entries.len()
            invariant
                i <= self@.len(),
                self@ == self.entries@,
                next_existing(self@, from as int) == next_existing(self@, i as int),
            decreases self@.len() - i,
        {
            if self.entries[i].1.exists {
                return i;
            }
            i += 1;
        }
        i
    }
}

fn put(entries: &mut Vec<(Address, Account)>, address: Address, account: Account)
    ensures
        final(entries)@ == with_account(old(entries)@, address, account),
{
    let mut i: usize = 0;
    while i < entries.len()
        invariant
            i <= entries@.len(),
            entries@ == old(entries)@,
            place_of(entries@, address, 0) == place_of(entries@, address, i as int),
        decreases entries@.len() - i,
    {
        if same_address(&entries[i].0, &address) {
            entries.set(i, (address, account));
            return ;
        }
        i += 1;
    }
    entries.push((address, account));
}

/// A book holds the account that was put last and, under every other address, what it held before.
pub proof fn law_what_a_put_leaves(
    entries: Seq<(Address, Account)>,
    address: Address,
    account: Account,
    entry: (Address, Account),
)
    requires
        distinct_addresses(entries),
    ensures
        with_account(entries, address, account).contains(entry) <==> (if entry.0 == address {
            entry.1 == account
        } else {
            entries.contains(entry)
        }),
{
    let after = with_account(entries, address, account);
    law_put_keeps_addresses_distinct(entries, address, account);
    law_put_then_look_up(entries, address, account, entry.0);
    lemma_look_up(after, entry.0, entry.1);
    lemma_look_up(entries, entry.0, entry.1);
    assert((entry.0, entry.1) == entry);
}

/// Looking up finds what is in a book, and nothing else.
pub proof fn law_look_up(entries: Seq<(Address, Account)>, address: Address, account: Account)
    requires
        distinct_addresses(entries),
    ensures
        account_at(entries, address) == Some(account) <==> entries.contains((address, account)),
{
    lemma_look_up(entries, address, account);
}

/// A book of entries answers for an address with the account listed last under it.
pub proof fn law_last_listed_counts(entries: Seq<(Address, Account)>, place: int)
    requires
        0 <= place < entries.len(),
        forall|i: int|
            place < i < entries.len() ==> (#[trigger] entries[i]).0 != entries[place].0,
    ensures
        account_at(book_of(entries), entries[place].0) == Some(entries[place].1),
    decreases entries.len(),
{
    let rest = entries.drop_last();
    let last = entries.last();
    law_put_then_look_up(book_of(rest), last.0, last.1, entries[place].0);
    if place < rest.len() {
        assert(entries[entries.len() - 1].0 != entries[place].0);
        assert(rest[place] == entries[place]);
        assert forall|i: int| place < i < rest.len() implies (#[trigger] rest[i]).0
            != rest[place].0 by {
            assert(rest[i] == entries[i]);
        }
        law_last_listed_counts(rest, place);
    }
}

/// A book of entries has nothing under an address that is not listed.
pub proof fn law_nothing_else_is_listed(entries: Seq<(Address, Account)>, address: Address)
    requires
        forall|i: int| 0 <= i < entries.len() ==> (#[trigger] entries[i]).0 != address,
    ensures
        account_at(book_of(entries), address) is None,
    decreases entries.len(),
{
    if entries.len() > 0 {
        let rest = entries.drop_last();
        assert forall|i: int| 0 <= i < rest.len() implies (#[trigger] rest[i]).0 != address by {
            assert(rest[i] == entries[i]);
        }
        law_nothing_else_is_listed(rest, address);
        assert(entries[entries.len() - 1].0 != address);
        law_put_then_look_up(book_of(rest), entries.last().0, entries.last().1, address);
    }
}

} // verus!
