//! The lending store: every member and every item, each under its identity,
//! and the current day.

use vstd::prelude::*;
use crate::errors::{LendError, SysError};
use crate::models::domain::contract::{Contract, ContractView, Status};
use crate::models::domain::item::{booked_on, taken, Category, Item, ItemView};
use crate::models::domain::member::{
    email_verdict, pattern_match, phone_verdict, same_person, Member, MemberView, EMAIL_PATTERN, PHONE_PATTERN,
};
use crate::models::uuid::{Uuid, UuidView, DEFAULT_LEN};
use crate::types::{Model, SysResult};

verus! {

/// The credits an owner earns for listing an item.
pub const LISTING_BONUS: u64 = 100;

/// The mathematical value of a [`System`].
pub struct SystemView {
    /// The members, each under its key, in the order the store walks them.
    pub members: Seq<(UuidView, MemberView)>,
    /// The items, each under its key, in the order the store walks them.
    pub items: Seq<(UuidView, ItemView)>,
    /// The current day.
    pub day: usize,
}

/// The record at `at` stands under the key `key`.
pub open spec fn at_key<V>(entries: Seq<(UuidView, V)>, key: UuidView, at: int) -> bool {
    0 <= at < entries.len() && entries[at].0 == key
}

/// Some record stands under the key `key`.
pub open spec fn has_key<V>(entries: Seq<(UuidView, V)>, key: UuidView) -> bool {
    exists|at: int| at_key(entries, key, at)
}

/// Where the record under the key `key` stands.
pub open spec fn index_of_key<V>(entries: Seq<(UuidView, V)>, key: UuidView) -> int {
    choose|at: int| at_key(entries, key, at)
}

/// The record under the key `key`.
pub open spec fn value_at<V>(entries: Seq<(UuidView, V)>, key: UuidView) -> V {
    entries[index_of_key(entries, key)].1
}

/// No key occurs twice.
pub open spec fn distinct_keys<V>(entries: Seq<(UuidView, V)>) -> bool {
    forall|i: int, j: int|
        0 <= i < entries.len() && 0 <= j < entries.len() && i != j ==> (#[trigger] entries[i]).0 != (
        #[trigger] entries[j]).0
}

/// A member counts as registered when a stored member has its email address,
/// its phone number or its identity, or when a record stands under its
/// identity.
pub open spec fn registered(members: Seq<(UuidView, MemberView)>, m: MemberView) -> bool {
    exists|at: int| 0 <= at < members.len() && matches_entry(#[trigger] members[at], m)
}

/// The stored record and the member agree in email address, phone number or
/// identity.
pub open spec fn matches_entry(entry: (UuidView, MemberView), m: MemberView) -> bool {
    same_person(entry.1, m) || entry.1.uuid == m.uuid || entry.0 == m.uuid
}

impl SystemView {
    /// No key occurs twice among the members, nor among the items.
    pub open spec fn wf(self) -> bool {
        distinct_keys(self.members) && distinct_keys(self.items)
    }

    /// The store after a member was handed in: unchanged where the member is
    /// registered, else with the member at the end, under its identity.
    pub open spec fn with_member(self, m: MemberView) -> SystemView {
        if registered(self.members, m) {
            self
        } else {
            SystemView { members: self.members.push((m.uuid, m)), ..self }
        }
    }

    /// The store without the member under the key `key`.
    pub open spec fn without_member(self, key: UuidView) -> SystemView {
        if has_key(self.members, key) {
            SystemView { members: self.members.remove(index_of_key(self.members, key)), ..self }
        } else {
            self
        }
    }

    /// The store after an item was handed in: unchanged where the item is
    /// refused, else with the item at the end, under its identity, and the
    /// listing bonus on the balance of the stored owner.
    pub open spec fn with_item(self, item: ItemView) -> SystemView {
        if add_item_outcome(self, item) is Ok {
            SystemView {
                items: self.items.push((item.uuid, item)),
                members: self.members.update(
                    index_of_key(self.members, item.owner.uuid),
                    (item.owner.uuid, rewarded(value_at(self.members, item.owner.uuid))),
                ),
                ..self
            }
        } else {
            self
        }
    }

    /// The store without the item under the key `key`.
    pub open spec fn without_item(self, key: UuidView) -> SystemView {
        if has_key(self.items, key) {
            SystemView { items: self.items.remove(index_of_key(self.items, key)), ..self }
        } else {
            self
        }
    }

    /// The store with the item under the key `key` replaced by `item`.
    pub open spec fn with_item_replaced(self, key: UuidView, item: ItemView) -> SystemView {
        if has_key(self.items, key) {
            SystemView { items: self.items.update(index_of_key(self.items, key), (key, item)), ..self }
        } else {
            self
        }
    }

    /// The store with the record under the key `key` replaced by `m`.
    pub open spec fn with_member_replaced(self, key: UuidView, m: MemberView) -> SystemView {
        if has_key(self.members, key) {
            SystemView { members: self.members.update(index_of_key(self.members, key), (key, m)), ..self }
        } else {
            self
        }
    }
}

/// A member who shares the email address or the phone number of a stored
/// member is registered: the store refuses to add it and stays as it is.
pub proof fn lemma_same_person_is_registered(s: SystemView, at: int, m: MemberView)
    requires
        0 <= at < s.members.len(),
        s.members[at].1.email == m.email || s.members[at].1.phone_nr == m.phone_nr,
    ensures
        registered(s.members, m),
        s.with_member(m) == s,
{
    assert(matches_entry(s.members[at], m));
}

/// The values of the stored items, without their keys, in store order.
pub open spec fn item_values(items: Seq<(UuidView, ItemView)>) -> Seq<ItemView> {
    items.map_values(|e: (UuidView, ItemView)| e.1)
}

/// The history of the item holds a contract with the identity `id`.
pub open spec fn holds_contract(item: ItemView, id: UuidView) -> bool {
    exists|k: int| 0 <= k < item.history.len() && (#[trigger] item.history[k]).uuid == id
}

/// The contract at `k` is the first of the history with the identity `id`.
pub open spec fn first_with_id(history: Seq<ContractView>, id: UuidView, k: int) -> bool {
    &&& 0 <= k < history.len()
    &&& history[k].uuid == id
    &&& forall|j: int| 0 <= j < k ==> (#[trigger] history[j]).uuid != id
}

/// The item at `at` is the first, in store order, whose history holds a
/// contract with the identity `id`.
pub open spec fn first_holder(items: Seq<(UuidView, ItemView)>, id: UuidView, at: int) -> bool {
    &&& 0 <= at < items.len()
    &&& holds_contract(items[at].1, id)
    &&& forall|j: int| 0 <= j < at ==> !holds_contract((#[trigger] items[j]).1, id)
}

/// No item of the store holds a contract with the identity `id`.
pub open spec fn no_holder(items: Seq<(UuidView, ItemView)>, id: UuidView) -> bool {
    forall|j: int| 0 <= j < items.len() ==> !holds_contract((#[trigger] items[j]).1, id)
}

/// The owner of the item is stored under the owner's identity, and the
/// stored balance has room for the listing bonus.
pub open spec fn can_reward(members: Seq<(UuidView, MemberView)>, owner: UuidView) -> bool {
    has_key(members, owner) && value_at(members, owner).credits + LISTING_BONUS <= u64::MAX
}

/// What handing in an item answers: the item's identity must be new, and
/// the store must be able to give the owner the listing bonus.
pub open spec fn add_item_outcome(s: SystemView, item: ItemView) -> SysResult<()> {
    if has_key(s.items, item.uuid) {
        Err(SysError::AlreadyExists)
    } else if !can_reward(s.members, item.owner.uuid) {
        Err(SysError::CannotUpdate)
    } else {
        Ok(())
    }
}

/// A member with the listing bonus added to the balance.
pub open spec fn rewarded(m: MemberView) -> MemberView {
    MemberView { credits: (m.credits + LISTING_BONUS) as u64, ..m }
}

/// The store after each of the members was handed in, one after another.
pub open spec fn with_members(s: SystemView, members: Seq<MemberView>) -> SystemView
    decreases members.len(),
{
    if members.len() == 0 {
        s
    } else {
        with_members(s, members.drop_last()).with_member(members.last())
    }
}

/// The store after each of the items was handed in, one after another.
pub open spec fn with_items(s: SystemView, items: Seq<ItemView>) -> SystemView
    decreases items.len(),
{
    if items.len() == 0 {
        s
    } else {
        with_items(s, items.drop_last()).with_item(items.last())
    }
}

/// A member as the demonstration makes them: created on day 0, without
/// credits, with a fresh identity.
pub open spec fn demo_member(m: MemberView, name: Seq<char>, email: Seq<char>, phone_nr: Seq<char>) -> bool {
    &&& m.name == name
    &&& m.email == email
    &&& m.phone_nr == phone_nr
    &&& m.credits == 0
    &&& m.day_of_creation == 0
    &&& m.uuid.is_generated(DEFAULT_LEN)
}

/// An item as the demonstration makes them: created on day 0, available,
/// with a fresh identity.
pub open spec fn demo_item(
    item: ItemView,
    name: Seq<char>,
    description: Seq<char>,
    category: Category,
    owner: MemberView,
    cost_per_day: u64,
) -> bool {
    &&& item.name == name
    &&& item.description == description
    &&& item.category == category
    &&& item.owner == owner
    &&& item.cost_per_day == cost_per_day
    &&& item.day_of_creation == 0
    &&& item.is_available
    &&& item.uuid.is_generated(DEFAULT_LEN)
}

/// A contract as it is when it was just made: in the future, with a fresh
/// identity.
pub open spec fn fresh_contract(
    c: ContractView,
    owner: MemberView,
    lendee: MemberView,
    start_date: usize,
    contract_len: usize,
    credits: u64,
) -> bool {
    &&& c.owner == owner
    &&& c.lendee == lendee
    &&& c.start_date == start_date
    &&& c.contract_len == contract_len
    &&& c.end_date == start_date + contract_len
    &&& c.wf()
    &&& c.credits == credits
    &&& c.status == Status::Future
    &&& c.uuid.is_generated(DEFAULT_LEN)
}

/// The members and items of the demonstration: four members, and four
/// items of the first and the third member, two of them with bookings.
pub open spec fn demo_data(members: Seq<MemberView>, items: Seq<ItemView>) -> bool {
    &&& members.len() == 4
    &&& demo_member(members[0], "Allan"@, "allan@enigma.com"@, "0123456789"@)
    &&& demo_member(members[1], "Tina"@, "tina@somethingelse.com"@, "01234543210"@)
    &&& demo_member(members[2], "Turing"@, "turing@enigma.com"@, "9876567890"@)
    &&& demo_member(members[3], "Jeff"@, "jeff@bezos.com"@, "0987654321"@)
    &&& items.len() == 4
    &&& demo_item(items[0], "Monopoly"@, "Family Game"@, Category::Game, members[0], 30)
    &&& demo_item(items[1], "Siedler"@, "Another Family Game"@, Category::Game, members[0], 45)
    &&& demo_item(items[2], "T-Rex"@, "Dinosaur"@, Category::Toy, members[2], 10)
    &&& demo_item(items[3], "Hammer"@, "A useful tool"@, Category::Tool, members[2], 150)
    &&& items[0].history.len() == 1
    &&& fresh_contract(items[0].history[0], members[2], members[1], 6, 6, 60)
    &&& items[1].history.len() == 2
    &&& fresh_contract(items[1].history[0], members[0], members[1], 12, 9, 405)
    &&& fresh_contract(items[1].history[1], members[2], members[2], 0, 10, 1500)
    &&& items[2].history.len() == 0
    &&& items[3].history.len() == 0
}

/// What asking for a loan answers: nobody lends to themselves, a loan has
/// at least one day, the end day and the price must fit in a number, the
/// days must be free, and the store must hold the item.
pub open spec fn lend_outcome(
    s: SystemView,
    item: ItemView,
    lendee: MemberView,
    start_date: usize,
    contract_len: usize,
) -> Result<(), LendError> {
    if same_person(lendee, item.owner) {
        Err(LendError::OwnItem)
    } else if contract_len == 0 {
        Err(LendError::NoDays)
    } else if start_date + contract_len > usize::MAX || item.cost_per_day * contract_len > u64::MAX {
        Err(LendError::TooLong)
    } else if taken(item.history, start_date as int, start_date + contract_len) {
        Err(LendError::Booked)
    } else if !has_key(s.items, item.uuid) {
        Err(LendError::NotStored)
    } else {
        Ok(())
    }
}

/// The email address and the phone number meet the rules for members.
pub open spec fn meets_rules(email: Seq<char>, phone_nr: Seq<char>) -> bool {
    email_verdict(pattern_match(EMAIL_PATTERN@, email)) is Ok && phone_verdict(
        phone_nr,
        pattern_match(PHONE_PATTERN@, phone_nr),
    ) is Ok
}

/// Each of the four members of the demonstration meets the rules for
/// members.
pub open spec fn demo_members_ok() -> bool {
    &&& meets_rules("allan@enigma.com"@, "0123456789"@)
    &&& meets_rules("tina@somethingelse.com"@, "01234543210"@)
    &&& meets_rules("turing@enigma.com"@, "9876567890"@)
    &&& meets_rules("jeff@bezos.com"@, "0987654321"@)
}

/// Filling a store with data for a demonstration.
pub trait Demo {
    /// Fills the store with the data of the demonstration.
    fn init_demo(&mut self);
}

/// All methods of the lending store.
pub trait LendingSystem {
    /// The current day.
    spec fn today(&self) -> usize;

    /// Gets all the members in the store.
    fn get_members(&self) -> Vec<&Member>;

    /// Gets a specific member.
    fn get_member(&self, member: &Member) -> SysResult<Member>;

    /// Returns a mutable version of a member.
    fn get_member_mut(&mut self, member: &Member) -> SysResult<&mut Member>;

    /// Adds a member to the store.
    fn add_member(&mut self, member: Member) -> SysResult<()>;

    /// Removes a member from the store.
    fn remove_member(&mut self, member: &Member) -> SysResult<()>;

    /// Updates a member with the new information.
    fn update_member(&mut self, old_info: &Member, new_info: &Member) -> SysResult<()>;

    /// Checks if the member is registered in this store.
    fn exists_member(&self, member: &Member) -> bool;

    /// Gets all the items in the store.
    fn get_items(&self) -> Vec<&Item>;

    /// Gets all the items of a specific member.
    fn get_items_for_member(&self, member: &Member) -> Vec<&Item>;

    /// Gets the item whose history holds the contract.
    fn get_item_for_contract(&self, contract: &Contract) -> SysResult<&Item>;

    /// Gets a specific item.
    fn get_item(&self, item: &Item) -> SysResult<Item>;

    /// Gets the stored contract with the identity of the given one.
    fn get_contract(&self, contract: &Contract) -> SysResult<Contract>;

    /// Adds an item to the store.
    fn add_item(&mut self, item: Item) -> SysResult<()>;

    /// Removes an item from the store.
    fn remove_item(&mut self, item: &Item) -> SysResult<()>;

    /// Updates an item with the new information.
    fn update_item(&mut self, info: &Item) -> SysResult<()>;

    /// Counts the items of a specific member.
    fn count_items_for_member(&self, member: &Member) -> usize;

    /// Moves the store on to the next day.
    fn incr_time(&mut self)
        requires
            old(self).today() < usize::MAX,
    ;

    /// Gets the current day.
    fn now(&self) -> usize;
}

/// Records under their keys, in the order they were added.
#[derive(Debug)]
struct Shelf<V> {
    keys: Vec<Uuid>,
    values: Vec<V>,
}

impl<V: View> Shelf<V> {
    /// Every record has its key.
    spec fn aligned(self) -> bool {
        self.keys@.len() == self.values@.len()
    }

    /// No key occurs twice.
    spec fn distinct(self) -> bool {
        forall|i: int, j: int|
            0 <= i < self.keys@.len() && 0 <= j < self.keys@.len() && i != j ==> (#[trigger] self.keys@[i])@ != (
            #[trigger] self.keys@[j])@
    }

    /// Every record has its key, and no key occurs twice.
    spec fn ok(self) -> bool {
        self.aligned() && self.distinct()
    }

    /// The keys of the shelf are distinct just when the keys of its records
    /// are.
    proof fn lemma_distinct(self)
        requires
            self.aligned(),
        ensures
            self.distinct() <==> distinct_keys(self.entries()),
    {
        let entries = self.entries();
        if self.distinct() {
            assert forall|i: int, j: int| 0 <= i < entries.len() && 0 <= j < entries.len() && i != j implies (
            #[trigger] entries[i]).0 != (#[trigger] entries[j]).0 by {
                assert(self.keys@[i]@ != self.keys@[j]@);
            }
        }
        if distinct_keys(entries) {
            assert forall|i: int, j: int| 0 <= i < self.keys@.len() && 0 <= j < self.keys@.len() && i != j implies (
            #[trigger] self.keys@[i])@ != (#[trigger] self.keys@[j])@ by {
                assert(entries[i].0 != entries[j].0);
            }
        }
    }

    /// The keys and the values of the records, in order.
    spec fn entries(self) -> Seq<(UuidView, V::V)> {
        Seq::new(self.values@.len(), |i: int| (self.keys@[i]@, self.values@[i]@))
    }

    /// A shelf without records.
    fn new() -> (shelf: Self)
        ensures
            shelf.ok(),
            shelf.keys@.len() == 0,
            shelf.entries() == Seq::<(UuidView, V::V)>::empty(),
    {
        let shelf = Shelf { keys: Vec::new(), values: Vec::new() };
        assert(shelf.entries() =~= Seq::<(UuidView, V::V)>::empty());
        shelf
    }

    /// Where the record under the key `key` stands.
    fn index_of(&self, key: &Uuid) -> (r: Option<usize>)
        requires
            self.ok(),
        ensures
            match r {
                Some(at) => at_key(self.entries(), key@, at as int) && at == index_of_key(self.entries(), key@),
                None => !has_key(self.entries(), key@),
            },
    {
        proof {
            self.lemma_distinct();
        }
        let mut i: usize = 0;
        while i < self.keys.len()
            invariant
                i <= self.keys@.len(),
                self.aligned(),
                distinct_keys(self.entries()),
                forall|j: int| 0 <= j < i ==> !at_key(self.entries(), key@, j),
            decreases self.keys@.len() - i,
        {
            if self.keys[i] == *key {
                assert(at_key(self.entries(), key@, i as int));
                return Some(i);
            }
            i += 1;
        }
        None
    }

    /// Puts a record under a new key at the end.
    fn push(&mut self, key: Uuid, value: V)
        requires
            old(self).ok(),
            !has_key(old(self).entries(), key@),
        ensures
            final(self).ok(),
            final(self).keys@ == old(self).keys@.push(key),
            final(self).values@ == old(self).values@.push(value),
            final(self).entries() == old(self).entries().push((key@, value@)),
    {
        proof {
            assert forall|i: int| 0 <= i < self.keys@.len() implies (#[trigger] self.keys@[i])@ != key@ by {
                assert(!at_key(self.entries(), key@, i));
            }
        }
        self.keys.push(key);
        self.values.push(value);
        assert(self.entries() =~= old(self).entries().push((key@, value@)));
    }

    /// Takes the record at `at` away; no record is left under its key.
    fn remove(&mut self, at: usize)
        requires
            old(self).ok(),
            at < old(self).values@.len(),
        ensures
            final(self).ok(),
            final(self).entries() == old(self).entries().remove(at as int),
            !has_key(final(self).entries(), old(self).entries()[at as int].0),
    {
        self.keys.remove(at);
        self.values.remove(at);
        assert(self.entries() =~= old(self).entries().remove(at as int));
        assert forall|i: int, j: int|
            0 <= i < self.keys@.len() && 0 <= j < self.keys@.len() && i != j implies (#[trigger] self.keys@[i])@ != (
        #[trigger] self.keys@[j])@ by {
            let a = if i < at { i } else { i + 1 };
            let b = if j < at { j } else { j + 1 };
            assert(old(self).keys@[a]@ != old(self).keys@[b]@);
        }
        assert forall|k: int| !at_key(self.entries(), old(self).entries()[at as int].0, k) by {
            if 0 <= k < self.keys@.len() {
                let a = if k < at { k } else { k + 1 };
                assert(old(self).keys@[a]@ != old(self).keys@[at as int]@);
            }
        }
    }

    /// Replaces the value of the record at `at`; its key stays.
    fn set(&mut self, at: usize, value: V)
        requires
            old(self).ok(),
            at < old(self).values@.len(),
        ensures
            final(self).ok(),
            final(self).entries() == old(self).entries().update(at as int, (old(self).entries()[at as int].0, value@)),
    {
        self.values.set(at, value);
        assert(self.entries() =~= old(self).entries().update(at as int, (old(self).entries()[at as int].0, value@)));
    }
}

impl<V: View + Clone> Shelf<V> {
    /// A shelf with the same keys, each with a copy of its value.
    fn copy(&self) -> (shelf: Self)
        requires
            self.ok(),
        ensures
            shelf.ok(),
            shelf.keys@.len() == self.keys@.len(),
            forall|i: int|
                0 <= i < self.keys@.len() ==> (#[trigger] shelf.keys@[i])@ == self.keys@[i]@ && cloned::<V>(
                    self.values@[i],
                    shelf.values@[i],
                ),
    {
        let mut shelf: Self = Shelf::new();
        let mut i: usize = 0;
        while i < self.keys.len()
            invariant
                i <= self.keys@.len(),
                self.ok(),
                shelf.ok(),
                shelf.keys@.len() == i,
                forall|k: int|
                    0 <= k < i ==> (#[trigger] shelf.keys@[k])@ == self.keys@[k]@ && cloned::<V>(
                        self.values@[k],
                        shelf.values@[k],
                    ),
            decreases self.keys@.len() - i,
        {
            let key: Uuid = self.keys[i].clone();
            assert forall|k: int| !at_key(shelf.entries(), key@, k) by {
                if 0 <= k < i {
                    assert(shelf.keys@[k]@ == self.keys@[k]@);
                    assert(self.keys@[k]@ != self.keys@[i as int]@);
                }
            }
            shelf.push(key, self.values[i].clone());
            i += 1;
        }
        shelf
    }
}

/// Takes what a place on the shelves holds and leaves `empty` there.
fn swap_out<V: View>(slot: &mut Shelf<V>, empty: Shelf<V>) -> (full: Shelf<V>)
    ensures
        full == *old(slot),
        *final(slot) == empty,
    no_unwind
{
    let mut other: Shelf<V> = empty;
    std::mem::swap(slot, &mut other);
    other
}

/// The lending store.
#[derive(Debug)]
pub struct System {
    members: Shelf<Member>,
    items: Shelf<Item>,
    day: usize,
}

impl View for System {
    type V = SystemView;

    closed spec fn view(&self) -> SystemView {
        SystemView { members: self.members.entries(), items: self.items.entries(), day: self.day }
    }
}

impl Model for System {

}

impl System {
    #[verifier::type_invariant]
    spec fn keys_are_distinct(self) -> bool {
        self.members.ok() && self.items.ok()
    }

    /// In a store no key occurs twice among the members, nor among the
    /// items.
    proof fn lemma_wf(self)
        requires
            self.members.ok(),
            self.items.ok(),
        ensures
            self@.wf(),
    {
        self.members.lemma_distinct();
        self.items.lemma_distinct();
    }

    /// Creates a new, empty store on day 0.
    pub fn new() -> (s: System)
        ensures
            s@.members == Seq::<(UuidView, MemberView)>::empty(),
            s@.items == Seq::<(UuidView, ItemView)>::empty(),
            s@.day == 0,
            s@.wf(),
    {
        System { members: Shelf::new(), items: Shelf::new(), day: 0 }
    }
}

impl LendingSystem for System {
    open spec fn today(&self) -> usize {
        self@.day
    }

    fn get_members(&self) -> (r: Vec<&Member>)
        ensures
            r@.len() == self@.members.len(),
            forall|i: int| 0 <= i < r@.len() ==> (#[trigger] r@[i])@ == self@.members[i].1,
    {
        proof {
            use_type_invariant(self);
        }
        let mut out: Vec<&Member> = Vec::new();
        let mut i: usize = 0;
        while i < self.members.values.len()
            invariant
                i <= self.members.values@.len(),
                self.members.aligned(),
                out@.len() == i,
                forall|j: int| 0 <= j < i ==> (#[trigger] out@[j])@ == self@.members[j].1,
            decreases self.members.values@.len() - i,
        {
            out.push(&self.members.values[i]);
            i += 1;
        }
        out
    }

    fn get_member(&self, member: &Member) -> (r: SysResult<Member>)
        ensures
            match r {
                Ok(m) => has_key(self@.members, member@.uuid) && m@ == value_at(self@.members, member@.uuid),
                Err(e) => !has_key(self@.members, member@.uuid) && e == SysError::DoesntExist,
            },
    {
        proof {
            use_type_invariant(&*self);
            self.lemma_wf();
        }
        match self.members.index_of(member.get_uuid()) {
            Some(at) => Ok(self.members.values[at].clone()),
            None => Err(SysError::DoesntExist),
        }
    }

    fn get_member_mut(&mut self, member: &Member) -> (r: SysResult<&mut Member>)
        ensures
            match r {
                Ok(m) => {
                    &&& has_key(old(self)@.members, member@.uuid)
                    &&& m@ == value_at(old(self)@.members, member@.uuid)
                    &&& final(self)@.members =~= old(self)@.members.update(
                        index_of_key(old(self)@.members, member@.uuid),
                        (member@.uuid, final(m)@),
                    )
                    &&& final(self)@.items == old(self)@.items
                    &&& final(self)@.day == old(self)@.day
                },
                Err(e) => !has_key(old(self)@.members, member@.uuid) && e == SysError::DoesntExist
                    && final(self)@ == old(self)@,
            },
    {
        proof {
            use_type_invariant(&*self);
            self.lemma_wf();
        }
        match self.members.index_of(member.get_uuid()) {
            Some(at) => Ok(&mut self.members.values[at]),
            None => Err(SysError::DoesntExist),
        }
    }

    fn add_member(&mut self, member: Member) -> (r: SysResult<()>)
        ensures
            registered(old(self)@.members, member@) ==> r == Err::<(), SysError>(SysError::AlreadyExists),
            !registered(old(self)@.members, member@) ==> r is Ok,
            final(self)@ == old(self)@.with_member(member@),
            final(self)@.wf(),
    {
        proof {
            use_type_invariant(&*self);
            self.lemma_wf();
        }
        if self.exists_member(&member) {
            return Err(SysError::AlreadyExists);
        }
        let key: Uuid = member.get_uuid().clone();
        assert forall|at: int| !at_key(self@.members, key@, at) by {
            if 0 <= at < self@.members.len() {
                assert(!matches_entry(self@.members[at], member@));
            }
        }
        let mut members: Shelf<Member> = swap_out(&mut self.members, Shelf::new());
        members.push(key, member);
        self.members = members;
        proof {
            use_type_invariant(&*self);
            self.lemma_wf();
        }
        Ok(())
    }

    fn remove_member(&mut self, member: &Member) -> (r: SysResult<()>)
        ensures
            has_key(old(self)@.members, member@.uuid) ==> r is Ok,
            !has_key(old(self)@.members, member@.uuid) ==> r == Err::<(), SysError>(SysError::DoesntExist),
            final(self)@ == old(self)@.without_member(member@.uuid),
            !has_key(final(self)@.members, member@.uuid),
            final(self)@.wf(),
    {
        proof {
            use_type_invariant(&*self);
            self.lemma_wf();
        }
        match self.members.index_of(member.get_uuid()) {
            Some(at) => {
                let mut members: Shelf<Member> = swap_out(&mut self.members, Shelf::new());
                members.remove(at);
                self.members = members;
                proof {
                    use_type_invariant(&*self);
                    self.lemma_wf();
                }
                Ok(())
            },
            None => Err(SysError::DoesntExist),
        }
    }

    fn update_member(&mut self, old_info: &Member, new_info: &Member) -> (r: SysResult<()>)
        ensures
            has_key(old(self)@.members, old_info@.uuid) ==> r is Ok,
            !has_key(old(self)@.members, old_info@.uuid) ==> r == Err::<(), SysError>(SysError::DoesntExist),
            final(self)@ == old(self)@.with_member_replaced(old_info@.uuid, new_info@),
            final(self)@.wf(),
    {
        proof {
            use_type_invariant(&*self);
            self.lemma_wf();
        }
        match self.members.index_of(old_info.get_uuid()) {
            Some(at) => {
                let mut members: Shelf<Member> = swap_out(&mut self.members, Shelf::new());
                members.set(at, new_info.clone());
                self.members = members;
                proof {
                    use_type_invariant(&*self);
                    self.lemma_wf();
                }
                Ok(())
            },
            None => Err(SysError::DoesntExist),
        }
    }

    fn exists_member(&self, member: &Member) -> (r: bool)
        ensures
            r == registered(self@.members, member@),
    {
        proof {
            use_type_invariant(self);
        }
        let mut i: usize = 0;
        while i < self.members.values.len()
            invariant
                i <= self.members.values@.len(),
                self.members.aligned(),
                forall|j: int| 0 <= j < i ==> !matches_entry(#[trigger] self@.members[j], member@),
            decreases self.members.values@.len() - i,
        {
            let stored: &Member = &self.members.values[i];
            if String::eq(stored.get_email(), member.get_email()) || String::eq(
                stored.get_phone_nr(),
                member.get_phone_nr(),
            ) || *stored.get_uuid() == *member.get_uuid() || self.members.keys[i] == *member.get_uuid() {
                assert(matches_entry(self@.members[i as int], member@));
                return true;
            }
            i += 1;
        }
        false
    }

    fn get_items(&self) -> (r: Vec<&Item>)
        ensures
            r@.len() == self@.items.len(),
            forall|i: int| 0 <= i < r@.len() ==> (#[trigger] r@[i])@ == self@.items[i].1,
    {
        proof {
            use_type_invariant(self);
        }
        let mut out: Vec<&Item> = Vec::new();
        let mut i: usize = 0;
        while i < self.items.values.len()
            invariant
                i <= self.items.values@.len(),
                self.items.aligned(),
                out@.len() == i,
                forall|j: int| 0 <= j < i ==> (#[trigger] out@[j])@ == self@.items[j].1,
            decreases self.items.values@.len() - i,
        {
            out.push(&self.items.values[i]);
            i += 1;
        }
        out
    }

    fn get_items_for_member(&self, member: &Member) -> (r: Vec<&Item>)
        ensures
            r@.map_values(|item: &Item| item@) == item_values(self@.items).filter(
                |item: ItemView| same_person(item.owner, member@),
            ),
    {
        proof {
            use_type_invariant(self);
        }
        let mut out: Vec<&Item> = Vec::new();
        let ghost all = item_values(self@.items);
        let ghost owned = |item: ItemView| same_person(item.owner, member@);
        let ghost value = |item: &Item| item@;
        proof {
            reveal(Seq::filter);
            assert(out@.map_values(value) =~= all.take(0).filter(owned));
        }
        let mut i: usize = 0;
        while i < self.items.values.len()
            invariant
                i <= self.items.values@.len(),
                self.items.aligned(),
                all == item_values(self@.items),
                owned == |item: ItemView| same_person(item.owner, member@),
                value == |item: &Item| item@,
                out@.map_values(value) == all.take(i as int).filter(owned),
            decreases self.items.values@.len() - i,
        {
            let item: &Item = &self.items.values[i];
            if *item.get_owner() == *member {
                out.push(item);
            }
            proof {
                reveal(Seq::filter);
                let next = all.take(i as int + 1);
                assert(next.drop_last() =~= all.take(i as int));
                assert(next.last() == self@.items[i as int].1);
                assert(out@.map_values(value) =~= next.filter(owned));
            }
            i += 1;
        }
        assert(all.take(i as int) =~= all);
        out
    }

    fn get_item_for_contract(&self, contract: &Contract) -> (r: SysResult<&Item>)
        ensures
            match r {
                Ok(item) => exists|at: int| #[trigger]
                    first_holder(self@.items, contract@.uuid, at) && item@ == self@.items[at].1,
                Err(e) => no_holder(self@.items, contract@.uuid) && e == SysError::DoesntExist,
            },
    {
        proof {
            use_type_invariant(self);
        }
        let mut i: usize = 0;
        while i < self.items.values.len()
            invariant
                i <= self.items.values@.len(),
                self.items.aligned(),
                forall|j: int| 0 <= j < i ==> !holds_contract((#[trigger] self@.items[j]).1, contract@.uuid),
            decreases self.items.values@.len() - i,
        {
            let item: &Item = &self.items.values[i];
            if find_contract(item, contract.get_uuid()).is_some() {
                assert(first_holder(self@.items, contract@.uuid, i as int));
                return Ok(item);
            }
            i += 1;
        }
        Err(SysError::DoesntExist)
    }

    fn get_item(&self, item: &Item) -> (r: SysResult<Item>)
        ensures
            match r {
                Ok(it) => has_key(self@.items, item@.uuid) && it@ == value_at(self@.items, item@.uuid),
                Err(e) => !has_key(self@.items, item@.uuid) && e == SysError::DoesntExist,
            },
    {
        proof {
            use_type_invariant(&*self);
            self.lemma_wf();
        }
        match self.items.index_of(item.get_uuid()) {
            Some(at) => Ok(self.items.values[at].clone()),
            None => Err(SysError::DoesntExist),
        }
    }

    fn get_contract(&self, contract: &Contract) -> (r: SysResult<Contract>)
        ensures
            match r {
                Ok(c) => exists|at: int, k: int| #[trigger]
                    first_holder(self@.items, contract@.uuid, at) && #[trigger] first_with_id(
                        self@.items[at].1.history,
                        contract@.uuid,
                        k,
                    ) && c@ == self@.items[at].1.history[k],
                Err(e) => no_holder(self@.items, contract@.uuid) && e == SysError::DoesntExist,
            },
    {
        proof {
            use_type_invariant(self);
        }
        let mut i: usize = 0;
        while i < self.items.values.len()
            invariant
                i <= self.items.values@.len(),
                self.items.aligned(),
                forall|j: int| 0 <= j < i ==> !holds_contract((#[trigger] self@.items[j]).1, contract@.uuid),
            decreases self.items.values@.len() - i,
        {
            let item: &Item = &self.items.values[i];
            match find_contract(item, contract.get_uuid()) {
                Some(k) => {
                    assert(first_holder(self@.items, contract@.uuid, i as int));
                    assert(first_with_id(self@.items[i as int].1.history, contract@.uuid, k as int));
                    return Ok(item.get_history().values[k].clone());
                },
                None => {},
            }
            i += 1;
        }
        Err(SysError::DoesntExist)
    }

    fn add_item(&mut self, item: Item) -> (r: SysResult<()>)
        ensures
            r == add_item_outcome(old(self)@, item@),
            final(self)@ == old(self)@.with_item(item@),
            final(self)@.wf(),
    {
        proof {
            use_type_invariant(&*self);
            self.lemma_wf();
        }
        if self.items.index_of(item.get_uuid()).is_some() {
            return Err(SysError::AlreadyExists);
        }
        let at: usize = match self.members.index_of(item.get_owner().get_uuid()) {
            Some(at) => at,
            None => {
                return Err(SysError::CannotUpdate);
            },
        };
        let mut owner: Member = self.members.values[at].clone();
        if *owner.get_credits() > u64::MAX - LISTING_BONUS {
            return Err(SysError::CannotUpdate);
        }
        match owner.add_credits(100) {
            Ok(_) => {},
            Err(_) => {
                return Err(SysError::CannotUpdate);
            },
        }
        let item_key: Uuid = item.get_uuid().clone();
        let mut members: Shelf<Member> = swap_out(&mut self.members, Shelf::new());
        members.set(at, owner);
        self.members = members;
        let mut items: Shelf<Item> = swap_out(&mut self.items, Shelf::new());
        items.push(item_key, item);
        self.items = items;
        proof {
            use_type_invariant(&*self);
            self.lemma_wf();
        }
        Ok(())
    }

    fn remove_item(&mut self, item: &Item) -> (r: SysResult<()>)
        ensures
            has_key(old(self)@.items, item@.uuid) ==> r is Ok,
            !has_key(old(self)@.items, item@.uuid) ==> r == Err::<(), SysError>(SysError::CannotDelete),
            final(self)@ == old(self)@.without_item(item@.uuid),
            !has_key(final(self)@.items, item@.uuid),
            final(self)@.wf(),
    {
        proof {
            use_type_invariant(&*self);
            self.lemma_wf();
        }
        match self.items.index_of(item.get_uuid()) {
            Some(at) => {
                let mut items: Shelf<Item> = swap_out(&mut self.items, Shelf::new());
                items.remove(at);
                self.items = items;
                proof {
                    use_type_invariant(&*self);
                    self.lemma_wf();
                }
                Ok(())
            },
            None => Err(SysError::CannotDelete),
        }
    }

    fn update_item(&mut self, info: &Item) -> (r: SysResult<()>)
        ensures
            has_key(old(self)@.items, info@.uuid) ==> r is Ok,
            !has_key(old(self)@.items, info@.uuid) ==> r == Err::<(), SysError>(SysError::CannotUpdate),
            final(self)@ == old(self)@.with_item_replaced(info@.uuid, info@),
            final(self)@.wf(),
    {
        proof {
            use_type_invariant(&*self);
            self.lemma_wf();
        }
        match self.items.index_of(info.get_uuid()) {
            Some(at) => {
                let mut items: Shelf<Item> = swap_out(&mut self.items, Shelf::new());
                items.set(at, info.clone());
                self.items = items;
                proof {
                    use_type_invariant(&*self);
                    self.lemma_wf();
                }
                Ok(())
            },
            None => Err(SysError::CannotUpdate),
        }
    }

    fn count_items_for_member(&self, member: &Member) -> (r: usize)
        ensures
            r == item_values(self@.items).filter(|item: ItemView| same_person(item.owner, member@)).len(),
    {
        let owned: Vec<&Item> = self.get_items_for_member(member);
        owned.len()
    }

    fn incr_time(&mut self)
        ensures
            final(self)@ == (SystemView { day: (old(self)@.day + 1) as usize, ..old(self)@ }),
            final(self)@.wf(),
    {
        proof {
            use_type_invariant(&*self);
            self.lemma_wf();
        }
        self.day = self.day + 1;
    }

    fn now(&self) -> (r: usize)
        ensures
            r == self@.day,
            r == self.today(),
    {
        self.day
    }
}

impl System {
    /// Lends the item to the lendee for `contract_len` days from the day
    /// `start_date` on, at the price of the item's cost per day times the
    /// number of days. The new contract is added to a copy of the item on
    /// the store's day, so that the copy is no longer available where a
    /// booking holds it on that day; the copy replaces the stored item and
    /// is handed back. Where the loan is refused, nothing changes.
    pub fn lend(&mut self, item: &Item, lendee: &Member, start_date: usize, contract_len: usize) -> (r: Result<
        Item,
        LendError,
    >)
        ensures
            match r {
                Ok(lent) => {
                    &&& lend_outcome(old(self)@, item@, lendee@, start_date, contract_len) is Ok
                    &&& exists|c: ContractView| #[trigger]
                        fresh_contract(
                            c,
                            item@.owner,
                            lendee@,
                            start_date,
                            contract_len,
                            (item@.cost_per_day * contract_len) as u64,
                        ) && lent@ == (ItemView {
                            history: item@.history.push(c),
                            is_available: item@.is_available && !booked_on(
                                item@.history.push(c),
                                old(self)@.day as int,
                            ),
                            ..item@
                        })
                    &&& final(self)@ == old(self)@.with_item_replaced(item@.uuid, lent@)
                },
                Err(e) => lend_outcome(old(self)@, item@, lendee@, start_date, contract_len) == Err::<(), LendError>(e)
                    && final(self)@ == old(self)@,
            },
            final(self)@.wf(),
    {
        proof {
            use_type_invariant(&*self);
            self.lemma_wf();
        }
        if *lendee == *item.get_owner() {
            return Err(LendError::OwnItem);
        }
        if contract_len == 0 {
            return Err(LendError::NoDays);
        }
        if contract_len > usize::MAX - start_date {
            return Err(LendError::TooLong);
        }
        let cost: u64 = *item.get_cost_per_day();
        let days: u64 = contract_len as u64;
        if cost != 0 && days > u64::MAX / cost {
            proof {
                assert(cost * days > u64::MAX) by (nonlinear_arith)
                    requires
                        cost > 0,
                        days > u64::MAX / cost,
                ;
            }
            return Err(LendError::TooLong);
        }
        proof {
            assert(cost * days <= u64::MAX) by (nonlinear_arith)
                requires
                    cost == 0 || days <= u64::MAX / cost,
                    0 <= days,
                    0 <= cost,
            ;
        }
        let contract: Contract = Contract::new(
            item.get_owner().clone(),
            lendee.clone(),
            start_date,
            contract_len,
            cost * days,
        );
        let ghost c = contract@;
        assert(fresh_contract(c, item@.owner, lendee@, start_date, contract_len, (cost * days) as u64));
        let mut lent: Item = item.clone();
        if lent.add_contract_on(contract, self.day).is_err() {
            return Err(LendError::Booked);
        }
        if self.update_item(&lent).is_err() {
            return Err(LendError::NotStored);
        }
        assert(lent@ == (ItemView {
            history: item@.history.push(c),
            is_available: item@.is_available && !booked_on(item@.history.push(c), old(self)@.day as int),
            ..item@
        }));
        Ok(lent)
    }

    /// Hands in each of the members, one after another, then each of the
    /// items. A member or an item that the store refuses is left out.
    pub fn seed(&mut self, members: &Vec<Member>, items: &Vec<Item>)
        ensures
            final(self)@ == with_items(
                with_members(old(self)@, members@.map_values(|m: Member| m@)),
                items@.map_values(|item: Item| item@),
            ),
            final(self)@.wf(),
    {
        proof {
            use_type_invariant(&*self);
            self.lemma_wf();
        }
        let ghost member_values = members@.map_values(|m: Member| m@);
        let ghost item_values = items@.map_values(|item: Item| item@);
        let mut i: usize = 0;
        assert(member_values.take(0) =~= Seq::<MemberView>::empty());
        while i < members.len()
            invariant
                i <= members@.len(),
                member_values == members@.map_values(|m: Member| m@),
                self@ == with_members(old(self)@, member_values.take(i as int)),
                self@.wf(),
            decreases members@.len() - i,
        {
            proof {
                assert(member_values.take(i + 1).drop_last() =~= member_values.take(i as int));
                assert(member_values.take(i + 1).last() == members@[i as int]@);
            }
            let _ = self.add_member(members[i].clone());
            i += 1;
        }
        assert(member_values.take(i as int) =~= member_values);
        let ghost with_all = self@;
        let mut k: usize = 0;
        assert(item_values.take(0) =~= Seq::<ItemView>::empty());
        while k < items.len()
            invariant
                k <= items@.len(),
                item_values == items@.map_values(|item: Item| item@),
                self@ == with_items(with_all, item_values.take(k as int)),
                self@.wf(),
            decreases items@.len() - k,
        {
            proof {
                assert(item_values.take(k + 1).drop_last() =~= item_values.take(k as int));
                assert(item_values.take(k + 1).last() == items@[k as int]@);
            }
            let _ = self.add_item(items[k].clone());
            k += 1;
        }
        assert(item_values.take(k as int) =~= item_values);
    }
}

impl Clone for System {
    fn clone(&self) -> (s: Self)
        ensures
            s@ == self@,
    {
        proof {
            use_type_invariant(self);
        }
        let members: Shelf<Member> = self.members.copy();
        let items: Shelf<Item> = self.items.copy();
        assert(members.entries() =~= self.members.entries());
        assert(items.entries() =~= self.items.entries());
        System { members, items, day: self.day }
    }
}

impl Demo for System {
    /// Makes the members, items and contracts of the demonstration and
    /// hands them in. Where a member of the demonstration does not meet
    /// the rules for members, nothing is handed in.
    fn init_demo(&mut self)
        ensures
            demo_members_ok() ==> exists|members: Seq<MemberView>, items: Seq<ItemView>| #[trigger]
                demo_data(members, items) && final(self)@ == with_items(
                    with_members(old(self)@, members),
                    items,
                ),
            !demo_members_ok() ==> final(self)@ == old(self)@,
            final(self)@.wf(),
    {
        proof {
            use_type_invariant(&*self);
            self.lemma_wf();
        }
        let allan: Member = match Member::new(
            "Allan".to_owned(),
            "allan@enigma.com".to_owned(),
            "0123456789".to_owned(),
            0,
        ) {
            Ok(m) => m,
            Err(_) => {
                return ;
            },
        };
        let tina: Member = match Member::new(
            "Tina".to_owned(),
            "tina@somethingelse.com".to_owned(),
            "01234543210".to_owned(),
            0,
        ) {
            Ok(m) => m,
            Err(_) => {
                return ;
            },
        };
        let turing: Member = match Member::new(
            "Turing".to_owned(),
            "turing@enigma.com".to_owned(),
            "9876567890".to_owned(),
            0,
        ) {
            Ok(m) => m,
            Err(_) => {
                return ;
            },
        };
        let jeff: Member = match Member::new(
            "Jeff".to_owned(),
            "jeff@bezos.com".to_owned(),
            "0987654321".to_owned(),
            0,
        ) {
            Ok(m) => m,
            Err(_) => {
                return ;
            },
        };
        let mut monopoly: Item = Item::new(
            "Monopoly".to_owned(),
            "Family Game".to_owned(),
            Category::Game,
            allan.clone(),
            30,
            0,
        );
        let mut siedler: Item = Item::new(
            "Siedler".to_owned(),
            "Another Family Game".to_owned(),
            Category::Game,
            allan.clone(),
            45,
            0,
        );
        let t_rex: Item = Item::new("T-Rex".to_owned(), "Dinosaur".to_owned(), Category::Toy, turing.clone(), 10, 0);
        let hammer: Item = Item::new(
            "Hammer".to_owned(),
            "A useful tool".to_owned(),
            Category::Tool,
            turing.clone(),
            150,
            0,
        );
        let first: Contract = Contract::new(t_rex.get_owner().clone(), tina.clone(), 6, 6, 60);
        let second: Contract = Contract::new(siedler.get_owner().clone(), tina.clone(), 12, 9, 405);
        let third: Contract = Contract::new(hammer.get_owner().clone(), turing.clone(), 0, 10, 1500);
        let _ = monopoly.add_contract(first);
        let _ = siedler.add_contract(second);
        proof {
            let h = siedler@.history;
            assert(h.len() == 1);
            assert(!crate::models::domain::item::taken(h, 0, 10)) by {
                assert forall|i: int| 0 <= i < h.len() implies !(#[trigger] h[i]).meets(0, 10) by {
                    assert(h[i].start_date == 12);
                }
            }
        }
        let _ = siedler.add_contract(third);
        let mut members: Vec<Member> = Vec::new();
        members.push(allan);
        members.push(tina);
        members.push(turing);
        members.push(jeff);
        let mut items: Vec<Item> = Vec::new();
        items.push(monopoly);
        items.push(siedler);
        items.push(t_rex);
        items.push(hammer);
        proof {
            let ms = members@.map_values(|m: Member| m@);
            let is = items@.map_values(|item: Item| item@);
            assert(demo_data(ms, is));
        }
        self.seed(&members, &items);
    }
}

/// Where the first contract with the identity `id` stands in the history of
/// the item.
fn find_contract(item: &Item, id: &Uuid) -> (r: Option<usize>)
    ensures
        match r {
            Some(k) => first_with_id(item@.history, id@, k as int),
            None => !holds_contract(item@, id@),
        },
{
    let history = item.get_history();
    let mut k: usize = 0;
    while k < history.len()
        invariant
            k <= history.values@.len(),
            crate::models::domain::contract::views(history.values@) == item@.history,
            forall|j: int| 0 <= j < k ==> (#[trigger] item@.history[j]).uuid != id@,
        decreases history.values@.len() - k,
    {
        if *history.values[k].get_uuid() == *id {
            return Some(k);
        }
        k += 1;
    }
    None
}

} // verus!
