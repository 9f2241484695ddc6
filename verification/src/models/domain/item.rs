//! Items: lendable objects with an owner and a booking history in which no
//! two contracts may hold the item on the same day.

use vstd::prelude::*;
use vstd::std_specs::cmp::PartialEqSpecImpl;
use crate::errors::SysError;
use crate::models::domain::contract::{
    all_printable, history_text, lemma_history_round_trip, parse_history, parsed_history, views, write_history,
    Contract, ContractView, Status,
};
use crate::models::domain::member::{
    lemma_member_text_round_trip, member_field, member_or, read_member, read_member_or, Member, MemberView,
};
use crate::models::uuid::{
    lemma_uuid_text_round_trip, read_uuid, read_uuid_or, uuid_field, uuid_or, Uuid, UuidView, DEFAULT_LEN,
};
use crate::models::vec_wrapper::VecWrapper;
use crate::record::{
    closed, entry, fields_of, get, is_name, lemma_decimal_plain, lemma_lookup_at, lemma_plain_closed,
    lemma_record_round_trip, lookup, number_field, number_or, parse_record, parsed_record, read_text,
    read_text_or, read_u64, read_u64_or, read_usize, read_usize_or, record_text, text_or, well_formed,
    write_record, Fields,
};
use crate::text::{
    ascii_lowered, bool_text, decimal, decimal_text, lemma_bool_round_trip, lemma_decimal_round_trip, lowered,
    parse_bool, parsed_bool, same_text, text_of_bool,
};
use crate::types::{Data, FromMap, Model, StringMap, SysResult, ToMap};

verus! {

/// The number of days that the availability calendar shows.
pub const CALENDAR_DAYS: usize = 30;

/// The category an item can have.
#[derive(Debug, Clone, Copy, PartialEq, Eq, Structural)]
pub enum Category {
    /// A tool.
    Tool,
    /// A vehicle.
    Vehicle,
    /// A game.
    Game,
    /// A toy.
    Toy,
    /// Sport.
    Sport,
    /// Anything else.
    Other,
}

impl Default for Category {
    fn default() -> (c: Self)
        ensures
            c == Category::Other,
    {
        Category::Other
    }
}

/// The mathematical value of an [`Item`].
pub struct ItemView {
    /// The name.
    pub name: Seq<char>,
    /// The description.
    pub description: Seq<char>,
    /// The category.
    pub category: Category,
    /// The booking history, oldest booking first.
    pub history: Seq<ContractView>,
    /// The owner, as the member was when the item was made or assigned.
    pub owner: MemberView,
    /// The day the item was created.
    pub day_of_creation: usize,
    /// The price of one day.
    pub cost_per_day: u64,
    /// The availability flag.
    pub is_available: bool,
    /// The identity.
    pub uuid: UuidView,
}

/// No two bookings of a history hold the item on the same day.
pub open spec fn no_overlap(history: Seq<ContractView>) -> bool {
    forall|i: int, j: int|
        0 <= i < history.len() && 0 <= j < history.len() && i != j ==> !(#[trigger] history[i]).meets(
            (#[trigger] history[j]).start_date as int,
            history[j].end_date as int,
        )
}

/// Some booking of the history meets the days from `start` up to `end`.
pub open spec fn taken(history: Seq<ContractView>, start: int, end: int) -> bool {
    exists|i: int| 0 <= i < history.len() && (#[trigger] history[i]).meets(start, end)
}

/// The booking at `at` is the first of the history that meets the days from
/// `start` up to `end`.
pub open spec fn first_in_period(history: Seq<ContractView>, start: int, end: int, at: int) -> bool {
    &&& 0 <= at < history.len()
    &&& history[at].meets(start, end)
    &&& forall|j: int| 0 <= j < at ==> !(#[trigger] history[j]).meets(start, end)
}

/// Some booking of the history holds the item on the day `day`.
pub open spec fn booked_on(history: Seq<ContractView>, day: int) -> bool {
    exists|i: int| 0 <= i < history.len() && (#[trigger] history[i]).covers(day)
}

/// The booking at `at` is the first of the history that holds the item on
/// the day `day`.
pub open spec fn first_on_day(history: Seq<ContractView>, day: int, at: int) -> bool {
    &&& 0 <= at < history.len()
    &&& history[at].covers(day)
    &&& forall|j: int| 0 <= j < at ==> !(#[trigger] history[j]).covers(day)
}

/// Some booking of the history carries the status `Active`.
pub open spec fn has_active(history: Seq<ContractView>) -> bool {
    exists|i: int| 0 <= i < history.len() && (#[trigger] history[i]).status == Status::Active
}

/// A booking that is over: finished or called off.
pub open spec fn is_past(c: ContractView) -> bool {
    c.status == Status::Finished || c.status == Status::Canceled
}

/// A booking that is running.
pub open spec fn is_active(c: ContractView) -> bool {
    c.status == Status::Active
}

/// A booking that has not begun.
pub open spec fn is_future(c: ContractView) -> bool {
    c.status == Status::Future
}

/// The history after a booking was asked for: unchanged where the days are
/// taken, else with the booking at its end.
pub open spec fn booked(history: Seq<ContractView>, c: ContractView) -> Seq<ContractView> {
    if taken(history, c.start_date as int, c.end_date as int) {
        history
    } else {
        history.push(c)
    }
}

/// The history after a sequence of bookings was asked for, one after another.
pub open spec fn booked_all(history: Seq<ContractView>, requests: Seq<ContractView>) -> Seq<ContractView>
    decreases requests.len(),
{
    if requests.len() == 0 {
        history
    } else {
        booked(booked_all(history, requests.drop_last()), requests.last())
    }
}

/// A booking that is accepted keeps the bookings of the history apart.
pub proof fn lemma_booked_no_overlap(history: Seq<ContractView>, c: ContractView)
    requires
        no_overlap(history),
    ensures
        no_overlap(booked(history, c)),
{
    if !taken(history, c.start_date as int, c.end_date as int) {
        let after = history.push(c);
        assert forall|i: int, j: int| 0 <= i < after.len() && 0 <= j < after.len() && i != j implies !(
        #[trigger] after[i]).meets((#[trigger] after[j]).start_date as int, after[j].end_date as int) by {
            if i < history.len() && j < history.len() {
                assert(!history[i].meets(history[j].start_date as int, history[j].end_date as int));
            } else if i < history.len() {
                assert(!history[i].meets(c.start_date as int, c.end_date as int));
            } else {
                assert(!history[j].meets(c.start_date as int, c.end_date as int));
            }
        }
    }
}

/// Whatever bookings are asked for, and in whatever order, no two bookings in
/// the history of an item that started without overlap hold the item on the
/// same day.
pub proof fn lemma_bookings_never_overlap(history: Seq<ContractView>, requests: Seq<ContractView>)
    requires
        no_overlap(history),
    ensures
        no_overlap(booked_all(history, requests)),
    decreases requests.len(),
{
    if requests.len() > 0 {
        lemma_bookings_never_overlap(history, requests.drop_last());
        lemma_booked_no_overlap(booked_all(history, requests.drop_last()), requests.last());
    }
}

/// The bookings of an item, sorted by their status.
#[derive(Debug)]
pub struct HistoryMap {
    /// The bookings that are finished or called off.
    pub past: Vec<Contract>,
    /// The bookings that are running.
    pub active: Vec<Contract>,
    /// The bookings that have not begun.
    pub future: Vec<Contract>,
}

/// Item.
#[derive(Debug)]
pub struct Item {
    name: String,
    description: String,
    category: Category,
    history: VecWrapper<Contract>,
    owner: Member,
    day_of_creation: usize,
    cost_per_day: u64,
    is_available: bool,
    uuid: Uuid,
}

impl View for Item {
    type V = ItemView;

    closed spec fn view(&self) -> ItemView {
        ItemView {
            name: self.name@,
            description: self.description@,
            category: self.category,
            history: views(self.history.values@),
            owner: self.owner@,
            day_of_creation: self.day_of_creation,
            cost_per_day: self.cost_per_day,
            is_available: self.is_available,
            uuid: self.uuid@,
        }
    }
}

impl Model for Item {

}

impl Item {
    /// Creates a new item with a fresh identity and an empty history. It is
    /// available.
    pub fn new(
        name: String,
        description: String,
        category: Category,
        owner: Member,
        cost_per_day: u64,
        day_of_creation: usize,
    ) -> (item: Item)
        ensures
            item@.name == name@,
            item@.description == description@,
            item@.category == category,
            item@.owner == owner@,
            item@.cost_per_day == cost_per_day,
            item@.day_of_creation == day_of_creation,
            item@.history == Seq::<ContractView>::empty(),
            item@.is_available,
            item@.uuid.is_generated(DEFAULT_LEN),
            no_overlap(item@.history),
    {
        let item = Item {
            name,
            category,
            description,
            owner,
            cost_per_day,
            day_of_creation,
            uuid: Uuid::new(),
            history: VecWrapper::new(),
            is_available: true,
        };
        assert(item@.history =~= Seq::<ContractView>::empty());
        item
    }

    /// Adds a contract to the history, unless a booking of the history meets
    /// its days; then nothing changes. No day is given here, so the flag
    /// goes by the status that the bookings carry: once the history holds a
    /// booking with the status `Active`, the item is no longer available.
    /// Where the day is known, [`Item::add_contract_on`] goes by the day.
    pub fn add_contract(&mut self, contract: Contract) -> (r: SysResult<()>)
        ensures
            taken(old(self)@.history, contract@.start_date as int, contract@.end_date as int) ==> r == Err::<
                (),
                SysError,
            >(SysError::AlreadyExists) && final(self)@ == old(self)@,
            !taken(old(self)@.history, contract@.start_date as int, contract@.end_date as int) ==> r is Ok
                && final(self)@ == (ItemView {
                history: old(self)@.history.push(contract@),
                is_available: old(self)@.is_available && !has_active(old(self)@.history.push(contract@)),
                ..old(self)@
            }),
            final(self)@.history == booked(old(self)@.history, contract@),
            no_overlap(old(self)@.history) ==> no_overlap(final(self)@.history),
    {
        proof {
            if no_overlap(self@.history) {
                lemma_booked_no_overlap(self@.history, contract@);
            }
        }
        match self.get_contract_in_period(contract.get_start_date(), contract.get_end_date()) {
            Some(_) => Err(SysError::AlreadyExists),
            None => {
                self.history.push(contract);
                assert(self@.history =~= old(self)@.history.push(contract@));
                if self.has_active_contract() {
                    self.is_available = false;
                }
                Ok(())
            },
        }
    }

    /// Adds a contract to the history on the day `now`, unless a booking of
    /// the history meets its days; then nothing changes. Where a booking of
    /// the new history holds the item on the day `now`, the item is no
    /// longer available; else the flag stays as it was.
    pub fn add_contract_on(&mut self, contract: Contract, now: usize) -> (r: SysResult<()>)
        ensures
            taken(old(self)@.history, contract@.start_date as int, contract@.end_date as int) ==> r == Err::<
                (),
                SysError,
            >(SysError::AlreadyExists) && final(self)@ == old(self)@,
            !taken(old(self)@.history, contract@.start_date as int, contract@.end_date as int) ==> r is Ok
                && final(self)@ == (ItemView {
                history: old(self)@.history.push(contract@),
                is_available: old(self)@.is_available && !booked_on(old(self)@.history.push(contract@), now as int),
                ..old(self)@
            }),
            final(self)@.history == booked(old(self)@.history, contract@),
            no_overlap(old(self)@.history) ==> no_overlap(final(self)@.history),
    {
        proof {
            if no_overlap(self@.history) {
                lemma_booked_no_overlap(self@.history, contract@);
            }
        }
        match self.get_contract_in_period(contract.get_start_date(), contract.get_end_date()) {
            Some(_) => Err(SysError::AlreadyExists),
            None => {
                self.history.push(contract);
                assert(self@.history =~= old(self)@.history.push(contract@));
                if self.has_contract_on_date(&now) {
                    self.is_available = false;
                }
                Ok(())
            },
        }
    }

    /// Gets the first booking of the history that holds the item on the day
    /// `now`.
    pub fn get_active_contract(&self, now: usize) -> (r: Option<Contract>)
        ensures
            match r {
                Some(c) => exists|at: int| #[trigger] first_on_day(self@.history, now as int, at) && c@ == self@.history[at],
                None => !booked_on(self@.history, now as int),
            },
    {
        let mut i: usize = 0;
        while i < self.history.len()
            invariant
                i <= self.history.values@.len(),
                forall|j: int| 0 <= j < i ==> !(#[trigger] self@.history[j]).covers(now as int),
            decreases self.history.values@.len() - i,
        {
            let contract: &Contract = &self.history.values[i];
            if *contract.get_start_date() <= now && now < *contract.get_end_date() {
                assert(first_on_day(self@.history, now as int, i as int));
                return Some(contract.clone());
            }
            i += 1;
        }
        None
    }

    /// Gets the first booking of the history that meets the days from
    /// `start_date` up to, but not including, `end_date`.
    pub fn get_contract_in_period(&self, start_date: &usize, end_date: &usize) -> (r: Option<Contract>)
        ensures
            match r {
                Some(c) => exists|at: int| #[trigger]
                    first_in_period(self@.history, *start_date as int, *end_date as int, at) && c@
                        == self@.history[at],
                None => !taken(self@.history, *start_date as int, *end_date as int),
            },
    {
        let mut i: usize = 0;
        while i < self.history.len()
            invariant
                i <= self.history.values@.len(),
                forall|j: int| 0 <= j < i ==> !(#[trigger] self@.history[j]).meets(*start_date as int, *end_date as int),
            decreases self.history.values@.len() - i,
        {
            let contract: &Contract = &self.history.values[i];
            if *contract.get_start_date() < *end_date && *start_date < *contract.get_end_date() {
                assert(first_in_period(self@.history, *start_date as int, *end_date as int, i as int));
                return Some(contract.clone());
            }
            i += 1;
        }
        None
    }

    /// Tells whether some booking holds the item on the day `date`.
    fn has_contract_on_date(&self, date: &usize) -> (r: bool)
        ensures
            r == booked_on(self@.history, *date as int),
    {
        let mut i: usize = 0;
        while i < self.history.len()
            invariant
                i <= self.history.values@.len(),
                forall|j: int| 0 <= j < i ==> !(#[trigger] self@.history[j]).covers(*date as int),
            decreases self.history.values@.len() - i,
        {
            let contract: &Contract = &self.history.values[i];
            if *date >= *contract.get_start_date() && *date < *contract.get_end_date() {
                assert(self@.history[i as int].covers(*date as int));
                return true;
            }
            i += 1;
        }
        false
    }

    /// Tells whether some booking carries the status `Active`.
    fn has_active_contract(&self) -> (r: bool)
        ensures
            r == has_active(self@.history),
    {
        let mut i: usize = 0;
        while i < self.history.len()
            invariant
                i <= self.history.values@.len(),
                forall|j: int| 0 <= j < i ==> (#[trigger] self@.history[j]).status != Status::Active,
            decreases self.history.values@.len() - i,
        {
            match self.history.values[i].get_status() {
                Status::Active => {
                    assert(self@.history[i as int].status == Status::Active);
                    return true;
                },
                _ => {},
            }
            i += 1;
        }
        false
    }

    /// Sorts the bookings by the status they carry: finished and called off
    /// ones are past, active ones are active, future ones are future, and a
    /// booking with any other status is left out. The order of the history
    /// is kept.
    pub fn get_history_map(&self) -> (r: HistoryMap)
        ensures
            views(r.past@) == self@.history.filter(|c: ContractView| is_past(c)),
            views(r.active@) == self@.history.filter(|c: ContractView| is_active(c)),
            views(r.future@) == self@.history.filter(|c: ContractView| is_future(c)),
    {
        let mut past: Vec<Contract> = Vec::new();
        let mut active: Vec<Contract> = Vec::new();
        let mut future: Vec<Contract> = Vec::new();
        let ghost history = self@.history;
        let ghost p_past = |c: ContractView| is_past(c);
        let ghost p_active = |c: ContractView| is_active(c);
        let ghost p_future = |c: ContractView| is_future(c);
        let mut i: usize = 0;
        proof {
            reveal(Seq::filter);
            assert(history.take(0).filter(p_past) =~= views(past@));
            assert(history.take(0).filter(p_active) =~= views(active@));
            assert(history.take(0).filter(p_future) =~= views(future@));
        }
        while i < self.history.len()
            invariant
                i <= self.history.values@.len(),
                history == self@.history,
                p_past == |c: ContractView| is_past(c),
                p_active == |c: ContractView| is_active(c),
                p_future == |c: ContractView| is_future(c),
                views(past@) == history.take(i as int).filter(p_past),
                views(active@) == history.take(i as int).filter(p_active),
                views(future@) == history.take(i as int).filter(p_future),
            decreases self.history.values@.len() - i,
        {
            let contract: &Contract = &self.history.values[i];
            match contract.get_status() {
                Status::Active => active.push(contract.clone()),
                Status::Finished | Status::Canceled => past.push(contract.clone()),
                Status::Future => future.push(contract.clone()),
                Status::Other => {},
            }
            proof {
                reveal(Seq::filter);
                let next = history.take(i as int + 1);
                assert(next.drop_last() =~= history.take(i as int));
                assert(next.last() == history[i as int]);
                assert(views(past@) =~= next.filter(p_past));
                assert(views(active@) =~= next.filter(p_active));
                assert(views(future@) =~= next.filter(p_future));
            }
            i += 1;
        }
        assert(history.take(i as int) =~= history);
        HistoryMap { past, active, future }
    }

    /// The calendar of the days from `now` on: for each day its number as a
    /// decimal numeral, and whether some booking holds the item on that day.
    pub fn get_availability(&self, now: usize) -> (out: Vec<(String, bool)>)
        requires
            now + CALENDAR_DAYS <= usize::MAX,
        ensures
            out@.len() == CALENDAR_DAYS,
            forall|k: int|
                0 <= k < CALENDAR_DAYS ==> (#[trigger] out@[k]).0@ == decimal((now + k) as nat) && out@[k].1
                    == booked_on(self@.history, now + k),
    {
        let mut out: Vec<(String, bool)> = Vec::new();
        let mut i: usize = now;
        while i < now + CALENDAR_DAYS
            invariant
                now <= i <= now + CALENDAR_DAYS,
                now + CALENDAR_DAYS <= usize::MAX,
                out@.len() == i - now,
                forall|k: int|
                    0 <= k < i - now ==> (#[trigger] out@[k]).0@ == decimal((now + k) as nat) && out@[k].1
                        == booked_on(self@.history, now + k),
            decreases now + CALENDAR_DAYS - i,
        {
            out.push((decimal_text(i as u64), self.has_contract_on_date(&i)));
            i += 1;
        }
        out
    }

    /// The name.
    pub fn get_name(&self) -> (r: &String)
        ensures
            r@ == self@.name,
    {
        &self.name
    }

    /// The description.
    pub fn get_description(&self) -> (r: &String)
        ensures
            r@ == self@.description,
    {
        &self.description
    }

    /// The category.
    pub fn get_category(&self) -> (r: &Category)
        ensures
            *r == self@.category,
    {
        &self.category
    }

    /// The booking history.
    pub fn get_history(&self) -> (r: &VecWrapper<Contract>)
        ensures
            views(r.values@) == self@.history,
    {
        &self.history
    }

    /// The owner.
    pub fn get_owner(&self) -> (r: &Member)
        ensures
            r@ == self@.owner,
    {
        &self.owner
    }

    /// The day the item was created.
    pub fn get_day_of_creation(&self) -> (r: &usize)
        ensures
            *r == self@.day_of_creation,
    {
        &self.day_of_creation
    }

    /// The price of one day.
    pub fn get_cost_per_day(&self) -> (r: &u64)
        ensures
            *r == self@.cost_per_day,
    {
        &self.cost_per_day
    }

    /// The availability flag.
    pub fn get_is_available(&self) -> (r: &bool)
        ensures
            *r == self@.is_available,
    {
        &self.is_available
    }

    /// The identity.
    pub fn get_uuid(&self) -> (r: &Uuid)
        ensures
            r@ == self@.uuid,
    {
        &self.uuid
    }

    /// Takes the item apart into its fields.
    pub fn unpack(self) -> (r: (String, String, Category, VecWrapper<Contract>, Member, usize, u64, bool, Uuid))
        ensures
            r.0@ == self@.name,
            r.1@ == self@.description,
            r.2 == self@.category,
            views(r.3.values@) == self@.history,
            r.4@ == self@.owner,
            r.5 == self@.day_of_creation,
            r.6 == self@.cost_per_day,
            r.7 == self@.is_available,
            r.8@ == self@.uuid,
    {
        (
            self.name,
            self.description,
            self.category,
            self.history,
            self.owner,
            self.day_of_creation,
            self.cost_per_day,
            self.is_available,
            self.uuid,
        )
    }

    /// Sets the name.
    pub fn name(self, inp: String) -> (r: Self)
        ensures
            r@ == (ItemView { name: inp@, ..self@ }),
    {
        let mut item = self;
        item.name = inp;
        item
    }

    /// Sets the description.
    pub fn description(self, inp: String) -> (r: Self)
        ensures
            r@ == (ItemView { description: inp@, ..self@ }),
    {
        let mut item = self;
        item.description = inp;
        item
    }

    /// Sets the category.
    pub fn category(self, inp: Category) -> (r: Self)
        ensures
            r@ == (ItemView { category: inp, ..self@ }),
    {
        let mut item = self;
        item.category = inp;
        item
    }

    /// Replaces the booking history.
    pub fn history(self, inp: VecWrapper<Contract>) -> (r: Self)
        ensures
            r@ == (ItemView { history: views(inp.values@), ..self@ }),
    {
        let mut item = self;
        item.history = inp;
        item
    }

    /// Sets the owner.
    pub fn owner(self, inp: Member) -> (r: Self)
        ensures
            r@ == (ItemView { owner: inp@, ..self@ }),
    {
        let mut item = self;
        item.owner = inp;
        item
    }

    /// Sets the day of creation.
    pub fn day_of_creation(self, inp: usize) -> (r: Self)
        ensures
            r@ == (ItemView { day_of_creation: inp, ..self@ }),
    {
        let mut item = self;
        item.day_of_creation = inp;
        item
    }

    /// Sets the price of one day.
    pub fn cost_per_day(self, inp: u64) -> (r: Self)
        ensures
            r@ == (ItemView { cost_per_day: inp, ..self@ }),
    {
        let mut item = self;
        item.cost_per_day = inp;
        item
    }

    /// Sets the availability flag.
    pub fn is_available(self, inp: bool) -> (r: Self)
        ensures
            r@ == (ItemView { is_available: inp, ..self@ }),
    {
        let mut item = self;
        item.is_available = inp;
        item
    }

    /// Sets the identity.
    pub fn uuid(self, inp: Uuid) -> (r: Self)
        ensures
            r@ == (ItemView { uuid: inp@, ..self@ }),
    {
        let mut item = self;
        item.uuid = inp;
        item
    }

    /// Ends a chain of setters.
    pub fn build(self) -> (r: Self)
        ensures
            r@ == self@,
    {
        self
    }
}

impl Clone for Item {
    fn clone(&self) -> (r: Self)
        ensures
            r@ == self@,
    {
        let mut history: VecWrapper<Contract> = VecWrapper::new();
        let mut i: usize = 0;
        while i < self.history.len()
            invariant
                i <= self.history.values@.len(),
                views(history.values@) == views(self.history.values@).take(i as int),
            decreases self.history.values@.len() - i,
        {
            let copy: Contract = self.history.values[i].clone();
            let ghost before = history.values@;
            history.push(copy);
            i += 1;
            assert(views(history.values@) =~= views(before).push(copy@));
            assert(views(history.values@) =~= views(self.history.values@).take(i as int));
        }
        assert(views(self.history.values@).take(i as int) =~= views(self.history.values@));
        Item {
            name: self.name.clone(),
            description: self.description.clone(),
            category: self.category,
            history,
            owner: self.owner.clone(),
            day_of_creation: self.day_of_creation,
            cost_per_day: self.cost_per_day,
            is_available: self.is_available,
            uuid: self.uuid.clone(),
        }
    }
}

impl PartialEq for Item {
    fn eq(&self, other: &Self) -> (r: bool) {
        self.uuid == other.uuid
    }
}

impl PartialEqSpecImpl for Item {
    open spec fn obeys_eq_spec() -> bool {
        true
    }

    open spec fn eq_spec(&self, other: &Self) -> bool {
        self@.uuid == other@.uuid
    }
}

impl Default for Item {
    fn default() -> (item: Self)
        ensures
            item@.name == Seq::<char>::empty(),
            item@.description == Seq::<char>::empty(),
            item@.category == Category::Other,
            item@.history == Seq::<ContractView>::empty(),
            item@.day_of_creation == 0,
            item@.cost_per_day == 0,
            item@.is_available,
            item@.uuid.is_generated(DEFAULT_LEN),
            item@.owner == (MemberView {
                name: Seq::<char>::empty(),
                email: Seq::<char>::empty(),
                phone_nr: Seq::<char>::empty(),
                credits: 0,
                day_of_creation: 0,
                uuid: item@.owner.uuid,
            }),
            item@.owner.uuid.is_generated(DEFAULT_LEN),
    {
        let item = Item {
            name: String::new(),
            description: String::new(),
            category: Category::Other,
            history: VecWrapper::new(),
            owner: Member::default(),
            day_of_creation: 0,
            cost_per_day: 0,
            is_available: true,
            uuid: Uuid::new(),
        };
        assert(item@.history =~= Seq::<ContractView>::empty());
        item
    }
}

/// The text of a category.
pub open spec fn category_text(c: Category) -> Seq<char> {
    match c {
        Category::Tool => "Tool"@,
        Category::Vehicle => "Vehicle"@,
        Category::Game => "Game"@,
        Category::Toy => "Toy"@,
        Category::Sport => "Sport"@,
        Category::Other => "Other"@,
    }
}

/// The category that a text stands for, whatever the case of its ASCII
/// letters; a text that names no category stands for `Other`.
pub open spec fn parsed_category(text: Seq<char>) -> Category {
    let word = lowered(text);
    if word == "tool"@ {
        Category::Tool
    } else if word == "vehicle"@ {
        Category::Vehicle
    } else if word == "game"@ {
        Category::Game
    } else if word == "toy"@ {
        Category::Toy
    } else if word == "sport"@ {
        Category::Sport
    } else {
        Category::Other
    }
}

/// Reading the text of a category gives the category back, and the text
/// can stand as a value.
pub proof fn lemma_category_round_trip(c: Category)
    ensures
        parsed_category(category_text(c)) == c,
        closed(category_text(c)),
{
    reveal_strlit("Tool");
    reveal_strlit("Vehicle");
    reveal_strlit("Game");
    reveal_strlit("Toy");
    reveal_strlit("Sport");
    reveal_strlit("Other");
    reveal_strlit("tool");
    reveal_strlit("vehicle");
    reveal_strlit("game");
    reveal_strlit("toy");
    reveal_strlit("sport");
    let word = lowered(category_text(c));
    match c {
        Category::Tool => {
            assert(word =~= "tool"@);
        },
        Category::Vehicle => {
            assert(word =~= "vehicle"@);
            assert(word.len() != "tool"@.len());
        },
        Category::Game => {
            assert(word =~= "game"@);
            assert(word[0] != "tool"@[0]);
            assert(word.len() != "vehicle"@.len());
        },
        Category::Toy => {
            assert(word =~= "toy"@);
            assert(word.len() != "tool"@.len());
            assert(word.len() != "vehicle"@.len());
            assert(word.len() != "game"@.len());
        },
        Category::Sport => {
            assert(word =~= "sport"@);
            assert(word.len() != "tool"@.len());
            assert(word.len() != "vehicle"@.len());
            assert(word.len() != "game"@.len());
            assert(word.len() != "toy"@.len());
        },
        Category::Other => {
            assert(word.len() == 5);
            assert(word[0] == 'o');
            assert(word.len() != "tool"@.len());
            assert(word.len() != "vehicle"@.len());
            assert(word.len() != "game"@.len());
            assert(word.len() != "toy"@.len());
            assert(word[0] != "sport"@[0]);
        },
    }
    lemma_plain_closed(category_text(c));
}

impl Category {
    /// Writes the category as text.
    pub fn to_text(&self) -> (text: String)
        ensures
            text@ == category_text(*self),
    {
        match self {
            Category::Tool => "Tool".to_owned(),
            Category::Vehicle => "Vehicle".to_owned(),
            Category::Game => "Game".to_owned(),
            Category::Toy => "Toy".to_owned(),
            Category::Sport => "Sport".to_owned(),
            Category::Other => "Other".to_owned(),
        }
    }

    /// Reads a category from its text.
    pub fn from_text(text: &str) -> (c: Self)
        ensures
            c == parsed_category(text@),
    {
        let word: String = ascii_lowered(text);
        if same_text(word.as_str(), "tool") {
            Category::Tool
        } else if same_text(word.as_str(), "vehicle") {
            Category::Vehicle
        } else if same_text(word.as_str(), "game") {
            Category::Game
        } else if same_text(word.as_str(), "toy") {
            Category::Toy
        } else if same_text(word.as_str(), "sport") {
            Category::Sport
        } else {
            Category::Other
        }
    }
}

/// The category under the name `key`.
pub open spec fn category_field(fields: Fields, key: Seq<char>) -> Option<Category> {
    match lookup(fields, key) {
        Some(text) => Some(parsed_category(text)),
        None => None,
    }
}

/// The category under the name `key`, or `keep` where the name is missing.
pub open spec fn category_or(fields: Fields, key: Seq<char>, keep: Category) -> Category {
    match lookup(fields, key) {
        Some(text) => parsed_category(text),
        None => keep,
    }
}

/// The list of contracts under the name `key`, where the text there
/// describes one.
pub open spec fn history_field(fields: Fields, key: Seq<char>) -> Option<Seq<ContractView>> {
    match lookup(fields, key) {
        Some(text) => parsed_history(text),
        None => None,
    }
}

/// The list of contracts under the name `key`, or `keep` where the name is
/// missing; `None` where the text there describes no list.
pub open spec fn history_or(fields: Fields, key: Seq<char>, keep: Seq<ContractView>) -> Option<
    Seq<ContractView>,
> {
    match lookup(fields, key) {
        Some(text) => parsed_history(text),
        None => Some(keep),
    }
}

/// The truth value under the name `key`, where the text there is `true` or
/// `false`.
pub open spec fn bool_field(fields: Fields, key: Seq<char>) -> Option<bool> {
    match lookup(fields, key) {
        Some(text) => parsed_bool(text),
        None => None,
    }
}

/// The truth value under the name `key`, or `keep` where the name is
/// missing; `None` where the text there is neither `true` nor `false`.
pub open spec fn bool_or(fields: Fields, key: Seq<char>, keep: bool) -> Option<bool> {
    match lookup(fields, key) {
        Some(text) => parsed_bool(text),
        None => Some(keep),
    }
}

impl ItemView {
    /// The mapping of the fields, in their order: texts as they are,
    /// numbers as decimal numerals, the history, the owner and the identity
    /// as their texts.
    pub open spec fn fields(self) -> Fields {
        seq![
            ("name"@, self.name),
            ("description"@, self.description),
            ("category"@, category_text(self.category)),
            ("history"@, history_text(self.history)),
            ("owner"@, self.owner.text()),
            ("day_of_creation"@, decimal(self.day_of_creation as nat)),
            ("cost_per_day"@, decimal(self.cost_per_day as nat)),
            ("is_available"@, bool_text(self.is_available)),
            ("uuid"@, self.uuid.text()),
        ]
    }

    /// The mapping of the fields that a user may edit.
    pub open spec fn editable_fields(self) -> Fields {
        seq![
            ("name"@, self.name),
            ("description"@, self.description),
            ("category"@, category_text(self.category)),
            ("cost_per_day"@, decimal(self.cost_per_day as nat)),
        ]
    }

    /// The item as text.
    pub open spec fn text(self) -> Seq<char> {
        record_text(self.fields())
    }

    /// The item that a mapping describes, where it holds every field.
    pub open spec fn from_fields(fields: Fields) -> Option<ItemView> {
        match (
            lookup(fields, "name"@),
            lookup(fields, "description"@),
            category_field(fields, "category"@),
            history_field(fields, "history"@),
            member_field(fields, "owner"@),
            number_field(fields, "day_of_creation"@, usize::MAX as nat),
            number_field(fields, "cost_per_day"@, u64::MAX as nat),
            bool_field(fields, "is_available"@),
            uuid_field(fields, "uuid"@),
        ) {
            (
                Some(name),
                Some(description),
                Some(category),
                Some(history),
                Some(owner),
                Some(day),
                Some(cost),
                Some(is_available),
                Some(uuid),
            ) => Some(
                ItemView {
                    name,
                    description,
                    category,
                    history,
                    owner,
                    day_of_creation: day as usize,
                    cost_per_day: cost as u64,
                    is_available,
                    uuid,
                },
            ),
            _ => None,
        }
    }

    /// The item with the fields that a mapping names replaced.
    pub open spec fn with_fields(self, fields: Fields) -> Option<ItemView> {
        match (
            history_or(fields, "history"@, self.history),
            member_or(fields, "owner"@, self.owner),
            number_or(fields, "day_of_creation"@, usize::MAX as nat, self.day_of_creation as nat),
            number_or(fields, "cost_per_day"@, u64::MAX as nat, self.cost_per_day as nat),
            bool_or(fields, "is_available"@, self.is_available),
            uuid_or(fields, "uuid"@, self.uuid),
        ) {
            (Some(history), Some(owner), Some(day), Some(cost), Some(is_available), Some(uuid)) => Some(
                ItemView {
                    name: text_or(fields, "name"@, self.name),
                    description: text_or(fields, "description"@, self.description),
                    category: category_or(fields, "category"@, self.category),
                    history,
                    owner,
                    day_of_creation: day as usize,
                    cost_per_day: cost as u64,
                    is_available,
                    uuid,
                },
            ),
            _ => None,
        }
    }

    /// The item that a text describes.
    pub open spec fn from_text(text: Seq<char>) -> Option<ItemView> {
        match parsed_record(text) {
            Some(fields) => Self::from_fields(fields),
            None => None,
        }
    }

    /// Name and description, the contracts of the history, the owner and
    /// the token can stand as values in a record text.
    pub open spec fn printable(self) -> bool {
        &&& closed(self.name)
        &&& closed(self.description)
        &&& all_printable(self.history)
        &&& self.owner.printable()
        &&& self.uuid.printable()
    }
}

/// The field names of an item can stand as names, and differ.
pub proof fn lemma_item_names()
    ensures
        is_name("name"@),
        is_name("description"@),
        is_name("category"@),
        is_name("history"@),
        is_name("owner"@),
        is_name("day_of_creation"@),
        is_name("cost_per_day"@),
        is_name("is_available"@),
        is_name("uuid"@),
        "name"@.len() == 4,
        "description"@.len() == 11,
        "category"@.len() == 8,
        "history"@.len() == 7,
        "owner"@.len() == 5,
        "day_of_creation"@.len() == 15,
        "cost_per_day"@.len() == 12,
        "is_available"@.len() == 12,
        "uuid"@.len() == 4,
        "name"@[0] != "uuid"@[0],
        "cost_per_day"@[0] != "is_available"@[0],
{
    reveal_strlit("name");
    reveal_strlit("description");
    reveal_strlit("category");
    reveal_strlit("history");
    reveal_strlit("owner");
    reveal_strlit("day_of_creation");
    reveal_strlit("cost_per_day");
    reveal_strlit("is_available");
    reveal_strlit("uuid");
}

/// In the mapping of an item every field name leads to the text of its
/// field.
pub proof fn lemma_item_lookups(item: ItemView)
    ensures
        lookup(item.fields(), "name"@) == Some(item.name),
        lookup(item.fields(), "description"@) == Some(item.description),
        lookup(item.fields(), "category"@) == Some(category_text(item.category)),
        lookup(item.fields(), "history"@) == Some(history_text(item.history)),
        lookup(item.fields(), "owner"@) == Some(item.owner.text()),
        lookup(item.fields(), "day_of_creation"@) == Some(decimal(item.day_of_creation as nat)),
        lookup(item.fields(), "cost_per_day"@) == Some(decimal(item.cost_per_day as nat)),
        lookup(item.fields(), "is_available"@) == Some(bool_text(item.is_available)),
        lookup(item.fields(), "uuid"@) == Some(item.uuid.text()),
{
    lemma_item_names();
    let fields = item.fields();
    lemma_lookup_at(fields, 0);
    lemma_lookup_at(fields, 1);
    lemma_lookup_at(fields, 2);
    lemma_lookup_at(fields, 3);
    lemma_lookup_at(fields, 4);
    lemma_lookup_at(fields, 5);
    lemma_lookup_at(fields, 6);
    lemma_lookup_at(fields, 7);
    lemma_lookup_at(fields, 8);
}

/// Building an item from its own mapping gives the item back, where the
/// texts of its history, its owner and its identity can stand as values.
pub proof fn lemma_item_map_round_trip(item: ItemView)
    requires
        all_printable(item.history),
        item.owner.printable(),
        item.uuid.printable(),
    ensures
        ItemView::from_fields(item.fields()) == Some(item),
{
    lemma_item_lookups(item);
    lemma_category_round_trip(item.category);
    lemma_history_round_trip(item.history);
    lemma_member_text_round_trip(item.owner);
    lemma_decimal_round_trip(item.day_of_creation as nat);
    lemma_decimal_round_trip(item.cost_per_day as nat);
    lemma_bool_round_trip(item.is_available);
    lemma_uuid_text_round_trip(item.uuid);
}

/// The mapping of an item is well-formed, where its texts can stand as
/// values.
pub proof fn lemma_item_fields_well_formed(item: ItemView)
    requires
        item.printable(),
    ensures
        well_formed(item.fields()),
{
    lemma_item_names();
    lemma_category_round_trip(item.category);
    lemma_history_round_trip(item.history);
    lemma_member_text_round_trip(item.owner);
    lemma_decimal_plain(item.day_of_creation as nat);
    lemma_decimal_plain(item.cost_per_day as nat);
    lemma_uuid_text_round_trip(item.uuid);
    assert(closed(bool_text(item.is_available))) by {
        reveal_strlit("true");
        reveal_strlit("false");
        lemma_plain_closed(bool_text(item.is_available));
    }
}

/// Reading the text of an item gives the item back, where its texts can
/// stand as values. The text itself can stand as a value.
pub proof fn lemma_item_text_round_trip(item: ItemView)
    requires
        item.printable(),
    ensures
        ItemView::from_text(item.text()) == Some(item),
        closed(item.text()),
{
    lemma_item_fields_well_formed(item);
    lemma_record_round_trip(item.fields());
    lemma_item_map_round_trip(item);
}

impl ToMap for Item {
    fn to_map(&self) -> (map: StringMap)
        ensures
            fields_of(map@) == self@.fields(),
    {
        let mut map: StringMap = Vec::new();
        map.push(entry("name", self.name.clone()));
        map.push(entry("description", self.description.clone()));
        map.push(entry("category", self.category.to_text()));
        map.push(entry("history", write_history(&self.history)));
        map.push(entry("owner", self.owner.to_text()));
        map.push(entry("day_of_creation", decimal_text(self.day_of_creation as u64)));
        map.push(entry("cost_per_day", decimal_text(self.cost_per_day)));
        map.push(entry("is_available", text_of_bool(self.is_available)));
        map.push(entry("uuid", self.uuid.to_text()));
        assert(fields_of(map@) =~= self@.fields());
        map
    }

    fn to_map_allowed_mutable(&self) -> (map: StringMap)
        ensures
            fields_of(map@) == self@.editable_fields(),
    {
        let mut map: StringMap = Vec::new();
        map.push(entry("name", self.name.clone()));
        map.push(entry("description", self.description.clone()));
        map.push(entry("category", self.category.to_text()));
        map.push(entry("cost_per_day", decimal_text(self.cost_per_day)));
        assert(fields_of(map@) =~= self@.editable_fields());
        map
    }
}

/// Reads the list of contracts under the name `key`.
fn read_history(data: &StringMap, key: &str) -> (r: Option<VecWrapper<Contract>>)
    ensures
        match r {
            Some(history) => history_field(fields_of(data@), key@) == Some(views(history.values@)),
            None => history_field(fields_of(data@), key@) is None,
        },
{
    match get(data, key) {
        Some(text) => parse_history(text.as_str()),
        None => None,
    }
}

/// Reads the truth value under the name `key`.
fn read_bool(data: &StringMap, key: &str) -> (r: Option<bool>)
    ensures
        r == bool_field(fields_of(data@), key@),
{
    match get(data, key) {
        Some(text) => parse_bool(text.as_str()),
        None => None,
    }
}

impl FromMap for Item {
    fn from_complete_map(data: StringMap) -> (r: Option<Self>)
        ensures
            match r {
                Some(item) => ItemView::from_fields(fields_of(data@)) == Some(item@),
                None => ItemView::from_fields(fields_of(data@)) is None,
            },
    {
        let category: Category = match get(&data, "category") {
            Some(text) => Category::from_text(text.as_str()),
            None => {
                return None;
            },
        };
        match (
            read_text(&data, "name"),
            read_text(&data, "description"),
            read_history(&data, "history"),
            read_member(&data, "owner"),
            read_usize(&data, "day_of_creation"),
            read_u64(&data, "cost_per_day"),
            read_bool(&data, "is_available"),
            read_uuid(&data, "uuid"),
        ) {
            (
                Some(name),
                Some(description),
                Some(history),
                Some(owner),
                Some(day_of_creation),
                Some(cost_per_day),
                Some(is_available),
                Some(uuid),
            ) => Some(
                Item {
                    name,
                    description,
                    category,
                    history,
                    owner,
                    day_of_creation,
                    cost_per_day,
                    is_available,
                    uuid,
                },
            ),
            _ => None,
        }
    }

    fn copy_with(&self, data: StringMap) -> (r: Option<Self>)
        ensures
            match r {
                Some(item) => self@.with_fields(fields_of(data@)) == Some(item@),
                None => self@.with_fields(fields_of(data@)) is None,
            },
    {
        let category: Category = match get(&data, "category") {
            Some(text) => Category::from_text(text.as_str()),
            None => self.category,
        };
        let history: Option<VecWrapper<Contract>> = match get(&data, "history") {
            Some(text) => parse_history(text.as_str()),
            None => Some(self.clone().history),
        };
        let is_available: Option<bool> = match get(&data, "is_available") {
            Some(text) => parse_bool(text.as_str()),
            None => Some(self.is_available),
        };
        match (
            history,
            read_member_or(&data, "owner", &self.owner),
            read_usize_or(&data, "day_of_creation", self.day_of_creation),
            read_u64_or(&data, "cost_per_day", self.cost_per_day),
            is_available,
            read_uuid_or(&data, "uuid", &self.uuid),
        ) {
            (
                Some(history),
                Some(owner),
                Some(day_of_creation),
                Some(cost_per_day),
                Some(is_available),
                Some(uuid),
            ) => Some(
                Item {
                    name: read_text_or(&data, "name", &self.name),
                    description: read_text_or(&data, "description", &self.description),
                    category,
                    history,
                    owner,
                    day_of_creation,
                    cost_per_day,
                    is_available,
                    uuid,
                },
            ),
            _ => None,
        }
    }
}

impl Data for Item {
    fn head() -> (names: Vec<String>)
        ensures
            names@.map_values(|s: String| s@) == seq![
                "name"@,
                "description"@,
                "category"@,
                "history"@,
                "owner"@,
                "day_of_creation"@,
                "cost_per_day"@,
                "is_available"@,
                "uuid"@,
            ],
    {
        let mut names: Vec<String> = Vec::new();
        names.push("name".to_owned());
        names.push("description".to_owned());
        names.push("category".to_owned());
        names.push("history".to_owned());
        names.push("owner".to_owned());
        names.push("day_of_creation".to_owned());
        names.push("cost_per_day".to_owned());
        names.push("is_available".to_owned());
        names.push("uuid".to_owned());
        assert(names@.map_values(|s: String| s@) =~= seq![
            "name"@,
            "description"@,
            "category"@,
            "history"@,
            "owner"@,
            "day_of_creation"@,
            "cost_per_day"@,
            "is_available"@,
            "uuid"@,
        ]);
        names
    }

    fn head_allowed_mutable() -> (names: Vec<String>)
        ensures
            names@.map_values(|s: String| s@) == seq!["name"@, "description"@, "category"@, "cost_per_day"@],
    {
        let mut names: Vec<String> = Vec::new();
        names.push("name".to_owned());
        names.push("description".to_owned());
        names.push("category".to_owned());
        names.push("cost_per_day".to_owned());
        assert(names@.map_values(|s: String| s@) =~= seq![
            "name"@,
            "description"@,
            "category"@,
            "cost_per_day"@,
        ]);
        names
    }
}

impl Item {
    /// Writes the item as text.
    pub fn to_text(&self) -> (text: String)
        ensures
            text@ == self@.text(),
    {
        write_record(&self.to_map())
    }

    /// Reads an item from its text.
    pub fn from_text(text: &str) -> (r: Option<Self>)
        ensures
            match r {
                Some(item) => ItemView::from_text(text@) == Some(item@),
                None => ItemView::from_text(text@) is None,
            },
    {
        match parse_record(text) {
            Some(map) => Item::from_complete_map(map),
            None => None,
        }
    }
}

} // verus!
