//! Contracts: one loan of an item from its owner to a lendee over a range of
//! days, with a status that is derived from the current day.

use vstd::prelude::*;
use vstd::std_specs::cmp::PartialEqSpecImpl;
use crate::models::domain::member::{
    lemma_member_text_round_trip, member_field, member_or, read_member, read_member_or, Member, MemberView,
};
use crate::models::uuid::{
    lemma_uuid_text_round_trip, read_uuid, read_uuid_or, uuid_field, uuid_or, Uuid, UuidView, DEFAULT_LEN,
};
use crate::models::vec_wrapper::VecWrapper;
use crate::record::{
    closed, entry, fields_of, get, is_name, joined, lemma_decimal_plain, lemma_joined_balanced,
    lemma_lookup_at, lemma_plain_closed, lemma_record_round_trip, lemma_scan_joined, lemma_wrap_closed, lookup,
    number_field, number_or, parse_record, parsed_record, push_text, read_u64, read_u64_or, read_usize,
    read_usize_or, record_text, split_pieces, split_top, well_formed, write_record, Fields,
};
use crate::text::{
    ascii_lowered, chars_of, decimal, decimal_text, lemma_decimal_round_trip, lowered, same_text, string_of,
};
use crate::types::{Data, FromMap, Model, StringMap, ToMap};

verus! {

/// The state of a contract.
#[derive(Debug, Clone, Copy, PartialEq, Eq, Structural)]
pub enum Status {
    /// The loan is running.
    Active,
    /// The loan is over.
    Finished,
    /// The loan was called off. No rule of the engine leads here.
    Canceled,
    /// The loan has not begun.
    Future,
    /// Anything else. No rule of the engine leads here.
    Other,
}

impl Default for Status {
    fn default() -> (s: Self)
        ensures
            s == Status::Future,
    {
        Status::Future
    }
}

/// The status of a contract that runs from `start` to `end` on the day `day`:
/// active from the first day to the last, both included, in the future before
/// the first day, and finished after the last.
pub open spec fn derive_status(day: usize, start: usize, end: usize) -> Status {
    if start <= day <= end {
        Status::Active
    } else if day < start {
        Status::Future
    } else {
        Status::Finished
    }
}

/// On its first day and on its last day a contract is active.
pub proof fn lemma_status_boundaries(start: usize, end: usize)
    requires
        start <= end,
    ensures
        derive_status(start, start, end) == Status::Active,
        derive_status(end, start, end) == Status::Active,
{
}

/// The status depends on the day and the two ends of the contract alone, and
/// each day has exactly one of three statuses.
pub proof fn lemma_status_is_a_function(day: usize, start: usize, end: usize)
    ensures
        derive_status(day, start, end) == Status::Active <==> start <= day <= end,
        derive_status(day, start, end) == Status::Future <==> day < start,
        derive_status(day, start, end) == Status::Finished <==> start <= day && end < day,
        derive_status(day, start, end) != Status::Canceled,
        derive_status(day, start, end) != Status::Other,
{
}

/// The mathematical value of a [`Contract`].
pub struct ContractView {
    /// The owner of the item, as the member was when the contract was made.
    pub owner: MemberView,
    /// The lendee, as the member was when the contract was made.
    pub lendee: MemberView,
    /// The first day.
    pub start_date: usize,
    /// The day the item comes back.
    pub end_date: usize,
    /// The identity.
    pub uuid: UuidView,
    /// The number of days.
    pub contract_len: usize,
    /// The price.
    pub credits: u64,
    /// The status as it was last derived or set.
    pub status: Status,
}

impl ContractView {
    /// The contract holds the item on the day `day`: from its first day up
    /// to, but not including, its end day.
    pub open spec fn covers(self, day: int) -> bool {
        self.start_date <= day < self.end_date
    }

    /// The days of the contract meet the days from `start` up to, but not
    /// including, `end`.
    pub open spec fn meets(self, start: int, end: int) -> bool {
        self.start_date < end && start < self.end_date
    }

    /// The end day is the first day plus the length, and lies after the
    /// first day.
    pub open spec fn wf(self) -> bool {
        self.end_date == self.start_date + self.contract_len && self.end_date > self.start_date
    }
}

/// Contract.
#[derive(Debug)]
pub struct Contract {
    owner: Member,
    lendee: Member,
    start_date: usize,
    end_date: usize,
    uuid: Uuid,
    contract_len: usize,
    credits: u64,
    status: Status,
}

impl View for Contract {
    type V = ContractView;

    closed spec fn view(&self) -> ContractView {
        ContractView {
            owner: self.owner@,
            lendee: self.lendee@,
            start_date: self.start_date,
            end_date: self.end_date,
            uuid: self.uuid@,
            contract_len: self.contract_len,
            credits: self.credits,
            status: self.status,
        }
    }
}

impl Model for Contract {

}

impl Contract {
    /// Creates a new contract with a fresh identity. It lies in the future.
    pub fn new(owner: Member, lendee: Member, start_date: usize, contract_len: usize, credits: u64) -> (c: Self)
        requires
            start_date + contract_len <= usize::MAX,
        ensures
            c@.owner == owner@,
            c@.lendee == lendee@,
            c@.start_date == start_date,
            c@.end_date == start_date + contract_len,
            c@.contract_len == contract_len,
            c@.credits == credits,
            c@.status == Status::Future,
            c@.uuid.is_generated(DEFAULT_LEN),
            contract_len > 0 ==> c@.wf(),
    {
        Contract {
            owner,
            uuid: Uuid::new(),
            credits,
            end_date: start_date + contract_len,
            status: Status::Future,
            start_date,
            lendee,
            contract_len,
        }
    }

    /// Derives the status for the day `day` and records it.
    pub fn set_status(&mut self, day: usize)
        ensures
            final(self)@ == (ContractView {
                status: derive_status(day, old(self)@.start_date, old(self)@.end_date),
                ..old(self)@
            }),
    {
        self.status = if self.start_date <= day && day <= self.end_date {
            Status::Active
        } else if day < self.start_date {
            Status::Future
        } else {
            Status::Finished
        };
    }

    /// The days that are left on the day `now`, while the contract is active.
    pub fn get_days_left(&self, now: usize) -> (left: Option<usize>)
        ensures
            left == if self@.start_date <= now <= self@.end_date {
                Some((self@.end_date - now) as usize)
            } else {
                None
            },
    {
        if now < self.start_date || now > self.end_date {
            return None;
        }
        Some(self.end_date - now)
    }

    /// Gives the contract the length `days`, counted from its first day,
    /// derives its status for the day `date`, and hands back a copy.
    pub fn from_date(&mut self, date: usize, days: usize) -> (c: Self)
        requires
            old(self)@.start_date + days <= usize::MAX,
        ensures
            final(self)@ == (ContractView {
                contract_len: days,
                end_date: (old(self)@.start_date + days) as usize,
                status: derive_status(date, old(self)@.start_date, (old(self)@.start_date + days) as usize),
                ..old(self)@
            }),
            c@ == final(self)@,
            days > 0 ==> c@.wf(),
    {
        self.contract_len = days;
        self.end_date = self.start_date + days;
        self.set_status(date);
        self.clone()
    }

    /// The owner.
    pub fn get_owner(&self) -> (r: &Member)
        ensures
            r@ == self@.owner,
    {
        &self.owner
    }

    /// The lendee.
    pub fn get_lendee(&self) -> (r: &Member)
        ensures
            r@ == self@.lendee,
    {
        &self.lendee
    }

    /// The first day.
    pub fn get_start_date(&self) -> (r: &usize)
        ensures
            *r == self@.start_date,
    {
        &self.start_date
    }

    /// The end day.
    pub fn get_end_date(&self) -> (r: &usize)
        ensures
            *r == self@.end_date,
    {
        &self.end_date
    }

    /// The identity.
    pub fn get_uuid(&self) -> (r: &Uuid)
        ensures
            r@ == self@.uuid,
    {
        &self.uuid
    }

    /// The number of days.
    pub fn get_contract_len(&self) -> (r: &usize)
        ensures
            *r == self@.contract_len,
    {
        &self.contract_len
    }

    /// The price.
    pub fn get_credits(&self) -> (r: &u64)
        ensures
            *r == self@.credits,
    {
        &self.credits
    }

    /// The status as it was last derived or set.
    pub fn get_status(&self) -> (r: &Status)
        ensures
            *r == self@.status,
    {
        &self.status
    }

    /// Takes the contract apart into its fields.
    pub fn unpack(self) -> (r: (Member, Member, usize, usize, Uuid, usize, u64, Status))
        ensures
            r.0@ == self@.owner,
            r.1@ == self@.lendee,
            r.2 == self@.start_date,
            r.3 == self@.end_date,
            r.4@ == self@.uuid,
            r.5 == self@.contract_len,
            r.6 == self@.credits,
            r.7 == self@.status,
    {
        (
            self.owner,
            self.lendee,
            self.start_date,
            self.end_date,
            self.uuid,
            self.contract_len,
            self.credits,
            self.status,
        )
    }

    /// Sets the owner.
    pub fn owner(self, inp: Member) -> (r: Self)
        ensures
            r@ == (ContractView { owner: inp@, ..self@ }),
    {
        let mut c = self;
        c.owner = inp;
        c
    }

    /// Sets the lendee.
    pub fn lendee(self, inp: Member) -> (r: Self)
        ensures
            r@ == (ContractView { lendee: inp@, ..self@ }),
    {
        let mut c = self;
        c.lendee = inp;
        c
    }

    /// Sets the first day.
    pub fn start_date(self, inp: usize) -> (r: Self)
        ensures
            r@ == (ContractView { start_date: inp, ..self@ }),
    {
        let mut c = self;
        c.start_date = inp;
        c
    }

    /// Sets the end day.
    pub fn end_date(self, inp: usize) -> (r: Self)
        ensures
            r@ == (ContractView { end_date: inp, ..self@ }),
    {
        let mut c = self;
        c.end_date = inp;
        c
    }

    /// Sets the identity.
    pub fn uuid(self, inp: Uuid) -> (r: Self)
        ensures
            r@ == (ContractView { uuid: inp@, ..self@ }),
    {
        let mut c = self;
        c.uuid = inp;
        c
    }

    /// Sets the number of days.
    pub fn contract_len(self, inp: usize) -> (r: Self)
        ensures
            r@ == (ContractView { contract_len: inp, ..self@ }),
    {
        let mut c = self;
        c.contract_len = inp;
        c
    }

    /// Sets the price.
    pub fn credits(self, inp: u64) -> (r: Self)
        ensures
            r@ == (ContractView { credits: inp, ..self@ }),
    {
        let mut c = self;
        c.credits = inp;
        c
    }

    /// Sets the status. This is the only way to a status that is not derived
    /// from a day.
    pub fn status(self, inp: Status) -> (r: Self)
        ensures
            r@ == (ContractView { status: inp, ..self@ }),
    {
        let mut c = self;
        c.status = inp;
        c
    }

    /// Ends a chain of setters.
    pub fn build(self) -> (r: Self)
        ensures
            r@ == self@,
    {
        self
    }
}

impl Clone for Contract {
    fn clone(&self) -> (r: Self)
        ensures
            r@ == self@,
    {
        Contract {
            owner: self.owner.clone(),
            lendee: self.lendee.clone(),
            start_date: self.start_date,
            end_date: self.end_date,
            uuid: self.uuid.clone(),
            contract_len: self.contract_len,
            credits: self.credits,
            status: self.status,
        }
    }
}

impl PartialEq for Contract {
    fn eq(&self, other: &Self) -> (r: bool) {
        self.uuid == other.uuid
    }
}

impl PartialEqSpecImpl for Contract {
    open spec fn obeys_eq_spec() -> bool {
        true
    }

    open spec fn eq_spec(&self, other: &Self) -> bool {
        self@.uuid == other@.uuid
    }
}

impl Default for Contract {
    fn default() -> (c: Self)
        ensures
            c@.start_date == 0,
            c@.end_date == 0,
            c@.contract_len == 0,
            c@.credits == 0,
            c@.status == Status::Future,
            c@.uuid.is_generated(DEFAULT_LEN),
            c@.owner.uuid.is_generated(DEFAULT_LEN),
            c@.lendee.uuid.is_generated(DEFAULT_LEN),
            c@.owner == (MemberView {
                name: Seq::<char>::empty(),
                email: Seq::<char>::empty(),
                phone_nr: Seq::<char>::empty(),
                credits: 0,
                day_of_creation: 0,
                uuid: c@.owner.uuid,
            }),
            c@.lendee == (MemberView {
                name: Seq::<char>::empty(),
                email: Seq::<char>::empty(),
                phone_nr: Seq::<char>::empty(),
                credits: 0,
                day_of_creation: 0,
                uuid: c@.lendee.uuid,
            }),
    {
        Contract {
            owner: Member::default(),
            lendee: Member::default(),
            start_date: 0,
            end_date: 0,
            uuid: Uuid::new(),
            contract_len: 0,
            credits: 0,
            status: Status::Future,
        }
    }
}

/// The text of a status.
pub open spec fn status_text(s: Status) -> Seq<char> {
    match s {
        Status::Active => "Active"@,
        Status::Finished => "Finished"@,
        Status::Canceled => "Canceled"@,
        Status::Future => "Future"@,
        Status::Other => "Other"@,
    }
}

/// The status that a text stands for, whatever the case of its ASCII
/// letters; a text that names no status stands for `Other`.
pub open spec fn parsed_status(text: Seq<char>) -> Status {
    let word = lowered(text);
    if word == "active"@ {
        Status::Active
    } else if word == "finished"@ {
        Status::Finished
    } else if word == "canceled"@ {
        Status::Canceled
    } else if word == "future"@ {
        Status::Future
    } else {
        Status::Other
    }
}

/// Reading the text of a status gives the status back, and the text can
/// stand as a value.
pub proof fn lemma_status_round_trip(s: Status)
    ensures
        parsed_status(status_text(s)) == s,
        closed(status_text(s)),
{
    reveal_strlit("Active");
    reveal_strlit("Finished");
    reveal_strlit("Canceled");
    reveal_strlit("Future");
    reveal_strlit("Other");
    reveal_strlit("active");
    reveal_strlit("finished");
    reveal_strlit("canceled");
    reveal_strlit("future");
    let word = lowered(status_text(s));
    match s {
        Status::Active => {
            assert(word =~= "active"@);
        },
        Status::Finished => {
            assert(word =~= "finished"@);
            assert(word.len() != "active"@.len());
        },
        Status::Canceled => {
            assert(word =~= "canceled"@);
            assert(word.len() != "active"@.len());
            assert(word[0] != "finished"@[0]);
        },
        Status::Future => {
            assert(word =~= "future"@);
            assert(word[0] != "active"@[0]);
            assert(word.len() != "finished"@.len());
            assert(word.len() != "canceled"@.len());
        },
        Status::Other => {
            assert(word.len() == 5);
            assert(word.len() != "active"@.len());
            assert(word.len() != "finished"@.len());
            assert(word.len() != "canceled"@.len());
            assert(word.len() != "future"@.len());
        },
    }
    lemma_plain_closed(status_text(s));
}

impl Status {
    /// Writes the status as text.
    pub fn to_text(&self) -> (text: String)
        ensures
            text@ == status_text(*self),
    {
        match self {
            Status::Active => "Active".to_owned(),
            Status::Finished => "Finished".to_owned(),
            Status::Canceled => "Canceled".to_owned(),
            Status::Future => "Future".to_owned(),
            Status::Other => "Other".to_owned(),
        }
    }

    /// Reads a status from its text.
    pub fn from_text(text: &str) -> (s: Self)
        ensures
            s == parsed_status(text@),
    {
        let word: String = ascii_lowered(text);
        if same_text(word.as_str(), "active") {
            Status::Active
        } else if same_text(word.as_str(), "finished") {
            Status::Finished
        } else if same_text(word.as_str(), "canceled") {
            Status::Canceled
        } else if same_text(word.as_str(), "future") {
            Status::Future
        } else {
            Status::Other
        }
    }
}

/// The status under the name `key`.
pub open spec fn status_field(fields: Fields, key: Seq<char>) -> Option<Status> {
    match lookup(fields, key) {
        Some(text) => Some(parsed_status(text)),
        None => None,
    }
}

/// The status under the name `key`, or `keep` where the name is missing.
pub open spec fn status_or(fields: Fields, key: Seq<char>, keep: Status) -> Status {
    match lookup(fields, key) {
        Some(text) => parsed_status(text),
        None => keep,
    }
}

impl ContractView {
    /// The mapping of the fields, in their order: numbers as decimal
    /// numerals, members and the identity as their texts.
    pub open spec fn fields(self) -> Fields {
        seq![
            ("owner"@, self.owner.text()),
            ("lendee"@, self.lendee.text()),
            ("start_date"@, decimal(self.start_date as nat)),
            ("end_date"@, decimal(self.end_date as nat)),
            ("uuid"@, self.uuid.text()),
            ("contract_len"@, decimal(self.contract_len as nat)),
            ("credits"@, decimal(self.credits as nat)),
            ("status"@, status_text(self.status)),
        ]
    }

    /// The mapping of the fields that a user may edit.
    pub open spec fn editable_fields(self) -> Fields {
        seq![("contract_len"@, decimal(self.contract_len as nat))]
    }

    /// The contract as text.
    pub open spec fn text(self) -> Seq<char> {
        record_text(self.fields())
    }

    /// The contract that a mapping describes, where it holds every field.
    pub open spec fn from_fields(fields: Fields) -> Option<ContractView> {
        match (
            member_field(fields, "owner"@),
            member_field(fields, "lendee"@),
            number_field(fields, "start_date"@, usize::MAX as nat),
            number_field(fields, "end_date"@, usize::MAX as nat),
            uuid_field(fields, "uuid"@),
            number_field(fields, "contract_len"@, usize::MAX as nat),
            number_field(fields, "credits"@, u64::MAX as nat),
            status_field(fields, "status"@),
        ) {
            (
                Some(owner),
                Some(lendee),
                Some(start_date),
                Some(end_date),
                Some(uuid),
                Some(contract_len),
                Some(credits),
                Some(status),
            ) => Some(
                ContractView {
                    owner,
                    lendee,
                    start_date: start_date as usize,
                    end_date: end_date as usize,
                    uuid,
                    contract_len: contract_len as usize,
                    credits: credits as u64,
                    status,
                },
            ),
            _ => None,
        }
    }

    /// The contract with the fields that a mapping names replaced.
    pub open spec fn with_fields(self, fields: Fields) -> Option<ContractView> {
        match (
            member_or(fields, "owner"@, self.owner),
            member_or(fields, "lendee"@, self.lendee),
            number_or(fields, "start_date"@, usize::MAX as nat, self.start_date as nat),
            number_or(fields, "end_date"@, usize::MAX as nat, self.end_date as nat),
            uuid_or(fields, "uuid"@, self.uuid),
            number_or(fields, "contract_len"@, usize::MAX as nat, self.contract_len as nat),
            number_or(fields, "credits"@, u64::MAX as nat, self.credits as nat),
        ) {
            (
                Some(owner),
                Some(lendee),
                Some(start_date),
                Some(end_date),
                Some(uuid),
                Some(contract_len),
                Some(credits),
            ) => Some(
                ContractView {
                    owner,
                    lendee,
                    start_date: start_date as usize,
                    end_date: end_date as usize,
                    uuid,
                    contract_len: contract_len as usize,
                    credits: credits as u64,
                    status: status_or(fields, "status"@, self.status),
                },
            ),
            _ => None,
        }
    }

    /// The contract that a text describes.
    pub open spec fn from_text(text: Seq<char>) -> Option<ContractView> {
        match parsed_record(text) {
            Some(fields) => Self::from_fields(fields),
            None => None,
        }
    }

    /// The texts of both members and the token can stand as values in a
    /// record text.
    pub open spec fn printable(self) -> bool {
        self.owner.printable() && self.lendee.printable() && self.uuid.printable()
    }
}

/// The field names of a contract can stand as names, and differ.
pub proof fn lemma_contract_names()
    ensures
        is_name("owner"@),
        is_name("lendee"@),
        is_name("start_date"@),
        is_name("end_date"@),
        is_name("uuid"@),
        is_name("contract_len"@),
        is_name("credits"@),
        is_name("status"@),
        "owner"@.len() == 5,
        "lendee"@.len() == 6,
        "start_date"@.len() == 10,
        "end_date"@.len() == 8,
        "uuid"@.len() == 4,
        "contract_len"@.len() == 12,
        "credits"@.len() == 7,
        "status"@.len() == 6,
        "lendee"@[0] != "status"@[0],
{
    reveal_strlit("owner");
    reveal_strlit("lendee");
    reveal_strlit("start_date");
    reveal_strlit("end_date");
    reveal_strlit("uuid");
    reveal_strlit("contract_len");
    reveal_strlit("credits");
    reveal_strlit("status");
}

/// Building a contract from its own mapping gives the contract back, where
/// its texts can stand as values.
pub proof fn lemma_contract_map_round_trip(c: ContractView)
    requires
        c.printable(),
    ensures
        ContractView::from_fields(c.fields()) == Some(c),
{
    lemma_contract_names();
    lemma_member_text_round_trip(c.owner);
    lemma_member_text_round_trip(c.lendee);
    lemma_decimal_round_trip(c.start_date as nat);
    lemma_decimal_round_trip(c.end_date as nat);
    lemma_uuid_text_round_trip(c.uuid);
    lemma_decimal_round_trip(c.contract_len as nat);
    lemma_decimal_round_trip(c.credits as nat);
    lemma_status_round_trip(c.status);
    let fields = c.fields();
    lemma_lookup_at(fields, 0);
    lemma_lookup_at(fields, 1);
    lemma_lookup_at(fields, 2);
    lemma_lookup_at(fields, 3);
    lemma_lookup_at(fields, 4);
    lemma_lookup_at(fields, 5);
    lemma_lookup_at(fields, 6);
    lemma_lookup_at(fields, 7);
}

/// Reading the text of a contract gives the contract back, where its texts
/// can stand as values. The text itself can stand as a value.
pub proof fn lemma_contract_text_round_trip(c: ContractView)
    requires
        c.printable(),
    ensures
        ContractView::from_text(c.text()) == Some(c),
        closed(c.text()),
{
    lemma_contract_names();
    lemma_member_text_round_trip(c.owner);
    lemma_member_text_round_trip(c.lendee);
    lemma_decimal_plain(c.start_date as nat);
    lemma_decimal_plain(c.end_date as nat);
    lemma_uuid_text_round_trip(c.uuid);
    lemma_decimal_plain(c.contract_len as nat);
    lemma_decimal_plain(c.credits as nat);
    lemma_status_round_trip(c.status);
    assert(well_formed(c.fields()));
    lemma_record_round_trip(c.fields());
    lemma_contract_map_round_trip(c);
}

impl ToMap for Contract {
    fn to_map(&self) -> (map: StringMap)
        ensures
            fields_of(map@) == self@.fields(),
    {
        let mut map: StringMap = Vec::new();
        map.push(entry("owner", self.owner.to_text()));
        map.push(entry("lendee", self.lendee.to_text()));
        map.push(entry("start_date", decimal_text(self.start_date as u64)));
        map.push(entry("end_date", decimal_text(self.end_date as u64)));
        map.push(entry("uuid", self.uuid.to_text()));
        map.push(entry("contract_len", decimal_text(self.contract_len as u64)));
        map.push(entry("credits", decimal_text(self.credits)));
        map.push(entry("status", self.status.to_text()));
        assert(fields_of(map@) =~= self@.fields());
        map
    }

    fn to_map_allowed_mutable(&self) -> (map: StringMap)
        ensures
            fields_of(map@) == self@.editable_fields(),
    {
        let mut map: StringMap = Vec::new();
        map.push(entry("contract_len", decimal_text(self.contract_len as u64)));
        assert(fields_of(map@) =~= self@.editable_fields());
        map
    }
}

impl FromMap for Contract {
    fn from_complete_map(data: StringMap) -> (r: Option<Self>)
        ensures
            match r {
                Some(c) => ContractView::from_fields(fields_of(data@)) == Some(c@),
                None => ContractView::from_fields(fields_of(data@)) is None,
            },
    {
        let status: Status = match get(&data, "status") {
            Some(text) => Status::from_text(text.as_str()),
            None => {
                return None;
            },
        };
        match (
            read_member(&data, "owner"),
            read_member(&data, "lendee"),
            read_usize(&data, "start_date"),
            read_usize(&data, "end_date"),
            read_uuid(&data, "uuid"),
            read_usize(&data, "contract_len"),
            read_u64(&data, "credits"),
        ) {
            (
                Some(owner),
                Some(lendee),
                Some(start_date),
                Some(end_date),
                Some(uuid),
                Some(contract_len),
                Some(credits),
            ) => Some(Contract { owner, lendee, start_date, end_date, uuid, contract_len, credits, status }),
            _ => None,
        }
    }

    fn copy_with(&self, data: StringMap) -> (r: Option<Self>)
        ensures
            match r {
                Some(c) => self@.with_fields(fields_of(data@)) == Some(c@),
                None => self@.with_fields(fields_of(data@)) is None,
            },
    {
        let status: Status = match get(&data, "status") {
            Some(text) => Status::from_text(text.as_str()),
            None => self.status,
        };
        match (
            read_member_or(&data, "owner", &self.owner),
            read_member_or(&data, "lendee", &self.lendee),
            read_usize_or(&data, "start_date", self.start_date),
            read_usize_or(&data, "end_date", self.end_date),
            read_uuid_or(&data, "uuid", &self.uuid),
            read_usize_or(&data, "contract_len", self.contract_len),
            read_u64_or(&data, "credits", self.credits),
        ) {
            (
                Some(owner),
                Some(lendee),
                Some(start_date),
                Some(end_date),
                Some(uuid),
                Some(contract_len),
                Some(credits),
            ) => Some(Contract { owner, lendee, start_date, end_date, uuid, contract_len, credits, status }),
            _ => None,
        }
    }
}

impl Data for Contract {
    fn head() -> (names: Vec<String>)
        ensures
            names@.map_values(|s: String| s@) == seq![
                "owner"@,
                "lendee"@,
                "start_date"@,
                "end_date"@,
                "uuid"@,
                "contract_len"@,
                "credits"@,
                "status"@,
            ],
    {
        let mut names: Vec<String> = Vec::new();
        names.push("owner".to_owned());
        names.push("lendee".to_owned());
        names.push("start_date".to_owned());
        names.push("end_date".to_owned());
        names.push("uuid".to_owned());
        names.push("contract_len".to_owned());
        names.push("credits".to_owned());
        names.push("status".to_owned());
        assert(names@.map_values(|s: String| s@) =~= seq![
            "owner"@,
            "lendee"@,
            "start_date"@,
            "end_date"@,
            "uuid"@,
            "contract_len"@,
            "credits"@,
            "status"@,
        ]);
        names
    }

    fn head_allowed_mutable() -> (names: Vec<String>)
        ensures
            names@.map_values(|s: String| s@) == seq!["contract_len"@],
    {
        let mut names: Vec<String> = Vec::new();
        names.push("contract_len".to_owned());
        assert(names@.map_values(|s: String| s@) =~= seq!["contract_len"@]);
        names
    }
}

impl Contract {
    /// Writes the contract as text.
    pub fn to_text(&self) -> (text: String)
        ensures
            text@ == self@.text(),
    {
        write_record(&self.to_map())
    }

    /// Reads a contract from its text.
    pub fn from_text(text: &str) -> (r: Option<Self>)
        ensures
            match r {
                Some(c) => ContractView::from_text(text@) == Some(c@),
                None => ContractView::from_text(text@) is None,
            },
    {
        match parse_record(text) {
            Some(map) => Contract::from_complete_map(map),
            None => None,
        }
    }
}

/// The values of a list of contracts.
pub open spec fn views(contracts: Seq<Contract>) -> Seq<ContractView> {
    contracts.map_values(|c: Contract| c@)
}

/// The texts of a list of contracts.
pub open spec fn contract_texts(history: Seq<ContractView>) -> Seq<Seq<char>> {
    history.map_values(|c: ContractView| c.text())
}

/// A list of contracts as text: a dash where the list is empty, else the
/// texts of the contracts, parted by semicolons, in brackets.
pub open spec fn history_text(history: Seq<ContractView>) -> Seq<char> {
    if history.len() == 0 {
        "-"@
    } else {
        seq!['['] + joined(contract_texts(history)) + seq![']']
    }
}

/// The contracts that a list of texts describes; `None` where one of them
/// describes no contract.
pub open spec fn parsed_contracts(pieces: Seq<Seq<char>>) -> Option<Seq<ContractView>>
    decreases pieces.len(),
{
    if pieces.len() == 0 {
        Some(Seq::empty())
    } else {
        match (parsed_contracts(pieces.drop_last()), ContractView::from_text(pieces.last())) {
            (Some(contracts), Some(c)) => Some(contracts.push(c)),
            _ => None,
        }
    }
}

/// The list of contracts that a text describes.
pub open spec fn parsed_history(text: Seq<char>) -> Option<Seq<ContractView>> {
    if text == "-"@ {
        Some(Seq::empty())
    } else if text.len() < 2 || text[0] != '[' || text.last() != ']' {
        None
    } else {
        match split_top(text.subrange(1, text.len() - 1)) {
            Some(pieces) => parsed_contracts(pieces),
            None => None,
        }
    }
}

/// Every contract of the list can be written as text and read back.
pub open spec fn all_printable(history: Seq<ContractView>) -> bool {
    forall|i: int| 0 <= i < history.len() ==> (#[trigger] history[i]).printable()
}

/// Reading the texts of contracts gives the contracts back.
pub proof fn lemma_contracts_round_trip(history: Seq<ContractView>)
    requires
        all_printable(history),
    ensures
        parsed_contracts(contract_texts(history)) == Some(history),
    decreases history.len(),
{
    if history.len() == 0 {
        assert(history =~= Seq::empty());
    } else {
        lemma_contracts_round_trip(history.drop_last());
        assert(contract_texts(history).drop_last() =~= contract_texts(history.drop_last()));
        lemma_contract_text_round_trip(history.last());
        assert(history.drop_last().push(history.last()) =~= history);
    }
}

/// Reading the text of a list of contracts gives the list back, where the
/// contracts can be written as text. The text itself can stand as a value.
pub proof fn lemma_history_round_trip(history: Seq<ContractView>)
    requires
        all_printable(history),
    ensures
        parsed_history(history_text(history)) == Some(history),
        closed(history_text(history)),
{
    reveal_strlit("-");
    if history.len() == 0 {
        assert(history =~= Seq::empty());
        lemma_plain_closed("-"@);
    } else {
        let pieces = contract_texts(history);
        let text = history_text(history);
        assert forall|i: int| 0 <= i < pieces.len() implies closed(#[trigger] pieces[i]) by {
            lemma_contract_text_round_trip(history[i]);
        }
        lemma_scan_joined(pieces);
        lemma_contracts_round_trip(history);
        assert(text[0] == '[');
        assert(text != "-"@);
        assert(text.subrange(1, text.len() - 1) =~= joined(pieces));
        lemma_joined_balanced(pieces);
        lemma_wrap_closed(joined(pieces));
    }
}

/// Writes a list of contracts as text.
pub fn write_history(history: &VecWrapper<Contract>) -> (text: String)
    ensures
        text@ == history_text(views(history.values@)),
{
    if history.values.len() == 0 {
        return "-".to_owned();
    }
    let ghost pieces = contract_texts(views(history.values@));
    let mut out: Vec<char> = Vec::new();
    out.push('[');
    let mut i: usize = 0;
    assert(pieces.take(0) =~= Seq::<Seq<char>>::empty());
    while i < history.values.len()
        invariant
            i <= history.values@.len(),
            pieces == contract_texts(views(history.values@)),
            out@ == seq!['['] + joined(pieces.take(i as int)),
        decreases history.values@.len() - i,
    {
        if i > 0 {
            out.push(';');
        }
        let text: String = history.values[i].to_text();
        push_text(&mut out, text.as_str());
        proof {
            let next = pieces.take(i as int + 1);
            assert(next.drop_last() =~= pieces.take(i as int));
            assert(next.last() == text@);
            if i == 0 {
                assert(joined(pieces.take(0)) =~= Seq::<char>::empty());
            }
            assert(out@ =~= seq!['['] + joined(next));
        }
        i += 1;
    }
    out.push(']');
    assert(pieces.take(i as int) =~= pieces);
    string_of(&out)
}

/// Where one text describes no contract, the texts describe no list.
pub proof fn lemma_parsed_contracts_fails(pieces: Seq<Seq<char>>, at: int)
    requires
        0 <= at < pieces.len(),
        ContractView::from_text(pieces[at]) is None,
    ensures
        parsed_contracts(pieces) is None,
    decreases pieces.len(),
{
    if at < pieces.len() - 1 {
        lemma_parsed_contracts_fails(pieces.drop_last(), at);
    }
}

/// Reads a list of contracts from its text.
pub fn parse_history(text: &str) -> (r: Option<VecWrapper<Contract>>)
    ensures
        match r {
            Some(history) => parsed_history(text@) == Some(views(history.values@)) && history.wf(),
            None => parsed_history(text@) is None,
        },
{
    let mut history: VecWrapper<Contract> = VecWrapper::new();
    assert(views(history.values@) =~= Seq::<ContractView>::empty());
    if same_text(text, "-") {
        return Some(history);
    }
    let chars: Vec<char> = chars_of(text);
    let n: usize = chars.len();
    if n < 2 || chars[0] != '[' || chars[n - 1] != ']' {
        return None;
    }
    let mut inner: Vec<char> = Vec::new();
    let mut i: usize = 1;
    while i < n - 1
        invariant
            n == chars@.len(),
            2 <= n,
            1 <= i <= n - 1,
            inner@ == chars@.subrange(1, i as int),
        decreases n - i,
    {
        inner.push(chars[i]);
        i += 1;
        assert(inner@ =~= chars@.subrange(1, i as int));
    }
    let pieces: Vec<Vec<char>> = match split_pieces(&inner) {
        Some(pieces) => pieces,
        None => {
            return None;
        },
    };
    let ghost texts = pieces@.map_values(|p: Vec<char>| p@);
    let mut k: usize = 0;
    assert(texts.take(0) =~= Seq::<Seq<char>>::empty());
    assert(parsed_history(text@) == parsed_contracts(texts));
    while k < pieces.len()
        invariant
            k <= pieces@.len(),
            texts == pieces@.map_values(|p: Vec<char>| p@),
            parsed_history(text@) == parsed_contracts(texts),
            parsed_contracts(texts.take(k as int)) == Some(views(history.values@)),
            history.wf(),
        decreases pieces@.len() - k,
    {
        proof {
            assert(texts.take(k + 1).drop_last() =~= texts.take(k as int));
            assert(texts.take(k + 1).last() == pieces@[k as int]@);
        }
        let piece: String = string_of(&pieces[k]);
        match Contract::from_text(piece.as_str()) {
            Some(c) => {
                let ghost before = history.values@;
                history.push(c);
                assert(views(history.values@) =~= views(before).push(c@));
            },
            None => {
                proof {
                    lemma_parsed_contracts_fails(texts, k as int);
                }
                return None;
            },
        }
        k += 1;
    }
    assert(texts.take(k as int) =~= texts);
    Some(history)
}

} // verus!
