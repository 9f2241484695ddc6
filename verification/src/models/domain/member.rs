//! Members: people with a credit balance, an email address and a phone number.

use vstd::prelude::*;
use vstd::std_specs::cmp::PartialEqSpecImpl;
use crate::errors::{Check, MemValError};
use crate::models::uuid::{
    lemma_uuid_text_round_trip, read_uuid, read_uuid_or, uuid_field, uuid_or, Uuid, UuidView, DEFAULT_LEN,
};
use crate::record::{
    closed, entry, fields_of, is_name, lemma_decimal_plain, lemma_lookup_at, lemma_record_round_trip, lookup,
    number_field, number_or, parse_record, parsed_record, read_text, read_text_or, read_u64, read_u64_or,
    read_usize, read_usize_or, record_text, text_or, well_formed, write_record, Fields,
};
use crate::text::{decimal, decimal_text, lemma_decimal_round_trip};
use crate::types::{Data, FromMap, StringMap, ToMap};
use crate::text::{char_is_digit, chars_of, is_digit, unicode_alphanumeric, unicode_whitespace};
use crate::types::{MemValResult, Model, ValResult, Validate};

verus! {

/// The pattern a phone number has to match.
pub const PHONE_PATTERN: &'static str = r"([ 0-9]){8,12}$";

/// The pattern an email address has to match.
pub const EMAIL_PATTERN: &'static str =
    r"^([a-z0-9_+]([a-z0-9_+.]*[a-z0-9_+])?)@([a-z0-9]+([\-\.]{1}[a-z0-9]+)*\.[a-z]{2,6})";

/// The least number of characters of a phone number.
pub const PHONE_MIN_LEN: usize = 8;

/// The greatest number of characters of a phone number.
pub const PHONE_MAX_LEN: usize = 12;

/// What the crate `regex` answers when `pattern` is compiled with
/// `Regex::new` and the compiled expression is asked `is_match` on `text`:
/// `None` when the pattern does not compile, else whether it matches
/// somewhere in the text.
pub uninterp spec fn pattern_match(pattern: Seq<char>, text: Seq<char>) -> Option<bool>;

/// Compiles `pattern` with `Regex::new` of the crate `regex` and asks
/// `Regex::is_match` on `text`. The answer depends on the two texts alone;
/// a pattern that the crate refuses gives `None`.
#[verifier::external_body]
fn pattern_matches(pattern: &str, text: &str) -> (r: Option<bool>)
    ensures
        r == pattern_match(pattern@, text@),
{
    match regex::Regex::new(pattern) {
        Ok(re) => Some(re.is_match(text)),
        Err(_) => None,
    }
}

/// Defines the rules a member has to meet.
pub trait MemberValidation {
    /// Validates the id.
    fn validate_id(&self) -> MemValResult<()>;

    /// Validates the phone number.
    fn validate_phone_nr(&self) -> MemValResult<()>;

    /// Validates the email.
    fn validate_email(&self) -> MemValResult<()>;
}

/// The mathematical value of a [`Member`].
pub struct MemberView {
    /// The name.
    pub name: Seq<char>,
    /// The email address.
    pub email: Seq<char>,
    /// The phone number.
    pub phone_nr: Seq<char>,
    /// The credit balance.
    pub credits: u64,
    /// The day the member was created.
    pub day_of_creation: usize,
    /// The identity.
    pub uuid: UuidView,
}

/// Two members count as the same person when their email addresses or their
/// phone numbers agree.
pub open spec fn same_person(a: MemberView, b: MemberView) -> bool {
    a.email == b.email || a.phone_nr == b.phone_nr
}

/// Every character is a decimal digit or white space.
pub open spec fn digits_and_blanks(phone: Seq<char>) -> bool {
    forall|i: int| 0 <= i < phone.len() ==> is_digit(#[trigger] phone[i]) || unicode_whitespace(phone[i])
}

/// Every character is a letter or a number.
pub open spec fn all_alphanumeric(token: Seq<char>) -> bool {
    forall|i: int| 0 <= i < token.len() ==> unicode_alphanumeric(#[trigger] token[i])
}

/// The verdict on an identity: its token has the default length, which is
/// also the length that the identity records, and holds letters and numbers
/// only.
pub open spec fn id_verdict(id: UuidView) -> MemValResult<()> {
    if id.len != DEFAULT_LEN || id.value.len() != DEFAULT_LEN {
        Err(MemValError::Id)
    } else if !all_alphanumeric(id.value) {
        Err(MemValError::IdContainsNonAlphaNumeric)
    } else {
        Ok(())
    }
}

/// The verdict on a phone number, given what the phone pattern answered for it.
pub open spec fn phone_verdict(phone: Seq<char>, matched: Option<bool>) -> MemValResult<()> {
    if !digits_and_blanks(phone) {
        Err(MemValError::PhoneNumberContainsNonNumeric)
    } else if matched != Some(true) {
        Err(MemValError::PhoneNumberPattern)
    } else if phone.len() > PHONE_MAX_LEN || phone.len() < PHONE_MIN_LEN {
        Err(MemValError::PhoneNumber)
    } else {
        Ok(())
    }
}

/// The verdict on an email address, given what the email pattern answered for it.
pub open spec fn email_verdict(matched: Option<bool>) -> MemValResult<()> {
    if matched != Some(true) {
        Err(MemValError::EmailPattern)
    } else {
        Ok(())
    }
}

/// The verdict on a whole member: the email is checked first, then the
/// identity, then the phone number; the first rule that fails is reported.
pub open spec fn member_verdict(m: MemberView) -> MemValResult<()> {
    if email_verdict(pattern_match(EMAIL_PATTERN@, m.email)) is Err {
        email_verdict(pattern_match(EMAIL_PATTERN@, m.email))
    } else if id_verdict(m.uuid) is Err {
        id_verdict(m.uuid)
    } else {
        phone_verdict(m.phone_nr, pattern_match(PHONE_PATTERN@, m.phone_nr))
    }
}

/// A failed validation carries the text of the rule that failed.
pub open spec fn reports(outcome: ValResult<()>, verdict: MemValResult<()>) -> bool {
    match verdict {
        Ok(_) => outcome is Ok,
        Err(e) => outcome matches Err(Check::Invalid(text)) && text@ == e.message_spec(),
    }
}

/// Decides on a phone number once the phone pattern has answered.
pub fn check_phone_nr(phone: &str, matched: Option<bool>) -> (r: MemValResult<()>)
    ensures
        r == phone_verdict(phone@, matched),
{
    let chars: Vec<char> = chars_of(phone);
    let n: usize = chars.len();
    let mut i: usize = 0;
    while i < n
        invariant
            chars@ == phone@,
            n == phone@.len(),
            i <= n,
            forall|k: int| 0 <= k < i ==> is_digit(#[trigger] phone@[k]) || unicode_whitespace(phone@[k]),
        decreases n - i,
    {
        let c: char = chars[i];
        if !(char_is_digit(c) || c.is_whitespace()) {
            return Err(MemValError::PhoneNumberContainsNonNumeric);
        }
        i += 1;
    }
    match matched {
        Some(true) => {},
        _ => {
            return Err(MemValError::PhoneNumberPattern);
        },
    }
    if n > PHONE_MAX_LEN || n < PHONE_MIN_LEN {
        return Err(MemValError::PhoneNumber);
    }
    Ok(())
}

/// Decides on an email address once the email pattern has answered.
pub fn check_email(matched: Option<bool>) -> (r: MemValResult<()>)
    ensures
        r == email_verdict(matched),
{
    match matched {
        Some(true) => Ok(()),
        _ => Err(MemValError::EmailPattern),
    }
}

/// Decides on an identity.
pub fn check_id(id: &Uuid) -> (r: MemValResult<()>)
    ensures
        r == id_verdict(id@),
        id@.is_generated(DEFAULT_LEN) ==> r is Ok,
{
    if *id.get_len() != DEFAULT_LEN {
        return Err(MemValError::Id);
    }
    let token: Vec<char> = chars_of(id.get_value().as_str());
    let n: usize = token.len();
    if n != DEFAULT_LEN {
        return Err(MemValError::Id);
    }
    let mut i: usize = 0;
    while i < n
        invariant
            n == token@.len(),
            token@ == id@.value,
            id@.len == DEFAULT_LEN,
            n == DEFAULT_LEN,
            i <= n,
            forall|k: int| 0 <= k < i ==> unicode_alphanumeric(#[trigger] token@[k]),
            id@.is_generated(DEFAULT_LEN) ==> forall|k: int|
                0 <= k < n ==> crate::text::is_ascii_alphanumeric(#[trigger] token@[k]),
        decreases n - i,
    {
        let c: char = token[i];
        if !c.is_alphanumeric() {
            assert(!unicode_alphanumeric(id@.value[i as int]));
            return Err(MemValError::IdContainsNonAlphaNumeric);
        }
        i += 1;
    }
    Ok(())
}

/// Member.
#[derive(Debug)]
pub struct Member {
    name: String,
    email: String,
    phone_nr: String,
    credits: u64,
    day_of_creation: usize,
    uuid: Uuid,
}

impl View for Member {
    type V = MemberView;

    closed spec fn view(&self) -> MemberView {
        MemberView {
            name: self.name@,
            email: self.email@,
            phone_nr: self.phone_nr@,
            credits: self.credits,
            day_of_creation: self.day_of_creation,
            uuid: self.uuid@,
        }
    }
}

impl Model for Member {

}

impl Member {
    /// Creates a new member with a fresh identity and no credits, provided
    /// that the email address and the phone number meet their rules.
    pub fn new(name: String, email: String, phone_nr: String, day_of_creation: usize) -> (r: ValResult<Member>)
        ensures
            match r {
                Ok(m) => {
                    &&& m@.name == name@
                    &&& m@.email == email@
                    &&& m@.phone_nr == phone_nr@
                    &&& m@.credits == 0
                    &&& m@.day_of_creation == day_of_creation
                    &&& m@.uuid.is_generated(DEFAULT_LEN)
                    &&& member_verdict(m@) is Ok
                },
                Err(c) => exists|id: UuidView|
                    reports(
                        Err(c),
                        #[trigger] member_verdict(
                            MemberView { name: name@, email: email@, phone_nr: phone_nr@, credits: 0, day_of_creation, uuid: id },
                        ),
                    ),
            },
            r is Ok <==> email_verdict(pattern_match(EMAIL_PATTERN@, email@)) is Ok && phone_verdict(
                phone_nr@,
                pattern_match(PHONE_PATTERN@, phone_nr@),
            ) is Ok,
    {
        let m = Member { uuid: Uuid::new(), credits: 0, day_of_creation, name, email, phone_nr };
        m.validate_and_build()
    }

    /// Adds credits to the member. A negative amount is refused.
    pub fn add_credits(&mut self, credits: i64) -> (r: MemValResult<()>)
        requires
            credits >= 0 ==> old(self)@.credits + credits <= u64::MAX,
        ensures
            credits < 0 ==> r == Err::<(), MemValError>(MemValError::NegativeCreditInput) && final(self)@ == old(self)@,
            credits >= 0 ==> r is Ok && final(self)@ == (MemberView {
                credits: (old(self)@.credits + credits) as u64,
                ..old(self)@
            }),
    {
        if credits < 0 {
            return Err(MemValError::NegativeCreditInput);
        }
        self.credits = self.credits + (credits as u64);
        Ok(())
    }

    /// Deduces credits from the member. A negative amount is refused, and so
    /// is an amount that the balance does not cover.
    pub fn deduce_credits(&mut self, credits: i64) -> (r: MemValResult<()>)
        ensures
            credits < 0 ==> r == Err::<(), MemValError>(MemValError::NegativeCreditInput) && final(self)@ == old(self)@,
            credits > old(self)@.credits ==> r == Err::<(), MemValError>(MemValError::DeduceAmountToHigh) && final(self)@
                == old(self)@,
            0 <= credits <= old(self)@.credits ==> r is Ok && final(self)@ == (MemberView {
                credits: (old(self)@.credits - credits) as u64,
                ..old(self)@
            }),
    {
        if credits < 0 {
            return Err(MemValError::NegativeCreditInput);
        }
        let amount: u64 = credits as u64;
        if amount > self.credits {
            return Err(MemValError::DeduceAmountToHigh);
        }
        self.credits = self.credits - amount;
        Ok(())
    }

    /// The name.
    pub fn get_name(&self) -> (r: &String)
        ensures
            r@ == self@.name,
    {
        &self.name
    }

    /// The email address.
    pub fn get_email(&self) -> (r: &String)
        ensures
            r@ == self@.email,
    {
        &self.email
    }

    /// The phone number.
    pub fn get_phone_nr(&self) -> (r: &String)
        ensures
            r@ == self@.phone_nr,
    {
        &self.phone_nr
    }

    /// The credit balance.
    pub fn get_credits(&self) -> (r: &u64)
        ensures
            *r == self@.credits,
    {
        &self.credits
    }

    /// The day the member was created.
    pub fn get_day_of_creation(&self) -> (r: &usize)
        ensures
            *r == self@.day_of_creation,
    {
        &self.day_of_creation
    }

    /// The identity.
    pub fn get_uuid(&self) -> (r: &Uuid)
        ensures
            r@ == self@.uuid,
    {
        &self.uuid
    }

    /// Takes the member apart into its fields.
    pub fn unpack(self) -> (r: (String, String, String, u64, usize, Uuid))
        ensures
            r.0@ == self@.name,
            r.1@ == self@.email,
            r.2@ == self@.phone_nr,
            r.3 == self@.credits,
            r.4 == self@.day_of_creation,
            r.5@ == self@.uuid,
    {
        (self.name, self.email, self.phone_nr, self.credits, self.day_of_creation, self.uuid)
    }

    /// Sets the name.
    pub fn name(self, inp: String) -> (r: Self)
        ensures
            r@ == (MemberView { name: inp@, ..self@ }),
    {
        let mut m = self;
        m.name = inp;
        m
    }

    /// Sets the email address.
    pub fn email(self, inp: String) -> (r: Self)
        ensures
            r@ == (MemberView { email: inp@, ..self@ }),
    {
        let mut m = self;
        m.email = inp;
        m
    }

    /// Sets the phone number.
    pub fn phone_nr(self, inp: String) -> (r: Self)
        ensures
            r@ == (MemberView { phone_nr: inp@, ..self@ }),
    {
        let mut m = self;
        m.phone_nr = inp;
        m
    }

    /// Sets the credit balance.
    pub fn credits(self, inp: u64) -> (r: Self)
        ensures
            r@ == (MemberView { credits: inp, ..self@ }),
    {
        let mut m = self;
        m.credits = inp;
        m
    }

    /// Sets the day of creation.
    pub fn day_of_creation(self, inp: usize) -> (r: Self)
        ensures
            r@ == (MemberView { day_of_creation: inp, ..self@ }),
    {
        let mut m = self;
        m.day_of_creation = inp;
        m
    }

    /// Sets the identity.
    pub fn uuid(self, inp: Uuid) -> (r: Self)
        ensures
            r@ == (MemberView { uuid: inp@, ..self@ }),
    {
        let mut m = self;
        m.uuid = inp;
        m
    }

    /// Ends a chain of setters.
    pub fn build(self) -> (r: Self)
        ensures
            r@ == self@,
    {
        self
    }
}

impl MemberValidation for Member {
    fn validate_id(&self) -> (r: MemValResult<()>)
        ensures
            r == id_verdict(self@.uuid),
            self@.uuid.is_generated(DEFAULT_LEN) ==> r is Ok,
    {
        check_id(&self.uuid)
    }

    fn validate_phone_nr(&self) -> (r: MemValResult<()>)
        ensures
            r == phone_verdict(self@.phone_nr, pattern_match(PHONE_PATTERN@, self@.phone_nr)),
    {
        let matched: Option<bool> = pattern_matches(PHONE_PATTERN, self.phone_nr.as_str());
        check_phone_nr(self.phone_nr.as_str(), matched)
    }

    fn validate_email(&self) -> (r: MemValResult<()>)
        ensures
            r == email_verdict(pattern_match(EMAIL_PATTERN@, self@.email)),
    {
        let matched: Option<bool> = pattern_matches(EMAIL_PATTERN, self.email.as_str());
        check_email(matched)
    }
}

impl Validate<Member> for Member {
    fn validate(&self) -> (r: ValResult<()>)
        ensures
            reports(r, member_verdict(self@)),
            self@.uuid.is_generated(DEFAULT_LEN) ==> (r is Ok <==> email_verdict(
                pattern_match(EMAIL_PATTERN@, self@.email),
            ) is Ok && phone_verdict(self@.phone_nr, pattern_match(PHONE_PATTERN@, self@.phone_nr)) is Ok),
    {
        if let Err(err) = self.validate_email() {
            return Err(Check::Invalid(err.message()));
        }
        if let Err(err) = self.validate_id() {
            return Err(Check::Invalid(err.message()));
        }
        if let Err(err) = self.validate_phone_nr() {
            return Err(Check::Invalid(err.message()));
        }
        Ok(())
    }

    fn validate_and_build(self) -> (r: ValResult<Member>)
        ensures
            match r {
                Ok(m) => m == self && member_verdict(self@) is Ok,
                Err(c) => reports(Err(c), member_verdict(self@)) && member_verdict(self@) is Err,
            },
            self@.uuid.is_generated(DEFAULT_LEN) ==> (r is Ok <==> email_verdict(
                pattern_match(EMAIL_PATTERN@, self@.email),
            ) is Ok && phone_verdict(self@.phone_nr, pattern_match(PHONE_PATTERN@, self@.phone_nr)) is Ok),
    {
        match self.validate() {
            Ok(_) => Ok(self),
            Err(err) => Err(err),
        }
    }
}

impl Clone for Member {
    fn clone(&self) -> (r: Self)
        ensures
            r@ == self@,
    {
        Member {
            name: self.name.clone(),
            email: self.email.clone(),
            phone_nr: self.phone_nr.clone(),
            credits: self.credits,
            day_of_creation: self.day_of_creation,
            uuid: self.uuid.clone(),
        }
    }
}

impl PartialEq for Member {
    fn eq(&self, other: &Self) -> (r: bool) {
        String::eq(&self.email, &other.email) || String::eq(&self.phone_nr, &other.phone_nr)
    }
}

impl PartialEqSpecImpl for Member {
    open spec fn obeys_eq_spec() -> bool {
        true
    }

    open spec fn eq_spec(&self, other: &Self) -> bool {
        same_person(self@, other@)
    }
}

impl Default for Member {
    fn default() -> (m: Self)
        ensures
            m@.name == Seq::<char>::empty(),
            m@.email == Seq::<char>::empty(),
            m@.phone_nr == Seq::<char>::empty(),
            m@.credits == 0,
            m@.day_of_creation == 0,
            m@.uuid.is_generated(DEFAULT_LEN),
    {
        Member {
            name: String::new(),
            email: String::new(),
            phone_nr: String::new(),
            credits: 0,
            day_of_creation: 0,
            uuid: Uuid::new(),
        }
    }
}

impl MemberView {
    /// The mapping of the fields, in their order: texts as they are,
    /// numbers as decimal numerals, the identity as its text.
    pub open spec fn fields(self) -> Fields {
        seq![
            ("name"@, self.name),
            ("email"@, self.email),
            ("phone_nr"@, self.phone_nr),
            ("credits"@, decimal(self.credits as nat)),
            ("day_of_creation"@, decimal(self.day_of_creation as nat)),
            ("uuid"@, self.uuid.text()),
        ]
    }

    /// The mapping of the fields that a user may edit.
    pub open spec fn editable_fields(self) -> Fields {
        seq![("name"@, self.name), ("email"@, self.email), ("phone_nr"@, self.phone_nr)]
    }

    /// The member as text.
    pub open spec fn text(self) -> Seq<char> {
        record_text(self.fields())
    }

    /// The member that a mapping describes, where it holds every field.
    pub open spec fn from_fields(fields: Fields) -> Option<MemberView> {
        match (
            lookup(fields, "name"@),
            lookup(fields, "email"@),
            lookup(fields, "phone_nr"@),
            number_field(fields, "credits"@, u64::MAX as nat),
            number_field(fields, "day_of_creation"@, usize::MAX as nat),
            uuid_field(fields, "uuid"@),
        ) {
            (Some(name), Some(email), Some(phone_nr), Some(credits), Some(day), Some(uuid)) => Some(
                MemberView {
                    name,
                    email,
                    phone_nr,
                    credits: credits as u64,
                    day_of_creation: day as usize,
                    uuid,
                },
            ),
            _ => None,
        }
    }

    /// The member with the fields that a mapping names replaced.
    pub open spec fn with_fields(self, fields: Fields) -> Option<MemberView> {
        match (
            number_or(fields, "credits"@, u64::MAX as nat, self.credits as nat),
            number_or(fields, "day_of_creation"@, usize::MAX as nat, self.day_of_creation as nat),
            uuid_or(fields, "uuid"@, self.uuid),
        ) {
            (Some(credits), Some(day), Some(uuid)) => Some(
                MemberView {
                    name: text_or(fields, "name"@, self.name),
                    email: text_or(fields, "email"@, self.email),
                    phone_nr: text_or(fields, "phone_nr"@, self.phone_nr),
                    credits: credits as u64,
                    day_of_creation: day as usize,
                    uuid,
                },
            ),
            _ => None,
        }
    }

    /// The member that a text describes.
    pub open spec fn from_text(text: Seq<char>) -> Option<MemberView> {
        match parsed_record(text) {
            Some(fields) => Self::from_fields(fields),
            None => None,
        }
    }

    /// Name, email address, phone number and token can stand as values in a
    /// record text.
    pub open spec fn printable(self) -> bool {
        closed(self.name) && closed(self.email) && closed(self.phone_nr) && self.uuid.printable()
    }
}

/// The member under the name `key`, where the text there describes one.
pub open spec fn member_field(fields: Fields, key: Seq<char>) -> Option<MemberView> {
    match lookup(fields, key) {
        Some(text) => MemberView::from_text(text),
        None => None,
    }
}

/// The member under the name `key`, or `keep` where the name is missing;
/// `None` where the text there describes no member.
pub open spec fn member_or(fields: Fields, key: Seq<char>, keep: MemberView) -> Option<MemberView> {
    match lookup(fields, key) {
        Some(text) => MemberView::from_text(text),
        None => Some(keep),
    }
}

/// The field names of a member can stand as names, and differ.
pub proof fn lemma_member_names()
    ensures
        is_name("name"@),
        is_name("email"@),
        is_name("phone_nr"@),
        is_name("credits"@),
        is_name("day_of_creation"@),
        is_name("uuid"@),
        "name"@ != "email"@,
        "name"@ != "phone_nr"@,
        "name"@ != "credits"@,
        "name"@ != "day_of_creation"@,
        "name"@ != "uuid"@,
        "email"@ != "phone_nr"@,
        "email"@ != "credits"@,
        "email"@ != "day_of_creation"@,
        "email"@ != "uuid"@,
        "phone_nr"@ != "credits"@,
        "phone_nr"@ != "day_of_creation"@,
        "phone_nr"@ != "uuid"@,
        "credits"@ != "day_of_creation"@,
        "credits"@ != "uuid"@,
        "day_of_creation"@ != "uuid"@,
{
    reveal_strlit("name");
    reveal_strlit("email");
    reveal_strlit("phone_nr");
    reveal_strlit("credits");
    reveal_strlit("day_of_creation");
    reveal_strlit("uuid");
    assert("name"@.len() == 4 && "email"@.len() == 5 && "phone_nr"@.len() == 8 && "credits"@.len() == 7
        && "day_of_creation"@.len() == 15 && "uuid"@.len() == 4);
    assert("name"@[0] != "uuid"@[0]);
}

/// Building a member from its own mapping gives the member back, where its
/// token can stand as a value.
pub proof fn lemma_member_map_round_trip(m: MemberView)
    requires
        m.uuid.printable(),
    ensures
        MemberView::from_fields(m.fields()) == Some(m),
{
    lemma_member_names();
    lemma_decimal_round_trip(m.credits as nat);
    lemma_decimal_round_trip(m.day_of_creation as nat);
    lemma_uuid_text_round_trip(m.uuid);
    let fields = m.fields();
    lemma_lookup_at(fields, 0);
    lemma_lookup_at(fields, 1);
    lemma_lookup_at(fields, 2);
    lemma_lookup_at(fields, 3);
    lemma_lookup_at(fields, 4);
    lemma_lookup_at(fields, 5);
}

/// Reading the text of a member gives the member back, where its texts can
/// stand as values. The text itself can stand as a value.
pub proof fn lemma_member_text_round_trip(m: MemberView)
    requires
        m.printable(),
    ensures
        MemberView::from_text(m.text()) == Some(m),
        closed(m.text()),
{
    lemma_member_names();
    lemma_decimal_plain(m.credits as nat);
    lemma_decimal_plain(m.day_of_creation as nat);
    lemma_uuid_text_round_trip(m.uuid);
    assert(well_formed(m.fields()));
    lemma_record_round_trip(m.fields());
    lemma_member_map_round_trip(m);
}

impl ToMap for Member {
    fn to_map(&self) -> (map: StringMap)
        ensures
            fields_of(map@) == self@.fields(),
    {
        let mut map: StringMap = Vec::new();
        map.push(entry("name", self.name.clone()));
        map.push(entry("email", self.email.clone()));
        map.push(entry("phone_nr", self.phone_nr.clone()));
        map.push(entry("credits", decimal_text(self.credits)));
        map.push(entry("day_of_creation", decimal_text(self.day_of_creation as u64)));
        map.push(entry("uuid", self.uuid.to_text()));
        assert(fields_of(map@) =~= self@.fields());
        map
    }

    fn to_map_allowed_mutable(&self) -> (map: StringMap)
        ensures
            fields_of(map@) == self@.editable_fields(),
    {
        let mut map: StringMap = Vec::new();
        map.push(entry("name", self.name.clone()));
        map.push(entry("email", self.email.clone()));
        map.push(entry("phone_nr", self.phone_nr.clone()));
        assert(fields_of(map@) =~= self@.editable_fields());
        map
    }
}

impl FromMap for Member {
    fn from_complete_map(data: StringMap) -> (r: Option<Self>)
        ensures
            match r {
                Some(m) => MemberView::from_fields(fields_of(data@)) == Some(m@),
                None => MemberView::from_fields(fields_of(data@)) is None,
            },
    {
        match (
            read_text(&data, "name"),
            read_text(&data, "email"),
            read_text(&data, "phone_nr"),
            read_u64(&data, "credits"),
            read_usize(&data, "day_of_creation"),
            read_uuid(&data, "uuid"),
        ) {
            (Some(name), Some(email), Some(phone_nr), Some(credits), Some(day_of_creation), Some(uuid)) => Some(
                Member { name, email, phone_nr, credits, day_of_creation, uuid },
            ),
            _ => None,
        }
    }

    fn copy_with(&self, data: StringMap) -> (r: Option<Self>)
        ensures
            match r {
                Some(m) => self@.with_fields(fields_of(data@)) == Some(m@),
                None => self@.with_fields(fields_of(data@)) is None,
            },
    {
        match (
            read_u64_or(&data, "credits", self.credits),
            read_usize_or(&data, "day_of_creation", self.day_of_creation),
            read_uuid_or(&data, "uuid", &self.uuid),
        ) {
            (Some(credits), Some(day_of_creation), Some(uuid)) => Some(
                Member {
                    name: read_text_or(&data, "name", &self.name),
                    email: read_text_or(&data, "email", &self.email),
                    phone_nr: read_text_or(&data, "phone_nr", &self.phone_nr),
                    credits,
                    day_of_creation,
                    uuid,
                },
            ),
            _ => None,
        }
    }
}

impl Data for Member {
    fn head() -> (names: Vec<String>)
        ensures
            names@.map_values(|s: String| s@) == seq![
                "name"@,
                "email"@,
                "phone_nr"@,
                "credits"@,
                "day_of_creation"@,
                "uuid"@,
            ],
    {
        let mut names: Vec<String> = Vec::new();
        names.push("name".to_owned());
        names.push("email".to_owned());
        names.push("phone_nr".to_owned());
        names.push("credits".to_owned());
        names.push("day_of_creation".to_owned());
        names.push("uuid".to_owned());
        assert(names@.map_values(|s: String| s@) =~= seq![
            "name"@,
            "email"@,
            "phone_nr"@,
            "credits"@,
            "day_of_creation"@,
            "uuid"@,
        ]);
        names
    }

    fn head_allowed_mutable() -> (names: Vec<String>)
        ensures
            names@.map_values(|s: String| s@) == seq!["name"@, "email"@, "phone_nr"@],
    {
        let mut names: Vec<String> = Vec::new();
        names.push("name".to_owned());
        names.push("email".to_owned());
        names.push("phone_nr".to_owned());
        assert(names@.map_values(|s: String| s@) =~= seq!["name"@, "email"@, "phone_nr"@]);
        names
    }
}

impl Member {
    /// Writes the member as text.
    pub fn to_text(&self) -> (text: String)
        ensures
            text@ == self@.text(),
    {
        write_record(&self.to_map())
    }

    /// Reads a member from its text.
    pub fn from_text(text: &str) -> (r: Option<Self>)
        ensures
            match r {
                Some(m) => MemberView::from_text(text@) == Some(m@),
                None => MemberView::from_text(text@) is None,
            },
    {
        match parse_record(text) {
            Some(map) => Member::from_complete_map(map),
            None => None,
        }
    }
}

/// Reads the member under the name `key`.
pub fn read_member(data: &StringMap, key: &str) -> (r: Option<Member>)
    ensures
        match r {
            Some(m) => member_field(fields_of(data@), key@) == Some(m@),
            None => member_field(fields_of(data@), key@) is None,
        },
{
    match crate::record::get(data, key) {
        Some(text) => Member::from_text(text.as_str()),
        None => None,
    }
}

/// Reads the member under the name `key`, or copies `keep` where the name
/// is missing.
pub fn read_member_or(data: &StringMap, key: &str, keep: &Member) -> (r: Option<Member>)
    ensures
        match r {
            Some(m) => member_or(fields_of(data@), key@, keep@) == Some(m@),
            None => member_or(fields_of(data@), key@, keep@) is None,
        },
{
    match crate::record::get(data, key) {
        Some(text) => Member::from_text(text.as_str()),
        None => Some(keep.clone()),
    }
}

} // verus!
