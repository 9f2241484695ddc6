//! Identifiers of members, items and contracts.

use rand::Rng;
use vstd::prelude::*;
use vstd::std_specs::cmp::PartialEqSpecImpl;
use crate::record::{
    closed, entry, fields_of, is_name, lemma_decimal_plain, lemma_lookup_at, lemma_record_round_trip, lookup,
    number_field, number_or, parse_record, parsed_record, read_text, read_text_or, read_usize, read_usize_or,
    record_text, text_or, well_formed, write_record, Fields,
};
use crate::text::{decimal, decimal_text, is_ascii_alphanumeric, lemma_decimal_round_trip};
use crate::types::{FromMap, StringMap, ToMap};

verus! {

/// The length of an identifier made by [`Uuid::new`].
pub const DEFAULT_LEN: usize = 6;

/// The mathematical value of a [`Uuid`].
pub struct UuidView {
    /// The length the identifier was made with.
    pub len: usize,
    /// The characters of the token.
    pub value: Seq<char>,
}

impl UuidView {
    /// An identifier as [`Uuid::new`] makes them: as many characters as its
    /// length says, each an ASCII letter or digit.
    pub open spec fn is_generated(self, len: usize) -> bool {
        &&& self.len == len
        &&& self.value.len() == len
        &&& forall|i: int| 0 <= i < self.value.len() ==> is_ascii_alphanumeric(#[trigger] self.value[i])
    }
}

/// An opaque token that identifies a member, an item or a contract.
///
/// Two identifiers are equal when their lengths and tokens are equal.
#[derive(Debug, Hash)]
pub struct Uuid {
    len: usize,
    value: String,
}

impl View for Uuid {
    type V = UuidView;

    closed spec fn view(&self) -> UuidView {
        UuidView { len: self.len, value: self.value@ }
    }
}

/// `Rng::sample` of the crate `rand` on its thread-local generator with the
/// distribution `Alphanumeric`: one byte drawn from the ASCII letters and
/// digits. Nothing more is known of the byte.
#[verifier::external_body]
fn random_alphanumeric() -> (b: u8)
    ensures
        is_ascii_alphanumeric(b as char),
{
    rand::thread_rng().sample(rand::distributions::Alphanumeric)
}

impl Uuid {
    /// Creates a fresh random identifier of the default length.
    pub fn new() -> (id: Uuid)
        ensures
            id@.is_generated(DEFAULT_LEN),
    {
        Uuid::with_len(DEFAULT_LEN)
    }

    /// Creates a fresh random identifier with a specific length.
    pub fn with_len(len: usize) -> (id: Uuid)
        ensures
            id@.is_generated(len),
    {
        let mut value: String = String::new();
        let mut i: usize = 0;
        while i < len
            invariant
                i <= len,
                value@.len() == i,
                forall|k: int| 0 <= k < value@.len() ==> is_ascii_alphanumeric(#[trigger] value@[k]),
            decreases len - i,
        {
            let b: u8 = random_alphanumeric();
            value.push(b as char);
            i += 1;
        }
        Uuid { len, value }
    }

    /// Creates an identifier with no value.
    pub fn empty() -> (id: Uuid)
        ensures
            id@.len == 0,
            id@.value == Seq::<char>::empty(),
    {
        Uuid { len: 0, value: String::new() }
    }

    /// Builds an identifier from its parts.
    pub fn from_parts(len: usize, value: String) -> (id: Uuid)
        ensures
            id@ == (UuidView { len, value: value@ }),
    {
        Uuid { len, value }
    }

    /// The length the identifier was made with.
    pub fn get_len(&self) -> (len: &usize)
        ensures
            *len == self@.len,
    {
        &self.len
    }

    /// The token.
    pub fn get_value(&self) -> (value: &String)
        ensures
            value@ == self@.value,
    {
        &self.value
    }
}

impl Clone for Uuid {
    fn clone(&self) -> (r: Self)
        ensures
            r@ == self@,
    {
        Uuid { len: self.len, value: self.value.clone() }
    }
}

impl PartialEq for Uuid {
    fn eq(&self, other: &Self) -> (r: bool) {
        self.len == other.len && String::eq(&self.value, &other.value)
    }
}

impl Eq for Uuid {}

impl PartialEqSpecImpl for Uuid {
    open spec fn obeys_eq_spec() -> bool {
        true
    }

    open spec fn eq_spec(&self, other: &Self) -> bool {
        self@ == other@
    }
}

impl Default for Uuid {
    fn default() -> (id: Self)
        ensures
            id@.is_generated(DEFAULT_LEN),
    {
        Uuid::new()
    }
}

impl UuidView {
    /// The mapping of the fields: the length as a decimal numeral, and the
    /// token.
    pub open spec fn fields(self) -> Fields {
        seq![("len"@, decimal(self.len as nat)), ("value"@, self.value)]
    }

    /// The identifier as text.
    pub open spec fn text(self) -> Seq<char> {
        record_text(self.fields())
    }

    /// The identifier that a mapping describes, where it holds both fields.
    pub open spec fn from_fields(fields: Fields) -> Option<UuidView> {
        match (number_field(fields, "len"@, usize::MAX as nat), lookup(fields, "value"@)) {
            (Some(len), Some(value)) => Some(UuidView { len: len as usize, value }),
            _ => None,
        }
    }

    /// The identifier with the fields that a mapping names replaced.
    pub open spec fn with_fields(self, fields: Fields) -> Option<UuidView> {
        match number_or(fields, "len"@, usize::MAX as nat, self.len as nat) {
            Some(len) => Some(UuidView { len: len as usize, value: text_or(fields, "value"@, self.value) }),
            None => None,
        }
    }

    /// The identifier that a text describes.
    pub open spec fn from_text(text: Seq<char>) -> Option<UuidView> {
        match parsed_record(text) {
            Some(fields) => Self::from_fields(fields),
            None => None,
        }
    }

    /// The token can stand as a value in a record text.
    pub open spec fn printable(self) -> bool {
        closed(self.value)
    }
}

/// The identifier under the name `key`, where the text there describes one.
pub open spec fn uuid_field(fields: Fields, key: Seq<char>) -> Option<UuidView> {
    match lookup(fields, key) {
        Some(text) => UuidView::from_text(text),
        None => None,
    }
}

/// The identifier under the name `key`, or `keep` where the name is
/// missing; `None` where the text there describes no identifier.
pub open spec fn uuid_or(fields: Fields, key: Seq<char>, keep: UuidView) -> Option<UuidView> {
    match lookup(fields, key) {
        Some(text) => UuidView::from_text(text),
        None => Some(keep),
    }
}

/// The field names of an identifier can stand as names, and differ.
pub proof fn lemma_uuid_names()
    ensures
        is_name("len"@),
        is_name("value"@),
        "len"@ != "value"@,
{
    reveal_strlit("len");
    reveal_strlit("value");
    assert("len"@.len() != "value"@.len());
}

/// Building an identifier from its own mapping gives the identifier back.
pub proof fn lemma_uuid_map_round_trip(id: UuidView)
    ensures
        UuidView::from_fields(id.fields()) == Some(id),
{
    lemma_uuid_names();
    lemma_decimal_round_trip(id.len as nat);
    lemma_lookup_at(id.fields(), 0);
    lemma_lookup_at(id.fields(), 1);
}

/// Reading the text of an identifier gives the identifier back, where its
/// token can stand as a value. The text itself can stand as a value.
pub proof fn lemma_uuid_text_round_trip(id: UuidView)
    requires
        id.printable(),
    ensures
        UuidView::from_text(id.text()) == Some(id),
        closed(id.text()),
{
    lemma_uuid_names();
    lemma_decimal_plain(id.len as nat);
    assert(well_formed(id.fields()));
    lemma_record_round_trip(id.fields());
    lemma_uuid_map_round_trip(id);
}

impl ToMap for Uuid {
    fn to_map(&self) -> (map: StringMap)
        ensures
            fields_of(map@) == self@.fields(),
    {
        let mut map: StringMap = Vec::new();
        map.push(entry("len", decimal_text(self.len as u64)));
        map.push(entry("value", self.value.clone()));
        assert(fields_of(map@) =~= self@.fields());
        map
    }

    fn to_map_allowed_mutable(&self) -> (map: StringMap)
        ensures
            fields_of(map@) == self@.fields(),
    {
        self.to_map()
    }
}

impl FromMap for Uuid {
    fn from_complete_map(data: StringMap) -> (r: Option<Self>)
        ensures
            match r {
                Some(id) => UuidView::from_fields(fields_of(data@)) == Some(id@),
                None => UuidView::from_fields(fields_of(data@)) is None,
            },
    {
        match (read_usize(&data, "len"), read_text(&data, "value")) {
            (Some(len), Some(value)) => Some(Uuid { len, value }),
            _ => None,
        }
    }

    fn copy_with(&self, data: StringMap) -> (r: Option<Self>)
        ensures
            match r {
                Some(id) => self@.with_fields(fields_of(data@)) == Some(id@),
                None => self@.with_fields(fields_of(data@)) is None,
            },
    {
        match read_usize_or(&data, "len", self.len) {
            Some(len) => Some(Uuid { len, value: read_text_or(&data, "value", &self.value) }),
            None => None,
        }
    }
}

impl Uuid {
    /// Writes the identifier as text.
    pub fn to_text(&self) -> (text: String)
        ensures
            text@ == self@.text(),
    {
        write_record(&self.to_map())
    }

    /// Reads an identifier from its text.
    pub fn from_text(text: &str) -> (r: Option<Self>)
        ensures
            match r {
                Some(id) => UuidView::from_text(text@) == Some(id@),
                None => UuidView::from_text(text@) is None,
            },
    {
        match parse_record(text) {
            Some(map) => Uuid::from_complete_map(map),
            None => None,
        }
    }
}

/// Reads the identifier under the name `key`.
pub fn read_uuid(data: &StringMap, key: &str) -> (r: Option<Uuid>)
    ensures
        match r {
            Some(id) => uuid_field(fields_of(data@), key@) == Some(id@),
            None => uuid_field(fields_of(data@), key@) is None,
        },
{
    match crate::record::get(data, key) {
        Some(text) => Uuid::from_text(text.as_str()),
        None => None,
    }
}

/// Reads the identifier under the name `key`, or copies `keep` where the
/// name is missing.
pub fn read_uuid_or(data: &StringMap, key: &str, keep: &Uuid) -> (r: Option<Uuid>)
    ensures
        match r {
            Some(id) => uuid_or(fields_of(data@), key@, keep@) == Some(id@),
            None => uuid_or(fields_of(data@), key@, keep@) is None,
        },
{
    match crate::record::get(data, key) {
        Some(text) => Uuid::from_text(text.as_str()),
        None => Some(keep.clone()),
    }
}

} // verus!
