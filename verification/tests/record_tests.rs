use lending::models::domain::contract::{parse_history, write_history, Contract, Status};
use lending::models::domain::item::{Category, Item};
use lending::models::domain::member::Member;
use lending::models::uuid::Uuid;
use lending::models::vec_wrapper::VecWrapper;
use lending::record::{get, parse_record, split_at_comma, split_pieces, write_record};
use lending::text::{
    ascii_lowered, chars_of, decimal_text, parse_bool, parse_u64, parse_usize, same_text, string_of,
    text_of_bool,
};
use lending::types::{Data, FromMap, StringMap, ToMap};

fn pair(k: &str, v: &str) -> (String, String) {
    (k.to_owned(), v.to_owned())
}

fn allan() -> Member {
    Member::default()
        .name("Allan".to_owned())
        .email("allan@enigma.com".to_owned())
        .phone_nr("0123456789".to_owned())
        .credits(100)
        .day_of_creation(3)
        .uuid(Uuid::from_parts(6, "abc123".to_owned()))
}

fn tina() -> Member {
    Member::default()
        .name("Tina, the second".to_owned())
        .email("tina@somethingelse.com".to_owned())
        .phone_nr("01234 543210".to_owned())
        .uuid(Uuid::from_parts(6, "Tina01".to_owned()))
}

fn contract(start: usize, len: usize, id: &str) -> Contract {
    Contract::new(allan(), tina(), start, len, 30 * len as u64).uuid(Uuid::from_parts(6, id.to_owned()))
}

fn same_member(a: &Member, b: &Member) -> bool {
    a.get_name() == b.get_name()
        && a.get_email() == b.get_email()
        && a.get_phone_nr() == b.get_phone_nr()
        && a.get_credits() == b.get_credits()
        && a.get_day_of_creation() == b.get_day_of_creation()
        && a.get_uuid() == b.get_uuid()
}

fn same_contract(a: &Contract, b: &Contract) -> bool {
    same_member(a.get_owner(), b.get_owner())
        && same_member(a.get_lendee(), b.get_lendee())
        && a.get_start_date() == b.get_start_date()
        && a.get_end_date() == b.get_end_date()
        && a.get_uuid() == b.get_uuid()
        && a.get_contract_len() == b.get_contract_len()
        && a.get_credits() == b.get_credits()
        && a.get_status() == b.get_status()
}

fn same_item(a: &Item, b: &Item) -> bool {
    let ha = a.get_history().to_vec();
    let hb = b.get_history().to_vec();
    a.get_name() == b.get_name()
        && a.get_description() == b.get_description()
        && a.get_category() == b.get_category()
        && ha.len() == hb.len()
        && ha.iter().zip(hb.iter()).all(|(x, y)| same_contract(x, y))
        && same_member(a.get_owner(), b.get_owner())
        && a.get_day_of_creation() == b.get_day_of_creation()
        && a.get_cost_per_day() == b.get_cost_per_day()
        && a.get_is_available() == b.get_is_available()
        && a.get_uuid() == b.get_uuid()
}

#[test]
fn decimal_numbers() {
    assert_eq!(decimal_text(0), "0");
    assert_eq!(decimal_text(7), "7");
    assert_eq!(decimal_text(10), "10");
    assert_eq!(decimal_text(1024), "1024");
    assert_eq!(decimal_text(u64::MAX), "18446744073709551615");
    assert_eq!(parse_u64("0"), Some(0));
    assert_eq!(parse_u64("007"), Some(7));
    assert_eq!(parse_u64("18446744073709551615"), Some(u64::MAX));
    assert_eq!(parse_u64("18446744073709551616"), None);
    assert_eq!(parse_u64("99999999999999999999999"), None);
    assert_eq!(parse_u64(""), None);
    assert_eq!(parse_u64("+7"), Some(7));
    assert_eq!(parse_u64("+007"), Some(7));
    assert_eq!(parse_u64("+18446744073709551615"), Some(u64::MAX));
    assert_eq!(parse_u64("+18446744073709551616"), None);
    assert_eq!(parse_u64("+"), None);
    assert_eq!(parse_u64("++7"), None);
    assert_eq!(parse_u64("+-7"), None);
    assert_eq!(parse_u64("7+"), None);
    assert_eq!(parse_u64("-0"), None);
    assert_eq!(parse_u64("-7"), None);
    assert_eq!(parse_u64("7 "), None);
    assert_eq!(parse_u64("1x"), None);
    assert_eq!(parse_usize("30"), Some(30));
    assert_eq!(parse_usize("+30"), Some(30));
    assert_eq!(parse_usize("x"), None);
    for n in [0u64, 9, 10, 99, 100, 12345, u64::MAX - 1] {
        assert_eq!(parse_u64(decimal_text(n).as_str()), Some(n));
    }
}

#[test]
fn truth_values_and_letters() {
    assert_eq!(text_of_bool(true), "true");
    assert_eq!(text_of_bool(false), "false");
    assert_eq!(parse_bool("true"), Some(true));
    assert_eq!(parse_bool("false"), Some(false));
    assert_eq!(parse_bool("True"), None);
    assert_eq!(parse_bool(""), None);
    assert_eq!(ascii_lowered("ToOl 1Z"), "tool 1z");
    assert_eq!(ascii_lowered("ÄB"), "Äb");
    assert_eq!(same_text("abc", "abc"), true);
    assert_eq!(same_text("abc", "abd"), false);
    assert_eq!(same_text("abc", "ab"), false);
    assert_eq!(string_of(&chars_of("héllo")), "héllo");
    assert_eq!(chars_of("héllo").len(), 5);
}

#[test]
fn record_text_is_written_field_by_field() {
    let map: StringMap = vec![pair("len", "6"), pair("value", "abc123")];
    assert_eq!(write_record(&map), "[len,6;value,abc123]");
    let one: StringMap = vec![pair("a", "")];
    assert_eq!(write_record(&one), "[a,]");
    let none: StringMap = vec![];
    assert_eq!(write_record(&none), "[]");
}

#[test]
fn record_text_is_read_back() {
    assert_eq!(
        parse_record("[len,6;value,abc123]"),
        Some(vec![pair("len", "6"), pair("value", "abc123")])
    );
    assert_eq!(
        parse_record("[name,Allan;uuid,[len,6;value,abc123];note,a,b]"),
        Some(vec![
            pair("name", "Allan"),
            pair("uuid", "[len,6;value,abc123]"),
            pair("note", "a,b"),
        ])
    );
    assert_eq!(
        parse_record("[a,[b,[c,1;d,2];e,3];f,4]"),
        Some(vec![pair("a", "[b,[c,1;d,2];e,3]"), pair("f", "4")])
    );
    assert_eq!(parse_record("[a,]"), Some(vec![pair("a", "")]));
}

#[test]
fn malformed_record_text_is_refused() {
    assert_eq!(parse_record(""), None);
    assert_eq!(parse_record("["), None);
    assert_eq!(parse_record("[]"), None);
    assert_eq!(parse_record("a,1"), None);
    assert_eq!(parse_record("[a,1"), None);
    assert_eq!(parse_record("a,1]"), None);
    assert_eq!(parse_record("[a,1;b]"), None);
    assert_eq!(parse_record("[a,[1]"), None);
    assert_eq!(parse_record("[a,1]]"), None);
    assert_eq!(parse_record("[a,]1[]"), None);
}

#[test]
fn pieces_and_fields() {
    let pieces = split_pieces(&chars_of("a;[b;c];d")).unwrap();
    let texts: Vec<String> = pieces.iter().map(|p| string_of(p)).collect();
    assert_eq!(texts, vec!["a", "[b;c]", "d"]);
    let empty = split_pieces(&chars_of("")).unwrap();
    assert_eq!(empty.len(), 1);
    assert_eq!(split_pieces(&chars_of("a]")), None);
    assert_eq!(split_pieces(&chars_of("[a")), None);
    assert_eq!(split_at_comma(&chars_of("k,v,w")), Some(pair("k", "v,w")));
    assert_eq!(split_at_comma(&chars_of(",")), Some(pair("", "")));
    assert_eq!(split_at_comma(&chars_of("kv")), None);
}

#[test]
fn the_last_entry_of_a_name_counts() {
    let map: StringMap = vec![pair("a", "1"), pair("b", "2"), pair("a", "3")];
    assert_eq!(get(&map, "a"), Some(&"3".to_owned()));
    assert_eq!(get(&map, "b"), Some(&"2".to_owned()));
    assert_eq!(get(&map, "c"), None);
    let id = Uuid::from_complete_map(vec![pair("len", "1"), pair("value", "x"), pair("len", "6")]).unwrap();
    assert_eq!(id.get_len(), &6);
}

#[test]
fn uuid_round_trip() {
    let id = Uuid::from_parts(6, "abc123".to_owned());
    assert_eq!(id.to_map(), vec![pair("len", "6"), pair("value", "abc123")]);
    assert_eq!(id.to_map_allowed_mutable(), id.to_map());
    assert_eq!(id.to_text(), "[len,6;value,abc123]");
    assert!(Uuid::from_complete_map(id.to_map()) == Some(id.clone()));
    assert!(Uuid::from_text(id.to_text().as_str()) == Some(id.clone()));
    let fresh = Uuid::new();
    assert!(Uuid::from_text(fresh.to_text().as_str()) == Some(fresh.clone()));
    assert!(Uuid::from_complete_map(vec![pair("len", "6")]).is_none());
    assert!(Uuid::from_complete_map(vec![pair("len", "six"), pair("value", "abc123")]).is_none());
    let longer = id.copy_with(vec![pair("len", "9")]).unwrap();
    assert_eq!(longer.get_len(), &9);
    assert_eq!(longer.get_value(), "abc123");
    assert!(id.copy_with(vec![pair("len", "-1")]).is_none());
    assert_eq!(id.copy_with(vec![pair("len", "+9")]).unwrap().get_len(), &9);
}

#[test]
fn member_round_trip() {
    let m = allan();
    assert_eq!(
        m.to_map(),
        vec![
            pair("name", "Allan"),
            pair("email", "allan@enigma.com"),
            pair("phone_nr", "0123456789"),
            pair("credits", "100"),
            pair("day_of_creation", "3"),
            pair("uuid", "[len,6;value,abc123]"),
        ]
    );
    assert_eq!(
        m.to_map_allowed_mutable(),
        vec![
            pair("name", "Allan"),
            pair("email", "allan@enigma.com"),
            pair("phone_nr", "0123456789"),
        ]
    );
    assert_eq!(
        m.to_text(),
        "[name,Allan;email,allan@enigma.com;phone_nr,0123456789;credits,100;day_of_creation,3;uuid,[len,6;value,abc123]]"
    );
    let back = Member::from_complete_map(m.to_map()).unwrap();
    assert!(same_member(&back, &m));
    let read = Member::from_text(m.to_text().as_str()).unwrap();
    assert!(same_member(&read, &m));
    let t = tina();
    assert!(same_member(&Member::from_text(t.to_text().as_str()).unwrap(), &t));
    assert_eq!(
        Member::head(),
        vec!["name", "email", "phone_nr", "credits", "day_of_creation", "uuid"]
    );
    assert_eq!(Member::head_allowed_mutable(), vec!["name", "email", "phone_nr"]);
}

#[test]
fn member_copy_with_changes_only_what_is_named() {
    let m = allan();
    let edited = m
        .copy_with(vec![pair("name", "Alan"), pair("credits", "5")])
        .unwrap();
    assert_eq!(edited.get_name(), "Alan");
    assert_eq!(*edited.get_credits(), 5);
    assert_eq!(edited.get_email(), m.get_email());
    assert_eq!(edited.get_phone_nr(), m.get_phone_nr());
    assert_eq!(edited.get_day_of_creation(), m.get_day_of_creation());
    assert!(edited.get_uuid() == m.get_uuid());
    assert!(same_member(&m.copy_with(vec![]).unwrap(), &m));
    assert!(m.copy_with(vec![pair("credits", "many")]).is_none());
    assert!(m.copy_with(vec![pair("uuid", "abc123")]).is_none());
    let mut missing = m.to_map();
    missing.remove(2);
    assert!(Member::from_complete_map(missing).is_none());
}

#[test]
fn a_name_with_a_semicolon_does_not_come_back() {
    let odd = allan().name("a;b".to_owned());
    assert!(same_member(&Member::from_complete_map(odd.to_map()).unwrap(), &odd));
    assert!(Member::from_text(odd.to_text().as_str()).is_none());
    let bracket = allan().name("a]".to_owned());
    assert!(Member::from_text(bracket.to_text().as_str()).is_none());
}

#[test]
fn contract_round_trip() {
    let mut c = contract(6, 6, "con001");
    c.set_status(7);
    let map = c.to_map();
    assert_eq!(map.len(), 8);
    assert_eq!(map[2], pair("start_date", "6"));
    assert_eq!(map[3], pair("end_date", "12"));
    assert_eq!(map[4], pair("uuid", "[len,6;value,con001]"));
    assert_eq!(map[5], pair("contract_len", "6"));
    assert_eq!(map[6], pair("credits", "180"));
    assert_eq!(map[7], pair("status", "Active"));
    assert_eq!(map[0].1, allan().to_text());
    assert_eq!(c.to_map_allowed_mutable(), vec![pair("contract_len", "6")]);
    assert!(same_contract(&Contract::from_complete_map(c.to_map()).unwrap(), &c));
    assert!(same_contract(&Contract::from_text(c.to_text().as_str()).unwrap(), &c));
    for status in [Status::Active, Status::Finished, Status::Canceled, Status::Future, Status::Other] {
        let d = contract(1, 2, "con002").status(status);
        assert!(same_contract(&Contract::from_text(d.to_text().as_str()).unwrap(), &d));
    }
    assert_eq!(
        Contract::head(),
        vec![
            "owner",
            "lendee",
            "start_date",
            "end_date",
            "uuid",
            "contract_len",
            "credits",
            "status"
        ]
    );
    assert_eq!(Contract::head_allowed_mutable(), vec!["contract_len"]);
    let longer = c.copy_with(vec![pair("contract_len", "9")]).unwrap();
    assert_eq!(*longer.get_contract_len(), 9);
    assert_eq!(*longer.get_end_date(), 12);
    assert!(c.copy_with(vec![pair("owner", "nobody")]).is_none());
}

#[test]
fn history_round_trip() {
    let mut history: VecWrapper<Contract> = VecWrapper::new();
    assert_eq!(write_history(&history), "-");
    assert_eq!(parse_history("-").unwrap().len(), 0);
    history.push(contract(0, 5, "con001"));
    let one = write_history(&history);
    assert_eq!(one, format!("[{}]", contract(0, 5, "con001").to_text()));
    history.push(contract(5, 5, "con002"));
    let two = write_history(&history);
    assert_eq!(
        two,
        format!(
            "[{};{}]",
            contract(0, 5, "con001").to_text(),
            contract(5, 5, "con002").to_text()
        )
    );
    let back = parse_history(two.as_str()).unwrap();
    assert_eq!(back.len(), 2);
    assert_eq!(back.len, 2);
    assert!(same_contract(&back.values[0], &history.values[0]));
    assert!(same_contract(&back.values[1], &history.values[1]));
    assert!(parse_history("").is_none());
    assert!(parse_history("[]").is_none());
    assert!(parse_history("[x]").is_none());
    assert!(parse_history(&two[..two.len() - 1]).is_none());
}

#[test]
fn item_round_trip() {
    let mut item = Item::new(
        "Monopoly".to_owned(),
        "A Family Game, for all".to_owned(),
        Category::Game,
        allan(),
        30,
        2,
    )
    .uuid(Uuid::from_parts(6, "item01".to_owned()));
    let empty = item.to_map();
    assert_eq!(empty.len(), 9);
    assert_eq!(empty[0], pair("name", "Monopoly"));
    assert_eq!(empty[2], pair("category", "Game"));
    assert_eq!(empty[3], pair("history", "-"));
    assert_eq!(empty[5], pair("day_of_creation", "2"));
    assert_eq!(empty[6], pair("cost_per_day", "30"));
    assert_eq!(empty[7], pair("is_available", "true"));
    assert!(same_item(&Item::from_complete_map(item.to_map()).unwrap(), &item));
    item.add_contract(contract(6, 6, "con001")).unwrap();
    item.add_contract(contract(12, 2, "con002")).unwrap();
    assert!(same_item(&Item::from_complete_map(item.to_map()).unwrap(), &item));
    assert!(same_item(&Item::from_text(item.to_text().as_str()).unwrap(), &item));
    let hidden = item.clone().is_available(false).category(Category::Other);
    assert!(same_item(&Item::from_text(hidden.to_text().as_str()).unwrap(), &hidden));
    assert_eq!(
        item.to_map_allowed_mutable(),
        vec![
            pair("name", "Monopoly"),
            pair("description", "A Family Game, for all"),
            pair("category", "Game"),
            pair("cost_per_day", "30"),
        ]
    );
    assert_eq!(
        Item::head_allowed_mutable(),
        vec!["name", "description", "category", "cost_per_day"]
    );
    assert_eq!(Item::head().len(), 9);
    let edited = item
        .copy_with(vec![pair("category", "vehicle"), pair("cost_per_day", "45")])
        .unwrap();
    assert_eq!(*edited.get_category(), Category::Vehicle);
    assert_eq!(*edited.get_cost_per_day(), 45);
    assert_eq!(edited.get_history().len(), 2);
    assert!(item.copy_with(vec![pair("is_available", "yes")]).is_none());
    assert!(item.copy_with(vec![pair("history", "none")]).is_none());
}

#[test]
fn category_text() {
    assert_eq!(Category::Tool.to_text(), "Tool");
    assert_eq!(Category::Other.to_text(), "Other");
    assert_eq!(Category::from_text("tool"), Category::Tool);
    assert_eq!(Category::from_text("VEHICLE"), Category::Vehicle);
    assert_eq!(Category::from_text("Game"), Category::Game);
    assert_eq!(Category::from_text("toy"), Category::Toy);
    assert_eq!(Category::from_text("Sport"), Category::Sport);
    assert_eq!(Category::from_text("boat"), Category::Other);
    assert_eq!(Category::default(), Category::Other);
}
