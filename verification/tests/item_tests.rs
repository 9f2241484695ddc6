use lending::errors::SysError;
use lending::models::domain::contract::{Contract, Status};
use lending::models::domain::item::{Category, Item};
use lending::models::domain::member::Member;

#[test]
fn item_tests_test_new_creation() {
    let name = "Monopoly".to_owned();
    let description = "A Family Game".to_owned();
    let category = Category::Game;
    let cost_per_day = 20;
    let owner = Member::default()
        .name("Allan".to_owned())
        .email("allan@turing.com".to_owned())
        .phone_nr("4601234567".to_owned())
        .build();

    let monopoly = Item::new(
        name.clone(),
        description.clone(),
        category.clone(),
        owner.clone(),
        cost_per_day,
        0,
    );
    assert_eq!(*monopoly.get_name(), name);
    assert_eq!(*monopoly.get_description(), description);
    assert_eq!(*monopoly.get_category(), category);
    assert_eq!(*monopoly.get_owner(), owner);
    assert_eq!(*monopoly.get_cost_per_day(), cost_per_day);
    assert_eq!(monopoly.get_history().to_vec(), vec![]);
    assert_eq!(*monopoly.get_is_available(), true);
    assert_eq!(*monopoly.get_day_of_creation(), 0);
}

#[test]
fn item_tests_test_builder_creation() {
    let name = "Monopoly".to_owned();
    let description = "A Family Game".to_owned();
    let category = Category::Game;
    let cost_per_day = 20;
    let owner = Member::default()
        .name("Allan".to_owned())
        .email("allan@turing.com".to_owned())
        .phone_nr("4601234567".to_owned())
        .build();

    let monopoly = Item::default()
        .name(name.clone())
        .description(description.clone())
        .category(category.clone())
        .owner(owner.clone())
        .cost_per_day(cost_per_day)
        .day_of_creation(0)
        .build();

    assert_eq!(*monopoly.get_name(), name);
    assert_eq!(*monopoly.get_description(), description);
    assert_eq!(*monopoly.get_category(), category);
    assert_eq!(*monopoly.get_owner(), owner);
    assert_eq!(*monopoly.get_cost_per_day(), cost_per_day);
    assert_eq!(monopoly.get_history().to_vec(), vec![]);
    assert_eq!(*monopoly.get_is_available(), true);
    assert_eq!(*monopoly.get_day_of_creation(), 0);
}

#[test]
fn test_add_contract() {
    let allan = Member::default()
        .name("Allan".to_owned())
        .email("allan@turing.com".to_owned())
        .phone_nr("4602134567".to_owned())
        .build();
    let bob = Member::default()
        .name("Bob".to_owned())
        .email("bob@gmail.com".to_owned())
        .phone_nr("46291328475".to_owned())
        .credits(500)
        .build();
    let mut item = Item::default()
        .name("Monopoly".to_owned())
        .description("A Family Game".to_owned())
        .category(Category::Game)
        .cost_per_day(20)
        .owner(allan.clone());

    let contract = Contract::default()
        .owner(allan.clone())
        .lendee(bob.clone())
        .credits(200)
        .from_date(0, 10)
        .build();

    assert_eq!(item.add_contract(contract).is_ok(), true);
    let history = item.get_history().to_vec();
    let c = history.first().unwrap();
    assert_eq!(c.get_owner(), &allan);
    assert_eq!(c.get_lendee(), &bob);
    assert_eq!(c.get_credits(), &200);
    assert_eq!(c.get_start_date(), &0);
    assert_eq!(c.get_end_date(), &10);
    assert_eq!(c.get_contract_len(), &10);
}

#[test]
fn test_add_contract_in_taken_period() {
    let allan = Member::default()
        .name("Allan".to_owned())
        .email("allan@turing.com".to_owned())
        .phone_nr("4602134567".to_owned())
        .build();
    let bob = Member::default()
        .name("Bob".to_owned())
        .email("bob@gmail.com".to_owned())
        .phone_nr("46291328475".to_owned())
        .credits(500)
        .build();
    let mut monopoly = Item::default()
        .name("Monopoly".to_owned())
        .description("A Family Game".to_owned())
        .category(Category::Game)
        .cost_per_day(20)
        .owner(allan.clone());

    let c1 = Contract::default()
        .owner(allan.clone())
        .lendee(bob.clone())
        .credits(200)
        .from_date(0, 10)
        .build();

    let c2 = Contract::default()
        .owner(allan.clone())
        .lendee(bob.clone())
        .credits(100)
        .from_date(3, 5)
        .build();

    assert_eq!(monopoly.add_contract(c1).is_ok(), true);
    assert_eq!(monopoly.add_contract(c2).is_ok(), false);
}

#[test]
fn test_contract_not_enough_funds() {
    let allan = Member::default()
        .name("Allan".to_owned())
        .email("allan@turing.com".to_owned())
        .phone_nr("4602134567".to_owned())
        .build();
    let bob = Member::default()
        .name("Bob".to_owned())
        .email("bob@gmail.com".to_owned())
        .phone_nr("46291328475".to_owned())
        .credits(200)
        .build();
    let mut monopoly = Item::default()
        .name("Monopoly".to_owned())
        .description("A Family Game".to_owned())
        .category(Category::Game)
        .cost_per_day(20)
        .owner(allan.clone());

    let c1 = Contract::default()
        .owner(allan.clone())
        .lendee(bob.clone())
        .credits(200)
        .from_date(0, 10)
        .build();

    let c2 = Contract::default()
        .owner(allan.clone())
        .lendee(bob.clone())
        .credits(400)
        .from_date(11, 15)
        .build();

    assert_eq!(monopoly.add_contract(c1).is_ok(), true);
    assert_eq!(monopoly.add_contract(c2).is_ok(), false);
}

fn person(name: &str, email: &str, phone: &str) -> Member {
    Member::default()
        .name(name.to_owned())
        .email(email.to_owned())
        .phone_nr(phone.to_owned())
        .build()
}

fn game() -> Item {
    Item::new(
        "Monopoly".to_owned(),
        "Family Game".to_owned(),
        Category::Game,
        person("Allan", "allan@enigma.com", "0123456789"),
        30,
        0,
    )
}

fn booking(start: usize, len: usize) -> Contract {
    Contract::new(
        person("Allan", "allan@enigma.com", "0123456789"),
        person("Tina", "tina@somethingelse.com", "01234543210"),
        start,
        len,
        30 * len as u64,
    )
}

fn spans(item: &Item) -> Vec<(usize, usize)> {
    item.get_history()
        .to_vec()
        .iter()
        .map(|c| (*c.get_start_date(), *c.get_end_date()))
        .collect()
}

#[test]
fn bookings_that_touch_do_not_meet() {
    let mut item = game();
    assert_eq!(item.add_contract(booking(6, 6)), Ok(()));
    assert_eq!(item.add_contract(booking(12, 3)), Ok(()));
    assert_eq!(item.add_contract(booking(0, 6)), Ok(()));
    assert_eq!(spans(&item), vec![(6, 12), (12, 15), (0, 6)]);
}

#[test]
fn bookings_that_meet_are_refused_and_change_nothing() {
    let mut item = game();
    assert_eq!(item.add_contract(booking(6, 6)), Ok(()));
    assert_eq!(item.add_contract(booking(8, 2)), Err(SysError::AlreadyExists));
    assert_eq!(item.add_contract(booking(6, 6)), Err(SysError::AlreadyExists));
    assert_eq!(item.add_contract(booking(0, 7)), Err(SysError::AlreadyExists));
    assert_eq!(item.add_contract(booking(11, 1)), Err(SysError::AlreadyExists));
    assert_eq!(item.add_contract(booking(0, 30)), Err(SysError::AlreadyExists));
    assert_eq!(spans(&item), vec![(6, 12)]);
    assert_eq!(*item.get_is_available(), true);
}

#[test]
fn no_two_bookings_overlap_after_many_requests() {
    let mut item = game();
    let requests: Vec<(usize, usize)> =
        vec![(5, 5), (0, 5), (3, 4), (10, 1), (9, 3), (11, 9), (20, 1), (19, 2), (0, 40)];
    for (start, len) in requests {
        let _ = item.add_contract(booking(start, len));
    }
    let kept = spans(&item);
    assert_eq!(kept, vec![(5, 10), (0, 5), (10, 11), (11, 20), (20, 21)]);
    for (i, a) in kept.iter().enumerate() {
        for (j, b) in kept.iter().enumerate() {
            if i != j {
                assert!(!(a.0 < b.1 && b.0 < a.1));
            }
        }
    }
}

#[test]
fn contract_in_period_is_the_first_that_meets() {
    let mut item = game();
    let first = booking(6, 6);
    let second = booking(20, 5);
    item.add_contract(first.clone()).unwrap();
    item.add_contract(second.clone()).unwrap();
    assert!(item.get_contract_in_period(&6, &12) == Some(first.clone()));
    assert!(item.get_contract_in_period(&11, &21) == Some(first.clone()));
    assert!(item.get_contract_in_period(&12, &21) == Some(second.clone()));
    assert!(item.get_contract_in_period(&12, &20).is_none());
    assert!(item.get_contract_in_period(&0, &6).is_none());
    assert!(item.get_contract_in_period(&25, &30).is_none());
}

#[test]
fn active_contract_holds_the_day() {
    let mut item = game();
    let first = booking(6, 6);
    item.add_contract(first.clone()).unwrap();
    assert!(item.get_active_contract(5).is_none());
    assert!(item.get_active_contract(6) == Some(first.clone()));
    assert!(item.get_active_contract(11) == Some(first.clone()));
    assert!(item.get_active_contract(12).is_none());
}

#[test]
fn first_match_wins_where_a_history_overlaps() {
    let a = booking(0, 10);
    let b = booking(5, 10);
    let mut history = lending::models::vec_wrapper::VecWrapper::new();
    history.push(a.clone());
    history.push(b.clone());
    let item = game().history(history);
    assert!(item.get_active_contract(7) == Some(a.clone()));
    assert!(item.get_active_contract(12) == Some(b.clone()));
    assert!(item.get_contract_in_period(&9, &11) == Some(a));
}

#[test]
fn availability_covers_thirty_days() {
    let mut item = game();
    item.add_contract(booking(6, 6)).unwrap();
    let days = item.get_availability(0);
    assert_eq!(days.len(), 30);
    for (k, (label, booked)) in days.iter().enumerate() {
        assert_eq!(label, &k.to_string());
        assert_eq!(*booked, k >= 6 && k < 12);
    }
    let later = item.get_availability(995);
    assert_eq!(later[0], ("995".to_owned(), false));
    assert_eq!(later[5], ("1000".to_owned(), false));
    assert_eq!(later[29], ("1024".to_owned(), false));
}

#[test]
fn history_map_sorts_by_status() {
    let mut history = lending::models::vec_wrapper::VecWrapper::new();
    let past = booking(0, 2).status(Status::Finished);
    let called_off = booking(2, 2).status(Status::Canceled);
    let running = booking(4, 2).status(Status::Active);
    let coming = booking(6, 2);
    let odd = booking(8, 2).status(Status::Other);
    for c in vec![coming.clone(), past.clone(), odd, running.clone(), called_off.clone()] {
        history.push(c);
    }
    let item = game().history(history);
    let map = item.get_history_map();
    assert!(map.past == vec![past, called_off]);
    assert!(map.active == vec![running]);
    assert!(map.future == vec![coming]);
}

#[test]
fn an_active_booking_ends_availability() {
    let mut item = game();
    let mut running = booking(0, 10);
    running.set_status(3);
    assert_eq!(*running.get_status(), Status::Active);
    item.add_contract(booking(20, 2)).unwrap();
    assert_eq!(*item.get_is_available(), true);
    item.add_contract(running).unwrap();
    assert_eq!(*item.get_is_available(), false);
    item.add_contract(booking(30, 2)).unwrap();
    assert_eq!(*item.get_is_available(), false);
}

#[test]
fn items_compare_by_identity() {
    let a = game();
    let b = game();
    assert!(a != b);
    assert!(a.clone() == a);
    assert!(a.clone().name("Other".to_owned()) == a);
}

#[test]
fn a_booking_on_a_day_goes_by_the_day() {
    let mut item = game();
    assert_eq!(item.add_contract_on(booking(6, 6), 0), Ok(()));
    assert_eq!(*item.get_is_available(), true);
    assert_eq!(item.add_contract_on(booking(8, 2), 9), Err(SysError::AlreadyExists));
    assert_eq!(*item.get_is_available(), true);
    assert_eq!(spans(&item), vec![(6, 12)]);
    assert_eq!(item.add_contract_on(booking(12, 3), 12), Ok(()));
    assert_eq!(*item.get_is_available(), false);
    assert_eq!(item.add_contract_on(booking(20, 3), 19), Ok(()));
    assert_eq!(*item.get_is_available(), false);
    let mut other = game();
    assert_eq!(other.add_contract_on(booking(0, 10), 10), Ok(()));
    assert_eq!(*other.get_is_available(), true);
    assert_eq!(other.add_contract_on(booking(20, 1), 5), Ok(()));
    assert_eq!(*other.get_is_available(), false);
}
