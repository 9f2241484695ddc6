use lending::errors::SysError;
use lending::models::domain::contract::Contract;
use lending::models::domain::item::{Category, Item};
use lending::models::domain::member::Member;
use lending::models::domain::system::{Demo, LendingSystem, System};

#[test]
fn system_tests_test_add_member() {
    let allan = Member::new(
        "Allan".to_owned(),
        "allan@enigma.com".to_owned(),
        "0123456789".to_owned(),
        0,
    )
    .expect("Should not fail");
    let mut system = System::new();
    let r1 = system.add_member(allan);
    assert_eq!(r1, Ok(()));
}

#[test]
fn test_add_member_duplicate_email() {
    let allan = Member::new(
        "Allan".to_owned(),
        "allan@enigma.com".to_owned(),
        "0123456789".to_owned(),
        0,
    )
    .expect("Should not fail");

    let turing1 = Member::new(
        "Turing".to_owned(),
        "allan@enigma.com".to_owned(),
        "012345678901".to_owned(),
        0,
    )
    .expect("Should not fail.");

    let mut system = System::new();
    let r0 = system.add_member(allan);
    assert_eq!(r0, Ok(()));
    let r1 = system.add_member(turing1);
    assert_eq!(r1, Err(SysError::AlreadyExists));
}

#[test]
fn test_add_member_duplicate_phone_nr() {
    let allan = Member::new(
        "Allan".to_owned(),
        "allan@enigma.com".to_owned(),
        "0123456789".to_owned(),
        0,
    )
    .expect("Should not fail");

    let turing2 = Member::new(
        "Turing".to_owned(),
        "turing@enigma.com".to_owned(),
        "0123456789".to_owned(),
        0,
    )
    .expect("Should not fail.");

    let mut system = System::new();
    let r0 = system.add_member(allan);
    assert_eq!(r0, Ok(()));
    let r1 = system.add_member(turing2);
    assert_eq!(r1, Err(SysError::AlreadyExists));
}

#[test]
fn test_multiple_validd_members() {
    let mut system = System::new();
    let allan = Member::new(
        "Allan".to_owned(),
        "allan@enigma.com".to_owned(),
        "0123456789".to_owned(),
        system.now(),
    )
    .expect("Should not fail");
    let turing1 = Member::new(
        "Turing".to_owned(),
        "allan@somethingelse.com".to_owned(),
        "01234543210".to_owned(),
        system.now(),
    )
    .expect("Should not fail.");
    let turing2 = Member::new(
        "Turing".to_owned(),
        "turing2@enigma.com".to_owned(),
        "9876567890".to_owned(),
        system.now(),
    )
    .expect("Should not fail.");
    let turing3 = Member::new(
        "Turing".to_owned(),
        "another@turing.com".to_owned(),
        "0987654321".to_owned(),
        system.now(),
    )
    .expect("Should not fail.");

    let r1 = system.add_member(allan);
    assert_eq!(r1, Ok(()));

    let r2 = system.add_member(turing1);
    assert_eq!(r2, Ok(()));

    let r3 = system.add_member(turing2);
    assert_eq!(r3, Ok(()));

    let r4 = system.add_member(turing3);
    assert_eq!(r4, Ok(()));
}

#[test]
fn system_tests_test_exists_member() {
    let turing: Member = Member::new(
        "Turing".to_owned(),
        "turing@enigma.com".to_owned(),
        "0123456789".to_owned(),
        0,
    )
    .expect("Should not fail.");

    let allan = Member::new(
        "Allan".to_owned(),
        "allan@enigma.com".to_owned(),
        "1235678999".to_owned(),
        0,
    )
    .expect("Should not fail.");

    let mut system = System::new();
    system
        .add_member(turing.clone())
        .expect("failed to add member");

    let r1 = system.exists_member(&turing);
    assert_eq!(r1, true);

    let r2 = system.exists_member(&allan);
    assert_eq!(r2, false);
}

#[test]
fn system_tests_test_remove_member() {
    let turing = Member::new(
        "Turing".to_owned(),
        "turing@enigma.com".to_owned(),
        "12345678909".to_owned(),
        0,
    )
    .expect("Should not fail.");

    let mut system = System::new();
    system
        .add_member(turing.clone())
        .expect("failed to add member");

    let r1 = system.exists_member(&turing);
    assert_eq!(r1, true);

    match system.remove_member(&turing) {
        Ok(_) => {}
        Err(_) => assert!(false),
    }

    let r2 = system.exists_member(&turing);
    assert_eq!(r2, false);
}

#[test]
fn system_tests_test_create_item() {
    let turing = Member::new(
        "Turing".to_owned(),
        "turing@enigma.com".to_owned(),
        "01234567890".to_owned(),
        0,
    )
    .expect("Should not fail.");

    let item = Item::new(
        "Monopoly".to_owned(),
        "A beautiful Family Game.".to_owned(),
        Category::Game,
        turing.clone(),
        20,
        0,
    );

    let mut system = System::new();
    system
        .add_member(turing.clone())
        .expect("failed to add member");

    let r1 = system.add_item(item);
    assert_eq!(r1, Ok(()))
}

#[test]
fn system_tests_test_exists_item() {
    let turing = Member::new(
        "Turing".to_owned(),
        "turing@enigma.com".to_owned(),
        "1234567890".to_owned(),
        0,
    )
    .expect("Should not fail.");

    let item = Item::new(
        "Monopoly".to_owned(),
        "A beautiful Family Game.".to_owned(),
        Category::Game,
        turing.clone(),
        20,
        0,
    );

    let mut system = System::new();
    system
        .add_member(turing.clone())
        .expect("failed to add member");

    let r1 = system.add_item(item.clone());
    assert_eq!(r1, Ok(()));

    let r2 = system.get_item(&item);
    println!("{:#?}", system.get_items());
    assert_eq!(r2.is_ok(), true);
}

#[test]
fn system_tests_test_delete_item() {
    let turing = Member::new(
        "Turing".to_owned(),
        "turing@enigma.com".to_owned(),
        "1234567890".to_owned(),
        0,
    )
    .expect("Should not fail.");

    let item = Item::new(
        "Monopoly".to_owned(),
        "A beautiful Family Game.".to_owned(),
        Category::Game,
        turing.clone(),
        20,
        0,
    );

    let mut system = System::new();
    system
        .add_member(turing.clone())
        .expect("failed to add member");

    let r1 = system.add_item(item.clone());
    assert_eq!(r1, Ok(()));

    let r2 = system.remove_item(&item);
    assert_eq!(r2, Ok(()));
}

fn plain_member(name: &str, email: &str, phone: &str) -> Member {
    Member::default()
        .name(name.to_owned())
        .email(email.to_owned())
        .phone_nr(phone.to_owned())
        .build()
}

#[test]
fn system_test_add_member() {
    let allan = plain_member("Allan", "allan@enigma.com", "123456");
    let turing1 = plain_member("Turing", "allan@enigma.com", "123");
    let turing2 = plain_member("Turing", "turing@enigma.com", "123456");
    let turing3 = plain_member("Turing", "turing@enigma.com", "123");

    let mut system = System::new();
    let r1 = system.add_member(allan);
    assert_eq!(r1, Ok(()));
    println!("1");

    let r2 = system.add_member(turing1);
    assert_eq!(r2, Err(SysError::AlreadyExists));
    println!("2");

    let r3 = system.add_member(turing2);
    assert_eq!(r3, Err(SysError::AlreadyExists));
    println!("3");

    let r4 = system.add_member(turing3);
    assert_eq!(r4, Ok(()));
    println!("4");
}

#[test]
fn system_test_exists_member() {
    let turing = plain_member("Turing", "turing@enigma.com", "123");
    let allan = plain_member("Allan", "allan@enigma.com", "123567");

    let mut system = System::new();
    system
        .add_member(turing.clone())
        .expect("failed to add member");

    let r1 = system.exists_member(&turing);
    assert_eq!(r1, true);

    let r2 = system.exists_member(&allan);
    assert_eq!(r2, false);
}

#[test]
fn system_test_remove_member() {
    let turing = plain_member("Turing", "turing@enigma.com", "123");

    let mut system = System::new();
    system
        .add_member(turing.clone())
        .expect("failed to add member");

    let r1 = system.exists_member(&turing);
    assert_eq!(r1, true);

    match system.remove_member(&turing) {
        Ok(_) => {}
        Err(_) => assert!(false),
    }

    let r2 = system.exists_member(&turing);
    assert_eq!(r2, false);
}

#[test]
fn system_test_create_item() {
    let turing = plain_member("Turing", "turing@enigma.com", "123");

    let item = Item::default()
        .name("Monopoly".to_owned())
        .description("A beautiful Family Game.".to_owned())
        .cost_per_day(20)
        .category(Category::Game)
        .owner(turing.clone());

    let mut system = System::new();
    system
        .add_member(turing.clone())
        .expect("failed to add member");

    let r1 = system.add_item(item);
    assert_eq!(r1, Ok(()))
}

#[test]
fn system_test_exists_item() {
    let turing = plain_member("Turing", "turing@enigma.com", "123");

    let item = Item::default()
        .name("Monopoly".to_owned())
        .description("A beautiful Family Game.".to_owned())
        .cost_per_day(20)
        .category(Category::Game)
        .owner(turing.clone());

    let mut system = System::new();
    system
        .add_member(turing.clone())
        .expect("failed to add member");

    let r1 = system.add_item(item.clone());
    assert_eq!(r1, Ok(()));
}

#[test]
fn system_test_delete_item() {
    let turing = plain_member("Turing", "turing@enigma.com", "123");

    let item = Item::default()
        .name("Monopoly".to_owned())
        .description("A beautiful Family Game.".to_owned())
        .cost_per_day(20)
        .category(Category::Game)
        .owner(turing.clone());

    let mut system = System::new();
    system
        .add_member(turing.clone())
        .expect("failed to add member");

    let r1 = system.add_item(item.clone());
    assert_eq!(r1, Ok(()));

    let r2 = system.remove_item(&item);
    assert_eq!(r2, Ok(()));
}

fn allan() -> Member {
    Member::new(
        "Allan".to_owned(),
        "allan@enigma.com".to_owned(),
        "0123456789".to_owned(),
        0,
    )
    .expect("Should not fail")
}

fn tina() -> Member {
    Member::new(
        "Tina".to_owned(),
        "tina@somethingelse.com".to_owned(),
        "01234543210".to_owned(),
        0,
    )
    .expect("Should not fail")
}

#[test]
fn lending_scenario() {
    let mut system = System::new();
    let allan = allan();
    let tina = tina();
    assert_eq!(system.add_member(allan.clone()), Ok(()));
    assert_eq!(system.add_member(tina.clone()), Ok(()));

    let mut monopoly = Item::new(
        "Monopoly".to_owned(),
        "Family Game".to_owned(),
        Category::Game,
        allan.clone(),
        30,
        system.now(),
    );
    assert_eq!(system.add_item(monopoly.clone()), Ok(()));
    assert_eq!(*system.get_member(&allan).unwrap().get_credits(), 100);
    assert_eq!(*system.get_member(&tina).unwrap().get_credits(), 0);
    assert_eq!(*monopoly.get_owner().get_credits(), 0);

    let first = Contract::new(allan.clone(), tina.clone(), 6, 6, 30 * 6);
    assert_eq!(*first.get_end_date(), 12);
    assert_eq!(*first.get_credits(), 180);
    assert_eq!(monopoly.add_contract(first.clone()), Ok(()));
    assert!(monopoly.get_contract_in_period(&6, &12) == Some(first.clone()));

    let second = Contract::new(allan.clone(), tina.clone(), 8, 2, 30 * 2);
    assert_eq!(*second.get_end_date(), 10);
    assert_eq!(monopoly.add_contract(second.clone()), Err(SysError::AlreadyExists));
    assert_eq!(monopoly.get_history().len(), 1);

    assert_eq!(system.update_item(&monopoly), Ok(()));
    assert!(system.get_contract(&first) == Ok(first.clone()));
    assert!(system.get_contract(&second) == Err(SysError::DoesntExist));
    assert!(system.get_item_for_contract(&first) == Ok(&monopoly));
    assert!(system.get_item_for_contract(&second) == Err(SysError::DoesntExist));
    assert_eq!(system.get_item(&monopoly).unwrap().get_history().len(), 1);
}

#[test]
fn the_clock_starts_at_zero_and_counts_days() {
    let mut system = System::new();
    assert_eq!(system.now(), 0);
    for _ in 0..5 {
        system.incr_time();
    }
    assert_eq!(system.now(), 5);
}

#[test]
fn a_member_with_a_known_identity_is_refused() {
    let mut system = System::new();
    let allan = allan();
    system.add_member(allan.clone()).unwrap();
    let twin = tina().uuid(allan.get_uuid().clone());
    assert_eq!(system.exists_member(&twin), true);
    assert_eq!(system.add_member(twin), Err(SysError::AlreadyExists));
    assert_eq!(system.get_members().len(), 1);
}

#[test]
fn member_errors() {
    let mut system = System::new();
    let allan = allan();
    let tina = tina();
    assert!(system.get_member(&allan) == Err(SysError::DoesntExist));
    assert_eq!(system.remove_member(&allan), Err(SysError::DoesntExist));
    assert_eq!(system.update_member(&allan, &tina), Err(SysError::DoesntExist));
    system.add_member(allan.clone()).unwrap();
    assert_eq!(system.remove_member(&tina), Err(SysError::DoesntExist));
    assert_eq!(system.get_members().len(), 1);
}

#[test]
fn update_member_replaces_the_record() {
    let mut system = System::new();
    let allan = allan();
    system.add_member(allan.clone()).unwrap();
    let renamed = allan.clone().name("Alan".to_owned()).credits(7);
    assert_eq!(system.update_member(&allan, &renamed), Ok(()));
    let stored = system.get_member(&allan).unwrap();
    assert_eq!(stored.get_name(), "Alan");
    assert_eq!(*stored.get_credits(), 7);
    assert_eq!(system.get_members().len(), 1);
}

#[test]
fn item_errors_leave_the_store_as_it_was() {
    let mut system = System::new();
    let allan = allan();
    let orphan = Item::new("Hammer".to_owned(), "A tool".to_owned(), Category::Tool, allan.clone(), 5, 0);
    assert_eq!(system.add_item(orphan.clone()), Err(SysError::CannotUpdate));
    assert_eq!(system.get_items().len(), 0);
    assert_eq!(system.remove_item(&orphan), Err(SysError::CannotDelete));
    assert_eq!(system.update_item(&orphan), Err(SysError::CannotUpdate));
    assert!(system.get_item(&orphan) == Err(SysError::DoesntExist));

    system.add_member(allan.clone()).unwrap();
    assert_eq!(system.add_item(orphan.clone()), Ok(()));
    assert_eq!(system.add_item(orphan.clone()), Err(SysError::AlreadyExists));
    assert_eq!(system.get_items().len(), 1);
    assert_eq!(*system.get_member(&allan).unwrap().get_credits(), 100);
}

#[test]
fn a_full_balance_refuses_the_bonus() {
    let mut system = System::new();
    let rich = allan().credits(u64::MAX - 99);
    system.add_member(rich.clone()).unwrap();
    let item = Item::new("Hammer".to_owned(), "A tool".to_owned(), Category::Tool, rich.clone(), 5, 0);
    assert_eq!(system.add_item(item.clone()), Err(SysError::CannotUpdate));
    assert_eq!(system.get_items().len(), 0);
    assert_eq!(*system.get_member(&rich).unwrap().get_credits(), u64::MAX - 99);

    let mut other = System::new();
    let nearly = tina().credits(u64::MAX - 100);
    other.add_member(nearly.clone()).unwrap();
    let toy = Item::new("T-Rex".to_owned(), "Dinosaur".to_owned(), Category::Toy, nearly.clone(), 5, 0);
    assert_eq!(other.add_item(toy), Ok(()));
    assert_eq!(*other.get_member(&nearly).unwrap().get_credits(), u64::MAX);
}

#[test]
fn items_of_a_member_are_found_by_owner() {
    let mut system = System::new();
    let allan = allan();
    let tina = tina();
    system.add_member(allan.clone()).unwrap();
    system.add_member(tina.clone()).unwrap();
    for (name, owner) in vec![("a", &allan), ("b", &tina), ("c", &allan)] {
        let item = Item::new(name.to_owned(), "".to_owned(), Category::Other, owner.clone(), 1, 0);
        system.add_item(item).unwrap();
    }
    assert_eq!(system.count_items_for_member(&allan), 2);
    assert_eq!(system.count_items_for_member(&tina), 1);
    let names: Vec<String> = system
        .get_items_for_member(&allan)
        .iter()
        .map(|i| i.get_name().clone())
        .collect();
    assert_eq!(names, vec!["a".to_owned(), "c".to_owned()]);
    assert_eq!(system.get_items().len(), 3);
    assert_eq!(*system.get_member(&allan).unwrap().get_credits(), 200);
}

#[test]
fn the_demonstration_fills_an_empty_store() {
    let mut system = System::new();
    system.init_demo();
    assert_eq!(system.now(), 0);
    let members = system.get_members();
    assert_eq!(members.len(), 4);
    let names: Vec<&str> = members.iter().map(|m| m.get_name().as_str()).collect();
    assert_eq!(names, vec!["Allan", "Tina", "Turing", "Jeff"]);
    let credits: Vec<u64> = members.iter().map(|m| *m.get_credits()).collect();
    assert_eq!(credits, vec![200, 0, 200, 0]);
    let items = system.get_items();
    assert_eq!(items.len(), 4);
    let lens: Vec<usize> = items.iter().map(|i| i.get_history().len()).collect();
    assert_eq!(lens, vec![1, 2, 0, 0]);
    assert_eq!(lens.iter().sum::<usize>(), 3);
    assert_eq!(*items[1].get_history().to_vec()[1].get_credits(), 1500);
    let allan = members
        .iter()
        .find(|m| m.get_email() == "allan@enigma.com")
        .unwrap();
    assert_eq!(*allan.get_credits(), 200);
}

#[test]
fn seeding_leaves_out_what_the_store_refuses() {
    let mut system = System::new();
    let allan = allan();
    let twin = tina().email("allan@enigma.com".to_owned());
    let members = vec![allan.clone(), twin, tina()];
    let items = vec![
        Item::new("a".to_owned(), "".to_owned(), Category::Other, allan.clone(), 1, 0),
        Item::new("b".to_owned(), "".to_owned(), Category::Other, Member::default(), 1, 0),
    ];
    system.seed(&members, &items);
    assert_eq!(system.get_members().len(), 2);
    assert_eq!(system.get_items().len(), 1);
}

#[test]
fn a_stored_member_can_be_changed_in_place() {
    let mut system = System::new();
    let allan = allan();
    let tina = tina();
    system.add_member(allan.clone()).unwrap();
    assert!(system.get_member_mut(&tina).is_err());
    {
        let stored = system.get_member_mut(&allan).unwrap();
        stored.add_credits(42).unwrap();
    }
    assert_eq!(*system.get_member(&allan).unwrap().get_credits(), 42);
    assert_eq!(system.get_members().len(), 1);
}
