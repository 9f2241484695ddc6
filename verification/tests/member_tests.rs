use lending::errors::{Check, MemValError};
use lending::models::domain::member::{
    check_email, check_id, check_phone_nr, Member, MemberValidation,
};
use lending::models::uuid::Uuid;
use lending::types::Validate;

#[test]
fn member_tests_test_new_creation() {
    let name = "Bob".to_owned();
    let email = "bob@gmail.com".to_owned();
    let phone_nr = "40123456789".to_owned();
    let bob = Member::new(name, email, phone_nr, 0).ok().unwrap();
    assert_eq!(bob.get_name(), "Bob");
    assert_eq!(bob.get_email(), "bob@gmail.com");
    assert_eq!(bob.get_phone_nr(), "40123456789");
    assert_eq!(bob.get_credits(), &0);
}

#[test]
fn member_tests_test_builder_creation() {
    let name = "Bob".to_owned();
    let email = "bob@gmail.com".to_owned();
    let phone_nr = "40123456789".to_owned();
    let bob = Member::default()
        .name(name)
        .email(email)
        .phone_nr(phone_nr)
        .build();

    assert_eq!(bob.get_name(), "Bob");
    assert_eq!(bob.get_email(), "bob@gmail.com");
    assert_eq!(bob.get_phone_nr(), "40123456789");
    assert_eq!(bob.get_credits(), &0);
}

#[test]
fn test_partial_builder_creation() {
    let name = "Bob".to_owned();
    let email = "bob@gmail.com".to_owned();
    let phone_nr = "40123456789".to_owned();
    let bob = Member::default().name(name).build();

    assert_eq!(bob.get_name(), "Bob");
    assert_eq!(bob.get_email(), "");
    assert_eq!(bob.get_phone_nr(), "");
    assert_eq!(bob.get_credits(), &0);

    let bob1 = Member::default().email(email).build();

    assert_eq!(bob1.get_name(), "");
    assert_eq!(bob1.get_email(), "bob@gmail.com");
    assert_eq!(bob1.get_phone_nr(), "");
    assert_eq!(bob1.get_credits(), &0);

    let bob2 = Member::default().phone_nr(phone_nr).build();

    assert_eq!(bob2.get_name(), "");
    assert_eq!(bob2.get_email(), "");
    assert_eq!(bob2.get_phone_nr(), "40123456789");
    assert_eq!(bob2.get_credits(), &0);
}

#[test]
fn member_tests_test_default_creation() {
    let member = Member::default();
    assert_eq!(member.get_name(), &String::new());
    assert_eq!(member.get_email(), &String::new());
    assert_eq!(member.get_phone_nr(), &String::new());
    assert_eq!(member.get_credits(), &0);
    assert_eq!(member.get_uuid().get_len(), &6);
}

#[test]
fn test_invalid_email() {
    let allan = Member::default()
        .name("Allan".to_owned())
        .email("abc".to_owned())
        .phone_nr("4612312312".to_owned())
        .validate_and_build();

    assert_eq!(allan.is_err(), true);
}

#[test]
fn test_phone_nr_contains_str() {
    let allan = Member::default()
        .name("Allan".to_owned())
        .email("some.email@gmail.com".to_owned())
        .phone_nr("abc1298374".to_owned())
        .validate_and_build();

    assert_eq!(allan.is_err(), true);
}

#[test]
fn test_phone_nr_to_long() {
    let allan2 = Member::default()
        .name("Allan".to_owned())
        .email("some.email@gmail.com".to_owned())
        .phone_nr("098765789876567898765678".to_owned())
        .validate_and_build();

    assert_eq!(allan2.is_err(), true);
}

#[test]
fn test_phone_nr_to_short() {
    let allan3 = Member::default()
        .name("Allan".to_owned())
        .email("some.email@gmail.com".to_owned())
        .phone_nr("1234567".to_owned())
        .validate_and_build();

    assert_eq!(allan3.is_err(), true);
}

#[test]
fn test_adding_credits() {
    let mut allan = Member::default()
        .name("Allan".to_owned())
        .email("allan@turing.com".to_owned())
        .phone_nr("4609876543".to_owned())
        .validate_and_build()
        .ok()
        .unwrap();

    assert_eq!(*allan.get_credits(), 0);
    allan.add_credits(100).ok().unwrap();
    assert_eq!(*allan.get_credits(), 100);
}

#[test]
fn test_deducing_credits() {
    let mut allan = Member::default()
        .name("Allan".to_owned())
        .email("allan@turing.com".to_owned())
        .phone_nr("4609876543".to_owned())
        .validate_and_build()
        .ok()
        .unwrap();

    assert_eq!(*allan.get_credits(), 0);
    allan.add_credits(100).ok().unwrap();
    assert_eq!(*allan.get_credits(), 100);
    allan.deduce_credits(100).ok().unwrap();
    assert_eq!(*allan.get_credits(), 0);
}

#[test]
fn test_invalid_credit_input() {
    let mut allan = Member::default()
        .name("Allan".to_owned())
        .email("allan@turing.com".to_owned())
        .phone_nr("4609876543".to_owned())
        .validate_and_build()
        .ok()
        .unwrap();

    assert_eq!(allan.add_credits(-100).is_err(), true);
    assert_eq!(allan.deduce_credits(-100).is_err(), true);
    assert_eq!(allan.deduce_credits(100).is_err(), true);
}

fn valid_member() -> Member {
    Member::new(
        "Allan".to_owned(),
        "allan@turing.com".to_owned(),
        "4609876543".to_owned(),
        3,
    )
    .ok()
    .unwrap()
}

#[test]
fn credit_errors_name_their_cause_and_keep_the_balance() {
    let mut allan = valid_member();
    allan.add_credits(40).ok().unwrap();
    assert_eq!(allan.add_credits(-1), Err(MemValError::NegativeCreditInput));
    assert_eq!(*allan.get_credits(), 40);
    assert_eq!(allan.deduce_credits(-1), Err(MemValError::NegativeCreditInput));
    assert_eq!(*allan.get_credits(), 40);
    assert_eq!(allan.deduce_credits(41), Err(MemValError::DeduceAmountToHigh));
    assert_eq!(*allan.get_credits(), 40);
    assert_eq!(allan.deduce_credits(15), Ok(()));
    assert_eq!(*allan.get_credits(), 25);
    assert_eq!(allan.deduce_credits(25), Ok(()));
    assert_eq!(*allan.get_credits(), 0);
    assert_eq!(allan.add_credits(0), Ok(()));
    assert_eq!(*allan.get_credits(), 0);
}

#[test]
fn new_member_keeps_what_it_was_given() {
    let allan = valid_member();
    assert_eq!(allan.get_name(), "Allan");
    assert_eq!(allan.get_email(), "allan@turing.com");
    assert_eq!(allan.get_phone_nr(), "4609876543");
    assert_eq!(*allan.get_day_of_creation(), 3);
    assert_eq!(*allan.get_credits(), 0);
    assert_eq!(allan.get_uuid().get_value().chars().count(), 6);
}

#[test]
fn invalid_email_is_reported_first() {
    let r = Member::new("Allan".to_owned(), "abc".to_owned(), "x".to_owned(), 0);
    match r {
        Err(Check::Invalid(text)) => assert_eq!(text, "Email doesnt match any valid patterns."),
        _ => panic!("the email must be refused"),
    }
}

#[test]
fn phone_rules_are_told_apart() {
    assert_eq!(
        check_phone_nr("abc1298374", Some(true)),
        Err(MemValError::PhoneNumberContainsNonNumeric)
    );
    assert_eq!(check_phone_nr("12345678", Some(false)), Err(MemValError::PhoneNumberPattern));
    assert_eq!(check_phone_nr("12345678", None), Err(MemValError::PhoneNumberPattern));
    assert_eq!(check_phone_nr("1234567", Some(true)), Err(MemValError::PhoneNumber));
    assert_eq!(check_phone_nr("1234567890123", Some(true)), Err(MemValError::PhoneNumber));
    assert_eq!(check_phone_nr("12345678", Some(true)), Ok(()));
    assert_eq!(check_phone_nr("123456789012", Some(true)), Ok(()));
    assert_eq!(check_phone_nr("0123 456 789", Some(true)), Ok(()));
}

#[test]
fn phone_validation_uses_the_pattern() {
    let short = Member::default().phone_nr("1234567".to_owned());
    assert_eq!(short.validate_phone_nr(), Err(MemValError::PhoneNumberPattern));
    let long = Member::default().phone_nr("098765789876567898765678".to_owned());
    assert_eq!(long.validate_phone_nr(), Err(MemValError::PhoneNumber));
    let letters = Member::default().phone_nr("abc1298374".to_owned());
    assert_eq!(letters.validate_phone_nr(), Err(MemValError::PhoneNumberContainsNonNumeric));
    let fine = Member::default().phone_nr("0123456789".to_owned());
    assert_eq!(fine.validate_phone_nr(), Ok(()));
}

#[test]
fn email_validation_uses_the_pattern() {
    let bad = Member::default().email("abc".to_owned());
    assert_eq!(bad.validate_email(), Err(MemValError::EmailPattern));
    let upper = Member::default().email("ALLAN@ENIGMA.COM".to_owned());
    assert_eq!(upper.validate_email(), Err(MemValError::EmailPattern));
    let good = Member::default().email("some.email@gmail.com".to_owned());
    assert_eq!(good.validate_email(), Ok(()));
    assert_eq!(check_email(Some(true)), Ok(()));
    assert_eq!(check_email(Some(false)), Err(MemValError::EmailPattern));
    assert_eq!(check_email(None), Err(MemValError::EmailPattern));
}

#[test]
fn id_rules_are_told_apart() {
    assert_eq!(check_id(&Uuid::from_parts(6, "abc123".to_owned())), Ok(()));
    assert_eq!(check_id(&Uuid::from_parts(5, "abc12".to_owned())), Err(MemValError::Id));
    assert_eq!(check_id(&Uuid::empty()), Err(MemValError::Id));
    assert_eq!(check_id(&Uuid::from_parts(6, "abc".to_owned())), Err(MemValError::Id));
    assert_eq!(check_id(&Uuid::from_parts(6, "abc1234".to_owned())), Err(MemValError::Id));
    assert_eq!(
        check_id(&Uuid::from_parts(6, "abc-12".to_owned())),
        Err(MemValError::IdContainsNonAlphaNumeric)
    );
    let odd = Member::default().uuid(Uuid::from_parts(6, "ab 123".to_owned()));
    assert_eq!(odd.validate_id(), Err(MemValError::IdContainsNonAlphaNumeric));
}

#[test]
fn members_are_the_same_person_by_email_or_phone() {
    let a = Member::default().email("a@b.com".to_owned()).phone_nr("11111111".to_owned());
    let b = Member::default().email("a@b.com".to_owned()).phone_nr("22222222".to_owned());
    let c = Member::default().email("c@b.com".to_owned()).phone_nr("11111111".to_owned());
    let d = Member::default().email("d@b.com".to_owned()).phone_nr("33333333".to_owned());
    assert!(a == b);
    assert!(a == c);
    assert!(a != d);
    assert!(b != c);
}

#[test]
fn error_messages() {
    assert_eq!(MemValError::Id.message(), "Invalid Id");
    assert_eq!(
        MemValError::NegativeCreditInput.message(),
        "Tried adding/substracting negative amount of credits."
    );
    assert_eq!(Check::Invalid("x".to_owned()).message(), "x");
    assert_eq!(Check::Valid.message(), "Ok");
}

#[test]
fn test_explicit_creation() {
    let name = "Bob".to_owned();
    let email = "bob@gmail.com".to_owned();
    let phone_nr = "40123456789".to_owned();
    let credits = 200;
    let bob = Member::default()
        .name(name)
        .email(email)
        .phone_nr(phone_nr)
        .credits(credits)
        .build();
    assert_eq!(*bob.get_name(), "Bob".to_owned());
    assert_eq!(*bob.get_email(), "bob@gmail.com".to_owned());
    assert_eq!(*bob.get_phone_nr(), "40123456789".to_owned());
    assert_eq!(*bob.get_credits(), 200);
}

#[test]
fn member_test_default_creation() {
    let member = Member::default();
    assert_eq!(*member.get_name(), String::default());
    assert_eq!(*member.get_email(), String::default());
    assert_eq!(*member.get_phone_nr(), String::default());
    assert_eq!(*member.get_credits(), u64::default());
}
