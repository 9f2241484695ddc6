use lending::errors::{LendError, SysError};
use lending::models::domain::contract::Status;
use lending::models::domain::item::{Category, Item};
use lending::models::domain::member::Member;
use lending::models::domain::system::{LendingSystem, System};
use lending::models::domain::time::{Listenable, Listener, Time};
use lending::models::vec_wrapper::VecWrapper;
use lending::types::Model;

fn member(name: &str, email: &str, phone: &str) -> Member {
    Member::new(name.to_owned(), email.to_owned(), phone.to_owned(), 0).unwrap()
}

fn store() -> (System, Member, Member, Item) {
    let mut system = System::new();
    let allan = member("Allan", "allan@enigma.com", "0123456789");
    let tina = member("Tina", "tina@somethingelse.com", "01234543210");
    system.add_member(allan.clone()).unwrap();
    system.add_member(tina.clone()).unwrap();
    let item = Item::new(
        "Monopoly".to_owned(),
        "Family Game".to_owned(),
        Category::Game,
        allan.clone(),
        30,
        0,
    );
    system.add_item(item.clone()).unwrap();
    (system, allan, tina, item)
}

#[test]
fn a_loan_is_priced_and_stored() {
    let (mut system, allan, tina, item) = store();
    let lent = system.lend(&item, &tina, 6, 6).unwrap();
    let history = lent.get_history().to_vec();
    assert_eq!(history.len(), 1);
    assert_eq!(*history[0].get_start_date(), 6);
    assert_eq!(*history[0].get_end_date(), 12);
    assert_eq!(*history[0].get_contract_len(), 6);
    assert_eq!(*history[0].get_credits(), 180);
    assert_eq!(*history[0].get_status(), Status::Future);
    assert_eq!(history[0].get_owner().get_name(), allan.get_name());
    assert_eq!(history[0].get_lendee().get_name(), tina.get_name());
    assert_eq!(system.get_item(&item).unwrap().get_history().len(), 1);
    assert!(system.get_contract(&history[0]).is_ok());
}

#[test]
fn refused_loans_change_nothing() {
    let (mut system, allan, tina, item) = store();
    assert!(system.lend(&item, &allan, 6, 6) == Err(LendError::OwnItem));
    assert!(system.lend(&item, &tina, usize::MAX, 1) == Err(LendError::TooLong));
    let dear = item.clone().cost_per_day(u64::MAX);
    assert!(system.lend(&dear, &tina, 0, 2) == Err(LendError::TooLong));
    let lent = system.lend(&item, &tina, 6, 6).unwrap();
    assert!(system.lend(&lent, &tina, 8, 2) == Err(LendError::Booked));
    let stranger = Item::new("x".to_owned(), "".to_owned(), Category::Other, allan.clone(), 1, 0);
    assert!(system.lend(&stranger, &tina, 0, 1) == Err(LendError::NotStored));
    assert_eq!(system.get_item(&item).unwrap().get_history().len(), 1);
    assert!(system.get_item(&stranger) == Err(SysError::DoesntExist));
    assert_eq!(LendError::OwnItem.message(), "Cannot lend to yourself.");
    assert_eq!(LendError::Booked.message(), "Item already booked during that period.");
}

#[test]
fn a_free_loan_and_a_loan_of_no_days() {
    let (mut system, _allan, tina, item) = store();
    let free = item.clone().cost_per_day(0);
    system.update_item(&free).unwrap();
    assert!(system.lend(&free, &tina, 3, 0) == Err(LendError::NoDays));
    let lent = system.lend(&free, &tina, 3, 1).unwrap();
    let history = lent.get_history().to_vec();
    assert_eq!(*history[0].get_credits(), 0);
    assert_eq!(*history[0].get_end_date(), 4);
    assert_eq!(LendError::NoDays.message(), "A contract lasts at least one day.");
}

#[test]
fn a_copy_of_the_store_is_its_own() {
    let (system, allan, _tina, item) = store();
    let mut copy = system.clone();
    copy.incr_time();
    copy.remove_item(&item).unwrap();
    copy.remove_member(&allan).unwrap();
    assert_eq!(system.now(), 0);
    assert_eq!(copy.now(), 1);
    assert_eq!(system.get_items().len(), 1);
    assert_eq!(copy.get_items().len(), 0);
    assert_eq!(system.get_members().len(), 2);
    assert_eq!(copy.get_members().len(), 1);
}

#[test]
fn vec_wrapper_keeps_order_and_length() {
    let mut w: VecWrapper<u32> = VecWrapper::new();
    assert_eq!(w.is_empty(), true);
    assert_eq!(w.len(), 0);
    for x in [3, 1, 4, 1, 5] {
        w.push(x);
    }
    assert_eq!(w.len(), 5);
    assert_eq!(w.len, 5);
    assert_eq!(w.index_of(&1), Some(1));
    assert_eq!(w.index_of(&9), None);
    assert_eq!(w.get(&4), Some(&4));
    assert_eq!(w.get(&9), None);
    assert_eq!(w.remove(1), Some(1));
    assert_eq!(w.to_vec(), vec![3, 4, 1, 5]);
    assert_eq!(w.len, 4);
    assert_eq!(w.remove(9), None);
    assert_eq!(w.to_vec(), vec![3, 4, 1, 5]);
    w.set(0, &7);
    assert_eq!(w.to_vec(), vec![7, 4, 1, 5]);
    assert_eq!(w.iter().copied().collect::<Vec<u32>>(), vec![7, 4, 1, 5]);
    assert_eq!(w.is_empty(), false);
    let copy = w.clone();
    assert_eq!(copy.to_vec(), w.to_vec());
    assert_eq!(copy.len, 4);
    let d: VecWrapper<u32> = VecWrapper::default();
    assert_eq!(d.len(), 0);
}

#[derive(Debug, Clone, PartialEq, Eq)]
struct Watch {
    name: u8,
    day: usize,
}

impl Model for Watch {}

impl Listener<usize> for Watch {
    fn notify(&mut self, new: usize) {
        self.day = new;
    }

    fn pull(&self) -> usize {
        self.day
    }
}

#[test]
fn time_tells_its_listeners() {
    let a = Watch { name: 1, day: 0 };
    let b = Watch { name: 2, day: 0 };
    let mut time = Time::new(vec![a.clone()], 4);
    time.add_listener(b.clone());
    assert_eq!(time.index_of(&b), Some(1));
    time.incr_day();
    time.notify_listeners();
    let told = Watch { name: 2, day: 5 };
    assert_eq!(time.index_of(&b), None);
    assert_eq!(time.index_of(&told), Some(1));
    assert_eq!(time.pop_listener(told.clone()), Some(told.clone()));
    assert_eq!(time.pop_listener(told.clone()), None);
    assert_eq!(time.index_of(&Watch { name: 1, day: 5 }), Some(0));
    assert_eq!(told.pull(), 5);
}

#[test]
fn vec_wrappers_compare_value_by_value() {
    let mut a: VecWrapper<u32> = VecWrapper::new();
    let mut b: VecWrapper<u32> = VecWrapper::new();
    assert!(a == b);
    a.push(1);
    assert!(a != b);
    b.push(1);
    assert!(a == b);
    a.push(2);
    b.push(3);
    assert!(a != b);
}

#[test]
fn a_loan_that_holds_today_ends_availability() {
    let (mut system, _allan, tina, item) = store();
    let later = system.lend(&item, &tina, 6, 6).unwrap();
    assert_eq!(*later.get_is_available(), true);
    let today = system.lend(&later, &tina, 0, 6).unwrap();
    assert_eq!(*today.get_is_available(), false);
    assert_eq!(*system.get_item(&item).unwrap().get_is_available(), false);
    assert_eq!(today.get_history().len(), 2);
}

#[test]
fn a_loan_from_today_on_a_new_store() {
    let (mut system, _allan, tina, item) = store();
    assert_eq!(system.now(), 0);
    let lent = system.lend(&item, &tina, 0, 10).unwrap();
    assert_eq!(*lent.get_is_available(), false);
}

#[test]
fn a_loan_that_ends_today_leaves_the_flag() {
    let (mut system, _allan, tina, item) = store();
    for _ in 0..10 {
        system.incr_time();
    }
    let lent = system.lend(&item, &tina, 0, 10).unwrap();
    assert_eq!(*lent.get_is_available(), true);
    let next = system.lend(&lent, &tina, 10, 1).unwrap();
    assert_eq!(*next.get_is_available(), false);
}
