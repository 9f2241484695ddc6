use lending::models::domain::member::Member;
use lending::models::uuid::Uuid;
use lending::views::console::{cell_text, on_key, PageAction};
use lending::views::contract_view::ContractOption;
use lending::views::item_view::ItemMenuOption;
use lending::views::main_view::MainMenuOption;
use lending::views::member_view::MemberMenuOption;
use lending::views::simulator_view::SimulatorOption;
use lending::views::Options;

#[test]
fn main_menu_options() {
    assert_eq!(
        MainMenuOption::options(),
        vec!["MembersPage", "ItemsPage", "ContractsPage", "Simulator", "Quit"]
    );
    assert_eq!(MainMenuOption::from_choice(0), MainMenuOption::MembersPage);
    assert_eq!(MainMenuOption::from_choice(1), MainMenuOption::ItemsPage);
    assert_eq!(MainMenuOption::from_choice(2), MainMenuOption::ContractsPage);
    assert_eq!(MainMenuOption::from_choice(3), MainMenuOption::Simulator);
    assert_eq!(MainMenuOption::from_choice(4), MainMenuOption::Quit);
    assert_eq!(MainMenuOption::from_choice(5), MainMenuOption::Other);
    assert_eq!(MainMenuOption::from_choice(usize::MAX), MainMenuOption::Other);
    assert_eq!(MainMenuOption::from_text("Quit"), MainMenuOption::Quit);
    assert_eq!(MainMenuOption::from_text("quit"), MainMenuOption::Other);
    assert_eq!(MainMenuOption::Simulator.to_text(), "Simulator");
    assert_eq!(
        MainMenuOption::ItemsPage.as_tuple(),
        ("ItemsPage".to_owned(), MainMenuOption::ItemsPage)
    );
}

#[test]
fn every_menu_names_its_options_in_order() {
    let members = MemberMenuOption::options();
    assert_eq!(members.len(), 9);
    for (place, name) in members.iter().enumerate() {
        let option = MemberMenuOption::from_choice(place);
        assert_eq!(&option.to_text(), name);
        assert_eq!(MemberMenuOption::from_text(name), option);
    }
    assert_eq!(MemberMenuOption::from_choice(9), MemberMenuOption::Other);
    let items = ItemMenuOption::options();
    assert_eq!(
        items,
        vec!["DisplayItemInfo", "EditItemInfo", "CreateItem", "DeleteItem", "Back", "Quit"]
    );
    for (place, name) in items.iter().enumerate() {
        assert_eq!(&ItemMenuOption::from_choice(place).to_text(), name);
    }
    assert_eq!(ItemMenuOption::from_choice(6), ItemMenuOption::Other);
    let contracts = ContractOption::options();
    assert_eq!(
        contracts,
        vec!["DisplayContractSimple", "CreateContract", "EditContract", "Back", "Quit"]
    );
    assert_eq!(ContractOption::from_choice(1), ContractOption::CreateContract);
    assert_eq!(ContractOption::from_text("Other"), ContractOption::Other);
    assert_eq!(SimulatorOption::options(), vec!["IncrDay", "Back", "Quit"]);
    assert_eq!(SimulatorOption::from_choice(0), SimulatorOption::IncrDay);
    assert_eq!(SimulatorOption::from_choice(3), SimulatorOption::Other);
    assert_eq!(
        SimulatorOption::Other.as_tuple(),
        ("Other".to_owned(), SimulatorOption::Other)
    );
}

#[test]
fn keys_on_a_page() {
    assert_eq!(on_key('3', 0, 2, 10), PageAction::Select(3));
    assert_eq!(on_key('3', 1, 2, 4), PageAction::Select(13));
    assert_eq!(on_key('4', 1, 2, 4), PageAction::Stay);
    assert_eq!(on_key('0', usize::MAX, 1, 1), PageAction::Stay);
    assert_eq!(on_key('n', 0, 2, 10), PageAction::Show(1));
    assert_eq!(on_key('n', 1, 2, 4), PageAction::Stay);
    assert_eq!(on_key('p', 1, 2, 4), PageAction::Show(0));
    assert_eq!(on_key('p', 0, 2, 10), PageAction::Stay);
    assert_eq!(on_key('q', 0, 2, 10), PageAction::Quit);
    assert_eq!(on_key('e', 0, 2, 10), PageAction::Back);
    assert_eq!(on_key(' ', 0, 2, 10), PageAction::Stay);
    assert_eq!(on_key('x', 0, 2, 10), PageAction::Stay);
}

#[test]
fn cells_of_a_table() {
    let id = Uuid::from_parts(6, "abc123".to_owned());
    let member = Member::default().name("Allan".to_owned()).uuid(id.clone());
    assert_eq!(cell_text("uuid", id.to_text().as_str()), "abc123");
    assert_eq!(cell_text("uuid", "broken"), "broken");
    assert_eq!(cell_text("owner", member.to_text().as_str()), "Allan");
    assert_eq!(cell_text("lendee", member.to_text().as_str()), "Allan");
    assert_eq!(cell_text("owner", "nobody"), "nobody");
    assert_eq!(cell_text("history", "-"), "None");
    assert_eq!(cell_text("history", "[[owner,x]]"), "...");
    assert_eq!(cell_text("name", "Monopoly"), "Monopoly");
}
