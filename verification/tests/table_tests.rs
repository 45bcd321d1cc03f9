use telescope::data::AppData;
use telescope::messages::{CharacterSync, Message, SettingsPage, Type};
use telescope::table::{decimal_string, long_text, thick_row, Table, TableType};

#[test]
fn new_table_is_a_manual_clickable_grid() {
    let t = Table::new();
    assert!(t.table_type == TableType::Manual);
    assert!(t.striped && t.resizable && t.clickable);
    assert_eq!(t.num_rows, 0);
    assert!(t.headers.is_empty());
    assert!(t.selection.is_empty());
    assert!(!t.checked);
    assert!(t.scroll_to_row.is_none());
}

#[test]
fn add_header_ignores_empty_names() {
    let mut t = Table::new();
    t.add_header(String::from("System"));
    t.add_header(String::new());
    t.add_header(String::from("Region"));
    assert_eq!(t.headers, vec![String::from("System"), String::from("Region")]);
}

#[test]
fn row_selection_toggles_on_click() {
    let mut t = Table::new();
    t.toggle_row_selection(4, true);
    assert_eq!(t.selection, vec![4]);
    t.toggle_row_selection(2, true);
    assert!(t.selection.contains(&2) && t.selection.contains(&4));
    // A click on a selected row deselects it.
    t.toggle_row_selection(4, true);
    assert_eq!(t.selection, vec![2]);
    // No click, no change.
    t.toggle_row_selection(2, false);
    assert_eq!(t.selection, vec![2]);
}

#[test]
fn decimal_rendering_matches_formatting() {
    assert_eq!(decimal_string(0), "0");
    assert_eq!(decimal_string(7), "7");
    assert_eq!(decimal_string(10), "10");
    assert_eq!(decimal_string(12345), "12345");
    assert_eq!(decimal_string(u64::MAX), format!("{}", u64::MAX));
}

#[test]
fn row_text_carries_the_row_number() {
    assert_eq!(
        long_text(3),
        "Row 3 has some long text that you may want to clip, or it will take up too much horizontal space!"
    );
}

#[test]
fn every_sixth_row_is_thick() {
    assert!(thick_row(0));
    assert!(!thick_row(1));
    assert!(!thick_row(5));
    assert!(thick_row(6));
    assert!(thick_row(600));
}

#[test]
fn app_data_carries_the_fixed_scopes() {
    let d = AppData::new(String::from("client"), String::from("example-secret"));
    assert_eq!(d.client_id, "client");
    assert_eq!(d.secret_key, "example-secret");
    assert_eq!(d.url, "http://localhost:56123/login");
    assert_eq!(d.user_agent, "telescope/dev");
    assert_eq!(d.scope.len(), 8);
    assert_eq!(d.scope[0], "publicData");
    assert_eq!(d.scope[7], "esi-alliances.read_contacts.v1");
}

#[test]
fn message_variants_carry_their_payloads() {
    let m = Message::GenericNotification((
        Type::Warning,
        String::from("SdeManager"),
        String::from("get_system_coords"),
        String::from("system could not be located"),
    ));
    match m {
        Message::GenericNotification((kind, source, method, text)) => {
            assert!(matches!(kind, Type::Warning));
            assert_eq!(source, "SdeManager");
            assert_eq!(method, "get_system_coords");
            assert_eq!(text, "system could not be located");
        }
        _ => panic!("wrong variant"),
    }
    assert!(matches!(CharacterSync::Add(9), CharacterSync::Add(9)));
    assert!(SettingsPage::Intelligence == SettingsPage::Intelligence);
    assert!(SettingsPage::Intelligence != SettingsPage::DataSources);
}
