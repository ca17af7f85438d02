use greedy_tv::record::{ServiceRecord, ServiceType};
use greedy_tv::registry::ServiceRegistry;
use greedy_tv::render::{
    get_symbol_for_index, header_glyph, DetailLine, Field, FieldValue, HeaderGlyph, SelectionMark,
};
use greedy_tv::screen::{dispatch, Key, ListScreen, Step, ViewDiscoveryScreen, ViewState};

fn record(name: &str, port: u16) -> ServiceRecord {
    ServiceRecord {
        name: name.to_string(),
        host_name: format!("{}.local", name),
        address: format!("10.0.0.{}", port),
        port,
        service_type: ServiceType {
            name: "airplay".to_string(),
            protocol: "tcp".to_string(),
            sub_types: vec![],
        },
        txt: None,
    }
}

fn registry_of(names: &[&str]) -> ServiceRegistry {
    let mut reg = ServiceRegistry::new();
    for (i, n) in names.iter().enumerate() {
        reg.append(record(n, i as u16 + 1));
    }
    reg
}

fn detail(r: ServiceRecord) -> ViewState {
    ViewState::DetailView(ViewDiscoveryScreen { discovery: r })
}

#[test]
fn down_down_enter_esc() {
    let mut reg = registry_of(&["A", "B", "C"]);
    let s = dispatch(ViewState::ListView, Key::Down, &mut reg).unwrap();
    let s = dispatch(s, Key::Down, &mut reg).unwrap();
    assert_eq!(s, ViewState::ListView);
    assert_eq!(reg.index(), 2);
    let s = dispatch(s, Key::Enter, &mut reg).unwrap();
    assert_eq!(s, detail(record("C", 3)));
    let s = dispatch(s, Key::Esc, &mut reg).unwrap();
    assert_eq!(s, ViewState::ListView);
    assert_eq!(reg.index(), 2);
}

#[test]
fn enter_on_empty_registry_stays_in_list() {
    let mut reg = ServiceRegistry::new();
    let s = dispatch(ViewState::ListView, Key::Enter, &mut reg);
    assert_eq!(s, Some(ViewState::ListView));
    assert_eq!(reg.length(), 0);
    assert_eq!(reg.index(), 0);
}

#[test]
fn up_up_on_single_record() {
    let mut reg = registry_of(&["A"]);
    let s = dispatch(ViewState::ListView, Key::Up, &mut reg).unwrap();
    assert_eq!(reg.index(), 0);
    let s = dispatch(s, Key::Up, &mut reg).unwrap();
    assert_eq!(reg.index(), 0);
    assert_eq!(s, ViewState::ListView);
}

#[test]
fn snapshot_survives_appends() {
    let mut reg = registry_of(&["A", "B"]);
    let s = dispatch(ViewState::ListView, Key::Down, &mut reg).unwrap();
    let s = dispatch(s, Key::Enter, &mut reg).unwrap();
    assert_eq!(Some(match &s {
        ViewState::DetailView(d) => d.discovery.clone(),
        ViewState::ListView => panic!("expected the detail view"),
    }), reg.get(1));
    reg.append(record("C", 3));
    reg.append(record("D", 4));
    let s = dispatch(s, Key::Down, &mut reg).unwrap();
    assert_eq!(s, detail(record("B", 2)));
    assert_eq!(reg.index(), 1);
    let s = dispatch(s, Key::Esc, &mut reg).unwrap();
    assert_eq!(s, ViewState::ListView);
}

#[test]
fn esc_in_list_ends_program() {
    let mut reg = registry_of(&["A"]);
    assert_eq!(dispatch(ViewState::ListView, Key::Esc, &mut reg), None);
    assert_eq!(ListScreen {}.on_key(Key::Esc, &mut reg), Step::Exit);
}

#[test]
fn other_keys_change_nothing() {
    let mut reg = registry_of(&["A", "B"]);
    assert_eq!(dispatch(ViewState::ListView, Key::Other, &mut reg), Some(ViewState::ListView));
    assert_eq!(reg.index(), 0);
    for k in [Key::Up, Key::Down, Key::Enter, Key::Other] {
        assert_eq!(dispatch(detail(record("A", 1)), k, &mut reg), Some(detail(record("A", 1))));
        assert_eq!(reg.index(), 0);
    }
}

#[test]
fn screen_on_key_steps() {
    let mut reg = registry_of(&["A", "B"]);
    let list = ListScreen {};
    assert_eq!(list.on_key(Key::Down, &mut reg), Step::Stay);
    assert_eq!(reg.index(), 1);
    assert_eq!(list.on_key(Key::Enter, &mut reg), Step::Switch(detail(record("B", 2))));
    let d = ViewDiscoveryScreen { discovery: record("B", 2) };
    assert_eq!(d.on_key(Key::Esc), Step::Switch(ViewState::ListView));
    assert_eq!(d.on_key(Key::Enter), Step::Stay);
}

#[test]
fn header_glyph_alternates() {
    assert_eq!(header_glyph(0), HeaderGlyph::Apple);
    assert_eq!(header_glyph(1), HeaderGlyph::Coin);
    assert_eq!(header_glyph(42), HeaderGlyph::Apple);
    assert_eq!(header_glyph(u64::MAX), HeaderGlyph::Coin);
}

#[test]
fn list_lines_mark_and_shade() {
    let mut reg = registry_of(&["A", "B", "C"]);
    reg.move_selection(greedy_tv::registry::Direction::Down);
    let lines = ListScreen {}.lines(&reg);
    assert_eq!(lines.len(), 3);
    let marks: Vec<SelectionMark> = lines.iter().map(|l| l.mark).collect();
    assert_eq!(marks, vec![SelectionMark::Unselected, SelectionMark::Selected, SelectionMark::Unselected]);
    let shades: Vec<bool> = lines.iter().map(|l| l.shaded).collect();
    assert_eq!(shades, vec![false, true, false]);
    assert_eq!(lines[2].record, record("C", 3));
    assert_eq!(get_symbol_for_index(&reg, 1), SelectionMark::Selected);
    assert_eq!(get_symbol_for_index(&reg, 0), SelectionMark::Unselected);
    assert!(ListScreen {}.lines(&ServiceRegistry::new()).is_empty());
}

#[test]
fn detail_lines_without_sub_types_or_txt() {
    let d = ViewDiscoveryScreen { discovery: record("A", 7) };
    let lines = d.lines();
    assert_eq!(lines, vec![
        DetailLine::Label(Field::Name),
        DetailLine::Value { value: FieldValue::Name("A".to_string()), bold: false },
        DetailLine::Label(Field::Hostname),
        DetailLine::Value { value: FieldValue::HostPort("A.local".to_string(), 7), bold: true },
        DetailLine::Label(Field::Address),
        DetailLine::Value { value: FieldValue::AddressPort("10.0.0.7".to_string(), 7), bold: false },
        DetailLine::Label(Field::Service),
        DetailLine::Value {
            value: FieldValue::Service("airplay".to_string(), "tcp".to_string()),
            bold: true,
        },
        DetailLine::Label(Field::SubTypes),
        DetailLine::Value { value: FieldValue::NoSubTypes, bold: false },
    ]);
}

#[test]
fn detail_lines_with_sub_types_and_txt() {
    let mut r = record("A", 7);
    r.service_type.sub_types = vec!["_tv".to_string(), "_audio".to_string()];
    r.txt = Some(vec![("model".to_string(), "X1".to_string()), ("ver".to_string(), "2".to_string())]);
    let lines = ViewDiscoveryScreen { discovery: r }.lines();
    assert_eq!(lines.len(), 9 + 2 + 1 + 2);
    assert_eq!(lines[9], DetailLine::SubType("_tv".to_string()));
    assert_eq!(lines[10], DetailLine::SubType("_audio".to_string()));
    assert_eq!(lines[11], DetailLine::Label(Field::Txt));
    assert_eq!(lines[12], DetailLine::TxtPair("model".to_string(), "X1".to_string()));
    assert_eq!(lines[13], DetailLine::TxtPair("ver".to_string(), "2".to_string()));
}

#[test]
fn detail_lines_with_empty_txt() {
    let mut r = record("A", 7);
    r.txt = Some(vec![]);
    let lines = ViewDiscoveryScreen { discovery: r }.lines();
    assert_eq!(lines.len(), 11);
    assert_eq!(lines[10], DetailLine::Label(Field::Txt));
}
