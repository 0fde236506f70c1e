use entry_store::color::{Color, PaletteColor, Rgba8};
use entry_store::entry::{any_field_contains, Entry, Tag};

fn entry(name: &str, owner: &str, date: &str, location: &str, tags: &[&str], status: &str) -> Entry {
    let tags: Vec<Tag> = tags.iter().map(|t| Tag::from_str(t)).collect();
    Entry::from_str(name, owner, date, location, &tags, status)
}

#[test]
fn new_entry_is_empty() {
    let e = Entry::new();
    assert_eq!(e.name, "");
    assert_eq!(e.owner, "");
    assert_eq!(e.date, "");
    assert_eq!(e.location, "");
    assert!(e.tags.is_empty());
    assert_eq!(e.status, "");
}

#[test]
fn from_str_copies_every_field() {
    let e = entry("Widget", "Bob", "2024-01-01", "Lab A", &["red", "big"], "active");
    assert_eq!(e.name, "Widget");
    assert_eq!(e.owner, "Bob");
    assert_eq!(e.date, "2024-01-01");
    assert_eq!(e.location, "Lab A");
    assert_eq!(e.tags.len(), 2);
    assert_eq!(e.tags[0].name, "red");
    assert_eq!(e.tags[1].name, "big");
    assert_eq!(e.status, "active");
}

#[test]
fn clear_resets_every_field() {
    let mut e = entry("Widget", "Bob", "2024-01-01", "Lab A", &["red"], "active");
    e.clear();
    assert_eq!(e.name, "");
    assert_eq!(e.owner, "");
    assert_eq!(e.date, "");
    assert_eq!(e.location, "");
    assert!(e.tags.is_empty());
    assert_eq!(e.status, "");
}

#[test]
fn clone_keeps_every_field() {
    let e = entry("Widget", "Bob", "2024-01-01", "Lab A", &["red"], "active");
    let c = e.clone();
    assert_eq!(c.name, "Widget");
    assert_eq!(c.owner, "Bob");
    assert_eq!(c.tags.len(), 1);
    assert_eq!(c.tags[0].name, "red");
    assert_eq!(c.status, "active");
}

#[test]
fn owner_match_ignores_case() {
    let e = entry("Widget", "Alice", "2024-01-01", "Lab A", &[], "active");
    assert!(e.contains("alice"));
    assert!(e.contains("ALICE"));
    assert!(e.contains("Alice"));
    assert!(e.contains("lic"));
}

#[test]
fn each_text_field_is_searched() {
    let e = entry("Widget", "Bob", "2024-01-01", "Lab A", &[], "active");
    assert!(e.contains("widg"));
    assert!(e.contains("bob"));
    assert!(e.contains("01-01"));
    assert!(e.contains("lab a"));
    assert!(e.contains("ACTIVE"));
    assert!(!e.contains("carol"));
}

#[test]
fn empty_query_matches_empty_entry() {
    assert!(Entry::new().contains(""));
}

#[test]
fn tag_match_is_exact() {
    let e = entry("Widget", "Bob", "2024-01-01", "Lab A", &["Urgent"], "active");
    assert!(e.has_tag("Urgent"));
    assert!(!e.has_tag("urgent"));
    assert!(!e.has_tag("Urg"));
    assert!(e.contains("Urgent"));
    assert!(!e.contains("urgent"));
    assert!(!e.contains("Urg"));
}

#[test]
fn folded_fields_are_searched_as_given() {
    let fields = vec!["widget".to_string(), "bob".to_string()];
    assert!(any_field_contains(&fields, "dge"));
    assert!(any_field_contains(&fields, "bo"));
    assert!(!any_field_contains(&fields, "BOB"));
    assert!(any_field_contains(&fields, ""));
    assert!(!any_field_contains(&Vec::new(), ""));
}

#[test]
fn palette_names_and_channels() {
    let all = PaletteColor::all();
    let names: Vec<String> = all.iter().map(|p| p.name()).collect();
    assert_eq!(names, vec!["Black", "Blue", "Red", "Green", "White", "Cyan", "Yellow", "Magenta"]);
    assert_eq!(PaletteColor::Black.rgba(), Rgba8 { r: 0, g: 0, b: 0, a: 255 });
    assert_eq!(PaletteColor::Blue.rgba(), Rgba8 { r: 0, g: 0, b: 255, a: 255 });
    assert_eq!(PaletteColor::Red.rgba(), Rgba8 { r: 255, g: 0, b: 0, a: 255 });
    assert_eq!(PaletteColor::Green.rgba(), Rgba8 { r: 0, g: 255, b: 0, a: 255 });
    assert_eq!(PaletteColor::White.rgba(), Rgba8 { r: 255, g: 255, b: 255, a: 255 });
    assert_eq!(PaletteColor::Cyan.rgba(), Rgba8 { r: 0, g: 255, b: 255, a: 255 });
    assert_eq!(PaletteColor::Yellow.rgba(), Rgba8 { r: 255, g: 255, b: 0, a: 255 });
    assert_eq!(PaletteColor::Magenta.rgba(), Rgba8 { r: 255, g: 0, b: 255, a: 255 });
}

#[test]
fn default_color_is_black() {
    let c = Color::new();
    assert_eq!(c.name, "Black");
    assert_eq!(c.color, Rgba8 { r: 0, g: 0, b: 0, a: 255 });
    let m = Color::from_palette(PaletteColor::Magenta);
    assert_eq!(m.name, "Magenta");
    assert_eq!(m.color, Rgba8 { r: 255, g: 0, b: 255, a: 255 });
}
