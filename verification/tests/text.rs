use appseed_cli::text::{has_text, same_text};

#[test]
fn a_text_holds_its_parts() {
    assert!(has_text("flask-datta-able", "flask"));
    assert!(has_text("flask-datta-able", "able"));
    assert!(has_text("flask-datta-able", ""));
    assert!(!has_text("flask-datta-able", "django"));
    assert!(!has_text("ask", "flask"));
}

#[test]
fn same_text_compares_every_character() {
    assert!(same_text("-t", "-t"));
    assert!(!same_text("-t", "-n"));
    assert!(!same_text("-t", "-tt"));
    assert!(same_text("", ""));
}
