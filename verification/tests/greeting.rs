use bonjour::greeting::{greeting_now, greeting_text, prologue, EVENING_HOUR};
use chrono::Timelike;

#[test]
fn morning_greeting_for_alice() {
    assert_eq!(greeting_text(9, "Alice"), "Bonjour Alice");
}

#[test]
fn evening_greeting_for_alice() {
    assert_eq!(greeting_text(18, "Alice"), "Bonsoir Alice");
}

#[test]
fn evening_starts_at_seventeen_sharp() {
    assert_eq!(EVENING_HOUR, 17);
    assert_eq!(greeting_text(16, "Alice"), "Bonjour Alice");
    assert_eq!(greeting_text(17, "Alice"), "Bonsoir Alice");
    assert_eq!(prologue(16), "Bonjour");
    assert_eq!(prologue(17), "Bonsoir");
}

#[test]
fn prologue_over_the_whole_day() {
    for hour in 0..24u32 {
        let expected = if hour < 17 { "Bonjour" } else { "Bonsoir" };
        assert_eq!(prologue(hour), expected);
    }
    assert_eq!(prologue(0), "Bonjour");
    assert_eq!(prologue(23), "Bonsoir");
}

#[test]
fn greeting_keeps_the_name_as_it_is() {
    assert_eq!(greeting_text(0, ""), "Bonjour ");
    assert_eq!(greeting_text(23, "Zoé la 2e"), "Bonsoir Zoé la 2e");
}

#[test]
fn greeting_now_follows_the_clock() {
    let before = chrono::Utc::now().hour();
    let text = greeting_now("Alice");
    let after = chrono::Utc::now().hour();
    assert!(text == "Bonjour Alice" || text == "Bonsoir Alice");
    if before == after {
        assert_eq!(text, greeting_text(before, "Alice"));
    }
}
