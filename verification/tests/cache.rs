use bonjour::cache::{GreetingAsset, SynthesisOutcome, SynthesisRequest};
use bonjour::error::PipelineError;
use bonjour::key::{greeting_key, key_name};
use std::collections::hash_map::DefaultHasher;
use std::hash::{Hash, Hasher};

fn std_hash(text: &str) -> u64 {
    let mut hasher = DefaultHasher::new();
    text.hash(&mut hasher);
    hasher.finish()
}

#[test]
fn key_is_the_default_hash_of_the_text() {
    assert_eq!(greeting_key("Bonjour Alice"), std_hash("Bonjour Alice"));
    assert_eq!(greeting_key(""), std_hash(""));
}

#[test]
fn key_depends_on_the_text() {
    assert_ne!(greeting_key("Bonjour Alice"), DefaultHasher::new().finish());
    assert_ne!(greeting_key("Bonjour Alice"), greeting_key("Bonsoir Alice"));
    assert_ne!(greeting_key("Bonjour Alice"), greeting_key("Bonjour Bob"));
}

#[test]
fn key_is_stable_across_calls() {
    assert_eq!(greeting_key("Bonjour Alice"), greeting_key("Bonjour Alice"));
}

#[test]
fn key_name_is_the_decimal_numeral() {
    assert_eq!(key_name(0), "0");
    assert_eq!(key_name(7), "7");
    assert_eq!(key_name(10), "10");
    assert_eq!(key_name(42), "42");
    assert_eq!(key_name(1234567890), "1234567890");
    assert_eq!(key_name(u64::MAX), "18446744073709551615");
}

#[test]
fn key_name_agrees_with_to_string() {
    for key in [1u64, 9, 99, 100, 101, 9_999_999_999, 1 << 63, u64::MAX - 1] {
        assert_eq!(key_name(key), key.to_string());
    }
}

#[test]
fn asset_path_is_directory_slash_key() {
    let asset = GreetingAsset::for_key("voices", 42);
    assert_eq!(asset.key, 42);
    assert_eq!(asset.file_path, "voices/42");
    let asset = GreetingAsset::for_key("/var/lib/bonjour", 0);
    assert_eq!(asset.file_path, "/var/lib/bonjour/0");
}

#[test]
fn asset_of_a_text_is_named_by_its_hash() {
    let asset = GreetingAsset::locate("voices", "Bonjour Alice");
    assert_eq!(asset.key, std_hash("Bonjour Alice"));
    assert_eq!(asset.file_path, format!("voices/{}", std_hash("Bonjour Alice")));
}

#[test]
fn same_text_gives_the_same_path_twice() {
    let first = GreetingAsset::locate("voices", "Bonsoir Alice");
    let second = GreetingAsset::locate("voices", "Bonsoir Alice");
    assert_eq!(first, second);
}

#[test]
fn existing_asset_needs_no_synthesis() {
    let asset = GreetingAsset::locate("voices", "Bonjour Alice");
    assert_eq!(asset.plan("Bonjour Alice", "fr", true), None);
}

#[test]
fn missing_asset_is_requested_at_its_own_path() {
    let asset = GreetingAsset::locate("voices", "Bonjour Alice");
    assert_eq!(
        asset.plan("Bonjour Alice", "fr", false),
        Some(SynthesisRequest {
            text: String::from("Bonjour Alice"),
            locale: String::from("fr"),
            output_path: asset.file_path.clone(),
        })
    );
}

#[test]
fn synthesis_outcomes_are_classified() {
    assert_eq!(SynthesisOutcome::classify(false, false, false), SynthesisOutcome::Unavailable);
    assert_eq!(SynthesisOutcome::classify(false, true, true), SynthesisOutcome::Unavailable);
    assert_eq!(SynthesisOutcome::classify(true, true, true), SynthesisOutcome::Produced);
    assert_eq!(SynthesisOutcome::classify(true, false, true), SynthesisOutcome::Failed);
    assert_eq!(SynthesisOutcome::classify(true, true, false), SynthesisOutcome::Failed);
    assert_eq!(SynthesisOutcome::classify(true, false, false), SynthesisOutcome::Failed);
}

#[test]
fn synthesis_outcomes_conclude() {
    assert_eq!(SynthesisOutcome::Produced.conclude(), Ok(()));
    assert_eq!(SynthesisOutcome::Unavailable.conclude(), Err(PipelineError::SynthesisUnavailable));
    assert_eq!(SynthesisOutcome::Failed.conclude(), Err(PipelineError::SynthesisFailed));
}

#[test]
fn errors_describe_themselves() {
    assert_eq!(PipelineError::SynthesisUnavailable.describe(), "speech synthesis is unavailable");
    assert_eq!(PipelineError::SynthesisFailed.describe(), "speech synthesis produced no audio");
    assert_eq!(PipelineError::JoinFailure.describe(), "could not join the voice channel");
    assert_eq!(PipelineError::LeaveFailure.describe(), "could not leave the voice session");
    assert_eq!(PipelineError::PreconditionViolation.describe(), "the event lacks a required field");
}
