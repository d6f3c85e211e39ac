use perspective::Attribute;
use perspective::AttributeCompatibility;
use perspective::LanguageCode;

#[test]
fn attribute_lists_have_documented_sizes() {
    assert_eq!(Attribute::all().len(), 22);
    assert_eq!(Attribute::all_normal().len(), 6);
    assert_eq!(Attribute::all_experimental().len(), 10);
    assert_eq!(Attribute::all_nyt().len(), 6);
}

#[test]
fn attribute_list_is_groups_in_order() {
    let mut expected = Attribute::all_normal();
    expected.extend(Attribute::all_experimental());
    expected.extend(Attribute::all_nyt());
    assert_eq!(Attribute::all(), expected);
}

#[test]
fn attribute_list_has_no_duplicates() {
    let all = Attribute::all();
    for (i, a) in all.iter().enumerate() {
        for b in &all[i + 1..] {
            assert_ne!(a, b);
        }
    }
}

#[test]
fn stable_attributes_are_compatible_everywhere() {
    assert_eq!(
        Attribute::Toxicity.check_compatibility(&LanguageCode::French),
        AttributeCompatibility::Compatible
    );
    assert_eq!(
        Attribute::Threat.check_compatibility(&LanguageCode::Japanese),
        AttributeCompatibility::Compatible
    );
}

#[test]
fn english_accepts_every_attribute() {
    for a in Attribute::all() {
        assert_eq!(
            a.check_compatibility(&LanguageCode::English),
            AttributeCompatibility::Compatible
        );
    }
}

#[test]
fn experimental_attributes_are_unknown_outside_english() {
    assert_eq!(
        Attribute::ToxicityExperimental.check_compatibility(&LanguageCode::German),
        AttributeCompatibility::Unknown
    );
    assert_eq!(
        Attribute::Flirtation.check_compatibility(&LanguageCode::Spanish),
        AttributeCompatibility::Unknown
    );
}

#[test]
fn nyt_attributes_are_incompatible_outside_english() {
    assert_eq!(
        Attribute::Spam.check_compatibility(&LanguageCode::Russian),
        AttributeCompatibility::Incompatible
    );
    assert_eq!(
        Attribute::AttackOnAuthor.check_compatibility(&LanguageCode::Other("xx".into())),
        AttributeCompatibility::Incompatible
    );
}

#[test]
fn api_names_match_the_wire_format() {
    assert_eq!(Attribute::Toxicity.api_name(), "TOXICITY");
    assert_eq!(
        Attribute::SevereToxicityExperimental.api_name(),
        "SEVERE_TOXICITY_EXPERIMENTAL"
    );
    assert_eq!(Attribute::LikelyToReject.api_name(), "LIKELY_TO_REJECT");
    assert_eq!(Attribute::SexuallyExplicit.api_name(), "SEXUALLY_EXPLICIT");
}
