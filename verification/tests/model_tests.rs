use addon_catalog::model::Flavor;
use addon_catalog::model::extract_version_for_flavor;
use addon_catalog::model::flavor_from_tag;
use addon_catalog::model::guess_flavor_from_version;

const ALL_FLAVORS: [Flavor; 8] = [
    Flavor::Retail,
    Flavor::RetailPtr,
    Flavor::RetailBeta,
    Flavor::ClassicEra,
    Flavor::ClassicTbc,
    Flavor::ClassicWotlk,
    Flavor::ClassicPtr,
    Flavor::ClassicBeta,
];

#[test]
fn base_flavor_is_idempotent_for_every_variant() {
    for f in ALL_FLAVORS {
        assert_eq!(f.base_flavor().base_flavor(), f.base_flavor());
    }
}

#[test]
fn base_flavor_resolves_to_roots() {
    assert_eq!(Flavor::Retail.base_flavor(), Flavor::Retail);
    assert_eq!(Flavor::RetailPtr.base_flavor(), Flavor::Retail);
    assert_eq!(Flavor::RetailBeta.base_flavor(), Flavor::Retail);
    assert_eq!(Flavor::ClassicEra.base_flavor(), Flavor::ClassicEra);
    assert_eq!(Flavor::ClassicTbc.base_flavor(), Flavor::ClassicTbc);
    assert_eq!(Flavor::ClassicWotlk.base_flavor(), Flavor::ClassicWotlk);
    assert_eq!(Flavor::ClassicPtr.base_flavor(), Flavor::ClassicWotlk);
    assert_eq!(Flavor::ClassicBeta.base_flavor(), Flavor::ClassicWotlk);
}

#[test]
fn guess_flavor_from_version_recognizes_the_known_leads() {
    assert_eq!(guess_flavor_from_version("9.0.5"), Some(Flavor::Retail));
    assert_eq!(guess_flavor_from_version("8.3.0"), Some(Flavor::Retail));
    assert_eq!(guess_flavor_from_version("7.3.5"), Some(Flavor::Retail));
    assert_eq!(guess_flavor_from_version("1.13.7"), Some(Flavor::ClassicEra));
    assert_eq!(guess_flavor_from_version("2.5.1"), Some(Flavor::ClassicTbc));
}

#[test]
fn guess_flavor_from_version_refuses_anything_else() {
    assert_eq!(guess_flavor_from_version("x.y.z"), None);
    assert_eq!(guess_flavor_from_version("3.4.0"), None);
    assert_eq!(guess_flavor_from_version(""), None);
}

#[test]
fn flavor_tags_are_lowercase_with_underscores() {
    assert_eq!(Flavor::Retail.tag(), "retail");
    assert_eq!(Flavor::RetailPtr.tag(), "retail_ptr");
    assert_eq!(Flavor::RetailBeta.tag(), "retail_beta");
    assert_eq!(Flavor::ClassicEra.tag(), "classic_era");
    assert_eq!(Flavor::ClassicTbc.tag(), "classic_tbc");
    assert_eq!(Flavor::ClassicWotlk.tag(), "classic_wotlk");
    assert_eq!(Flavor::ClassicPtr.tag(), "classic_ptr");
    assert_eq!(Flavor::ClassicBeta.tag(), "classic_beta");
}

#[test]
fn flavor_from_tag_accepts_known_spellings() {
    assert_eq!(flavor_from_tag("retail"), Some(Flavor::Retail));
    assert_eq!(flavor_from_tag("Retail"), Some(Flavor::Retail));
    assert_eq!(flavor_from_tag("wow_retail"), Some(Flavor::Retail));
    assert_eq!(flavor_from_tag("mainline"), Some(Flavor::Retail));
    assert_eq!(flavor_from_tag("classic"), Some(Flavor::ClassicEra));
    assert_eq!(flavor_from_tag("vanilla"), Some(Flavor::ClassicEra));
    assert_eq!(flavor_from_tag("wow_classic"), Some(Flavor::ClassicEra));
    assert_eq!(flavor_from_tag("tbc"), Some(Flavor::ClassicTbc));
    assert_eq!(flavor_from_tag("bcc"), Some(Flavor::ClassicTbc));
    assert_eq!(flavor_from_tag("burningCrusade"), Some(Flavor::ClassicTbc));
    assert_eq!(flavor_from_tag("wow_burning_crusade"), Some(Flavor::ClassicTbc));
    assert_eq!(flavor_from_tag("wotlk"), Some(Flavor::ClassicWotlk));
    assert_eq!(flavor_from_tag("classic_ptr"), Some(Flavor::ClassicPtr));
}

#[test]
fn flavor_from_tag_refuses_unknown_spellings() {
    assert_eq!(flavor_from_tag("pandaria"), None);
    assert_eq!(flavor_from_tag(""), None);
    assert_eq!(flavor_from_tag("RETAIL"), None);
}

#[test]
fn round_trip_of_every_tag_through_the_parser() {
    for f in ALL_FLAVORS {
        assert_eq!(flavor_from_tag(f.tag()), Some(f));
    }
}

#[test]
fn extract_version_picks_the_entry_matching_the_flavor() {
    let versions = vec![
        "2.5.1".to_string(),
        "9.0.5".to_string(),
        "1.13.7".to_string(),
    ];
    assert_eq!(
        extract_version_for_flavor(Flavor::Retail, &versions),
        Some("9.0.5".to_string())
    );
    assert_eq!(
        extract_version_for_flavor(Flavor::ClassicEra, &versions),
        Some("1.13.7".to_string())
    );
    assert_eq!(
        extract_version_for_flavor(Flavor::ClassicTbc, &versions),
        Some("2.5.1".to_string())
    );
}

#[test]
fn extract_version_tolerates_no_match_by_returning_none() {
    let versions = vec!["3.4.0".to_string(), "x.y.z".to_string()];
    assert_eq!(extract_version_for_flavor(Flavor::Retail, &versions), None);
    assert_eq!(extract_version_for_flavor(Flavor::ClassicWotlk, &versions), None);
    assert_eq!(extract_version_for_flavor(Flavor::Retail, &Vec::new()), None);
}
