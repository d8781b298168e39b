use addon_catalog::error::Error;
use addon_catalog::json::{Json, JsonNum};
use addon_catalog::model::{Flavor, Source};
use addon_catalog::tukui::Tukui;

fn obj(members: Vec<(&str, Json)>) -> Json {
    Json::Obj(members.into_iter().map(|(k, v)| (k.to_string(), v)).collect())
}

fn s(text: &str) -> Json {
    Json::Str(text.to_string())
}

fn package(id: u64, name: &str) -> Json {
    obj(vec![
        ("id", Json::Num(JsonNum::UInt(id))),
        ("name", s(name)),
        ("small_desc", s("desc")),
        ("author", s("author")),
        ("version", s("1.0")),
        ("screenshot_url", s("")),
        ("url", s("")),
        ("category", s("Interfaces")),
        ("downloads", Json::Num(JsonNum::UInt(10))),
        ("lastupdate", s("2021-06-09")),
        ("patch", s("9.0.5")),
        ("web_url", s("https://example.invalid")),
    ])
}

#[test]
fn composite_merges_bulk_list_and_both_signature_records() {
    let all = Json::Arr(vec![package(1, "A"), package(2, "B"), package(3, "C")]);
    let elvui = package(100, "ElvUI");
    let tukui = package(200, "Tukui");
    let addons = Tukui::retail_addons(&elvui, &tukui, &all).unwrap();
    // N bulk records plus the two signature records.
    assert_eq!(addons.len(), 5);
    assert_eq!(addons[0].name, "A");
    assert_eq!(addons[1].name, "B");
    assert_eq!(addons[2].name, "C");
    assert_eq!(addons[3].name, "ElvUI");
    assert_eq!(addons[4].name, "Tukui");
    for a in &addons {
        assert_eq!(a.source, Source::Tukui);
        assert_eq!(a.versions.len(), 1);
        assert_eq!(a.versions[0].flavor, Flavor::Retail);
    }
}

#[test]
fn composite_merges_an_empty_bulk_list_too() {
    let all = Json::Arr(Vec::new());
    let addons =
        Tukui::retail_addons(&package(1, "ElvUI"), &package(2, "Tukui"), &all).unwrap();
    assert_eq!(addons.len(), 2);
}

#[test]
fn composite_fails_when_any_of_the_three_bodies_is_malformed() {
    let all = Json::Arr(vec![package(1, "A")]);
    let good = package(2, "ElvUI");
    assert_eq!(
        Tukui::retail_addons(&Json::Null, &good, &all),
        Err(Error::Decode)
    );
    assert_eq!(
        Tukui::retail_addons(&good, &Json::Null, &all),
        Err(Error::Decode)
    );
    assert_eq!(
        Tukui::retail_addons(&good, &good, &Json::Null),
        Err(Error::Decode)
    );
}

#[test]
fn bulk_endpoint_is_selected_by_the_base_flavor() {
    assert_eq!(
        Tukui::endpoint_for_addons(Flavor::Retail).unwrap(),
        "https://www.tukui.org/api.php?addons=all"
    );
    assert_eq!(
        Tukui::endpoint_for_addons(Flavor::RetailPtr).unwrap(),
        "https://www.tukui.org/api.php?addons=all"
    );
    assert_eq!(
        Tukui::endpoint_for_addons(Flavor::ClassicEra).unwrap(),
        "https://www.tukui.org/api.php?classic-addons=all"
    );
    assert_eq!(
        Tukui::endpoint_for_addons(Flavor::ClassicTbc).unwrap(),
        "https://www.tukui.org/api.php?classic-tbc-addons=all"
    );
    assert_eq!(
        Tukui::endpoint_for_addons(Flavor::ClassicWotlk).unwrap(),
        "https://www.tukui.org/api.php?classic-wotlk-addons=all"
    );
    assert_eq!(
        Tukui::endpoint_for_addons(Flavor::ClassicBeta).unwrap(),
        "https://www.tukui.org/api.php?classic-wotlk-addons=all"
    );
}

#[test]
fn signature_endpoints_and_fetch_order() {
    assert_eq!(
        Tukui::endpoint_for_tukui(),
        "https://www.tukui.org/api.php?ui=tukui"
    );
    assert_eq!(
        Tukui::endpoint_for_elvui(),
        "https://www.tukui.org/api.php?ui=elvui"
    );
    assert_eq!(
        Tukui::fetch_flavors(),
        vec![
            Flavor::Retail,
            Flavor::ClassicEra,
            Flavor::ClassicTbc,
            Flavor::ClassicWotlk,
        ]
    );
}
