use addon_catalog::error::Error;
use addon_catalog::json::{Json, JsonNum};
use addon_catalog::model::{Flavor, Source};
use addon_catalog::townlong_yak::TownlongYak;
use addon_catalog::townlong_yak::strip_markup;
use addon_catalog::tukui::Tukui;
use addon_catalog::wowinterface::WoWInterface;
use addon_catalog::wowinterface::category_name_for_category_id;
use addon_catalog::wowinterface::flavor_for_category_id;

fn obj(members: Vec<(&str, Json)>) -> Json {
    Json::Obj(members.into_iter().map(|(k, v)| (k.to_string(), v)).collect())
}

fn s(text: &str) -> Json {
    Json::Str(text.to_string())
}

fn uint(n: u64) -> Json {
    Json::Num(JsonNum::UInt(n))
}

#[test]
fn tukui_test_null_fields() {
    let empty = Json::Arr(Vec::new());
    let all_null = Json::Arr(vec![obj(vec![
        ("id", Json::Null),
        ("name", Json::Null),
        ("small_desc", Json::Null),
        ("author", Json::Null),
        ("version", Json::Null),
        ("screenshot_url", Json::Null),
        ("web_url", Json::Null),
        ("url", Json::Null),
        ("category", Json::Null),
        ("downloads", Json::Null),
        ("lastupdate", Json::Null),
        ("patch", Json::Null),
        ("last_download", Json::Null),
    ])]);

    for response in [&empty, &all_null] {
        Tukui::addons_from_response(response, Flavor::Retail).unwrap();
    }
    let addons = Tukui::addons_from_response(&all_null, Flavor::Retail).unwrap();
    assert_eq!(addons.len(), 1);
    assert_eq!(addons[0].id, 0);
    assert_eq!(addons[0].name, "");
    assert_eq!(addons[0].number_of_downloads, 0);
    assert_eq!(addons[0].source, Source::Tukui);
}

#[test]
fn tukui_rejects_a_record_with_a_missing_field() {
    let response = Json::Arr(vec![obj(vec![("id", uint(1))])]);
    assert_eq!(
        Tukui::addons_from_response(&response, Flavor::Retail),
        Err(Error::Decode)
    );
}

#[test]
fn tukui_maps_a_full_record() {
    let response = Json::Arr(vec![obj(vec![
        ("id", s("42")),
        ("name", s("Tukui")),
        ("small_desc", s("A user interface")),
        ("author", s("someone")),
        ("version", s("20.17")),
        ("screenshot_url", s("https://example.invalid/shot.png")),
        ("web_url", s("https://example.invalid/tukui")),
        ("url", s("https://example.invalid/dl.zip")),
        ("category", s("Interfaces")),
        ("downloads", s("2147483648")),
        ("lastupdate", s("2021-06-09")),
        ("patch", s("9.0.5")),
    ])]);
    let addons = Tukui::addons_from_response(&response, Flavor::ClassicEra).unwrap();
    assert_eq!(addons.len(), 1);
    let a = &addons[0];
    assert_eq!(a.id, 42);
    assert_eq!(a.name, "Tukui");
    assert_eq!(a.url, "https://example.invalid/tukui");
    assert_eq!(a.number_of_downloads, 2147483648);
    assert_eq!(a.summary, "A user interface");
    assert_eq!(a.categories, vec!["Interfaces".to_string()]);
    assert_eq!(a.source, Source::Tukui);
    assert_eq!(a.versions.len(), 1);
    assert_eq!(a.versions[0].flavor, Flavor::ClassicEra);
    assert_eq!(a.versions[0].game_version, Some("9.0.5".to_string()));
    assert_eq!(a.versions[0].date, "2021-06-09");
}

#[test]
fn wowinterface_test_null_fields() {
    let empty = Json::Arr(Vec::new());
    let record = Json::Arr(vec![obj(vec![
        ("id", uint(38)),
        ("categoryId", Json::Null),
        ("version", s("9.0.5.7")),
        ("lastUpdate", uint(1622059572000)),
        ("title", s("Foo")),
        ("author", s("Bar")),
        ("fileInfoUri", s("")),
        ("downloads", uint(593294)),
        ("downloadsMonthly", uint(128)),
        ("favorites", uint(689)),
        ("gameVersions", Json::Arr(Vec::new())),
        ("checksum", s("")),
        ("addons", Json::Null),
    ])]);

    for response in [&empty, &record] {
        WoWInterface::addons_from_response(response).unwrap();
    }
    let addons = WoWInterface::addons_from_response(&record).unwrap();
    assert_eq!(addons.len(), 1);
    let a = &addons[0];
    assert_eq!(a.id, 38);
    assert_eq!(a.name, "Foo");
    assert_eq!(a.number_of_downloads, 593294);
    assert_eq!(a.summary, "");
    assert_eq!(a.categories, Vec::<String>::new());
    assert_eq!(a.source, Source::WowI);
    assert_eq!(a.versions.len(), 1);
    assert_eq!(a.versions[0].flavor, Flavor::Retail);
    assert_eq!(a.versions[0].game_version, None);
    assert_eq!(a.versions[0].date, "1622059572000");
}

#[test]
fn wowinterface_null_game_versions_reads_as_no_entries() {
    let record = Json::Arr(vec![obj(vec![
        ("id", uint(7)),
        ("categoryId", uint(160)),
        ("version", s("1.0")),
        ("lastUpdate", uint(5)),
        ("title", s("Classic thing")),
        ("author", s("Bar")),
        ("fileInfoUri", s("https://example.invalid/7")),
        ("downloads", uint(1)),
        ("gameVersions", Json::Null),
    ])]);
    let addons = WoWInterface::addons_from_response(&record).unwrap();
    let a = &addons[0];
    assert_eq!(a.categories, vec!["Classic".to_string()]);
    assert_eq!(a.versions[0].flavor, Flavor::ClassicEra);
    assert_eq!(a.versions[0].game_version, None);
}

#[test]
fn wowinterface_picks_the_version_matching_the_category_flavor() {
    let record = Json::Arr(vec![obj(vec![
        ("id", uint(9)),
        ("categoryId", uint(161)),
        ("version", s("x")),
        ("lastUpdate", uint(5)),
        ("title", s("Tbc thing")),
        ("author", s("Bar")),
        ("fileInfoUri", s("u")),
        ("downloads", uint(1)),
        (
            "gameVersions",
            Json::Arr(vec![s("9.0.5"), s("2.5.1"), s("1.13.7")]),
        ),
    ])]);
    let addons = WoWInterface::addons_from_response(&record).unwrap();
    let a = &addons[0];
    assert_eq!(a.versions[0].flavor, Flavor::ClassicTbc);
    assert_eq!(a.versions[0].game_version, Some("2.5.1".to_string()));
    assert_eq!(a.categories, vec!["The Burning Crusade Classic".to_string()]);
}

#[test]
fn wowinterface_category_tables() {
    assert_eq!(flavor_for_category_id(160), Flavor::ClassicEra);
    assert_eq!(flavor_for_category_id(161), Flavor::ClassicTbc);
    assert_eq!(flavor_for_category_id(53), Flavor::Retail);
    assert_eq!(flavor_for_category_id(0), Flavor::Retail);
    assert_eq!(
        category_name_for_category_id(17),
        Some("Graphic UI Mods".to_string())
    );
    assert_eq!(category_name_for_category_id(53), Some("Libraries".to_string()));
    assert_eq!(category_name_for_category_id(1), None);
    assert_eq!(category_name_for_category_id(-5), None);
}

#[test]
fn markup_stripping_normalizes_a_summary() {
    assert_eq!(strip_markup("<p>Hello <b>World</b></p>"), "Hello World");
}

#[test]
fn markup_stripping_keeps_text_without_a_closing_bracket() {
    assert_eq!(strip_markup("a < b and c > d"), "a  d");
    assert_eq!(strip_markup("plain text"), "plain text");
    assert_eq!(strip_markup("broken <tag"), "broken <tag");
    assert_eq!(strip_markup(""), "");
    assert_eq!(strip_markup("<><>x"), "x");
}

fn hub_game_version(game_type: &str, interface: &str) -> Json {
    obj(vec![
        ("game_type", s(game_type)),
        ("title", s("Title")),
        ("interface", s(interface)),
    ])
}

fn hub_package(description: &str, releases: Vec<Json>) -> Json {
    obj(vec![
        ("id", uint(11)),
        ("repository", s("https://example.invalid/repo")),
        ("repository_name", s("FooRepo")),
        ("source", s("github")),
        ("description", s(description)),
        ("homepage", s("https://example.invalid")),
        ("image_url", s("")),
        ("owner_image_url", s("")),
        ("owner_name", s("foxlit")),
        ("total_download_count", uint(321)),
        ("funding_links", Json::Arr(Vec::new())),
        ("releases", Json::Arr(releases)),
    ])
}

#[test]
fn townlong_yak_maps_the_first_release_only() {
    let first = obj(vec![
        ("published_at", s("2021-04-26T22:42:55.958Z")),
        (
            "game_versions",
            Json::Arr(vec![
                hub_game_version("retail", "90005"),
                hub_game_version("classic", "11307"),
            ]),
        ),
    ]);
    let second = obj(vec![
        ("published_at", s("2020-01-01T00:00:00.000Z")),
        ("game_versions", Json::Arr(vec![hub_game_version("retail", "80300")])),
    ]);
    let response = obj(vec![(
        "addons",
        Json::Arr(vec![hub_package("<p>Hello <b>World</b></p>", vec![first, second])]),
    )]);
    let addons = TownlongYak::addons_from_response(&response).unwrap();
    assert_eq!(addons.len(), 1);
    let a = &addons[0];
    assert_eq!(a.id, 11);
    assert_eq!(a.name, "FooRepo");
    assert_eq!(a.url, "https://example.invalid/repo");
    assert_eq!(a.number_of_downloads, 321);
    assert_eq!(a.summary, "Hello World");
    assert_eq!(a.categories, Vec::<String>::new());
    assert_eq!(a.source, Source::Hub);
    assert_eq!(a.versions.len(), 2);
    assert_eq!(a.versions[0].flavor, Flavor::Retail);
    assert_eq!(a.versions[0].game_version, Some("90005".to_string()));
    assert_eq!(a.versions[0].date, "2021-04-26T22:42:55.958Z");
    assert_eq!(a.versions[1].flavor, Flavor::ClassicEra);
    assert_eq!(a.versions[1].game_version, Some("11307".to_string()));
    assert_eq!(a.versions[1].date, "2021-04-26T22:42:55.958Z");
}

#[test]
fn townlong_yak_tolerates_a_package_without_releases() {
    let response = obj(vec![("addons", Json::Arr(vec![hub_package("x", Vec::new())]))]);
    let addons = TownlongYak::addons_from_response(&response).unwrap();
    assert_eq!(addons.len(), 1);
    assert_eq!(addons[0].versions.len(), 0);
}

#[test]
fn townlong_yak_tolerates_an_empty_container() {
    let response = obj(vec![("addons", Json::Arr(Vec::new()))]);
    assert_eq!(TownlongYak::addons_from_response(&response).unwrap().len(), 0);
}

#[test]
fn townlong_yak_rejects_a_malformed_container() {
    assert_eq!(
        TownlongYak::addons_from_response(&Json::Arr(Vec::new())),
        Err(Error::Decode)
    );
    let response = obj(vec![("addons", Json::Arr(vec![obj(vec![("id", uint(1))])]))]);
    assert_eq!(TownlongYak::addons_from_response(&response), Err(Error::Decode));
    let bad_flavor = obj(vec![(
        "addons",
        Json::Arr(vec![hub_package(
            "x",
            vec![obj(vec![
                ("published_at", s("d")),
                ("game_versions", Json::Arr(vec![hub_game_version("pandaria", "5")])),
            ])],
        )]),
    )]);
    assert_eq!(TownlongYak::addons_from_response(&bad_flavor), Err(Error::Decode));
}
