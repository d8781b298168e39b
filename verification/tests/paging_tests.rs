use addon_catalog::curse::Curse;
use addon_catalog::curse::curse_page_addons;
use addon_catalog::error::Error;
use addon_catalog::json::{Json, JsonNum};
use addon_catalog::model::{Flavor, Source};

fn obj(members: Vec<(&str, Json)>) -> Json {
    Json::Obj(members.into_iter().map(|(k, v)| (k.to_string(), v)).collect())
}

fn s(text: &str) -> Json {
    Json::Str(text.to_string())
}

fn file(flavor_tag: &str, release_type: u64, versions: Vec<&str>) -> Json {
    obj(vec![
        ("fileDate", s("2021-05-01")),
        ("gameVersionFlavor", s(flavor_tag)),
        (
            "gameVersion",
            Json::Arr(versions.into_iter().map(s).collect()),
        ),
        ("releaseType", Json::Num(JsonNum::UInt(release_type))),
    ])
}

fn package(id: u64, files: Vec<Json>) -> Json {
    obj(vec![
        ("id", Json::Num(JsonNum::UInt(id))),
        ("name", s("Pkg")),
        ("downloadCount", Json::Num(JsonNum::Float(338355764))),
        ("summary", s("Sum")),
        ("websiteUrl", s("https://example.invalid/pkg")),
        (
            "categories",
            Json::Arr(vec![obj(vec![("name", s("Map & Minimap"))])]),
        ),
        ("latestFiles", Json::Arr(files)),
    ])
}

fn page_of(count: u64) -> Json {
    Json::Arr((0..count).map(|i| package(i, Vec::new())).collect())
}

#[test]
fn curse_maps_one_record_with_release_filtering() {
    let page = Json::Arr(vec![package(
        5,
        vec![
            file("wow_retail", 1, vec!["9.0.5"]),
            file("wow_classic", 2, vec!["1.13.7"]),
            file("wow_burning_crusade", 1, Vec::new()),
        ],
    )]);
    let addons = curse_page_addons(&page).unwrap();
    assert_eq!(addons.len(), 1);
    let a = &addons[0];
    assert_eq!(a.id, 5);
    assert_eq!(a.name, "Pkg");
    assert_eq!(a.url, "https://example.invalid/pkg");
    assert_eq!(a.number_of_downloads, 338355764);
    assert_eq!(a.summary, "Sum");
    assert_eq!(a.categories, vec!["Map & Minimap".to_string()]);
    assert_eq!(a.source, Source::Curse);
    // Only stable releases (type 1) are retained.
    assert_eq!(a.versions.len(), 2);
    assert_eq!(a.versions[0].flavor, Flavor::Retail);
    assert_eq!(a.versions[0].game_version, Some("9.0.5".to_string()));
    assert_eq!(a.versions[0].date, "2021-05-01");
    assert_eq!(a.versions[1].flavor, Flavor::ClassicTbc);
    assert_eq!(a.versions[1].game_version, None);
}

#[test]
fn curse_rejects_a_malformed_page() {
    assert_eq!(curse_page_addons(&Json::Null), Err(Error::Decode));
    let bad = Json::Arr(vec![obj(vec![("id", Json::Num(JsonNum::UInt(1)))])]);
    assert_eq!(curse_page_addons(&bad), Err(Error::Decode));
}

#[test]
fn curse_tolerates_an_empty_page() {
    assert_eq!(curse_page_addons(&Json::Arr(Vec::new())).unwrap().len(), 0);
}

#[test]
fn pagination_stops_after_a_short_page_with_offsets_in_steps_of_fifty() {
    let mut fetch = Curse::new();
    let mut endpoints: Vec<String> = Vec::new();
    let pages = [page_of(50), page_of(50), page_of(12)];
    for page in &pages {
        let endpoint = fetch.next_endpoint().expect("fetch ended early");
        endpoints.push(endpoint);
        fetch.feed_page(page).unwrap();
    }
    // Exactly three requests were issued, from offsets 0, 50 and 100.
    assert_eq!(
        endpoints,
        vec![
            "https://addons-ecs.forgesvc.net/api/v2/addon/search?gameId=1&pageSize=50&index=0"
                .to_string(),
            "https://addons-ecs.forgesvc.net/api/v2/addon/search?gameId=1&pageSize=50&index=50"
                .to_string(),
            "https://addons-ecs.forgesvc.net/api/v2/addon/search?gameId=1&pageSize=50&index=100"
                .to_string(),
        ]
    );
    assert_eq!(fetch.pages, 3);
    assert!(fetch.finished);
    assert_eq!(fetch.next_endpoint(), None);
    // All three pages' records were merged, in page order.
    assert_eq!(fetch.addons.len(), 112);
    assert_eq!(fetch.addons[0].id, 0);
    assert_eq!(fetch.addons[50].id, 0);
    assert_eq!(fetch.addons[111].id, 11);
}

#[test]
fn pagination_continues_while_pages_come_back_full() {
    let mut fetch = Curse::new();
    fetch.feed_page(&page_of(50)).unwrap();
    assert!(!fetch.finished);
    assert_eq!(fetch.offset, 50);
    fetch.feed_page(&page_of(0)).unwrap();
    assert!(fetch.finished);
    assert_eq!(fetch.addons.len(), 50);
}

#[test]
fn a_page_that_fails_to_decode_leaves_the_fetch_unchanged() {
    let mut fetch = Curse::new();
    fetch.feed_page(&page_of(50)).unwrap();
    assert_eq!(fetch.feed_page(&Json::Null), Err(Error::Decode));
    assert_eq!(fetch.offset, 50);
    assert_eq!(fetch.pages, 1);
    assert_eq!(fetch.addons.len(), 50);
    assert!(!fetch.finished);
}
