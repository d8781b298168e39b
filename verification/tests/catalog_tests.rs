use addon_catalog::catalog::catalog_file_name;
use addon_catalog::catalog::catalog_to_json;
use addon_catalog::catalog::configured_sources;
use addon_catalog::catalog::merge_results;
use addon_catalog::catalog::source_tag;
use addon_catalog::error::Error;
use addon_catalog::json::{Json, JsonNum};
use addon_catalog::model::{Addon, Flavor, Source, Version};

fn addon(id: i32, name: &str, source: Source) -> Addon {
    Addon {
        id,
        name: name.to_string(),
        url: format!("https://example.invalid/{}", id),
        number_of_downloads: 7,
        summary: "about".to_string(),
        versions: vec![Version {
            flavor: Flavor::Retail,
            game_version: Some("9.0.5".to_string()),
            date: "2021-06-09".to_string(),
        }],
        categories: vec!["Misc".to_string()],
        source,
    }
}

#[test]
fn merge_keeps_the_configured_source_order() {
    // One record per adapter, handed over in configured order; the merged
    // output lists them in exactly that order, however the fetches finished.
    let results = vec![
        Ok(vec![addon(1, "from curse", Source::Curse)]),
        Ok(vec![addon(2, "from tukui", Source::Tukui)]),
        Ok(vec![addon(3, "from wowi", Source::WowI)]),
        Ok(vec![addon(4, "from hub", Source::Hub)]),
    ];
    let merged = merge_results(results).unwrap();
    assert_eq!(merged.len(), 4);
    assert_eq!(merged[0].source, Source::Curse);
    assert_eq!(merged[1].source, Source::Tukui);
    assert_eq!(merged[2].source, Source::WowI);
    assert_eq!(merged[3].source, Source::Hub);
}

#[test]
fn merge_keeps_each_adapters_own_record_order() {
    let results = vec![
        Ok(vec![addon(1, "a", Source::Curse), addon(2, "b", Source::Curse)]),
        Ok(Vec::new()),
        Ok(vec![addon(3, "c", Source::WowI)]),
    ];
    let merged = merge_results(results).unwrap();
    let names: Vec<&str> = merged.iter().map(|a| a.name.as_str()).collect();
    assert_eq!(names, vec!["a", "b", "c"]);
}

#[test]
fn one_failing_adapter_fails_the_whole_build() {
    let results = vec![
        Ok(vec![addon(1, "a", Source::Curse)]),
        Err(Error::Transport),
        Ok(vec![addon(3, "c", Source::WowI)]),
        Ok(vec![addon(4, "d", Source::Hub)]),
    ];
    assert_eq!(merge_results(results), Err(Error::Transport));
}

#[test]
fn the_earliest_failure_wins() {
    let results = vec![
        Ok(Vec::new()),
        Err(Error::Io),
        Err(Error::Unknown),
        Err(Error::Transport),
    ];
    assert_eq!(merge_results(results), Err(Error::Io));
}

#[test]
fn merging_nothing_yields_an_empty_catalog() {
    assert_eq!(merge_results(Vec::new()), Ok(Vec::new()));
}

#[test]
fn the_configured_sources_come_in_a_fixed_order() {
    assert_eq!(
        configured_sources(),
        vec![Source::Curse, Source::Tukui, Source::WowI, Source::Hub]
    );
    assert_eq!(source_tag(Source::Curse), "curse");
    assert_eq!(source_tag(Source::Tukui), "tukui");
    assert_eq!(source_tag(Source::WowI), "wowi");
    assert_eq!(source_tag(Source::Hub), "hub");
}

fn field<'a>(j: &'a Json, key: &str) -> &'a Json {
    match j {
        Json::Obj(members) => members
            .iter()
            .find(|(k, _)| k == key)
            .map(|(_, v)| v)
            .expect("missing field"),
        _ => panic!("not an object"),
    }
}

#[test]
fn the_catalog_serializes_to_the_wire_shape() {
    let mut a = addon(-3, "Widget", Source::Hub);
    a.versions.push(Version {
        flavor: Flavor::ClassicTbc,
        game_version: None,
        date: "2020-01-01".to_string(),
    });
    let j = catalog_to_json(&vec![a]);
    let records = match &j {
        Json::Arr(records) => records,
        _ => panic!("not an array"),
    };
    assert_eq!(records.len(), 1);
    let r = &records[0];
    assert_eq!(field(r, "id"), &Json::Num(JsonNum::NegInt(-3)));
    assert_eq!(field(r, "name"), &Json::Str("Widget".to_string()));
    assert_eq!(field(r, "url"), &Json::Str("https://example.invalid/-3".to_string()));
    assert_eq!(
        field(r, "number_of_downloads"),
        &Json::Num(JsonNum::UInt(7))
    );
    assert_eq!(field(r, "summary"), &Json::Str("about".to_string()));
    assert_eq!(field(r, "source"), &Json::Str("hub".to_string()));
    assert_eq!(
        field(r, "categories"),
        &Json::Arr(vec![Json::Str("Misc".to_string())])
    );
    let versions = match field(r, "versions") {
        Json::Arr(v) => v,
        _ => panic!("versions not an array"),
    };
    assert_eq!(versions.len(), 2);
    assert_eq!(
        field(&versions[0], "flavor"),
        &Json::Str("retail".to_string())
    );
    assert_eq!(
        field(&versions[0], "game_version"),
        &Json::Str("9.0.5".to_string())
    );
    assert_eq!(
        field(&versions[0], "date"),
        &Json::Str("2021-06-09".to_string())
    );
    assert_eq!(
        field(&versions[1], "flavor"),
        &Json::Str("classic_tbc".to_string())
    );
    assert_eq!(field(&versions[1], "game_version"), &Json::Null);
}

#[test]
fn the_file_name_carries_the_build_version() {
    assert_eq!(
        catalog_file_name(&Some("0.1.0".to_string())),
        Ok("catalog-0.1.0.json".to_string())
    );
}

#[test]
fn no_version_string_means_no_catalog_file() {
    assert_eq!(catalog_file_name(&None), Err(Error::Configuration));
}
