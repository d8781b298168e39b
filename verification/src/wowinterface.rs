use vstd::prelude::*;

use crate::error::Error;
use crate::fields::spec_field_i32;
use crate::fields::spec_field_i32_or_default;
use crate::fields::spec_field_string;
use crate::fields::spec_field_string_list_or_default;
use crate::fields::spec_field_u64;
use crate::fields::spec_field_uint_string_or_default;
use crate::fields::field_i32;
use crate::fields::field_i32_or_default;
use crate::fields::field_string;
use crate::fields::field_string_list_or_default;
use crate::fields::field_u64;
use crate::fields::field_uint_string_or_default;
use crate::json::Json;
use crate::model::Addon;
use crate::model::AddonView;
use crate::model::Flavor;
use crate::model::Source;
use crate::model::Version;
use crate::model::VersionView;
use crate::model::spec_extract_version_for_flavor;
use crate::model::extract_version_for_flavor;

verus! {

/// Flavor a file-list category id belongs to. The classic variants have
/// categories of their own; every other category lists retail add-ons.
pub open spec fn spec_flavor_for_category_id(id: i32) -> Flavor {
    if id == 160 {
        Flavor::ClassicEra
    } else if id == 161 {
        Flavor::ClassicTbc
    } else {
        Flavor::Retail
    }
}

/// Returns the `Flavor` for a category id.
pub fn flavor_for_category_id(id: i32) -> (r: Flavor)
    ensures
        r == spec_flavor_for_category_id(id),
{
    match id {
        160 => Flavor::ClassicEra,
        161 => Flavor::ClassicTbc,
        _ => Flavor::Retail,
    }
}

/// The fixed table of known category ids and their display names. An unknown
/// id has no category, which is not an error.
pub open spec fn spec_category_name_for_category_id(id: i32) -> Option<Seq<char>> {
    if id == 17 {
        Some("Graphic UI Mods"@)
    } else if id == 18 {
        Some("Character Advancement"@)
    } else if id == 19 {
        Some("Action Bar Mods"@)
    } else if id == 20 {
        Some("Bags, Bank, Inventory"@)
    } else if id == 21 {
        Some("Unit Mods"@)
    } else if id == 22 {
        Some("Buff, Debuff, Spell"@)
    } else if id == 24 {
        Some("Map, Coords, Compasses"@)
    } else if id == 25 {
        Some("Combat Mods"@)
    } else if id == 26 {
        Some("Data Mods"@)
    } else if id == 27 {
        Some("Miscellaneous"@)
    } else if id == 35 {
        Some("Developer Utilities"@)
    } else if id == 39 {
        Some("Class & Role Specific"@)
    } else if id == 40 {
        Some("TradeSkill Mods"@)
    } else if id == 45 {
        Some("Raid Mods"@)
    } else if id == 53 {
        Some("Libraries"@)
    } else if id == 55 {
        Some("Chat Mods"@)
    } else if id == 56 {
        Some("Druid"@)
    } else if id == 57 {
        Some("Hunter"@)
    } else if id == 58 {
        Some("Mage"@)
    } else if id == 59 {
        Some("Paladin"@)
    } else if id == 60 {
        Some("Priest"@)
    } else if id == 61 {
        Some("Rogue"@)
    } else if id == 62 {
        Some("Shaman"@)
    } else if id == 63 {
        Some("Warlock"@)
    } else if id == 64 {
        Some("Warrior"@)
    } else if id == 85 {
        Some("FuBar"@)
    } else if id == 88 {
        Some("WoW Tools & Utilities"@)
    } else if id == 94 {
        Some("Auction House & Vendors"@)
    } else if id == 95 {
        Some("Group, Guild & Friends"@)
    } else if id == 96 {
        Some("PvP, Arena, BattleGrounds"@)
    } else if id == 97 {
        Some("Mail"@)
    } else if id == 98 {
        Some("ToolTip"@)
    } else if id == 99 {
        Some("Titan Panel"@)
    } else if id == 100 {
        Some("Mini Games, ROFL"@)
    } else if id == 108 {
        Some("Data Broker"@)
    } else if id == 109 {
        Some("Info, Plug-in Bars"@)
    } else if id == 111 {
        Some("Other"@)
    } else if id == 112 {
        Some("Casting Bars, Cooldowns"@)
    } else if id == 113 {
        Some("Suites"@)
    } else if id == 114 {
        Some("RolePlay, Music Mods"@)
    } else if id == 146 {
        Some("Mounts & Pets"@)
    } else if id == 147 {
        Some("UI Media"@)
    } else if id == 149 {
        Some("DPS"@)
    } else if id == 150 {
        Some("Healers"@)
    } else if id == 151 {
        Some("Death Knight"@)
    } else if id == 152 {
        Some("Monk"@)
    } else if id == 153 {
        Some("Tanks"@)
    } else if id == 154 {
        Some("Utility Mods"@)
    } else if id == 155 {
        Some("Garrisons"@)
    } else if id == 157 {
        Some("Demon Hunter"@)
    } else if id == 160 {
        Some("Classic"@)
    } else if id == 161 {
        Some("The Burning Crusade Classic"@)
    } else {
        None
    }
}

/// Returns the category name for a given category id; `None` for ids the
/// table does not know.
pub fn category_name_for_category_id(id: i32) -> (r: Option<String>)
    ensures
        match r {
            Some(s) => spec_category_name_for_category_id(id) == Some(s@),
            None => spec_category_name_for_category_id(id) is None,
        },
{
    match id {
        17 => Some(String::from_str("Graphic UI Mods")),
        18 => Some(String::from_str("Character Advancement")),
        19 => Some(String::from_str("Action Bar Mods")),
        20 => Some(String::from_str("Bags, Bank, Inventory")),
        21 => Some(String::from_str("Unit Mods")),
        22 => Some(String::from_str("Buff, Debuff, Spell")),
        24 => Some(String::from_str("Map, Coords, Compasses")),
        25 => Some(String::from_str("Combat Mods")),
        26 => Some(String::from_str("Data Mods")),
        27 => Some(String::from_str("Miscellaneous")),
        35 => Some(String::from_str("Developer Utilities")),
        39 => Some(String::from_str("Class & Role Specific")),
        40 => Some(String::from_str("TradeSkill Mods")),
        45 => Some(String::from_str("Raid Mods")),
        53 => Some(String::from_str("Libraries")),
        55 => Some(String::from_str("Chat Mods")),
        56 => Some(String::from_str("Druid")),
        57 => Some(String::from_str("Hunter")),
        58 => Some(String::from_str("Mage")),
        59 => Some(String::from_str("Paladin")),
        60 => Some(String::from_str("Priest")),
        61 => Some(String::from_str("Rogue")),
        62 => Some(String::from_str("Shaman")),
        63 => Some(String::from_str("Warlock")),
        64 => Some(String::from_str("Warrior")),
        85 => Some(String::from_str("FuBar")),
        88 => Some(String::from_str("WoW Tools & Utilities")),
        94 => Some(String::from_str("Auction House & Vendors")),
        95 => Some(String::from_str("Group, Guild & Friends")),
        96 => Some(String::from_str("PvP, Arena, BattleGrounds")),
        97 => Some(String::from_str("Mail")),
        98 => Some(String::from_str("ToolTip")),
        99 => Some(String::from_str("Titan Panel")),
        100 => Some(String::from_str("Mini Games, ROFL")),
        108 => Some(String::from_str("Data Broker")),
        109 => Some(String::from_str("Info, Plug-in Bars")),
        111 => Some(String::from_str("Other")),
        112 => Some(String::from_str("Casting Bars, Cooldowns")),
        113 => Some(String::from_str("Suites")),
        114 => Some(String::from_str("RolePlay, Music Mods")),
        146 => Some(String::from_str("Mounts & Pets")),
        147 => Some(String::from_str("UI Media")),
        149 => Some(String::from_str("DPS")),
        150 => Some(String::from_str("Healers")),
        151 => Some(String::from_str("Death Knight")),
        152 => Some(String::from_str("Monk")),
        153 => Some(String::from_str("Tanks")),
        154 => Some(String::from_str("Utility Mods")),
        155 => Some(String::from_str("Garrisons")),
        157 => Some(String::from_str("Demon Hunter")),
        160 => Some(String::from_str("Classic")),
        161 => Some(String::from_str("The Burning Crusade Classic")),
        _ => None,
    }
}

/// One record of the file-list response, in the upstream schema.
#[derive(Debug, PartialEq)]
pub struct WowIPackage {
    pub id: i32,
    pub category_id: i32,
    pub version: String,
    pub last_update: String,
    pub title: String,
    pub author: String,
    pub file_info_uri: String,
    pub downloads: u64,
    pub game_versions: Vec<String>,
}

/// Mathematical image of a [`WowIPackage`].
pub struct WowIPackageView {
    pub id: i32,
    pub category_id: i32,
    pub version: Seq<char>,
    pub last_update: Seq<char>,
    pub title: Seq<char>,
    pub author: Seq<char>,
    pub file_info_uri: Seq<char>,
    pub downloads: u64,
    pub game_versions: Seq<Seq<char>>,
}

impl View for WowIPackage {
    type V = WowIPackageView;

    open spec fn view(&self) -> WowIPackageView {
        WowIPackageView {
            id: self.id,
            category_id: self.category_id,
            version: self.version@,
            last_update: self.last_update@,
            title: self.title@,
            author: self.author@,
            file_info_uri: self.file_info_uri@,
            downloads: self.downloads,
            game_versions: self.game_versions.deep_view(),
        }
    }
}

/// The file-list record schema: `id`, `version`, `title`, `author`,
/// `fileInfoUri` and `downloads` are strictly typed; `categoryId` and
/// `gameVersions` arrive null-laden and read through the tolerant
/// utilities; `lastUpdate` is a numeric timestamp stored as text.
pub open spec fn spec_wowi_package(j: Json) -> Result<WowIPackageView, Error> {
    match spec_field_i32(j, "id"@) {
        Err(e) => Err(e),
        Ok(id) => match spec_field_i32_or_default(j, "categoryId"@) {
            Err(e) => Err(e),
            Ok(category_id) => match spec_field_string(j, "version"@) {
                Err(e) => Err(e),
                Ok(version) => match spec_field_uint_string_or_default(j, "lastUpdate"@) {
                    Err(e) => Err(e),
                    Ok(last_update) => match spec_field_string(j, "title"@) {
                        Err(e) => Err(e),
                        Ok(title) => match spec_field_string(j, "author"@) {
                            Err(e) => Err(e),
                            Ok(author) => match spec_field_string(j, "fileInfoUri"@) {
                                Err(e) => Err(e),
                                Ok(file_info_uri) => match spec_field_u64(j, "downloads"@) {
                                    Err(e) => Err(e),
                                    Ok(downloads) => match spec_field_string_list_or_default(
                                        j,
                                        "gameVersions"@,
                                    ) {
                                        Err(e) => Err(e),
                                        Ok(game_versions) => Ok(
                                            WowIPackageView {
                                                id,
                                                category_id,
                                                version,
                                                last_update,
                                                title,
                                                author,
                                                file_info_uri,
                                                downloads,
                                                game_versions,
                                            },
                                        ),
                                    },
                                },
                            },
                        },
                    },
                },
            },
        },
    }
}

/// Decodes one file-list record.
pub fn wowi_package_from_json(j: &Json) -> (r: Result<WowIPackage, Error>)
    ensures
        match r {
            Ok(p) => spec_wowi_package(*j) == Ok::<WowIPackageView, Error>(p@),
            Err(e) => spec_wowi_package(*j) == Err::<WowIPackageView, Error>(e),
        },
{
    let id = match field_i32(j, "id") {
        Ok(v) => v,
        Err(e) => {
            return Err(e);
        },
    };
    let category_id = match field_i32_or_default(j, "categoryId") {
        Ok(v) => v,
        Err(e) => {
            return Err(e);
        },
    };
    let version = match field_string(j, "version") {
        Ok(v) => v,
        Err(e) => {
            return Err(e);
        },
    };
    let last_update = match field_uint_string_or_default(j, "lastUpdate") {
        Ok(v) => v,
        Err(e) => {
            return Err(e);
        },
    };
    let title = match field_string(j, "title") {
        Ok(v) => v,
        Err(e) => {
            return Err(e);
        },
    };
    let author = match field_string(j, "author") {
        Ok(v) => v,
        Err(e) => {
            return Err(e);
        },
    };
    let file_info_uri = match field_string(j, "fileInfoUri") {
        Ok(v) => v,
        Err(e) => {
            return Err(e);
        },
    };
    let downloads = match field_u64(j, "downloads") {
        Ok(v) => v,
        Err(e) => {
            return Err(e);
        },
    };
    let game_versions = match field_string_list_or_default(j, "gameVersions") {
        Ok(v) => v,
        Err(e) => {
            return Err(e);
        },
    };
    Ok(
        WowIPackage {
            id,
            category_id,
            version,
            last_update,
            title,
            author,
            file_info_uri,
            downloads,
            game_versions,
        },
    )
}

/// Canonical record built from one file-list record: the category table
/// names its categories, the category decides the flavor, and the guesser
/// picks the one matching entry out of the flat version-string list.
pub open spec fn spec_wowi_addon(p: WowIPackageView) -> AddonView {
    AddonView {
        id: p.id,
        name: p.title,
        url: p.file_info_uri,
        number_of_downloads: p.downloads,
        summary: Seq::empty(),
        versions: seq![
            VersionView {
                flavor: spec_flavor_for_category_id(p.category_id),
                game_version: spec_extract_version_for_flavor(
                    spec_flavor_for_category_id(p.category_id),
                    p.game_versions,
                ),
                date: p.last_update,
            },
        ],
        categories: match spec_category_name_for_category_id(p.category_id) {
            Some(c) => seq![c],
            None => Seq::empty(),
        },
        source: Source::WowI,
    }
}

/// Maps one decoded file-list record to a canonical record. The upstream
/// API sends no description, so the summary is empty.
pub fn wowi_addon_from_package(p: WowIPackage) -> (a: Addon)
    ensures
        a@ == spec_wowi_addon(p@),
{
    let flavor = flavor_for_category_id(p.category_id);
    let game_version = extract_version_for_flavor(flavor, &p.game_versions);
    let categories: Vec<String> = match category_name_for_category_id(p.category_id) {
        Some(c) => vec![c],
        None => Vec::new(),
    };
    let version = Version { flavor, game_version, date: p.last_update };
    let versions: Vec<Version> = vec![version];
    let a = Addon {
        id: p.id,
        name: p.title,
        url: p.file_info_uri,
        number_of_downloads: p.downloads,
        summary: String::new(),
        versions,
        categories,
        source: Source::WowI,
    };
    proof {
        assert(a.versions.deep_view() =~= spec_wowi_addon(p@).versions);
        assert(a.categories.deep_view() =~= spec_wowi_addon(p@).categories);
    }
    a
}

/// Canonical records of a decoded record list, in order; the first record
/// that fails to decode fails the whole response.
pub open spec fn spec_wowi_addon_list(elems: Seq<Json>) -> Result<Seq<AddonView>, Error>
    decreases elems.len(),
{
    if elems.len() == 0 {
        Ok(Seq::empty())
    } else {
        match spec_wowi_package(elems[0]) {
            Err(e) => Err(e),
            Ok(p) => match spec_wowi_addon_list(elems.skip(1)) {
                Err(e) => Err(e),
                Ok(rest) => Ok(seq![spec_wowi_addon(p)] + rest),
            },
        }
    }
}

/// Canonical records of one whole file-list response, which must be a JSON
/// array; an empty array yields zero records, not an error.
pub open spec fn spec_wowi_addons(j: Json) -> Result<Seq<AddonView>, Error> {
    match j {
        Json::Arr(elems) => spec_wowi_addon_list(elems@),
        _ => Err(Error::Decode),
    }
}

/// The static file-list source: one HTTP GET returns every record at once,
/// each already tagged with its category.
pub struct WoWInterface {}

impl WoWInterface {
    /// Endpoint the whole file list is fetched from.
    pub fn endpoint() -> (r: &'static str)
        ensures
            r@ == "https://api.mmoui.com/v4/game/WOW/filelist.json"@,
    {
        "https://api.mmoui.com/v4/game/WOW/filelist.json"
    }

    /// Maps one decoded file-list response body to canonical records.
    #[verifier::loop_isolation(false)]
    pub fn addons_from_response(response: &Json) -> (r: Result<Vec<Addon>, Error>)
        ensures
            match r {
                Ok(v) => spec_wowi_addons(*response) == Ok::<Seq<AddonView>, Error>(v.deep_view()),
                Err(e) => spec_wowi_addons(*response) == Err::<Seq<AddonView>, Error>(e),
            },
    {
        let elems = match response {
            Json::Arr(elems) => elems,
            _ => {
                return Err(Error::Decode);
            },
        };
        let mut out: Vec<Addon> = Vec::new();
        proof {
            assert(elems@.skip(0) =~= elems@);
            assert(out.deep_view() =~= Seq::<AddonView>::empty());
        }
        let mut i: usize = 0;
        while i < elems.len()
            invariant
                0 <= i <= elems@.len(),
                match spec_wowi_addon_list(elems@.skip(i as int)) {
                    Ok(rest) => spec_wowi_addon_list(elems@) == Ok::<Seq<AddonView>, Error>(
                        out.deep_view() + rest,
                    ),
                    Err(e) => spec_wowi_addon_list(elems@) == Err::<Seq<AddonView>, Error>(e),
                },
            decreases elems@.len() - i,
        {
            proof {
                assert(elems@.skip(i as int)[0] == elems@[i as int]);
                assert(elems@.skip(i as int).skip(1) =~= elems@.skip(i as int + 1));
            }
            let p = match wowi_package_from_json(&elems[i]) {
                Ok(p) => p,
                Err(e) => {
                    return Err(e);
                },
            };
            let ghost pre = out.deep_view();
            let a = wowi_addon_from_package(p);
            out.push(a);
            proof {
                assert(out.deep_view() =~= pre.push(a@));
                match spec_wowi_addon_list(elems@.skip(i as int + 1)) {
                    Ok(rest) => {
                        assert(pre + (seq![a@] + rest) =~= pre.push(a@) + rest);
                    },
                    Err(e) => {},
                }
            }
            i = i + 1;
        }
        proof {
            assert(elems@.skip(i as int) =~= Seq::<Json>::empty());
            assert(out.deep_view() + Seq::<AddonView>::empty() =~= out.deep_view());
        }
        Ok(out)
    }
}

}
