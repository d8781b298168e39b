use vstd::prelude::*;

use crate::error::Error;
use crate::fields::spec_field_coerce_int32_or_default;
use crate::fields::spec_field_coerce_uint64_or_default;
use crate::fields::spec_field_string_or_default;
use crate::fields::field_coerce_int32_or_default;
use crate::fields::field_coerce_uint64_or_default;
use crate::fields::field_string_or_default;
use crate::json::Json;
use crate::model::Addon;
use crate::model::AddonView;
use crate::model::Flavor;
use crate::model::Source;
use crate::model::Version;
use crate::model::VersionView;

verus! {

/// One package of the composite source's responses, in the upstream schema.
/// Every field arrives null-laden and is read through the tolerant
/// utilities: the id and the download count may come as numbers or numeric
/// strings, everything else is text.
#[derive(Debug, PartialEq)]
pub struct TukuiPackage {
    pub id: i32,
    pub name: String,
    pub small_desc: String,
    pub author: String,
    pub version: String,
    pub screenshot_url: String,
    pub url: String,
    pub category: String,
    pub downloads: u64,
    pub lastupdate: String,
    pub patch: String,
    pub web_url: String,
}

/// Mathematical image of a [`TukuiPackage`].
pub struct TukuiPackageView {
    pub id: i32,
    pub name: Seq<char>,
    pub small_desc: Seq<char>,
    pub author: Seq<char>,
    pub version: Seq<char>,
    pub screenshot_url: Seq<char>,
    pub url: Seq<char>,
    pub category: Seq<char>,
    pub downloads: u64,
    pub lastupdate: Seq<char>,
    pub patch: Seq<char>,
    pub web_url: Seq<char>,
}

impl View for TukuiPackage {
    type V = TukuiPackageView;

    open spec fn view(&self) -> TukuiPackageView {
        TukuiPackageView {
            id: self.id,
            name: self.name@,
            small_desc: self.small_desc@,
            author: self.author@,
            version: self.version@,
            screenshot_url: self.screenshot_url@,
            url: self.url@,
            category: self.category@,
            downloads: self.downloads,
            lastupdate: self.lastupdate@,
            patch: self.patch@,
            web_url: self.web_url@,
        }
    }
}

/// The package schema: every field tolerates `null` as its zero value, per
/// the adapters' accept contract.
pub open spec fn spec_tukui_package(j: Json) -> Result<TukuiPackageView, Error> {
    match spec_field_coerce_int32_or_default(j, "id"@) {
        Err(e) => Err(e),
        Ok(id) => match spec_field_string_or_default(j, "name"@) {
            Err(e) => Err(e),
            Ok(name) => match spec_field_string_or_default(j, "small_desc"@) {
                Err(e) => Err(e),
                Ok(small_desc) => match spec_field_string_or_default(j, "author"@) {
                    Err(e) => Err(e),
                    Ok(author) => match spec_field_string_or_default(j, "version"@) {
                        Err(e) => Err(e),
                        Ok(version) => match spec_field_string_or_default(j, "screenshot_url"@) {
                            Err(e) => Err(e),
                            Ok(screenshot_url) => match spec_field_string_or_default(j, "url"@) {
                                Err(e) => Err(e),
                                Ok(url) => match spec_field_string_or_default(j, "category"@) {
                                    Err(e) => Err(e),
                                    Ok(category) => match spec_field_coerce_uint64_or_default(
                                        j,
                                        "downloads"@,
                                    ) {
                                        Err(e) => Err(e),
                                        Ok(downloads) => match spec_field_string_or_default(
                                            j,
                                            "lastupdate"@,
                                        ) {
                                            Err(e) => Err(e),
                                            Ok(lastupdate) => match spec_field_string_or_default(
                                                j,
                                                "patch"@,
                                            ) {
                                                Err(e) => Err(e),
                                                Ok(patch) => match spec_field_string_or_default(
                                                    j,
                                                    "web_url"@,
                                                ) {
                                                    Err(e) => Err(e),
                                                    Ok(web_url) => Ok(
                                                        TukuiPackageView {
                                                            id,
                                                            name,
                                                            small_desc,
                                                            author,
                                                            version,
                                                            screenshot_url,
                                                            url,
                                                            category,
                                                            downloads,
                                                            lastupdate,
                                                            patch,
                                                            web_url,
                                                        },
                                                    ),
                                                },
                                            },
                                        },
                                    },
                                },
                            },
                        },
                    },
                },
            },
        },
    }
}

/// Decodes one package.
pub fn tukui_package_from_json(j: &Json) -> (r: Result<TukuiPackage, Error>)
    ensures
        match r {
            Ok(p) => spec_tukui_package(*j) == Ok::<TukuiPackageView, Error>(p@),
            Err(e) => spec_tukui_package(*j) == Err::<TukuiPackageView, Error>(e),
        },
{
    let id = match field_coerce_int32_or_default(j, "id") {
        Ok(v) => v,
        Err(e) => {
            return Err(e);
        },
    };
    let name = match field_string_or_default(j, "name") {
        Ok(v) => v,
        Err(e) => {
            return Err(e);
        },
    };
    let small_desc = match field_string_or_default(j, "small_desc") {
        Ok(v) => v,
        Err(e) => {
            return Err(e);
        },
    };
    let author = match field_string_or_default(j, "author") {
        Ok(v) => v,
        Err(e) => {
            return Err(e);
        },
    };
    let version = match field_string_or_default(j, "version") {
        Ok(v) => v,
        Err(e) => {
            return Err(e);
        },
    };
    let screenshot_url = match field_string_or_default(j, "screenshot_url") {
        Ok(v) => v,
        Err(e) => {
            return Err(e);
        },
    };
    let url = match field_string_or_default(j, "url") {
        Ok(v) => v,
        Err(e) => {
            return Err(e);
        },
    };
    let category = match field_string_or_default(j, "category") {
        Ok(v) => v,
        Err(e) => {
            return Err(e);
        },
    };
    let downloads = match field_coerce_uint64_or_default(j, "downloads") {
        Ok(v) => v,
        Err(e) => {
            return Err(e);
        },
    };
    let lastupdate = match field_string_or_default(j, "lastupdate") {
        Ok(v) => v,
        Err(e) => {
            return Err(e);
        },
    };
    let patch = match field_string_or_default(j, "patch") {
        Ok(v) => v,
        Err(e) => {
            return Err(e);
        },
    };
    let web_url = match field_string_or_default(j, "web_url") {
        Ok(v) => v,
        Err(e) => {
            return Err(e);
        },
    };
    Ok(
        TukuiPackage {
            id,
            name,
            small_desc,
            author,
            version,
            screenshot_url,
            url,
            category,
            downloads,
            lastupdate,
            patch,
            web_url,
        },
    )
}

/// Canonical record built from one package for one flavor: a single version
/// carrying the package's patch level and update date, and a single
/// category.
pub open spec fn spec_tukui_addon(p: TukuiPackageView, flavor: Flavor) -> AddonView {
    AddonView {
        id: p.id,
        name: p.name,
        url: p.web_url,
        number_of_downloads: p.downloads,
        summary: p.small_desc,
        versions: seq![
            VersionView { flavor, game_version: Some(p.patch), date: p.lastupdate },
        ],
        categories: seq![p.category],
        source: Source::Tukui,
    }
}

/// Maps one decoded package to a canonical record for `flavor`.
pub fn tukui_addon_from_package(p: TukuiPackage, flavor: Flavor) -> (a: Addon)
    ensures
        a@ == spec_tukui_addon(p@, flavor),
{
    let version = Version { flavor, game_version: Some(p.patch), date: p.lastupdate };
    let versions: Vec<Version> = vec![version];
    let categories: Vec<String> = vec![p.category];
    let a = Addon {
        id: p.id,
        name: p.name,
        url: p.web_url,
        number_of_downloads: p.downloads,
        summary: p.small_desc,
        versions,
        categories,
        source: Source::Tukui,
    };
    proof {
        assert(a.versions.deep_view() =~= spec_tukui_addon(p@, flavor).versions);
        assert(a.categories.deep_view() =~= spec_tukui_addon(p@, flavor).categories);
    }
    a
}

/// Canonical records of a decoded package list for one flavor, in order.
pub open spec fn spec_tukui_addon_list(elems: Seq<Json>, flavor: Flavor) -> Result<
    Seq<AddonView>,
    Error,
>
    decreases elems.len(),
{
    if elems.len() == 0 {
        Ok(Seq::empty())
    } else {
        match spec_tukui_package(elems[0]) {
            Err(e) => Err(e),
            Ok(p) => match spec_tukui_addon_list(elems.skip(1), flavor) {
                Err(e) => Err(e),
                Ok(rest) => Ok(seq![spec_tukui_addon(p, flavor)] + rest),
            },
        }
    }
}

/// A package list that decodes yields exactly one record per entry.
pub proof fn lemma_tukui_addon_list_len(elems: Seq<Json>, flavor: Flavor)
    requires
        spec_tukui_addon_list(elems, flavor) is Ok,
    ensures
        spec_tukui_addon_list(elems, flavor)->Ok_0.len() == elems.len(),
    decreases elems.len(),
{
    if elems.len() > 0 {
        lemma_tukui_addon_list_len(elems.skip(1), flavor);
    }
}

/// Canonical records of one bulk-list response body for one flavor, which
/// must be a JSON array; an empty array yields zero records, not an error.
pub open spec fn spec_tukui_addons(j: Json, flavor: Flavor) -> Result<Seq<AddonView>, Error> {
    match j {
        Json::Arr(elems) => spec_tukui_addon_list(elems@, flavor),
        _ => Err(Error::Decode),
    }
}

/// Merged canonical records of the three retail endpoint bodies: the two
/// signature packages are converted like any bulk-list record and appended
/// after the bulk list's records. The signature bodies are checked first, in
/// the order the requests are issued.
pub open spec fn spec_tukui_retail_addons(elvui_body: Json, tukui_body: Json, all_body: Json)
    -> Result<Seq<AddonView>, Error> {
    match spec_tukui_package(elvui_body) {
        Err(e) => Err(e),
        Ok(elv) => match spec_tukui_package(tukui_body) {
            Err(e) => Err(e),
            Ok(tuk) => match spec_tukui_addons(all_body, Flavor::Retail) {
                Err(e) => Err(e),
                Ok(list) => Ok(
                    list + seq![
                        spec_tukui_addon(elv, Flavor::Retail),
                        spec_tukui_addon(tuk, Flavor::Retail),
                    ],
                ),
            },
        },
    }
}

/// Law: when all three retail endpoint bodies decode, the merged output has
/// exactly the bulk list's record count plus the two signature records.
pub proof fn lemma_tukui_retail_count(elvui_body: Json, tukui_body: Json, all_body: Json)
    requires
        spec_tukui_retail_addons(elvui_body, tukui_body, all_body) is Ok,
        all_body is Arr,
    ensures
        spec_tukui_retail_addons(elvui_body, tukui_body, all_body)->Ok_0.len()
            == all_body->Arr_0@.len() + 2,
{
    lemma_tukui_addon_list_len(all_body->Arr_0@, Flavor::Retail);
}

/// The composite source. Every root flavor is served by one bulk-list
/// endpoint; the retail root additionally has its two signature packages on
/// dedicated single-object endpoints, fetched together with the bulk list
/// and merged before mapping.
pub struct Tukui {}

impl Tukui {
    /// The flavors one full fetch of this source covers, in order.
    pub fn fetch_flavors() -> (r: Vec<Flavor>)
        ensures
            r@ =~= seq![
                Flavor::Retail,
                Flavor::ClassicEra,
                Flavor::ClassicTbc,
                Flavor::ClassicWotlk,
            ],
    {
        let mut v: Vec<Flavor> = Vec::new();
        v.push(Flavor::Retail);
        v.push(Flavor::ClassicEra);
        v.push(Flavor::ClassicTbc);
        v.push(Flavor::ClassicWotlk);
        v
    }

    /// Maps one decoded bulk-list response body to canonical records for
    /// `flavor`.
    #[verifier::loop_isolation(false)]
    pub fn addons_from_response(response: &Json, flavor: Flavor) -> (r: Result<Vec<Addon>, Error>)
        ensures
            match r {
                Ok(v) => spec_tukui_addons(*response, flavor) == Ok::<Seq<AddonView>, Error>(
                    v.deep_view(),
                ),
                Err(e) => spec_tukui_addons(*response, flavor) == Err::<Seq<AddonView>, Error>(e),
            },
    {
        let elems = match response {
            Json::Arr(elems) => elems,
            _ => {
                return Err(Error::Decode);
            },
        };
        let mut out: Vec<Addon> = Vec::new();
        proof {
            assert(elems@.skip(0) =~= elems@);
            assert(out.deep_view() =~= Seq::<AddonView>::empty());
        }
        let mut i: usize = 0;
        while i < elems.len()
            invariant
                0 <= i <= elems@.len(),
                match spec_tukui_addon_list(elems@.skip(i as int), flavor) {
                    Ok(rest) => spec_tukui_addon_list(elems@, flavor) == Ok::<
                        Seq<AddonView>,
                        Error,
                    >(out.deep_view() + rest),
                    Err(e) => spec_tukui_addon_list(elems@, flavor) == Err::<
                        Seq<AddonView>,
                        Error,
                    >(e),
                },
            decreases elems@.len() - i,
        {
            proof {
                assert(elems@.skip(i as int)[0] == elems@[i as int]);
                assert(elems@.skip(i as int).skip(1) =~= elems@.skip(i as int + 1));
            }
            let p = match tukui_package_from_json(&elems[i]) {
                Ok(p) => p,
                Err(e) => {
                    return Err(e);
                },
            };
            let ghost pre = out.deep_view();
            let a = tukui_addon_from_package(p, flavor);
            out.push(a);
            proof {
                assert(out.deep_view() =~= pre.push(a@));
                match spec_tukui_addon_list(elems@.skip(i as int + 1), flavor) {
                    Ok(rest) => {
                        assert(pre + (seq![a@] + rest) =~= pre.push(a@) + rest);
                    },
                    Err(e) => {},
                }
            }
            i = i + 1;
        }
        proof {
            assert(elems@.skip(i as int) =~= Seq::<Json>::empty());
            assert(out.deep_view() + Seq::<AddonView>::empty() =~= out.deep_view());
        }
        Ok(out)
    }

    /// Merges the three decoded retail endpoint bodies — the two signature
    /// single-object responses and the bulk list — into canonical records.
    /// All three bodies must be at hand before any mapping begins.
    pub fn retail_addons(elvui_body: &Json, tukui_body: &Json, all_body: &Json) -> (r: Result<
        Vec<Addon>,
        Error,
    >)
        ensures
            match r {
                Ok(v) => spec_tukui_retail_addons(*elvui_body, *tukui_body, *all_body) == Ok::<
                    Seq<AddonView>,
                    Error,
                >(v.deep_view()),
                Err(e) => spec_tukui_retail_addons(*elvui_body, *tukui_body, *all_body) == Err::<
                    Seq<AddonView>,
                    Error,
                >(e),
            },
    {
        let elv = match tukui_package_from_json(elvui_body) {
            Ok(p) => p,
            Err(e) => {
                return Err(e);
            },
        };
        let tuk = match tukui_package_from_json(tukui_body) {
            Ok(p) => p,
            Err(e) => {
                return Err(e);
            },
        };
        let mut out = match Self::addons_from_response(all_body, Flavor::Retail) {
            Ok(v) => v,
            Err(e) => {
                return Err(e);
            },
        };
        let ghost pre = out.deep_view();
        let elv_addon = tukui_addon_from_package(elv, Flavor::Retail);
        let tuk_addon = tukui_addon_from_package(tuk, Flavor::Retail);
        let ghost ev = elv_addon@;
        let ghost tv = tuk_addon@;
        out.push(elv_addon);
        out.push(tuk_addon);
        proof {
            assert(out.deep_view() =~= pre + seq![ev, tv]);
        }
        Ok(out)
    }

    /// Bulk-list endpoint for a flavor, selected by its root. The closed
    /// enumeration guarantees every root is mapped, so the configuration
    /// error is unreachable — and stated so.
    pub fn endpoint_for_addons(flavor: Flavor) -> (r: Result<String, Error>)
        ensures
            r is Ok,
            match r {
                Ok(u) => u@ == Self::spec_endpoint_for_addons(flavor),
                Err(_) => false,
            },
    {
        match flavor.base_flavor() {
            Flavor::Retail => Ok(String::from_str("https://www.tukui.org/api.php?addons=all")),
            Flavor::ClassicEra => Ok(
                String::from_str("https://www.tukui.org/api.php?classic-addons=all"),
            ),
            Flavor::ClassicTbc => Ok(
                String::from_str("https://www.tukui.org/api.php?classic-tbc-addons=all"),
            ),
            Flavor::ClassicWotlk => Ok(
                String::from_str("https://www.tukui.org/api.php?classic-wotlk-addons=all"),
            ),
            _ => Err(Error::Configuration),
        }
    }

    /// Query each root flavor's bulk list answers to.
    pub open spec fn spec_endpoint_for_addons(flavor: Flavor) -> Seq<char> {
        match flavor.spec_base_flavor() {
            Flavor::Retail => "https://www.tukui.org/api.php?addons=all"@,
            Flavor::ClassicEra => "https://www.tukui.org/api.php?classic-addons=all"@,
            Flavor::ClassicTbc => "https://www.tukui.org/api.php?classic-tbc-addons=all"@,
            Flavor::ClassicWotlk => "https://www.tukui.org/api.php?classic-wotlk-addons=all"@,
            _ => Seq::empty(),
        }
    }

    /// Endpoint of the first signature single-object response.
    pub fn endpoint_for_tukui() -> (r: String)
        ensures
            r@ == "https://www.tukui.org/api.php?ui=tukui"@,
    {
        String::from_str("https://www.tukui.org/api.php?ui=tukui")
    }

    /// Endpoint of the second signature single-object response.
    pub fn endpoint_for_elvui() -> (r: String)
        ensures
            r@ == "https://www.tukui.org/api.php?ui=elvui"@,
    {
        String::from_str("https://www.tukui.org/api.php?ui=elvui")
    }
}

}
