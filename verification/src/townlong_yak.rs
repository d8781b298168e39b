use vstd::prelude::*;

use crate::error::Error;
use crate::fields::spec_field_flavor;
use crate::fields::spec_field_i32;
use crate::fields::spec_field_string;
use crate::fields::spec_field_string_list;
use crate::fields::spec_field_u64;
use crate::fields::field_flavor;
use crate::fields::field_i32;
use crate::fields::field_string;
use crate::fields::field_string_list;
use crate::fields::field_u64;
use crate::json::Json;
use crate::model::Addon;
use crate::model::AddonView;
use crate::model::Flavor;
use crate::model::Source;
use crate::model::Version;
use crate::model::VersionView;

verus! {

/// Index of the first `'>'` in `s`, or `s.len()` when there is none.
pub open spec fn spec_first_close(s: Seq<char>) -> int
    decreases s.len(),
{
    if s.len() == 0 {
        0
    } else if s[0] == '>' {
        0
    } else {
        1 + spec_first_close(s.skip(1))
    }
}

/// `s` with every markup tag removed: scanning left to right, each substring
/// that starts at a `'<'` and runs through the nearest following `'>'` is
/// dropped; a `'<'` with no `'>'` anywhere after it starts no tag, so the
/// rest of the text stays as it is.
pub open spec fn spec_strip_tags(s: Seq<char>) -> Seq<char>
    decreases s.len(),
{
    if s.len() == 0 {
        Seq::empty()
    } else if s[0] == '<' {
        let close = spec_first_close(s);
        if 0 <= close < s.len() {
            spec_strip_tags(s.skip(close + 1))
        } else {
            s
        }
    } else {
        seq![s[0]] + spec_strip_tags(s.skip(1))
    }
}

/// Relies on `regex::Regex::replace_all`: replacing every non-overlapping,
/// leftmost-first match of the tag pattern `<[^>]*>` with nothing removes
/// exactly the substrings that start at a `'<'` and run through the nearest
/// following `'>'`; a `'<'` that no `'>'` follows has no match, so the text
/// from it on stays. `spec_strip_tags` states that scan.
#[verifier::external_body]
fn regex_strip_tags(s: &str) -> (r: String)
    ensures
        r@ == spec_strip_tags(s@),
{
    let re = regex::Regex::new("<[^>]*>").unwrap();
    re.replace_all(s, "").into_owned()
}

/// Strips embedded markup tags out of an upstream description, leaving the
/// plain text that the canonical record stores as its summary.
pub fn strip_markup(s: &str) -> (r: String)
    ensures
        r@ == spec_strip_tags(s@),
{
    regex_strip_tags(s)
}

/// One per-flavor game-version entry of a release.
#[derive(Debug, PartialEq)]
pub struct TownlongGameVersion {
    pub game_type: Flavor,
    pub title: String,
    pub interface: String,
}

/// Mathematical image of a [`TownlongGameVersion`].
pub struct TownlongGameVersionView {
    pub game_type: Flavor,
    pub title: Seq<char>,
    pub interface: Seq<char>,
}

impl View for TownlongGameVersion {
    type V = TownlongGameVersionView;

    open spec fn view(&self) -> TownlongGameVersionView {
        TownlongGameVersionView {
            game_type: self.game_type,
            title: self.title@,
            interface: self.interface@,
        }
    }
}

impl DeepView for TownlongGameVersion {
    type V = TownlongGameVersionView;

    open spec fn deep_view(&self) -> TownlongGameVersionView {
        self.view()
    }
}

/// One release of a package; only the first release of a package counts as
/// current.
#[derive(Debug, PartialEq)]
pub struct TownlongRelease {
    pub published_at: String,
    pub game_versions: Vec<TownlongGameVersion>,
}

/// Mathematical image of a [`TownlongRelease`].
pub struct TownlongReleaseView {
    pub published_at: Seq<char>,
    pub game_versions: Seq<TownlongGameVersionView>,
}

impl View for TownlongRelease {
    type V = TownlongReleaseView;

    open spec fn view(&self) -> TownlongReleaseView {
        TownlongReleaseView {
            published_at: self.published_at@,
            game_versions: self.game_versions.deep_view(),
        }
    }
}

impl DeepView for TownlongRelease {
    type V = TownlongReleaseView;

    open spec fn deep_view(&self) -> TownlongReleaseView {
        self.view()
    }
}

/// One package of the author-scoped response, in the upstream schema.
#[derive(Debug, PartialEq)]
pub struct TownlongPackage {
    pub id: i32,
    pub repository: String,
    pub repository_name: String,
    pub source: String,
    pub description: String,
    pub homepage: String,
    pub image_url: String,
    pub owner_image_url: String,
    pub owner_name: String,
    pub total_download_count: u64,
    pub funding_links: Vec<String>,
    pub releases: Vec<TownlongRelease>,
}

/// Mathematical image of a [`TownlongPackage`].
pub struct TownlongPackageView {
    pub id: i32,
    pub repository: Seq<char>,
    pub repository_name: Seq<char>,
    pub source: Seq<char>,
    pub description: Seq<char>,
    pub homepage: Seq<char>,
    pub image_url: Seq<char>,
    pub owner_image_url: Seq<char>,
    pub owner_name: Seq<char>,
    pub total_download_count: u64,
    pub funding_links: Seq<Seq<char>>,
    pub releases: Seq<TownlongReleaseView>,
}

impl View for TownlongPackage {
    type V = TownlongPackageView;

    open spec fn view(&self) -> TownlongPackageView {
        TownlongPackageView {
            id: self.id,
            repository: self.repository@,
            repository_name: self.repository_name@,
            source: self.source@,
            description: self.description@,
            homepage: self.homepage@,
            image_url: self.image_url@,
            owner_image_url: self.owner_image_url@,
            owner_name: self.owner_name@,
            total_download_count: self.total_download_count,
            funding_links: self.funding_links.deep_view(),
            releases: self.releases.deep_view(),
        }
    }
}

/// The game-version entry schema: `game_type` is a flavor tag, `title` and
/// `interface` are plain strings.
pub open spec fn spec_townlong_game_version(j: Json) -> Result<TownlongGameVersionView, Error> {
    match spec_field_flavor(j, "game_type"@) {
        Err(e) => Err(e),
        Ok(game_type) => match spec_field_string(j, "title"@) {
            Err(e) => Err(e),
            Ok(title) => match spec_field_string(j, "interface"@) {
                Err(e) => Err(e),
                Ok(interface) => Ok(TownlongGameVersionView { game_type, title, interface }),
            },
        },
    }
}

/// Decodes one game-version entry.
pub fn townlong_game_version_from_json(j: &Json) -> (r: Result<TownlongGameVersion, Error>)
    ensures
        match r {
            Ok(gv) => spec_townlong_game_version(*j) == Ok::<TownlongGameVersionView, Error>(gv@),
            Err(e) => spec_townlong_game_version(*j) == Err::<TownlongGameVersionView, Error>(e),
        },
{
    let game_type = match field_flavor(j, "game_type") {
        Ok(v) => v,
        Err(e) => {
            return Err(e);
        },
    };
    let title = match field_string(j, "title") {
        Ok(v) => v,
        Err(e) => {
            return Err(e);
        },
    };
    let interface = match field_string(j, "interface") {
        Ok(v) => v,
        Err(e) => {
            return Err(e);
        },
    };
    Ok(TownlongGameVersion { game_type, title, interface })
}

/// Game-version entries of a decoded entry list, in order; the first entry
/// that fails to decode fails the list.
pub open spec fn spec_townlong_game_version_list(elems: Seq<Json>) -> Result<
    Seq<TownlongGameVersionView>,
    Error,
>
    decreases elems.len(),
{
    if elems.len() == 0 {
        Ok(Seq::empty())
    } else {
        match spec_townlong_game_version(elems[0]) {
            Err(e) => Err(e),
            Ok(gv) => match spec_townlong_game_version_list(elems.skip(1)) {
                Err(e) => Err(e),
                Ok(rest) => Ok(seq![gv] + rest),
            },
        }
    }
}

/// Decodes a list of game-version entries.
#[verifier::loop_isolation(false)]
pub fn townlong_game_versions_from_json(j: &Json) -> (r: Result<Vec<TownlongGameVersion>, Error>)
    ensures
        match r {
            Ok(v) => match *j {
                Json::Arr(elems) => spec_townlong_game_version_list(elems@) == Ok::<
                    Seq<TownlongGameVersionView>,
                    Error,
                >(v.deep_view()),
                _ => false,
            },
            Err(e) => match *j {
                Json::Arr(elems) => spec_townlong_game_version_list(elems@) == Err::<
                    Seq<TownlongGameVersionView>,
                    Error,
                >(e),
                _ => e == Error::Decode,
            },
        },
{
    let elems = match j {
        Json::Arr(elems) => elems,
        _ => {
            return Err(Error::Decode);
        },
    };
    let mut out: Vec<TownlongGameVersion> = Vec::new();
    proof {
        assert(elems@.skip(0) =~= elems@);
        assert(out.deep_view() =~= Seq::<TownlongGameVersionView>::empty());
    }
    let mut i: usize = 0;
    while i < elems.len()
        invariant
            0 <= i <= elems@.len(),
            match spec_townlong_game_version_list(elems@.skip(i as int)) {
                Ok(rest) => spec_townlong_game_version_list(elems@) == Ok::<
                    Seq<TownlongGameVersionView>,
                    Error,
                >(out.deep_view() + rest),
                Err(e) => spec_townlong_game_version_list(elems@) == Err::<
                    Seq<TownlongGameVersionView>,
                    Error,
                >(e),
            },
        decreases elems@.len() - i,
    {
        proof {
            assert(elems@.skip(i as int)[0] == elems@[i as int]);
            assert(elems@.skip(i as int).skip(1) =~= elems@.skip(i as int + 1));
        }
        let gv = match townlong_game_version_from_json(&elems[i]) {
            Ok(gv) => gv,
            Err(e) => {
                return Err(e);
            },
        };
        let ghost pre = out.deep_view();
        let ghost gvv = gv@;
        out.push(gv);
        proof {
            assert(out.deep_view() =~= pre.push(gvv));
            match spec_townlong_game_version_list(elems@.skip(i as int + 1)) {
                Ok(rest) => {
                    assert(pre + (seq![gvv] + rest) =~= pre.push(gvv) + rest);
                },
                Err(e) => {},
            }
        }
        i = i + 1;
    }
    proof {
        assert(elems@.skip(i as int) =~= Seq::<Json>::empty());
        assert(out.deep_view() + Seq::<TownlongGameVersionView>::empty() =~= out.deep_view());
    }
    Ok(out)
}

/// The release schema: a publish date and the per-flavor game-version
/// entries.
pub open spec fn spec_townlong_release(j: Json) -> Result<TownlongReleaseView, Error> {
    match spec_field_string(j, "published_at"@) {
        Err(e) => Err(e),
        Ok(published_at) => match j.spec_field("game_versions"@) {
            Some(Json::Arr(elems)) => match spec_townlong_game_version_list(elems@) {
                Err(e) => Err(e),
                Ok(game_versions) => Ok(TownlongReleaseView { published_at, game_versions }),
            },
            _ => Err(Error::Decode),
        },
    }
}

/// Decodes one release.
pub fn townlong_release_from_json(j: &Json) -> (r: Result<TownlongRelease, Error>)
    ensures
        match r {
            Ok(rel) => spec_townlong_release(*j) == Ok::<TownlongReleaseView, Error>(rel@),
            Err(e) => spec_townlong_release(*j) == Err::<TownlongReleaseView, Error>(e),
        },
{
    let published_at = match field_string(j, "published_at") {
        Ok(v) => v,
        Err(e) => {
            return Err(e);
        },
    };
    let gv_json = match j.field("game_versions") {
        Some(v) => v,
        None => {
            return Err(Error::Decode);
        },
    };
    match gv_json {
        Json::Arr(_) => {},
        _ => {
            return Err(Error::Decode);
        },
    }
    let game_versions = match townlong_game_versions_from_json(gv_json) {
        Ok(v) => v,
        Err(e) => {
            return Err(e);
        },
    };
    Ok(TownlongRelease { published_at, game_versions })
}

/// Releases of a decoded release list, in order.
pub open spec fn spec_townlong_release_list(elems: Seq<Json>) -> Result<
    Seq<TownlongReleaseView>,
    Error,
>
    decreases elems.len(),
{
    if elems.len() == 0 {
        Ok(Seq::empty())
    } else {
        match spec_townlong_release(elems[0]) {
            Err(e) => Err(e),
            Ok(rel) => match spec_townlong_release_list(elems.skip(1)) {
                Err(e) => Err(e),
                Ok(rest) => Ok(seq![rel] + rest),
            },
        }
    }
}

/// Decodes the release list of a package.
#[verifier::loop_isolation(false)]
pub fn townlong_releases_from_json(j: &Json) -> (r: Result<Vec<TownlongRelease>, Error>)
    ensures
        match r {
            Ok(v) => match *j {
                Json::Arr(elems) => spec_townlong_release_list(elems@) == Ok::<
                    Seq<TownlongReleaseView>,
                    Error,
                >(v.deep_view()),
                _ => false,
            },
            Err(e) => match *j {
                Json::Arr(elems) => spec_townlong_release_list(elems@) == Err::<
                    Seq<TownlongReleaseView>,
                    Error,
                >(e),
                _ => e == Error::Decode,
            },
        },
{
    let elems = match j {
        Json::Arr(elems) => elems,
        _ => {
            return Err(Error::Decode);
        },
    };
    let mut out: Vec<TownlongRelease> = Vec::new();
    proof {
        assert(elems@.skip(0) =~= elems@);
        assert(out.deep_view() =~= Seq::<TownlongReleaseView>::empty());
    }
    let mut i: usize = 0;
    while i < elems.len()
        invariant
            0 <= i <= elems@.len(),
            match spec_townlong_release_list(elems@.skip(i as int)) {
                Ok(rest) => spec_townlong_release_list(elems@) == Ok::<
                    Seq<TownlongReleaseView>,
                    Error,
                >(out.deep_view() + rest),
                Err(e) => spec_townlong_release_list(elems@) == Err::<
                    Seq<TownlongReleaseView>,
                    Error,
                >(e),
            },
        decreases elems@.len() - i,
    {
        proof {
            assert(elems@.skip(i as int)[0] == elems@[i as int]);
            assert(elems@.skip(i as int).skip(1) =~= elems@.skip(i as int + 1));
        }
        let rel = match townlong_release_from_json(&elems[i]) {
            Ok(rel) => rel,
            Err(e) => {
                return Err(e);
            },
        };
        let ghost pre = out.deep_view();
        let ghost relv = rel@;
        out.push(rel);
        proof {
            assert(out.deep_view() =~= pre.push(relv));
            match spec_townlong_release_list(elems@.skip(i as int + 1)) {
                Ok(rest) => {
                    assert(pre + (seq![relv] + rest) =~= pre.push(relv) + rest);
                },
                Err(e) => {},
            }
        }
        i = i + 1;
    }
    proof {
        assert(elems@.skip(i as int) =~= Seq::<Json>::empty());
        assert(out.deep_view() + Seq::<TownlongReleaseView>::empty() =~= out.deep_view());
    }
    Ok(out)
}

/// The package schema of the author-scoped response. Every field is
/// strictly typed.
pub open spec fn spec_townlong_package(j: Json) -> Result<TownlongPackageView, Error> {
    match spec_field_i32(j, "id"@) {
        Err(e) => Err(e),
        Ok(id) => match spec_field_string(j, "repository"@) {
            Err(e) => Err(e),
            Ok(repository) => match spec_field_string(j, "repository_name"@) {
                Err(e) => Err(e),
                Ok(repository_name) => match spec_field_string(j, "source"@) {
                    Err(e) => Err(e),
                    Ok(source) => match spec_field_string(j, "description"@) {
                        Err(e) => Err(e),
                        Ok(description) => match spec_field_string(j, "homepage"@) {
                            Err(e) => Err(e),
                            Ok(homepage) => match spec_field_string(j, "image_url"@) {
                                Err(e) => Err(e),
                                Ok(image_url) => match spec_field_string(j, "owner_image_url"@) {
                                    Err(e) => Err(e),
                                    Ok(owner_image_url) => match spec_field_string(
                                        j,
                                        "owner_name"@,
                                    ) {
                                        Err(e) => Err(e),
                                        Ok(owner_name) => match spec_field_u64(
                                            j,
                                            "total_download_count"@,
                                        ) {
                                            Err(e) => Err(e),
                                            Ok(total_download_count) => match spec_field_string_list(
                                                j,
                                                "funding_links"@,
                                            ) {
                                                Err(e) => Err(e),
                                                Ok(funding_links) => match j.spec_field(
                                                    "releases"@,
                                                ) {
                                                    Some(Json::Arr(elems)) => match spec_townlong_release_list(
                                                        elems@,
                                                    ) {
                                                        Err(e) => Err(e),
                                                        Ok(releases) => Ok(
                                                            TownlongPackageView {
                                                                id,
                                                                repository,
                                                                repository_name,
                                                                source,
                                                                description,
                                                                homepage,
                                                                image_url,
                                                                owner_image_url,
                                                                owner_name,
                                                                total_download_count,
                                                                funding_links,
                                                                releases,
                                                            },
                                                        ),
                                                    },
                                                    _ => Err(Error::Decode),
                                                },
                                            },
                                        },
                                    },
                                },
                            },
                        },
                    },
                },
            },
        },
    }
}

/// Decodes one package of the author-scoped response.
pub fn townlong_package_from_json(j: &Json) -> (r: Result<TownlongPackage, Error>)
    ensures
        match r {
            Ok(p) => spec_townlong_package(*j) == Ok::<TownlongPackageView, Error>(p@),
            Err(e) => spec_townlong_package(*j) == Err::<TownlongPackageView, Error>(e),
        },
{
    let id = match field_i32(j, "id") {
        Ok(v) => v,
        Err(e) => {
            return Err(e);
        },
    };
    let repository = match field_string(j, "repository") {
        Ok(v) => v,
        Err(e) => {
            return Err(e);
        },
    };
    let repository_name = match field_string(j, "repository_name") {
        Ok(v) => v,
        Err(e) => {
            return Err(e);
        },
    };
    let source = match field_string(j, "source") {
        Ok(v) => v,
        Err(e) => {
            return Err(e);
        },
    };
    let description = match field_string(j, "description") {
        Ok(v) => v,
        Err(e) => {
            return Err(e);
        },
    };
    let homepage = match field_string(j, "homepage") {
        Ok(v) => v,
        Err(e) => {
            return Err(e);
        },
    };
    let image_url = match field_string(j, "image_url") {
        Ok(v) => v,
        Err(e) => {
            return Err(e);
        },
    };
    let owner_image_url = match field_string(j, "owner_image_url") {
        Ok(v) => v,
        Err(e) => {
            return Err(e);
        },
    };
    let owner_name = match field_string(j, "owner_name") {
        Ok(v) => v,
        Err(e) => {
            return Err(e);
        },
    };
    let total_download_count = match field_u64(j, "total_download_count") {
        Ok(v) => v,
        Err(e) => {
            return Err(e);
        },
    };
    let funding_links = match field_string_list(j, "funding_links") {
        Ok(v) => v,
        Err(e) => {
            return Err(e);
        },
    };
    let releases_json = match j.field("releases") {
        Some(v) => v,
        None => {
            return Err(Error::Decode);
        },
    };
    match releases_json {
        Json::Arr(_) => {},
        _ => {
            return Err(Error::Decode);
        },
    }
    let releases = match townlong_releases_from_json(releases_json) {
        Ok(v) => v,
        Err(e) => {
            return Err(e);
        },
    };
    Ok(
        TownlongPackage {
            id,
            repository,
            repository_name,
            source,
            description,
            homepage,
            image_url,
            owner_image_url,
            owner_name,
            total_download_count,
            funding_links,
            releases,
        },
    )
}

/// Version records of a package: only the first release counts as current;
/// each of its game-version entries becomes one version sharing the
/// release's publish date. A package without releases has no versions.
pub open spec fn spec_townlong_versions(releases: Seq<TownlongReleaseView>) -> Seq<VersionView> {
    if releases.len() == 0 {
        Seq::empty()
    } else {
        Seq::new(
            releases[0].game_versions.len(),
            |k: int|
                VersionView {
                    flavor: releases[0].game_versions[k].game_type,
                    game_version: Some(releases[0].game_versions[k].interface),
                    date: releases[0].published_at,
                },
        )
    }
}

/// Canonical record built from one package: the repository supplies name and
/// url, the description is stored with its markup stripped, and the first
/// release's game-version entries become the versions.
pub open spec fn spec_townlong_addon(p: TownlongPackageView) -> AddonView {
    AddonView {
        id: p.id,
        name: p.repository_name,
        url: p.repository,
        number_of_downloads: p.total_download_count,
        summary: spec_strip_tags(p.description),
        versions: spec_townlong_versions(p.releases),
        categories: Seq::empty(),
        source: Source::Hub,
    }
}

/// Maps one decoded package to a canonical record.
#[verifier::loop_isolation(false)]
pub fn townlong_addon_from_package(p: TownlongPackage) -> (a: Addon)
    ensures
        a@ == spec_townlong_addon(p@),
{
    let summary = strip_markup(p.description.as_str());
    let mut versions: Vec<Version> = Vec::new();
    if p.releases.len() > 0 {
        let release = &p.releases[0];
        let ghost rv = release@;
        proof {
            assert(p.releases.deep_view()[0] == rv);
            assert(rv.game_versions.len() == release.game_versions@.len());
        }
        let mut k: usize = 0;
        while k < release.game_versions.len()
            invariant
                0 <= k <= release.game_versions@.len(),
                versions.deep_view() =~= spec_townlong_versions(p.releases.deep_view()).take(
                    k as int,
                ),
            decreases release.game_versions@.len() - k,
        {
            let gv = &release.game_versions[k];
            let ghost pre = versions.deep_view();
            versions.push(
                Version {
                    flavor: gv.game_type,
                    game_version: Some(gv.interface.clone()),
                    date: release.published_at.clone(),
                },
            );
            proof {
                assert(versions.deep_view() =~= pre.push(versions@[k as int]@));
                assert(versions.deep_view() =~= spec_townlong_versions(
                    p.releases.deep_view(),
                ).take(k as int + 1));
            }
            k = k + 1;
        }
        proof {
            assert(spec_townlong_versions(p.releases.deep_view()).take(k as int)
                =~= spec_townlong_versions(p.releases.deep_view()));
        }
    } else {
        proof {
            assert(versions.deep_view() =~= spec_townlong_versions(p.releases.deep_view()));
        }
    }
    let a = Addon {
        id: p.id,
        name: p.repository_name,
        url: p.repository,
        number_of_downloads: p.total_download_count,
        summary,
        versions,
        categories: Vec::new(),
        source: Source::Hub,
    };
    proof {
        assert(a.categories.deep_view() =~= Seq::<Seq<char>>::empty());
        assert(a@.versions =~= spec_townlong_addon(p@).versions);
    }
    a
}

/// Canonical records of a decoded package list, in order.
pub open spec fn spec_townlong_addon_list(elems: Seq<Json>) -> Result<Seq<AddonView>, Error>
    decreases elems.len(),
{
    if elems.len() == 0 {
        Ok(Seq::empty())
    } else {
        match spec_townlong_package(elems[0]) {
            Err(e) => Err(e),
            Ok(p) => match spec_townlong_addon_list(elems.skip(1)) {
                Err(e) => Err(e),
                Ok(rest) => Ok(seq![spec_townlong_addon(p)] + rest),
            },
        }
    }
}

/// Canonical records of one whole author-scoped response: a container
/// object whose `addons` member lists the packages.
pub open spec fn spec_townlong_addons(j: Json) -> Result<Seq<AddonView>, Error> {
    match j.spec_field("addons"@) {
        Some(Json::Arr(elems)) => spec_townlong_addon_list(elems@),
        _ => Err(Error::Decode),
    }
}

/// The author-scoped source: one HTTP GET returns a container with the
/// author's packages, each carrying its own release history.
pub struct TownlongYak {}

impl TownlongYak {
    /// Endpoint the author's page of packages is fetched from.
    pub fn endpoint() -> (r: &'static str)
        ensures
            r@ == "https://hub.wowup.io/addons/author/foxlit"@,
    {
        "https://hub.wowup.io/addons/author/foxlit"
    }

    /// Maps one decoded author-page response body to canonical records.
    #[verifier::loop_isolation(false)]
    pub fn addons_from_response(response: &Json) -> (r: Result<Vec<Addon>, Error>)
        ensures
            match r {
                Ok(v) => spec_townlong_addons(*response) == Ok::<Seq<AddonView>, Error>(
                    v.deep_view(),
                ),
                Err(e) => spec_townlong_addons(*response) == Err::<Seq<AddonView>, Error>(e),
            },
    {
        let addons_json = match response.field("addons") {
            Some(v) => v,
            None => {
                return Err(Error::Decode);
            },
        };
        let elems = match addons_json {
            Json::Arr(elems) => elems,
            _ => {
                return Err(Error::Decode);
            },
        };
        let mut out: Vec<Addon> = Vec::new();
        proof {
            assert(elems@.skip(0) =~= elems@);
            assert(out.deep_view() =~= Seq::<AddonView>::empty());
        }
        let mut i: usize = 0;
        while i < elems.len()
            invariant
                0 <= i <= elems@.len(),
                match spec_townlong_addon_list(elems@.skip(i as int)) {
                    Ok(rest) => spec_townlong_addon_list(elems@) == Ok::<Seq<AddonView>, Error>(
                        out.deep_view() + rest,
                    ),
                    Err(e) => spec_townlong_addon_list(elems@) == Err::<Seq<AddonView>, Error>(e),
                },
            decreases elems@.len() - i,
        {
            proof {
                assert(elems@.skip(i as int)[0] == elems@[i as int]);
                assert(elems@.skip(i as int).skip(1) =~= elems@.skip(i as int + 1));
            }
            let p = match townlong_package_from_json(&elems[i]) {
                Ok(p) => p,
                Err(e) => {
                    return Err(e);
                },
            };
            let ghost pre = out.deep_view();
            let a = townlong_addon_from_package(p);
            out.push(a);
            proof {
                assert(out.deep_view() =~= pre.push(a@));
                match spec_townlong_addon_list(elems@.skip(i as int + 1)) {
                    Ok(rest) => {
                        assert(pre + (seq![a@] + rest) =~= pre.push(a@) + rest);
                    },
                    Err(e) => {},
                }
            }
            i = i + 1;
        }
        proof {
            assert(elems@.skip(i as int) =~= Seq::<Json>::empty());
            assert(out.deep_view() + Seq::<AddonView>::empty() =~= out.deep_view());
        }
        Ok(out)
    }
}

}
