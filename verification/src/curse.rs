use vstd::prelude::*;

use crate::digits::spec_dec_digits;
use crate::digits::u64_to_dec_string;
use crate::error::Error;
use crate::fields::spec_field_flavor;
use crate::fields::spec_field_i32;
use crate::fields::spec_field_rounded_u64;
use crate::fields::spec_field_string;
use crate::fields::spec_field_string_list;
use crate::fields::field_flavor;
use crate::fields::field_i32;
use crate::fields::field_rounded_u64;
use crate::fields::field_string;
use crate::fields::field_string_list;
use crate::json::Json;
use crate::model::Addon;
use crate::model::AddonView;
use crate::model::Flavor;
use crate::model::Source;
use crate::model::Version;
use crate::model::VersionView;

verus! {

/// Fixed number of records requested per page.
pub const PAGE_SIZE: u64 = 50;

/// One release file of a bulk-search record, in the upstream schema.
#[derive(Debug, PartialEq)]
pub struct CurseFile {
    pub file_date: String,
    pub game_version_flavor: Flavor,
    pub game_version: Vec<String>,
    pub release_type: i32,
}

/// Mathematical image of a [`CurseFile`].
pub struct CurseFileView {
    pub file_date: Seq<char>,
    pub game_version_flavor: Flavor,
    pub game_version: Seq<Seq<char>>,
    pub release_type: i32,
}

impl View for CurseFile {
    type V = CurseFileView;

    open spec fn view(&self) -> CurseFileView {
        CurseFileView {
            file_date: self.file_date@,
            game_version_flavor: self.game_version_flavor,
            game_version: self.game_version.deep_view(),
            release_type: self.release_type,
        }
    }
}

impl DeepView for CurseFile {
    type V = CurseFileView;

    open spec fn deep_view(&self) -> CurseFileView {
        self.view()
    }
}

/// One bulk-search record, in the upstream schema. The upstream download
/// count arrives as a possibly non-integral number; the decoder hands it
/// over already rounded to an unsigned count, the one reading taken of it.
/// Categories are kept by their names.
#[derive(Debug, PartialEq)]
pub struct CursePackage {
    pub id: i32,
    pub name: String,
    pub download_count: u64,
    pub summary: String,
    pub website_url: String,
    pub categories: Vec<String>,
    pub latest_files: Vec<CurseFile>,
}

/// Mathematical image of a [`CursePackage`].
pub struct CursePackageView {
    pub id: i32,
    pub name: Seq<char>,
    pub download_count: u64,
    pub summary: Seq<char>,
    pub website_url: Seq<char>,
    pub categories: Seq<Seq<char>>,
    pub latest_files: Seq<CurseFileView>,
}

impl View for CursePackage {
    type V = CursePackageView;

    open spec fn view(&self) -> CursePackageView {
        CursePackageView {
            id: self.id,
            name: self.name@,
            download_count: self.download_count,
            summary: self.summary@,
            website_url: self.website_url@,
            categories: self.categories.deep_view(),
            latest_files: self.latest_files.deep_view(),
        }
    }
}

/// The release-file schema: a date string, a flavor tag, the raw version
/// strings, and the release-type discriminant (`1` marks a stable release).
pub open spec fn spec_curse_file(j: Json) -> Result<CurseFileView, Error> {
    match spec_field_string(j, "fileDate"@) {
        Err(e) => Err(e),
        Ok(file_date) => match spec_field_flavor(j, "gameVersionFlavor"@) {
            Err(e) => Err(e),
            Ok(game_version_flavor) => match spec_field_string_list(j, "gameVersion"@) {
                Err(e) => Err(e),
                Ok(game_version) => match spec_field_i32(j, "releaseType"@) {
                    Err(e) => Err(e),
                    Ok(release_type) => Ok(
                        CurseFileView { file_date, game_version_flavor, game_version, release_type },
                    ),
                },
            },
        },
    }
}

/// Decodes one release file.
pub fn curse_file_from_json(j: &Json) -> (r: Result<CurseFile, Error>)
    ensures
        match r {
            Ok(f) => spec_curse_file(*j) == Ok::<CurseFileView, Error>(f@),
            Err(e) => spec_curse_file(*j) == Err::<CurseFileView, Error>(e),
        },
{
    let file_date = match field_string(j, "fileDate") {
        Ok(v) => v,
        Err(e) => {
            return Err(e);
        },
    };
    let game_version_flavor = match field_flavor(j, "gameVersionFlavor") {
        Ok(v) => v,
        Err(e) => {
            return Err(e);
        },
    };
    let game_version = match field_string_list(j, "gameVersion") {
        Ok(v) => v,
        Err(e) => {
            return Err(e);
        },
    };
    let release_type = match field_i32(j, "releaseType") {
        Ok(v) => v,
        Err(e) => {
            return Err(e);
        },
    };
    Ok(CurseFile { file_date, game_version_flavor, game_version, release_type })
}

/// Release files of a decoded file list, in order.
pub open spec fn spec_curse_file_list(elems: Seq<Json>) -> Result<Seq<CurseFileView>, Error>
    decreases elems.len(),
{
    if elems.len() == 0 {
        Ok(Seq::empty())
    } else {
        match spec_curse_file(elems[0]) {
            Err(e) => Err(e),
            Ok(f) => match spec_curse_file_list(elems.skip(1)) {
                Err(e) => Err(e),
                Ok(rest) => Ok(seq![f] + rest),
            },
        }
    }
}

/// Decodes the `latestFiles` list of a record.
#[verifier::loop_isolation(false)]
pub fn curse_files_from_json(j: &Json) -> (r: Result<Vec<CurseFile>, Error>)
    ensures
        match r {
            Ok(v) => match *j {
                Json::Arr(elems) => spec_curse_file_list(elems@) == Ok::<Seq<CurseFileView>, Error>(
                    v.deep_view(),
                ),
                _ => false,
            },
            Err(e) => match *j {
                Json::Arr(elems) => spec_curse_file_list(elems@) == Err::<
                    Seq<CurseFileView>,
                    Error,
                >(e),
                _ => e == Error::Decode,
            },
        },
{
    let elems = match j {
        Json::Arr(elems) => elems,
        _ => {
            return Err(Error::Decode);
        },
    };
    let mut out: Vec<CurseFile> = Vec::new();
    proof {
        assert(elems@.skip(0) =~= elems@);
        assert(out.deep_view() =~= Seq::<CurseFileView>::empty());
    }
    let mut i: usize = 0;
    while i < elems.len()
        invariant
            0 <= i <= elems@.len(),
            match spec_curse_file_list(elems@.skip(i as int)) {
                Ok(rest) => spec_curse_file_list(elems@) == Ok::<Seq<CurseFileView>, Error>(
                    out.deep_view() + rest,
                ),
                Err(e) => spec_curse_file_list(elems@) == Err::<Seq<CurseFileView>, Error>(e),
            },
        decreases elems@.len() - i,
    {
        proof {
            assert(elems@.skip(i as int)[0] == elems@[i as int]);
            assert(elems@.skip(i as int).skip(1) =~= elems@.skip(i as int + 1));
        }
        let f = match curse_file_from_json(&elems[i]) {
            Ok(f) => f,
            Err(e) => {
                return Err(e);
            },
        };
        let ghost pre = out.deep_view();
        let ghost fv = f@;
        out.push(f);
        proof {
            assert(out.deep_view() =~= pre.push(fv));
            match spec_curse_file_list(elems@.skip(i as int + 1)) {
                Ok(rest) => {
                    assert(pre + (seq![fv] + rest) =~= pre.push(fv) + rest);
                },
                Err(e) => {},
            }
        }
        i = i + 1;
    }
    proof {
        assert(elems@.skip(i as int) =~= Seq::<Json>::empty());
        assert(out.deep_view() + Seq::<CurseFileView>::empty() =~= out.deep_view());
    }
    Ok(out)
}

/// Category names of a decoded category list: each entry is an object whose
/// `name` member is a string.
pub open spec fn spec_curse_category_names(elems: Seq<Json>) -> Result<Seq<Seq<char>>, Error>
    decreases elems.len(),
{
    if elems.len() == 0 {
        Ok(Seq::empty())
    } else {
        match spec_field_string(elems[0], "name"@) {
            Err(e) => Err(e),
            Ok(name) => match spec_curse_category_names(elems.skip(1)) {
                Err(e) => Err(e),
                Ok(rest) => Ok(seq![name] + rest),
            },
        }
    }
}

/// Decodes the `categories` list of a record into its names.
#[verifier::loop_isolation(false)]
pub fn curse_category_names_from_json(j: &Json) -> (r: Result<Vec<String>, Error>)
    ensures
        match r {
            Ok(v) => match *j {
                Json::Arr(elems) => spec_curse_category_names(elems@) == Ok::<
                    Seq<Seq<char>>,
                    Error,
                >(v.deep_view()),
                _ => false,
            },
            Err(e) => match *j {
                Json::Arr(elems) => spec_curse_category_names(elems@) == Err::<
                    Seq<Seq<char>>,
                    Error,
                >(e),
                _ => e == Error::Decode,
            },
        },
{
    let elems = match j {
        Json::Arr(elems) => elems,
        _ => {
            return Err(Error::Decode);
        },
    };
    let mut out: Vec<String> = Vec::new();
    proof {
        assert(elems@.skip(0) =~= elems@);
        assert(out.deep_view() =~= Seq::<Seq<char>>::empty());
    }
    let mut i: usize = 0;
    while i < elems.len()
        invariant
            0 <= i <= elems@.len(),
            match spec_curse_category_names(elems@.skip(i as int)) {
                Ok(rest) => spec_curse_category_names(elems@) == Ok::<Seq<Seq<char>>, Error>(
                    out.deep_view() + rest,
                ),
                Err(e) => spec_curse_category_names(elems@) == Err::<Seq<Seq<char>>, Error>(e),
            },
        decreases elems@.len() - i,
    {
        proof {
            assert(elems@.skip(i as int)[0] == elems@[i as int]);
            assert(elems@.skip(i as int).skip(1) =~= elems@.skip(i as int + 1));
        }
        let name = match field_string(&elems[i], "name") {
            Ok(v) => v,
            Err(e) => {
                return Err(e);
            },
        };
        let ghost pre = out.deep_view();
        let ghost nv = name@;
        out.push(name);
        proof {
            assert(out.deep_view() =~= pre.push(nv));
            match spec_curse_category_names(elems@.skip(i as int + 1)) {
                Ok(rest) => {
                    assert(pre + (seq![nv] + rest) =~= pre.push(nv) + rest);
                },
                Err(e) => {},
            }
        }
        i = i + 1;
    }
    proof {
        assert(elems@.skip(i as int) =~= Seq::<Json>::empty());
        assert(out.deep_view() + Seq::<Seq<char>>::empty() =~= out.deep_view());
    }
    Ok(out)
}

/// The bulk-search record schema.
pub open spec fn spec_curse_package(j: Json) -> Result<CursePackageView, Error> {
    match spec_field_i32(j, "id"@) {
        Err(e) => Err(e),
        Ok(id) => match spec_field_string(j, "name"@) {
            Err(e) => Err(e),
            Ok(name) => match spec_field_rounded_u64(j, "downloadCount"@) {
                Err(e) => Err(e),
                Ok(download_count) => match spec_field_string(j, "summary"@) {
                    Err(e) => Err(e),
                    Ok(summary) => match spec_field_string(j, "websiteUrl"@) {
                        Err(e) => Err(e),
                        Ok(website_url) => match j.spec_field("categories"@) {
                            Some(Json::Arr(cat_elems)) => match spec_curse_category_names(
                                cat_elems@,
                            ) {
                                Err(e) => Err(e),
                                Ok(categories) => match j.spec_field("latestFiles"@) {
                                    Some(Json::Arr(file_elems)) => match spec_curse_file_list(
                                        file_elems@,
                                    ) {
                                        Err(e) => Err(e),
                                        Ok(latest_files) => Ok(
                                            CursePackageView {
                                                id,
                                                name,
                                                download_count,
                                                summary,
                                                website_url,
                                                categories,
                                                latest_files,
                                            },
                                        ),
                                    },
                                    _ => Err(Error::Decode),
                                },
                            },
                            _ => Err(Error::Decode),
                        },
                    },
                },
            },
        },
    }
}

/// Decodes one bulk-search record.
pub fn curse_package_from_json(j: &Json) -> (r: Result<CursePackage, Error>)
    ensures
        match r {
            Ok(p) => spec_curse_package(*j) == Ok::<CursePackageView, Error>(p@),
            Err(e) => spec_curse_package(*j) == Err::<CursePackageView, Error>(e),
        },
{
    let id = match field_i32(j, "id") {
        Ok(v) => v,
        Err(e) => {
            return Err(e);
        },
    };
    let name = match field_string(j, "name") {
        Ok(v) => v,
        Err(e) => {
            return Err(e);
        },
    };
    let download_count = match field_rounded_u64(j, "downloadCount") {
        Ok(v) => v,
        Err(e) => {
            return Err(e);
        },
    };
    let summary = match field_string(j, "summary") {
        Ok(v) => v,
        Err(e) => {
            return Err(e);
        },
    };
    let website_url = match field_string(j, "websiteUrl") {
        Ok(v) => v,
        Err(e) => {
            return Err(e);
        },
    };
    let cat_json = match j.field("categories") {
        Some(v) => v,
        None => {
            return Err(Error::Decode);
        },
    };
    match cat_json {
        Json::Arr(_) => {},
        _ => {
            return Err(Error::Decode);
        },
    }
    let categories = match curse_category_names_from_json(cat_json) {
        Ok(v) => v,
        Err(e) => {
            return Err(e);
        },
    };
    let files_json = match j.field("latestFiles") {
        Some(v) => v,
        None => {
            return Err(Error::Decode);
        },
    };
    match files_json {
        Json::Arr(_) => {},
        _ => {
            return Err(Error::Decode);
        },
    }
    let latest_files = match curse_files_from_json(files_json) {
        Ok(v) => v,
        Err(e) => {
            return Err(e);
        },
    };
    Ok(CursePackage { id, name, download_count, summary, website_url, categories, latest_files })
}

/// Version record of one release file: the flavor tag the file carries, the
/// first of its raw version strings if it has any, and its date.
pub open spec fn spec_curse_version(f: CurseFileView) -> VersionView {
    VersionView {
        flavor: f.game_version_flavor,
        game_version: if f.game_version.len() > 0 {
            Some(f.game_version[0])
        } else {
            None
        },
        date: f.file_date,
    }
}

/// Maps one release file to a version record.
pub fn curse_version_from_file(f: &CurseFile) -> (v: Version)
    ensures
        v@ == spec_curse_version(f@),
{
    let game_version: Option<String> = if f.game_version.len() > 0 {
        Some(f.game_version[0].clone())
    } else {
        None
    };
    Version { flavor: f.game_version_flavor, game_version, date: f.file_date.clone() }
}

/// Version records of a record's release files: only files flagged with the
/// stable release type are retained, in order.
pub open spec fn spec_curse_versions(files: Seq<CurseFileView>) -> Seq<VersionView>
    decreases files.len(),
{
    if files.len() == 0 {
        Seq::empty()
    } else {
        let rest = spec_curse_versions(files.skip(1));
        if files[0].release_type == 1 {
            seq![spec_curse_version(files[0])] + rest
        } else {
            rest
        }
    }
}

/// Canonical record built from one bulk-search record: stable release files
/// become its versions, category names its categories.
pub open spec fn spec_curse_addon(p: CursePackageView) -> AddonView {
    AddonView {
        id: p.id,
        name: p.name,
        url: p.website_url,
        number_of_downloads: p.download_count,
        summary: p.summary,
        versions: spec_curse_versions(p.latest_files),
        categories: p.categories,
        source: Source::Curse,
    }
}

/// Maps one decoded bulk-search record to a canonical record.
#[verifier::loop_isolation(false)]
pub fn curse_addon_from_package(p: CursePackage) -> (a: Addon)
    ensures
        a@ == spec_curse_addon(p@),
{
    let mut versions: Vec<Version> = Vec::new();
    proof {
        assert(p.latest_files.deep_view().skip(0) =~= p.latest_files.deep_view());
        assert(versions.deep_view() =~= Seq::<VersionView>::empty());
    }
    let mut i: usize = 0;
    while i < p.latest_files.len()
        invariant
            0 <= i <= p.latest_files@.len(),
            spec_curse_versions(p.latest_files.deep_view()) =~= versions.deep_view()
                + spec_curse_versions(p.latest_files.deep_view().skip(i as int)),
        decreases p.latest_files@.len() - i,
    {
        let ghost files = p.latest_files.deep_view();
        proof {
            assert(files.skip(i as int)[0] == files[i as int]);
            assert(files.skip(i as int).skip(1) =~= files.skip(i as int + 1));
        }
        let f = &p.latest_files[i];
        if f.release_type == 1 {
            let v = curse_version_from_file(f);
            let ghost pre = versions.deep_view();
            let ghost vv = v@;
            versions.push(v);
            proof {
                assert(versions.deep_view() =~= pre.push(vv));
                assert(pre + (seq![vv] + spec_curse_versions(files.skip(i as int + 1)))
                    =~= pre.push(vv) + spec_curse_versions(files.skip(i as int + 1)));
            }
        }
        i = i + 1;
    }
    proof {
        assert(p.latest_files.deep_view().skip(i as int) =~= Seq::<CurseFileView>::empty());
        assert(versions.deep_view() + Seq::<VersionView>::empty() =~= versions.deep_view());
    }
    Addon {
        id: p.id,
        name: p.name,
        url: p.website_url,
        number_of_downloads: p.download_count,
        summary: p.summary,
        versions,
        categories: p.categories,
        source: Source::Curse,
    }
}

/// Canonical records of a decoded page of bulk-search records, in order.
pub open spec fn spec_curse_addon_list(elems: Seq<Json>) -> Result<Seq<AddonView>, Error>
    decreases elems.len(),
{
    if elems.len() == 0 {
        Ok(Seq::empty())
    } else {
        match spec_curse_package(elems[0]) {
            Err(e) => Err(e),
            Ok(p) => match spec_curse_addon_list(elems.skip(1)) {
                Err(e) => Err(e),
                Ok(rest) => Ok(seq![spec_curse_addon(p)] + rest),
            },
        }
    }
}

/// Canonical records of one page, which must be a JSON array; an empty page
/// yields zero records, not an error.
pub open spec fn spec_curse_page_addons(j: Json) -> Result<Seq<AddonView>, Error> {
    match j {
        Json::Arr(elems) => spec_curse_addon_list(elems@),
        _ => Err(Error::Decode),
    }
}

/// Maps one decoded page body to canonical records.
#[verifier::loop_isolation(false)]
pub fn curse_page_addons(response: &Json) -> (r: Result<Vec<Addon>, Error>)
    ensures
        match r {
            Ok(v) => spec_curse_page_addons(*response) == Ok::<Seq<AddonView>, Error>(
                v.deep_view(),
            ),
            Err(e) => spec_curse_page_addons(*response) == Err::<Seq<AddonView>, Error>(e),
        },
{
    let elems = match response {
        Json::Arr(elems) => elems,
        _ => {
            return Err(Error::Decode);
        },
    };
    let mut out: Vec<Addon> = Vec::new();
    proof {
        assert(elems@.skip(0) =~= elems@);
        assert(out.deep_view() =~= Seq::<AddonView>::empty());
    }
    let mut i: usize = 0;
    while i < elems.len()
        invariant
            0 <= i <= elems@.len(),
            match spec_curse_addon_list(elems@.skip(i as int)) {
                Ok(rest) => spec_curse_addon_list(elems@) == Ok::<Seq<AddonView>, Error>(
                    out.deep_view() + rest,
                ),
                Err(e) => spec_curse_addon_list(elems@) == Err::<Seq<AddonView>, Error>(e),
            },
        decreases elems@.len() - i,
    {
        proof {
            assert(elems@.skip(i as int)[0] == elems@[i as int]);
            assert(elems@.skip(i as int).skip(1) =~= elems@.skip(i as int + 1));
        }
        let p = match curse_package_from_json(&elems[i]) {
            Ok(p) => p,
            Err(e) => {
                return Err(e);
            },
        };
        let ghost pre = out.deep_view();
        let a = curse_addon_from_package(p);
        out.push(a);
        proof {
            assert(out.deep_view() =~= pre.push(a@));
            match spec_curse_addon_list(elems@.skip(i as int + 1)) {
                Ok(rest) => {
                    assert(pre + (seq![a@] + rest) =~= pre.push(a@) + rest);
                },
                Err(e) => {},
            }
        }
        i = i + 1;
    }
    proof {
        assert(elems@.skip(i as int) =~= Seq::<Json>::empty());
        assert(out.deep_view() + Seq::<AddonView>::empty() =~= out.deep_view());
    }
    Ok(out)
}

/// Search endpoint for one page of `PAGE_SIZE` records from `offset`.
pub open spec fn spec_curse_endpoint(offset: u64) -> Seq<char> {
    "https://addons-ecs.forgesvc.net/api/v2/addon/search?gameId=1&pageSize=50&index="@
        + spec_dec_digits(offset as nat)
}

/// Builds the search endpoint for one page request.
pub fn curse_endpoint(offset: u64) -> (r: String)
    ensures
        r@ == spec_curse_endpoint(offset),
{
    let mut s = String::from_str(
        "https://addons-ecs.forgesvc.net/api/v2/addon/search?gameId=1&pageSize=50&index=",
    );
    let digits = u64_to_dec_string(offset);
    s.append(digits.as_str());
    s
}

/// The bulk-paginated source. Pages of `PAGE_SIZE` records are requested
/// from an offset that starts at zero and grows by the page size after every
/// request; the fetch is finished when a page comes back shorter than the
/// page size. A caller drives it: ask for the next endpoint, fetch, feed the
/// decoded page back in.
pub struct Curse {
    /// Offset the next page is requested from.
    pub offset: u64,
    /// Pages fed in so far.
    pub pages: u64,
    /// Whether a short page has ended the fetch.
    pub finished: bool,
    /// Canonical records of all pages fed in, in page order.
    pub addons: Vec<Addon>,
}

impl Curse {
    /// The offset always sits exactly one page size past each fed page.
    pub open spec fn wf(self) -> bool {
        self.offset == self.pages * PAGE_SIZE
    }

    /// A fresh fetch: nothing requested, nothing collected.
    pub fn new() -> (s: Self)
        ensures
            s.wf(),
            s.offset == 0,
            s.pages == 0,
            !s.finished,
            s.addons@ =~= Seq::<Addon>::empty(),
    {
        Curse { offset: 0, pages: 0, finished: false, addons: Vec::new() }
    }

    /// Endpoint of the next page request, or `None` once a short page has
    /// ended the fetch.
    pub fn next_endpoint(&self) -> (r: Option<String>)
        ensures
            match r {
                Some(u) => !self.finished && u@ == spec_curse_endpoint(self.offset),
                None => self.finished,
            },
    {
        if self.finished {
            None
        } else {
            Some(curse_endpoint(self.offset))
        }
    }

    /// Feeds the decoded body of the page fetched from the current offset.
    /// On success the page's records are appended in order, the offset moves
    /// one page size forward, and a page shorter than the page size ends the
    /// fetch; a page that fails to decode leaves the state unchanged.
    pub fn feed_page(&mut self, page: &Json) -> (r: Result<(), Error>)
        requires
            old(self).wf(),
            !old(self).finished,
            old(self).offset + PAGE_SIZE <= u64::MAX,
        ensures
            final(self).wf(),
            match r {
                Ok(_) => match spec_curse_page_addons(*page) {
                    Ok(page_addons) => {
                        &&& final(self).addons.deep_view() == old(self).addons.deep_view()
                            + page_addons
                        &&& final(self).offset == old(self).offset + PAGE_SIZE
                        &&& final(self).pages == old(self).pages + 1
                        &&& final(self).finished == (page_addons.len() < PAGE_SIZE)
                    },
                    Err(_) => false,
                },
                Err(e) => spec_curse_page_addons(*page) == Err::<Seq<AddonView>, Error>(e)
                    && *final(self) == *old(self),
            },
    {
        let mut page_addons = match curse_page_addons(page) {
            Ok(v) => v,
            Err(e) => {
                return Err(e);
            },
        };
        let short = (page_addons.len() as u64) < PAGE_SIZE;
        let ghost pre = self.addons.deep_view();
        let ghost pv = page_addons.deep_view();
        self.addons.append(&mut page_addons);
        proof {
            assert(self.addons.deep_view() =~= pre + pv);
        }
        let ghost prev_offset = self.offset;
        let ghost prev_pages = self.pages;
        self.offset = self.offset + PAGE_SIZE;
        self.pages = self.pages + 1;
        proof {
            assert(self.offset == self.pages * PAGE_SIZE) by (nonlinear_arith)
                requires
                    self.offset == prev_offset + PAGE_SIZE,
                    self.pages == prev_pages + 1,
                    prev_offset == prev_pages * PAGE_SIZE,
            ;
        }
        if short {
            self.finished = true;
        }
        Ok(())
    }
}

}
