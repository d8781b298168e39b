use vstd::prelude::*;

use crate::coerce::spec_json_int;
use crate::error::Error;
use crate::json::Json;
use crate::json::JsonNum;
use crate::model::Addon;
use crate::model::AddonView;
use crate::model::Source;
use crate::model::Version;
use crate::model::VersionView;

verus! {

/// The fixed, closed set of configured sources, in the order their records
/// appear in the merged catalog.
pub fn configured_sources() -> (r: Vec<Source>)
    ensures
        r@ =~= seq![Source::Curse, Source::Tukui, Source::WowI, Source::Hub],
{
    let mut v: Vec<Source> = Vec::new();
    v.push(Source::Curse);
    v.push(Source::Tukui);
    v.push(Source::WowI);
    v.push(Source::Hub);
    v
}

/// Fail-fast merge of the buffered per-source results, taken in configured
/// source order: the error of the earliest failed source, or the
/// concatenation of every source's records with each source's own order
/// kept.
pub open spec fn spec_merge_results(rs: Seq<Result<Vec<Addon>, Error>>) -> Result<
    Seq<AddonView>,
    Error,
>
    decreases rs.len(),
{
    if rs.len() == 0 {
        Ok(Seq::empty())
    } else {
        match rs[0] {
            Err(e) => Err(e),
            Ok(v) => match spec_merge_results(rs.skip(1)) {
                Err(e) => Err(e),
                Ok(rest) => Ok(v.deep_view() + rest),
            },
        }
    }
}

/// Merges the buffered per-source results into one catalog sequence.
///
/// The caller hands the results in configured source order, each adapter's
/// records already in the order that adapter produced them; which network
/// call resolved first cannot matter, because everything is buffered before
/// this point. One failing source fails the whole merge and no partial
/// catalog is produced.
#[verifier::loop_isolation(false)]
pub fn merge_results(results: Vec<Result<Vec<Addon>, Error>>) -> (r: Result<Vec<Addon>, Error>)
    ensures
        match r {
            Ok(v) => spec_merge_results(results@) == Ok::<Seq<AddonView>, Error>(v.deep_view()),
            Err(e) => spec_merge_results(results@) == Err::<Seq<AddonView>, Error>(e),
        },
{
    let ghost orig = results@;
    let mut results = results;
    let mut out: Vec<Addon> = Vec::new();
    proof {
        assert(orig.skip(0) =~= orig);
        assert(out.deep_view() =~= Seq::<AddonView>::empty());
    }
    let mut i: usize = 0;
    let n = results.len();
    while i < n
        invariant
            0 <= i <= n,
            n == orig.len(),
            results@ =~= orig.skip(i as int),
            match spec_merge_results(orig.skip(i as int)) {
                Ok(rest) => spec_merge_results(orig) == Ok::<Seq<AddonView>, Error>(
                    out.deep_view() + rest,
                ),
                Err(e) => spec_merge_results(orig) == Err::<Seq<AddonView>, Error>(e),
            },
        decreases n - i,
    {
        proof {
            assert(orig.skip(i as int)[0] == orig[i as int]);
            assert(orig.skip(i as int).skip(1) =~= orig.skip(i as int + 1));
        }
        let first = results.remove(0);
        proof {
            assert(results@ =~= orig.skip(i as int + 1));
        }
        let mut v = match first {
            Ok(v) => v,
            Err(e) => {
                return Err(e);
            },
        };
        let ghost pre = out.deep_view();
        let ghost vv = v.deep_view();
        out.append(&mut v);
        proof {
            assert(out.deep_view() =~= pre + vv);
            match spec_merge_results(orig.skip(i as int + 1)) {
                Ok(rest) => {
                    assert(pre + (vv + rest) =~= (pre + vv) + rest);
                },
                Err(e) => {},
            }
        }
        i = i + 1;
    }
    proof {
        assert(orig.skip(i as int) =~= Seq::<Result<Vec<Addon>, Error>>::empty());
        assert(out.deep_view() + Seq::<AddonView>::empty() =~= out.deep_view());
    }
    Ok(out)
}

/// Concatenation of successful per-source record lists, in order.
pub open spec fn spec_concat_sources(rs: Seq<Result<Vec<Addon>, Error>>) -> Seq<AddonView>
    decreases rs.len(),
{
    if rs.len() == 0 {
        Seq::empty()
    } else {
        (rs[0]->Ok_0).deep_view() + spec_concat_sources(rs.skip(1))
    }
}

/// Law: when every source succeeds, the merge succeeds and is exactly the
/// concatenation of the sources' record lists in the configured order, each
/// list kept in its own order.
pub proof fn lemma_merge_all_ok(rs: Seq<Result<Vec<Addon>, Error>>)
    requires
        forall|k: int| 0 <= k < rs.len() ==> rs[k] is Ok,
    ensures
        spec_merge_results(rs) == Ok::<Seq<AddonView>, Error>(spec_concat_sources(rs)),
    decreases rs.len(),
{
    if rs.len() > 0 {
        assert(rs[0] is Ok);
        assert(forall|k: int| 0 <= k < rs.skip(1).len() ==> rs.skip(1)[k] is Ok);
        lemma_merge_all_ok(rs.skip(1));
    }
}

/// Law: one failing source fails the whole build. When the source at `i` is
/// the earliest to fail, the merge's overall result is exactly that source's
/// error, and no record list comes out.
pub proof fn lemma_merge_fail_fast(rs: Seq<Result<Vec<Addon>, Error>>, i: int)
    requires
        0 <= i < rs.len(),
        rs[i] is Err,
        forall|k: int| 0 <= k < i ==> rs[k] is Ok,
    ensures
        spec_merge_results(rs) == Err::<Seq<AddonView>, Error>(rs[i]->Err_0),
    decreases i,
{
    if i > 0 {
        assert(rs[0] is Ok);
        assert(rs.skip(1)[i - 1] is Err);
        assert(forall|k: int| 0 <= k < i - 1 ==> rs.skip(1)[k] is Ok);
        lemma_merge_fail_fast(rs.skip(1), i - 1);
    }
}

/// Whether `j` is the JSON image of the version record `v`: an object whose
/// `flavor` is the flavor's lowercase tag, whose `game_version` is the
/// string or `null`, and whose `date` is the raw date string.
pub open spec fn spec_json_represents_version(j: Json, v: VersionView) -> bool {
    &&& j is Obj
    &&& (j.spec_field("flavor"@) matches Some(f) && f matches Json::Str(s) && s@ == v.flavor.spec_tag())
    &&& (match v.game_version {
        Some(gv) => j.spec_field("game_version"@) matches Some(g) && g matches Json::Str(s) && s@
            == gv,
        None => j.spec_field("game_version"@) == Some(Json::Null),
    })
    &&& (j.spec_field("date"@) matches Some(d) && d matches Json::Str(s) && s@ == v.date)
}

/// Renders one version record to its JSON image.
pub fn version_to_json(v: &Version) -> (j: Json)
    ensures
        spec_json_represents_version(j, v@),
{
    let game_version: Json = match &v.game_version {
        Some(s) => Json::Str(s.clone()),
        None => Json::Null,
    };
    let mut members: Vec<(String, Json)> = Vec::new();
    members.push((String::from_str("flavor"), Json::Str(String::from_str(v.flavor.tag()))));
    members.push((String::from_str("game_version"), game_version));
    members.push((String::from_str("date"), Json::Str(v.date.clone())));
    let j = Json::Obj(members);
    proof {
        reveal_strlit("flavor");
        reveal_strlit("game_version");
        reveal_strlit("date");
        let m = members@;
        assert(m.len() == 3);
        assert(m[0].0@ == "flavor"@);
        assert(m[1].0@ == "game_version"@);
        assert(m[2].0@ == "date"@);
        crate::json::lemma_obj_get_at(m, "flavor"@, 0);
        crate::json::lemma_obj_get_at(m, "game_version"@, 1);
        crate::json::lemma_obj_get_at(m, "date"@, 2);
    }
    j
}

/// Whether `j` is the JSON image of the canonical record `a`: an object
/// carrying the record's fields under their names, with the versions and
/// categories as arrays in order and the source as its lowercase tag.
pub open spec fn spec_json_represents_addon(j: Json, a: AddonView) -> bool {
    &&& j is Obj
    &&& j.spec_field("id"@) == Some(Json::Num(spec_json_int(a.id as int)))
    &&& (j.spec_field("name"@) matches Some(n) && n matches Json::Str(s) && s@ == a.name)
    &&& (j.spec_field("url"@) matches Some(u) && u matches Json::Str(s) && s@ == a.url)
    &&& j.spec_field("number_of_downloads"@) == Some(
        Json::Num(JsonNum::UInt(a.number_of_downloads)),
    )
    &&& (j.spec_field("summary"@) matches Some(m) && m matches Json::Str(s) && s@ == a.summary)
    &&& (j.spec_field("versions"@) matches Some(vs) && vs matches Json::Arr(elems) && {
        &&& elems@.len() == a.versions.len()
        &&& forall|k: int|
            0 <= k < a.versions.len() ==> spec_json_represents_version(
                #[trigger] elems@[k],
                a.versions[k],
            )
    })
    &&& (j.spec_field("categories"@) matches Some(cs) && cs matches Json::Arr(elems) && {
        &&& elems@.len() == a.categories.len()
        &&& forall|k: int|
            0 <= k < a.categories.len() ==> ((#[trigger] elems@[k]) matches Json::Str(s) && s@
                == a.categories[k])
    })
    &&& (j.spec_field("source"@) matches Some(t) && t matches Json::Str(s) && s@
        == spec_source_tag(a.source))
}

/// Serialized spelling of a source: its lowercase tag.
pub open spec fn spec_source_tag(s: Source) -> Seq<char> {
    match s {
        Source::Curse => "curse"@,
        Source::Tukui => "tukui"@,
        Source::WowI => "wowi"@,
        Source::Hub => "hub"@,
    }
}

/// Lowercase tag under which a source is serialized.
pub fn source_tag(s: Source) -> (r: &'static str)
    ensures
        r@ == spec_source_tag(s),
{
    match s {
        Source::Curse => "curse",
        Source::Tukui => "tukui",
        Source::WowI => "wowi",
        Source::Hub => "hub",
    }
}

/// Renders one canonical record to its JSON image.
#[verifier::loop_isolation(false)]
pub fn addon_to_json(a: &Addon) -> (j: Json)
    ensures
        spec_json_represents_addon(j, a@),
{
    let id_num: JsonNum = if a.id >= 0 {
        JsonNum::UInt(a.id as u64)
    } else {
        JsonNum::NegInt(a.id as i64)
    };
    let mut version_elems: Vec<Json> = Vec::new();
    let mut k: usize = 0;
    while k < a.versions.len()
        invariant
            0 <= k <= a.versions@.len(),
            version_elems@.len() == k,
            forall|m: int|
                0 <= m < k ==> spec_json_represents_version(
                    #[trigger] version_elems@[m],
                    a@.versions[m],
                ),
        decreases a.versions@.len() - k,
    {
        let vj = version_to_json(&a.versions[k]);
        version_elems.push(vj);
        k = k + 1;
    }
    let mut category_elems: Vec<Json> = Vec::new();
    let mut k: usize = 0;
    while k < a.categories.len()
        invariant
            0 <= k <= a.categories@.len(),
            category_elems@.len() == k,
            forall|m: int|
                0 <= m < k ==> ((#[trigger] category_elems@[m]) matches Json::Str(s) && s@
                    == a@.categories[m]),
        decreases a.categories@.len() - k,
    {
        category_elems.push(Json::Str(a.categories[k].clone()));
        k = k + 1;
    }
    let mut members: Vec<(String, Json)> = Vec::new();
    members.push((String::from_str("id"), Json::Num(id_num)));
    members.push((String::from_str("name"), Json::Str(a.name.clone())));
    members.push((String::from_str("url"), Json::Str(a.url.clone())));
    members.push(
        (
            String::from_str("number_of_downloads"),
            Json::Num(JsonNum::UInt(a.number_of_downloads)),
        ),
    );
    members.push((String::from_str("summary"), Json::Str(a.summary.clone())));
    members.push((String::from_str("versions"), Json::Arr(version_elems)));
    members.push((String::from_str("categories"), Json::Arr(category_elems)));
    members.push((String::from_str("source"), Json::Str(String::from_str(source_tag(a.source)))));
    let j = Json::Obj(members);
    proof {
        reveal_strlit("id");
        reveal_strlit("name");
        reveal_strlit("url");
        reveal_strlit("number_of_downloads");
        reveal_strlit("summary");
        reveal_strlit("versions");
        reveal_strlit("categories");
        reveal_strlit("source");
        let m = members@;
        assert(m.len() == 8);
        assert(m[0].0@ == "id"@);
        assert(m[1].0@ == "name"@);
        assert(m[2].0@ == "url"@);
        assert(m[3].0@ == "number_of_downloads"@);
        assert(m[4].0@ == "summary"@);
        assert(m[5].0@ == "versions"@);
        assert(m[6].0@ == "categories"@);
        assert(m[7].0@ == "source"@);
        crate::json::lemma_obj_get_at(m, "id"@, 0);
        crate::json::lemma_obj_get_at(m, "name"@, 1);
        crate::json::lemma_obj_get_at(m, "url"@, 2);
        crate::json::lemma_obj_get_at(m, "number_of_downloads"@, 3);
        crate::json::lemma_obj_get_at(m, "summary"@, 4);
        crate::json::lemma_obj_get_at(m, "versions"@, 5);
        crate::json::lemma_obj_get_at(m, "categories"@, 6);
        crate::json::lemma_obj_get_at(m, "source"@, 7);
    }
    j
}

/// Whether `j` is the JSON image of a whole catalog: the array of the
/// records' images, in merged order.
pub open spec fn spec_json_represents_catalog(j: Json, addons: Seq<AddonView>) -> bool {
    &&& j is Arr
    &&& j->Arr_0@.len() == addons.len()
    &&& forall|k: int|
        0 <= k < addons.len() ==> spec_json_represents_addon(#[trigger] j->Arr_0@[k], addons[k])
}

/// Renders the merged record sequence to the catalog's JSON image, ready for
/// text encoding by the surrounding tool.
pub fn catalog_to_json(addons: &Vec<Addon>) -> (j: Json)
    ensures
        spec_json_represents_catalog(j, addons.deep_view()),
{
    let mut elems: Vec<Json> = Vec::new();
    let mut k: usize = 0;
    while k < addons.len()
        invariant
            0 <= k <= addons@.len(),
            elems@.len() == k,
            forall|m: int|
                0 <= m < k ==> spec_json_represents_addon(
                    #[trigger] elems@[m],
                    addons.deep_view()[m],
                ),
        decreases addons@.len() - k,
    {
        let aj = addon_to_json(&addons[k]);
        elems.push(aj);
        k = k + 1;
    }
    Json::Arr(elems)
}

/// Catalog file name for a build version string.
pub open spec fn spec_catalog_file_name(version: Seq<char>) -> Seq<char> {
    "catalog-"@ + version + ".json"@
}

/// Builds the catalog file name for a build version. Without a version
/// string the build must fail rather than write an unversioned file, so the
/// absent case is a configuration error.
pub fn catalog_file_name(version: &Option<String>) -> (r: Result<String, Error>)
    ensures
        match (r, version) {
            (Ok(name), Some(v)) => name@ == spec_catalog_file_name(v@),
            (Err(e), None) => e == Error::Configuration,
            _ => false,
        },
{
    match version {
        Some(v) => {
            let mut name = String::from_str("catalog-");
            name.append(v.as_str());
            name.append(".json");
            Ok(name)
        },
        None => Err(Error::Configuration),
    }
}

}
