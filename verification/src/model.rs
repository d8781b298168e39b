use vstd::prelude::*;

use crate::text::str_eq;

verus! {

/// Game-variant tag tracked independently by every upstream source.
///
/// Each variant rolls up to exactly one root variant through
/// [`Flavor::base_flavor`]; the root decides which upstream query parameter
/// or category a request or record belongs to.
#[derive(Clone, Copy, Debug, PartialEq, Eq, Hash, Structural)]
pub enum Flavor {
    Retail,
    RetailPtr,
    RetailBeta,
    ClassicEra,
    ClassicTbc,
    ClassicWotlk,
    ClassicPtr,
    ClassicBeta,
}

/// Which adapter produced a record. Assigned once at construction and never
/// reassigned.
#[derive(Clone, Copy, Debug, PartialEq, Eq, Hash, Structural)]
pub enum Source {
    Curse,
    Tukui,
    WowI,
    Hub,
}

impl Flavor {
    /// Root variant that a flavor rolls up to: the single source of truth for
    /// flavor resolution, total over the enumeration.
    pub open spec fn spec_base_flavor(self) -> Flavor {
        match self {
            Flavor::Retail | Flavor::RetailPtr | Flavor::RetailBeta => Flavor::Retail,
            Flavor::ClassicWotlk | Flavor::ClassicPtr | Flavor::ClassicBeta => Flavor::ClassicWotlk,
            Flavor::ClassicTbc => Flavor::ClassicTbc,
            Flavor::ClassicEra => Flavor::ClassicEra,
        }
    }

    /// Returns the `Flavor` which `self` relates to.
    pub fn base_flavor(self) -> (r: Flavor)
        ensures
            r == self.spec_base_flavor(),
            r.spec_base_flavor() == r,
    {
        match self {
            Flavor::Retail | Flavor::RetailPtr | Flavor::RetailBeta => Flavor::Retail,
            Flavor::ClassicWotlk | Flavor::ClassicPtr | Flavor::ClassicBeta => Flavor::ClassicWotlk,
            Flavor::ClassicTbc => Flavor::ClassicTbc,
            Flavor::ClassicEra => Flavor::ClassicEra,
        }
    }

    /// Serialized spelling of a flavor: its lowercase-with-underscore tag.
    pub open spec fn spec_tag(self) -> Seq<char> {
        match self {
            Flavor::Retail => "retail"@,
            Flavor::RetailPtr => "retail_ptr"@,
            Flavor::RetailBeta => "retail_beta"@,
            Flavor::ClassicEra => "classic_era"@,
            Flavor::ClassicTbc => "classic_tbc"@,
            Flavor::ClassicWotlk => "classic_wotlk"@,
            Flavor::ClassicPtr => "classic_ptr"@,
            Flavor::ClassicBeta => "classic_beta"@,
        }
    }

    /// Lowercase-with-underscore tag under which the flavor is serialized.
    pub fn tag(self) -> (r: &'static str)
        ensures
            r@ == self.spec_tag(),
    {
        match self {
            Flavor::Retail => "retail",
            Flavor::RetailPtr => "retail_ptr",
            Flavor::RetailBeta => "retail_beta",
            Flavor::ClassicEra => "classic_era",
            Flavor::ClassicTbc => "classic_tbc",
            Flavor::ClassicWotlk => "classic_wotlk",
            Flavor::ClassicPtr => "classic_ptr",
            Flavor::ClassicBeta => "classic_beta",
        }
    }
}

/// Law: flavor resolution is idempotent. Rolling a flavor up to its root and
/// rolling the root up again lands on the same root.
pub proof fn lemma_base_flavor_idempotent(v: Flavor)
    ensures
        v.spec_base_flavor().spec_base_flavor() == v.spec_base_flavor(),
{
}

/// Spellings accepted for a flavor in upstream payloads: the canonical
/// variant name, the serialized lowercase tag, and the aliases the sources
/// are known to send.
pub open spec fn spec_flavor_from_tag(s: Seq<char>) -> Option<Flavor> {
    if s == "Retail"@ || s == "retail"@ || s == "wow_retail"@ || s == "mainline"@ {
        Some(Flavor::Retail)
    } else if s == "RetailPtr"@ || s == "retail_ptr"@ {
        Some(Flavor::RetailPtr)
    } else if s == "RetailBeta"@ || s == "retail_beta"@ {
        Some(Flavor::RetailBeta)
    } else if s == "ClassicEra"@ || s == "classic_era"@ || s == "classic"@ || s == "wow_classic"@
        || s == "vanilla"@ {
        Some(Flavor::ClassicEra)
    } else if s == "ClassicTbc"@ || s == "classic_tbc"@ || s == "tbc"@ || s == "bcc"@
        || s == "wow_burning_crusade"@ || s == "burningCrusade"@ || s == "burning_crusade"@ {
        Some(Flavor::ClassicTbc)
    } else if s == "ClassicWotlk"@ || s == "classic_wotlk"@ || s == "wotlk"@ {
        Some(Flavor::ClassicWotlk)
    } else if s == "ClassicPtr"@ || s == "classic_ptr"@ {
        Some(Flavor::ClassicPtr)
    } else if s == "ClassicBeta"@ || s == "classic_beta"@ {
        Some(Flavor::ClassicBeta)
    } else {
        None
    }
}

/// Parses a flavor tag as the upstream sources spell it. Unknown spellings
/// yield `None` and the caller decides whether that is a decode failure.
pub fn flavor_from_tag(s: &str) -> (r: Option<Flavor>)
    ensures
        r == spec_flavor_from_tag(s@),
{
    if str_eq(s, "Retail") || str_eq(s, "retail") || str_eq(s, "wow_retail")
        || str_eq(s, "mainline") {
        Some(Flavor::Retail)
    } else if str_eq(s, "RetailPtr") || str_eq(s, "retail_ptr") {
        Some(Flavor::RetailPtr)
    } else if str_eq(s, "RetailBeta") || str_eq(s, "retail_beta") {
        Some(Flavor::RetailBeta)
    } else if str_eq(s, "ClassicEra") || str_eq(s, "classic_era") || str_eq(s, "classic")
        || str_eq(s, "wow_classic") || str_eq(s, "vanilla") {
        Some(Flavor::ClassicEra)
    } else if str_eq(s, "ClassicTbc") || str_eq(s, "classic_tbc") || str_eq(s, "tbc")
        || str_eq(s, "bcc") || str_eq(s, "wow_burning_crusade") || str_eq(s, "burningCrusade")
        || str_eq(s, "burning_crusade") {
        Some(Flavor::ClassicTbc)
    } else if str_eq(s, "ClassicWotlk") || str_eq(s, "classic_wotlk") || str_eq(s, "wotlk") {
        Some(Flavor::ClassicWotlk)
    } else if str_eq(s, "ClassicPtr") || str_eq(s, "classic_ptr") {
        Some(Flavor::ClassicPtr)
    } else if str_eq(s, "ClassicBeta") || str_eq(s, "classic_beta") {
        Some(Flavor::ClassicBeta)
    } else {
        None
    }
}

/// Best-guess root flavor from the leading character of a raw version string.
///
/// Conservative on purpose: anything unrecognized is no match, and callers
/// omit that version rather than fail.
pub open spec fn spec_guess_flavor_from_version(s: Seq<char>) -> Option<Flavor> {
    if s.len() == 0 {
        None
    } else if s[0] == '9' || s[0] == '8' || s[0] == '7' {
        Some(Flavor::Retail)
    } else if s[0] == '1' {
        Some(Flavor::ClassicEra)
    } else if s[0] == '2' {
        Some(Flavor::ClassicTbc)
    } else {
        None
    }
}

/// Tries to guess a `Flavor` from a raw version string.
///
/// E.g. `"9.0.5"` is a retail build.
pub fn guess_flavor_from_version(version: &str) -> (r: Option<Flavor>)
    ensures
        r == spec_guess_flavor_from_version(version@),
{
    if version.unicode_len() == 0 {
        return None;
    }
    let c = version.get_char(0);
    if c == '9' || c == '8' || c == '7' {
        Some(Flavor::Retail)
    } else if c == '1' {
        Some(Flavor::ClassicEra)
    } else if c == '2' {
        Some(Flavor::ClassicTbc)
    } else {
        None
    }
}

/// First version string in `vs` whose guessed flavor is exactly `flavor`.
pub open spec fn spec_extract_version_for_flavor(flavor: Flavor, vs: Seq<Seq<char>>) -> Option<
    Seq<char>,
>
    decreases vs.len(),
{
    if vs.len() == 0 {
        None
    } else if spec_guess_flavor_from_version(vs[0]) == Some(flavor) {
        Some(vs[0])
    } else {
        spec_extract_version_for_flavor(flavor, vs.skip(1))
    }
}

/// Extracts from `versions` the entry that belongs to `flavor`, going by the
/// guesser; `None` when no entry matches.
///
/// Version lists look like `["2.5.1", "9.0.5", "1.13.7"]`; for the retail
/// flavor this picks `"9.0.5"`.
pub fn extract_version_for_flavor(flavor: Flavor, versions: &Vec<String>) -> (r: Option<String>)
    ensures
        match r {
            Some(v) => spec_extract_version_for_flavor(flavor, versions.deep_view()) == Some(v@),
            None => spec_extract_version_for_flavor(flavor, versions.deep_view()) is None,
        },
{
    let ghost dv = versions.deep_view();
    proof {
        assert(dv.skip(0) =~= dv);
    }
    let mut i: usize = 0;
    while i < versions.len()
        invariant
            0 <= i <= versions.len(),
            dv == versions.deep_view(),
            dv.len() == versions.len(),
            forall|j: int| 0 <= j < dv.len() ==> dv[j] == #[trigger] versions@[j]@,
            spec_extract_version_for_flavor(flavor, dv.skip(i as int))
                == spec_extract_version_for_flavor(flavor, dv),
        decreases versions.len() - i,
    {
        let guess = guess_flavor_from_version(versions[i].as_str());
        if guess == Some(flavor) {
            proof {
                assert(dv.skip(i as int)[0] == dv[i as int]);
            }
            return Some(versions[i].clone());
        }
        proof {
            assert(dv.skip(i as int)[0] == dv[i as int]);
            assert(dv.skip(i as int).skip(1) =~= dv.skip(i as int + 1));
        }
        i = i + 1;
    }
    proof {
        assert(dv.skip(i as int) =~= Seq::<Seq<char>>::empty());
    }
    None
}

/// One observed build of an add-on for one flavor. `game_version` is absent
/// when the source never reports an interface number for the record; `date`
/// keeps the source's raw timestamp format verbatim.
#[derive(Clone, Debug, PartialEq)]
pub struct Version {
    pub flavor: Flavor,
    pub game_version: Option<String>,
    pub date: String,
}

/// Mathematical image of a [`Version`].
pub struct VersionView {
    pub flavor: Flavor,
    pub game_version: Option<Seq<char>>,
    pub date: Seq<char>,
}

impl View for Version {
    type V = VersionView;

    open spec fn view(&self) -> VersionView {
        VersionView {
            flavor: self.flavor,
            game_version: match self.game_version {
                Some(s) => Some(s@),
                None => None,
            },
            date: self.date@,
        }
    }
}

impl DeepView for Version {
    type V = VersionView;

    open spec fn deep_view(&self) -> VersionView {
        self.view()
    }
}

/// One canonical add-on record. `id` is unique only within its `source`; the
/// natural global key is the pair `(source, id)`. `versions` and `categories`
/// are insertion-ordered and may be empty.
#[derive(Clone, Debug, PartialEq)]
pub struct Addon {
    pub id: i32,
    pub name: String,
    pub url: String,
    pub number_of_downloads: u64,
    pub summary: String,
    pub versions: Vec<Version>,
    pub categories: Vec<String>,
    pub source: Source,
}

/// Mathematical image of an [`Addon`].
pub struct AddonView {
    pub id: i32,
    pub name: Seq<char>,
    pub url: Seq<char>,
    pub number_of_downloads: u64,
    pub summary: Seq<char>,
    pub versions: Seq<VersionView>,
    pub categories: Seq<Seq<char>>,
    pub source: Source,
}

impl View for Addon {
    type V = AddonView;

    open spec fn view(&self) -> AddonView {
        AddonView {
            id: self.id,
            name: self.name@,
            url: self.url@,
            number_of_downloads: self.number_of_downloads,
            summary: self.summary@,
            versions: self.versions.deep_view(),
            categories: self.categories.deep_view(),
            source: self.source,
        }
    }
}

impl DeepView for Addon {
    type V = AddonView;

    open spec fn deep_view(&self) -> AddonView {
        self.view()
    }
}

}
