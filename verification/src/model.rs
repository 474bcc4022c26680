//! The canonical catalog data model: provenance, canonical instants, game
//! targets, addon records, raw (not yet normalized) records, and the
//! merged catalog.
//!
//! Each executable type has a ghost view holding the mathematical content
//! the contracts speak about.

use vstd::prelude::*;

verus! {

/// The upstream catalog provider that produced a record.
///
/// Closed enumeration: exactly three providers exist today.  Ordered and
/// hashable so that callers can deduplicate and group records by origin.
#[derive(Debug, Clone, Copy, PartialEq, Eq, Structural, Hash, PartialOrd, Ord)]
pub enum Source {
    Curse,
    Tukui,
    WowI,
}

impl Source {
    /// The human-readable provider name shown by downstream consumers.
    pub open spec fn spec_name(self) -> Seq<char> {
        match self {
            Source::Curse => "Curse"@,
            Source::Tukui => "Tukui"@,
            Source::WowI => "WowInterface"@,
        }
    }

    /// The human-readable provider name.
    pub fn name(&self) -> (r: String)
        ensures
            r@ == self.spec_name(),
    {
        match self {
            Source::Curse => String::from_str("Curse"),
            Source::Tukui => String::from_str("Tukui"),
            Source::WowI => String::from_str("WowInterface"),
        }
    }
}

/// A canonical UTC instant: seconds since the Unix epoch, sub-second
/// component always zero.  Every source's date encoding is normalized to
/// this one representation.
#[derive(Debug, Clone, Copy, PartialEq, Eq, Structural, Hash, PartialOrd, Ord)]
pub struct UtcInstant {
    pub epoch_seconds: i64,
}

/// A game-client variant or edition.  Opaque to this crate: it is a value
/// supplied by a collaborator module and only carried through.
#[derive(Debug, Clone, PartialEq, Eq, Hash, PartialOrd, Ord)]
pub struct Flavor(pub String);

impl View for Flavor {
    type V = Seq<char>;

    open spec fn view(&self) -> Seq<char> {
        self.0@
    }
}

impl DeepView for Flavor {
    type V = Seq<char>;

    open spec fn deep_view(&self) -> Seq<char> {
        self.0@
    }
}

/// Ghost content of a [`GameVersion`].
#[verifier::ext_equal]
pub ghost struct GameVersionView {
    pub game_version: Seq<char>,
    pub flavor: Seq<char>,
}

/// One supported game-client target of an addon release: a free-form
/// version string paired with the flavor it applies to.
#[derive(Debug, Clone, PartialEq, Eq, Hash, PartialOrd, Ord)]
pub struct GameVersion {
    pub game_version: String,
    pub flavor: Flavor,
}

impl View for GameVersion {
    type V = GameVersionView;

    open spec fn view(&self) -> GameVersionView {
        GameVersionView { game_version: self.game_version@, flavor: self.flavor@ }
    }
}

impl DeepView for GameVersion {
    type V = GameVersionView;

    open spec fn deep_view(&self) -> GameVersionView {
        self.view()
    }
}

/// Ghost content of a [`CatalogAddon`].
#[verifier::ext_equal]
pub ghost struct CatalogAddonView {
    pub id: i32,
    pub website_url: Seq<char>,
    pub date_released: Option<i64>,
    pub name: Seq<char>,
    pub categories: Seq<Seq<char>>,
    pub summary: Seq<char>,
    pub number_of_downloads: u64,
    pub source: Source,
    pub flavors: Seq<Seq<char>>,
    pub game_versions: Seq<GameVersionView>,
}

/// One normalized addon record, regardless of which provider it came
/// from.
#[derive(Debug, Clone, PartialEq)]
pub struct CatalogAddon {
    /// Identifier, unique within its source only: two providers may reuse
    /// a number for unrelated addons.
    pub id: i32,
    /// Not validated for well-formedness at decode time.
    pub website_url: String,
    /// Canonical release instant; absent when the upstream date string
    /// matched none of the known encodings.
    pub date_released: Option<UtcInstant>,
    pub name: String,
    /// Category labels in the order the provider listed them, not
    /// deduplicated.
    pub categories: Vec<String>,
    pub summary: String,
    pub number_of_downloads: u64,
    /// The provider this record was fetched from, set at decode time.
    pub source: Source,
    /// Superseded by `game_versions`; populated only so that older
    /// payloads keep decoding.  New logic must not rely on it.
    pub flavors: Vec<Flavor>,
    pub game_versions: Vec<GameVersion>,
}

impl View for CatalogAddon {
    type V = CatalogAddonView;

    open spec fn view(&self) -> CatalogAddonView {
        CatalogAddonView {
            id: self.id,
            website_url: self.website_url@,
            date_released: match self.date_released {
                Some(t) => Some(t.epoch_seconds),
                None => None,
            },
            name: self.name@,
            categories: self.categories.deep_view(),
            summary: self.summary@,
            number_of_downloads: self.number_of_downloads,
            source: self.source,
            flavors: self.flavors.deep_view(),
            game_versions: self.game_versions.deep_view(),
        }
    }
}

impl DeepView for CatalogAddon {
    type V = CatalogAddonView;

    open spec fn deep_view(&self) -> CatalogAddonView {
        self.view()
    }
}

/// The merged catalog: a flat ordered sequence of addon records.  No
/// uniqueness constraint is enforced here; deduplication is the caller's
/// policy.
#[derive(Debug, Clone, PartialEq)]
pub struct Catalog {
    pub addons: Vec<CatalogAddon>,
}

impl View for Catalog {
    type V = Seq<CatalogAddonView>;

    open spec fn view(&self) -> Seq<CatalogAddonView> {
        self.addons.deep_view()
    }
}

/// Ghost content of a [`RawGameVersion`].
#[verifier::ext_equal]
pub ghost struct RawGameVersionView {
    pub game_version: Seq<char>,
    pub flavor: Seq<char>,
}

/// A game-version entry exactly as a provider sent it.
#[derive(Debug, Clone, PartialEq)]
pub struct RawGameVersion {
    pub game_version: String,
    pub flavor: String,
}

impl View for RawGameVersion {
    type V = RawGameVersionView;

    open spec fn view(&self) -> RawGameVersionView {
        RawGameVersionView { game_version: self.game_version@, flavor: self.flavor@ }
    }
}

impl DeepView for RawGameVersion {
    type V = RawGameVersionView;

    open spec fn deep_view(&self) -> RawGameVersionView {
        self.view()
    }
}

/// Ghost content of a [`RawAddon`].
#[verifier::ext_equal]
pub ghost struct RawAddonView {
    pub id: i32,
    pub website_url: Seq<char>,
    pub date_released: Seq<char>,
    pub name: Seq<char>,
    pub categories: Seq<Seq<char>>,
    pub summary: Seq<char>,
    pub number_of_downloads: u64,
    pub source: Seq<char>,
    pub flavors: Seq<Seq<char>>,
    pub game_versions: Seq<RawGameVersionView>,
}

/// One addon record as decoded from a provider's wire payload, before
/// normalization: the date is still the provider's own string and the
/// source is still the provider's alias string.
///
/// Every field here is required on the wire; a record missing one (or
/// with one of the wrong type) never reaches this crate.
#[derive(Debug, Clone, PartialEq)]
pub struct RawAddon {
    pub id: i32,
    pub website_url: String,
    pub date_released: String,
    pub name: String,
    pub categories: Vec<String>,
    pub summary: String,
    pub number_of_downloads: u64,
    pub source: String,
    pub flavors: Vec<String>,
    pub game_versions: Vec<RawGameVersion>,
}

impl View for RawAddon {
    type V = RawAddonView;

    open spec fn view(&self) -> RawAddonView {
        RawAddonView {
            id: self.id,
            website_url: self.website_url@,
            date_released: self.date_released@,
            name: self.name@,
            categories: self.categories.deep_view(),
            summary: self.summary@,
            number_of_downloads: self.number_of_downloads,
            source: self.source@,
            flavors: self.flavors.deep_view(),
            game_versions: self.game_versions.deep_view(),
        }
    }
}

impl DeepView for RawAddon {
    type V = RawAddonView;

    open spec fn deep_view(&self) -> RawAddonView {
        self.view()
    }
}

} // verus!
