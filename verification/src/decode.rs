//! Normalization of raw wire records into canonical catalog records.
//!
//! A provider payload decodes into [`RawAddon`] values; this module turns
//! them into [`CatalogAddon`] values: the date string is normalized, the
//! record's provenance is set to the source the payload was fetched from,
//! and the record's own `source` alias is validated (it must be a
//! case-insensitive alias of one of the three known providers).
//!
//! Rejection policy: one bad record voids its whole source's
//! contribution, mirroring the upstream behavior where any record-level
//! decode error rejects the source's entire payload.

use vstd::prelude::*;

use crate::datetime::normalize_date;
use crate::datetime::spec_normalize_date;
use crate::model::CatalogAddon;
use crate::model::CatalogAddonView;
use crate::model::Flavor;
use crate::model::GameVersion;
use crate::model::GameVersionView;
use crate::model::RawAddon;
use crate::model::RawAddonView;
use crate::model::RawGameVersion;
use crate::model::RawGameVersionView;
use crate::model::Source;
use crate::model::UtcInstant;

verus! {

/// The code point of `c` with an ASCII capital letter folded to its small
/// form; anything else is left alone.
pub open spec fn spec_fold_ascii_case(c: char) -> int {
    if 65 <= c as int && c as int <= 90 {
        c as int + 32
    } else {
        c as int
    }
}

/// Whether two strings agree once ASCII letter case is folded away.
pub open spec fn spec_eq_ignore_ascii_case(a: Seq<char>, b: Seq<char>) -> bool {
    &&& a.len() == b.len()
    &&& forall|i: int|
        0 <= i < a.len() ==> spec_fold_ascii_case(#[trigger] a[i]) == spec_fold_ascii_case(b[i])
}

/// Compares two strings ignoring ASCII letter case.
fn eq_ignore_ascii_case(a: &str, b: &str) -> (r: bool)
    ensures
        r == spec_eq_ignore_ascii_case(a@, b@),
{
    let an = a.unicode_len();
    let bn = b.unicode_len();
    if an != bn {
        return false;
    }
    let mut i: usize = 0;
    while i < an
        invariant
            0 <= i <= an,
            an == a@.len(),
            bn == b@.len(),
            an == bn,
            forall|j: int|
                0 <= j < i ==> spec_fold_ascii_case(#[trigger] a@[j]) == spec_fold_ascii_case(
                    b@[j],
                ),
        decreases an - i,
    {
        let ca = a.get_char(i) as u32;
        let cb = b.get_char(i) as u32;
        let fa = if ca >= 65 && ca <= 90 {
            ca + 32
        } else {
            ca
        };
        let fb = if cb >= 65 && cb <= 90 {
            cb + 32
        } else {
            cb
        };
        if fa != fb {
            return false;
        }
        i = i + 1;
    }
    true
}

/// The provider a wire alias names: `curse`, `tukui` or `wowi` in any
/// letter case; anything else names none.
pub open spec fn spec_source_of_alias(s: Seq<char>) -> Option<Source> {
    if spec_eq_ignore_ascii_case(s, "curse"@) {
        Some(Source::Curse)
    } else if spec_eq_ignore_ascii_case(s, "tukui"@) {
        Some(Source::Tukui)
    } else if spec_eq_ignore_ascii_case(s, "wowi"@) {
        Some(Source::WowI)
    } else {
        None
    }
}

/// Resolves a wire `source` alias to its provider, exactly as
/// [`spec_source_of_alias`] describes.
pub fn source_from_alias(s: &str) -> (r: Option<Source>)
    ensures
        r == spec_source_of_alias(s@),
{
    if eq_ignore_ascii_case(s, "curse") {
        Some(Source::Curse)
    } else if eq_ignore_ascii_case(s, "tukui") {
        Some(Source::Tukui)
    } else if eq_ignore_ascii_case(s, "wowi") {
        Some(Source::WowI)
    } else {
        None
    }
}

/// A raw game-version entry carries over field for field.
pub open spec fn spec_game_version_of_raw(r: RawGameVersionView) -> GameVersionView {
    GameVersionView { game_version: r.game_version, flavor: r.flavor }
}

/// Whether a raw record passes validation: its `source` field must be a
/// known provider alias.
pub open spec fn spec_raw_source_ok(r: RawAddonView) -> bool {
    spec_source_of_alias(r.source) is Some
}

/// The canonical record a valid raw record normalizes to, when fetched
/// from `source`: the date string becomes an optional canonical instant
/// and the record's provenance is the fetched source itself, not
/// anything inferred from the record's content.
pub open spec fn spec_addon_of_raw(r: RawAddonView, source: Source) -> CatalogAddonView {
    CatalogAddonView {
        id: r.id,
        website_url: r.website_url,
        date_released: match spec_normalize_date(r.date_released) {
            Some(t) => Some(t as i64),
            None => None,
        },
        name: r.name,
        categories: r.categories,
        summary: r.summary,
        number_of_downloads: r.number_of_downloads,
        source,
        flavors: r.flavors,
        game_versions: r.game_versions.map_values(|gv: RawGameVersionView| spec_game_version_of_raw(gv)),
    }
}

/// What a whole raw payload decodes to: every record normalized in order,
/// or nothing at all as soon as any single record fails validation.
pub open spec fn spec_addons_of_raws(rs: Seq<RawAddonView>, source: Source) -> Option<
    Seq<CatalogAddonView>,
> {
    if forall|i: int| 0 <= i < rs.len() ==> spec_raw_source_ok(#[trigger] rs[i]) {
        Some(rs.map_values(|r: RawAddonView| spec_addon_of_raw(r, source)))
    } else {
        None
    }
}

/// Copies a list of category labels, preserving order and duplicates.
fn clone_string_vec(v: &Vec<String>) -> (r: Vec<String>)
    ensures
        r.deep_view() == v.deep_view(),
{
    let mut out: Vec<String> = Vec::new();
    let mut i: usize = 0;
    proof {
        assert(out.deep_view() =~= v.deep_view().take(0));
    }
    while i < v.len()
        invariant
            0 <= i <= v.len(),
            out.len() == i,
            out.deep_view() == v.deep_view().take(i as int),
        decreases v.len() - i,
    {
        out.push(v[i].clone());
        proof {
            assert(out.deep_view() =~= v.deep_view().take(i + 1));
        }
        i = i + 1;
    }
    proof {
        assert(v.deep_view().take(v.len() as int) =~= v.deep_view());
    }
    out
}

/// Wraps a list of raw flavor labels into [`Flavor`] values, in order.
fn flavors_from_raw(v: &Vec<String>) -> (r: Vec<Flavor>)
    ensures
        r.deep_view() == v.deep_view(),
{
    let mut out: Vec<Flavor> = Vec::new();
    let mut i: usize = 0;
    proof {
        assert(out.deep_view() =~= v.deep_view().take(0));
    }
    while i < v.len()
        invariant
            0 <= i <= v.len(),
            out.len() == i,
            out.deep_view() == v.deep_view().take(i as int),
        decreases v.len() - i,
    {
        out.push(Flavor(v[i].clone()));
        proof {
            assert(out.deep_view() =~= v.deep_view().take(i + 1));
        }
        i = i + 1;
    }
    proof {
        assert(v.deep_view().take(v.len() as int) =~= v.deep_view());
    }
    out
}

/// Carries a list of raw game-version entries over, in order.
fn game_versions_from_raw(v: &Vec<RawGameVersion>) -> (r: Vec<GameVersion>)
    ensures
        r.deep_view() == v.deep_view().map_values(
            |gv: RawGameVersionView| spec_game_version_of_raw(gv),
        ),
{
    let mut out: Vec<GameVersion> = Vec::new();
    let mut i: usize = 0;
    proof {
        assert(out.deep_view() =~= v.deep_view().take(0).map_values(
            |gv: RawGameVersionView| spec_game_version_of_raw(gv),
        ));
    }
    while i < v.len()
        invariant
            0 <= i <= v.len(),
            out.len() == i,
            out.deep_view() == v.deep_view().take(i as int).map_values(
                |gv: RawGameVersionView| spec_game_version_of_raw(gv),
            ),
        decreases v.len() - i,
    {
        let gv = &v[i];
        out.push(GameVersion { game_version: gv.game_version.clone(), flavor: Flavor(gv.flavor.clone()) });
        proof {
            let f = |gv: RawGameVersionView| spec_game_version_of_raw(gv);
            let target = v.deep_view().take(i + 1).map_values(f);
            assert forall|j: int| 0 <= j < i + 1 implies out.deep_view()[j] == target[j] by {
                assert(target[j] == f(v.deep_view()[j]));
                assert(out.deep_view()[j] == out@[j].deep_view());
                if j < i {
                    assert(out.deep_view()[j] == v.deep_view().take(i as int).map_values(f)[j]);
                }
            }
            assert(out.deep_view() =~= target);
        }
        i = i + 1;
    }
    proof {
        assert(v.deep_view().take(v.len() as int) =~= v.deep_view());
    }
    out
}

/// Normalizes one raw record fetched from `source`, or nothing when the
/// record's `source` alias names no known provider.
pub fn addon_from_raw(raw: &RawAddon, source: Source) -> (r: Option<CatalogAddon>)
    ensures
        match r {
            Some(a) => spec_raw_source_ok(raw.deep_view()) && a@ == spec_addon_of_raw(
                raw.deep_view(),
                source,
            ),
            None => !spec_raw_source_ok(raw.deep_view()),
        },
{
    if source_from_alias(raw.source.as_str()).is_none() {
        return None;
    }
    let date_released = match normalize_date(raw.date_released.as_str()) {
        Some(t) => Some(UtcInstant { epoch_seconds: t.epoch_seconds }),
        None => None,
    };
    let addon = CatalogAddon {
        id: raw.id,
        website_url: raw.website_url.clone(),
        date_released,
        name: raw.name.clone(),
        categories: clone_string_vec(&raw.categories),
        summary: raw.summary.clone(),
        number_of_downloads: raw.number_of_downloads,
        source,
        flavors: flavors_from_raw(&raw.flavors),
        game_versions: game_versions_from_raw(&raw.game_versions),
    };
    Some(addon)
}

/// Decodes a whole raw payload fetched from `source`, exactly as
/// [`spec_addons_of_raws`] describes: the record count is preserved,
/// every resulting record's provenance is `source`, and one invalid
/// record rejects the whole payload.
pub fn addons_from_raws(raws: &Vec<RawAddon>, source: Source) -> (r: Option<Vec<CatalogAddon>>)
    ensures
        match r {
            Some(v) => spec_addons_of_raws(raws.deep_view(), source) == Some(v.deep_view()),
            None => spec_addons_of_raws(raws.deep_view(), source) is None,
        },
        r matches Some(v) ==> v.len() == raws.len(),
        r matches Some(v) ==> forall|i: int|
            0 <= i < v.deep_view().len() ==> (#[trigger] v.deep_view()[i]).source == source,
{
    let mut out: Vec<CatalogAddon> = Vec::new();
    let mut i: usize = 0;
    proof {
        assert(out.deep_view() =~= raws.deep_view().take(0).map_values(
            |r: RawAddonView| spec_addon_of_raw(r, source),
        ));
    }
    while i < raws.len()
        invariant
            0 <= i <= raws.len(),
            out.len() == i,
            forall|j: int| 0 <= j < i ==> spec_raw_source_ok(#[trigger] raws.deep_view()[j]),
            out.deep_view() == raws.deep_view().take(i as int).map_values(
                |r: RawAddonView| spec_addon_of_raw(r, source),
            ),
        decreases raws.len() - i,
    {
        match addon_from_raw(&raws[i], source) {
            Some(a) => {
                out.push(a);
            },
            None => {
                proof {
                    assert(!spec_raw_source_ok(raws.deep_view()[i as int]));
                }
                return None;
            },
        }
        proof {
            let f = |r: RawAddonView| spec_addon_of_raw(r, source);
            let target = raws.deep_view().take(i + 1).map_values(f);
            assert forall|j: int| 0 <= j < i + 1 implies out.deep_view()[j] == target[j] by {
                assert(target[j] == f(raws.deep_view()[j]));
                assert(out.deep_view()[j] == out@[j].deep_view());
                if j < i {
                    assert(out.deep_view()[j] == raws.deep_view().take(i as int).map_values(f)[j]);
                }
            }
            assert(out.deep_view() =~= target);
        }
        i = i + 1;
    }
    proof {
        assert(raws.deep_view().take(raws.len() as int) =~= raws.deep_view());
    }
    Some(out)
}

} // verus!

