//! Behavior of record normalization and catalog aggregation: partial
//! failure, declared-order merging, and the decode policy.

use ajour_catalog::aggregate::assemble_catalog;
use ajour_catalog::aggregate::catalog_url;
use ajour_catalog::aggregate::declared_sources;
use ajour_catalog::aggregate::is_success_status;
use ajour_catalog::aggregate::FetchOutcome;
use ajour_catalog::aggregate::SourceFetch;
use ajour_catalog::decode::addon_from_raw;
use ajour_catalog::decode::addons_from_raws;
use ajour_catalog::decode::source_from_alias;
use ajour_catalog::model::RawAddon;
use ajour_catalog::model::RawGameVersion;
use ajour_catalog::model::Source;
use ajour_catalog::model::UtcInstant;

fn raw(id: i32, alias: &str, date: &str) -> RawAddon {
    RawAddon {
        id,
        website_url: format!("https://example.invalid/addon/{}", id),
        date_released: date.to_string(),
        name: format!("Addon {}", id),
        categories: vec!["Utility".to_string(), "Utility".to_string()],
        summary: "An addon.".to_string(),
        number_of_downloads: 42,
        source: alias.to_string(),
        flavors: vec!["retail".to_string()],
        game_versions: vec![RawGameVersion {
            game_version: "9.0.5".to_string(),
            flavor: "retail".to_string(),
        }],
    }
}

#[test]
fn source_aliases_fold_letter_case() {
    assert_eq!(source_from_alias("curse"), Some(Source::Curse));
    assert_eq!(source_from_alias("CURSE"), Some(Source::Curse));
    assert_eq!(source_from_alias("Curse"), Some(Source::Curse));
    assert_eq!(source_from_alias("tukui"), Some(Source::Tukui));
    assert_eq!(source_from_alias("TuKuI"), Some(Source::Tukui));
    assert_eq!(source_from_alias("wowi"), Some(Source::WowI));
    assert_eq!(source_from_alias("WowI"), Some(Source::WowI));
    assert_eq!(source_from_alias("wow"), None);
    assert_eq!(source_from_alias("curses"), None);
    assert_eq!(source_from_alias(""), None);
}

#[test]
fn source_names_match_providers() {
    assert_eq!(Source::Curse.name(), "Curse");
    assert_eq!(Source::Tukui.name(), "Tukui");
    assert_eq!(Source::WowI.name(), "WowInterface");
}

#[test]
fn declared_order_is_curse_tukui_wowi() {
    assert_eq!(declared_sources(), vec![Source::Curse, Source::Tukui, Source::WowI]);
}

#[test]
fn catalog_urls_point_at_each_payload() {
    assert!(catalog_url(Source::Curse).ends_with("curse.json"));
    assert!(catalog_url(Source::Tukui).ends_with("tukui.json"));
    assert!(catalog_url(Source::WowI).ends_with("wowi.json"));
}

#[test]
fn success_statuses_are_the_2xx_range() {
    assert!(is_success_status(200));
    assert!(is_success_status(204));
    assert!(is_success_status(299));
    assert!(!is_success_status(199));
    assert!(!is_success_status(300));
    assert!(!is_success_status(404));
    assert!(!is_success_status(500));
}

#[test]
fn record_source_comes_from_the_payload_not_the_record() {
    let a = addon_from_raw(&raw(7, "curse", "2021-05-01"), Source::Tukui).unwrap();
    assert_eq!(a.source, Source::Tukui);
    assert_eq!(a.id, 7);
    assert_eq!(a.name, "Addon 7");
    assert_eq!(a.categories, vec!["Utility".to_string(), "Utility".to_string()]);
    assert_eq!(a.number_of_downloads, 42);
    assert_eq!(a.date_released, Some(UtcInstant { epoch_seconds: 1619827200 }));
    assert_eq!(a.game_versions.len(), 1);
    assert_eq!(a.game_versions[0].game_version, "9.0.5");
    assert_eq!(a.game_versions[0].flavor.0, "retail");
    assert_eq!(a.flavors.len(), 1);
    assert_eq!(a.flavors[0].0, "retail");
}

#[test]
fn unparsable_date_keeps_the_record_without_a_date() {
    let a = addon_from_raw(&raw(1, "wowi", "someday soon"), Source::WowI).unwrap();
    assert_eq!(a.date_released, None);
    assert_eq!(a.id, 1);
}

#[test]
fn unknown_source_alias_rejects_the_record() {
    assert_eq!(addon_from_raw(&raw(1, "mystery", "2021-05-01"), Source::Curse), None);
}

#[test]
fn payload_decode_preserves_count_and_assigns_source() {
    let raws = vec![
        raw(1, "curse", "2021-05-01T12:00:00+00:00"),
        raw(2, "CURSE", "1619870400000"),
        raw(3, "curse", "junk"),
    ];
    let decoded = addons_from_raws(&raws, Source::Curse).unwrap();
    assert_eq!(decoded.len(), raws.len());
    assert!(decoded.iter().all(|a| a.source == Source::Curse));
    assert_eq!(decoded[0].id, 1);
    assert_eq!(decoded[1].id, 2);
    assert_eq!(decoded[2].id, 3);
    assert_eq!(decoded[0].date_released, Some(UtcInstant { epoch_seconds: 1619870400 }));
    assert_eq!(decoded[1].date_released, Some(UtcInstant { epoch_seconds: 1619870400 }));
    assert_eq!(decoded[2].date_released, None);
}

#[test]
fn one_bad_record_rejects_the_whole_payload() {
    let raws = vec![raw(1, "curse", "2021-05-01"), raw(2, "nonsense", "2021-05-01")];
    assert_eq!(addons_from_raws(&raws, Source::Curse), None);
}

fn three_fetches(middle_status: u16) -> Vec<SourceFetch> {
    vec![
        SourceFetch {
            source: Source::Curse,
            outcome: FetchOutcome::Response {
                status: 200,
                addons: Some(vec![raw(1, "curse", "2021-05-01"), raw(2, "curse", "junk")]),
            },
        },
        SourceFetch {
            source: Source::Tukui,
            outcome: FetchOutcome::Response {
                status: middle_status,
                addons: Some(vec![raw(10, "tukui", "2021-05-01 12:00:00")]),
            },
        },
        SourceFetch {
            source: Source::WowI,
            outcome: FetchOutcome::Response {
                status: 200,
                addons: Some(vec![raw(20, "wowi", "1619870400000")]),
            },
        },
    ]
}

#[test]
fn one_failing_source_leaves_the_others_merged_in_order() {
    let catalog = assemble_catalog(&three_fetches(500));
    let ids: Vec<i32> = catalog.addons.iter().map(|a| a.id).collect();
    assert_eq!(ids, vec![1, 2, 20]);
    assert_eq!(catalog.addons[0].source, Source::Curse);
    assert_eq!(catalog.addons[1].source, Source::Curse);
    assert_eq!(catalog.addons[2].source, Source::WowI);
}

#[test]
fn all_sources_succeeding_merge_in_declared_order() {
    let catalog = assemble_catalog(&three_fetches(200));
    let ids: Vec<i32> = catalog.addons.iter().map(|a| a.id).collect();
    assert_eq!(ids, vec![1, 2, 10, 20]);
}

#[test]
fn all_sources_failing_give_an_empty_catalog() {
    let fetches = vec![
        SourceFetch { source: Source::Curse, outcome: FetchOutcome::Failure },
        SourceFetch {
            source: Source::Tukui,
            outcome: FetchOutcome::Response { status: 404, addons: None },
        },
        SourceFetch {
            source: Source::WowI,
            outcome: FetchOutcome::Response { status: 200, addons: None },
        },
    ];
    let catalog = assemble_catalog(&fetches);
    assert_eq!(catalog.addons.len(), 0);
}

#[test]
fn rejected_payload_contributes_nothing_without_hurting_others() {
    let fetches = vec![
        SourceFetch {
            source: Source::Curse,
            outcome: FetchOutcome::Response {
                status: 200,
                addons: Some(vec![raw(1, "curse", "2021-05-01"), raw(2, "bogus", "2021-05-01")]),
            },
        },
        SourceFetch {
            source: Source::Tukui,
            outcome: FetchOutcome::Response {
                status: 200,
                addons: Some(vec![raw(10, "tukui", "2021-05-01")]),
            },
        },
    ];
    let catalog = assemble_catalog(&fetches);
    let ids: Vec<i32> = catalog.addons.iter().map(|a| a.id).collect();
    assert_eq!(ids, vec![10]);
}

#[test]
fn assembling_identical_outcomes_twice_gives_identical_catalogs() {
    let first = assemble_catalog(&three_fetches(200));
    let second = assemble_catalog(&three_fetches(200));
    assert_eq!(first, second);
    let first_again = assemble_catalog(&three_fetches(500));
    let second_again = assemble_catalog(&three_fetches(500));
    assert_eq!(first_again, second_again);
}
