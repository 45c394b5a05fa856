use gce_scraper::catalog::{syllabus_codes, CATALOG_SIZE};
use gce_scraper::config_gen::{
    attach_years, build_requests, check_selection, find_subject, matches_folded, resolve_seasons,
    resolve_subjects, year_discovery_subjects, ConfigurationError, PaperGenerationConfig,
};
use gce_scraper::configuration::{PaperType, RawPaper, Season, SyllabusCode};
use gce_scraper::scraper::RequestError;

fn strings(v: &[&str]) -> Vec<String> {
    v.iter().map(|s| s.to_string()).collect()
}

fn selection(subjects: Option<&[&str]>, years: Option<&[&str]>) -> PaperGenerationConfig {
    PaperGenerationConfig {
        papers: vec![PaperType::QP, PaperType::MS],
        years: years.map(strings),
        subjects: subjects.map(strings),
        seasons: None,
    }
}

#[test]
fn catalog_has_every_subject() {
    let c = syllabus_codes();
    assert_eq!(c.len(), CATALOG_SIZE);
    assert_eq!(c.len(), 83);
    assert_eq!(c[0].name, "Accounting");
    assert_eq!(c[0].syllabus_code, "9706");
}

#[test]
fn folded_matching() {
    assert!(matches_folded("bio", "biology", "9700"));
    assert!(matches_folded("97", "biology", "9700"));
    assert!(!matches_folded("chem", "biology", "9700"));
    assert!(matches_folded("", "biology", "9700"));
}

#[test]
fn subject_lookup_ignores_case() {
    let c = syllabus_codes();
    assert_eq!(find_subject(&c, "Biology").unwrap().syllabus_code, "9700");
    assert_eq!(find_subject(&c, "bIoLoGy").unwrap().syllabus_code, "9700");
    assert_eq!(find_subject(&c, "9702").unwrap().name, "Physics");
    assert_eq!(find_subject(&c, "Computer").unwrap().syllabus_code, "9608");
    assert!(find_subject(&c, "Klingon").is_none());
}

#[test]
fn unknown_subject_is_a_configuration_error() {
    let c = syllabus_codes();
    let config = selection(Some(&["Biology", "Klingon"]), Some(&["2020"]));
    match check_selection(&config, &c) {
        Err(ConfigurationError::UnknownSubject(name)) => assert_eq!(name, "Klingon"),
        other => panic!("unexpected {other:?}"),
    }
}

#[test]
fn no_kinds_is_a_configuration_error() {
    let c = syllabus_codes();
    let mut config = selection(Some(&["Biology"]), None);
    config.papers = Vec::new();
    assert!(matches!(check_selection(&config, &c), Err(ConfigurationError::NoPaperTypes)));
}

#[test]
fn empty_subject_list_is_a_configuration_error() {
    let c = syllabus_codes();
    let config = selection(Some(&[]), None);
    assert!(matches!(check_selection(&config, &c), Err(ConfigurationError::NoSubjects)));
}

#[test]
fn absent_subjects_mean_whole_catalog() {
    let c = syllabus_codes();
    let all = resolve_subjects(&None, &c).unwrap();
    assert_eq!(all, c);
    let some = resolve_subjects(&Some(strings(&["physics", "9701"])), &c).unwrap();
    assert_eq!(some.len(), 2);
    assert_eq!(some[0].syllabus_code, "9702");
    assert_eq!(some[1].name, "Chemistry");
}

#[test]
fn explicit_years_need_no_discovery() {
    let c = syllabus_codes();
    let config = selection(Some(&["Biology", "Physics"]), Some(&["2020", "2021"]));
    let subjects = check_selection(&config, &c).unwrap();
    assert!(year_discovery_subjects(&config, &subjects).is_empty());
    let raws = attach_years(&config, &subjects, &Vec::new()).unwrap();
    assert_eq!(raws.len(), 2);
    assert_eq!(raws[0].year, strings(&["2020", "2021"]));
    assert_eq!(raws[1].syllabus_code.name, "Physics");
}

#[test]
fn absent_years_need_one_discovery_per_subject() {
    let c = syllabus_codes();
    let config = selection(Some(&["Biology", "Physics", "Chemistry"]), None);
    let subjects = check_selection(&config, &c).unwrap();
    let to_discover = year_discovery_subjects(&config, &subjects);
    assert_eq!(to_discover, subjects);
    let found: Vec<Result<Vec<String>, RequestError>> = vec![
        Ok(strings(&["2019", "2020"])),
        Err(RequestError::NotFound("No years data found.")),
        Ok(Vec::new()),
    ];
    let raws = attach_years(&config, &subjects, &found).unwrap();
    assert_eq!(raws.len(), 1);
    assert_eq!(raws[0].syllabus_code.syllabus_code, "9700");
    assert_eq!(raws[0].year, strings(&["2019", "2020"]));
}

#[test]
fn all_discoveries_failing_leaves_no_subjects() {
    let c = syllabus_codes();
    let config = selection(Some(&["Biology"]), None);
    let subjects = check_selection(&config, &c).unwrap();
    let found: Vec<Result<Vec<String>, RequestError>> =
        vec![Err(RequestError::NotFound("No years elements found."))];
    assert!(matches!(
        attach_years(&config, &subjects, &found),
        Err(ConfigurationError::NoSubjects)
    ));
}

#[test]
fn seasons_default_to_all() {
    assert_eq!(
        resolve_seasons(&None),
        vec![Season::March, Season::Summer, Season::Winter]
    );
    assert_eq!(resolve_seasons(&Some(vec![Season::Winter])), vec![Season::Winter]);
}

#[test]
fn requests_cross_subjects_and_years() {
    let raws = vec![
        RawPaper {
            year: strings(&["2019", "2020"]),
            syllabus_code: SyllabusCode::new("Biology", "biology-(9700)", "9700"),
        },
        RawPaper {
            year: strings(&["2021"]),
            syllabus_code: SyllabusCode::new("Physics", "physics-(9702)", "9702"),
        },
        RawPaper {
            year: Vec::new(),
            syllabus_code: SyllabusCode::new("Law", "law-(9084)", "9084"),
        },
    ];
    let seasons = vec![Season::Summer];
    let kinds = vec![PaperType::QP, PaperType::ER];
    let reqs = build_requests(&raws, &seasons, &kinds);
    let pairs: Vec<(String, String)> = reqs
        .iter()
        .map(|r| (r.syllabus.syllabus_code.clone(), r.year.clone()))
        .collect();
    assert_eq!(
        pairs,
        vec![
            ("9700".to_string(), "2019".to_string()),
            ("9700".to_string(), "2020".to_string()),
            ("9702".to_string(), "2021".to_string()),
        ]
    );
    for r in &reqs {
        assert_eq!(r.seasons, seasons);
        assert_eq!(r.papers, kinds);
    }
}
