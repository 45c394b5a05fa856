use gce_scraper::catalog::syllabus_codes;
use gce_scraper::config_gen::{
    attach_years, build_requests, check_selection, resolve_seasons, year_discovery_subjects,
    PaperGenerationConfig,
};
use gce_scraper::configuration::{PaperType, Season, YearConfiguration};
use gce_scraper::download::download_jobs;
use gce_scraper::scraper::select_papers;

#[test]
fn biology_summer_question_paper() {
    let config = PaperGenerationConfig {
        papers: vec![PaperType::QP],
        years: Some(vec!["2020".to_string()]),
        subjects: Some(vec!["Biology".to_string()]),
        seasons: Some(vec![Season::Summer]),
    };
    let catalog = syllabus_codes();
    let subjects = check_selection(&config, &catalog).unwrap();
    assert!(year_discovery_subjects(&config, &subjects).is_empty());
    let raws = attach_years(&config, &subjects, &Vec::new()).unwrap();
    let seasons = resolve_seasons(&config.seasons);
    let requests = build_requests(&raws, &seasons, &config.papers);
    assert_eq!(requests.len(), 1);
    let rows = vec!["9700_s20_qp_11.pdf".to_string(), "9700_s20_ms_11.pdf".to_string()];
    let papers = select_papers(&requests[0], &rows);
    assert_eq!(papers.len(), 1);
    let p = &papers[0];
    assert_eq!(p.year, "2020");
    assert_eq!(p.season, Season::Summer);
    assert_eq!(p.paper_type, PaperType::QP);
    assert_eq!(p.variant, "11");
    assert_eq!(p.get_ref_filename(&requests[0].syllabus), "9700_s20_qp_11.pdf");
    let subject = YearConfiguration { syllabus_code: requests[0].syllabus.clone(), papers };
    let jobs = download_jobs("https://stub/", "root", &subject);
    assert_eq!(jobs.len(), 1);
    assert_eq!(jobs[0].path, "root/Biology (9700)/2020/9700_s20_qp_11.pdf");
}
