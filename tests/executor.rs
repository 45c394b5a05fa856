use gce_scraper::configuration::{Paper, PaperType, Season, SyllabusCode, YearConfiguration};
use gce_scraper::download::{
    contains_text, distinct_years, download_jobs, subject_folder_name, unnamable_papers,
};
use gce_scraper::pool::{TaskState, WorkPool};

/// Drives a pool to the end, ending the running tasks oldest first, and
/// returns the most tasks seen running at once.
fn drive(pool: &mut WorkPool, fails: &[usize]) -> usize {
    let mut running: Vec<usize> = Vec::new();
    let mut most = 0;
    while !pool.is_done() {
        while let Some(t) = pool.try_start() {
            running.push(t);
        }
        most = most.max(pool.running());
        let t = running.remove(0);
        assert_eq!(pool.state(t), TaskState::Running);
        pool.finish(t, !fails.contains(&t));
    }
    most
}

#[test]
fn pool_counts_successes_and_failures_under_limit() {
    let mut pool = WorkPool::new(5, 2);
    let most = drive(&mut pool, &[1, 3]);
    assert!(most <= 2);
    assert_eq!(most, 2);
    assert_eq!(pool.succeeded(), 3);
    assert_eq!(pool.failed(), 2);
    assert_eq!(pool.state(1), TaskState::Failed);
    assert_eq!(pool.state(0), TaskState::Succeeded);
}

#[test]
fn pool_starts_no_more_than_limit() {
    let mut pool = WorkPool::new(4, 3);
    assert_eq!(pool.try_start(), Some(0));
    assert_eq!(pool.try_start(), Some(1));
    assert_eq!(pool.try_start(), Some(2));
    assert_eq!(pool.try_start(), None);
    assert_eq!(pool.running(), 3);
    pool.finish(1, true);
    assert_eq!(pool.try_start(), Some(3));
    assert_eq!(pool.try_start(), None);
    assert!(!pool.is_done());
}

#[test]
fn empty_pool_is_done() {
    let mut pool = WorkPool::new(0, 1);
    assert!(pool.is_done());
    assert_eq!(pool.try_start(), None);
    assert_eq!(pool.tasks(), 0);
}

#[test]
fn failures_do_not_stop_siblings() {
    let mut pool = WorkPool::new(3, 1);
    let most = drive(&mut pool, &[0, 1, 2]);
    assert_eq!(most, 1);
    assert_eq!(pool.failed(), 3);
    assert_eq!(pool.succeeded(), 0);
    assert!(pool.is_done());
}

fn biology() -> SyllabusCode {
    SyllabusCode::new("Biology", "biology-(9700)", "9700")
}

#[test]
fn subject_folder_is_name_and_code() {
    assert_eq!(subject_folder_name(&biology()), "Biology (9700)");
}

#[test]
fn years_are_listed_once_in_order() {
    let papers = vec![
        Paper::new("2020", Season::Summer, PaperType::QP, "11"),
        Paper::new("2019", Season::Summer, PaperType::QP, "11"),
        Paper::new("2020", Season::Winter, PaperType::MS, "12"),
    ];
    assert_eq!(distinct_years(&papers), vec!["2020".to_string(), "2019".to_string()]);
    assert!(distinct_years(&Vec::new()).is_empty());
}

#[test]
fn contains_text_compares_text() {
    let v = vec!["a".to_string(), "bc".to_string()];
    assert!(contains_text(&v, &"bc".to_string()));
    assert!(!contains_text(&v, &"b".to_string()));
}

#[test]
fn jobs_name_source_and_destination() {
    let subject = YearConfiguration {
        syllabus_code: biology(),
        papers: vec![
            Paper::new("2020", Season::Summer, PaperType::QP, "11"),
            Paper::new("2", Season::Summer, PaperType::QP, "11"),
            Paper::new("2019", Season::Winter, PaperType::ER, ""),
        ],
    };
    let jobs = download_jobs("http://stub/", "out", &subject);
    assert_eq!(jobs.len(), 2);
    assert_eq!(jobs[0].url, "http://stub/biology-(9700)/2020/9700_s20_qp_11.pdf");
    assert_eq!(jobs[0].path, "out/Biology (9700)/2020/9700_s20_qp_11.pdf");
    assert_eq!(jobs[1].url, "http://stub/biology-(9700)/2019/9700_w19_er.pdf");
    assert_eq!(jobs[1].path, "out/Biology (9700)/2019/9700_w19_er.pdf");
}

#[test]
fn documents_without_a_file_name_are_listed() {
    let subject = YearConfiguration {
        syllabus_code: biology(),
        papers: vec![
            Paper::new("2020", Season::Summer, PaperType::QP, "11"),
            Paper::new("2", Season::Summer, PaperType::QP, "11"),
            Paper::new("", Season::Winter, PaperType::ER, ""),
        ],
    };
    let skipped = unnamable_papers(&subject);
    assert_eq!(
        skipped,
        vec![
            Paper::new("2", Season::Summer, PaperType::QP, "11"),
            Paper::new("", Season::Winter, PaperType::ER, ""),
        ]
    );
    let jobs = download_jobs("http://stub/", "out", &subject);
    assert_eq!(jobs.len() + skipped.len(), subject.papers.len());
}
