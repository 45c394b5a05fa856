//! Retrieval planning: where each document of a persisted selection comes
//! from and where it is written.

use vstd::prelude::*;
use crate::configuration::{
    Configuration, Paper, PaperSpec, SyllabusCode, YearConfiguration, ref_filename,
};
use crate::scraper::{labels_view, papers_view, paper_url};

verus! {

/// A persisted selection to download, where to, with how many workers.
#[derive(Debug)]
pub struct DownloadConfiguration {
    pub config: Configuration,
    pub output_folder: String,
    pub threads: u8,
}

#[derive(Debug)]
pub enum DownloadError {
    ConfigNotFound,
    ConfigParseError(std::io::Error),
    DownloadFolderCannotBeCreated,
}

/// The directory of a subject: `<name> (<code>)`.
pub open spec fn folder_name(code: SyllabusCode) -> Seq<char> {
    code.name@ + seq![' ', '('] + code.syllabus_code@ + seq![')']
}

pub fn subject_folder_name(code: &SyllabusCode) -> (r: String)
    ensures
        r@ == folder_name(*code),
{
    proof {
        reveal_strlit(" (");
        reveal_strlit(")");
    }
    let mut r = code.name.clone();
    r.append(" (");
    r.append(code.syllabus_code.as_str());
    r.append(")");
    r
}

/// Whether `v` holds a string with the text `s`.
pub fn contains_text(v: &Vec<String>, s: &String) -> (r: bool)
    ensures
        r == labels_view(v@).contains(s@),
{
    let mut i: usize = 0;
    while i < v.len()
        invariant
            i <= v@.len(),
            forall|j: int| 0 <= j < i ==> v@[j]@ != s@,
        decreases v@.len() - i,
    {
        if v[i] == *s {
            assert(labels_view(v@)[i as int] == s@);
            return true;
        }
        i = i + 1;
    }
    assert forall|j: int| 0 <= j < labels_view(v@).len() implies labels_view(v@)[j] != s@ by {
        assert(labels_view(v@)[j] == v@[j]@);
    }
    false
}

/// The years of some documents, each once.
pub fn distinct_years(papers: &Vec<Paper>) -> (r: Vec<String>)
    ensures
        labels_view(r@).no_duplicates(),
        forall|y: Seq<char>|
            labels_view(r@).contains(y) <==> exists|i: int|
                0 <= i < papers@.len() && #[trigger] papers@[i].year@ == y,
{
    let mut r: Vec<String> = Vec::new();
    let mut i: usize = 0;
    while i < papers.len()
        invariant
            i <= papers@.len(),
            labels_view(r@).no_duplicates(),
            forall|y: Seq<char>|
                labels_view(r@).contains(y) <==> exists|k: int|
                    0 <= k < i && #[trigger] papers@[k].year@ == y,
        decreases papers@.len() - i,
    {
        let year = &papers[i].year;
        if !contains_text(&r, year) {
            let ghost before = r@;
            r.push(year.clone());
            proof {
                let lv = labels_view(r@);
                let lb = labels_view(before);
                assert(lv =~= lb.push(year@));
                assert forall|y: Seq<char>|
                    lv.contains(y) <==> exists|k: int|
                        0 <= k < i + 1 && #[trigger] papers@[k].year@ == y by {
                    if lv.contains(y) {
                        let j = choose|j: int| 0 <= j < lv.len() && lv[j] == y;
                        if j < lb.len() {
                            assert(lb[j] == y);
                            assert(lb.contains(y));
                            let k = choose|k: int| 0 <= k < i && #[trigger] papers@[k].year@ == y;
                            assert(papers@[k].year@ == y);
                        } else {
                            assert(papers@[i as int].year@ == y);
                        }
                    }
                    if exists|k: int| 0 <= k < i + 1 && #[trigger] papers@[k].year@ == y {
                        let k = choose|k: int| 0 <= k < i + 1 && #[trigger] papers@[k].year@ == y;
                        if k < i {
                            assert(lb.contains(y));
                            let j = choose|j: int| 0 <= j < lb.len() && lb[j] == y;
                            assert(lv[j] == y);
                        } else {
                            assert(lv[lb.len() as int] == y);
                        }
                    }
                }
            }
        } else {
            proof {
                assert forall|y: Seq<char>|
                    labels_view(r@).contains(y) <==> exists|k: int|
                        0 <= k < i + 1 && #[trigger] papers@[k].year@ == y by {
                    if exists|k: int| 0 <= k < i + 1 && #[trigger] papers@[k].year@ == y {
                        let k = choose|k: int| 0 <= k < i + 1 && #[trigger] papers@[k].year@ == y;
                        if k == i {
                            assert(labels_view(r@).contains(year@));
                        }
                    }
                }
            }
        }
        i = i + 1;
    }
    r
}

/// One document to fetch: from where, and the path to write it to.
#[derive(Debug)]
pub struct DownloadJob {
    pub url: String,
    pub path: String,
}

pub open spec fn job_url(base: Seq<char>, code: SyllabusCode, p: PaperSpec) -> Seq<char> {
    base + code.access_slug@ + seq!['/'] + p.year + seq!['/'] + ref_filename(p, code.syllabus_code@)
}

/// `<root>/<name> (<code>)/<year>/<file name>`.
pub open spec fn job_path(root: Seq<char>, code: SyllabusCode, p: PaperSpec) -> Seq<char> {
    root + seq!['/'] + folder_name(code) + seq!['/'] + p.year + seq!['/'] + ref_filename(
        p,
        code.syllabus_code@,
    )
}

/// A job per document, in order, skipping documents whose year is too short
/// to name a file.
pub open spec fn jobs_spec(
    base: Seq<char>,
    root: Seq<char>,
    code: SyllabusCode,
    papers: Seq<PaperSpec>,
) -> Seq<(Seq<char>, Seq<char>)>
    decreases papers.len(),
{
    if papers.len() == 0 {
        Seq::empty()
    } else {
        let rest = jobs_spec(base, root, code, papers.drop_last());
        let p = papers.last();
        if p.year.len() >= 2 {
            rest.push((job_url(base, code, p), job_path(root, code, p)))
        } else {
            rest
        }
    }
}

pub open spec fn jobs_view(v: Seq<DownloadJob>) -> Seq<(Seq<char>, Seq<char>)> {
    v.map_values(|j: DownloadJob| (j.url@, j.path@))
}

/// The documents of one subject to fetch from the catalog at `base` and to
/// write under the directory `root`.
pub fn download_jobs(base: &str, root: &str, subject: &YearConfiguration) -> (r: Vec<DownloadJob>)
    ensures
        jobs_view(r@) == jobs_spec(base@, root@, subject.syllabus_code, papers_view(subject.papers@)),
{
    let code = &subject.syllabus_code;
    let folder = subject_folder_name(code);
    let mut out: Vec<DownloadJob> = Vec::new();
    let mut i: usize = 0;
    while i < subject.papers.len()
        invariant
            i <= subject.papers@.len(),
            code == &subject.syllabus_code,
            folder@ == folder_name(*code),
            jobs_view(out@) == jobs_spec(
                base@,
                root@,
                *code,
                papers_view(subject.papers@.subrange(0, i as int)),
            ),
        decreases subject.papers@.len() - i,
    {
        proof {
            assert(papers_view(subject.papers@.subrange(0, i + 1)).drop_last() =~= papers_view(
                subject.papers@.subrange(0, i as int),
            ));
        }
        let paper = &subject.papers[i];
        if paper.year.as_str().unicode_len() >= 2 {
            proof {
                reveal_strlit("/");
            }
            let url = paper_url(base, code, paper);
            let name = paper.get_ref_filename(code);
            let mut path = root.to_owned();
            path.append("/");
            path.append(folder.as_str());
            path.append("/");
            path.append(paper.year.as_str());
            path.append("/");
            path.append(name.as_str());
            assert(url@ == job_url(base@, *code, paper@));
            assert(path@ == job_path(root@, *code, paper@));
            let ghost before = out@;
            out.push(DownloadJob { url, path });
            proof {
                assert(jobs_view(out@) =~= jobs_view(before).push(
                    (job_url(base@, *code, paper@), job_path(root@, *code, paper@)),
                ));
            }
        }
        i = i + 1;
    }
    assert(subject.papers@.subrange(0, subject.papers@.len() as int) =~= subject.papers@);
    out
}

/// The documents whose year is too short to name a file, in order: no job
/// can fetch them.
pub open spec fn unnamable_spec(papers: Seq<PaperSpec>) -> Seq<PaperSpec>
    decreases papers.len(),
{
    if papers.len() == 0 {
        Seq::empty()
    } else {
        let rest = unnamable_spec(papers.drop_last());
        if papers.last().year.len() < 2 {
            rest.push(papers.last())
        } else {
            rest
        }
    }
}

/// The documents of one subject that `download_jobs` leaves out, so that
/// they can be reported as failed.
pub fn unnamable_papers(subject: &YearConfiguration) -> (r: Vec<Paper>)
    ensures
        papers_view(r@) == unnamable_spec(papers_view(subject.papers@)),
{
    let mut out: Vec<Paper> = Vec::new();
    let mut i: usize = 0;
    while i < subject.papers.len()
        invariant
            i <= subject.papers@.len(),
            papers_view(out@) == unnamable_spec(papers_view(subject.papers@.subrange(0, i as int))),
        decreases subject.papers@.len() - i,
    {
        proof {
            assert(papers_view(subject.papers@.subrange(0, i + 1)).drop_last() =~= papers_view(
                subject.papers@.subrange(0, i as int),
            ));
        }
        let paper = &subject.papers[i];
        if paper.year.as_str().unicode_len() < 2 {
            let ghost before = out@;
            out.push(paper.clone());
            proof {
                assert(papers_view(out@) =~= papers_view(before).push(paper@));
            }
        }
        i = i + 1;
    }
    assert(subject.papers@.subrange(0, subject.papers@.len() as int) =~= subject.papers@);
    out
}

/// Every document of a subject is either fetched by one job or reported as
/// unnamable: the two lists together are as long as the documents.
pub proof fn lemma_jobs_account(
    base: Seq<char>,
    root: Seq<char>,
    code: SyllabusCode,
    papers: Seq<PaperSpec>,
)
    ensures
        jobs_spec(base, root, code, papers).len() + unnamable_spec(papers).len() == papers.len(),
    decreases papers.len(),
{
    if papers.len() > 0 {
        lemma_jobs_account(base, root, code, papers.drop_last());
    }
}

} // verus!
