//! Year and document discovery: what the catalog's listing pages say, once
//! fetched, and the addresses to fetch them from.

use kuchikiki::traits::TendrilSink;
use vstd::prelude::*;
use vstd::string::*;
use crate::configuration::{
    parse_row, Paper, PaperSpec, PaperType, Season, SyllabusCode, ref_filename,
};

verus! {

/// The catalog that the tool reads by default.
pub const BASE_URL: &'static str = "https://papers.gceguide.cc/a-levels/";

#[verifier::external_type_specification]
#[verifier::external_body]
pub struct ExReqwestError(reqwest::Error);

#[verifier::external_type_specification]
#[verifier::external_body]
pub struct ExIoError(std::io::Error);

/// Why a listing could not be had.
#[derive(Debug)]
pub enum RequestError {
    ReqwestError(reqwest::Error),
    NotFound(&'static str),
    TokioError(std::io::Error),
}

/// Document discovery for one subject and year, restricted to some kinds.
#[derive(Debug)]
pub struct PaperRequest {
    pub syllabus: SyllabusCode,
    pub year: String,
    pub seasons: Vec<Season>,
    pub papers: Vec<PaperType>,
}

/// The text of each string, in order.
pub open spec fn labels_view(v: Seq<String>) -> Seq<Seq<char>> {
    v.map_values(|s: String| s@)
}

pub open spec fn papers_view(v: Seq<Paper>) -> Seq<PaperSpec> {
    v.map_values(|p: Paper| p@)
}

/// The text of every element of class `name` in an HTML document, in
/// document order.
pub uninterp spec fn name_labels_of(html: Seq<char>) -> Seq<Seq<char>>;

/// Relies on kuchikiki's `parse_html`, `NodeRef::select` and
/// `NodeRef::text_contents`: the text contents of the elements that match
/// the selector `.name`, in document order. `select` fails only when
/// `Selectors::compile` meets a syntax error or an unsupported selector, and
/// the class selector `.name` is neither.
#[verifier::external_body]
fn name_labels(body: &str) -> (r: Option<Vec<String>>)
    ensures
        r is Some,
        r matches Some(v) ==> labels_view(v@) == name_labels_of(body@),
{
    let document = kuchikiki::parse_html().one(body);
    match document.select(".name") {
        Ok(nodes) => Some(nodes.map(|node| node.as_node().text_contents()).collect()),
        Err(_) => None,
    }
}

/// The labels of four characters, which the catalog uses for years.
pub open spec fn year_labels(s: Seq<Seq<char>>) -> Seq<Seq<char>>
    decreases s.len(),
{
    if s.len() == 0 {
        Seq::empty()
    } else if s.last().len() == 4 {
        year_labels(s.drop_last()).push(s.last())
    } else {
        year_labels(s.drop_last())
    }
}

/// The documents that the rows denote, keeping those of the given kinds.
pub open spec fn selected_papers(rows: Seq<Seq<char>>, kinds: Seq<PaperType>) -> Seq<PaperSpec>
    decreases rows.len(),
{
    if rows.len() == 0 {
        Seq::empty()
    } else {
        let rest = selected_papers(rows.drop_last(), kinds);
        match parse_row(rows.last()) {
            Ok(p) => if kinds.contains(p.paper_type) {
                rest.push(p)
            } else {
                rest
            },
            Err(_) => rest,
        }
    }
}

pub fn contains_kind(v: &Vec<PaperType>, k: PaperType) -> (r: bool)
    ensures
        r == v@.contains(k),
{
    let mut i: usize = 0;
    while i < v.len()
        invariant
            i <= v@.len(),
            forall|j: int| 0 <= j < i ==> v@[j] != k,
        decreases v@.len() - i,
    {
        if v[i] == k {
            return true;
        }
        i = i + 1;
    }
    false
}

/// Keeps the labels that can be years. A listing with none is `NotFound`.
pub fn years_from_labels(labels: &Vec<String>) -> (r: Result<Vec<String>, RequestError>)
    ensures
        r is Ok <==> year_labels(labels_view(labels@)).len() > 0,
        r matches Ok(v) ==> labels_view(v@) == year_labels(labels_view(labels@)),
        r matches Err(e) ==> e is NotFound,
{
    let mut years: Vec<String> = Vec::new();
    let mut i: usize = 0;
    while i < labels.len()
        invariant
            i <= labels@.len(),
            labels_view(years@) == year_labels(labels_view(labels@.subrange(0, i as int))),
        decreases labels@.len() - i,
    {
        proof {
            assert(labels@.subrange(0, i + 1).drop_last() =~= labels@.subrange(0, i as int));
            assert(labels_view(labels@.subrange(0, i + 1)).drop_last() =~= labels_view(
                labels@.subrange(0, i as int),
            ));
        }
        let label = &labels[i];
        if label.as_str().unicode_len() == 4 {
            let ghost before = years@;
            years.push(label.clone());
            proof {
                assert(labels_view(years@) =~= labels_view(before).push(label@));
            }
        }
        i = i + 1;
    }
    assert(labels@.subrange(0, labels@.len() as int) =~= labels@);
    if years.len() == 0 {
        Err(RequestError::NotFound("No years data found."))
    } else {
        Ok(years)
    }
}

/// Year discovery on a fetched subject page: the years it lists. A page
/// that lists none is `NotFound`.
pub fn years_from_body(body: &str) -> (r: Result<Vec<String>, RequestError>)
    ensures
        r is Ok <==> year_labels(name_labels_of(body@)).len() > 0,
        r matches Ok(v) ==> labels_view(v@) == year_labels(name_labels_of(body@)),
        r matches Err(e) ==> e is NotFound,
{
    match name_labels(body) {
        Some(labels) => years_from_labels(&labels),
        None => Err(RequestError::NotFound("No years elements found.")),
    }
}

/// Parses each listing row and keeps the documents of the requested kinds,
/// in row order. Rows that do not parse are dropped. Seasons are not
/// filtered here: each document carries its own.
pub fn select_papers(request: &PaperRequest, rows: &Vec<String>) -> (r: Vec<Paper>)
    ensures
        papers_view(r@) == selected_papers(labels_view(rows@), request.papers@),
{
    let mut papers: Vec<Paper> = Vec::new();
    let mut i: usize = 0;
    while i < rows.len()
        invariant
            i <= rows@.len(),
            papers_view(papers@) == selected_papers(
                labels_view(rows@.subrange(0, i as int)),
                request.papers@,
            ),
        decreases rows@.len() - i,
    {
        proof {
            assert(labels_view(rows@.subrange(0, i + 1)).drop_last() =~= labels_view(
                rows@.subrange(0, i as int),
            ));
        }
        match Paper::parse(rows[i].as_str()) {
            Ok(p) => {
                if contains_kind(&request.papers, p.paper_type) {
                    let ghost before = papers@;
                    let ghost pv = p@;
                    papers.push(p);
                    proof {
                        assert(papers_view(papers@) =~= papers_view(before).push(pv));
                    }
                }
            },
            Err(_) => {},
        }
        i = i + 1;
    }
    assert(rows@.subrange(0, rows@.len() as int) =~= rows@);
    papers
}

/// Document discovery on a fetched year page: the documents of the requested
/// kinds that it lists. A page without such documents gives none.
pub fn papers_from_body(request: &PaperRequest, body: &str) -> (r: Vec<Paper>)
    ensures
        papers_view(r@) == selected_papers(name_labels_of(body@), request.papers@),
{
    match name_labels(body) {
        Some(rows) => select_papers(request, &rows),
        None => Vec::new(),
    }
}

/// The page that lists a subject's years.
pub fn years_url(base: &str, syllabus: &SyllabusCode) -> (r: String)
    ensures
        r@ == base@ + syllabus.access_slug@,
{
    let mut r = base.to_owned();
    r.append(syllabus.access_slug.as_str());
    r
}

/// The page that lists a subject's documents of one year.
pub fn papers_url(base: &str, request: &PaperRequest) -> (r: String)
    ensures
        r@ == base@ + request.syllabus.access_slug@ + seq!['/'] + request.year@,
{
    proof {
        reveal_strlit("/");
    }
    let mut r = base.to_owned();
    r.append(request.syllabus.access_slug.as_str());
    r.append("/");
    r.append(request.year.as_str());
    r
}

/// Where one document is served.
pub fn paper_url(base: &str, syllabus: &SyllabusCode, paper: &Paper) -> (r: String)
    requires
        paper.year@.len() >= 2,
    ensures
        r@ == base@ + syllabus.access_slug@ + seq!['/'] + paper.year@ + seq!['/'] + ref_filename(
            paper@,
            syllabus.syllabus_code@,
        ),
{
    proof {
        reveal_strlit("/");
    }
    let name = paper.get_ref_filename(syllabus);
    let mut r = base.to_owned();
    r.append(syllabus.access_slug.as_str());
    r.append("/");
    r.append(paper.year.as_str());
    r.append("/");
    r.append(name.as_str());
    r
}

} // verus!
