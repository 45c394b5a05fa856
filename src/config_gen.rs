//! Target expansion: from a sparse selection to one discovery request per
//! subject and year.

use vstd::prelude::*;
use crate::configuration::{PaperType, RawPaper, Season, SyllabusCode};
use crate::scraper::{PaperRequest, RequestError, labels_view};
use crate::text::{is_prefix_of, starts_with};

verus! {

/// What the user asked for. An absent list means "all" (subjects, seasons)
/// or "discover them" (years).
#[derive(Debug)]
pub struct PaperGenerationConfig {
    pub papers: Vec<PaperType>,
    pub years: Option<Vec<String>>,
    pub subjects: Option<Vec<String>>,
    pub seasons: Option<Vec<Season>>,
}

/// A selection that cannot be carried out; nothing is fetched.
#[derive(Debug)]
pub enum ConfigurationError {
    /// A subject named in the selection matches no catalog entry.
    UnknownSubject(String),
    /// No subject is left to look at.
    NoSubjects,
    /// No document kind was asked for.
    NoPaperTypes,
}

/// The lowercase form of a string, as Unicode defines it.
pub uninterp spec fn lower_of(s: Seq<char>) -> Seq<char>;

/// Relies on `str::to_lowercase`: the result depends on the characters alone.
#[verifier::external_body]
fn lowercase(s: &str) -> (r: String)
    ensures
        r@ == lower_of(s@),
{
    s.to_lowercase()
}

/// Whether a folded query is a prefix of a folded subject name or code.
pub open spec fn folded_match(query: Seq<char>, name: Seq<char>, code: Seq<char>) -> bool {
    is_prefix_of(query, name) || is_prefix_of(query, code)
}

/// Whether catalog entry `c` answers the subject query `q`: its name or its
/// code starts with `q`, ignoring case.
pub open spec fn subject_match(c: SyllabusCode, q: Seq<char>) -> bool {
    folded_match(lower_of(q), lower_of(c.name@), lower_of(c.syllabus_code@))
}

/// The first catalog entry that answers `q`.
pub open spec fn first_match(catalog: Seq<SyllabusCode>, q: Seq<char>) -> Option<SyllabusCode>
    decreases catalog.len(),
{
    if catalog.len() == 0 {
        None
    } else if subject_match(catalog[0], q) {
        Some(catalog[0])
    } else {
        first_match(catalog.drop_first(), q)
    }
}

/// Matching on case-folded text: `query` must start `name` or `code`.
pub fn matches_folded(query: &str, name: &str, code: &str) -> (r: bool)
    ensures
        r == folded_match(query@, name@, code@),
{
    starts_with(name, query) || starts_with(code, query)
}

/// The first catalog entry whose name or code starts with `query`, ignoring case.
pub fn find_subject(catalog: &Vec<SyllabusCode>, query: &str) -> (r: Option<SyllabusCode>)
    ensures
        r == first_match(catalog@, query@),
{
    let q = lowercase(query);
    let mut i: usize = 0;
    assert(catalog@.subrange(0, catalog@.len() as int) =~= catalog@);
    while i < catalog.len()
        invariant
            i <= catalog@.len(),
            q@ == lower_of(query@),
            first_match(catalog@, query@) == first_match(
                catalog@.subrange(i as int, catalog@.len() as int),
                query@,
            ),
        decreases catalog@.len() - i,
    {
        let ghost rest = catalog@.subrange(i as int, catalog@.len() as int);
        assert(rest[0] == catalog@[i as int]);
        assert(rest.drop_first() =~= catalog@.subrange(i + 1, catalog@.len() as int));
        let entry = &catalog[i];
        let name = lowercase(entry.name.as_str());
        let code = lowercase(entry.syllabus_code.as_str());
        if matches_folded(q.as_str(), name.as_str(), code.as_str()) {
            return Some(entry.clone());
        }
        i = i + 1;
    }
    None
}

/// Copies a list of strings.
pub fn copy_strings(v: &Vec<String>) -> (r: Vec<String>)
    ensures
        r@ == v@,
{
    let mut r: Vec<String> = Vec::new();
    let mut i: usize = 0;
    while i < v.len()
        invariant
            i <= v@.len(),
            r@ == v@.subrange(0, i as int),
        decreases v@.len() - i,
    {
        r.push(v[i].clone());
        i = i + 1;
    }
    assert(r@ =~= v@);
    r
}

pub fn copy_subjects(v: &Vec<SyllabusCode>) -> (r: Vec<SyllabusCode>)
    ensures
        r@ == v@,
{
    let mut r: Vec<SyllabusCode> = Vec::new();
    let mut i: usize = 0;
    while i < v.len()
        invariant
            i <= v@.len(),
            r@ == v@.subrange(0, i as int),
        decreases v@.len() - i,
    {
        r.push(v[i].clone());
        i = i + 1;
    }
    assert(r@ =~= v@);
    r
}

/// The subjects a selection names: the whole catalog when it names none,
/// else for each query, in order, the first catalog entry that answers it.
pub open spec fn resolved_subjects(
    queries: Option<Seq<Seq<char>>>,
    catalog: Seq<SyllabusCode>,
) -> Seq<SyllabusCode> {
    match queries {
        None => catalog,
        Some(qs) => Seq::new(qs.len(), |i: int| first_match(catalog, qs[i])->0),
    }
}

/// Whether every query of the selection is answered by the catalog.
pub open spec fn all_answered(queries: Option<Seq<Seq<char>>>, catalog: Seq<SyllabusCode>) -> bool {
    match queries {
        None => true,
        Some(qs) => forall|i: int| 0 <= i < qs.len() ==> first_match(catalog, qs[i]) is Some,
    }
}

pub open spec fn queries_view(subjects: Option<Vec<String>>) -> Option<Seq<Seq<char>>> {
    match subjects {
        None => None,
        Some(v) => Some(labels_view(v@)),
    }
}

/// Resolves the selection's subjects against the catalog. A query that no
/// entry answers is an error that names the first such query.
pub fn resolve_subjects(subjects: &Option<Vec<String>>, catalog: &Vec<SyllabusCode>) -> (r: Result<
    Vec<SyllabusCode>,
    ConfigurationError,
>)
    ensures
        r is Ok <==> all_answered(queries_view(*subjects), catalog@),
        r matches Ok(v) ==> v@ == resolved_subjects(queries_view(*subjects), catalog@),
        r matches Err(e) ==> e matches ConfigurationError::UnknownSubject(name) && exists|i: int|
            0 <= i < subjects->0@.len() && subjects->0@[i]@ == name@ && first_match(
                catalog@,
                name@,
            ) is None && forall|j: int|
                0 <= j < i ==> first_match(catalog@, #[trigger] subjects->0@[j]@) is Some,
{
    match subjects {
        None => Ok(copy_subjects(catalog)),
        Some(qs) => {
            let mut r: Vec<SyllabusCode> = Vec::new();
            let mut i: usize = 0;
            while i < qs.len()
                invariant
                    i <= qs@.len(),
                    *subjects == Some(*qs),
                    r@.len() == i,
                    forall|j: int|
                        0 <= j < i ==> first_match(catalog@, qs@[j]@) == Some(#[trigger] r@[j]),
                decreases qs@.len() - i,
            {
                match find_subject(catalog, qs[i].as_str()) {
                    Some(c) => r.push(c),
                    None => {
                        assert(labels_view(qs@)[i as int] == qs@[i as int]@);
                        assert forall|j: int| 0 <= j < i implies first_match(
                            catalog@,
                            #[trigger] qs@[j]@,
                        ) is Some by {
                            assert(first_match(catalog@, qs@[j]@) == Some(r@[j]));
                        }
                        return Err(ConfigurationError::UnknownSubject(qs[i].clone()));
                    },
                }
                i = i + 1;
            }
            assert forall|j: int| 0 <= j < qs@.len() implies labels_view(qs@)[j] == qs@[j]@
                && first_match(catalog@, labels_view(qs@)[j]) is Some by {
                assert(first_match(catalog@, qs@[j]@) == Some(r@[j]));
            }
            assert(r@ =~= resolved_subjects(queries_view(*subjects), catalog@));
            Ok(r)
        },
    }
}

/// The seasons of a selection; all three when it names none.
pub fn resolve_seasons(seasons: &Option<Vec<Season>>) -> (r: Vec<Season>)
    ensures
        seasons matches Some(s) ==> r@ == s@,
        seasons is None ==> r@ == seq![Season::March, Season::Summer, Season::Winter],
{
    match seasons {
        Some(s) => copy_all(s),
        None => {
            let r = vec![Season::March, Season::Summer, Season::Winter];
            assert(r@ =~= seq![Season::March, Season::Summer, Season::Winter]);
            r
        },
    }
}

/// Copies a list of plain values.
pub fn copy_all<T: Copy>(v: &Vec<T>) -> (r: Vec<T>)
    ensures
        r@ == v@,
{
    let mut r: Vec<T> = Vec::new();
    let mut i: usize = 0;
    while i < v.len()
        invariant
            i <= v@.len(),
            r@ == v@.subrange(0, i as int),
        decreases v@.len() - i,
    {
        r.push(v[i]);
        i = i + 1;
    }
    assert(r@ =~= v@);
    r
}

/// Checks a selection before anything is fetched: it must ask for some
/// kind of document, and name only subjects of the catalog (or none, for
/// all of them), and so come to at least one subject.
pub fn check_selection(config: &PaperGenerationConfig, catalog: &Vec<SyllabusCode>) -> (r: Result<
    Vec<SyllabusCode>,
    ConfigurationError,
>)
    ensures
        config.papers@.len() == 0 ==> r matches Err(ConfigurationError::NoPaperTypes),
        r is Ok <==> config.papers@.len() > 0 && all_answered(queries_view(config.subjects), catalog@)
            && resolved_subjects(queries_view(config.subjects), catalog@).len() > 0,
        r matches Ok(v) ==> v@ == resolved_subjects(queries_view(config.subjects), catalog@),
        config.papers@.len() > 0 && !all_answered(queries_view(config.subjects), catalog@) ==> r
            matches Err(ConfigurationError::UnknownSubject(_)),
        config.papers@.len() > 0 && all_answered(queries_view(config.subjects), catalog@)
            && resolved_subjects(queries_view(config.subjects), catalog@).len() == 0 ==> r matches Err(
            ConfigurationError::NoSubjects,
        ),
        r matches Err(ConfigurationError::UnknownSubject(name)) ==> exists|i: int|
            0 <= i < config.subjects->0@.len() && config.subjects->0@[i]@ == name@ && first_match(
                catalog@,
                name@,
            ) is None && forall|j: int|
                0 <= j < i ==> first_match(catalog@, #[trigger] config.subjects->0@[j]@) is Some,
{
    if config.papers.len() == 0 {
        return Err(ConfigurationError::NoPaperTypes);
    }
    match resolve_subjects(&config.subjects, catalog) {
        Ok(v) => if v.len() == 0 {
            Err(ConfigurationError::NoSubjects)
        } else {
            Ok(v)
        },
        Err(e) => Err(e),
    }
}

/// The subjects whose years must be discovered, each once: all of them when
/// the selection names no years, none when it does.
pub fn year_discovery_subjects(config: &PaperGenerationConfig, subjects: &Vec<SyllabusCode>) -> (r:
    Vec<SyllabusCode>)
    ensures
        config.years is Some ==> r@.len() == 0,
        config.years is None ==> r@ == subjects@,
{
    match &config.years {
        Some(_) => Vec::new(),
        None => copy_subjects(subjects),
    }
}

/// A subject with the texts of its years.
pub open spec fn raw_view(r: RawPaper) -> (SyllabusCode, Seq<Seq<char>>) {
    (r.syllabus_code, labels_view(r.year@))
}

pub open spec fn raws_view(v: Seq<RawPaper>) -> Seq<(SyllabusCode, Seq<Seq<char>>)> {
    v.map_values(|r: RawPaper| raw_view(r))
}

/// What a year discovery gave: the years, or nothing on failure.
pub open spec fn found_view(r: Result<Vec<String>, RequestError>) -> Option<Seq<Seq<char>>> {
    match r {
        Ok(v) => Some(labels_view(v@)),
        Err(_) => None,
    }
}

/// The subjects whose discovery gave at least one year, with those years.
pub open spec fn discovered_raw(
    subjects: Seq<SyllabusCode>,
    found: Seq<Option<Seq<Seq<char>>>>,
) -> Seq<(SyllabusCode, Seq<Seq<char>>)>
    decreases subjects.len(),
{
    if subjects.len() == 0 || found.len() != subjects.len() {
        Seq::empty()
    } else {
        let rest = discovered_raw(subjects.drop_last(), found.drop_last());
        match found.last() {
            Some(ys) => if ys.len() > 0 {
                rest.push((subjects.last(), ys))
            } else {
                rest
            },
            None => rest,
        }
    }
}

/// The subjects with the years to look in: the selection's years for every
/// subject when it names some, else the discovered ones.
pub open spec fn raw_plan(
    years: Option<Seq<Seq<char>>>,
    subjects: Seq<SyllabusCode>,
    found: Seq<Option<Seq<Seq<char>>>>,
) -> Seq<(SyllabusCode, Seq<Seq<char>>)> {
    match years {
        Some(ys) => Seq::new(subjects.len(), |i: int| (subjects[i], ys)),
        None => discovered_raw(subjects, found),
    }
}

/// Attaches years to the subjects. `discovered` holds, when the selection
/// names no years, the outcome of one year discovery per subject, in order;
/// a subject whose discovery failed or gave no year is dropped. No subject
/// left is an error.
pub fn attach_years(
    config: &PaperGenerationConfig,
    subjects: &Vec<SyllabusCode>,
    discovered: &Vec<Result<Vec<String>, RequestError>>,
) -> (r: Result<Vec<RawPaper>, ConfigurationError>)
    requires
        config.years is None ==> discovered@.len() == subjects@.len(),
    ensures
        r is Ok <==> raw_plan(
            queries_view(config.years),
            subjects@,
            discovered@.map_values(|d: Result<Vec<String>, RequestError>| found_view(d)),
        ).len() > 0,
        r matches Ok(v) ==> raws_view(v@) == raw_plan(
            queries_view(config.years),
            subjects@,
            discovered@.map_values(|d: Result<Vec<String>, RequestError>| found_view(d)),
        ),
        r matches Err(e) ==> e is NoSubjects,
{
    let ghost found = discovered@.map_values(|d: Result<Vec<String>, RequestError>| found_view(d));
    let mut out: Vec<RawPaper> = Vec::new();
    let mut i: usize = 0;
    match &config.years {
        Some(ys) => {
            while i < subjects.len()
                invariant
                    i <= subjects@.len(),
                    config.years == Some(*ys),
                    raws_view(out@) =~= Seq::new(
                        i as nat,
                        |k: int| (subjects@[k], labels_view(ys@)),
                    ),
                decreases subjects@.len() - i,
            {
                let ghost before = out@;
                out.push(RawPaper { year: copy_strings(ys), syllabus_code: subjects[i].clone() });
                assert(raws_view(out@) =~= raws_view(before).push(
                    (subjects@[i as int], labels_view(ys@)),
                ));
                i = i + 1;
            }
        },
        None => {
            while i < subjects.len()
                invariant
                    i <= subjects@.len(),
                    discovered@.len() == subjects@.len(),
                    found == discovered@.map_values(
                        |d: Result<Vec<String>, RequestError>| found_view(d),
                    ),
                    raws_view(out@) == discovered_raw(
                        subjects@.subrange(0, i as int),
                        found.subrange(0, i as int),
                    ),
                decreases subjects@.len() - i,
            {
                proof {
                    assert(subjects@.subrange(0, i + 1).drop_last() =~= subjects@.subrange(
                        0,
                        i as int,
                    ));
                    assert(found.subrange(0, i + 1).drop_last() =~= found.subrange(0, i as int));
                }
                match &discovered[i] {
                    Ok(ys) => {
                        if ys.len() > 0 {
                            let ghost before = out@;
                            out.push(
                                RawPaper { year: copy_strings(ys), syllabus_code: subjects[i].clone() },
                            );
                            assert(raws_view(out@) =~= raws_view(before).push(
                                (subjects@[i as int], labels_view(ys@)),
                            ));
                        }
                    },
                    Err(_) => {},
                }
                i = i + 1;
            }
            assert(subjects@.subrange(0, subjects@.len() as int) =~= subjects@);
            assert(found.subrange(0, subjects@.len() as int) =~= found);
        },
    }
    if out.len() == 0 {
        Err(ConfigurationError::NoSubjects)
    } else {
        Ok(out)
    }
}

/// One (subject, year) pair per year of each subject, subjects in order.
pub open spec fn request_pairs(raws: Seq<(SyllabusCode, Seq<Seq<char>>)>) -> Seq<
    (SyllabusCode, Seq<char>),
>
    decreases raws.len(),
{
    if raws.len() == 0 {
        Seq::empty()
    } else {
        request_pairs(raws.drop_last()) + Seq::new(
            raws.last().1.len(),
            |j: int| (raws.last().0, raws.last().1[j]),
        )
    }
}

pub open spec fn requests_view(v: Seq<PaperRequest>) -> Seq<(SyllabusCode, Seq<char>)> {
    v.map_values(|r: PaperRequest| (r.syllabus, r.year@))
}

/// One discovery request per subject and year, each carrying the requested
/// seasons and kinds.
pub fn build_requests(raws: &Vec<RawPaper>, seasons: &Vec<Season>, kinds: &Vec<PaperType>) -> (r:
    Vec<PaperRequest>)
    ensures
        requests_view(r@) == request_pairs(raws_view(raws@)),
        forall|i: int|
            0 <= i < r@.len() ==> (#[trigger] r@[i]).seasons@ == seasons@ && r@[i].papers@
                == kinds@,
{
    let mut out: Vec<PaperRequest> = Vec::new();
    let mut i: usize = 0;
    while i < raws.len()
        invariant
            i <= raws@.len(),
            requests_view(out@) == request_pairs(raws_view(raws@.subrange(0, i as int))),
            forall|k: int|
                0 <= k < out@.len() ==> (#[trigger] out@[k]).seasons@ == seasons@ && out@[k].papers@
                    == kinds@,
        decreases raws@.len() - i,
    {
        let raw = &raws[i];
        let ghost done = requests_view(out@);
        let mut j: usize = 0;
        while j < raw.year.len()
            invariant
                j <= raw.year@.len(),
                requests_view(out@) == done + Seq::new(
                    j as nat,
                    |k: int| (raw.syllabus_code, raw.year@[k]@),
                ),
                forall|k: int|
                    0 <= k < out@.len() ==> (#[trigger] out@[k]).seasons@ == seasons@
                        && out@[k].papers@ == kinds@,
            decreases raw.year@.len() - j,
        {
            let ghost before = out@;
            out.push(
                PaperRequest {
                    syllabus: raw.syllabus_code.clone(),
                    year: raw.year[j].clone(),
                    seasons: copy_all(seasons),
                    papers: copy_all(kinds),
                },
            );
            assert(requests_view(out@) =~= requests_view(before).push(
                (raw.syllabus_code, raw.year@[j as int]@),
            ));
            assert(requests_view(out@) =~= done + Seq::new(
                (j + 1) as nat,
                |k: int| (raw.syllabus_code, raw.year@[k]@),
            ));
            j = j + 1;
        }
        proof {
            let pre = raws_view(raws@.subrange(0, i + 1));
            assert(pre.drop_last() =~= raws_view(raws@.subrange(0, i as int)));
            assert(pre.last() == raw_view(*raw));
            assert(Seq::new(raw.year@.len(), |k: int| (raw.syllabus_code, raw.year@[k]@)) =~= Seq::new(
                pre.last().1.len(),
                |k: int| (pre.last().0, pre.last().1[k]),
            ));
        }
        i = i + 1;
    }
    assert(raws@.subrange(0, raws@.len() as int) =~= raws@);
    out
}

} // verus!
