//! The data model: seasons, document kinds, documents and subjects, and the
//! grammar of catalog listing rows.

use vstd::prelude::*;
use vstd::string::*;
use crate::text::{
    chars_of, digit_run, is_digit, is_digit_char, lemma_digit_run_all,
    lemma_digit_run_exact, lemma_lower_run_exact, lower_run, scan_digits,
    scan_lower,
};

verus! {

/// An examination season.
#[derive(Clone, Copy, Debug, PartialEq, Eq, Structural, PartialOrd, Ord, Hash)]
pub enum Season {
    /// Tagged `w`.
    Winter,
    /// Tagged `s`.
    Summer,
    /// Tagged `m`.
    March,
}

#[derive(Clone, Copy, Debug, PartialEq, Eq, Structural)]
pub enum SeasonParseError {
    InvalidSeasonCharacter,
    RegexNoMatch,
}

/// A kind of published document.
#[derive(Clone, Copy, Debug, PartialEq, Eq, Structural, PartialOrd, Ord, Hash)]
pub enum PaperType {
    /// Question paper, `qp`.
    QP,
    /// Mark scheme, `ms`.
    MS,
    /// Examiner report, `er`.
    ER,
    /// Insert, `in`.
    IN,
    /// Grade thresholds, `gt`.
    GT,
    /// Instructions, `ir`.
    IR,
    /// Confidential instructions, `ci`.
    CI,
}

#[derive(Clone, Copy, Debug, PartialEq, Eq, Structural)]
pub enum PaperTypeParseError {
    InvalidPaperTypeCharacter,
    RegexNoMatch,
}

#[derive(Clone, Copy, Debug, PartialEq, Eq, Structural)]
pub enum PaperParseError {
    SeasonParseError(SeasonParseError),
    PaperTypeParseError(PaperTypeParseError),
    RegexNoMatch,
}

pub open spec fn season_char(s: Season) -> char {
    match s {
        Season::Winter => 'w',
        Season::Summer => 's',
        Season::March => 'm',
    }
}

pub open spec fn season_of(c: char) -> Option<Season> {
    if c == 'w' {
        Some(Season::Winter)
    } else if c == 's' {
        Some(Season::Summer)
    } else if c == 'm' {
        Some(Season::March)
    } else {
        None
    }
}

pub open spec fn kind_tag(k: PaperType) -> Seq<char> {
    match k {
        PaperType::QP => seq!['q', 'p'],
        PaperType::MS => seq!['m', 's'],
        PaperType::ER => seq!['e', 'r'],
        PaperType::IN => seq!['i', 'n'],
        PaperType::GT => seq!['g', 't'],
        PaperType::IR => seq!['i', 'r'],
        PaperType::CI => seq!['c', 'i'],
    }
}

pub open spec fn kind_of_pair(a: char, b: char) -> Option<PaperType> {
    if a == 'q' && b == 'p' {
        Some(PaperType::QP)
    } else if a == 'm' && b == 's' {
        Some(PaperType::MS)
    } else if a == 'e' && b == 'r' {
        Some(PaperType::ER)
    } else if a == 'i' && b == 'n' {
        Some(PaperType::IN)
    } else if a == 'g' && b == 't' {
        Some(PaperType::GT)
    } else if a == 'i' && b == 'r' {
        Some(PaperType::IR)
    } else if a == 'c' && b == 'i' {
        Some(PaperType::CI)
    } else {
        None
    }
}

/// The kind whose tag is `t`, if any.
pub open spec fn kind_of(t: Seq<char>) -> Option<PaperType> {
    if t.len() == 2 {
        kind_of_pair(t[0], t[1])
    } else {
        None
    }
}

/// Whether documents of kind `k` carry a variant number.
pub open spec fn carries_variant(k: PaperType) -> bool {
    k != PaperType::ER && k != PaperType::GT
}

/// The kind of the leftmost `_<tag>` of `s` at or after position `i`.
pub open spec fn find_kind(s: Seq<char>, i: int) -> Option<PaperType>
    decreases s.len() - i,
{
    if i < 0 || i + 3 > s.len() {
        None
    } else if s[i] == '_' && kind_of_pair(s[i + 1], s[i + 2]) is Some {
        kind_of_pair(s[i + 1], s[i + 2])
    } else {
        find_kind(s, i + 1)
    }
}

/// What reading a kind from a text gives: the kind of its leftmost `_<tag>`.
pub open spec fn kind_parse(s: Seq<char>) -> Result<PaperType, PaperTypeParseError> {
    match find_kind(s, 0) {
        Some(k) => Ok(k),
        None => Err(PaperTypeParseError::RegexNoMatch),
    }
}

/// The season of the leftmost season token (a season letter and two
/// digits) of `s` at or after position `i`.
pub open spec fn find_season(s: Seq<char>, i: int) -> Option<Season>
    decreases s.len() - i,
{
    if i < 0 || i + 3 > s.len() {
        None
    } else if season_of(s[i]) is Some && is_digit(s[i + 1]) && is_digit(s[i + 2]) {
        season_of(s[i])
    } else {
        find_season(s, i + 1)
    }
}

/// What reading a season from a text gives: the season of its leftmost
/// season token.
pub open spec fn season_parse(s: Seq<char>) -> Result<Season, SeasonParseError> {
    match find_season(s, 0) {
        Some(x) => Ok(x),
        None => Err(SeasonParseError::RegexNoMatch),
    }
}

impl Season {
    /// The season's one-character tag.
    pub fn tag(&self) -> (r: &'static str)
        ensures
            r@ == seq![season_char(*self)],
    {
        proof {
            reveal_strlit("w");
            reveal_strlit("s");
            reveal_strlit("m");
        }
        match self {
            Season::Winter => "w",
            Season::Summer => "s",
            Season::March => "m",
        }
    }

    pub fn from_char(c: char) -> (r: Option<Season>)
        ensures
            r == season_of(c),
    {
        if c == 'w' {
            Some(Season::Winter)
        } else if c == 's' {
            Some(Season::Summer)
        } else if c == 'm' {
            Some(Season::March)
        } else {
            None
        }
    }

    /// Reads the season of the first season token in `s`, such as `s20` in
    /// `9700_s20_qp_11.pdf`: a season letter and two digits.
    pub fn parse(s: &str) -> (r: Result<Season, SeasonParseError>)
        ensures
            r == season_parse(s@),
    {
        let v = chars_of(s);
        let n = v.len();
        let mut i: usize = 0;
        while n >= 3 && i <= n - 3
            invariant
                v@ == s@,
                n == v@.len(),
                find_season(v@, 0) == find_season(v@, i as int),
            decreases n - i,
        {
            if is_digit_char(v[i + 1]) && is_digit_char(v[i + 2]) {
                match Season::from_char(v[i]) {
                    Some(x) => {
                        return Ok(x);
                    },
                    None => {},
                }
            }
            i = i + 1;
        }
        Err(SeasonParseError::RegexNoMatch)
    }
}

impl PaperType {
    /// The kind's two-letter tag.
    pub fn tag(&self) -> (r: &'static str)
        ensures
            r@ == kind_tag(*self),
    {
        proof {
            reveal_strlit("qp");
            reveal_strlit("ms");
            reveal_strlit("er");
            reveal_strlit("in");
            reveal_strlit("gt");
            reveal_strlit("ir");
            reveal_strlit("ci");
        }
        match self {
            PaperType::QP => "qp",
            PaperType::MS => "ms",
            PaperType::ER => "er",
            PaperType::IN => "in",
            PaperType::GT => "gt",
            PaperType::IR => "ir",
            PaperType::CI => "ci",
        }
    }

    pub fn from_pair(a: char, b: char) -> (r: Option<PaperType>)
        ensures
            r == kind_of_pair(a, b),
    {
        if a == 'q' && b == 'p' {
            Some(PaperType::QP)
        } else if a == 'm' && b == 's' {
            Some(PaperType::MS)
        } else if a == 'e' && b == 'r' {
            Some(PaperType::ER)
        } else if a == 'i' && b == 'n' {
            Some(PaperType::IN)
        } else if a == 'g' && b == 't' {
            Some(PaperType::GT)
        } else if a == 'i' && b == 'r' {
            Some(PaperType::IR)
        } else if a == 'c' && b == 'i' {
            Some(PaperType::CI)
        } else {
            None
        }
    }

    /// Whether documents of this kind carry a variant number.
    pub fn carries_variant(&self) -> (r: bool)
        ensures
            r == carries_variant(*self),
    {
        match self {
            PaperType::ER | PaperType::GT => false,
            _ => true,
        }
    }

    /// Reads the kind of the first `_<tag>` in `s`, such as `_qp` in
    /// `9700_s20_qp_11.pdf`.
    pub fn parse(s: &str) -> (r: Result<PaperType, PaperTypeParseError>)
        ensures
            r == kind_parse(s@),
    {
        let v = chars_of(s);
        let n = v.len();
        let mut i: usize = 0;
        while n >= 3 && i <= n - 3
            invariant
                v@ == s@,
                n == v@.len(),
                find_kind(v@, 0) == find_kind(v@, i as int),
            decreases n - i,
        {
            if v[i] == '_' {
                match PaperType::from_pair(v[i + 1], v[i + 2]) {
                    Some(k) => {
                        return Ok(k);
                    },
                    None => {},
                }
            }
            i = i + 1;
        }
        Err(PaperTypeParseError::RegexNoMatch)
    }
}

/// The mathematical value of a [`Paper`].
pub struct PaperSpec {
    pub year: Seq<char>,
    pub season: Season,
    pub paper_type: PaperType,
    pub variant: Seq<char>,
}

/// One retrievable document: a year such as `2020`, a season, a kind, and a
/// variant number, empty for kinds that carry none.
#[derive(Debug, PartialEq, Eq)]
pub struct Paper {
    pub year: String,
    pub season: Season,
    pub paper_type: PaperType,
    pub variant: String,
}

impl View for Paper {
    type V = PaperSpec;

    open spec fn view(&self) -> PaperSpec {
        PaperSpec {
            year: self.year@,
            season: self.season,
            paper_type: self.paper_type,
            variant: self.variant@,
        }
    }
}

impl Clone for Paper {
    fn clone(&self) -> (r: Self)
        ensures
            r == *self,
    {
        Paper {
            year: self.year.clone(),
            season: self.season,
            paper_type: self.paper_type,
            variant: self.variant.clone(),
        }
    }
}

/// A subject of the catalog: its display name, its syllabus code, and the
/// path segment under which the catalog lists it.
#[derive(Debug, PartialEq, Eq)]
pub struct SyllabusCode {
    pub name: String,
    pub syllabus_code: String,
    pub access_slug: String,
}

impl Clone for SyllabusCode {
    fn clone(&self) -> (r: Self)
        ensures
            r == *self,
    {
        SyllabusCode {
            name: self.name.clone(),
            syllabus_code: self.syllabus_code.clone(),
            access_slug: self.access_slug.clone(),
        }
    }
}

impl SyllabusCode {
    pub fn new(name: &str, access_slug: &str, syllabus_code: &str) -> (r: Self)
        ensures
            r.name@ == name@,
            r.access_slug@ == access_slug@,
            r.syllabus_code@ == syllabus_code@,
    {
        SyllabusCode {
            name: name.to_owned(),
            syllabus_code: syllabus_code.to_owned(),
            access_slug: access_slug.to_owned(),
        }
    }
}

/// A persisted selection: the kinds asked for, and per subject and year the
/// documents found.
#[derive(Debug)]
pub struct Configuration {
    pub papers: Vec<PaperType>,
    pub subjects: Vec<YearConfiguration>,
}

/// The documents found for one subject (in one year).
#[derive(Debug)]
pub struct YearConfiguration {
    pub syllabus_code: SyllabusCode,
    pub papers: Vec<Paper>,
}

/// A subject with the years to look in.
#[derive(Debug)]
pub struct RawPaper {
    pub year: Vec<String>,
    pub syllabus_code: SyllabusCode,
}

impl std::str::FromStr for Season {
    type Err = SeasonParseError;

    fn from_str(s: &str) -> (r: Result<Season, SeasonParseError>)
        ensures
            r == season_parse(s@),
    {
        Season::parse(s)
    }
}

impl std::str::FromStr for PaperType {
    type Err = PaperTypeParseError;

    fn from_str(s: &str) -> (r: Result<PaperType, PaperTypeParseError>)
        ensures
            r == kind_parse(s@),
    {
        PaperType::parse(s)
    }
}

impl std::str::FromStr for Paper {
    type Err = PaperParseError;

    fn from_str(s: &str) -> (r: Result<Paper, PaperParseError>)
        ensures
            r is Ok <==> parse_row(s@) is Ok,
            r matches Ok(p) ==> parse_row(s@) == Ok::<PaperSpec, PaperParseError>(p@),
            r matches Err(e) ==> parse_row(s@) == Err::<PaperSpec, PaperParseError>(e),
    {
        Paper::parse(s)
    }
}

/// End of the syllabus code at the head of a listing row.
pub open spec fn code_end(s: Seq<char>) -> int {
    digit_run(s, 0) as int
}

/// Where the kind tag of a listing row starts: after the code, `_`, the
/// season letter, two year digits and `_`.
pub open spec fn tag_start(s: Seq<char>) -> int {
    code_end(s) + 5
}

pub open spec fn tag_end(s: Seq<char>) -> int {
    tag_start(s) + lower_run(s, tag_start(s))
}

/// Whether `_` follows the kind tag, opening a variant.
pub open spec fn has_variant_segment(s: Seq<char>) -> bool {
    tag_end(s) < s.len() && s[tag_end(s)] == '_'
}

pub open spec fn variant_end(s: Seq<char>) -> int {
    if has_variant_segment(s) {
        tag_end(s) + 1 + digit_run(s, tag_end(s) + 1)
    } else {
        tag_end(s)
    }
}

/// The shape of a listing row:
/// `<digits>_<season><digit><digit>_<letters>[_<digits>][.<anything>]`, where
/// the season slot holds any one character (an unknown one is a season
/// error, not a shape error) and the digits after the separator that
/// follows the tag may be none.
pub open spec fn row_shape(s: Seq<char>) -> bool {
    let c = code_end(s);
    &&& c >= 1
    &&& tag_start(s) < s.len()
    &&& s[c] == '_'
    &&& is_digit(s[c + 2])
    &&& is_digit(s[c + 3])
    &&& s[c + 4] == '_'
    &&& tag_end(s) > tag_start(s)
    &&& (variant_end(s) == s.len() || s[variant_end(s)] == '.')
}

/// The season letter of a row of the right shape.
pub open spec fn row_season_char(s: Seq<char>) -> char {
    s[code_end(s) + 1]
}

/// The kind tag of a row of the right shape.
pub open spec fn row_tag(s: Seq<char>) -> Seq<char> {
    s.subrange(tag_start(s), tag_end(s))
}

/// The two-digit year of a row of the right shape.
pub open spec fn row_year_digits(s: Seq<char>) -> Seq<char> {
    s.subrange(code_end(s) + 2, code_end(s) + 4)
}

/// Whether the row carries a variant: `_` and at least one digit after its tag.
pub open spec fn has_variant(s: Seq<char>) -> bool {
    has_variant_segment(s) && variant_end(s) > tag_end(s) + 1
}

/// What a listing row denotes. Kinds that carry a variant need one; the
/// others ignore what follows their tag.
pub open spec fn parse_row(s: Seq<char>) -> Result<PaperSpec, PaperParseError> {
    if !row_shape(s) {
        Err(PaperParseError::RegexNoMatch)
    } else {
        match season_of(row_season_char(s)) {
            None => Err(PaperParseError::SeasonParseError(SeasonParseError::InvalidSeasonCharacter)),
            Some(season) => match kind_of(row_tag(s)) {
                None => Err(
                    PaperParseError::PaperTypeParseError(
                        PaperTypeParseError::InvalidPaperTypeCharacter,
                    ),
                ),
                Some(k) => if carries_variant(k) && !has_variant(s) {
                    Err(PaperParseError::RegexNoMatch)
                } else {
                    Ok(
                        PaperSpec {
                            year: seq!['2', '0'] + row_year_digits(s),
                            season,
                            paper_type: k,
                            variant: if carries_variant(k) {
                                s.subrange(tag_end(s) + 1, variant_end(s))
                            } else {
                                Seq::empty()
                            },
                        },
                    )
                },
            },
        }
    }
}

impl Paper {
    pub fn new(year: &str, season: Season, paper_type: PaperType, variant: &str) -> (r: Self)
        ensures
            r@ == (PaperSpec { year: year@, season, paper_type, variant: variant@ }),
    {
        Paper { year: year.to_owned(), season, paper_type, variant: variant.to_owned() }
    }

    /// Reads one listing row, such as `9700_s20_qp_11.pdf`.
    pub fn parse(s: &str) -> (r: Result<Paper, PaperParseError>)
        ensures
            r is Ok <==> parse_row(s@) is Ok,
            r matches Ok(p) ==> parse_row(s@) == Ok::<PaperSpec, PaperParseError>(p@),
            r matches Err(e) ==> parse_row(s@) == Err::<PaperSpec, PaperParseError>(e),
    {
        let v = chars_of(s);
        let n = v.len();
        let c = scan_digits(&v, 0);
        if c == 0 || n - c <= 5 {
            return Err(PaperParseError::RegexNoMatch);
        }
        if v[c] != '_' || !is_digit_char(v[c + 2]) || !is_digit_char(v[c + 3]) || v[c + 4] != '_' {
            return Err(PaperParseError::RegexNoMatch);
        }
        let t = c + 5;
        let q = scan_lower(&v, t);
        if q == t {
            return Err(PaperParseError::RegexNoMatch);
        }
        let has_var = q < n && v[q] == '_';
        let r = if has_var {
            scan_digits(&v, q + 1)
        } else {
            q
        };
        if r < n && v[r] != '.' {
            return Err(PaperParseError::RegexNoMatch);
        }
        assert(row_shape(s@));
        let season = match Season::from_char(v[c + 1]) {
            Some(x) => x,
            None => {
                return Err(PaperParseError::SeasonParseError(SeasonParseError::InvalidSeasonCharacter));
            },
        };
        let kind = if q - t == 2 {
            PaperType::from_pair(v[t], v[t + 1])
        } else {
            None
        };
        assert(kind == kind_of(row_tag(s@)));
        let paper_type = match kind {
            Some(k) => k,
            None => {
                return Err(
                    PaperParseError::PaperTypeParseError(
                        PaperTypeParseError::InvalidPaperTypeCharacter,
                    ),
                );
            },
        };
        if paper_type.carries_variant() && !(has_var && r > q + 1) {
            return Err(PaperParseError::RegexNoMatch);
        }
        proof {
            reveal_strlit("20");
        }
        let mut year = "20".to_owned();
        year.append(s.substring_char(c + 2, c + 4));
        let variant = if paper_type.carries_variant() {
            s.substring_char(q + 1, r).to_owned()
        } else {
            String::new()
        };
        let p = Paper { year, season, paper_type, variant };
        assert(p@.year =~= seq!['2', '0'] + row_year_digits(s@));
        assert(p@.variant =~= parse_row(s@)->Ok_0.variant);
        Ok(p)
    }
}

/// The last two characters of a year.
pub open spec fn short_year(year: Seq<char>) -> Seq<char> {
    year.subrange(year.len() - 2, year.len() as int)
}

/// The name under which the catalog serves a document of the subject with
/// syllabus code `code`: `<code>_<season><yy>_er.pdf` for an examiner report,
/// `<code>_<season><yy>_<kind>_<variant>.pdf` otherwise.
pub open spec fn ref_filename(p: PaperSpec, code: Seq<char>) -> Seq<char> {
    let head = code + seq!['_', season_char(p.season)] + short_year(p.year);
    if p.paper_type == PaperType::ER {
        head + seq!['_', 'e', 'r', '.', 'p', 'd', 'f']
    } else {
        head + seq!['_'] + kind_tag(p.paper_type) + seq!['_'] + p.variant + seq![
            '.',
            'p',
            'd',
            'f',
        ]
    }
}

impl Paper {
    /// The catalog's file name for this document.
    pub fn get_ref_filename(&self, syllabus_code: &SyllabusCode) -> (r: String)
        requires
            self.year@.len() >= 2,
        ensures
            r@ == ref_filename(self@, syllabus_code.syllabus_code@),
    {
        proof {
            reveal_strlit("_");
            reveal_strlit("_er.pdf");
            reveal_strlit(".pdf");
        }
        let n = self.year.as_str().unicode_len();
        let mut r = syllabus_code.syllabus_code.clone();
        r.append("_");
        r.append(self.season.tag());
        r.append(self.year.as_str().substring_char(n - 2, n));
        if self.paper_type == PaperType::ER {
            r.append("_er.pdf");
        } else {
            r.append("_");
            r.append(self.paper_type.tag());
            r.append("_");
            r.append(self.variant.as_str());
            r.append(".pdf");
        }
        assert(syllabus_code.syllabus_code@ + seq!['_'] + seq![season_char(self.season)]
            =~= syllabus_code.syllabus_code@ + seq!['_', season_char(self.season)]);
        r
    }
}

pub open spec fn all_digits(s: Seq<char>) -> bool {
    forall|i: int| 0 <= i < s.len() ==> is_digit(s[i])
}

/// A listing row that the grammar accepts: the right shape, a known season
/// letter, a known kind tag, and a variant when the kind carries one.
pub open spec fn row_in_grammar(s: Seq<char>) -> bool {
    &&& row_shape(s)
    &&& season_of(row_season_char(s)) is Some
    &&& kind_of(row_tag(s)) is Some
    &&& (carries_variant(kind_of(row_tag(s))->0) ==> has_variant(s))
}

/// Parsing is total on the grammar: every row it accepts denotes a document,
/// whose year is `20` followed by the row's two year digits, and whose season
/// and kind are those of the row's letter and tag, and whose variant is the
/// row's variant digits for a kind that carries one. (`Paper::parse` returns
/// exactly `parse_row`, a function of the row alone, so equal rows give equal
/// documents.)
pub proof fn lemma_parse_total(s: Seq<char>)
    requires
        row_in_grammar(s),
    ensures
        parse_row(s) is Ok,
        parse_row(s)->Ok_0.year == seq!['2', '0'] + row_year_digits(s),
        parse_row(s)->Ok_0.year.len() == 4,
        Some(parse_row(s)->Ok_0.season) == season_of(row_season_char(s)),
        Some(parse_row(s)->Ok_0.paper_type) == kind_of(row_tag(s)),
        carries_variant(parse_row(s)->Ok_0.paper_type) ==> parse_row(s)->Ok_0.variant == s.subrange(
            tag_end(s) + 1,
            variant_end(s),
        ),
{
}

/// A parsed examiner report or grade threshold document has an empty
/// variant; a parsed document of any other kind has a non-empty variant,
/// made of digits.
pub proof fn lemma_variant_presence(s: Seq<char>)
    requires
        parse_row(s) is Ok,
    ensures
        !carries_variant(parse_row(s)->Ok_0.paper_type) ==> parse_row(s)->Ok_0.variant.len()
            == 0,
        carries_variant(parse_row(s)->Ok_0.paper_type) ==> parse_row(s)->Ok_0.variant.len() > 0,
        all_digits(parse_row(s)->Ok_0.variant),
{
    if has_variant_segment(s) {
        lemma_digit_run_all(s, tag_end(s) + 1);
    }
}

/// The year of a parsed document is `20` and two digits.
pub proof fn lemma_parsed_year(s: Seq<char>)
    requires
        parse_row(s) is Ok,
    ensures
        is_short_year_form(parse_row(s)->Ok_0.year),
{
}

/// The canonical file name depends on nothing but the document's year,
/// season, kind and variant and the subject's syllabus code: documents and
/// codes with equal values give equal names.
pub proof fn lemma_filename_determined(p: PaperSpec, q: PaperSpec, c: Seq<char>, d: Seq<char>)
    requires
        p.year == q.year,
        p.season == q.season,
        p.paper_type == q.paper_type,
        p.variant == q.variant,
        c == d,
    ensures
        ref_filename(p, c) == ref_filename(q, d),
{
    assert(p == q);
}

/// A year the canonical file name can carry back: `20` and two digits.
pub open spec fn is_short_year_form(year: Seq<char>) -> bool {
    &&& year.len() == 4
    &&& year[0] == '2'
    &&& year[1] == '0'
    &&& is_digit(year[2])
    &&& is_digit(year[3])
}

/// Reading back the canonical file name of a document gives its year,
/// season and kind, and its variant when its kind carries one. This holds
/// where the name's shape allows it: a syllabus code of digits, a year of
/// the form `20yy`, a variant of digits, and that variant non-empty for a
/// kind that carries one.
pub proof fn lemma_filename_round_trip(p: PaperSpec, code: Seq<char>)
    requires
        code.len() >= 1,
        all_digits(code),
        is_short_year_form(p.year),
        all_digits(p.variant),
        carries_variant(p.paper_type) ==> p.variant.len() >= 1,
    ensures
        parse_row(ref_filename(p, code)) is Ok,
        parse_row(ref_filename(p, code))->Ok_0.year == p.year,
        parse_row(ref_filename(p, code))->Ok_0.season == p.season,
        parse_row(ref_filename(p, code))->Ok_0.paper_type == p.paper_type,
        carries_variant(p.paper_type) ==> parse_row(ref_filename(p, code))->Ok_0.variant
            == p.variant,
{
    let f = ref_filename(p, code);
    let c = code.len() as int;
    let yy = short_year(p.year);
    let head = code + seq!['_', season_char(p.season)] + yy;
    assert(head.len() == c + 4);
    assert(head[c] == '_');
    assert(head[c + 1] == season_char(p.season));
    assert(head[c + 2] == p.year[2]);
    assert(head[c + 3] == p.year[3]);
    assert forall|k: int| 0 <= k < c implies head[k] == code[k] by {}
    if p.paper_type == PaperType::ER {
        let tail = seq!['_', 'e', 'r', '.', 'p', 'd', 'f'];
        assert(f == head + tail);
        assert forall|k: int| 0 <= k < c + 4 implies f[k] == head[k] by {}
        assert forall|k: int| 0 <= k < 7 implies f[c + 4 + k] == tail[k] by {}
        lemma_digit_run_exact(f, 0, c);
        assert(f[c + 5] == 'e' && f[c + 6] == 'r' && f[c + 7] == '.');
        lemma_lower_run_exact(f, c + 5, 2);
        assert(row_tag(f) =~= seq!['e', 'r']);
        assert(row_year_digits(f) =~= yy);
        assert(seq!['2', '0'] + yy =~= p.year);
    } else {
        let v = p.variant;
        let vl = v.len() as int;
        let tag = kind_tag(p.paper_type);
        let dot = seq!['.', 'p', 'd', 'f'];
        assert(f == head + seq!['_'] + tag + seq!['_'] + v + dot);
        assert(f.len() == c + 8 + vl + 4);
        assert forall|k: int| 0 <= k < c + 4 implies f[k] == head[k] by {}
        assert(f[c + 4] == '_');
        assert(f[c + 5] == tag[0]);
        assert(f[c + 6] == tag[1]);
        assert(f[c + 7] == '_');
        assert forall|k: int| 0 <= k < vl implies f[c + 8 + k] == v[k] by {}
        assert(f[c + 8 + vl] == '.');
        lemma_digit_run_exact(f, 0, c);
        lemma_lower_run_exact(f, c + 5, 2);
        assert forall|k: int| c + 8 <= k < c + 8 + vl implies is_digit(f[k]) by {
            assert(f[c + 8 + (k - c - 8)] == v[k - c - 8]);
        }
        lemma_digit_run_exact(f, c + 8, vl);
        assert(row_tag(f) =~= tag);
        assert(row_year_digits(f) =~= yy);
        assert(seq!['2', '0'] + yy =~= p.year);
        assert(f.subrange(c + 8, c + 8 + vl) =~= v);
    }
}

/// Documents of one subject that differ in year, season or kind, or in
/// variant where their kind carries one, get different canonical file names
/// (for documents whose names can be read back, as in
/// `lemma_filename_round_trip`).
pub proof fn lemma_filename_distinct(p: PaperSpec, q: PaperSpec, code: Seq<char>)
    requires
        code.len() >= 1,
        all_digits(code),
        is_short_year_form(p.year),
        is_short_year_form(q.year),
        all_digits(p.variant),
        all_digits(q.variant),
        carries_variant(p.paper_type) ==> p.variant.len() >= 1,
        carries_variant(q.paper_type) ==> q.variant.len() >= 1,
        ref_filename(p, code) == ref_filename(q, code),
    ensures
        p.year == q.year,
        p.season == q.season,
        p.paper_type == q.paper_type,
        carries_variant(p.paper_type) ==> p.variant == q.variant,
{
    lemma_filename_round_trip(p, code);
    lemma_filename_round_trip(q, code);
}

} // verus!
