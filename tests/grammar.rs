use gce_scraper::configuration::{
    Paper, PaperParseError, PaperType, PaperTypeParseError, Season, SeasonParseError,
    SyllabusCode,
};

fn biology() -> SyllabusCode {
    SyllabusCode::new("Biology", "biology-(9700)", "9700")
}

#[test]
fn parses_question_paper_row() {
    let p = Paper::parse("9700_s20_qp_11.pdf").unwrap();
    assert_eq!(p.year, "2020");
    assert_eq!(p.season, Season::Summer);
    assert_eq!(p.paper_type, PaperType::QP);
    assert_eq!(p.variant, "11");
}

#[test]
fn parses_every_kind_tag() {
    let cases = [
        ("9709_w19_qp_12.pdf", PaperType::QP, "12"),
        ("9709_w19_ms_12.pdf", PaperType::MS, "12"),
        ("9709_w19_in_21.pdf", PaperType::IN, "21"),
        ("9709_w19_ir_31.pdf", PaperType::IR, "31"),
        ("9709_w19_ci_33.pdf", PaperType::CI, "33"),
        ("9709_w19_er.pdf", PaperType::ER, ""),
        ("9709_w19_gt.pdf", PaperType::GT, ""),
    ];
    for (row, kind, variant) in cases {
        let p = Paper::parse(row).unwrap();
        assert_eq!(p.paper_type, kind);
        assert_eq!(p.variant, variant);
        assert_eq!(p.year, "2019");
        assert_eq!(p.season, Season::Winter);
    }
}

#[test]
fn parses_march_season_and_bare_rows() {
    let p = Paper::parse("9700_m21_qp_42").unwrap();
    assert_eq!(p.season, Season::March);
    assert_eq!(p.year, "2021");
    assert_eq!(p.variant, "42");
    let er = Paper::parse("9700_m21_er").unwrap();
    assert_eq!(er.paper_type, PaperType::ER);
    assert_eq!(er.variant, "");
}

#[test]
fn year_is_prefixed_with_twenty() {
    assert_eq!(Paper::parse("9700_s05_qp_1.pdf").unwrap().year, "2005");
    assert_eq!(Paper::parse("9700_s99_qp_1.pdf").unwrap().year, "2099");
}

#[test]
fn parsing_is_deterministic() {
    let row = "9618_w23_ms_32.pdf";
    assert_eq!(Paper::parse(row).unwrap(), Paper::parse(row).unwrap());
}

#[test]
fn variant_bearing_row_without_variant_is_rejected() {
    assert_eq!(Paper::parse("9700_s20_qp.pdf"), Err(PaperParseError::RegexNoMatch));
    assert_eq!(Paper::parse("9700_s20_ms"), Err(PaperParseError::RegexNoMatch));
    assert_eq!(Paper::parse("9700_s20_qp_.pdf"), Err(PaperParseError::RegexNoMatch));
}

#[test]
fn grade_thresholds_row_with_empty_variant_segment() {
    let p = Paper::parse("9700_s20_gt_.pdf").unwrap();
    assert_eq!(p.paper_type, PaperType::GT);
    assert_eq!(p.variant, "");
}

#[test]
fn report_ignores_variant_segment() {
    let p = Paper::parse("9700_s20_er_01.pdf").unwrap();
    assert_eq!(p.paper_type, PaperType::ER);
    assert_eq!(p.variant, "");
    let g = Paper::parse("9700_s20_gt_1.pdf").unwrap();
    assert_eq!(g.paper_type, PaperType::GT);
    assert_eq!(g.variant, "");
}

#[test]
fn variant_bearing_kinds_have_variants() {
    for row in ["9700_s20_qp_11.pdf", "9700_s20_ms_2.pdf", "9700_s20_in_31.pdf"] {
        assert!(!Paper::parse(row).unwrap().variant.is_empty());
    }
    for row in ["9700_s20_er.pdf", "9700_s20_gt.pdf"] {
        assert!(Paper::parse(row).unwrap().variant.is_empty());
    }
}

#[test]
fn rejects_rows_of_the_wrong_shape() {
    for row in [
        "",
        "Other Resources",
        "_s20_qp_11.pdf",
        "9700s20_qp_11.pdf",
        "9700_s2_qp_11.pdf",
        "9700_s20qp_11.pdf",
        "9700_s20__11.pdf",
        "9700_s20_qp_.pdf",
        "9700_s20_qp_11abc",
        "9700_s20_qp_11_x.pdf",
        " 9700_s20_qp_11.pdf",
    ] {
        assert!(
            matches!(Paper::parse(row), Err(PaperParseError::RegexNoMatch)),
            "{row}"
        );
    }
}

#[test]
fn rejects_unknown_season_letter() {
    for row in [
        "9700_x20_qp_11.pdf",
        "9700_S20_qp_11.pdf",
        "9700_720_qp_11.pdf",
        "9700_\u{e9}20_qp_11.pdf",
        "9700_-20_er.pdf",
    ] {
        assert!(
            matches!(
                Paper::parse(row),
                Err(PaperParseError::SeasonParseError(SeasonParseError::InvalidSeasonCharacter))
            ),
            "{row}"
        );
    }
}

#[test]
fn rejects_unknown_kind_tag() {
    assert!(matches!(
        Paper::parse("9700_s20_zz_11.pdf"),
        Err(PaperParseError::PaperTypeParseError(PaperTypeParseError::InvalidPaperTypeCharacter))
    ));
    assert!(matches!(
        Paper::parse("9700_s20_qpx_11.pdf"),
        Err(PaperParseError::PaperTypeParseError(PaperTypeParseError::InvalidPaperTypeCharacter))
    ));
}

#[test]
fn season_error_comes_before_kind_error() {
    assert!(matches!(
        Paper::parse("9700_x20_zz_11.pdf"),
        Err(PaperParseError::SeasonParseError(SeasonParseError::InvalidSeasonCharacter))
    ));
}

#[test]
fn from_str_agrees_with_parse() {
    let p: Paper = "9700_s20_qp_11.pdf".parse().unwrap();
    assert_eq!(p, Paper::parse("9700_s20_qp_11.pdf").unwrap());
    let s: Season = "w21".parse().unwrap();
    assert_eq!(s, Season::Winter);
    let k: PaperType = "_ms".parse().unwrap();
    assert_eq!(k, PaperType::MS);
}

#[test]
fn season_tokens() {
    assert_eq!(Season::parse("s20").unwrap(), Season::Summer);
    assert_eq!(Season::parse("m03").unwrap(), Season::March);
    assert_eq!(Season::parse("x20"), Err(SeasonParseError::RegexNoMatch));
    assert_eq!(Season::parse("9700_w19_qp_11.pdf").unwrap(), Season::Winter);
    assert_eq!(Season::parse("x20s21").unwrap(), Season::Summer);
    assert_eq!(Season::parse("s2"), Err(SeasonParseError::RegexNoMatch));
    assert_eq!(Season::parse(""), Err(SeasonParseError::RegexNoMatch));
}

#[test]
fn kind_tags() {
    assert_eq!(PaperType::parse("_ci").unwrap(), PaperType::CI);
    assert_eq!(PaperType::parse("9700_s20_ms_11.pdf").unwrap(), PaperType::MS);
    assert_eq!(PaperType::parse("9700_s20_zz_11_er"), Ok(PaperType::ER));
    assert_eq!(PaperType::parse("_xy"), Err(PaperTypeParseError::RegexNoMatch));
    assert_eq!(PaperType::parse("qp"), Err(PaperTypeParseError::RegexNoMatch));
    assert_eq!(PaperType::parse(""), Err(PaperTypeParseError::RegexNoMatch));
    let all = [
        (PaperType::QP, "qp"),
        (PaperType::MS, "ms"),
        (PaperType::ER, "er"),
        (PaperType::IN, "in"),
        (PaperType::GT, "gt"),
        (PaperType::IR, "ir"),
        (PaperType::CI, "ci"),
    ];
    for (k, t) in all {
        assert_eq!(k.tag(), t);
        assert_eq!(PaperType::parse(&format!("_{t}")).unwrap(), k);
    }
    assert_eq!(Season::Winter.tag(), "w");
    assert_eq!(Season::Summer.tag(), "s");
    assert_eq!(Season::March.tag(), "m");
}

#[test]
fn canonical_filename_of_question_paper() {
    let p = Paper::new("2020", Season::Summer, PaperType::QP, "11");
    assert_eq!(p.get_ref_filename(&biology()), "9700_s20_qp_11.pdf");
}

#[test]
fn canonical_filename_of_examiner_report() {
    let p = Paper::new("2019", Season::Winter, PaperType::ER, "");
    assert_eq!(p.get_ref_filename(&biology()), "9700_w19_er.pdf");
}

#[test]
fn canonical_filename_of_grade_thresholds_keeps_separator() {
    let p = Paper::new("2021", Season::March, PaperType::GT, "");
    assert_eq!(p.get_ref_filename(&biology()), "9700_m21_gt_.pdf");
}

#[test]
fn canonical_filename_round_trips() {
    let code = biology();
    let docs = [
        Paper::new("2020", Season::Summer, PaperType::QP, "11"),
        Paper::new("2018", Season::Winter, PaperType::MS, "42"),
        Paper::new("2023", Season::March, PaperType::ER, ""),
        Paper::new("2001", Season::Summer, PaperType::CI, "3"),
        Paper::new("2021", Season::March, PaperType::GT, ""),
    ];
    for d in docs {
        let back = Paper::parse(&d.get_ref_filename(&code)).unwrap();
        assert_eq!(back, d);
    }
}

#[test]
fn paper_new_keeps_fields() {
    let p = Paper::new("2022", Season::Winter, PaperType::IN, "7");
    assert_eq!(p.year, "2022");
    assert_eq!(p.season, Season::Winter);
    assert_eq!(p.paper_type, PaperType::IN);
    assert_eq!(p.variant, "7");
    let c = biology();
    assert_eq!(c.name, "Biology");
    assert_eq!(c.access_slug, "biology-(9700)");
    assert_eq!(c.syllabus_code, "9700");
}
