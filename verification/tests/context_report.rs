use context_error::{
    AnnotatedReport, CaptureError, ContextError, DiagnosticsMode, FunctionContext,
    ParserSourceCapture, SourceCapture,
};

fn fragment(text: &str, line: usize, start: usize, end: usize) -> SourceCapture {
    SourceCapture::default().build(text.to_string(), line, start, end)
}

fn invocation() -> ParserSourceCapture {
    let mut capture = ParserSourceCapture::default();
    capture.set_ident(&fragment("let (rest, name) = ", 5, 4, 22));
    capture.set_pattern(&fragment("tag(\"fn\")", 5, 23, 32));
    capture.set_input(&fragment("(input)?;", 5, 32, 41));
    capture
}

fn failing_error<'a>() -> ContextError<'a> {
    let mut signature = SourceCapture::default();
    let mut context = FunctionContext::default().set_signature(
        "pub fn parse(input: &str) -> IResult<&str, &str> {".to_string(),
        4,
        &mut signature,
    );
    context.set_parser_context(invocation());
    let mut error = ContextError::new();
    error.set_context(context);
    error
}

#[test]
fn combine_without_invocations_is_missing_data() {
    let error = ContextError::new();
    assert!(error.context().parser_contexts().is_none());
    assert_eq!(error.combine_parser_sources().unwrap_err(), CaptureError::NoParserContexts);
}

#[test]
fn combine_with_an_empty_list_is_missing_data() {
    let mut error = ContextError::new();
    let mut context = FunctionContext::default();
    context.parser_contexts = Some(Vec::new());
    error.set_context(context);
    assert_eq!(error.combine_parser_sources().unwrap_err(), CaptureError::NoParserContexts);
}

#[test]
fn combine_merges_ident_pattern_and_input() {
    let error = failing_error();
    assert!(error.can_report());
    let merged = error.combine_parser_sources().unwrap();
    assert_eq!(merged.source_text, "    let (rest, name) = tag(\"fn\")(input)?;");
    assert_eq!(merged.line_number, 5);
    assert_eq!(merged.start_column, Some(4));
    assert_eq!(merged.end_column, Some(41));
    assert_eq!(merged.span_length, Some(4 + 18 + 9 + 9));
}

#[test]
fn combine_puts_the_binding_pattern_first() {
    let mut capture = ParserSourceCapture::default();
    capture.set_binding_pattern(fragment("let (a, b) = ", 7, 2, 14));
    capture.set_ident(&fragment("pair", 7, 15, 19));
    capture.set_pattern(&fragment("(x, y)", 7, 19, 25));
    capture.set_input(&fragment("(input)", 7, 25, 32));
    assert!(capture.can_combine());
    let merged = capture.combine();
    assert_eq!(merged.source_text, "  let (a, b) = pair(x, y)(input)");
    assert_eq!(merged.start_column, Some(2));
    assert_eq!(merged.span_length, Some(2 + 12 + 4 + 6 + 7));
    assert_eq!(merged.end_column, Some(32));
}

#[test]
fn combine_skips_fragments_on_other_lines() {
    let mut capture = ParserSourceCapture::default();
    capture.set_binding_pattern(fragment("let (a, b) = ", 6, 2, 14));
    capture.set_ident(&fragment("pair", 7, 4, 8));
    capture.set_pattern(&fragment("(x, y)", 7, 8, 14));
    capture.set_input(&fragment("(input)", 8, 0, 7));
    let merged = capture.combine();
    assert_eq!(merged.source_text, "    pair(x, y)");
    assert_eq!(merged.line_number, 7);
    assert_eq!(merged.start_column, Some(4));
    assert_eq!(merged.span_length, Some(14));
    assert_eq!(merged.end_column, Some(14));
}

#[test]
fn combine_uses_the_first_invocation_whatever_the_failure_index() {
    let mut context = FunctionContext::default().set_parser_context_failure_index(1);
    context.set_parser_context(invocation());
    let mut second = ParserSourceCapture::default();
    second.set_ident(&fragment("second", 9, 0, 6));
    context.set_parser_context(second);
    assert_eq!(context.parser_context_failure_index(), &Some(1));
    let mut error = ContextError::new();
    error.set_context(context);
    let merged = error.combine_parser_sources().unwrap();
    assert_eq!(merged.line_number, 5);
    assert_eq!(error.selected_invocation().unwrap().ident().source_text, "let (rest, name) = ");
}

#[test]
fn invocation_with_bare_fragments_cannot_be_combined() {
    let mut capture = ParserSourceCapture::default();
    capture.set_ident(&fragment("pair", 7, 4, 8));
    let mut bare = SourceCapture::default();
    bare.set_source_text("x".to_string()).set_line_number(7);
    capture.set_pattern(&bare);
    assert!(!capture.can_combine());
    let mut error = ContextError::new();
    let mut context = FunctionContext::default();
    context.set_parser_context(capture);
    error.set_context(context);
    assert!(!error.can_report());
}

#[test]
fn annotation_has_two_blocks_and_a_footer() {
    let mut error = failing_error();
    error.file = Some("src/parser.rs");
    error.set_input("fn main");
    match error.annotation() {
        AnnotatedReport::Blocks {
            title,
            origin,
            context_text,
            context_line,
            evidence_text,
            evidence_line,
            highlight_start,
            highlight_end,
            label,
            footer,
        } => {
            assert_eq!(title, "ContextError");
            assert_eq!(origin, "src/parser.rs");
            assert_eq!(context_text, "pub fn parse(input: &str) -> IResult<&str, &str> {");
            assert_eq!(context_line, 4);
            assert_eq!(evidence_text, "    let (rest, name) = tag(\"fn\")(input)?;");
            assert_eq!(evidence_line, 5);
            assert_eq!(highlight_start, 4);
            assert_eq!(highlight_end, 41);
            assert_eq!(label, "error occurred here");
            assert_eq!(footer, "fn main");
        }
        AnnotatedReport::Placeholder { .. } => panic!("expected two blocks"),
    }
}

#[test]
fn annotation_without_file_and_input_uses_the_defaults() {
    let error = failing_error();
    match error.annotation() {
        AnnotatedReport::Blocks { origin, footer, .. } => {
            assert_eq!(origin, "unknown");
            assert_eq!(footer, "");
        }
        AnnotatedReport::Placeholder { .. } => panic!("expected two blocks"),
    }
}

#[test]
fn annotation_without_invocations_is_the_placeholder() {
    let error = ContextError::new();
    assert!(error.can_report());
    match error.annotation() {
        AnnotatedReport::Placeholder { title } => {
            assert_eq!(title, "HANDLE ALTERNATIVE CASE ERROR FOR PARSERS ON DIFFERENT LINES");
        }
        AnnotatedReport::Blocks { .. } => panic!("expected the placeholder"),
    }
}

#[test]
fn painted_report_shows_both_blocks() {
    let mut error = failing_error();
    error.file = Some("src/parser.rs");
    error.set_input("fn main");
    let text = error.fmt_annotation().unwrap();
    assert!(text.ends_with('\n'));
    assert!(text.contains("ContextError"));
    assert!(text.contains("src/parser.rs"));
    assert!(text.contains("pub fn parse(input: &str) -> IResult<&str, &str> {"));
    assert!(text.contains("let (rest, name) = tag(\"fn\")(input)?;"));
    assert!(text.contains("error occurred here"));
    assert!(text.contains("fn main"));
    assert!(text.contains("^"));
}

#[test]
fn painted_placeholder_shows_its_title() {
    let text = ContextError::new().fmt_annotation().unwrap();
    assert!(text.contains("HANDLE ALTERNATIVE CASE ERROR FOR PARSERS ON DIFFERENT LINES"));
    assert!(text.ends_with('\n'));
}

#[test]
fn report_with_a_highlight_past_its_text_is_not_painted() {
    let mut capture = ParserSourceCapture::default();
    capture.set_ident(&fragment("ab", 1, 0, 10));
    let mut context = FunctionContext::default();
    context.set_parser_context(capture);
    let mut error = ContextError::new();
    error.set_context(context);
    assert!(error.can_report());
    let report = error.annotation();
    assert!(!report.can_paint());
    assert!(report.paint().is_none());
    assert!(error.fmt_annotation().is_none());
}

#[test]
fn report_with_a_highlight_inside_a_character_is_not_painted() {
    let report = AnnotatedReport::Blocks {
        title: "ContextError".to_string(),
        origin: "unknown".to_string(),
        context_text: "fn f() {".to_string(),
        context_line: 1,
        evidence_text: "\u{e9}t\u{e9}".to_string(),
        evidence_line: 2,
        highlight_start: 1,
        highlight_end: 3,
        label: "error occurred here".to_string(),
        footer: String::new(),
    };
    assert!(!report.can_paint());
    assert!(report.paint().is_none());
}

#[test]
fn report_with_a_highlight_one_past_the_end_is_painted() {
    let report = AnnotatedReport::Blocks {
        title: "ContextError".to_string(),
        origin: "unknown".to_string(),
        context_text: "fn f() {".to_string(),
        context_line: 1,
        evidence_text: "  tag".to_string(),
        evidence_line: 2,
        highlight_start: 2,
        highlight_end: 6,
        label: "error occurred here".to_string(),
        footer: String::new(),
    };
    assert!(report.can_paint());
    assert!(report.paint().unwrap().contains("tag"));
}

#[test]
fn report_with_line_numbers_at_the_limit_is_not_painted() {
    let report = AnnotatedReport::Blocks {
        title: "ContextError".to_string(),
        origin: "unknown".to_string(),
        context_text: "fn f() {".to_string(),
        context_line: usize::MAX,
        evidence_text: "  tag".to_string(),
        evidence_line: 2,
        highlight_start: 2,
        highlight_end: 5,
        label: "error occurred here".to_string(),
        footer: String::new(),
    };
    assert!(!report.can_paint());
}

#[test]
fn disabled_diagnostics_render_nothing() {
    let mut error = failing_error();
    error.set_message("expected fn");
    error.set_input("fn main");
    assert_eq!(error.render(DiagnosticsMode::Disabled), Some(String::new()));
    assert_eq!(ContextError::new().render(DiagnosticsMode::Disabled), Some(String::new()));
}

#[test]
fn enabled_diagnostics_render_the_report() {
    let error = failing_error();
    assert_eq!(error.render(DiagnosticsMode::Enabled), error.fmt_annotation());
    assert!(error.render(DiagnosticsMode::Enabled).unwrap().contains("tag(\"fn\")"));
}

#[test]
fn fresh_errors_are_empty() {
    let error = ContextError::new();
    assert_eq!(error.message(), &None);
    assert_eq!(error.input(), &None);
    assert_eq!(error.file, None);
    assert_eq!(error.context().signature(), &SourceCapture::default());
    assert!(!error.context().has_parser_contexts());
    assert!(!error.context().has_nested_parser_contexts());
    assert!(error.context().closing_tokens().is_none());
    assert!(error.context().parser_context_failure_index().is_none());
    let by_default = ContextError::default();
    assert_eq!(by_default.message(), &None);
    assert_eq!(by_default.input(), &None);
}

#[test]
fn host_classification_is_discarded() {
    let from_kind = ContextError::from_error_kind("rest", nom::error::ErrorKind::Tag);
    assert_eq!(from_kind.message(), &None);
    assert_eq!(from_kind.input(), &None);
    assert!(!from_kind.context().has_parser_contexts());
    let from_char = ContextError::from_char("rest", 'x');
    assert_eq!(from_char.message(), &None);
    assert_eq!(from_char.input(), &None);
}

#[test]
fn append_keeps_the_earlier_error() {
    let mut error = failing_error();
    error.set_message("expected fn");
    error.set_input("fn main");
    let kept = ContextError::append("rest", nom::error::ErrorKind::Alt, error);
    assert_eq!(kept.message(), &Some("expected fn"));
    assert_eq!(kept.input(), &Some("fn main"));
    assert_eq!(kept.context().parser_contexts().as_ref().unwrap().len(), 1);
    assert_eq!(kept.context().signature().line_number, 4);
}

#[test]
fn error_setters_replace_one_field() {
    let mut error = ContextError::new();
    error.set_message("m");
    assert_eq!(error.message(), &Some("m"));
    assert_eq!(error.input(), &None);
    error.set_input("i");
    assert_eq!(error.input(), &Some("i"));
    assert_eq!(error.message(), &Some("m"));
}

#[test]
fn set_signature_takes_the_capture() {
    let mut signature = fragment("old text", 1, 3, 9);
    signature.set_span_length(6);
    let context = FunctionContext::default().set_signature("fn f() {".to_string(), 12, &mut signature);
    assert_eq!(signature, SourceCapture::default());
    assert_eq!(context.signature().source_text, "fn f() {");
    assert_eq!(context.signature().line_number, 12);
    assert_eq!(context.signature().start_column, Some(3));
    assert_eq!(context.signature().end_column, Some(9));
    assert_eq!(context.signature().span_length, Some(6));
}

#[test]
fn contexts_are_appended_in_order() {
    let mut context = FunctionContext::default();
    assert!(!context.has_parser_contexts());
    let mut first = ParserSourceCapture::default();
    first.set_ident(&fragment("first", 1, 0, 5));
    let mut second = ParserSourceCapture::default();
    second.set_ident(&fragment("second", 2, 0, 6));
    context.set_parser_context(first);
    context.set_parser_context(second.clone());
    context.set_nested_parser_context(second);
    assert!(context.has_parser_contexts());
    assert!(context.has_nested_parser_contexts());
    let list = context.parser_contexts().as_ref().unwrap();
    assert_eq!(list.len(), 2);
    assert_eq!(list[0].ident().source_text, "first");
    assert_eq!(list[1].ident().source_text, "second");
    let nested = context.nested_parser_contexts().as_ref().unwrap();
    assert_eq!(nested.len(), 1);
    assert_eq!(nested[0].ident().line_number, 2);
}

#[test]
fn closing_tokens_and_failure_index_are_recorded() {
    let context = FunctionContext::default()
        .set_closing_tokens(fragment("}", 9, 0, 1))
        .set_parser_context_failure_index(3);
    assert_eq!(context.closing_tokens(), &Some(fragment("}", 9, 0, 1)));
    assert_eq!(context.parser_context_failure_index(), &Some(3));
}

#[test]
fn invocation_accessors_return_the_fields() {
    let mut capture = ParserSourceCapture::default();
    assert!(capture.binding_pattern().is_none());
    assert!(capture.nested_parsers().is_none());
    capture.set_binding_pattern(fragment("let (a, b) = ", 7, 2, 14));
    capture.set_ident(&fragment("pair", 7, 15, 19));
    capture.set_pattern(&fragment("(x, y)", 7, 19, 25));
    capture.set_input(&fragment("(input)", 7, 25, 32));
    capture.push_nested_parser_source(&fragment("x", 7, 20, 21));
    capture.push_nested_parser_source(&fragment("y", 7, 23, 24));
    assert_eq!(capture.binding_pattern(), &Some(fragment("let (a, b) = ", 7, 2, 14)));
    assert_eq!(capture.ident(), &fragment("pair", 7, 15, 19));
    assert_eq!(capture.pattern(), &fragment("(x, y)", 7, 19, 25));
    assert_eq!(capture.input(), &fragment("(input)", 7, 25, 32));
    let nested = capture.nested_parsers().as_ref().unwrap();
    assert_eq!(nested.len(), 2);
    assert_eq!(nested[0].source_text, "x");
    assert_eq!(nested[1].source_text, "y");
}

fn blocks(evidence: &str, start: usize, end: usize) -> AnnotatedReport {
    AnnotatedReport::Blocks {
        title: "ContextError".to_string(),
        origin: "unknown".to_string(),
        context_text: "fn f()\n\n {".to_string(),
        context_line: 1,
        evidence_text: evidence.to_string(),
        evidence_line: 2,
        highlight_start: start,
        highlight_end: end,
        label: "error occurred here".to_string(),
        footer: "input".to_string(),
    }
}

#[test]
fn reports_at_the_edges_of_what_fits_are_painted() {
    for (evidence, start, end) in [
        ("ab", 1, 3),
        ("ab", 2, 3),
        ("ab", 3, 3),
        ("ab", 0, 0),
        ("ab", 1, 1),
        ("", 0, 1),
        ("", 0, 0),
        ("", 1, 1),
        ("\u{e9}t\u{e9}", 0, 2),
        ("\u{e9}t\u{e9}", 2, 6),
        ("  a\n  b", 2, 7),
        ("  a\r\n  b", 3, 4),
        ("  a\r\n  b", 4, 9),
        ("\n", 0, 2),
        ("\ttab", 1, 4),
    ] {
        let report = blocks(evidence, start, end);
        assert!(report.can_paint());
        assert!(report.paint().unwrap().ends_with('\n'));
    }
}

#[test]
fn reports_that_do_not_fit_are_refused() {
    for (evidence, start, end) in [("ab", 0, 4), ("ab", 2, 1), ("\u{e9}", 0, 1), ("\u{e9}", 1, 2)] {
        let report = blocks(evidence, start, end);
        assert!(!report.can_paint());
        assert!(report.paint().is_none());
    }
}

fn with_context(context: String) -> AnnotatedReport {
    AnnotatedReport::Blocks {
        title: "ContextError".to_string(),
        origin: "unknown".to_string(),
        context_text: context,
        context_line: 1,
        evidence_text: "  tag".to_string(),
        evidence_line: 2,
        highlight_start: 2,
        highlight_end: 5,
        label: "error occurred here".to_string(),
        footer: String::new(),
    }
}

#[test]
fn wide_block_indented_past_its_label_is_not_painted() {
    let context = format!("{}{}", " ".repeat(13), "a".repeat(140));
    let report = with_context(context);
    assert!(!report.can_paint());
    assert!(report.paint().is_none());
    let evidence = format!("{}{}", " ".repeat(60), "a".repeat(130));
    let report = blocks(&evidence, 0, 1);
    assert!(!report.can_paint());
    assert!(report.paint().is_none());
    let evidence = format!("{}{}", " ".repeat(80), "a".repeat(200));
    assert!(!blocks(&evidence, 46, 47).can_paint());
}

#[test]
fn wide_indented_blocks_within_their_label_are_painted() {
    let context = format!("{}{}", " ".repeat(12), "a".repeat(140));
    assert!(with_context(context).paint().unwrap().contains("aaaa"));
    let private = format!(" fn {}() {{", "a".repeat(150));
    assert!(with_context(private).paint().unwrap().contains("aaaa"));
    let evidence = format!("{}{}", " ".repeat(30), "a".repeat(130));
    assert!(blocks(&evidence, 30, 40).paint().unwrap().contains("error occurred here"));
    let evidence = format!("{}{}", " ".repeat(4), "a".repeat(120));
    assert!(blocks(&evidence, 4, 125).paint().unwrap().contains("error occurred here"));
    let evidence = format!("{}{}", " ".repeat(80), "a".repeat(200));
    for (start, end) in [(80, 90), (80, 281), (48, 49), (200, 210)] {
        assert!(blocks(&evidence, start, end).paint().unwrap().contains("error occurred here"));
    }
}

#[test]
fn room_for_a_line_is_what_the_gutter_leaves() {
    let fits = format!("{}{}", " ".repeat(20), "a".repeat(116));
    assert!(with_context(fits.clone()).can_paint());
    assert!(with_context(fits).paint().is_some());
    let over = format!("{}{}", " ".repeat(20), "a".repeat(117));
    assert!(!with_context(over.clone()).can_paint());
    let ended = format!("{}\r\n", " ".repeat(20) + &"a".repeat(116));
    assert!(with_context(ended).paint().is_some());
    let mut numbered = with_context(" ".repeat(20) + &"a".repeat(116));
    if let AnnotatedReport::Blocks { context_line, .. } = &mut numbered {
        *context_line = 9;
    }
    assert!(!numbered.can_paint());
    let lines = format!("{}\n{}", over, "b".repeat(10));
    assert!(with_context(lines).paint().is_some());
}

#[test]
fn wide_block_that_starts_flush_is_painted() {
    let context = format!("fn {}() {{", "a".repeat(200));
    let report = with_context(context);
    assert!(report.can_paint());
    assert!(report.paint().unwrap().contains("aaaaaaaa"));
    let evidence = format!("tag{}", "b".repeat(300));
    for (start, end) in [(0, 3), (150, 160), (290, 304), (0, 304)] {
        let report = blocks(&evidence, start, end);
        assert!(report.can_paint());
        assert!(report.paint().unwrap().contains("error occurred here"));
    }
}

#[test]
fn painted_text_is_the_rendering_and_a_line_break() {
    let report = AnnotatedReport::Placeholder { title: "nothing to show".to_string() };
    let text = report.paint().unwrap();
    assert!(text.contains("nothing to show"));
    assert!(text.ends_with('\n'));
    assert!(!text.ends_with("\n\n"));
    assert_ne!(text, "nothing to show\n");
}

#[test]
fn wide_flush_blocks_of_many_shapes_are_painted() {
    let accents = format!("x{}", "\u{e9}".repeat(200));
    let wide = format!("x{}", "\u{4e2d}".repeat(120));
    let tabs = format!("x{}y", "\t".repeat(150));
    let lines = format!("x{}\n{}{}\n\ty", "a".repeat(150), " ".repeat(40), "b".repeat(150));
    let spaced = format!("x{}y", " ".repeat(400));
    for (evidence, start, end) in [
        (&accents, 0, 1),
        (&accents, 1, 3),
        (&accents, 399, 402),
        (&accents, 1, 402),
        (&wide, 1, 4),
        (&wide, 358, 362),
        (&wide, 181, 361),
        (&tabs, 0, 1),
        (&tabs, 100, 152),
        (&tabs, 151, 153),
        (&lines, 0, 10),
        (&lines, 140, 160),
        (&lines, 200, 210),
        (&lines, 0, 346),
        (&lines, 343, 346),
        (&spaced, 0, 1),
        (&spaced, 401, 403),
        (&spaced, 200, 201),
    ] {
        let report = blocks(evidence, start, end);
        assert!(report.can_paint());
        assert!(report.paint().unwrap().contains("error occurred here"));
    }
    for context in [&accents, &wide, &tabs, &lines, &spaced] {
        let report = with_context(context.to_string());
        assert!(report.can_paint());
        assert!(report.paint().is_some());
    }
}

#[test]
fn deeply_indented_narrow_blocks_are_painted() {
    let context = format!("{}{}", " ".repeat(40), "a".repeat(70));
    let report = with_context(context);
    assert!(report.can_paint());
    assert!(report.paint().unwrap().contains("aaaa"));
    let evidence = format!("{}{}", " ".repeat(60), "b".repeat(50));
    for (start, end) in [(0, 1), (60, 70), (100, 111), (0, 111)] {
        let report = blocks(&evidence, start, end);
        assert!(report.can_paint());
        assert!(report.paint().unwrap().contains("error occurred here"));
    }
}

#[test]
fn values_are_their_own_references() {
    let error = failing_error();
    let same: &ContextError = error.as_ref();
    assert_eq!(same.context().signature().line_number, 4);
    let context: &FunctionContext = error.context().as_ref();
    assert_eq!(context.signature().line_number, 4);
    let capture = invocation();
    let same: &ParserSourceCapture = capture.as_ref();
    assert_eq!(same.ident(), capture.ident());
}
