//! Tests of what is shown before consent is asked for.
use ratatui::buffer::Buffer;
use ratatui::layout::Rect;
use ratatui::style::{Modifier, Stylize};
use ratatui::text::{Line, Span};
use ratatui::widgets::{Block, Borders, Padding, Paragraph, Widget, Wrap};
use ultracode_workflow::render::{
    omission_note, phase_lines, prompt_excerpt, raw_lines, sanitize, sanitize_display,
    workflow_preview_header, ArgsPresentation, HeaderBlock, RawLine, SourcePresentation,
    WorkflowConsentPresentation, WorkflowPhase, WorkflowPreviewMode, WorkflowSourcePreview,
};

fn preview(
    phases: Option<Vec<WorkflowPhase>>,
    args: Option<ArgsPresentation>,
    withheld: bool,
) -> WorkflowSourcePreview {
    WorkflowSourcePreview {
        thread_id: "thread".into(),
        source: "return 'raw';".into(),
        digest: "digest".into(),
        workflow_id: None,
        description: Some("Inspect source.".into()),
        consent: Some(WorkflowConsentPresentation {
            phases,
            args,
            source: SourcePresentation {
                text: if withheld { "approval unavailable".into() } else { "return 'raw';".into() },
                withheld,
            },
        }),
        validation_error: None,
    }
}

fn phase(title: &str, detail: Option<&str>, prompts: &[&str]) -> WorkflowPhase {
    WorkflowPhase {
        title: title.into(),
        detail: detail.map(str::to_owned),
        prompts: prompts.iter().map(|prompt| prompt.to_string()).collect(),
    }
}

fn styled(line: &RawLine) -> Line<'static> {
    let mut spans = vec![Span::raw(line.text.clone())];
    if let Some(note) = omission_note(line) {
        spans.push(note.dim());
    }
    Line::from(spans)
}

fn gutter(paragraph: Paragraph<'static>, gutter: bool) -> Paragraph<'static> {
    if gutter {
        paragraph
            .block(Block::default().borders(Borders::LEFT).padding(Padding::new(1, 0, 0, 0)))
    } else {
        paragraph
    }
}

fn paragraphs(block: &HeaderBlock) -> Vec<Paragraph<'static>> {
    match block {
        HeaderBlock::Description { text, gutter: framed } => vec![
            gutter(Paragraph::new(text.clone().bold()), *framed),
            Paragraph::new(Line::default()),
        ],
        HeaderBlock::Phases(phases) => {
            let mut lines = vec![Line::from(
                "This dynamic workflow will spin up multiple subagents across the following phases:",
            )];
            for phase in phases {
                let mut row = vec![Span::raw(phase.head.clone())];
                if let Some(detail) = &phase.detail {
                    row.push(detail.clone().dim());
                }
                lines.push(Line::from(row));
                if let Some(prompts) = &phase.prompts {
                    lines.push(Line::from(prompts.clone().dim()));
                }
            }
            vec![Paragraph::new(lines)]
        }
        HeaderBlock::ValidationError(text) => {
            vec![Paragraph::new(format!("Validation error: {text}"))]
        }
        HeaderBlock::Withheld(text) => vec![Paragraph::new(text.clone())],
        HeaderBlock::Source(lines) => vec![Paragraph::new(
            lines.iter().map(styled).collect::<Vec<_>>(),
        )
        .block(
            Block::default()
                .borders(Borders::ALL)
                .border_set(ratatui::symbols::border::Set {
                    horizontal_top: "╌",
                    horizontal_bottom: "╌",
                    vertical_left: "╎",
                    vertical_right: "╎",
                    top_left: " ",
                    top_right: " ",
                    bottom_left: " ",
                    bottom_right: " ",
                })
                .padding(Padding::horizontal(1)),
        )],
        HeaderBlock::Args { lines, gutter: framed } => {
            let mut shown = vec![Line::from(format!("args: {}", lines[0]))];
            shown.extend(lines[1..].iter().map(|line| Line::from(line.clone())));
            vec![gutter(Paragraph::new(shown), *framed)]
        }
    }
}

fn render(preview: &WorkflowSourcePreview, mode: WorkflowPreviewMode, width: u16) -> String {
    let mut rows: Vec<String> = Vec::new();
    for block in workflow_preview_header(preview, mode) {
        for paragraph in paragraphs(&block) {
            let height: u16 = 12;
            let area = Rect::new(7, 3, width, height);
            let mut buf = Buffer::empty(area);
            paragraph.wrap(Wrap { trim: false }).render(area, &mut buf);
            for y in area.y..area.bottom() {
                let row: String = (area.x..area.right()).map(|x| buf[(x, y)].symbol()).collect();
                rows.push(row.trim_end().to_string());
            }
        }
    }
    rows.join("\n")
}

#[test]
fn summary_shows_reference_description_phases_and_prompt_limit() {
    let preview = preview(
        Some(vec![phase("Inspect", Some("Read source"), &["one", "two", "three"])]),
        None,
        false,
    );
    let text = render(&preview, WorkflowPreviewMode::Summary, 100);
    assert!(text.starts_with("Inspect source.\n"));
    assert!(text.contains(
        "This dynamic workflow will spin up multiple subagents across the following phases:"
    ));
    assert!(text.contains("  1. Inspect — Read source"));
    assert!(text.contains("     · \"one\"  · \"two\"  +1 more"));
    assert!(!text.contains("hidden-name"));
    assert!(!text.contains("hidden-title"));
}

#[test]
fn no_summary_and_withheld_source_render_raw_without_phase_claims() {
    for preview in [
        preview(None, None, false),
        preview(Some(vec![phase("Inspect", None, &[])]), None, true),
    ] {
        let text = render(&preview, WorkflowPreviewMode::Summary, 70);
        assert!(!text.contains("following phases"));
        assert_eq!(
            text.contains("╌"),
            !preview.consent.as_ref().expect("valid consent fixture").source.withheld
        );
    }
}

#[test]
fn raw_long_lines_truncate_individually_with_dim_suffix() {
    let lines = raw_lines(&format!("{}\nreturn 1;", "x".repeat(2003)));
    let shown: Vec<Line<'static>> = lines.iter().map(styled).collect();
    assert_eq!(shown[0].to_string(), format!("{} … [+3 chars]", "x".repeat(2000)));
    assert_eq!(shown[1].to_string(), "return 1;");
    assert!(shown[0]
        .spans
        .last()
        .expect("valid consent fixture")
        .style
        .add_modifier
        .contains(Modifier::DIM));
}

#[test]
fn prompt_excerpt_respects_utf16_boundary() {
    assert_eq!(prompt_excerpt(&"x".repeat(60)), "x".repeat(60));
    assert_eq!(prompt_excerpt(&"x".repeat(61)), format!("{}…", "x".repeat(59)));
    assert_eq!(prompt_excerpt(&"😀".repeat(31)), format!("{}…", "😀".repeat(29)));
}

#[test]
fn args_follow_body_and_raw_wraps_inside_border_at_nonzero_origin() {
    let preview = preview(
        None,
        Some(ArgsPresentation {
            text: "first\nsecond".into(),
            needs_gutter: true,
            withheld: false,
        }),
        false,
    );
    let text = render(&preview, WorkflowPreviewMode::Raw, 18);
    assert!(text.contains("args:"));
    assert!(text.contains("│ args: first"));
    assert!(text.contains("│ second"));
    assert!(text.contains("return 'raw';"));
}

#[test]
fn text_for_the_terminal_has_no_control_characters() {
    let text = "a\u{1b}[31mb\tc\nd\u{7f}\u{85}";
    let clean = sanitize(text);
    assert_eq!(clean, "a[31mb\tc\nd");
    assert_eq!(sanitize_display(text), clean);
}

#[test]
fn wide_or_long_descriptions_are_framed() {
    let mut wide = preview(None, None, false);
    wide.description = Some("宽".repeat(41));
    let blocks = workflow_preview_header(&wide, WorkflowPreviewMode::Raw);
    assert!(matches!(&blocks[0], HeaderBlock::Description { gutter: true, .. }));
    wide.description = Some("宽".repeat(40));
    let blocks = workflow_preview_header(&wide, WorkflowPreviewMode::Raw);
    assert!(matches!(&blocks[0], HeaderBlock::Description { gutter: false, .. }));
    wide.description = Some("a\nb".into());
    let blocks = workflow_preview_header(&wide, WorkflowPreviewMode::Raw);
    assert!(matches!(&blocks[0], HeaderBlock::Description { gutter: true, .. }));
}

#[test]
fn invalid_source_is_shown_with_its_error() {
    let mut invalid = preview(Some(vec![phase("Inspect", None, &[])]), None, false);
    invalid.validation_error = Some("unexpected token".into());
    let text = render(&invalid, WorkflowPreviewMode::Summary, 70);
    assert!(text.contains("Validation error: unexpected token"));
    assert!(text.contains("return 'raw';"));
    assert!(!text.contains("following phases"));
}

#[test]
fn phases_are_numbered_from_one() {
    let lines = phase_lines(&vec![phase("A", None, &[]), phase("B", None, &["p"])]);
    assert_eq!(lines[0].head, "  1. A");
    assert_eq!(lines[0].prompts, None);
    assert_eq!(lines[1].head, "  2. B");
    assert_eq!(lines[1].prompts, Some("     · \"p\"".to_string()));
}

#[test]
fn withheld_source_stays_hidden() {
    let hidden = preview(Some(vec![phase("Inspect", None, &[])]), None, true);
    for mode in [WorkflowPreviewMode::Summary, WorkflowPreviewMode::Raw] {
        let text = render(&hidden, mode, 70);
        assert!(text.contains("approval unavailable"));
        assert!(!text.contains("return 'raw';"));
    }
}
