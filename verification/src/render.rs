//! What a user is shown of a workflow before it runs.
use crate::text::{
    contains, cut_utf16, decimal, is_control, join, joined, longer_than_utf16, number, option_text,
    pieces, plus, plus3, split, texts, utf16_count, utf16_length, utf16_prefix, char_is_control,
    has_part, pieces_join_back, utf16_length_grows, utf16_prefix_is_longest,
};
use unicode_width::UnicodeWidthStr;
use vstd::prelude::*;
use vstd::string::*;

verus! {

/// How many columns a text takes in a terminal.
pub uninterp spec fn display_width(text: Seq<char>) -> usize;

/// `UnicodeWidthStr::width`, which depends on the characters alone.
#[verifier::external_body]
pub(crate) fn text_width(text: &str) -> (res: usize)
    ensures
        res == display_width(text@),
{
    text.width()
}

/// Whether a character would act on the terminal instead of being shown: a control character other
/// than a line feed or a tab.
pub open spec fn acts_on_terminal(c: char) -> bool {
    is_control(c) && c != '\n' && c != '\t'
}

/// A text without the characters that act on the terminal.
pub open spec fn sanitized(text: Seq<char>) -> Seq<char>
    decreases text.len(),
{
    if text.len() == 0 {
        text
    } else if acts_on_terminal(text.last()) {
        sanitized(text.drop_last())
    } else {
        sanitized(text.drop_last()).push(text.last())
    }
}

/// Makes a text of a user or a model safe to show.
pub fn sanitize(text: &str) -> (res: String)
    ensures
        res@ == sanitized(text@),
{
    let mut out = String::new();
    let n: usize = text.unicode_len();
    let mut i: usize = 0;
    assert(out@ =~= sanitized(text@.take(0)));
    while i < n
        invariant
            n == text@.len(),
            i <= n,
            out@ == sanitized(text@.take(i as int)),
        decreases n - i,
    {
        let c = text.get_char(i);
        assert(text@.take(i + 1).drop_last() =~= text@.take(i as int));
        if !char_is_control(c) || c == '\n' || c == '\t' {
            out.push(c);
        }
        i = i + 1;
    }
    assert(text@.take(n as int) =~= text@);
    out
}

/// Makes the label of a choice safe to show.
pub fn sanitize_display(text: &str) -> (res: String)
    ensures
        res@ == sanitized(text@),
{
    sanitize(text)
}

/// Nothing that is shown acts on the terminal, and what is safe already stays as it is.
pub proof fn sanitized_is_safe(text: Seq<char>)
    ensures
        forall|i: int|
            0 <= i < sanitized(text).len() ==> !acts_on_terminal(#[trigger] sanitized(text)[i]),
        (forall|i: int| 0 <= i < text.len() ==> !acts_on_terminal(#[trigger] text[i]))
            ==> sanitized(text) == text,
    decreases text.len(),
{
    if text.len() > 0 {
        let head = text.drop_last();
        sanitized_is_safe(head);
        assert forall|i: int| 0 <= i < sanitized(text).len() implies !acts_on_terminal(
            #[trigger] sanitized(text)[i],
        ) by {
            if i < sanitized(head).len() {
                assert(sanitized(text)[i] == sanitized(head)[i]);
            }
        }
        if forall|i: int| 0 <= i < text.len() ==> !acts_on_terminal(#[trigger] text[i]) {
            assert forall|i: int| 0 <= i < head.len() implies !acts_on_terminal(
                #[trigger] head[i],
            ) by {
                assert(head[i] == text[i]);
            }
            assert(head.push(text.last()) =~= text);
        }
    }
}

/// A prompt in short: as it is up to 60 UTF-16 units, else its start and an ellipsis.
pub open spec fn excerpt(prompt: Seq<char>) -> Seq<char> {
    if utf16_length(prompt) <= 60 {
        sanitized(prompt)
    } else {
        sanitized(utf16_prefix(prompt, 59)) + "…"@
    }
}

pub fn prompt_excerpt(prompt: &str) -> (res: String)
    ensures
        res@ == excerpt(prompt@),
{
    if !longer_than_utf16(prompt, 60) {
        return sanitize(prompt);
    }
    let prefix = cut_utf16(prompt, 59);
    plus(sanitize(prefix.as_str()).as_str(), "…")
}

/// A line of source, and how many UTF-16 units of it are left out.
#[derive(Debug)]
pub struct RawLine {
    pub text: String,
    pub omitted: usize,
}

/// Whether a shown line is the start of a source line, and counts what is left out.
pub open spec fn is_raw_line(line: RawLine, source: Seq<char>) -> bool {
    &&& line.text@ == utf16_prefix(source, 2000)
    &&& line.omitted == utf16_length(source) - utf16_length(line.text@)
}

/// The lines of a source, each cut on its own.
pub fn raw_lines(source: &str) -> (res: Vec<RawLine>)
    ensures
        res@.len() == pieces(source@, '\n').len(),
        forall|i: int|
            0 <= i < res@.len() ==> is_raw_line(#[trigger] res@[i], pieces(source@, '\n')[i]),
{
    let lines = split(source, '\n');
    let ghost all = texts(lines@);
    let mut out: Vec<RawLine> = Vec::new();
    let mut i: usize = 0;
    while i < lines.len()
        invariant
            all == texts(lines@),
            i <= lines@.len(),
            out@.len() == i,
            forall|j: int| 0 <= j < i ==> is_raw_line(#[trigger] out@[j], all[j]),
        decreases lines@.len() - i,
    {
        let line = lines[i].as_str();
        let text = cut_utf16(line, 2000);
        let total: usize = utf16_count(line);
        let shown: usize = utf16_count(text.as_str());
        proof {
            prefix_is_shorter(line@, 2000);
        }
        let omitted: usize = total - shown;
        assert(all[i as int] == line@);
        out.push(RawLine { text, omitted });
        i = i + 1;
    }
    out
}

proof fn prefix_is_shorter(text: Seq<char>, limit: nat)
    ensures
        utf16_length(utf16_prefix(text, limit)) <= utf16_length(text),
    decreases text.len(),
{
    if utf16_length(text) > limit && text.len() > 0 {
        prefix_is_shorter(text.drop_last(), limit);
    }
}

/// What is shown after a line of which something is left out.
pub fn omission_note(line: &RawLine) -> (res: Option<String>)
    ensures
        option_text(res) == if line.omitted == 0 {
            None
        } else {
            Some(" … [+"@ + decimal(line.omitted as nat) + " chars]"@)
        },
{
    if line.omitted == 0 {
        None
    } else {
        Some(plus3(" … [+", number(line.omitted as u64).as_str(), " chars]"))
    }
}

/// A phase of a workflow, with the prompts of its agents.
#[derive(Debug)]
pub struct WorkflowPhase {
    pub title: String,
    pub detail: Option<String>,
    pub prompts: Vec<String>,
}

/// The arguments of a launch, as they may be shown.
#[derive(Debug)]
pub struct ArgsPresentation {
    pub text: String,
    pub needs_gutter: bool,
    pub withheld: bool,
}

/// The source of a launch, as it may be shown. A withheld source is replaced by the reason.
#[derive(Debug)]
pub struct SourcePresentation {
    pub text: String,
    pub withheld: bool,
}

/// What the validation of a source allows to be shown.
#[derive(Debug)]
pub struct WorkflowConsentPresentation {
    pub phases: Option<Vec<WorkflowPhase>>,
    pub args: Option<ArgsPresentation>,
    pub source: SourcePresentation,
}

/// A source that waits for consent.
#[derive(Debug)]
pub struct WorkflowSourcePreview {
    pub thread_id: String,
    pub source: String,
    pub digest: String,
    /// The saved workflow that the source is; an edited or an inline source is none.
    pub workflow_id: Option<String>,
    pub description: Option<String>,
    pub consent: Option<WorkflowConsentPresentation>,
    pub validation_error: Option<String>,
}

/// How a source is shown.
#[derive(Clone, Copy, Debug, PartialEq, Eq, Structural)]
pub enum WorkflowPreviewMode {
    Summary,
    Raw,
}

/// The lines of one phase.
#[derive(Debug)]
pub struct PhaseLines {
    pub head: String,
    pub detail: Option<String>,
    pub prompts: Option<String>,
}

/// One prompt, in short and in quotes.
pub open spec fn prompt_item(prompt: Seq<char>) -> Seq<char> {
    "· \""@ + excerpt(prompt) + "\""@
}

/// The line of a phase's prompts: the first two, and how many there are more.
pub open spec fn prompts_line(prompts: Seq<Seq<char>>) -> Option<Seq<char>> {
    let shown = if prompts.len() > 2 {
        prompts.take(2)
    } else {
        prompts
    };
    let list = joined(shown.map_values(|prompt: Seq<char>| prompt_item(prompt)), "  "@);
    if prompts.len() == 0 {
        None
    } else if prompts.len() > 2 {
        Some("     "@ + list + "  +"@ + decimal((prompts.len() - 2) as nat) + " more"@)
    } else {
        Some("     "@ + list)
    }
}

/// Whether lines are those of the phase at a position.
pub open spec fn shows_phase(lines: PhaseLines, phase: WorkflowPhase, index: int) -> bool {
    &&& lines.head@ == "  "@ + decimal((index + 1) as nat) + ". "@ + sanitized(phase.title@)
    &&& option_text(lines.detail) == match phase.detail {
        Some(detail) => Some(" — "@ + sanitized(detail@)),
        None => None,
    }
    &&& option_text(lines.prompts) == prompts_line(texts(phase.prompts@))
}

fn render_prompts(prompts: &Vec<String>) -> (res: Option<String>)
    ensures
        option_text(res) == prompts_line(texts(prompts@)),
{
    let n: usize = prompts.len();
    if n == 0 {
        return None;
    }
    let shown: usize = if n > 2 {
        2
    } else {
        n
    };
    let mut items: Vec<String> = Vec::new();
    let mut i: usize = 0;
    while i < shown
        invariant
            shown <= prompts@.len(),
            i <= shown,
            items@.len() == i,
            forall|j: int| 0 <= j < i ==> (#[trigger] items@[j])@ == prompt_item(prompts@[j]@),
        decreases shown - i,
    {
        items.push(plus3("· \"", prompt_excerpt(prompts[i].as_str()).as_str(), "\""));
        i = i + 1;
    }
    let ghost all = texts(prompts@);
    let ghost first = if n > 2 {
        all.take(2)
    } else {
        all
    };
    assert(texts(items@) =~= first.map_values(|prompt: Seq<char>| prompt_item(prompt)));
    let mut line = plus("     ", join(&items, "  ").as_str());
    if n > 2 {
        line.append("  +");
        line.append(number((n - 2) as u64).as_str());
        line.append(" more");
    }
    Some(line)
}

/// The lines of the phases, numbered from one.
pub fn phase_lines(phases: &Vec<WorkflowPhase>) -> (res: Vec<PhaseLines>)
    ensures
        res@.len() == phases@.len(),
        forall|i: int| 0 <= i < res@.len() ==> shows_phase(#[trigger] res@[i], phases@[i], i),
{
    let mut out: Vec<PhaseLines> = Vec::new();
    let mut i: usize = 0;
    while i < phases.len()
        invariant
            i <= phases@.len(),
            out@.len() == i,
            forall|j: int| 0 <= j < i ==> shows_phase(#[trigger] out@[j], phases@[j], j),
        decreases phases@.len() - i,
    {
        let phase = &phases[i];
        let position: u64 = i as u64;
        assert(position < u64::MAX) by {
            assert(i < phases@.len() <= usize::MAX);
        }
        let mut head = plus3("  ", number(position + 1).as_str(), ". ");
        head.append(sanitize(phase.title.as_str()).as_str());
        let detail = match &phase.detail {
            Some(detail) => Some(plus(" — ", sanitize(detail.as_str()).as_str())),
            None => None,
        };
        let lines = PhaseLines { head, detail, prompts: render_prompts(&phase.prompts) };
        assert(shows_phase(lines, phases@[i as int], i as int));
        out.push(lines);
        i = i + 1;
    }
    out
}

/// A part of what is shown above the choices.
#[derive(Debug)]
pub enum HeaderBlock {
    /// What the workflow is for; a long text has a line at its left.
    Description { text: String, gutter: bool },
    /// The phases, after an introduction.
    Phases(Vec<PhaseLines>),
    /// Why the source is not valid.
    ValidationError(String),
    /// Why the source is not shown.
    Withheld(String),
    /// The source, in a frame.
    Source(Vec<RawLine>),
    /// The arguments; several lines may have a line at their left.
    Args { lines: Vec<String>, gutter: bool },
}

/// Whether the phases are shown in place of the source.
pub open spec fn shows_summary(preview: WorkflowSourcePreview, mode: WorkflowPreviewMode) -> bool {
    &&& mode is Summary
    &&& preview.validation_error is None
    &&& preview.consent matches Some(consent)
    &&& !consent.source.withheld
    &&& consent.phases is Some
}

/// The source that is shown: the one that the validation allows, or the preview's own.
pub open spec fn shown_source(preview: WorkflowSourcePreview) -> Seq<char> {
    match preview.consent {
        Some(consent) => consent.source.text@,
        None => sanitized(preview.source@),
    }
}

pub open spec fn source_is_withheld(preview: WorkflowSourcePreview) -> bool {
    preview.consent matches Some(consent) && consent.source.withheld
}

/// Whether blocks show the description, where there is one.
pub open spec fn shows_description(
    blocks: Seq<HeaderBlock>,
    preview: WorkflowSourcePreview,
) -> bool {
    match preview.description {
        Some(description) => {
            let text = sanitized(description@);
            if text.len() == 0 {
                blocks.len() == 0
            } else {
                blocks.len() == 1 && (blocks[0] matches HeaderBlock::Description {
                    text: shown,
                    gutter,
                } && shown@ == text && gutter == (has_part(text, "\n"@) || display_width(text)
                    > 80))
            }
        },
        None => blocks.len() == 0,
    }
}

/// Whether lines are those of the shown source.
pub open spec fn shows_source(lines: Seq<RawLine>, preview: WorkflowSourcePreview) -> bool {
    let source = pieces(shown_source(preview), '\n');
    &&& lines.len() == source.len()
    &&& forall|i: int| 0 <= i < lines.len() ==> is_raw_line(#[trigger] lines[i], source[i])
}

/// Whether blocks show the phases, or else the source after its validation error.
pub open spec fn shows_body(
    blocks: Seq<HeaderBlock>,
    preview: WorkflowSourcePreview,
    mode: WorkflowPreviewMode,
) -> bool {
    if shows_summary(preview, mode) {
        let phases = preview.consent->Some_0.phases->Some_0@;
        blocks.len() == 1 && (blocks[0] matches HeaderBlock::Phases(lines) && lines@.len()
            == phases.len() && forall|i: int|
            0 <= i < lines@.len() ==> shows_phase(#[trigger] lines@[i], phases[i], i))
    } else {
        &&& match preview.validation_error {
            Some(error) => blocks.len() == 2 && (blocks[0] matches HeaderBlock::ValidationError(
                text,
            ) && text@ == sanitized(error@)),
            None => blocks.len() == 1,
        }
        &&& if source_is_withheld(preview) {
            blocks.last() matches HeaderBlock::Withheld(text) && text@ == shown_source(preview)
        } else {
            blocks.last() matches HeaderBlock::Source(lines) && shows_source(lines@, preview)
        }
    }
}

/// Whether blocks show the arguments, where there are any.
pub open spec fn shows_args(blocks: Seq<HeaderBlock>, preview: WorkflowSourcePreview) -> bool {
    match preview.consent {
        Some(consent) => match consent.args {
            Some(args) => if args.text@.len() == 0 {
                blocks.len() == 0
            } else {
                blocks.len() == 1 && (blocks[0] matches HeaderBlock::Args { lines, gutter }
                    && texts(lines@) == pieces(args.text@, '\n') && gutter == (args.needs_gutter
                    && !args.withheld))
            },
            None => blocks.len() == 0,
        },
        None => blocks.len() == 0,
    }
}

/// The blocks of a part that is at most one block.
pub open spec fn one_block(block: Option<HeaderBlock>) -> Seq<HeaderBlock> {
    match block {
        Some(block) => seq![block],
        None => Seq::empty(),
    }
}

fn description_block(preview: &WorkflowSourcePreview) -> (res: Option<HeaderBlock>)
    ensures
        shows_description(
            one_block(res),
            *preview,
        ),
{
    match &preview.description {
        Some(description) => {
            let text = sanitize(description.as_str());
            if text.as_str().is_empty() {
                return None;
            }
            let gutter = contains(text.as_str(), "\n") || text_width(text.as_str()) > 80;
            Some(HeaderBlock::Description { text, gutter })
        },
        None => None,
    }
}

fn args_block(preview: &WorkflowSourcePreview) -> (res: Option<HeaderBlock>)
    ensures
        shows_args(
            one_block(res),
            *preview,
        ),
{
    match &preview.consent {
        Some(consent) => match &consent.args {
            Some(args) => {
                if args.text.as_str().is_empty() {
                    return None;
                }
                Some(
                    HeaderBlock::Args {
                        lines: split(args.text.as_str(), '\n'),
                        gutter: args.needs_gutter && !args.withheld,
                    },
                )
            },
            None => None,
        },
        None => None,
    }
}

fn body_blocks(preview: &WorkflowSourcePreview, mode: WorkflowPreviewMode) -> (res: Vec<
    HeaderBlock,
>)
    ensures
        shows_body(res@, *preview, mode),
{
    let mut blocks: Vec<HeaderBlock> = Vec::new();
    if mode == WorkflowPreviewMode::Summary && preview.validation_error.is_none() {
        match &preview.consent {
            Some(consent) => {
                if !consent.source.withheld {
                    match &consent.phases {
                        Some(phases) => {
                            blocks.push(HeaderBlock::Phases(phase_lines(phases)));
                            return blocks;
                        },
                        None => {},
                    }
                }
            },
            None => {},
        }
    }
    match &preview.validation_error {
        Some(error) => {
            blocks.push(HeaderBlock::ValidationError(sanitize(error.as_str())));
        },
        None => {},
    }
    match &preview.consent {
        Some(consent) => {
            if consent.source.withheld {
                blocks.push(HeaderBlock::Withheld(consent.source.text.clone()));
            } else {
                blocks.push(HeaderBlock::Source(raw_lines(consent.source.text.as_str())));
            }
        },
        None => {
            let source = sanitize(preview.source.as_str());
            blocks.push(HeaderBlock::Source(raw_lines(source.as_str())));
        },
    }
    blocks
}

/// Where the blocks of a header stand: those of the description, then the body, then the arguments.
pub open spec fn is_header(
    blocks: Seq<HeaderBlock>,
    preview: WorkflowSourcePreview,
    mode: WorkflowPreviewMode,
    description: int,
    args: int,
) -> bool {
    &&& 0 <= description <= args <= blocks.len()
    &&& shows_description(blocks.subrange(0, description), preview)
    &&& shows_body(blocks.subrange(description, args), preview, mode)
    &&& shows_args(blocks.subrange(args, blocks.len() as int), preview)
}

/// Whether blocks are the header of a preview.
pub open spec fn header_shows(
    blocks: Seq<HeaderBlock>,
    preview: WorkflowSourcePreview,
    mode: WorkflowPreviewMode,
) -> bool {
    exists|description: int, args: int| is_header(blocks, preview, mode, description, args)
}

/// What is shown above the choices: the description, the phases or the source, and the arguments.
pub fn workflow_preview_header(preview: &WorkflowSourcePreview, mode: WorkflowPreviewMode) -> (res:
    Vec<HeaderBlock>)
    ensures
        header_shows(res@, *preview, mode),
{
    let mut blocks: Vec<HeaderBlock> = Vec::new();
    match description_block(preview) {
        Some(block) => {
            blocks.push(block);
        },
        None => {},
    }
    let ghost first = blocks@;
    let mut body = body_blocks(preview, mode);
    let ghost middle = body@;
    blocks.append(&mut body);
    let args = args_block(preview);
    let ghost last = one_block(args);
    match args {
        Some(block) => {
            blocks.push(block);
        },
        None => {},
    }
    proof {
        let d = first.len() as int;
        let a = d + middle.len();
        assert(blocks@ =~= first + middle + last);
        assert(blocks@.subrange(0, d) =~= first);
        assert(blocks@.subrange(d, a) =~= middle);
        assert(blocks@.subrange(a, blocks@.len() as int) =~= last);
        assert(is_header(blocks@, *preview, mode, d, a));
    }
    blocks
}

/// The arguments never come before the source or the phases, and a withheld source is never shown.
pub proof fn withheld_source_is_not_shown(
    blocks: Seq<HeaderBlock>,
    preview: WorkflowSourcePreview,
    mode: WorkflowPreviewMode,
    i: int,
)
    requires
        source_is_withheld(preview),
        shows_body(blocks, preview, mode),
        0 <= i < blocks.len(),
    ensures
        !(blocks[i] is Source),
        !(blocks[i] is Phases),
{
    if i != blocks.len() - 1 {
        assert(i == 0);
    }
}

/// What is shown of a text is the text without its control characters, in order; only a line feed and
/// a tab are kept of them.
pub proof fn sanitized_keeps_the_rest(text: Seq<char>)
    ensures
        sanitized(text) == text.filter(
            |c: char| c == '\n' || c == '\t' || !(c < ' ' || '\u{7f}' <= c && c <= '\u{9f}'),
        ),
    decreases text.len(),
{
    reveal(Seq::filter);
    if text.len() > 0 {
        sanitized_keeps_the_rest(text.drop_last());
    }
}

/// A prompt is shown as it is or in short, and never in more than 60 UTF-16 units and only with an
/// ellipsis where something of it is left out.
pub proof fn excerpt_is_short(prompt: Seq<char>)
    requires
        forall|i: int| 0 <= i < prompt.len() ==> !acts_on_terminal(#[trigger] prompt[i]),
    ensures
        utf16_length(excerpt(prompt)) <= 60,
        utf16_length(prompt) <= 60 ==> excerpt(prompt) == prompt,
        utf16_length(prompt) > 60 ==> {
            let n = excerpt(prompt).len() - 1;
            &&& 0 <= n < prompt.len()
            &&& excerpt(prompt) == prompt.take(n) + "…"@
            &&& utf16_length(prompt.take(n + 1)) > 59
        },
{
    reveal_strlit("…");
    sanitized_is_safe(prompt);
    let cut = utf16_prefix(prompt, 59);
    utf16_prefix_is_longest(prompt, 59);
    assert forall|i: int| 0 <= i < cut.len() implies !acts_on_terminal(#[trigger] cut[i]) by {
        assert(cut[i] == prompt[i]);
    }
    sanitized_is_safe(cut);
    if utf16_length(prompt) > 60 {
        let all = cut + "…"@;
        assert(all.drop_last() =~= cut);
        assert(all.last() == '…');
    }
}

/// What is left out of a line is counted: a line that fits is shown whole, and of a longer one the
/// shown start and the count make up the line.
pub proof fn raw_line_counts_what_it_omits(line: RawLine, source: Seq<char>)
    requires
        is_raw_line(line, source),
    ensures
        line.omitted == 0 <==> utf16_length(source) <= 2000,
        line.omitted == 0 ==> line.text@ == source,
        line.text@ == source.take(line.text@.len() as int),
        utf16_length(line.text@) <= 2000,
        utf16_length(line.text@) + line.omitted == utf16_length(source),
{
    utf16_prefix_is_longest(source, 2000);
    assert(source.take(source.len() as int) =~= source);
    let n = line.text@.len() as int;
    if n < source.len() {
        utf16_length_grows(source, n, source.len() as int);
    }
}

/// The source that a user may see: what the validation allows, or the source without what would act
/// on the terminal. A source is withheld only by its validation.
pub proof fn raw_mode_shows_the_source(blocks: Seq<HeaderBlock>, preview: WorkflowSourcePreview)
    requires
        shows_body(blocks, preview, WorkflowPreviewMode::Raw),
    ensures
        forall|i: int| 0 <= i < blocks.len() ==> !(#[trigger] blocks[i] is Phases),
        blocks.len() > 0,
        ({
            let withheld = preview.consent is Some && preview.consent->Some_0.source.withheld;
            let source = if preview.consent is Some {
                preview.consent->Some_0.source.text@
            } else {
                sanitized(preview.source@)
            };
            &&& blocks.last() is Source <==> !withheld
            &&& withheld ==> (blocks.last() matches HeaderBlock::Withheld(reason) && reason@
                == source)
            &&& blocks.last() matches HeaderBlock::Source(lines) ==> {
                &&& lines@.len() == pieces(source, '\n').len()
                &&& forall|i: int|
                    0 <= i < lines@.len() ==> (#[trigger] lines@[i]).text@ == utf16_prefix(
                        pieces(source, '\n')[i],
                        2000,
                    ) && utf16_length(lines@[i].text@) + lines@[i].omitted == utf16_length(
                        pieces(source, '\n')[i],
                    )
                &&& (forall|i: int| 0 <= i < lines@.len() ==> (#[trigger] lines@[i]).omitted == 0)
                    ==> joined(
                    Seq::new(lines@.len(), |i: int| lines@[i].text@),
                    seq!['\n'],
                ) == source
            }
        }),
        preview.validation_error is Some <==> blocks.len() == 2,
        preview.validation_error matches Some(error) ==> (blocks[0]
            matches HeaderBlock::ValidationError(text) && text@ == sanitized(error@)),
{
    assert forall|i: int| 0 <= i < blocks.len() implies !(#[trigger] blocks[i] is Phases) by {
        if i != blocks.len() - 1 {
            assert(i == 0);
        }
    }
    if let HeaderBlock::Source(lines) = blocks.last() {
        let source = shown_source(preview);
        let parts = pieces(source, '\n');
        if forall|i: int| 0 <= i < lines@.len() ==> (#[trigger] lines@[i]).omitted == 0 {
            assert forall|i: int| 0 <= i < lines@.len() implies (#[trigger] lines@[i]).text@
                == parts[i] by {
                raw_line_counts_what_it_omits(lines@[i], parts[i]);
            }
            assert(Seq::new(lines@.len(), |i: int| lines@[i].text@) =~= parts);
            pieces_join_back(source, '\n');
        }
    }
}

/// In the summary the phases stand in place of the source, each under its number, wherever a valid
/// source that is not withheld has any; without them what is shown is what the raw mode shows.
pub proof fn summary_shows_the_phases(blocks: Seq<HeaderBlock>, preview: WorkflowSourcePreview)
    requires
        shows_body(blocks, preview, WorkflowPreviewMode::Summary),
    ensures
        ({
            let has_phases = preview.validation_error is None && preview.consent is Some
                && !preview.consent->Some_0.source.withheld && preview.consent->Some_0.phases
                is Some;
            let phases = preview.consent->Some_0.phases->Some_0@;
            &&& has_phases ==> blocks.len() == 1 && blocks[0] is Phases
                && blocks[0]->Phases_0@.len() == phases.len()
            &&& has_phases ==> forall|i: int|
                0 <= i < phases.len() ==> {
                    let lines = #[trigger] blocks[0]->Phases_0@[i];
                    &&& lines.head@ == "  "@ + decimal((i + 1) as nat) + ". "@ + sanitized(
                        phases[i].title@,
                    )
                    &&& lines.detail is Some <==> phases[i].detail is Some
                    &&& lines.detail matches Some(detail) ==> detail@ == " — "@ + sanitized(
                        phases[i].detail->Some_0@,
                    )
                    &&& lines.prompts is Some <==> phases[i].prompts@.len() > 0
                }
            &&& !has_phases ==> shows_body(blocks, preview, WorkflowPreviewMode::Raw)
        }),
{
}

/// The line of the prompts shows the first two of them, and counts the others.
pub proof fn prompts_are_shown_or_counted(prompts: Seq<Seq<char>>)
    ensures
        prompts_line(prompts) is None <==> prompts.len() == 0,
        prompts.len() == 1 ==> prompts_line(prompts) == Some(
            "     · \""@ + excerpt(prompts[0]) + "\""@,
        ),
        prompts.len() >= 2 ==> prompts_line(prompts) == Some(
            "     · \""@ + excerpt(prompts[0]) + "\"  · \""@ + excerpt(prompts[1]) + if prompts.len()
                == 2 {
                "\""@
            } else {
                "\"  +"@ + decimal((prompts.len() - 2) as nat) + " more"@
            },
        ),
{
    reveal_strlit("     · \"");
    reveal_strlit("     ");
    reveal_strlit("· \"");
    reveal_strlit("\"");
    reveal_strlit("\"  · \"");
    reveal_strlit("  ");
    reveal_strlit("\"  +");
    reveal_strlit("  +");
    reveal_with_fuel(joined, 3);
    let item = |prompt: Seq<char>| prompt_item(prompt);
    if prompts.len() == 1 {
        let list = prompts.map_values(item);
        assert(list[0] == prompt_item(prompts[0]));
        assert("     "@ + joined(list, "  "@) =~= "     · \""@ + excerpt(prompts[0]) + "\""@);
    } else if prompts.len() >= 2 {
        let shown = if prompts.len() > 2 {
            prompts.take(2)
        } else {
            prompts
        };
        let list = shown.map_values(item);
        assert(list.drop_last()[0] == prompt_item(prompts[0]));
        assert(list.last() == prompt_item(prompts[1]));
        let two = "     · \""@ + excerpt(prompts[0]) + "\"  · \""@ + excerpt(prompts[1]) + "\""@;
        assert("     "@ + joined(list, "  "@) =~= two);
        if prompts.len() > 2 {
            let count = decimal((prompts.len() - 2) as nat);
            assert("\""@ + "  +"@ =~= "\"  +"@);
            assert(two + "  +"@ + count + " more"@ =~= "     · \""@ + excerpt(prompts[0])
                + "\"  · \""@ + excerpt(prompts[1]) + ("\"  +"@ + count + " more"@));
        }
    }
}

/// The whole header holds what it should: a description that is not empty comes first, arguments
/// that are not empty come last, and nothing else stands beside the phases or the source.
pub proof fn header_has_description_and_arguments(
    blocks: Seq<HeaderBlock>,
    preview: WorkflowSourcePreview,
    mode: WorkflowPreviewMode,
)
    requires
        header_shows(blocks, preview, mode),
    ensures
        ({
            let described = preview.description is Some && sanitized(
                preview.description->Some_0@,
            ).len() > 0;
            let with_args = preview.consent is Some && preview.consent->Some_0.args is Some
                && preview.consent->Some_0.args->Some_0.text@.len() > 0;
            let args = preview.consent->Some_0.args->Some_0;
            let text = sanitized(preview.description->Some_0@);
            let first = if described { 1int } else { 0int };
            let last = if with_args { blocks.len() - 1 } else { blocks.len() as int };
            &&& 0 <= first < last
            &&& shows_body(blocks.subrange(first, last), preview, mode)
            &&& described ==> (blocks[0] matches HeaderBlock::Description { text: shown, gutter }
                && shown@ == text && (gutter <==> display_width(text) > 80 || exists|i: int|
                0 <= i < text.len() && text[i] == '\n'))
            &&& with_args ==> (blocks.last() matches HeaderBlock::Args { lines, gutter } && joined(
                texts(lines@),
                seq!['\n'],
            ) == args.text@ && (gutter <==> args.needs_gutter && !args.withheld))
        }),
{
    let (d, a) = choose|d: int, a: int| is_header(blocks, preview, mode, d, a);
    let described = preview.description is Some && sanitized(preview.description->Some_0@).len()
        > 0;
    let middle = blocks.subrange(d, a);
    assert(middle.len() > 0);
    if described {
        let text = sanitized(preview.description->Some_0@);
        assert(blocks.subrange(0, d)[0] == blocks[0]);
        reveal_strlit("\n");
        assert(has_part(text, "\n"@) <==> exists|i: int| 0 <= i < text.len() && text[i] == '\n')
            by {
            if has_part(text, "\n"@) {
                let i = choose|i: int|
                    0 <= i <= text.len() - "\n"@.len() && #[trigger] text.subrange(
                        i,
                        i + "\n"@.len(),
                    ) == "\n"@;
                assert(text.subrange(i, i + 1)[0] == text[i]);
            }
            if exists|i: int| 0 <= i < text.len() && text[i] == '\n' {
                let i = choose|i: int| 0 <= i < text.len() && text[i] == '\n';
                assert(text.subrange(i, i + "\n"@.len()) =~= "\n"@);
            }
        }
    }
    if a < blocks.len() {
        assert(blocks.subrange(a, blocks.len() as int)[0] == blocks.last());
        let args = preview.consent->Some_0.args->Some_0;
        pieces_join_back(args.text@, '\n');
    }
}

} // verus!
