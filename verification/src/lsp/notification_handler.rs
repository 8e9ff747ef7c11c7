use vstd::prelude::*;
use jsonrpsee_types::Notification;
use lsp_types::{DiagnosticSeverity, PublishDiagnosticsParams};
use vstd::string::StringExecFns;
use vstd::utf8::encode_utf8;
use crate::error::LspError;
use crate::logging::Verbosity;
use crate::text::{has_crlf, line_ending_len, line_start, lines, pred, read_line, texts};

verus! {

/// What is done with the notifications of the server.
#[derive(Debug, Clone, Copy, PartialEq, Eq, Structural)]
pub enum HandlerType {
    /// They are shown through the logger.
    Logger,
}

/// The byte offset in `text` that stands for the position `row`, `col`
/// (both counted from zero), every line ending being taken to have the
/// same length. A column behind the end of its line stands for the last
/// byte of the line, a row behind the last line for the end of the text;
/// and nothing lies behind the last byte of the text.
pub open spec fn byte_offset(text: Seq<u8>, row: nat, col: nat) -> nat {
    let all = lines(text);
    let ending = line_ending_len(text);
    let target = if row < all.len() {
        let start = line_start(all, row, ending);
        if col >= all[row as int].len() {
            pred(start + all[row as int].len())
        } else {
            start + col
        }
    } else {
        line_start(all, all.len(), ending)
    };
    if target <= pred(text.len()) {
        target
    } else {
        pred(text.len())
    }
}

/// Get byte offset of the given row and col in text. All values are
/// zero-indexed. What lies outside the text is brought back to its last
/// byte; the offset of anything in an empty text is 0.
pub fn compute_byte_offset(text: &str, row: usize, col: usize) -> (r: usize)
    ensures
        r == byte_offset(encode_utf8(text@), row as nat, col as nat),
        r <= pred(encode_utf8(text@).len()),
        row >= lines(encode_utf8(text@)).len() ==> r == pred(encode_utf8(text@).len()),
{
    let bytes = text.as_bytes();
    let n = bytes.len();
    if n == 0 {
        return 0;
    }
    let ending: u128 = if has_crlf(bytes) {
        2
    } else {
        1
    };
    let last: usize = n - 1;
    let ghost all = lines(bytes@);
    let mut p: usize = 0;
    let mut k: usize = 0;
    let mut acc: u128 = 0;
    assert(bytes@.skip(0) =~= bytes@);
    while p < n
        invariant
            0 < n == bytes@.len(),
            last == n - 1,
            p <= n,
            k <= p,
            k <= row,
            bytes@ == encode_utf8(text@),
            all == lines(bytes@),
            ending == line_ending_len(bytes@),
            k <= all.len(),
            lines(bytes@.skip(p as int)) == all.skip(k as int),
            acc == line_start(all, k as nat, ending as nat),
            p <= acc <= 3 * p,
        decreases n - p,
    {
        let span = read_line(bytes, p);
        proof {
            assert(lines(bytes@.skip(p as int)).len() >= 1);
            assert(all.skip(k as int)[0] == all[k as int]);
            assert(lines(bytes@.skip(p as int)).drop_first() =~= lines(
                bytes@.skip(span.next as int),
            ));
        }
        let len: u128 = span.len as u128;
        if k == row {
            let target: u128 = if col as u128 >= len {
                if acc + len == 0 {
                    0
                } else {
                    acc + len - 1
                }
            } else {
                acc + col as u128
            };
            return if target <= last as u128 {
                target as usize
            } else {
                last
            };
        }
        acc = acc + len + ending;
        p = span.next;
        k = k + 1;
    }
    if acc <= last as u128 {
        acc as usize
    } else {
        last
    }
}

/// How grave a diagnostic is, as the server says.
#[derive(Debug, Clone, Copy, PartialEq, Eq, Structural)]
pub enum Severity {
    Error,
    Warning,
    Information,
    Hint,
    /// A number that the protocol does not know.
    Other,
}

/// The kind of report that a diagnostic is shown as.
#[derive(Debug, Clone, Copy, PartialEq, Eq, Structural)]
pub enum ReportKind {
    Error,
    Warning,
    Advice,
}

/// A diagnostic as the server publishes it: a range in the document, given
/// by lines and characters counted from zero, and what is wrong there.
#[derive(Debug, Clone, PartialEq, Eq)]
pub struct Diagnostic {
    pub severity: Option<Severity>,
    pub start_line: u32,
    pub start_character: u32,
    pub end_line: u32,
    pub end_character: u32,
    pub message: String,
}

/// What a `Diagnostic` holds.
pub struct DiagnosticModel {
    pub severity: Option<Severity>,
    pub start_line: u32,
    pub start_character: u32,
    pub end_line: u32,
    pub end_character: u32,
    pub message: Seq<char>,
}

impl Diagnostic {
    pub open spec fn model(self) -> DiagnosticModel {
        DiagnosticModel {
            severity: self.severity,
            start_line: self.start_line,
            start_character: self.start_character,
            end_line: self.end_line,
            end_character: self.end_character,
            message: self.message@,
        }
    }
}

/// The models of `diagnostics`, in their order.
pub open spec fn models(diagnostics: Seq<Diagnostic>) -> Seq<DiagnosticModel> {
    Seq::new(diagnostics.len(), |i: int| diagnostics[i].model())
}

/// The diagnostics that the message body `body` publishes, or `None` where
/// it is not a `textDocument/publishDiagnostics` notification.
pub uninterp spec fn diagnostics_of(body: Seq<u8>) -> Option<Seq<DiagnosticModel>>;

/// `serde_json::from_slice` into a `jsonrpsee_types::Notification` with
/// `lsp_types::PublishDiagnosticsParams`, and of each diagnostic the
/// severity, the range and the message.
#[verifier::external_body]
fn parse_diagnostics(body: &[u8]) -> (r: Option<Vec<Diagnostic>>)
    ensures
        match diagnostics_of(body@) {
            Some(published) => r matches Some(found) && models(found@) == published,
            None => r is None,
        },
{
    let parsed = serde_json::from_slice::<Notification<PublishDiagnosticsParams>>(body).ok()?;
    let read = |d: lsp_types::Diagnostic| Diagnostic {
        severity: d.severity.map(|s| match s {
            DiagnosticSeverity::ERROR => Severity::Error,
            DiagnosticSeverity::WARNING => Severity::Warning,
            DiagnosticSeverity::INFORMATION => Severity::Information,
            DiagnosticSeverity::HINT => Severity::Hint,
            _ => Severity::Other,
        }),
        start_line: d.range.start.line, start_character: d.range.start.character,
        end_line: d.range.end.line, end_character: d.range.end.character,
        message: d.message,
    };
    Some(parsed.params.diagnostics.into_iter().map(read).collect())
}

/// The name under which the document is shown in a report.
pub open spec fn source_name() -> Seq<char> {
    "query"@
}

/// What the renderer makes of a report of the given kind about the
/// document `text`, shown under the name `source`, with one label from
/// `start` up to `end` that carries `message`: the text of the report, or
/// the reason why it cannot be written. The renderer hands its colours to
/// a painter that writes them or leaves them out for the whole process, as
/// the console of the machine allows; `styled` says which of the two it is.
pub uninterp spec fn rendering(
    source: Seq<char>,
    text: Seq<char>,
    kind: ReportKind,
    start: nat,
    end: nat,
    message: Seq<char>,
    styled: bool,
) -> Result<Seq<char>, Seq<char>>;

/// The texts that the outcome of a call holds.
pub open spec fn outcome_text(outcome: Result<String, String>) -> Result<Seq<char>, Seq<char>> {
    match outcome {
        Ok(report) => Ok(report@),
        Err(reason) => Err(reason@),
    }
}

/// `ariadne::Report::build` for the whole of `text`, with one
/// `ariadne::Label` from `start` up to `end` that carries `message`,
/// written by `Report::write` and read as UTF-8. The label refuses a span
/// that ends before it starts. The report is drawn from the arguments
/// alone, but for its colours: these go through `yansi`, which writes them
/// unless styling is off for the process or, on Windows, the console does
/// not take them. So the outcome is one of two renderings.
#[verifier::external_body]
fn render_report(
    source: &str,
    text: &str,
    kind: ReportKind,
    start: usize,
    end: usize,
    message: &str,
) -> (r: Result<String, String>)
    requires
        start <= end,
    ensures
        outcome_text(r) == rendering(
            source@,
            text@,
            kind,
            start as nat,
            end as nat,
            message@,
            true,
        ) || outcome_text(r) == rendering(
            source@,
            text@,
            kind,
            start as nat,
            end as nat,
            message@,
            false,
        ),
{
    let kind = match kind {
        ReportKind::Error => ariadne::ReportKind::Error,
        ReportKind::Warning => ariadne::ReportKind::Warning,
        ReportKind::Advice => ariadne::ReportKind::Advice,
    };
    let label = ariadne::Label::new((source, start..end)).with_message(message);
    let report = ariadne::Report::build(kind, (source, 0..text.len())).with_label(label).finish();
    let mut buffer = Vec::new();
    report.write((source, ariadne::Source::from(text)), &mut buffer).map_err(|e| e.to_string())?;
    String::from_utf8(buffer).map_err(|e| e.to_string())
}

/// The kind of report for a severity: an error is one, a hint is advice,
/// and everything else, a missing severity too, is a warning.
pub open spec fn report_kind(severity: Option<Severity>) -> ReportKind {
    match severity {
        Some(Severity::Error) => ReportKind::Error,
        Some(Severity::Hint) => ReportKind::Advice,
        _ => ReportKind::Warning,
    }
}

/// One report to draw: its kind, the bytes of the document that it points
/// at, and its message. The range never ends before it starts.
#[derive(Debug, Clone, PartialEq, Eq)]
pub struct ReportPlan {
    pub kind: ReportKind,
    pub start: usize,
    pub end: usize,
    pub message: String,
}

/// Where in `text` the report for `diagnostic` points: each end of the
/// range of the diagnostic as a byte offset, and an end that would lie
/// before the start brought up to the start.
pub open spec fn report_range(text: Seq<u8>, diagnostic: DiagnosticModel) -> (nat, nat) {
    let start = byte_offset(text, diagnostic.start_line as nat, diagnostic.start_character as nat);
    let end = byte_offset(text, diagnostic.end_line as nat, diagnostic.end_character as nat);
    (
        start,
        if end < start {
            start
        } else {
            end
        },
    )
}

/// Decides how `diagnostic` is shown for the document `text`.
pub fn plan_report(text: &str, diagnostic: &Diagnostic) -> (r: ReportPlan)
    ensures
        r.kind == report_kind(diagnostic.severity),
        (r.start as nat, r.end as nat) == report_range(encode_utf8(text@), diagnostic.model()),
        r.start <= r.end <= pred(encode_utf8(text@).len()),
        r.message@ == diagnostic.message@,
{
    let kind = match diagnostic.severity {
        Some(Severity::Error) => ReportKind::Error,
        Some(Severity::Hint) => ReportKind::Advice,
        _ => ReportKind::Warning,
    };
    let start = compute_byte_offset(
        text,
        diagnostic.start_line as usize,
        diagnostic.start_character as usize,
    );
    let end = compute_byte_offset(
        text,
        diagnostic.end_line as usize,
        diagnostic.end_character as usize,
    );
    let end = if end < start {
        start
    } else {
        end
    };
    ReportPlan { kind, start, end, message: diagnostic.message.clone() }
}

/// What drawing a report came to: the report as it was drawn, or the
/// reason why it could not be drawn as an error of its own kind.
pub fn drawn(outcome: Result<String, String>) -> (r: Result<String, LspError>)
    ensures
        match outcome {
            Ok(report) => r == Ok::<String, LspError>(report),
            Err(reason) => r == Err::<String, LspError>(LspError::Report(reason)),
        },
{
    match outcome {
        Ok(report) => Ok(report),
        Err(reason) => Err(LspError::Report(reason)),
    }
}

/// What the renderer makes of the report for a diagnostic against the
/// document `text`, with or without colours.
pub open spec fn drawing(text: Seq<char>, diagnostic: DiagnosticModel, styled: bool) -> Result<
    Seq<char>,
    Seq<char>,
> {
    rendering(
        source_name(),
        text,
        report_kind(diagnostic.severity),
        report_range(encode_utf8(text), diagnostic).0,
        report_range(encode_utf8(text), diagnostic).1,
        diagnostic.message,
        styled,
    )
}

/// Whether `r` passes `outcome` on: a report as it is, a reason as an error
/// that says that the report could not be drawn.
pub open spec fn passes_on(r: Result<String, LspError>, outcome: Result<Seq<char>, Seq<char>>) -> bool {
    match outcome {
        Ok(report) => r matches Ok(passed) && passed@ == report,
        Err(reason) => r matches Err(LspError::Report(passed)) && passed@ == reason,
    }
}

/// Draws the report for one diagnostic: what `plan_report` decides is
/// handed to the renderer, and what comes back is passed on by `drawn`.
/// It fails only if the report cannot be drawn.
pub fn format_diagnostic(text: &str, diagnostic: &Diagnostic) -> (r: Result<String, LspError>)
    ensures
        passes_on(r, drawing(text@, diagnostic.model(), true)) || passes_on(
            r,
            drawing(text@, diagnostic.model(), false),
        ),
{
    let plan = plan_report(text, diagnostic);
    drawn(render_report("query", text, plan.kind, plan.start, plan.end, plan.message.as_str()))
}

/// `parts` one after the other, with a line feed between each two.
pub open spec fn joined(parts: Seq<Seq<char>>) -> Seq<char>
    decreases parts.len(),
{
    if parts.len() == 0 {
        Seq::empty()
    } else if parts.len() == 1 {
        parts[0]
    } else {
        joined(parts.drop_last()) + "\n"@ + parts.last()
    }
}

/// Puts reports together, one under the other.
pub fn join_reports(reports: &Vec<String>) -> (r: String)
    ensures
        r@ == joined(texts(reports@)),
{
    let mut out = String::new();
    let mut i: usize = 0;
    while i < reports.len()
        invariant
            i <= reports@.len(),
            out@ == joined(texts(reports@).take(i as int)),
        decreases reports@.len() - i,
    {
        let ghost before = texts(reports@).take(i as int);
        let ghost now = texts(reports@).take(i + 1);
        assert(now.drop_last() =~= before);
        if i > 0 {
            out.append("\n");
        }
        out.append(reports[i].as_str());
        i += 1;
    }
    assert(texts(reports@).take(i as int) =~= texts(reports@));
    out
}

/// What drawing the reports for `diagnostics` in their order comes to,
/// `styled` saying of each whether its colours are written: the reports,
/// or the reason of the first that cannot be drawn.
pub open spec fn drawings(text: Seq<char>, diagnostics: Seq<DiagnosticModel>, styled: Seq<bool>) -> Result<
    Seq<Seq<char>>,
    Seq<char>,
>
    decreases diagnostics.len(),
{
    if diagnostics.len() == 0 {
        Ok(Seq::empty())
    } else {
        match drawings(text, diagnostics.drop_last(), styled.drop_last()) {
            Ok(before) => match drawing(text, diagnostics.last(), styled.last()) {
                Ok(report) => Ok(before.push(report)),
                Err(reason) => Err(reason),
            },
            Err(reason) => Err(reason),
        }
    }
}

/// The one report that the drawn reports make: one under the other.
pub open spec fn report_of(outcome: Result<Seq<Seq<char>>, Seq<char>>) -> Result<
    Seq<char>,
    Seq<char>,
> {
    match outcome {
        Ok(parts) => Ok(joined(parts)),
        Err(reason) => Err(reason),
    }
}

proof fn lemma_first_failure(
    text: Seq<char>,
    diagnostics: Seq<DiagnosticModel>,
    styled: Seq<bool>,
    upto: int,
)
    requires
        0 <= upto <= diagnostics.len() == styled.len(),
        drawings(text, diagnostics.take(upto), styled.take(upto)) is Err,
    ensures
        drawings(text, diagnostics, styled) == drawings(
            text,
            diagnostics.take(upto),
            styled.take(upto),
        ),
    decreases diagnostics.len() - upto,
{
    if upto == diagnostics.len() {
        assert(diagnostics.take(upto) =~= diagnostics);
        assert(styled.take(upto) =~= styled);
    } else {
        assert(diagnostics.drop_last().take(upto) =~= diagnostics.take(upto));
        assert(styled.drop_last().take(upto) =~= styled.take(upto));
        lemma_first_failure(text, diagnostics.drop_last(), styled.drop_last(), upto);
    }
}

/// Draws the reports for all of `diagnostics` against the document `text`,
/// one under the other in their order. Without diagnostics the report is
/// empty. The first report that cannot be drawn ends it with its failure.
pub fn handle_diagnostics(text: &str, diagnostics: &Vec<Diagnostic>) -> (r: Result<
    String,
    LspError,
>)
    ensures
        exists|styled: Seq<bool>|
            styled.len() == diagnostics@.len() && passes_on(
                r,
                report_of(#[trigger] drawings(text@, models(diagnostics@), styled)),
            ),
{
    let ghost all = models(diagnostics@);
    let ghost mut styled: Seq<bool> = Seq::empty();
    let mut reports: Vec<String> = Vec::new();
    let mut i: usize = 0;
    assert(all.take(0) =~= Seq::<DiagnosticModel>::empty());
    assert(texts(reports@) =~= Seq::<Seq<char>>::empty());
    while i < diagnostics.len()
        invariant
            i <= diagnostics@.len(),
            all == models(diagnostics@),
            styled.len() == i,
            reports@.len() == i,
            drawings(text@, all.take(i as int), styled) == Ok::<Seq<Seq<char>>, Seq<char>>(
                texts(reports@),
            ),
        decreases diagnostics@.len() - i,
    {
        let drawn = format_diagnostic(text, &diagnostics[i]);
        let ghost model = diagnostics@[i as int].model();
        let ghost with_colours = passes_on(drawn, drawing(text@, model, true));
        let ghost next = styled.push(with_colours);
        proof {
            assert(all[i as int] == model);
            assert(all.take(i + 1).drop_last() =~= all.take(i as int));
            assert(all.take(i + 1).last() == model);
            assert(next.drop_last() =~= styled);
            assert(passes_on(drawn, drawing(text@, model, with_colours)));
        }
        match drawn {
            Ok(report) => {
                let ghost before = texts(reports@);
                reports.push(report);
                proof {
                    assert(texts(reports@) =~= before.push(report@));
                    styled = next;
                }
            },
            Err(e) => {
                proof {
                    let rest = Seq::new((diagnostics@.len() - i - 1) as nat, |k: int| false);
                    let whole = next + rest;
                    assert(whole.take(i + 1) =~= next);
                    lemma_first_failure(text@, all, whole, i + 1);
                    assert(passes_on(Err(e), report_of(drawings(text@, all, whole))));
                }
                return Err(e);
            },
        }
        i += 1;
    }
    let report = join_reports(&reports);
    proof {
        assert(all.take(i as int) =~= all);
        assert(passes_on(Ok(report), report_of(drawings(text@, all, styled))));
    }
    Ok(report)
}

/// What is done about one notification of the server.
#[derive(Debug, Clone, PartialEq, Eq)]
pub enum RouterAction {
    /// Show the report to the user.
    Show(String),
    /// The notification is understood and there is nothing to show.
    Nothing,
    /// The notification is of a kind that is not handled: log its body,
    /// behind the given words, and go on.
    Unsupported(Verbosity, String, Vec<u8>),
    /// The report could not be drawn.
    Fail(LspError),
}

/// What is done about the outcome of drawing the reports of a
/// notification: a report that is not empty is shown.
pub fn show_report(drawn: Result<String, LspError>) -> (r: RouterAction)
    ensures
        match drawn {
            Ok(report) => if report@.len() == 0 {
                r == RouterAction::Nothing
            } else {
                r == RouterAction::Show(report)
            },
            Err(e) => r == RouterAction::Fail(e),
        },
{
    match drawn {
        Ok(report) => {
            if report.as_str().is_empty() {
                RouterAction::Nothing
            } else {
                RouterAction::Show(report)
            }
        },
        Err(e) => RouterAction::Fail(e),
    }
}

/// Whether `r` is what is done about the outcome of drawing the reports of
/// a notification: the report is shown unless it is empty, and a failure
/// is passed on.
pub open spec fn shows(r: RouterAction, outcome: Result<Seq<char>, Seq<char>>) -> bool {
    match outcome {
        Ok(report) => if report.len() == 0 {
            r == RouterAction::Nothing
        } else {
            r matches RouterAction::Show(shown) && shown@ == report
        },
        Err(reason) => r matches RouterAction::Fail(LspError::Report(passed)) && passed@
            == reason,
    }
}

/// Takes one notification of the server, the document being `text`.
/// Published diagnostics are drawn, one report under the other, and shown
/// unless there is nothing to show; any other notification is logged at
/// low urgency and passed over.
pub fn route_notification(text: &str, body: Vec<u8>) -> (r: RouterAction)
    ensures
        match diagnostics_of(body@) {
            Some(published) => exists|styled: Seq<bool>|
                styled.len() == published.len() && shows(
                    r,
                    report_of(#[trigger] drawings(text@, published, styled)),
                ),
            None => r matches RouterAction::Unsupported(level, words, logged) && level
                == Verbosity::Debug && words@ == "unsupported notification: "@ && logged == body,
        },
{
    match parse_diagnostics(body.as_slice()) {
        Some(diagnostics) => {
            let drawn = handle_diagnostics(text, &diagnostics);
            let action = show_report(drawn);
            proof {
                let published = models(diagnostics@);
                let styled = choose|styled: Seq<bool>|
                    styled.len() == diagnostics@.len() && passes_on(
                        drawn,
                        report_of(#[trigger] drawings(text@, published, styled)),
                    );
                assert(shows(action, report_of(drawings(text@, published, styled))));
            }
            action
        },
        None => RouterAction::Unsupported(
            Verbosity::Debug,
            String::from_str("unsupported notification: "),
            body,
        ),
    }
}

} // verus!
