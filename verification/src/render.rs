//! The document renderer: the layout of a report card, and its rendering
//! as a PDF document by `genpdf`.
//!
//! The layout is the library's own: a title and a column of blocks. `genpdf`
//! typesets it with a font family that the caller has loaded.

use vstd::prelude::*;
use vstd::string::*;
use crate::grade::ReportCard;
use crate::text::{decimal, decimal_string, format_percentage, hundredths_of, two_decimals};

verus! {

/// Why no document was rendered.
#[derive(Clone, Copy, Debug, PartialEq, Eq, Structural)]
pub enum RenderError {
    /// No candidate font family could be loaded, or the one given is not
    /// usable.
    FontUnavailable,
    /// The layout engine failed.
    LayoutFailure,
}

/// One block of a layout.
#[derive(Debug)]
pub enum Block {
    /// A centered line in bold.
    Heading(String),
    /// A number of empty lines.
    Break(u8),
    /// A line of plain text.
    Paragraph(String),
}

/// A block as a mathematical value.
pub enum BlockView {
    Heading(Seq<char>),
    Break(nat),
    Paragraph(Seq<char>),
}

impl View for Block {
    type V = BlockView;

    open spec fn view(&self) -> BlockView {
        match self {
            Block::Heading(text) => BlockView::Heading(text@),
            Block::Break(lines) => BlockView::Break(*lines as nat),
            Block::Paragraph(text) => BlockView::Paragraph(text@),
        }
    }
}

/// A document before it is typeset.
#[derive(Debug)]
pub struct Layout {
    pub title: String,
    pub blocks: Vec<Block>,
}

/// A rendered document: its bytes and its logical title.
#[derive(Debug)]
pub struct RenderedDocument {
    pub bytes: Vec<u8>,
    pub title: String,
}

/// The blocks as mathematical values, in order.
pub open spec fn block_views(blocks: Seq<Block>) -> Seq<BlockView> {
    blocks.map_values(|b: Block| b@)
}

/// The title of every report card.
pub open spec fn title_text() -> Seq<char> {
    "Student Report Card"@
}

/// The five labeled lines of a report card, in order: name, total marks,
/// number of subjects, average with two decimal places, grade.
pub open spec fn report_lines(report: ReportCard) -> Seq<Seq<char>> {
    seq![
        "Name: "@ + report.name@,
        "Total Marks: "@ + decimal(report.total_marks as nat),
        "Number of Subjects: "@ + decimal(report.num_subjects as nat),
        "Average: "@ + two_decimals(hundredths_of(report.average)),
        "Grade: "@ + report.grade.letter(),
    ]
}

/// The blocks of a report card: the title as heading, one empty line, then
/// the five labeled lines.
pub open spec fn report_blocks(report: ReportCard) -> Seq<BlockView> {
    seq![BlockView::Heading(title_text()), BlockView::Break(1)] + report_lines(report).map_values(
        |line: Seq<char>| BlockView::Paragraph(line),
    )
}

/// The margin, in millimetres, on each side of the page.
pub open spec fn page_margin() -> nat {
    10
}

/// The font families to try, in order.
pub fn font_candidates() -> (names: Vec<String>)
    ensures
        names@.len() == 2,
        names@[0]@ == "LiberationSans"@,
        names@[1]@ == "DejaVuSans"@,
{
    let mut names: Vec<String> = Vec::new();
    names.push(String::from_str("LiberationSans"));
    names.push(String::from_str("DejaVuSans"));
    names
}

/// The first candidate that could be loaded. `attempts` holds, for each
/// candidate in order, what loading it gave. Where none was loaded, no font
/// is available.
pub fn first_available<T>(attempts: Vec<Option<T>>) -> (r: Result<T, RenderError>)
    ensures
        match r {
            Ok(found) => exists|i: int|
                {
                    &&& 0 <= i < attempts@.len()
                    &&& attempts@[i] == Some(found)
                    &&& forall|j: int| 0 <= j < i ==> attempts@[j].is_none()
                },
            Err(e) => {
                &&& e == RenderError::FontUnavailable
                &&& forall|j: int| 0 <= j < attempts@.len() ==> attempts@[j].is_none()
            },
        },
{
    let mut rest = attempts;
    let mut i: usize = 0;
    while i < rest.len()
        invariant
            rest@ == attempts@,
            i <= rest@.len(),
            forall|j: int| 0 <= j < i ==> attempts@[j].is_none(),
        decreases rest@.len() - i,
    {
        if rest[i].is_some() {
            let found = rest.remove(i);
            return Ok(found.unwrap());
        }
        i = i + 1;
    }
    Err(RenderError::FontUnavailable)
}

/// A label followed by a value.
fn labeled(label: &str, value: &str) -> (line: String)
    ensures
        line@ == label@ + value@,
{
    let mut line = String::from_str(label);
    line.append(value);
    line
}

/// The layout of a report card.
pub fn compose(report: &ReportCard) -> (layout: Layout)
    ensures
        layout.title@ == title_text(),
        block_views(layout.blocks@) == report_blocks(*report),
{
    let total = decimal_string(report.total_marks);
    let subjects = decimal_string(report.num_subjects);
    let average = format_percentage(&report.average);
    let mut blocks: Vec<Block> = Vec::new();
    blocks.push(Block::Heading(String::from_str("Student Report Card")));
    blocks.push(Block::Break(1));
    blocks.push(Block::Paragraph(labeled("Name: ", report.name.as_str())));
    blocks.push(Block::Paragraph(labeled("Total Marks: ", total.as_str())));
    blocks.push(Block::Paragraph(labeled("Number of Subjects: ", subjects.as_str())));
    blocks.push(Block::Paragraph(labeled("Average: ", average.as_str())));
    blocks.push(Block::Paragraph(labeled("Grade: ", report.grade.as_str())));
    assert(block_views(blocks@) =~= report_blocks(*report));
    Layout { title: String::from_str("Student Report Card"), blocks }
}

#[verifier::external_type_specification]
#[verifier::external_body]
pub struct ExDocument(genpdf::Document);

#[verifier::external_type_specification]
#[verifier::external_body]
#[verifier::reject_recursive_types(T)]
pub struct ExFontFamily<T: Clone + core::fmt::Debug>(genpdf::fonts::FontFamily<T>);

#[verifier::external_type_specification]
#[verifier::external_body]
pub struct ExFontData(genpdf::fonts::FontData);

#[verifier::external_type_specification]
#[verifier::external_body]
pub struct ExTypesetError(genpdf::error::Error);

/// The title that a `genpdf` document was given.
pub uninterp spec fn document_title(doc: genpdf::Document) -> Seq<char>;

/// The elements that were pushed to a `genpdf` document, in order.
pub uninterp spec fn document_blocks(doc: genpdf::Document) -> Seq<BlockView>;

/// The margin, in millimetres, that a `genpdf` document's page decorator
/// leaves on each side; `None` where the document has no decorator.
pub uninterp spec fn document_margin(doc: genpdf::Document) -> Option<nat>;

/// `genpdf::Document::new`: a document with an empty title, no element and
/// no page decorator.
#[verifier::external_body]
fn new_document(font: genpdf::fonts::FontFamily<genpdf::fonts::FontData>) -> (doc: genpdf::Document)
    ensures
        document_title(doc) == Seq::<char>::empty(),
        document_blocks(doc) == Seq::<BlockView>::empty(),
        document_margin(doc).is_none(),
{
    genpdf::Document::new(font)
}

/// `genpdf::Document::set_title`: replaces the title and nothing else.
#[verifier::external_body]
fn set_title(doc: &mut genpdf::Document, title: &str)
    ensures
        document_title(*final(doc)) == title@,
        document_blocks(*final(doc)) == document_blocks(*old(doc)),
        document_margin(*final(doc)) == document_margin(*old(doc)),
{
    doc.set_title(title);
}

/// `genpdf::Document::set_page_decorator` with a
/// `genpdf::SimplePageDecorator` that only sets the same margin on all four
/// sides: replaces the decorator and nothing else.
#[verifier::external_body]
fn set_margins(doc: &mut genpdf::Document, margin: u8)
    ensures
        document_margin(*final(doc)) == Some(margin as nat),
        document_title(*final(doc)) == document_title(*old(doc)),
        document_blocks(*final(doc)) == document_blocks(*old(doc)),
{
    let mut decorator = genpdf::SimplePageDecorator::new();
    decorator.set_margins(margin);
    doc.set_page_decorator(decorator);
}

/// `genpdf::Document::push` with a centered `Paragraph` in bold: appends
/// the element after those that the document holds.
#[verifier::external_body]
fn push_heading(doc: &mut genpdf::Document, text: &str)
    ensures
        document_blocks(*final(doc)) == document_blocks(*old(doc)).push(BlockView::Heading(text@)),
        document_title(*final(doc)) == document_title(*old(doc)),
        document_margin(*final(doc)) == document_margin(*old(doc)),
{
    let paragraph = genpdf::elements::Paragraph::new(text).aligned(genpdf::Alignment::Center);
    doc.push(genpdf::Element::styled(paragraph, genpdf::style::Style::new().bold()));
}

/// `genpdf::Document::push` with a `Break` of `lines` lines: appends the
/// element after those that the document holds.
#[verifier::external_body]
fn push_break(doc: &mut genpdf::Document, lines: u8)
    ensures
        document_blocks(*final(doc)) == document_blocks(*old(doc)).push(
            BlockView::Break(lines as nat),
        ),
        document_title(*final(doc)) == document_title(*old(doc)),
        document_margin(*final(doc)) == document_margin(*old(doc)),
{
    doc.push(genpdf::elements::Break::new(lines));
}

/// `genpdf::Document::push` with a plain `Paragraph`: appends the element
/// after those that the document holds.
#[verifier::external_body]
fn push_paragraph(doc: &mut genpdf::Document, text: &str)
    ensures
        document_blocks(*final(doc)) == document_blocks(*old(doc)).push(
            BlockView::Paragraph(text@),
        ),
        document_title(*final(doc)) == document_title(*old(doc)),
        document_margin(*final(doc)) == document_margin(*old(doc)),
{
    doc.push(genpdf::elements::Paragraph::new(text));
}

/// `genpdf::Document::render` into a vector of bytes. The bytes hold the
/// time of rendering and identifiers drawn at random, so nothing is claimed
/// of them.
#[verifier::external_body]
fn typeset(doc: genpdf::Document) -> (r: Result<Vec<u8>, genpdf::error::Error>) {
    let mut bytes: Vec<u8> = Vec::new();
    match doc.render(&mut bytes) {
        Ok(()) => Ok(bytes),
        Err(e) => Err(e),
    }
}

/// `genpdf::error::Error::kind`: whether the error is of the kind
/// `InvalidFont`.
#[verifier::external_body]
fn is_font_fault(error: &genpdf::error::Error) -> (r: bool) {
    match error.kind() {
        genpdf::error::ErrorKind::InvalidFont => true,
        _ => false,
    }
}

/// The `genpdf` document of a layout: its title, its blocks in order, and
/// the page margin.
pub fn build_document(
    font: genpdf::fonts::FontFamily<genpdf::fonts::FontData>,
    layout: &Layout,
) -> (doc: genpdf::Document)
    ensures
        document_title(doc) == layout.title@,
        document_blocks(doc) == block_views(layout.blocks@),
        document_margin(doc) == Some(page_margin()),
{
    let mut doc = new_document(font);
    set_title(&mut doc, layout.title.as_str());
    set_margins(&mut doc, 10);
    let n: usize = layout.blocks.len();
    let mut i: usize = 0;
    while i < n
        invariant
            n == layout.blocks@.len(),
            i <= n,
            document_title(doc) == layout.title@,
            document_margin(doc) == Some(page_margin()),
            document_blocks(doc) == block_views(layout.blocks@).take(i as int),
        decreases n - i,
    {
        let ghost before = document_blocks(doc);
        match &layout.blocks[i] {
            Block::Heading(text) => push_heading(&mut doc, text.as_str()),
            Block::Break(lines) => push_break(&mut doc, *lines),
            Block::Paragraph(text) => push_paragraph(&mut doc, text.as_str()),
        }
        i = i + 1;
        assert(document_blocks(doc) =~= block_views(layout.blocks@).take(i as int));
    }
    assert(block_views(layout.blocks@).take(n as int) =~= block_views(layout.blocks@));
    doc
}

/// What a rendering gives, from what the typesetter gave: the bytes under
/// the title, or the error. `Err(true)` is a fault of the font, `Err(false)`
/// any other fault of the layout engine.
pub fn rendered(title: String, outcome: Result<Vec<u8>, bool>) -> (r: Result<
    RenderedDocument,
    RenderError,
>)
    ensures
        match outcome {
            Ok(bytes) => r.is_ok() && r.unwrap().bytes == bytes && r.unwrap().title == title,
            Err(font_fault) => r.is_err() && r.unwrap_err() == (if font_fault {
                RenderError::FontUnavailable
            } else {
                RenderError::LayoutFailure
            }),
        },
{
    match outcome {
        Ok(bytes) => Ok(RenderedDocument { bytes, title }),
        Err(true) => Err(RenderError::FontUnavailable),
        Err(false) => Err(RenderError::LayoutFailure),
    }
}

/// Renders a report card with the given font family.
///
/// What the typesetter makes of the layout is its own affair; a document that
/// comes back carries the title of every report card.
pub fn render(
    report: &ReportCard,
    font: genpdf::fonts::FontFamily<genpdf::fonts::FontData>,
) -> (r: Result<RenderedDocument, RenderError>)
    ensures
        r.is_ok() ==> r.unwrap().title@ == title_text(),
{
    let layout = compose(report);
    let doc = build_document(font, &layout);
    let outcome = match typeset(doc) {
        Ok(bytes) => Ok(bytes),
        Err(e) => Err(is_font_fault(&e)),
    };
    rendered(layout.title, outcome)
}

/// Renders a report card with the first font family that could be loaded.
/// `attempts` holds, for each candidate in order, what loading it gave.
/// Where none was loaded the rendering fails for want of a font, and the
/// typesetter is not called.
pub fn render_with_first(
    report: &ReportCard,
    attempts: Vec<Option<genpdf::fonts::FontFamily<genpdf::fonts::FontData>>>,
) -> (r: Result<RenderedDocument, RenderError>)
    ensures
        (forall|j: int| 0 <= j < attempts@.len() ==> attempts@[j].is_none()) ==> r.is_err()
            && r.unwrap_err() == RenderError::FontUnavailable,
        r.is_ok() ==> r.unwrap().title@ == title_text(),
{
    match first_available(attempts) {
        Ok(font) => render(report, font),
        Err(e) => Err(e),
    }
}

/// Two report cards that hold the same values have the same layout: the
/// blocks depend on nothing else.
pub proof fn lemma_layout_depends_on_values(a: ReportCard, b: ReportCard)
    requires
        a.name@ == b.name@,
        a.total_marks == b.total_marks,
        a.num_subjects == b.num_subjects,
        a.average == b.average,
        a.grade == b.grade,
    ensures
        report_lines(a) == report_lines(b),
        report_blocks(a) == report_blocks(b),
{
    assert(report_lines(a) =~= report_lines(b));
}

} // verus!
