use genpdf::fonts::{FontData, FontFamily};
use report_card::grade::generate_report_card;
use report_card::render::{
    compose, first_available, font_candidates, render, render_with_first, rendered, Block,
    RenderError,
};

fn text_of(block: &Block) -> String {
    match block {
        Block::Heading(t) => format!("H:{}", t),
        Block::Break(n) => format!("B:{}", n),
        Block::Paragraph(t) => format!("P:{}", t),
    }
}

fn dejavu() -> Option<FontFamily<FontData>> {
    let dir = "/usr/share/fonts/truetype/dejavu/";
    let load = |name: &str| FontData::load(format!("{}{}", dir, name), None).ok();
    Some(FontFamily {
        regular: load("DejaVuSans.ttf")?,
        bold: load("DejaVuSans-Bold.ttf")?,
        italic: load("DejaVuSans-Oblique.ttf")?,
        bold_italic: load("DejaVuSans-BoldOblique.ttf")?,
    })
}

#[test]
fn layout_of_a_report_card() {
    let card = generate_report_card("Asha Rao".to_string(), 450, 500, 5);
    let layout = compose(&card);
    assert_eq!(layout.title, "Student Report Card");
    let blocks: Vec<String> = layout.blocks.iter().map(text_of).collect();
    assert_eq!(
        blocks,
        vec![
            "H:Student Report Card",
            "B:1",
            "P:Name: Asha Rao",
            "P:Total Marks: 450",
            "P:Number of Subjects: 5",
            "P:Average: 90.00",
            "P:Grade: A",
        ]
    );
}

#[test]
fn layout_with_a_zero_maximum() {
    let card = generate_report_card("".to_string(), 7, 0, 0);
    let blocks: Vec<String> = compose(&card).blocks.iter().map(text_of).collect();
    assert_eq!(blocks[2], "P:Name: ");
    assert_eq!(blocks[3], "P:Total Marks: 7");
    assert_eq!(blocks[4], "P:Number of Subjects: 0");
    assert_eq!(blocks[5], "P:Average: 0.00");
    assert_eq!(blocks[6], "P:Grade: D");
}

#[test]
fn the_same_card_gives_the_same_layout() {
    let a = compose(&generate_report_card("Asha Rao".to_string(), 333, 500, 5));
    let b = compose(&generate_report_card("Asha Rao".to_string(), 333, 500, 5));
    assert_eq!(a.title, b.title);
    let a: Vec<String> = a.blocks.iter().map(text_of).collect();
    let b: Vec<String> = b.blocks.iter().map(text_of).collect();
    assert_eq!(a, b);
    assert_eq!(a[5], "P:Average: 66.60");
}

#[test]
fn candidates_in_order() {
    assert_eq!(font_candidates(), vec!["LiberationSans".to_string(), "DejaVuSans".to_string()]);
}

#[test]
fn the_first_loaded_candidate_is_taken() {
    assert_eq!(first_available(vec![Some(1), Some(2)]), Ok(1));
    assert_eq!(first_available(vec![None, Some(2)]), Ok(2));
    assert_eq!(first_available(vec![None, Some(2), Some(3)]), Ok(2));
}

#[test]
fn no_candidate_is_no_font() {
    assert_eq!(first_available::<u8>(vec![None, None]), Err(RenderError::FontUnavailable));
    assert_eq!(first_available::<u8>(vec![]), Err(RenderError::FontUnavailable));
}

#[test]
fn outcome_of_the_typesetter() {
    let d = rendered("T".to_string(), Ok(vec![1, 2, 3])).unwrap();
    assert_eq!(d.bytes, vec![1, 2, 3]);
    assert_eq!(d.title, "T");
    assert_eq!(rendered("T".to_string(), Err(true)).unwrap_err(), RenderError::FontUnavailable);
    assert_eq!(rendered("T".to_string(), Err(false)).unwrap_err(), RenderError::LayoutFailure);
}

#[test]
fn a_report_card_renders_to_a_pdf() {
    let font = match dejavu() {
        Some(font) => font,
        None => return,
    };
    let card = generate_report_card("Asha Rao".to_string(), 450, 500, 5);
    let document = render(&card, font).unwrap();
    assert_eq!(document.title, "Student Report Card");
    assert!(document.bytes.starts_with(b"%PDF"));
    assert!(document.bytes.len() > 1000);
    let title = b"Student Report Card";
    assert!(document.bytes.windows(title.len()).any(|w| w == title));
}

#[test]
fn without_a_font_nothing_is_rendered() {
    let card = generate_report_card("Asha Rao".to_string(), 450, 500, 5);
    assert_eq!(render_with_first(&card, vec![None, None]).unwrap_err(), RenderError::FontUnavailable);
    assert_eq!(render_with_first(&card, vec![]).unwrap_err(), RenderError::FontUnavailable);
}

#[test]
fn the_fallback_font_is_used() {
    let font = match dejavu() {
        Some(font) => font,
        None => return,
    };
    let card = generate_report_card("Asha Rao".to_string(), 450, 500, 5);
    let document = render_with_first(&card, vec![None, Some(font)]).unwrap();
    assert_eq!(document.title, "Student Report Card");
    assert!(document.bytes.starts_with(b"%PDF"));
}
