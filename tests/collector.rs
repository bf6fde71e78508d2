use panicpoint::collector::{OutlineCollector, Prompt, Stage};
use panicpoint::model::SlideContent;

fn feed(c: &mut OutlineCollector, lines: &[&str]) -> Vec<Prompt> {
    lines.iter().map(|l| c.step(l)).collect()
}

#[test]
fn collects_paragraph_and_bullets() {
    let mut c = OutlineCollector::new();
    let prompts = feed(
        &mut c,
        &["", "Demo", "", "Intro", "2", "", "First point", "Second point", "", "More", "1", "line one", "line two", "", ""],
    );
    assert!(prompts == vec![
        Prompt::TitleRequired,
        Prompt::AskSlideTitle(1),
        Prompt::SlideRequired,
        Prompt::AskContentKind,
        Prompt::AskBullet,
        Prompt::BulletRequired,
        Prompt::BulletTaken,
        Prompt::BulletTaken,
        Prompt::SlideAdded(1),
        Prompt::AskContentKind,
        Prompt::AskParagraph,
        Prompt::ParagraphLineTaken,
        Prompt::ParagraphLineTaken,
        Prompt::SlideAdded(2),
        Prompt::Finished,
    ]);
    assert!(c.stage() == Stage::Done);
    let outline = c.into_outline().expect("complete");
    assert_eq!(outline.title, "Demo");
    assert_eq!(outline.slides.len(), 2);
    assert_eq!(outline.slides[0].title, "Intro");
    match &outline.slides[0].content {
        SlideContent::Bullets(b) => assert_eq!(b, &vec!["First point".to_string(), "Second point".to_string()]),
        SlideContent::Paragraph(_) => panic!("expected bullets"),
    }
    match &outline.slides[1].content {
        SlideContent::Paragraph(t) => assert_eq!(t, "line one\nline two"),
        SlideContent::Bullets(_) => panic!("expected a paragraph"),
    }
}

#[test]
fn invalid_choice_drops_the_slide() {
    let mut c = OutlineCollector::new();
    let prompts = feed(&mut c, &["T", "First", "3", "Second", "1", "", "text", "", ""]);
    assert!(prompts == vec![
        Prompt::AskSlideTitle(1),
        Prompt::AskContentKind,
        Prompt::InvalidChoice(1),
        Prompt::AskContentKind,
        Prompt::AskParagraph,
        Prompt::ParagraphRequired,
        Prompt::ParagraphLineTaken,
        Prompt::SlideAdded(1),
        Prompt::Finished,
    ]);
    let outline = c.into_outline().expect("complete");
    assert_eq!(outline.slides.len(), 1);
    assert_eq!(outline.slides[0].title, "Second");
}

#[test]
fn unfinished_outline_is_not_handed_out() {
    let mut c = OutlineCollector::new();
    feed(&mut c, &["T", "S", "2", "a"]);
    assert!(c.stage() == Stage::BulletLines);
    assert!(c.into_outline().is_none());
}
