//! The decisions of collecting an outline line by line: what each line of
//! input does to the outline being gathered, and what to ask next. Reading
//! lines and showing prompts is left to the caller.
use vstd::prelude::*;
use crate::model::{
    ContentModel, PresentationInput, PresentationModel, SlideContent, SlideInput, SlideModel,
    MAX_SLIDES,
};
use crate::text::push_char;

verus! {

/// What the collector waits for.
#[derive(Clone, Copy, PartialEq, Eq, Structural)]
pub enum Stage {
    DocumentTitle,
    SlideTitle,
    ContentKind,
    ParagraphText,
    BulletLines,
    Done,
}

/// What the caller shows before reading the next line.
#[derive(Clone, Copy, PartialEq, Eq, Structural)]
pub enum Prompt {
    /// The title was blank: ask for it again.
    TitleRequired,
    /// Ask for the title of the slide with this number.
    AskSlideTitle(usize),
    /// A blank slide title before any slide: one is needed; ask again.
    SlideRequired,
    /// Ask whether the slide holds a paragraph (`1`) or bullets (`2`).
    AskContentKind,
    /// Neither `1` nor `2`: the slide is dropped; ask again for the title of
    /// the slide with this number.
    InvalidChoice(usize),
    /// Ask for the paragraph's lines.
    AskParagraph,
    /// A blank line before any paragraph text: ask again.
    ParagraphRequired,
    /// A paragraph line was taken: read the next one.
    ParagraphLineTaken,
    /// Ask for the first bullet.
    AskBullet,
    /// A blank line before any bullet: ask again.
    BulletRequired,
    /// A bullet was taken: ask for the next one.
    BulletTaken,
    /// The slide is complete; this many slides are collected.
    SlideAdded(usize),
    /// The outline is complete.
    Finished,
}

/// Gathers an outline from lines of input, each with its surrounding
/// whitespace removed.
pub struct OutlineCollector {
    stage: Stage,
    title: String,
    slides: Vec<SlideInput>,
    slide_title: String,
    lines: Vec<String>,
}

/// The mathematical value of an [`OutlineCollector`].
pub struct CollectorModel {
    pub stage: Stage,
    pub title: Seq<char>,
    pub slides: Seq<SlideModel>,
    pub slide_title: Seq<char>,
    pub lines: Seq<Seq<char>>,
}

impl View for OutlineCollector {
    type V = CollectorModel;

    closed spec fn view(&self) -> CollectorModel {
        CollectorModel {
            stage: self.stage,
            title: self.title@,
            slides: self.slides@.map_values(|s: SlideInput| s@),
            slide_title: self.slide_title@,
            lines: self.lines@.map_values(|s: String| s@),
        }
    }
}

/// Paragraph lines joined by line breaks.
pub open spec fn join_lines(lines: Seq<Seq<char>>) -> Seq<char>
    decreases lines.len(),
{
    if lines.len() == 0 {
        Seq::empty()
    } else if lines.len() == 1 {
        lines[0]
    } else {
        join_lines(lines.drop_last()) + seq!['\n'] + lines.last()
    }
}

impl CollectorModel {
    /// What holds in every reachable state: the title is set once asked
    /// for, the slides gathered are well formed, hold text and are within
    /// bounds, the slide being gathered has a title and only non-blank lines,
    /// and a finished outline has at least one slide.
    pub open spec fn inv(self) -> bool {
        &&& (self.stage == Stage::ContentKind || self.stage == Stage::ParagraphText || self.stage
            == Stage::BulletLines) ==> self.slide_title.len() >= 1
        &&& forall|k: int| 0 <= k < self.lines.len() ==> (#[trigger] self.lines[k]).len() >= 1
        &&& forall|i: int| 0 <= i < self.slides.len() ==> (#[trigger] self.slides[i]).texts_present()
        &&& self.stage != Stage::DocumentTitle ==> self.title.len() >= 1
        &&& self.slides.len() <= MAX_SLIDES
        &&& self.stage != Stage::Done ==> self.slides.len() < MAX_SLIDES
        &&& self.stage == Stage::Done ==> self.slides.len() >= 1
        &&& forall|i: int|
            0 <= i < self.slides.len() ==> (#[trigger] self.slides[i]).content.wf()
    }

    /// The state after a slide with content `c` is complete.
    pub open spec fn complete_slide(self, c: ContentModel) -> (CollectorModel, Prompt) {
        let slides = self.slides.push(SlideModel { title: self.slide_title, content: c });
        (
            CollectorModel {
                stage: if slides.len() >= MAX_SLIDES { Stage::Done } else { Stage::SlideTitle },
                slides,
                slide_title: Seq::empty(),
                lines: Seq::empty(),
                ..self
            },
            Prompt::SlideAdded(slides.len() as usize),
        )
    }

    /// The state after one more line of input, and what to ask next.
    pub open spec fn next(self, line: Seq<char>) -> (CollectorModel, Prompt) {
        match self.stage {
            Stage::DocumentTitle => if line.len() == 0 {
                (self, Prompt::TitleRequired)
            } else {
                (
                    CollectorModel { stage: Stage::SlideTitle, title: line, ..self },
                    Prompt::AskSlideTitle(1),
                )
            },
            Stage::SlideTitle => if line.len() == 0 {
                if self.slides.len() == 0 {
                    (self, Prompt::SlideRequired)
                } else {
                    (CollectorModel { stage: Stage::Done, ..self }, Prompt::Finished)
                }
            } else {
                (
                    CollectorModel { stage: Stage::ContentKind, slide_title: line, ..self },
                    Prompt::AskContentKind,
                )
            },
            Stage::ContentKind => if line == seq!['1'] {
                (
                    CollectorModel { stage: Stage::ParagraphText, lines: Seq::empty(), ..self },
                    Prompt::AskParagraph,
                )
            } else if line == seq!['2'] {
                (
                    CollectorModel { stage: Stage::BulletLines, lines: Seq::empty(), ..self },
                    Prompt::AskBullet,
                )
            } else {
                (
                    CollectorModel { stage: Stage::SlideTitle, slide_title: Seq::empty(), ..self },
                    Prompt::InvalidChoice((self.slides.len() + 1) as usize),
                )
            },
            Stage::ParagraphText => if line.len() == 0 {
                if self.lines.len() == 0 {
                    (self, Prompt::ParagraphRequired)
                } else {
                    self.complete_slide(ContentModel::Paragraph(join_lines(self.lines)))
                }
            } else {
                (CollectorModel { lines: self.lines.push(line), ..self }, Prompt::ParagraphLineTaken)
            },
            Stage::BulletLines => if line.len() == 0 {
                if self.lines.len() == 0 {
                    (self, Prompt::BulletRequired)
                } else {
                    self.complete_slide(ContentModel::Bullets(self.lines))
                }
            } else {
                (CollectorModel { lines: self.lines.push(line), ..self }, Prompt::BulletTaken)
            },
            Stage::Done => (self, Prompt::Finished),
        }
    }
}

/// Joined non-blank lines are not blank.
proof fn lemma_join_present(lines: Seq<Seq<char>>)
    requires
        lines.len() >= 1,
        forall|k: int| 0 <= k < lines.len() ==> (#[trigger] lines[k]).len() >= 1,
    ensures
        join_lines(lines).len() >= 1,
{
    if lines.len() >= 2 {
        assert(lines.last() == lines[lines.len() - 1]);
    }
}

fn is_choice(line: &str, c: char) -> (r: bool)
    ensures
        r == (line@ == seq![c]),
{
    if line.unicode_len() == 1 {
        let first = line.get_char(0);
        assert(first == c ==> line@ =~= seq![c]);
        first == c
    } else {
        false
    }
}

fn joined(lines: &Vec<String>) -> (r: String)
    ensures
        r@ == join_lines(lines@.map_values(|s: String| s@)),
{
    let ghost all = lines@.map_values(|s: String| s@);
    let mut r = String::new();
    let mut i: usize = 0;
    while i < lines.len()
        invariant
            i <= lines@.len(),
            all == lines@.map_values(|s: String| s@),
            r@ == join_lines(all.subrange(0, i as int)),
        decreases lines@.len() - i,
    {
        if i > 0 {
            push_char(&mut r, '\n');
        }
        r.append(lines[i].as_str());
        proof {
            let next = all.subrange(0, i + 1);
            assert(next.drop_last() =~= all.subrange(0, i as int));
            if i == 0 {
                assert(all.subrange(0, 0) =~= Seq::<Seq<char>>::empty());
            }
        }
        i = i + 1;
    }
    assert(all.subrange(0, lines@.len() as int) =~= all);
    r
}

impl OutlineCollector {
    /// A collector waiting for the document title.
    pub fn new() -> (c: OutlineCollector)
        ensures
            c@ == (CollectorModel {
                stage: Stage::DocumentTitle,
                title: Seq::empty(),
                slides: Seq::empty(),
                slide_title: Seq::empty(),
                lines: Seq::empty(),
            }),
    {
        let c = OutlineCollector {
            stage: Stage::DocumentTitle,
            title: String::new(),
            slides: Vec::new(),
            slide_title: String::new(),
            lines: Vec::new(),
        };
        assert(c@.slides =~= Seq::<SlideModel>::empty());
        assert(c@.lines =~= Seq::<Seq<char>>::empty());
        c
    }

    /// What the collector waits for.
    pub fn stage(&self) -> (s: Stage)
        ensures
            s == self@.stage,
    {
        self.stage
    }

    fn take_lines(&mut self) -> (lines: Vec<String>)
        ensures
            lines@ == old(self).lines@,
            final(self).lines@.len() == 0,
            final(self).stage == old(self).stage,
            final(self).title@ == old(self).title@,
            final(self).slides@ == old(self).slides@,
            final(self).slide_title@ == old(self).slide_title@,
    {
        let mut lines: Vec<String> = Vec::new();
        core::mem::swap(&mut lines, &mut self.lines);
        lines
    }

    fn complete_slide(&mut self, content: SlideContent) -> (p: Prompt)
        requires
            old(self)@.inv(),
            old(self)@.stage == Stage::ParagraphText || old(self)@.stage == Stage::BulletLines,
            content@.wf(),
            content@.texts_present(),
        ensures
            (final(self)@, p) == old(self)@.complete_slide(content@),
            final(self)@.inv(),
    {
        let mut title = String::new();
        core::mem::swap(&mut title, &mut self.slide_title);
        let ghost old_slides = self@.slides;
        self.slides.push(SlideInput { title, content });
        self.lines = Vec::new();
        let n = self.slides.len();
        if n >= MAX_SLIDES {
            self.stage = Stage::Done;
        } else {
            self.stage = Stage::SlideTitle;
        }
        proof {
            assert(self@.slides =~= old_slides.push(SlideModel { title: old(self)@.slide_title, content: content@ }));
            assert(self@.lines =~= Seq::<Seq<char>>::empty());
            assert forall|i: int| 0 <= i < self@.slides.len() implies (
            #[trigger] self@.slides[i]).content.wf() && self@.slides[i].texts_present() by {
                if i < old_slides.len() {
                    assert(self@.slides[i] == old_slides[i]);
                }
            }
        }
        Prompt::SlideAdded(n)
    }

    /// Takes one line of input, with its surrounding whitespace removed, and
    /// says what to ask next.
    pub fn step(&mut self, line: &str) -> (p: Prompt)
        requires
            old(self)@.inv(),
        ensures
            (final(self)@, p) == old(self)@.next(line@),
            final(self)@.inv(),
    {
        let blank = line.unicode_len() == 0;
        match self.stage {
            Stage::DocumentTitle => {
                if blank {
                    Prompt::TitleRequired
                } else {
                    self.title = String::from_str(line);
                    self.stage = Stage::SlideTitle;
                    assert(self@.slides == old(self)@.slides);
                    assert(self@.lines == old(self)@.lines);
                    Prompt::AskSlideTitle(1)
                }
            },
            Stage::SlideTitle => {
                if blank {
                    if self.slides.len() == 0 {
                        Prompt::SlideRequired
                    } else {
                        self.stage = Stage::Done;
                        Prompt::Finished
                    }
                } else {
                    self.slide_title = String::from_str(line);
                    self.stage = Stage::ContentKind;
                    Prompt::AskContentKind
                }
            },
            Stage::ContentKind => {
                if is_choice(line, '1') {
                    self.lines = Vec::new();
                    self.stage = Stage::ParagraphText;
                    assert(self@.lines =~= Seq::<Seq<char>>::empty());
                    Prompt::AskParagraph
                } else if is_choice(line, '2') {
                    self.lines = Vec::new();
                    self.stage = Stage::BulletLines;
                    assert(self@.lines =~= Seq::<Seq<char>>::empty());
                    Prompt::AskBullet
                } else {
                    self.slide_title = String::new();
                    self.stage = Stage::SlideTitle;
                    Prompt::InvalidChoice(self.slides.len() + 1)
                }
            },
            Stage::ParagraphText => {
                if blank {
                    if self.lines.len() == 0 {
                        Prompt::ParagraphRequired
                    } else {
                        let text = joined(&self.lines);
                        proof {
                            lemma_join_present(self@.lines);
                        }
                        self.complete_slide(SlideContent::Paragraph(text))
                    }
                } else {
                    let ghost before = self@.lines;
                    self.lines.push(String::from_str(line));
                    assert(self@.lines =~= before.push(line@));
                    assert(forall|k: int| 0 <= k < before.len() ==> self@.lines[k] == before[k]);
                    Prompt::ParagraphLineTaken
                }
            },
            Stage::BulletLines => {
                if blank {
                    if self.lines.len() == 0 {
                        Prompt::BulletRequired
                    } else {
                        let lines = self.take_lines();
                        self.complete_slide(SlideContent::Bullets(lines))
                    }
                } else {
                    let ghost before = self@.lines;
                    self.lines.push(String::from_str(line));
                    assert(self@.lines =~= before.push(line@));
                    assert(forall|k: int| 0 <= k < before.len() ==> self@.lines[k] == before[k]);
                    Prompt::BulletTaken
                }
            },
            Stage::Done => Prompt::Finished,
        }
    }

    /// The outline gathered, once it is complete.
    pub fn into_outline(self) -> (r: Option<PresentationInput>)
        requires
            self@.inv(),
        ensures
            r is Some <==> self@.stage == Stage::Done,
            r is Some ==> r->Some_0@ == (PresentationModel { title: self@.title, slides: self@.slides })
                && r->Some_0@.wf() && r->Some_0@.texts_present(),
    {
        match self.stage {
            Stage::Done => Some(PresentationInput { title: self.title, slides: self.slides }),
            _ => None,
        }
    }
}

} // verus!
