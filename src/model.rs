//! The outline a presentation is built from, and the parts it becomes.
use vstd::prelude::*;

verus! {

/// The most slides a package can hold: slide IDs start at 256 and the
/// presentation format keeps them below 2^31.
pub const MAX_SLIDES: usize = 2147483392;

/// What the body of a slide holds.
pub enum SlideContent {
    /// One block of prose.
    Paragraph(String),
    /// One line per bullet, in order.
    Bullets(Vec<String>),
}

/// The mathematical value of a [`SlideContent`].
pub enum ContentModel {
    Paragraph(Seq<char>),
    Bullets(Seq<Seq<char>>),
}

impl View for SlideContent {
    type V = ContentModel;

    open spec fn view(&self) -> ContentModel {
        match self {
            SlideContent::Paragraph(t) => ContentModel::Paragraph(t@),
            SlideContent::Bullets(b) => ContentModel::Bullets(b@.map_values(|s: String| s@)),
        }
    }
}

/// One slide of the outline.
pub struct SlideInput {
    pub title: String,
    pub content: SlideContent,
}

/// The mathematical value of a [`SlideInput`].
pub struct SlideModel {
    pub title: Seq<char>,
    pub content: ContentModel,
}

impl View for SlideInput {
    type V = SlideModel;

    open spec fn view(&self) -> SlideModel {
        SlideModel { title: self.title@, content: self.content@ }
    }
}

/// A whole outline: the document title and its slides in order.
pub struct PresentationInput {
    pub title: String,
    pub slides: Vec<SlideInput>,
}

/// The mathematical value of a [`PresentationInput`].
pub struct PresentationModel {
    pub title: Seq<char>,
    pub slides: Seq<SlideModel>,
}

impl View for PresentationInput {
    type V = PresentationModel;

    open spec fn view(&self) -> PresentationModel {
        PresentationModel {
            title: self.title@,
            slides: self.slides@.map_values(|s: SlideInput| s@),
        }
    }
}

impl ContentModel {
    /// Bullet lists hold at least one line.
    pub open spec fn wf(self) -> bool {
        match self {
            ContentModel::Paragraph(_) => true,
            ContentModel::Bullets(b) => b.len() >= 1,
        }
    }
}

impl ContentModel {
    /// The paragraph, and every bullet line, holds some text.
    pub open spec fn texts_present(self) -> bool {
        match self {
            ContentModel::Paragraph(t) => t.len() >= 1,
            ContentModel::Bullets(b) => forall|k: int| 0 <= k < b.len() ==> (#[trigger] b[k]).len() >= 1,
        }
    }
}

impl SlideModel {
    /// The slide has a title, and its content holds text.
    pub open spec fn texts_present(self) -> bool {
        self.title.len() >= 1 && self.content.texts_present()
    }
}

impl PresentationModel {
    /// Every slide has a title, and every paragraph and bullet line holds text.
    pub open spec fn texts_present(self) -> bool {
        forall|i: int| 0 <= i < self.slides.len() ==> (#[trigger] self.slides[i]).texts_present()
    }

    /// An outline as the data model admits it: a title, and one or more
    /// slides, each bullet list non-empty.
    pub open spec fn wf(self) -> bool {
        &&& self.title.len() >= 1
        &&& 1 <= self.slides.len() <= MAX_SLIDES
        &&& forall|i: int| 0 <= i < self.slides.len() ==> (#[trigger] self.slides[i]).content.wf()
    }
}

/// One named document of a package: its path inside the archive and its
/// XML text.
pub struct PackagePart {
    pub relative_path: String,
    pub text: String,
}

impl View for PackagePart {
    type V = (Seq<char>, Seq<char>);

    open spec fn view(&self) -> (Seq<char>, Seq<char>) {
        (self.relative_path@, self.text@)
    }
}

} // verus!
