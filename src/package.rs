//! The package builder: every XML part of a presentation package, as a pure
//! function of the outline (and of the creation timestamp, for the core
//! properties).
use vstd::prelude::*;
use crate::model::{
    ContentModel, PackagePart, PresentationInput, PresentationModel, SlideContent, SlideInput,
    SlideModel, MAX_SLIDES,
};
use crate::text::{decimal, escape_text, push_char, push_decimal, push_escaped};

verus! {

// The fixed markup of the parts. Each piece ends where text of the outline,
// a number or a path is inserted, so that a part is its pieces and the
// inserted values written one after another.

pub const XML_DECL: &'static str = "<?xml version=\"1.0\" encoding=\"UTF-8\" standalone=\"yes\"?>\n";

pub const CONTENT_TYPES_HEAD: &'static str = "<Types xmlns=\"http://schemas.openxmlformats.org/package/2006/content-types\">\n<Default Extension=\"rels\" ContentType=\"application/vnd.openxmlformats-package.relationships+xml\"/>\n<Default Extension=\"xml\" ContentType=\"application/xml\"/>\n<Override PartName=\"/ppt/presentation.xml\" ContentType=\"application/vnd.openxmlformats-officedocument.presentationml.presentation.main+xml\"/>\n<Override PartName=\"/ppt/slideMasters/slideMaster1.xml\" ContentType=\"application/vnd.openxmlformats-officedocument.presentationml.slideMaster+xml\"/>\n";

pub const OVERRIDE_OPEN: &'static str = "<Override PartName=\"";

pub const OVERRIDE_CLOSE: &'static str = "\" ContentType=\"application/vnd.openxmlformats-officedocument.presentationml.slide+xml\"/>\n";

pub const CONTENT_TYPES_TAIL: &'static str = "</Types>\n";

pub const RELS_OPEN: &'static str = "<Relationships xmlns=\"http://schemas.openxmlformats.org/package/2006/relationships\">\n";

pub const RELS_CLOSE: &'static str = "</Relationships>\n";

pub const PACKAGE_RELS_BODY: &'static str = "<Relationship Id=\"rId1\" Type=\"http://schemas.openxmlformats.org/officeDocument/2006/relationships/officeDocument\" Target=\"ppt/presentation.xml\"/>\n<Relationship Id=\"rId2\" Type=\"http://schemas.openxmlformats.org/package/2006/relationships/metadata/core-properties\" Target=\"docProps/core.xml\"/>\n";

pub const PRESENTATION_HEAD: &'static str = "<p:presentation xmlns:p=\"http://schemas.openxmlformats.org/presentationml/2006/main\" xmlns:r=\"http://schemas.openxmlformats.org/officeDocument/2006/relationships\" xmlns:a=\"http://schemas.openxmlformats.org/drawingml/2006/main\">\n<p:sldMasterIdLst><p:sldMasterId id=\"2147483648\" r:id=\"rId1\"/></p:sldMasterIdLst>\n<p:sldIdLst>\n";

pub const SLIDE_ID_OPEN: &'static str = "<p:sldId id=\"";

pub const SLIDE_ID_MID: &'static str = "\" r:id=\"rId";

pub const ENTRY_CLOSE: &'static str = "\"/>\n";

pub const PRESENTATION_TAIL: &'static str = "</p:sldIdLst>\n<p:sldSz cx=\"9144000\" cy=\"6858000\"/>\n</p:presentation>\n";

pub const MASTER_REL: &'static str = "<Relationship Id=\"rId1\" Type=\"http://schemas.openxmlformats.org/officeDocument/2006/relationships/slideMaster\" Target=\"slideMasters/slideMaster1.xml\"/>\n";

pub const SLIDE_REL_OPEN: &'static str = "<Relationship Id=\"rId";

pub const SLIDE_REL_MID: &'static str = "\" Type=\"http://schemas.openxmlformats.org/officeDocument/2006/relationships/slide\" Target=\"";

pub const SLIDE_MASTER_BODY: &'static str = "<p:sldMaster xmlns:p=\"http://schemas.openxmlformats.org/presentationml/2006/main\" xmlns:a=\"http://schemas.openxmlformats.org/drawingml/2006/main\">\n<p:cSld>\n<p:bg><p:bgPr><a:solidFill><a:srgbClr val=\"FFFFFF\"/></a:solidFill></p:bgPr></p:bg>\n<p:spTree>\n<p:nvGrpSpPr><p:cNvPr id=\"1\" name=\"\"/><p:cNvGrpSpPr/><p:nvPr/></p:nvGrpSpPr>\n<p:grpSpPr><a:xfrm/></p:grpSpPr>\n</p:spTree>\n</p:cSld>\n</p:sldMaster>\n";

pub const SLIDE_HEAD: &'static str = "<p:sld xmlns:p=\"http://schemas.openxmlformats.org/presentationml/2006/main\" xmlns:a=\"http://schemas.openxmlformats.org/drawingml/2006/main\">\n<p:cSld>\n<p:spTree>\n<p:sp>\n<p:nvSpPr><p:cNvPr id=\"1\" name=\"Title\"/><p:cNvSpPr/><p:nvPr><p:ph type=\"title\"/></p:nvPr></p:nvSpPr>\n<p:spPr><a:xfrm><a:off x=\"914400\" y=\"457200\"/><a:ext cx=\"7315200\" cy=\"457200\"/></a:xfrm></p:spPr>\n<p:txBody><a:bodyPr/><a:lstStyle/><a:p><a:r><a:rPr lang=\"en-US\"/><a:t>";

pub const SLIDE_MID: &'static str = "</a:t></a:r></a:p></p:txBody>\n</p:sp>\n<p:sp>\n<p:nvSpPr><p:cNvPr id=\"2\" name=\"Content\"/><p:cNvSpPr/><p:nvPr><p:ph idx=\"1\"/></p:nvPr></p:nvSpPr>\n<p:spPr><a:xfrm><a:off x=\"914400\" y=\"1143000\"/><a:ext cx=\"7315200\" cy=\"3657600\"/></a:xfrm></p:spPr>\n<p:txBody><a:bodyPr/><a:lstStyle/>\n";

pub const PARAGRAPH_OPEN: &'static str = "<a:p><a:r><a:rPr lang=\"en-US\"/><a:t>";

pub const BULLET_OPEN: &'static str = "<a:p><a:pPr lvl=\"0\"/><a:r><a:rPr lang=\"en-US\"/><a:t>";

pub const PARAGRAPH_CLOSE: &'static str = "</a:t></a:r></a:p>\n";

pub const SLIDE_TAIL: &'static str = "</p:txBody>\n</p:sp>\n</p:spTree>\n</p:cSld>\n</p:sld>\n";

pub const CORE_HEAD: &'static str = "<cp:coreProperties xmlns:cp=\"http://schemas.openxmlformats.org/package/2006/metadata/core-properties\" xmlns:dc=\"http://purl.org/dc/elements/1.1/\" xmlns:dcterms=\"http://purl.org/dc/terms/\" xmlns:dcmitype=\"http://purl.org/dc/dcmitype/\" xmlns:xsi=\"http://www.w3.org/2001/XMLSchema-instance\">\n<dc:title>";

pub const CORE_AFTER_TITLE: &'static str = "</dc:title>\n<dc:creator>PanicPoint</dc:creator>\n<cp:lastModifiedBy>PanicPoint</cp:lastModifiedBy>\n<dcterms:created xsi:type=\"dcterms:W3CDTF\">";

pub const CORE_AFTER_CREATED: &'static str = "</dcterms:created>\n<dcterms:modified xsi:type=\"dcterms:W3CDTF\">";

pub const CORE_TAIL: &'static str = "</dcterms:modified>\n</cp:coreProperties>\n";

pub const CONTENT_TYPES_PATH: &'static str = "[Content_Types].xml";

pub const PACKAGE_RELS_PATH: &'static str = "_rels/.rels";

pub const CORE_PATH: &'static str = "docProps/core.xml";

pub const PRESENTATION_PATH: &'static str = "ppt/presentation.xml";

pub const PRESENTATION_RELS_PATH: &'static str = "ppt/_rels/presentation.xml.rels";

pub const MASTER_PATH: &'static str = "ppt/slideMasters/slideMaster1.xml";

pub const MASTER_RELS_PATH: &'static str = "ppt/slideMasters/_rels/slideMaster1.xml.rels";

pub const SLIDE_PATH_PREFIX: &'static str = "ppt/slides/slide";

pub const SLIDE_RELS_PATH_PREFIX: &'static str = "ppt/slides/_rels/slide";

pub const SLIDE_TARGET_PREFIX: &'static str = "slides/slide";

pub const XML_SUFFIX: &'static str = ".xml";

pub const RELS_SUFFIX: &'static str = ".xml.rels";

/// Index of the core-properties part, the one part that depends on the time.
pub const CORE_INDEX: usize = 2;

/// Number of parts that do not belong to a single slide.
pub const FIXED_PARTS: usize = 7;

// ---------------------------------------------------------------------------
// The ID allocation: slide `k` (counted from 1) is the part
// `ppt/slides/slide<k>.xml`, carries the numeric ID `255 + k` in the
// presentation's slide list, and is reached through relationship `rId<k+1>`
// (`rId1` belongs to the slide master).

pub open spec fn slide_id_of(k: nat) -> nat {
    255 + k
}

pub open spec fn slide_rel_id_of(k: nat) -> nat {
    k + 1
}

/// One entry of the presentation's slide-ID list.
pub struct SlideIdEntry {
    pub id: nat,
    pub rel_id: nat,
}

/// One slide relationship of the presentation root.
pub struct SlideRelEntry {
    pub rel_id: nat,
    pub target: Seq<char>,
}

pub open spec fn slide_path(k: nat) -> Seq<char> {
    SLIDE_PATH_PREFIX@ + decimal(k) + XML_SUFFIX@
}

pub open spec fn slide_rels_path(k: nat) -> Seq<char> {
    SLIDE_RELS_PATH_PREFIX@ + decimal(k) + RELS_SUFFIX@
}

/// The slide's part as the presentation relationships name it, relative to `ppt/`.
pub open spec fn slide_target(k: nat) -> Seq<char> {
    SLIDE_TARGET_PREFIX@ + decimal(k) + XML_SUFFIX@
}

/// The slide part names that the content-type manifest overrides.
pub open spec fn override_entries(n: nat) -> Seq<Seq<char>> {
    Seq::new(n, |i: int| seq!['/'] + slide_path((i + 1) as nat))
}

pub open spec fn slide_id_entries(n: nat) -> Seq<SlideIdEntry> {
    Seq::new(
        n,
        |i: int| SlideIdEntry { id: slide_id_of((i + 1) as nat), rel_id: slide_rel_id_of((i + 1) as nat) },
    )
}

pub open spec fn slide_rel_entries(n: nat) -> Seq<SlideRelEntry> {
    Seq::new(
        n,
        |i: int| SlideRelEntry { rel_id: slide_rel_id_of((i + 1) as nat), target: slide_target((i + 1) as nat) },
    )
}

// ---------------------------------------------------------------------------
// Rendering.

/// Lines written one after another.
pub open spec fn concat_lines(lines: Seq<Seq<char>>) -> Seq<char>
    decreases lines.len(),
{
    if lines.len() == 0 {
        Seq::empty()
    } else {
        concat_lines(lines.drop_last()) + lines.last()
    }
}

pub open spec fn override_line(name: Seq<char>) -> Seq<char> {
    OVERRIDE_OPEN@ + name + OVERRIDE_CLOSE@
}

pub open spec fn slide_id_line(e: SlideIdEntry) -> Seq<char> {
    SLIDE_ID_OPEN@ + decimal(e.id) + SLIDE_ID_MID@ + decimal(e.rel_id) + ENTRY_CLOSE@
}

pub open spec fn slide_rel_line(e: SlideRelEntry) -> Seq<char> {
    SLIDE_REL_OPEN@ + decimal(e.rel_id) + SLIDE_REL_MID@ + e.target + ENTRY_CLOSE@
}

pub open spec fn content_types_xml(n: nat) -> Seq<char> {
    XML_DECL@ + CONTENT_TYPES_HEAD@ + concat_lines(override_entries(n).map_values(|e: Seq<char>| override_line(e)))
        + CONTENT_TYPES_TAIL@
}

pub open spec fn package_rels_xml() -> Seq<char> {
    XML_DECL@ + RELS_OPEN@ + PACKAGE_RELS_BODY@ + RELS_CLOSE@
}

pub open spec fn presentation_xml(n: nat) -> Seq<char> {
    XML_DECL@ + PRESENTATION_HEAD@ + concat_lines(slide_id_entries(n).map_values(|e: SlideIdEntry| slide_id_line(e)))
        + PRESENTATION_TAIL@
}

pub open spec fn presentation_rels_xml(n: nat) -> Seq<char> {
    XML_DECL@ + RELS_OPEN@ + MASTER_REL@ + concat_lines(slide_rel_entries(n).map_values(|e: SlideRelEntry| slide_rel_line(e)))
        + RELS_CLOSE@
}

pub open spec fn slide_master_xml() -> Seq<char> {
    XML_DECL@ + SLIDE_MASTER_BODY@
}

/// A relationship file with no relationships.
pub open spec fn empty_rels_xml() -> Seq<char> {
    XML_DECL@ + RELS_OPEN@ + RELS_CLOSE@
}

/// The paragraphs of a slide's content shape: one for prose, one per bullet
/// at outline level 0.
pub open spec fn content_paragraphs(c: ContentModel) -> Seq<Seq<char>> {
    match c {
        ContentModel::Paragraph(t) => seq![PARAGRAPH_OPEN@ + escape_text(t) + PARAGRAPH_CLOSE@],
        ContentModel::Bullets(b) => b.map_values(|t: Seq<char>| BULLET_OPEN@ + escape_text(t) + PARAGRAPH_CLOSE@),
    }
}

pub open spec fn slide_xml(s: SlideModel) -> Seq<char> {
    XML_DECL@ + SLIDE_HEAD@ + escape_text(s.title) + SLIDE_MID@ + concat_lines(content_paragraphs(s.content))
        + SLIDE_TAIL@
}

pub open spec fn core_xml(title: Seq<char>, stamp: Seq<char>) -> Seq<char> {
    XML_DECL@ + CORE_HEAD@ + escape_text(title) + CORE_AFTER_TITLE@ + escape_text(stamp) + CORE_AFTER_CREATED@
        + escape_text(stamp) + CORE_TAIL@
}

/// Number of parts of a package with `n` slides.
pub open spec fn package_len(n: nat) -> nat {
    FIXED_PARTS as nat + 2 * n
}

/// Part `j` of the package, as (path, text): the fixed parts first, then
/// each slide followed by its relationship file.
pub open spec fn part_at(p: PresentationModel, stamp: Seq<char>, j: int) -> (Seq<char>, Seq<char>) {
    let n = p.slides.len();
    if j == 0 {
        (CONTENT_TYPES_PATH@, content_types_xml(n))
    } else if j == 1 {
        (PACKAGE_RELS_PATH@, package_rels_xml())
    } else if j == 2 {
        (CORE_PATH@, core_xml(p.title, stamp))
    } else if j == 3 {
        (PRESENTATION_PATH@, presentation_xml(n))
    } else if j == 4 {
        (PRESENTATION_RELS_PATH@, presentation_rels_xml(n))
    } else if j == 5 {
        (MASTER_PATH@, slide_master_xml())
    } else if j == 6 {
        (MASTER_RELS_PATH@, empty_rels_xml())
    } else {
        let i = (j - 7) / 2;
        if (j - 7) % 2 == 0 {
            (slide_path((i + 1) as nat), slide_xml(p.slides[i]))
        } else {
            (slide_rels_path((i + 1) as nat), empty_rels_xml())
        }
    }
}

/// `parts` is the package of outline `p` with creation time `stamp`.
pub open spec fn is_package_of(parts: Seq<PackagePart>, p: PresentationModel, stamp: Seq<char>) -> bool {
    &&& parts.len() == package_len(p.slides.len())
    &&& forall|j: int| 0 <= j < parts.len() ==> (#[trigger] parts[j])@ == part_at(p, stamp, j)
}

// ---------------------------------------------------------------------------
// Building.

proof fn lemma_concat_lines_step(lines: Seq<Seq<char>>, k: int)
    requires
        0 <= k < lines.len(),
    ensures
        concat_lines(lines.subrange(0, k + 1)) == concat_lines(lines.subrange(0, k)) + lines[k],
{
    assert(lines.subrange(0, k + 1).drop_last() =~= lines.subrange(0, k));
}

/// One slide's numbers, computed once and read by every part that names the slide.
pub struct SlideAllocation {
    /// The slide's position, counted from 1.
    pub number: u64,
    /// Its numeric ID in the presentation's slide list.
    pub slide_id: u64,
    /// The number `K` of its relationship `rIdK`.
    pub rel_id: u64,
}

/// The numbers of slide `number` (counted from 1).
pub fn allocate_slide(number: u64) -> (a: SlideAllocation)
    requires
        1 <= number <= MAX_SLIDES,
    ensures
        a.number == number,
        a.slide_id == slide_id_of(number as nat),
        a.rel_id == slide_rel_id_of(number as nat),
        a.slide_id < 2147483648,
{
    SlideAllocation { number, slide_id: 255 + number, rel_id: number + 1 }
}

fn string_of(s: &str) -> (r: String)
    ensures
        r@ == s@,
{
    String::from_str(s)
}

/// The archive path of slide `k`.
pub fn slide_path_string(k: u64) -> (r: String)
    ensures
        r@ == slide_path(k as nat),
{
    let mut r = string_of(SLIDE_PATH_PREFIX);
    push_decimal(&mut r, k);
    r.append(XML_SUFFIX);
    r
}

/// The archive path of the relationship file of slide `k`.
pub fn slide_rels_path_string(k: u64) -> (r: String)
    ensures
        r@ == slide_rels_path(k as nat),
{
    let mut r = string_of(SLIDE_RELS_PATH_PREFIX);
    push_decimal(&mut r, k);
    r.append(RELS_SUFFIX);
    r
}

/// The content-type manifest of a package with `n` slides.
pub fn content_types_text(n: usize) -> (r: String)
    requires
        n <= MAX_SLIDES,
    ensures
        r@ == content_types_xml(n as nat),
{
    let ghost lines = override_entries(n as nat).map_values(|e: Seq<char>| override_line(e));
    let mut r = string_of(XML_DECL);
    r.append(CONTENT_TYPES_HEAD);
    let ghost start = r@;
    let mut i: usize = 0;
    while i < n
        invariant
            n <= MAX_SLIDES,
            i <= n,
            lines == override_entries(n as nat).map_values(|e: Seq<char>| override_line(e)),
            r@ == start + concat_lines(lines.subrange(0, i as int)),
        decreases n - i,
    {
        let ghost before = r@;
        let a = allocate_slide(i as u64 + 1);
        r.append(OVERRIDE_OPEN);
        push_char(&mut r, '/');
        r.append(SLIDE_PATH_PREFIX);
        push_decimal(&mut r, a.number);
        r.append(XML_SUFFIX);
        r.append(OVERRIDE_CLOSE);
        proof {
            lemma_concat_lines_step(lines, i as int);
            assert(r@ =~= before + lines[i as int]);
        }
        i = i + 1;
    }
    assert(lines.subrange(0, n as int) =~= lines);
    r.append(CONTENT_TYPES_TAIL);
    r
}

/// The presentation root of a package with `n` slides.
pub fn presentation_text(n: usize) -> (r: String)
    requires
        n <= MAX_SLIDES,
    ensures
        r@ == presentation_xml(n as nat),
{
    let ghost lines = slide_id_entries(n as nat).map_values(|e: SlideIdEntry| slide_id_line(e));
    let mut r = string_of(XML_DECL);
    r.append(PRESENTATION_HEAD);
    let ghost start = r@;
    let mut i: usize = 0;
    while i < n
        invariant
            n <= MAX_SLIDES,
            i <= n,
            lines == slide_id_entries(n as nat).map_values(|e: SlideIdEntry| slide_id_line(e)),
            r@ == start + concat_lines(lines.subrange(0, i as int)),
        decreases n - i,
    {
        let ghost before = r@;
        let a = allocate_slide(i as u64 + 1);
        r.append(SLIDE_ID_OPEN);
        push_decimal(&mut r, a.slide_id);
        r.append(SLIDE_ID_MID);
        push_decimal(&mut r, a.rel_id);
        r.append(ENTRY_CLOSE);
        proof {
            lemma_concat_lines_step(lines, i as int);
            assert(r@ =~= before + lines[i as int]);
        }
        i = i + 1;
    }
    assert(lines.subrange(0, n as int) =~= lines);
    r.append(PRESENTATION_TAIL);
    r
}

/// The relationships of the presentation root of a package with `n` slides.
pub fn presentation_rels_text(n: usize) -> (r: String)
    requires
        n <= MAX_SLIDES,
    ensures
        r@ == presentation_rels_xml(n as nat),
{
    let ghost lines = slide_rel_entries(n as nat).map_values(|e: SlideRelEntry| slide_rel_line(e));
    let mut r = string_of(XML_DECL);
    r.append(RELS_OPEN);
    r.append(MASTER_REL);
    let ghost start = r@;
    let mut i: usize = 0;
    while i < n
        invariant
            n <= MAX_SLIDES,
            i <= n,
            lines == slide_rel_entries(n as nat).map_values(|e: SlideRelEntry| slide_rel_line(e)),
            r@ == start + concat_lines(lines.subrange(0, i as int)),
        decreases n - i,
    {
        let ghost before = r@;
        let a = allocate_slide(i as u64 + 1);
        r.append(SLIDE_REL_OPEN);
        push_decimal(&mut r, a.rel_id);
        r.append(SLIDE_REL_MID);
        r.append(SLIDE_TARGET_PREFIX);
        push_decimal(&mut r, a.number);
        r.append(XML_SUFFIX);
        r.append(ENTRY_CLOSE);
        proof {
            lemma_concat_lines_step(lines, i as int);
            assert(r@ =~= before + lines[i as int]);
        }
        i = i + 1;
    }
    assert(lines.subrange(0, n as int) =~= lines);
    r.append(RELS_CLOSE);
    r
}

/// The package relationships: to the presentation root and to the core
/// properties.
pub fn package_rels_text() -> (r: String)
    ensures
        r@ == package_rels_xml(),
{
    let mut r = string_of(XML_DECL);
    r.append(RELS_OPEN);
    r.append(PACKAGE_RELS_BODY);
    r.append(RELS_CLOSE);
    r
}

/// The slide master: a white background and an empty shape tree.
pub fn slide_master_text() -> (r: String)
    ensures
        r@ == slide_master_xml(),
{
    let mut r = string_of(XML_DECL);
    r.append(SLIDE_MASTER_BODY);
    r
}

/// A relationship file with no relationships.
pub fn empty_rels_text() -> (r: String)
    ensures
        r@ == empty_rels_xml(),
{
    let mut r = string_of(XML_DECL);
    r.append(RELS_OPEN);
    r.append(RELS_CLOSE);
    r
}

/// The markup of one slide: its title shape and its content shape.
pub fn slide_text(slide: &SlideInput) -> (r: String)
    ensures
        r@ == slide_xml(slide@),
{
    let mut r = string_of(XML_DECL);
    r.append(SLIDE_HEAD);
    push_escaped(&mut r, slide.title.as_str());
    r.append(SLIDE_MID);
    let ghost start = r@;
    let ghost lines = content_paragraphs(slide.content@);
    match &slide.content {
        SlideContent::Paragraph(t) => {
            r.append(PARAGRAPH_OPEN);
            push_escaped(&mut r, t.as_str());
            r.append(PARAGRAPH_CLOSE);
            proof {
                lemma_concat_lines_step(lines, 0);
                assert(lines.subrange(0, 0) =~= Seq::<Seq<char>>::empty());
                assert(lines.subrange(0, 1) =~= lines);
                assert(r@ =~= start + lines[0]);
            }
        },
        SlideContent::Bullets(b) => {
            let mut i: usize = 0;
            while i < b.len()
                invariant
                    i <= b@.len(),
                    lines == b@.map_values(|s: String| s@).map_values(
                        |t: Seq<char>| BULLET_OPEN@ + escape_text(t) + PARAGRAPH_CLOSE@,
                    ),
                    r@ == start + concat_lines(lines.subrange(0, i as int)),
                decreases b@.len() - i,
            {
                let ghost before = r@;
                r.append(BULLET_OPEN);
                push_escaped(&mut r, b[i].as_str());
                r.append(PARAGRAPH_CLOSE);
                proof {
                    lemma_concat_lines_step(lines, i as int);
                    assert(r@ =~= before + lines[i as int]);
                }
                i = i + 1;
            }
            assert(lines.subrange(0, b@.len() as int) =~= lines);
        },
    }
    r.append(SLIDE_TAIL);
    r
}

/// The core properties: the document title and its creation time.
pub fn core_text(title: &str, stamp: &str) -> (r: String)
    ensures
        r@ == core_xml(title@, stamp@),
{
    let mut r = string_of(XML_DECL);
    r.append(CORE_HEAD);
    push_escaped(&mut r, title);
    r.append(CORE_AFTER_TITLE);
    push_escaped(&mut r, stamp);
    r.append(CORE_AFTER_CREATED);
    push_escaped(&mut r, stamp);
    r.append(CORE_TAIL);
    r
}

fn part(path: &str, text: String) -> (p: PackagePart)
    ensures
        p@ == (path@, text@),
{
    PackagePart { relative_path: string_of(path), text }
}

/// Every part of the package of `input`, with `timestamp` as its creation
/// and modification time: the fixed parts first, then each slide followed by
/// its relationship file.
pub fn build_package(input: &PresentationInput, timestamp: &str) -> (parts: Vec<PackagePart>)
    requires
        input.slides@.len() <= MAX_SLIDES,
    ensures
        is_package_of(parts@, input@, timestamp@),
{
    let n = input.slides.len();
    let ghost p = input@;
    let mut parts: Vec<PackagePart> = Vec::new();
    parts.push(part(CONTENT_TYPES_PATH, content_types_text(n)));
    parts.push(part(PACKAGE_RELS_PATH, package_rels_text()));
    parts.push(part(CORE_PATH, core_text(input.title.as_str(), timestamp)));
    parts.push(part(PRESENTATION_PATH, presentation_text(n)));
    parts.push(part(PRESENTATION_RELS_PATH, presentation_rels_text(n)));
    parts.push(part(MASTER_PATH, slide_master_text()));
    parts.push(part(MASTER_RELS_PATH, empty_rels_text()));
    assert(p.slides.len() == n);
    assert forall|j: int| 0 <= j < 7 implies (#[trigger] parts@[j])@ == part_at(p, timestamp@, j) by {}
    let mut i: usize = 0;
    while i < n
        invariant
            n == input.slides@.len(),
            n <= MAX_SLIDES,
            p == input@,
            i <= n,
            parts@.len() == 7 + 2 * i,
            forall|j: int| 0 <= j < parts@.len() ==> (#[trigger] parts@[j])@ == part_at(p, timestamp@, j),
        decreases n - i,
    {
        let a = allocate_slide(i as u64 + 1);
        let slide = &input.slides[i];
        proof {
            assert(p.slides[i as int] == slide@);
        }
        parts.push(PackagePart { relative_path: slide_path_string(a.number), text: slide_text(slide) });
        parts.push(PackagePart { relative_path: slide_rels_path_string(a.number), text: empty_rels_text() });
        proof {
            let j0 = 7 + 2 * i as int;
            assert((j0 - 7) / 2 == i as int && (j0 - 7) % 2 == 0);
            assert((j0 + 1 - 7) / 2 == i as int && (j0 + 1 - 7) % 2 == 1);
        }
        i = i + 1;
    }
    parts
}

} // verus!
