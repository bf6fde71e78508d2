//! Properties that hold of every package the builder produces.
use vstd::prelude::*;
use crate::model::{ContentModel, PackagePart, PresentationModel, SlideModel, MAX_SLIDES};
use crate::package::{
    content_paragraphs, is_package_of, override_entries, package_len, part_at, slide_id_entries,
    slide_path, slide_rel_entries, slide_xml, BULLET_OPEN, CORE_INDEX, PARAGRAPH_CLOSE,
    PARAGRAPH_OPEN, RELS_SUFFIX, SLIDE_HEAD, SLIDE_PATH_PREFIX, SLIDE_RELS_PATH_PREFIX,
    SLIDE_TARGET_PREFIX, XML_DECL, XML_SUFFIX,
};
use crate::text::{
    decimal, escape_text, lemma_decimal_injective, lemma_escape_markup_free,
    lemma_escape_round_trip, markup_free, unescape_text,
};

verus! {

/// The three places that name the slides agree. The content-type manifest,
/// the slide-ID list and the presentation relationships each hold exactly one
/// entry per slide; for slide `k` the slide-ID entry and the relationship
/// carry the same `rIdK`, the relationship targets the part that the manifest
/// overrides, and that part is the package's slide part for `k`. Slide IDs
/// are distinct and lie in `256 .. 2^31`, and no slide takes the master's
/// `rId1`.
pub proof fn lemma_slide_references_agree(n: nat)
    requires
        1 <= n <= MAX_SLIDES,
    ensures
        override_entries(n).len() == n,
        slide_id_entries(n).len() == n,
        slide_rel_entries(n).len() == n,
        forall|k: int|
            0 <= k < n ==> #[trigger] slide_id_entries(n)[k].rel_id == slide_rel_entries(n)[k].rel_id,
        forall|k: int|
            0 <= k < n ==> seq!['/', 'p', 'p', 't', '/'] + (#[trigger] slide_rel_entries(n)[k]).target
                == override_entries(n)[k],
        forall|k: int|
            0 <= k < n ==> #[trigger] override_entries(n)[k] == seq!['/'] + slide_path((k + 1) as nat),
        forall|k: int|
            0 <= k < n ==> 256 <= (#[trigger] slide_id_entries(n)[k]).id < 2147483648
                && slide_id_entries(n)[k].rel_id != 1,
        forall|k1: int, k2: int|
            0 <= k1 < k2 < n ==> #[trigger] slide_id_entries(n)[k1].id != #[trigger] slide_id_entries(
                n,
            )[k2].id && slide_id_entries(n)[k1].rel_id != slide_id_entries(n)[k2].rel_id,
{
    reveal_strlit("ppt/slides/slide");
    reveal_strlit("slides/slide");
    assert forall|k: int| 0 <= k < n implies seq!['/', 'p', 'p', 't', '/'] + (
    #[trigger] slide_rel_entries(n)[k]).target == override_entries(n)[k] by {
        let d = decimal((k + 1) as nat);
        assert(seq!['/', 'p', 'p', 't', '/'] + (SLIDE_TARGET_PREFIX@ + d + XML_SUFFIX@) =~= seq!['/']
            + (SLIDE_PATH_PREFIX@ + d + XML_SUFFIX@));
    }
}

proof fn lemma_affix_cancel(a: Seq<char>, x: Seq<char>, y: Seq<char>, b: Seq<char>)
    requires
        a + x + b == a + y + b,
    ensures
        x == y,
{
    let s = a + x + b;
    assert((a + x + b).len() == a.len() + x.len() + b.len());
    assert((a + y + b).len() == a.len() + y.len() + b.len());
    assert(x.len() == y.len());
    assert(x =~= s.subrange(a.len() as int, (a.len() + x.len()) as int));
    assert(y =~= (a + y + b).subrange(a.len() as int, (a.len() + y.len()) as int));
}

/// A package holds `7 + 2n` parts for `n` slides, and no two of them share
/// a path.
pub proof fn lemma_package_paths_distinct(p: PresentationModel, stamp: Seq<char>)
    ensures
        forall|i: int, j: int|
            0 <= i < j < package_len(p.slides.len()) ==> (#[trigger] part_at(p, stamp, i)).0
                != (#[trigger] part_at(p, stamp, j)).0,
{
    reveal_strlit("[Content_Types].xml");
    reveal_strlit("_rels/.rels");
    reveal_strlit("docProps/core.xml");
    reveal_strlit("ppt/presentation.xml");
    reveal_strlit("ppt/_rels/presentation.xml.rels");
    reveal_strlit("ppt/slideMasters/slideMaster1.xml");
    reveal_strlit("ppt/slideMasters/_rels/slideMaster1.xml.rels");
    reveal_strlit("ppt/slides/slide");
    reveal_strlit("ppt/slides/_rels/slide");
    reveal_strlit(".xml");
    reveal_strlit(".xml.rels");
    assert forall|i: int, j: int| 0 <= i < j < package_len(p.slides.len()) implies (
    #[trigger] part_at(p, stamp, i)).0 != (#[trigger] part_at(p, stamp, j)).0 by {
        let pi = part_at(p, stamp, i).0;
        let pj = part_at(p, stamp, j).0;
        if j < 7 {
            assert(pi.len() != pj.len());
        } else {
            let kj = (j - 7) / 2;
            let dj = decimal((kj + 1) as nat);
            assert(pj[10] == '/');
            if i < 7 {
                assert(pi[10] != '/');
            } else {
                let ki = (i - 7) / 2;
                let di = decimal((ki + 1) as nat);
                if (i - 7) % 2 != (j - 7) % 2 {
                    assert(pi[11] != pj[11]);
                } else if pi == pj {
                    assert(ki != kj);
                    if (i - 7) % 2 == 0 {
                        lemma_affix_cancel(SLIDE_PATH_PREFIX@, di, dj, XML_SUFFIX@);
                    } else {
                        lemma_affix_cancel(SLIDE_RELS_PATH_PREFIX@, di, dj, RELS_SUFFIX@);
                    }
                    lemma_decimal_injective((ki + 1) as nat, (kj + 1) as nat);
                }
            }
        }
    }
}

/// The title run of a slide holds the escaped title, and reading it back
/// gives the title exactly.
pub proof fn lemma_slide_title_round_trip(s: SlideModel)
    ensures
        ({
            let start = (XML_DECL@ + SLIDE_HEAD@).len() as int;
            let run = slide_xml(s).subrange(start, start + escape_text(s.title).len());
            run == escape_text(s.title) && unescape_text(run) == s.title
        }),
{
    let start = (XML_DECL@ + SLIDE_HEAD@).len() as int;
    assert(slide_xml(s).subrange(start, start + escape_text(s.title).len()) =~= escape_text(s.title));
    lemma_escape_round_trip(s.title);
}

/// Prose gives one paragraph in the content shape; a bullet list gives one
/// paragraph per bullet, in input order, each at outline level 0, and each
/// paragraph's text reads back as the input text.
pub proof fn lemma_content_paragraphs(c: ContentModel)
    ensures
        c is Paragraph ==> content_paragraphs(c).len() == 1 && content_paragraphs(c)[0]
            == PARAGRAPH_OPEN@ + escape_text(c->Paragraph_0) + PARAGRAPH_CLOSE@ && unescape_text(
            escape_text(c->Paragraph_0),
        ) == c->Paragraph_0,
        c is Bullets ==> content_paragraphs(c).len() == c->Bullets_0.len() && forall|k: int|
            0 <= k < c->Bullets_0.len() ==> #[trigger] content_paragraphs(c)[k] == BULLET_OPEN@
                + escape_text(c->Bullets_0[k]) + PARAGRAPH_CLOSE@ && unescape_text(
                escape_text(c->Bullets_0[k]),
            ) == c->Bullets_0[k],
{
    match c {
        ContentModel::Paragraph(t) => {
            lemma_escape_round_trip(t);
        },
        ContentModel::Bullets(b) => {
            assert forall|k: int| 0 <= k < b.len() implies unescape_text(escape_text(b[k])) == b[k] by {
                lemma_escape_round_trip(b[k]);
            }
        },
    }
}

/// Two builds of one outline agree on every part but the core properties,
/// whose timestamps may differ; that part's path agrees too.
pub proof fn lemma_builds_agree(
    parts1: Seq<PackagePart>,
    parts2: Seq<PackagePart>,
    p: PresentationModel,
    stamp1: Seq<char>,
    stamp2: Seq<char>,
)
    requires
        is_package_of(parts1, p, stamp1),
        is_package_of(parts2, p, stamp2),
    ensures
        parts1.len() == parts2.len(),
        parts1[CORE_INDEX as int].relative_path@ == parts2[CORE_INDEX as int].relative_path@,
        forall|j: int| 0 <= j < parts1.len() && j != CORE_INDEX ==> #[trigger] parts1[j]@ == parts2[j]@,
{
    assert(parts1[2]@ == part_at(p, stamp1, 2));
    assert(parts2[2]@ == part_at(p, stamp2, 2));
    assert forall|j: int| 0 <= j < parts1.len() && j != CORE_INDEX implies #[trigger] parts1[j]@
        == parts2[j]@ by {
        assert(parts1[j]@ == part_at(p, stamp1, j));
        assert(parts2[j]@ == part_at(p, stamp2, j));
    }
}

/// Text of the outline never corrupts the markup around it. Each value that
/// a slide part or the core properties insert between fixed markup (a
/// title, a paragraph, a bullet, the timestamp) goes in as well-formed
/// character data: no `<` or `>`, and every `&` starts a predefined entity.
pub proof fn lemma_inserted_text_markup_free(s: SlideModel, title: Seq<char>, stamp: Seq<char>)
    ensures
        markup_free(escape_text(s.title)),
        markup_free(escape_text(title)),
        markup_free(escape_text(stamp)),
        s.content is Paragraph ==> markup_free(escape_text(s.content->Paragraph_0)),
        s.content is Bullets ==> forall|k: int|
            0 <= k < s.content->Bullets_0.len() ==> #[trigger] markup_free(
                escape_text(s.content->Bullets_0[k]),
            ),
{
    lemma_escape_markup_free(s.title);
    lemma_escape_markup_free(title);
    lemma_escape_markup_free(stamp);
    match s.content {
        ContentModel::Paragraph(t) => {
            lemma_escape_markup_free(t);
        },
        ContentModel::Bullets(b) => {
            assert forall|k: int| 0 <= k < b.len() implies #[trigger] markup_free(escape_text(b[k])) by {
                lemma_escape_markup_free(b[k]);
            }
        },
    }
}

} // verus!
