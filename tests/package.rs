use std::io::Read;

use panicpoint::archive::write_archive;
use panicpoint::model::{PackagePart, PresentationInput, SlideContent, SlideInput};
use panicpoint::package::{allocate_slide, build_package, slide_path_string, CORE_INDEX};
use panicpoint::presentation::{create_presentation, output_file_name, package_presentation};
use panicpoint::text::{push_decimal, push_escaped};


const STAMP: &str = "2024-05-01T10:00:00+00:00";

fn bullets(title: &str, lines: &[&str]) -> SlideInput {
    SlideInput {
        title: title.to_string(),
        content: SlideContent::Bullets(lines.iter().map(|l| l.to_string()).collect()),
    }
}

fn paragraph(title: &str, text: &str) -> SlideInput {
    SlideInput { title: title.to_string(), content: SlideContent::Paragraph(text.to_string()) }
}

fn find<'a>(parts: &'a [PackagePart], path: &str) -> &'a str {
    let matches: Vec<&PackagePart> = parts.iter().filter(|p| p.relative_path == path).collect();
    assert_eq!(matches.len(), 1, "exactly one part at {}", path);
    &matches[0].text
}

fn content_shape(slide: &str) -> &str {
    let start = slide.find("name=\"Content\"").expect("content shape");
    &slide[start..]
}

/// Checks that `text` is one well-formed XML document: an XML declaration,
/// then properly nested elements, with `&` used only for the predefined
/// entities and no stray `<` or `>` in character data.
fn assert_well_formed(text: &str) {
    let body = text.strip_prefix("<?xml version=\"1.0\" encoding=\"UTF-8\" standalone=\"yes\"?>\n").expect("declaration");
    let mut stack: Vec<String> = Vec::new();
    let mut roots = 0;
    let mut rest = body;
    while !rest.is_empty() {
        if let Some(after) = rest.strip_prefix('<') {
            let end = after.find('>').expect("tag closed");
            let tag = &after[..end];
            assert!(!tag.contains('<'), "nested markup in tag {}", tag);
            if let Some(name) = tag.strip_prefix('/') {
                assert_eq!(stack.pop().as_deref(), Some(name), "mismatched end tag");
            } else {
                if stack.is_empty() {
                    roots += 1;
                }
                let name: String = tag.chars().take_while(|c| !c.is_whitespace() && *c != '/').collect();
                assert!(!name.is_empty());
                if !tag.ends_with('/') {
                    stack.push(name);
                }
            }
            rest = &after[end + 1..];
        } else {
            let end = rest.find('<').unwrap_or(rest.len());
            let data = &rest[..end];
            assert!(!data.contains('>'), "stray > in {:?}", data);
            let mut amp = data;
            while let Some(i) = amp.find('&') {
                amp = &amp[i..];
                assert!(
                    ["&amp;", "&lt;", "&gt;", "&quot;", "&apos;"].iter().any(|e| amp.starts_with(e)),
                    "bare & in {:?}",
                    data
                );
                amp = &amp[1..];
            }
            if stack.is_empty() {
                assert!(data.trim().is_empty(), "text outside the root element");
            }
            rest = &rest[end..];
        }
    }
    assert!(stack.is_empty(), "unclosed elements {:?}", stack);
    assert_eq!(roots, 1);
}

/// Decodes the predefined entities, as an XML reader does.
fn decode(text: &str) -> String {
    text.replace("&lt;", "<")
        .replace("&gt;", ">")
        .replace("&quot;", "\"")
        .replace("&apos;", "'")
        .replace("&amp;", "&")
}

/// The texts of the runs of `xml`, in order, decoded.
fn runs(xml: &str) -> Vec<String> {
    xml.split("<a:t>").skip(1).map(|s| decode(&s[..s.find("</a:t>").unwrap()])).collect()
}

fn read_archive(bytes: &[u8]) -> Vec<(String, String)> {
    let mut archive = zip::ZipArchive::new(std::io::Cursor::new(bytes.to_vec())).expect("valid zip");
    let mut entries = Vec::new();
    for i in 0..archive.len() {
        let mut file = archive.by_index(i).expect("entry");
        assert_eq!(file.compression(), zip::CompressionMethod::Stored);
        let mut text = String::new();
        file.read_to_string(&mut text).expect("utf-8 entry");
        entries.push((file.name().to_string(), text));
    }
    entries
}

#[test]
fn decimal_numerals() {
    for (n, expected) in [(0u64, "0"), (7, "7"), (10, "10"), (256, "256"), (2147483647, "2147483647")] {
        let mut s = String::from("x");
        push_decimal(&mut s, n);
        assert_eq!(s, format!("x{}", expected));
    }
}

#[test]
fn escaping_replaces_reserved_characters() {
    let mut s = String::new();
    push_escaped(&mut s, "a<b & c>d \"q\" 'p' é");
    assert_eq!(s, "a&lt;b &amp; c&gt;d &quot;q&quot; &apos;p&apos; é");
}

#[test]
fn allocation_table() {
    let a = allocate_slide(1);
    assert_eq!((a.number, a.slide_id, a.rel_id), (1, 256, 2));
    let b = allocate_slide(5);
    assert_eq!((b.number, b.slide_id, b.rel_id), (5, 260, 6));
    assert_eq!(slide_path_string(12), "ppt/slides/slide12.xml");
}

#[test]
fn package_has_every_part_once() {
    let input = PresentationInput {
        title: "Deck".to_string(),
        slides: vec![paragraph("One", "x"), bullets("Two", &["a"]), paragraph("Three", "y")],
    };
    let parts = build_package(&input, STAMP);
    let paths: Vec<&str> = parts.iter().map(|p| p.relative_path.as_str()).collect();
    assert_eq!(
        paths,
        vec![
            "[Content_Types].xml",
            "_rels/.rels",
            "docProps/core.xml",
            "ppt/presentation.xml",
            "ppt/_rels/presentation.xml.rels",
            "ppt/slideMasters/slideMaster1.xml",
            "ppt/slideMasters/_rels/slideMaster1.xml.rels",
            "ppt/slides/slide1.xml",
            "ppt/slides/_rels/slide1.xml.rels",
            "ppt/slides/slide2.xml",
            "ppt/slides/_rels/slide2.xml.rels",
            "ppt/slides/slide3.xml",
            "ppt/slides/_rels/slide3.xml.rels",
        ]
    );
    for p in &parts {
        assert!(p.text.starts_with("<?xml version=\"1.0\" encoding=\"UTF-8\" standalone=\"yes\"?>\n"));
    }
}

#[test]
fn slide_references_agree() {
    let input = PresentationInput {
        title: "Deck".to_string(),
        slides: vec![paragraph("One", "x"), bullets("Two", &["a", "b"]), paragraph("Three", "y")],
    };
    let parts = build_package(&input, STAMP);
    let types = find(&parts, "[Content_Types].xml");
    let pres = find(&parts, "ppt/presentation.xml");
    let rels = find(&parts, "ppt/_rels/presentation.xml.rels");
    assert_eq!(types.matches("presentationml.slide+xml").count(), 3);
    assert_eq!(pres.matches("<p:sldId ").count(), 3);
    assert_eq!(rels.matches("relationships/slide\"").count(), 3);
    for k in 1..=3 {
        assert!(types.contains(&format!("<Override PartName=\"/ppt/slides/slide{}.xml\"", k)));
        assert!(pres.contains(&format!("<p:sldId id=\"{}\" r:id=\"rId{}\"/>", 255 + k, k + 1)));
        assert!(rels.contains(&format!(
            "<Relationship Id=\"rId{}\" Type=\"http://schemas.openxmlformats.org/officeDocument/2006/relationships/slide\" Target=\"slides/slide{}.xml\"/>",
            k + 1,
            k
        )));
        find(&parts, &format!("ppt/slides/slide{}.xml", k));
        assert_eq!(
            find(&parts, &format!("ppt/slides/_rels/slide{}.xml.rels", k)),
            "<?xml version=\"1.0\" encoding=\"UTF-8\" standalone=\"yes\"?>\n<Relationships xmlns=\"http://schemas.openxmlformats.org/package/2006/relationships\">\n</Relationships>\n"
        );
    }
    assert!(pres.contains("<p:sldMasterId id=\"2147483648\" r:id=\"rId1\"/>"));
    assert!(rels.contains("Id=\"rId1\" Type=\"http://schemas.openxmlformats.org/officeDocument/2006/relationships/slideMaster\" Target=\"slideMasters/slideMaster1.xml\""));
}

#[test]
fn reserved_characters_are_escaped() {
    let input = PresentationInput {
        title: "R&D <2024>".to_string(),
        slides: vec![bullets("Q&A <live>", &["x < y", "a & b > c"]), paragraph("P", "\"quoted\" & 'single'")],
    };
    let parts = build_package(&input, STAMP);
    let s1 = find(&parts, "ppt/slides/slide1.xml");
    assert!(s1.contains("<a:t>Q&amp;A &lt;live&gt;</a:t>"));
    assert!(s1.contains("<a:t>x &lt; y</a:t>"));
    assert!(s1.contains("<a:t>a &amp; b &gt; c</a:t>"));
    assert!(!s1.contains("<live>"));
    let s2 = find(&parts, "ppt/slides/slide2.xml");
    assert!(s2.contains("<a:t>&quot;quoted&quot; &amp; &apos;single&apos;</a:t>"));
    let core = find(&parts, "docProps/core.xml");
    assert!(core.contains("<dc:title>R&amp;D &lt;2024&gt;</dc:title>"));
    assert_eq!(runs(s1), vec!["Q&A <live>", "x < y", "a & b > c"]);
    assert_eq!(runs(s2), vec!["P", "\"quoted\" & 'single'"]);
    for p in &parts {
        assert_well_formed(&p.text);
    }
}

#[test]
fn paragraph_gives_one_paragraph() {
    let input = PresentationInput { title: "T".to_string(), slides: vec![paragraph("S", "Hello world")] };
    let parts = build_package(&input, STAMP);
    let shape = content_shape(find(&parts, "ppt/slides/slide1.xml"));
    assert_eq!(shape.matches("<a:p>").count(), 1);
    assert!(shape.contains("<a:p><a:r><a:rPr lang=\"en-US\"/><a:t>Hello world</a:t></a:r></a:p>"));
    assert!(!shape.contains("lvl="));
}

#[test]
fn bullets_give_one_paragraph_each_in_order() {
    let input = PresentationInput { title: "T".to_string(), slides: vec![bullets("S", &["a", "b", "c"])] };
    let parts = build_package(&input, STAMP);
    let shape = content_shape(find(&parts, "ppt/slides/slide1.xml"));
    assert_eq!(shape.matches("<a:p>").count(), 3);
    assert_eq!(shape.matches("<a:pPr lvl=\"0\"/>").count(), 3);
    let a = shape.find("<a:t>a</a:t>").unwrap();
    let b = shape.find("<a:t>b</a:t>").unwrap();
    let c = shape.find("<a:t>c</a:t>").unwrap();
    assert!(a < b && b < c);
}

#[test]
fn slide_has_title_and_content_shapes() {
    let input = PresentationInput { title: "T".to_string(), slides: vec![paragraph("My title", "body")] };
    let parts = build_package(&input, STAMP);
    let slide = find(&parts, "ppt/slides/slide1.xml");
    assert_eq!(slide.matches("<p:sp>").count(), 2);
    assert!(slide.contains("<p:ph type=\"title\"/>"));
    assert!(slide.contains("<p:ph idx=\"1\"/>"));
    assert!(slide.contains("<a:t>My title</a:t>"));
}

#[test]
fn core_properties_carry_title_and_time() {
    let input = PresentationInput { title: "Deck".to_string(), slides: vec![paragraph("S", "x")] };
    let parts = build_package(&input, STAMP);
    let core = &parts[CORE_INDEX];
    assert_eq!(core.relative_path, "docProps/core.xml");
    assert!(core.text.contains("<dc:title>Deck</dc:title>"));
    assert!(core.text.contains("<dc:creator>PanicPoint</dc:creator>"));
    assert!(core.text.contains(&format!("<dcterms:created xsi:type=\"dcterms:W3CDTF\">{}</dcterms:created>", STAMP)));
    assert!(core.text.contains(&format!("<dcterms:modified xsi:type=\"dcterms:W3CDTF\">{}</dcterms:modified>", STAMP)));
}

#[test]
fn builds_agree_apart_from_the_timestamp() {
    let input = PresentationInput {
        title: "Deck".to_string(),
        slides: vec![paragraph("S", "x"), bullets("B", &["1", "2"])],
    };
    let one = build_package(&input, STAMP);
    let two = build_package(&input, "2030-12-31T23:59:59+02:00");
    assert_eq!(one.len(), two.len());
    for j in 0..one.len() {
        assert_eq!(one[j].relative_path, two[j].relative_path);
        if j != CORE_INDEX {
            assert_eq!(one[j].text, two[j].text);
        } else {
            assert_ne!(one[j].text, two[j].text);
        }
    }
    let a = package_presentation(&input, STAMP).ok().unwrap();
    let b = package_presentation(&input, STAMP).ok().unwrap();
    assert_eq!(a, b);
}

#[test]
fn archive_reads_back_as_the_parts() {
    let input = PresentationInput {
        title: "Deck".to_string(),
        slides: vec![paragraph("S", "x & y"), bullets("B", &["1", "2"])],
    };
    let parts = build_package(&input, STAMP);
    let bytes = write_archive(&parts).ok().unwrap();
    let entries = read_archive(&bytes);
    assert_eq!(entries.len(), 7 + 2 * 2);
    for (entry, part) in entries.iter().zip(parts.iter()) {
        assert_eq!(entry.0, part.relative_path);
        assert_eq!(entry.1, part.text);
        assert_well_formed(&entry.1);
    }
}

#[test]
fn empty_set_gives_empty_archive() {
    let bytes = write_archive(&Vec::new()).ok().unwrap();
    assert!(read_archive(&bytes).is_empty());
}

#[test]
fn demo_scenario() {
    let input = PresentationInput {
        title: "Demo".to_string(),
        slides: vec![bullets("Intro", &["First point", "Second point"])],
    };
    assert_eq!(output_file_name(&input.title), "PanicPoint_Demo.pptx");
    let bytes = create_presentation(&input).ok().unwrap();
    let entries = read_archive(&bytes);
    let slide = &entries.iter().find(|e| e.0 == "ppt/slides/slide1.xml").expect("slide1").1;
    let shape = content_shape(slide);
    assert_eq!(shape.matches("<a:p>").count(), 2);
    let first = shape.find("<a:t>First point</a:t>").unwrap();
    let second = shape.find("<a:t>Second point</a:t>").unwrap();
    assert!(first < second);
    assert_eq!(runs(shape), vec!["First point", "Second point"]);
    let types = &entries.iter().find(|e| e.0 == "[Content_Types].xml").unwrap().1;
    assert_eq!(types.matches("/ppt/slides/slide1.xml").count(), 1);
    assert_eq!(types.matches("presentationml.slide+xml").count(), 1);
    let core = &entries.iter().find(|e| e.0 == "docProps/core.xml").unwrap().1;
    let created = core.split("<dcterms:created xsi:type=\"dcterms:W3CDTF\">").nth(1).unwrap();
    let created = &created[..created.find('<').unwrap()];
    assert!(created.len() >= 20 && created.contains('T'), "timestamp {:?}", created);
    assert!(created.chars().all(|c| c.is_ascii_digit() || "-+:.T".contains(c)), "timestamp {:?}", created);
    assert!(core.contains(&format!("<dcterms:modified xsi:type=\"dcterms:W3CDTF\">{}</dcterms:modified>", created)));
    for e in &entries {
        assert_well_formed(&e.1);
    }
}

#[test]
fn single_slide_single_bullet() {
    let input = PresentationInput { title: "Min".to_string(), slides: vec![bullets("Only", &["one"])] };
    let parts = build_package(&input, STAMP);
    assert_eq!(parts.len(), 9);
    let shape = content_shape(find(&parts, "ppt/slides/slide1.xml"));
    assert_eq!(shape.matches("<a:p>").count(), 1);
    assert!(shape.contains("<a:pPr lvl=\"0\"/><a:r><a:rPr lang=\"en-US\"/><a:t>one</a:t>"));
    let bytes = package_presentation(&input, STAMP).ok().unwrap();
    let entries = read_archive(&bytes);
    assert_eq!(entries.len(), 9);
    for e in &entries {
        assert_well_formed(&e.1);
    }
}

#[test]
fn file_name_replaces_spaces() {
    assert_eq!(output_file_name("My big talk"), "PanicPoint_My_big_talk.pptx");
    assert_eq!(output_file_name("a  b"), "PanicPoint_a__b.pptx");
}
