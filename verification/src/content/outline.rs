//! Outline generation for blog posts: the prompt sent to the language
//! model and the parser that turns its Markdown reply into sections.
use vstd::prelude::*;
use crate::models::blog_post::{parse_heading, BlogSection, HeadingLevel};
use crate::text::{chars_of, decimal, decimal_string, lines, lines_of, owned, push_all, string_of, trim, trim_bounds};

verus! {

/// The most H3 subsections an outline keeps: the outline asks for two or
/// three of them.
pub open spec fn max_subsections() -> nat {
    3
}

/// Headings found in `ls`, one per line that parses as a heading, except
/// that H3 subsections after the third are dropped.
pub open spec fn outline_entries(ls: Seq<Seq<char>>) -> Seq<(HeadingLevel, Seq<char>)>
    decreases ls.len(),
{
    if ls.len() == 0 {
        Seq::empty()
    } else {
        let prev = outline_entries(ls.drop_last());
        match parse_heading(trim(ls.last())) {
            Some(e) => if e.0 == HeadingLevel::H3 && count_level(prev, HeadingLevel::H3) >= max_subsections() {
                prev
            } else {
                prev.push(e)
            },
            None => prev,
        }
    }
}

/// Number of entries at `level`.
pub open spec fn count_level(es: Seq<(HeadingLevel, Seq<char>)>, level: HeadingLevel) -> nat
    decreases es.len(),
{
    if es.len() == 0 {
        0
    } else {
        count_level(es.drop_last(), level) + if es.last().0 == level {
            1nat
        } else {
            0nat
        }
    }
}

/// Why an outline is refused, or `None` when it is accepted: it must hold a
/// heading, an H1 title and at least three H2 sections.
pub open spec fn outline_error(es: Seq<(HeadingLevel, Seq<char>)>) -> Option<Seq<char>> {
    if es.len() == 0 {
        Some("No headings found in LLM response"@)
    } else if count_level(es, HeadingLevel::H1) == 0 {
        Some("Outline must have an H1 title"@)
    } else if count_level(es, HeadingLevel::H2) < 3 {
        Some("Outline should have at least 3 main sections (H2), found "@ + decimal(
            count_level(es, HeadingLevel::H2),
        ))
    } else {
        None
    }
}

/// Parse LLM response into structured outline: a section for each heading
/// line, in order, keeping at most three H3 subsections.
pub fn parse_outline(text: &str) -> (r: Result<Vec<BlogSection>, String>)
    ensures
        r is Ok <==> outline_error(outline_entries(lines(text@))) is None,
        r matches Err(e) ==> Some(e@) == outline_error(outline_entries(lines(text@))),
        r matches Ok(secs) ==> {
            let es = outline_entries(lines(text@));
            &&& secs@.len() == es.len()
            &&& forall|i: int|
                0 <= i < es.len() ==> {
                    &&& (#[trigger] secs@[i]).level == es[i].0
                    &&& secs@[i].heading@ == es[i].1
                    &&& secs@[i].content@.len() == 0
                    &&& secs@[i].suggested_image is None
                    &&& secs@[i].word_count == 0
                }
        },
{
    let v = chars_of(text);
    let ls = lines_of(&v);
    let ghost lsv = lines(text@);
    let mut sections: Vec<BlogSection> = Vec::new();
    let mut h1: usize = 0;
    let mut h2: usize = 0;
    let mut h3: usize = 0;
    let mut i: usize = 0;
    while i < ls.len()
        invariant
            i <= ls@.len() == lsv.len(),
            lsv == lines(text@),
            forall|k: int| 0 <= k < ls@.len() ==> #[trigger] ls@[k]@ == lsv[k],
            sections@.len() == outline_entries(lsv.take(i as int)).len(),
            h1 == count_level(outline_entries(lsv.take(i as int)), HeadingLevel::H1),
            h2 == count_level(outline_entries(lsv.take(i as int)), HeadingLevel::H2),
            h3 == count_level(outline_entries(lsv.take(i as int)), HeadingLevel::H3),
            h1 <= sections@.len(),
            h3 <= sections@.len(),
            h2 <= sections@.len(),
            sections@.len() <= i,
            forall|k: int|
                0 <= k < sections@.len() ==> {
                    let e = outline_entries(lsv.take(i as int))[k];
                    &&& (#[trigger] sections@[k]).level == e.0
                    &&& sections@[k].heading@ == e.1
                    &&& sections@[k].content@.len() == 0
                    &&& sections@[k].suggested_image is None
                    &&& sections@[k].word_count == 0
                },
        decreases ls@.len() - i,
    {
        let line = &ls[i];
        let (lo, hi) = trim_bounds(line);
        let t = string_of(line, lo, hi);
        assert(lsv.take(i + 1).drop_last() == lsv.take(i as int));
        assert(lsv.take(i + 1).last() == ls@[i as int]@);
        let parsed = HeadingLevel::from_markdown_line(t.as_str());
        match parsed {
            Some((level, heading)) => {
                let ghost before = sections@;
                let ghost prev = outline_entries(lsv.take(i as int));
                let ghost e = (level, heading@);
                let dropped = match level {
                    HeadingLevel::H3 => h3 >= 3,
                    _ => false,
                };
                if dropped {
                    assert(outline_entries(lsv.take(i + 1)) == prev);
                } else {
                    assert(outline_entries(lsv.take(i + 1)) == prev.push(e));
                    assert(prev.push(e).drop_last() == prev);
                    sections.push(BlogSection::new(heading, level));
                    match level {
                        HeadingLevel::H1 => {
                            h1 += 1;
                        },
                        HeadingLevel::H2 => {
                            h2 += 1;
                        },
                        HeadingLevel::H3 => {
                            h3 += 1;
                        },
                    }
                    assert(forall|k: int| 0 <= k < before.len() ==> sections@[k] == before[k]);
                }
            },
            None => {},
        }
        i += 1;
    }
    assert(lsv.take(ls@.len() as int) == lsv);
    if sections.len() == 0 {
        return Err(owned("No headings found in LLM response"));
    }
    if h1 == 0 {
        return Err(owned("Outline must have an H1 title"));
    }
    if h2 < 3 {
        let mut msg = owned("Outline should have at least 3 main sections (H2), found ");
        let count = decimal_string(h2);
        push_all(&mut msg, count.as_str());
        return Err(msg);
    }
    Ok(sections)
}

/// The request sent to the language model for an outline on `topic`.
pub open spec fn outline_prompt_text(topic: Seq<char>) -> Seq<char> {
    "Create a detailed blog post outline for the topic: \""@ + topic + OUTLINE_INSTRUCTIONS@
}

/// Instructions that follow the topic in the outline request.
pub const OUTLINE_INSTRUCTIONS: &'static str = "\"\n\nInstructions:\n- Start with a compelling H1 title\n- Include 5-7 main H2 sections\n- Add 2-3 H3 subsections under key H2s\n- Use clear, descriptive headings\n- Format as markdown headings (# for H1, ## for H2, ### for H3)\n- Only return the outline, no explanation\n\nExample format:\n# Main Title Here\n## Introduction\n### Background\n### Why This Matters\n## Main Section 1\n### Subsection A\n## Conclusion\n\nNow create the outline:";

/// The request `generate_outline` sends to the language model.
pub fn outline_prompt(topic: &str) -> (p: String)
    ensures
        p@ == outline_prompt_text(topic@),
{
    let mut p = owned("Create a detailed blog post outline for the topic: \"");
    push_all(&mut p, topic);
    push_all(&mut p, OUTLINE_INSTRUCTIONS);
    p
}

} // verus!
