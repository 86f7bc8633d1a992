//! Blog post data models: heading levels, sections and whole posts.
use vstd::prelude::*;
use crate::deps::{markdown_html, markdown_to_html, new_id, now, Timestamp};
use crate::text::{
    byte_len, chars_of, count_words_in, join, join_strings, lines, lines_of, trimmed, has_prefix, owned,
    push_all, push_char, string_of, string_views, trim, trim_bounds, words,
};

verus! {

/// Heading level in a blog post.
#[derive(Clone, Copy, Debug, PartialEq, Eq, Structural)]
pub enum HeadingLevel {
    /// H1 - Main title
    H1,
    /// H2 - Major sections
    H2,
    /// H3 - Subsections
    H3,
}

/// The Markdown marker of a heading level.
pub open spec fn heading_marker(level: HeadingLevel) -> Seq<char> {
    match level {
        HeadingLevel::H1 => seq!['#'],
        HeadingLevel::H2 => seq!['#', '#'],
        HeadingLevel::H3 => seq!['#', '#', '#'],
    }
}

/// What `from_markdown_line` reads from a line: the level and heading text
/// when the trimmed line starts with `"### "`, `"## "` or `"# "`.
pub open spec fn parse_heading(line: Seq<char>) -> Option<(HeadingLevel, Seq<char>)> {
    let t = trim(line);
    if has_prefix(t, seq!['#', '#', '#', ' ']) {
        Some((HeadingLevel::H3, t.skip(4)))
    } else if has_prefix(t, seq!['#', '#', ' ']) {
        Some((HeadingLevel::H2, t.skip(3)))
    } else if has_prefix(t, seq!['#', ' ']) {
        Some((HeadingLevel::H1, t.skip(2)))
    } else {
        None
    }
}

impl HeadingLevel {
    /// Convert to markdown heading prefix
    pub fn to_markdown_prefix(&self) -> (r: &'static str)
        ensures
            r@ == heading_marker(*self),
    {
        match self {
            HeadingLevel::H1 => {
                proof {
                    reveal_strlit("#");
                }
                "#"
            },
            HeadingLevel::H2 => {
                proof {
                    reveal_strlit("##");
                }
                "##"
            },
            HeadingLevel::H3 => {
                proof {
                    reveal_strlit("###");
                }
                "###"
            },
        }
    }

    /// Parse from markdown heading line
    pub fn from_markdown_line(line: &str) -> (r: Option<(Self, String)>)
        ensures
            parse_heading(line@) == match r {
                Some(p) => Some((p.0, p.1@)),
                None => None,
            },
    {
        let v = chars_of(line);
        let (lo, hi) = trim_bounds(&v);
        let ghost t = trim(line@);
        assert(t == v@.subrange(lo as int, hi as int));
        let n = hi - lo;
        if n >= 4 && v[lo] == '#' && v[lo + 1] == '#' && v[lo + 2] == '#' && v[lo + 3] == ' ' {
            assert(t.take(4) =~= seq!['#', '#', '#', ' ']);
            assert(t.skip(4) =~= v@.subrange(lo + 4, hi as int));
            Some((HeadingLevel::H3, string_of(&v, lo + 4, hi)))
        } else if n >= 3 && v[lo] == '#' && v[lo + 1] == '#' && v[lo + 2] == ' ' {
            assert(t.take(3) =~= seq!['#', '#', ' ']);
            assert(t.skip(3) =~= v@.subrange(lo + 3, hi as int));
            assert(!has_prefix(t, seq!['#', '#', '#', ' '])) by {
                if n >= 4 {
                    assert(t.take(4)[2] == ' ');
                }
            }
            Some((HeadingLevel::H2, string_of(&v, lo + 3, hi)))
        } else if n >= 2 && v[lo] == '#' && v[lo + 1] == ' ' {
            assert(t.take(2) =~= seq!['#', ' ']);
            assert(t.skip(2) =~= v@.subrange(lo + 2, hi as int));
            assert(!has_prefix(t, seq!['#', '#', '#', ' '])) by {
                if has_prefix(t, seq!['#', '#', '#', ' ']) {
                    assert(t.take(4)[1] == t[1]);
                }
            }
            assert(!has_prefix(t, seq!['#', '#', ' '])) by {
                if has_prefix(t, seq!['#', '#', ' ']) {
                    assert(t.take(3)[1] == t[1]);
                }
            }
            Some((HeadingLevel::H1, string_of(&v, lo + 2, hi)))
        } else {
            assert(!has_prefix(t, seq!['#', '#', '#', ' '])) by {
                if n >= 4 && has_prefix(t, seq!['#', '#', '#', ' ']) {
                    assert(t.take(4)[0] == t[0]);
                    assert(t.take(4)[1] == t[1]);
                    assert(t.take(4)[2] == t[2]);
                    assert(t.take(4)[3] == t[3]);
                }
            }
            assert(!has_prefix(t, seq!['#', '#', ' '])) by {
                if n >= 3 && has_prefix(t, seq!['#', '#', ' ']) {
                    assert(t.take(3)[0] == t[0]);
                    assert(t.take(3)[1] == t[1]);
                    assert(t.take(3)[2] == t[2]);
                }
            }
            assert(!has_prefix(t, seq!['#', ' '])) by {
                if n >= 2 && has_prefix(t, seq!['#', ' ']) {
                    assert(t.take(2)[0] == t[0]);
                    assert(t.take(2)[1] == t[1]);
                }
            }
            None
        }
    }
}

/// A section within a blog post
#[derive(Clone, Debug)]
pub struct BlogSection {
    /// Unique identifier
    pub id: String,
    /// Section heading text
    pub heading: String,
    /// Heading level (H1, H2, H3)
    pub level: HeadingLevel,
    /// Section content (markdown)
    pub content: String,
    /// Optional image prompt for this section
    pub suggested_image: Option<String>,
    /// Word count of this section
    pub word_count: usize,
}

/// Markdown of one section: marker, heading, a blank line, then the content.
pub open spec fn section_markdown(level: HeadingLevel, heading: Seq<char>, content: Seq<char>) -> Seq<
    char,
> {
    heading_marker(level) + seq![' '] + heading + seq!['\n', '\n'] + content
}

impl BlogSection {
    /// Create a new blog section
    pub fn new(heading: String, level: HeadingLevel) -> (s: Self)
        ensures
            s.heading == heading,
            s.level == level,
            s.content@.len() == 0,
            s.suggested_image is None,
            s.word_count == 0,
    {
        BlogSection {
            id: new_id(),
            heading,
            level,
            content: String::new(),
            suggested_image: None,
            word_count: 0,
        }
    }

    /// Update content and recalculate word count
    pub fn set_content(&mut self, content: String)
        ensures
            final(self).word_count == words(content@),
            final(self).content == content,
            final(self).id == old(self).id,
            final(self).heading == old(self).heading,
            final(self).level == old(self).level,
            final(self).suggested_image == old(self).suggested_image,
    {
        self.word_count = count_words_in(content.as_str());
        self.content = content;
    }

    /// Convert to markdown
    pub fn to_markdown(&self) -> (md: String)
        ensures
            md@ == section_markdown(self.level, self.heading@, self.content@),
    {
        let mut md = owned(self.level.to_markdown_prefix());
        push_char(&mut md, ' ');
        push_all(&mut md, self.heading.as_str());
        push_char(&mut md, '\n');
        push_char(&mut md, '\n');
        push_all(&mut md, self.content.as_str());
        md
    }
}

/// Markdown of the sections of a post, each followed by a blank line.
pub open spec fn sections_markdown(sections: Seq<BlogSection>) -> Seq<char>
    decreases sections.len(),
{
    if sections.len() == 0 {
        Seq::empty()
    } else {
        let s = sections.last();
        sections_markdown(sections.drop_last()) + section_markdown(s.level, s.heading@, s.content@)
            + seq!['\n', '\n']
    }
}

/// Markdown of a whole post before trimming: an H1 title line when the
/// title is not empty, then every section.
pub open spec fn post_markdown(title: Seq<char>, sections: Seq<BlogSection>) -> Seq<char> {
    (if title.len() > 0 {
        seq!['#', ' '] + title + seq!['\n', '\n']
    } else {
        Seq::empty()
    }) + sections_markdown(sections)
}

/// Complete blog post with metadata
#[derive(Clone, Debug)]
pub struct BlogPost {
    /// Unique identifier
    pub id: String,
    /// Blog post title (H1)
    pub title: String,
    /// SEO meta description
    pub meta_description: String,
    /// SEO keywords
    pub keywords: Vec<String>,
    /// Structured outline (all sections)
    pub outline: Vec<BlogSection>,
    /// Full content as markdown
    pub content: String,
    /// Total word count
    pub word_count: usize,
    /// Creation timestamp
    pub created_at: Timestamp,
    /// Last update timestamp
    pub updated_at: Timestamp,
}

impl BlogPost {
    /// Create a new blog post from a topic
    pub fn new(title: String) -> (p: Self)
        ensures
            p.title == title,
            p.meta_description@.len() == 0,
            p.keywords@.len() == 0,
            p.outline@.len() == 0,
            p.content@.len() == 0,
            p.word_count == 0,
            p.created_at == p.updated_at,
    {
        let now = now();
        BlogPost {
            id: new_id(),
            title,
            meta_description: String::new(),
            keywords: Vec::new(),
            outline: Vec::new(),
            content: String::new(),
            word_count: 0,
            created_at: now,
            updated_at: now,
        }
    }

    /// Generate full markdown content from outline
    pub fn generate_content(&mut self)
        ensures
            final(self).word_count == words(post_markdown(old(self).title@, old(self).outline@)),
            final(self).content@ == trim(post_markdown(old(self).title@, old(self).outline@)),
            final(self).id == old(self).id,
            final(self).title == old(self).title,
            final(self).meta_description == old(self).meta_description,
            final(self).keywords == old(self).keywords,
            final(self).outline == old(self).outline,
            final(self).created_at == old(self).created_at,
    {
        let mut content = String::new();
        if !self.title.as_str().is_empty() {
            push_char(&mut content, '#');
            push_char(&mut content, ' ');
            push_all(&mut content, self.title.as_str());
            push_char(&mut content, '\n');
            push_char(&mut content, '\n');
        }
        let ghost head = content@;
        assert(head == post_markdown(self.title@, Seq::<BlogSection>::empty()));
        let mut i: usize = 0;
        while i < self.outline.len()
            invariant
                i <= self.outline@.len(),
                content@ == head + sections_markdown(self.outline@.take(i as int)),
            decreases self.outline@.len() - i,
        {
            let md = self.outline[i].to_markdown();
            push_all(&mut content, md.as_str());
            push_char(&mut content, '\n');
            push_char(&mut content, '\n');
            assert(self.outline@.take(i + 1).drop_last() == self.outline@.take(i as int));
            i += 1;
        }
        assert(self.outline@.take(self.outline@.len() as int) == self.outline@);
        self.word_count = count_words_in(content.as_str());
        self.content = trimmed(content.as_str());
        self.updated_at = now();
    }

    /// Export as HTML (Markdown rendered by comrak)
    pub fn to_html(&self) -> (html: String)
        ensures
            html@ == markdown_html(self.content@),
    {
        markdown_to_html(self.content.as_str())
    }
}

/// The lines of `ls` that do not start with `#`.
pub open spec fn non_heading_lines(ls: Seq<Seq<char>>) -> Seq<Seq<char>>
    decreases ls.len(),
{
    if ls.len() == 0 {
        Seq::empty()
    } else {
        let rest = non_heading_lines(ls.drop_last());
        if ls.last().len() > 0 && ls.last()[0] == '#' {
            rest
        } else {
            rest.push(ls.last())
        }
    }
}

/// The text a summary is cut from: the content's lines that are not
/// headings, joined by spaces.
pub open spec fn summary_source(content: Seq<char>) -> Seq<char> {
    join(non_heading_lines(lines(content)), " "@)
}

impl BlogPost {
    /// The content's lines that are not headings, joined by spaces.
    pub fn summary_text(&self) -> (t: String)
        ensures
            t@ == summary_source(self.content@),
    {
        let v = chars_of(self.content.as_str());
        let ls = lines_of(&v);
        let ghost lv = lines(self.content@);
        let mut kept: Vec<String> = Vec::new();
        let mut i: usize = 0;
        while i < ls.len()
            invariant
                i <= ls@.len() == lv.len(),
                lv == lines(self.content@),
                forall|k: int| 0 <= k < ls@.len() ==> #[trigger] ls@[k]@ == lv[k],
                string_views(kept@) == non_heading_lines(lv.take(i as int)),
            decreases ls@.len() - i,
        {
            assert(lv.take(i + 1).drop_last() == lv.take(i as int));
            assert(lv.take(i + 1).last() == ls@[i as int]@);
            let line = &ls[i];
            if !(line.len() > 0 && line[0] == '#') {
                let l = string_of(line, 0, line.len());
                assert(line@.subrange(0, line@.len() as int) == line@);
                let ghost before = kept@;
                kept.push(l);
                assert(string_views(kept@) == string_views(before).push(l@));
            }
            i += 1;
        }
        assert(lv.take(lv.len() as int) == lv);
        join_strings(&kept, " ")
    }

    /// Get a brief summary: the text of the non-heading lines, cut to its
    /// first 200 characters followed by `...` when it is longer.
    pub fn summary(&self) -> (s: String)
        ensures
            summary_source(self.content@).len() > 200 ==> s@ == summary_source(self.content@).take(200) + "..."@,
            summary_source(self.content@).len() <= 200 ==> s@ == summary_source(self.content@),
    {
        let t = self.summary_text();
        let v = chars_of(t.as_str());
        if v.len() > 200 {
            let mut s = string_of(&v, 0, 200);
            push_all(&mut s, "...");
            s
        } else {
            t
        }
    }
}

/// A heading written as its level's marker, a space and its text reads
/// back as that level and text, when the text is not empty and has no
/// surrounding whitespace.
pub proof fn lemma_heading_round_trip(level: HeadingLevel, text: Seq<char>)
    requires
        text.len() > 0,
        !crate::text::is_ws(text[0]),
        !crate::text::is_ws(text.last()),
    ensures
        parse_heading(heading_marker(level) + seq![' '] + text) == Some((level, text)),
{
    let line = heading_marker(level) + seq![' '] + text;
    assert(line[0] == '#');
    assert(line.last() == text.last());
    assert(crate::text::trim_start(line) == line);
    assert(crate::text::trim_end(line) == line);
    let m = heading_marker(level).len();
    assert(line.skip(m + 1 as int) =~= text);
    match level {
        HeadingLevel::H1 => {
            assert(line[1] == ' ');
            assert(line.take(2) =~= seq!['#', ' ']);
        },
        HeadingLevel::H2 => {
            assert(line[2] == ' ');
            assert(line.take(3) =~= seq!['#', '#', ' ']);
        },
        HeadingLevel::H3 => {
            assert(line.take(4) =~= seq!['#', '#', '#', ' ']);
        },
    }
}

/// A section's Markdown is its heading line (level marker, a space, the
/// heading), a blank line, and then its whole content: the content is a
/// suffix, so two sections differing only in content give different
/// Markdown.
pub proof fn lemma_section_markdown_ends_with_content(level: HeadingLevel, heading: Seq<char>, content: Seq<char>)
    ensures
        ({
            let m = section_markdown(level, heading, content);
            let head: int = (heading_marker(level).len() + 1 + heading.len()) as int;
            &&& m.len() == head + 2 + content.len()
            &&& m.take(head) == heading_marker(level) + seq![' '] + heading
            &&& m[head] == '\n' && m[head + 1] == '\n'
            &&& m.skip(head + 2) == content
        }),
{
    let m = section_markdown(level, heading, content);
    let head: int = (heading_marker(level).len() + 1 + heading.len()) as int;
    assert(m.take(head) =~= heading_marker(level) + seq![' '] + heading);
    assert(m.skip(head + 2) =~= content);
}

} // verus!
