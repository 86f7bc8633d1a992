//! The content workflow: prompts for outlines, sections and images, reading
//! the model's outline back into sections, and exporting an article.
use vstd::prelude::*;

use crate::deps::{alphanumeric, is_alphanumeric, markdown_html, markdown_to_html};
use crate::models::BlogPost;
use crate::text::{
    byte_len, decimal, decimal_string, has_infix, contains_str, nonblank_lines, nonblank_trimmed, string_views,
    chars_of, first_chars, has_prefix, lines, lines_of, owned, prefix_at, push_all, push_char,
    string_of, take_chars, trim, trim_bounds, trimmed, str_less, str_lt, lemma_str_less_asymmetric,
    lemma_str_less_irreflexive, lemma_str_less_total, lemma_str_less_transitive,
};

verus! {

/// The prompt asking for an outline of an article titled `title` in a
/// template's style.
pub open spec fn outline_request(title: Seq<char>, template: Seq<char>) -> Seq<char> {
    "Generate an article outline for: \""@ + title + "\"\n\nTemplate style: "@ + template
        + "\n\nCreate 4-6 sections with clear titles. For each section, provide a brief description of what should be covered.\n\nFormat your response as:\n## Section Title 1\nBrief description of what this section should cover.\n\n## Section Title 2\nBrief description of what this section should cover.\n\n(Continue for all sections)\n\nOnly output the sections, no introduction or conclusion about the outline itself."@
}

/// The prompt asking for an outline.
pub fn outline_request_prompt(title: &str, template_name: &str) -> (p: String)
    ensures
        p@ == outline_request(title@, template_name@),
{
    let mut p = owned("Generate an article outline for: \"");
    push_all(&mut p, title);
    push_all(&mut p, "\"\n\nTemplate style: ");
    push_all(&mut p, template_name);
    push_all(
        &mut p,
        "\n\nCreate 4-6 sections with clear titles. For each section, provide a brief description of what should be covered.\n\nFormat your response as:\n## Section Title 1\nBrief description of what this section should cover.\n\n## Section Title 2\nBrief description of what this section should cover.\n\n(Continue for all sections)\n\nOnly output the sections, no introduction or conclusion about the outline itself.",
    );
    p
}

/// Sections read so far and the section being read (its title and the
/// text gathered for it).
pub type ScanState = (Seq<(Seq<char>, Seq<char>)>, Option<(Seq<char>, Seq<char>)>);

/// The scan after one more line: a `## ` line closes the open section and
/// opens one titled by the rest of the line; another non-blank line is
/// added to the open section's text, after a space.
pub open spec fn scan_line(st: ScanState, line: Seq<char>) -> ScanState {
    let t = trim(line);
    if has_prefix(t, "## "@) {
        let done = match st.1 {
            Some((title, text)) => st.0.push((title, trim(text))),
            None => st.0,
        };
        (done, Some((trim(t.skip(3)), Seq::empty())))
    } else {
        match st.1 {
            Some((title, text)) => if t.len() == 0 {
                st
            } else if text.len() == 0 {
                (st.0, Some((title, t)))
            } else {
                (st.0, Some((title, text + seq![' '] + t)))
            },
            None => st,
        }
    }
}

/// The scan of a sequence of lines.
pub open spec fn scan_lines(ls: Seq<Seq<char>>) -> ScanState
    decreases ls.len(),
{
    if ls.len() == 0 {
        (Seq::empty(), None)
    } else {
        scan_line(scan_lines(ls.drop_last()), ls.last())
    }
}

/// The sections of an outline answer: each `## ` heading with the
/// non-blank lines under it joined by spaces.
pub open spec fn outline_sections(response: Seq<char>) -> Seq<(Seq<char>, Seq<char>)> {
    let st = scan_lines(lines(response));
    match st.1 {
        Some((title, text)) => st.0.push((title, trim(text))),
        None => st.0,
    }
}

/// The sections as plain values.
pub open spec fn pair_views(v: Seq<(String, String)>) -> Seq<(Seq<char>, Seq<char>)> {
    v.map_values(|p: (String, String)| (p.0@, p.1@))
}

/// Parse the LLM response into section tuples
pub fn parse_outline_response(response: &str) -> (sections: Vec<(String, String)>)
    ensures
        pair_views(sections@) == outline_sections(response@),
{
    let v = chars_of(response);
    let ls = lines_of(&v);
    let ghost lv = lines(response@);
    let marker = chars_of("## ");
    let mut sections: Vec<(String, String)> = Vec::new();
    let mut title: Option<String> = None;
    let mut text = String::new();
    let mut i: usize = 0;
    while i < ls.len()
        invariant
            i <= ls@.len() == lv.len(),
            lv == lines(response@),
            marker@ == "## "@,
            forall|k: int| 0 <= k < ls@.len() ==> #[trigger] ls@[k]@ == lv[k],
            pair_views(sections@) == scan_lines(lv.take(i as int)).0,
            match title {
                Some(t) => scan_lines(lv.take(i as int)).1 == Some((t@, text@)),
                None => scan_lines(lv.take(i as int)).1 is None,
            },
        decreases ls@.len() - i,
    {
        assert(lv.take(i + 1).drop_last() == lv.take(i as int));
        assert(lv.take(i + 1).last() == ls@[i as int]@);
        let line = &ls[i];
        let (lo, hi) = trim_bounds(line);
        let t = string_of(line, lo, hi);
        let tv = chars_of(t.as_str());
        let heading = tv.len() >= 3 && prefix_at(&tv, 0, &marker);
        proof {
            assert(tv@.subrange(0, tv@.len() as int) == tv@);
            reveal_strlit("## ");
            assert(tv@.len() < 3 ==> !has_prefix(tv@, "## "@));
        }
        if heading {
            match title {
                Some(prev) => {
                    let body = trimmed(text.as_str());
                    let ghost before = sections@;
                    sections.push((prev, body));
                    assert(pair_views(sections@) == pair_views(before).push((prev@, body@)));
                },
                None => {},
            }
            let (rlo, rhi) = trim_bounds_from(&tv, 3);
            title = Some(string_of(&tv, rlo, rhi));
            text = String::new();
        } else {
            if title.is_some() && tv.len() > 0 {
                let tc = chars_of(text.as_str());
                if tc.len() > 0 {
                    push_char(&mut text, ' ');
                }
                push_all(&mut text, t.as_str());
            }
        }
        i += 1;
    }
    assert(lv.take(lv.len() as int) == lv);
    match title {
        Some(prev) => {
            let body = trimmed(text.as_str());
            let ghost before = sections@;
            sections.push((prev, body));
            assert(pair_views(sections@) == pair_views(before).push((prev@, body@)));
        },
        None => {},
    }
    sections
}

/// Bounds of `v[from..]` trimmed of whitespace.
fn trim_bounds_from(v: &Vec<char>, from: usize) -> (r: (usize, usize))
    requires
        from <= v@.len(),
    ensures
        from <= r.0 <= r.1 <= v@.len(),
        v@.subrange(r.0 as int, r.1 as int) == trim(v@.skip(from as int)),
{
    let rest = string_of(v, from, v.len());
    let w = chars_of(rest.as_str());
    let (lo, hi) = trim_bounds(&w);
    assert(w@ == v@.skip(from as int));
    assert(v@.subrange(from + lo, from + hi) == w@.subrange(lo as int, hi as int));
    (from + lo, from + hi)
}

/// The sections used when the model's outline has none.
pub open spec fn default_outline() -> Seq<(Seq<char>, Seq<char>)> {
    seq![
        ("Introduction"@, "Write an engaging introduction"@),
        ("Background"@, "Provide context and background"@),
        ("Main Content"@, "Elaborate on the main topic"@),
        ("Conclusion"@, "Summarize key points"@),
    ]
}

/// The outline to use: the parsed sections, or the default four when none
/// were found.
pub fn outline_or_default(sections: Vec<(String, String)>) -> (r: Vec<(String, String)>)
    ensures
        pair_views(r@) == (if sections@.len() == 0 {
            default_outline()
        } else {
            pair_views(sections@)
        }),
{
    if sections.len() == 0 {
        let r = vec![
            (owned("Introduction"), owned("Write an engaging introduction")),
            (owned("Background"), owned("Provide context and background")),
            (owned("Main Content"), owned("Elaborate on the main topic")),
            (owned("Conclusion"), owned("Summarize key points")),
        ];
        assert(pair_views(r@) =~= default_outline());
        r
    } else {
        sections
    }
}

/// The prompt asking for the content of a section.
pub open spec fn expand_request(section_title: Seq<char>, context: Seq<char>) -> Seq<char> {
    "Write content for the section \""@ + section_title + "\" in an article titled \""@ + context
        + "\".\n\nRequirements:\n- Write 2-4 paragraphs of well-structured content\n- Be informative and engaging\n- Use clear, professional language\n- Include specific details and examples where appropriate\n- Do not include the section title in your response\n\nWrite the section content now:"@
}

/// The prompt asking for the content of a section of an article.
pub fn expand_section_prompt(section_title: &str, context: &str) -> (p: String)
    ensures
        p@ == expand_request(section_title@, context@),
{
    let mut p = owned("Write content for the section \"");
    push_all(&mut p, section_title);
    push_all(&mut p, "\" in an article titled \"");
    push_all(&mut p, context);
    push_all(
        &mut p,
        "\".\n\nRequirements:\n- Write 2-4 paragraphs of well-structured content\n- Be informative and engaging\n- Use clear, professional language\n- Include specific details and examples where appropriate\n- Do not include the section title in your response\n\nWrite the section content now:",
    );
    p
}

/// The prompt asking for an image prompt, quoting the first 500
/// characters of the article.
pub open spec fn image_prompt_request(text: Seq<char>) -> Seq<char> {
    "Based on the following article content, generate a single image prompt that would create a visually appealing illustration.\n\nArticle content:\n"@
        + first_chars(text, 500)
        + "\n\nGenerate a concise image prompt (1-2 sentences) that describes a scene, concept, or visual that would complement this content. Focus on visual elements, style, and mood.\n\nImage prompt:"@
}

/// The prompt asking for an image prompt for an article.
pub fn image_prompt_prompt(text: &str) -> (p: String)
    ensures
        p@ == image_prompt_request(text@),
{
    let mut p = owned(
        "Based on the following article content, generate a single image prompt that would create a visually appealing illustration.\n\nArticle content:\n",
    );
    let head = take_chars(text, 500);
    push_all(&mut p, head.as_str());
    push_all(
        &mut p,
        "\n\nGenerate a concise image prompt (1-2 sentences) that describes a scene, concept, or visual that would complement this content. Focus on visual elements, style, and mood.\n\nImage prompt:",
    );
    p
}

/// The model's answer as it is handed on: trimmed.
pub fn answer_text(response: &str) -> (r: String)
    ensures
        r@ == trim(response@),
{
    trimmed(response)
}

/// The Markdown of sections, each a level-two heading and its content.
pub open spec fn sections_md(sections: Seq<(Seq<char>, Seq<char>)>) -> Seq<char>
    decreases sections.len(),
{
    if sections.len() == 0 {
        Seq::empty()
    } else {
        sections_md(sections.drop_last()) + "## "@ + sections.last().0 + "\n\n"@ + sections.last().1
            + "\n\n"@
    }
}

/// An article as Markdown: its title and its sections.
pub open spec fn article_md(title: Seq<char>, sections: Seq<(Seq<char>, Seq<char>)>) -> Seq<char> {
    "# "@ + title + "\n\n"@ + sections_md(sections)
}

/// Export content to markdown format
pub fn export_to_markdown(title: &str, sections: &Vec<(String, String)>) -> (md: String)
    ensures
        md@ == article_md(title@, pair_views(sections@)),
{
    let ghost pv = pair_views(sections@);
    let mut md = owned("# ");
    push_all(&mut md, title);
    push_all(&mut md, "\n\n");
    let ghost head = md@;
    let mut i: usize = 0;
    while i < sections.len()
        invariant
            i <= sections@.len(),
            pv == pair_views(sections@),
            md@ == head + sections_md(pv.take(i as int)),
        decreases sections@.len() - i,
    {
        assert(pv.take(i + 1).drop_last() == pv.take(i as int));
        assert(pv.take(i + 1).last() == (sections@[i as int].0@, sections@[i as int].1@));
        push_all(&mut md, "## ");
        push_all(&mut md, sections[i].0.as_str());
        push_all(&mut md, "\n\n");
        push_all(&mut md, sections[i].1.as_str());
        push_all(&mut md, "\n\n");
        i += 1;
    }
    assert(pv.take(pv.len() as int) == pv);
    md
}

/// Export content to HTML format: the Markdown export rendered by comrak.
pub fn export_to_html(title: &str, sections: &Vec<(String, String)>) -> (html: String)
    ensures
        html@ == markdown_html(article_md(title@, pair_views(sections@))),
{
    let md = export_to_markdown(title, sections);
    markdown_to_html(md.as_str())
}

/// A character as it may stand in a context file name: letters, digits,
/// `-` and `_` stay, anything else becomes `_`.
pub open spec fn safe_char(c: char) -> char {
    if alphanumeric(c) || c == '-' || c == '_' {
        c
    } else {
        '_'
    }
}

/// A title with every character made safe for a file name.
pub open spec fn safe_title(s: Seq<char>) -> Seq<char> {
    s.map_values(|c: char| safe_char(c))
}

/// The file a context document titled `title` is saved as: the title made
/// safe, then `.md`. (A safe title holds no `.`, so it never already ends
/// in `.md` or `.txt`.)
pub fn context_file_name(title: &str) -> (name: String)
    ensures
        name@ == safe_title(title@) + ".md"@,
{
    let v = chars_of(title);
    let mut safe = String::new();
    let mut i: usize = 0;
    while i < v.len()
        invariant
            i <= v@.len(),
            v@ == title@,
            safe@ == safe_title(v@.take(i as int)),
        decreases v@.len() - i,
    {
        let c = v[i];
        let keep = is_alphanumeric(c) || c == '-' || c == '_';
        if keep {
            push_char(&mut safe, c);
        } else {
            push_char(&mut safe, '_');
        }
        assert(safe_title(v@.take(i + 1)) =~= safe_title(v@.take(i as int)).push(safe_char(c)));
        i += 1;
    }
    assert(v@.take(v@.len() as int) == v@);
    push_all(&mut safe, ".md");
    safe
}

/// A context file name is refused when it could leave the context
/// directory: when it holds `..` or `/`.
pub fn check_context_filename(filename: &str) -> (r: Result<(), String>)
    ensures
        has_infix(filename@, ".."@) || has_infix(filename@, "/"@) ==> (r matches Err(e) && e@ == "Invalid filename"@),
        !(has_infix(filename@, ".."@) || has_infix(filename@, "/"@)) ==> r is Ok,
{
    if contains_str(filename, "..") || contains_str(filename, "/") {
        return Err(owned("Invalid filename"));
    }
    Ok(())
}

/// The preview of a context file: its first 100 characters, followed by
/// `...` when the file is longer than 100 bytes.
pub fn context_preview(content: &str) -> (p: String)
    ensures
        p@ == first_chars(content@, 100) + (if byte_len(content@) > 100 {
            "..."@
        } else {
            Seq::empty()
        }),
{
    let mut p = take_chars(content, 100);
    if content.len() > 100 {
        push_all(&mut p, "...");
    }
    p
}

/// Save a blog post to the content library: nothing is stored yet, and the
/// post's id is given back.
pub fn save_blog_post(post: BlogPost) -> (id: String)
    ensures
        id == post.id,
{
    post.id
}

/// A blog outline needs a topic that is not blank.
pub fn check_blog_topic(topic: &str) -> (r: Result<(), String>)
    ensures
        trim(topic@).len() == 0 ==> (r matches Err(e) && e@ == "Topic cannot be empty"@),
        trim(topic@).len() > 0 ==> r is Ok,
{
    let v = chars_of(topic);
    let (lo, hi) = trim_bounds(&v);
    if lo == hi {
        return Err(owned("Topic cannot be empty"));
    }
    Ok(())
}

/// The prompt asking for SEO titles.
pub open spec fn seo_titles_request(topic: Seq<char>, count: u8) -> Seq<char> {
    "Generate "@ + decimal(count as nat) + " catchy, SEO-optimized blog post titles for the topic: \""@ + topic
        + "\"\n\nRequirements:\n- 50-60 characters each\n- Include relevant keywords\n- Engaging and click-worthy\n- Return only the titles, one per line\n- No numbering or bullets"@
}

/// The prompt asking for `count` SEO titles for `topic`.
pub fn seo_titles_prompt(topic: &str, count: u8) -> (p: String)
    ensures
        p@ == seo_titles_request(topic@, count),
{
    let mut p = owned("Generate ");
    push_all(&mut p, decimal_string(count as usize).as_str());
    push_all(&mut p, " catchy, SEO-optimized blog post titles for the topic: \"");
    push_all(&mut p, topic);
    push_all(
        &mut p,
        "\"\n\nRequirements:\n- 50-60 characters each\n- Include relevant keywords\n- Engaging and click-worthy\n- Return only the titles, one per line\n- No numbering or bullets",
    );
    p
}

/// The titles in the model's answer: its first `count` non-blank lines,
/// trimmed; an error when there are none.
pub fn seo_titles(response: &str, count: u8) -> (r: Result<Vec<String>, String>)
    ensures
        ({
            let all = nonblank_trimmed(lines(response@));
            let want = if all.len() <= count {
                all
            } else {
                all.take(count as int)
            };
            if want.len() == 0 {
                r matches Err(e) && e@ == "No titles generated"@
            } else {
                r matches Ok(ts) && string_views(ts@) == want
            }
        }),
{
    let all = nonblank_lines(response);
    let mut ts: Vec<String> = Vec::new();
    let mut i: usize = 0;
    while i < all.len() && i < count as usize
        invariant
            i <= all@.len(),
            i <= count,
            string_views(ts@) == string_views(all@).take(i as int),
        decreases all@.len() - i,
    {
        let t = all[i].clone();
        let ghost before = ts@;
        ts.push(t);
        assert(string_views(ts@) == string_views(before).push(t@));
        assert(string_views(all@).take(i + 1) == string_views(all@).take(i as int).push(all@[i as int]@));
        i += 1;
    }
    assert(string_views(all@).take(string_views(all@).len() as int) == string_views(all@));
    if ts.len() == 0 {
        return Err(owned("No titles generated"));
    }
    Ok(ts)
}

/// A context document as listed: its name, size in bytes and preview.
#[derive(Clone, Debug)]
pub struct ContextFile {
    pub name: String,
    pub size: u64,
    pub preview: String,
}

impl ContextFile {
    /// The listing entry of a file named `name`, `size` bytes long, holding
    /// `content`.
    pub fn from_file(name: String, size: u64, content: &str) -> (f: Self)
        ensures
            f.name == name,
            f.size == size,
            f.preview@ == first_chars(content@, 100) + (if byte_len(content@) > 100 {
                "..."@
            } else {
                Seq::empty()
            }),
    {
        ContextFile { name, size, preview: context_preview(content) }
    }
}

/// The index of the last `.` in `s`, or -1 when it has none.
pub open spec fn last_dot(s: Seq<char>) -> int
    decreases s.len(),
{
    if s.len() == 0 {
        -1
    } else if s.last() == '.' {
        s.len() - 1
    } else {
        last_dot(s.drop_last())
    }
}

/// The extension of a file name, as `Path::extension` gives it: the text
/// after the last `.`; none when the name has no `.`, when its only `.` is
/// its first character, and for `..`.
pub open spec fn file_extension(name: Seq<char>) -> Option<Seq<char>> {
    let d = last_dot(name);
    if name == ".."@ || d <= 0 {
        None
    } else {
        Some(name.skip(d + 1))
    }
}

/// The names of the files that serve as context: those with the extension
/// `md`, `txt` or `json`.
pub open spec fn is_context_name(name: Seq<char>) -> bool {
    match file_extension(name) {
        Some(e) => e == "md"@ || e == "txt"@ || e == "json"@,
        None => false,
    }
}

/// The extension of a file name (`Path::extension` on a directory
/// entry's name).
pub fn extension_of(name: &str) -> (r: Option<String>)
    ensures
        match r {
            Some(e) => file_extension(name@) == Some(e@),
            None => file_extension(name@) is None,
        },
{
    let v = chars_of(name);
    let mut k: usize = v.len();
    assert(name@.take(name@.len() as int) =~= name@);
    while k > 0 && v[k - 1] != '.'
        invariant
            k <= v@.len(),
            v@ == name@,
            last_dot(name@) == last_dot(name@.take(k as int)),
        decreases k,
    {
        assert(name@.take(k as int).drop_last() =~= name@.take(k - 1));
        k -= 1;
    }
    if k > 0 {
        assert(name@.take(k as int).last() == '.');
    } else {
        assert(name@.take(0) =~= Seq::<char>::empty());
    }
    proof {
        reveal_strlit("..");
    }
    if k <= 1 {
        assert(last_dot(name@) <= 0);
        return None;
    }
    if v.len() == 2 && v[0] == '.' && v[1] == '.' {
        assert(name@ =~= ".."@);
        return None;
    }
    assert(name@ != ".."@) by {
        if name@ == ".."@ {
            assert(name@.len() == 2 && name@[0] == '.' && name@[1] == '.');
        }
    }
    let ext = string_of(&v, k, v.len());
    assert(ext@ =~= name@.skip(k as int));
    Some(ext)
}

/// Whether a file of this name is listed as a context document: a text
/// file by its extension (`md`, `txt` or `json`).
pub fn is_context_file(name: &str) -> (b: bool)
    ensures
        b == is_context_name(name@),
{
    match extension_of(name) {
        Some(ext) => ext == owned("md") || ext == owned("txt") || ext == owned("json"),
        None => false,
    }
}

/// A file has the name `k`.
pub open spec fn has_name(k: Seq<char>) -> spec_fn(ContextFile) -> bool {
    |f: ContextFile| f.name@ == k
}

/// The files with the name `k`, in order.
pub open spec fn named(fs: Seq<ContextFile>, k: Seq<char>) -> Seq<ContextFile> {
    fs.filter(has_name(k))
}

/// The files are in order of name.
pub open spec fn by_name(fs: Seq<ContextFile>) -> bool {
    forall|i: int, j: int| #![trigger fs[i], fs[j]] 0 <= i < j < fs.len() ==> !str_less(fs[j].name@, fs[i].name@)
}

/// The files sorted by name; files with the same name keep their order
/// (a stable sort, as `sort_by` on the names is).
pub fn sort_context_files(files: Vec<ContextFile>) -> (sorted: Vec<ContextFile>)
    ensures
        by_name(sorted@),
        forall|k: Seq<char>| #[trigger] named(sorted@, k) == named(files@, k),
        sorted@.to_multiset() == files@.to_multiset(),
{
    broadcast use vstd::seq_lib::group_to_multiset_ensures;
    let ghost input = files@;
    let n: usize = files.len();
    let mut rest = files;
    let mut out: Vec<ContextFile> = Vec::new();
    let mut i: usize = 0;
    assert(input.take(0) =~= Seq::<ContextFile>::empty());
    assert(input.skip(0) =~= input);
    proof {
        reveal_with_fuel(Seq::filter, 1);
    }
    while rest.len() > 0
        invariant
            i + rest@.len() == input.len(),
            input.len() == n,
            rest@ == input.skip(i as int),
            by_name(out@),
            forall|k: Seq<char>| #[trigger] named(out@, k) == named(input.take(i as int), k),
            out@.to_multiset() == input.take(i as int).to_multiset(),
        decreases rest@.len(),
    {
        let x = rest.remove(0);
        assert(x == input[i as int]);
        assert(rest@ =~= input.skip(i + 1));
        assert(input.take(i + 1) =~= input.take(i as int).push(x));
        let ghost e = out@;
        let mut p: usize = 0;
        while p < out.len() && !str_lt(x.name.as_str(), out[p].name.as_str())
            invariant
                p <= out@.len(),
                e == out@,
                forall|a: int| 0 <= a < p ==> !str_less(x.name@, #[trigger] e[a].name@),
            decreases out@.len() - p,
        {
            p += 1;
        }
        assert(p < e.len() ==> str_less(x.name@, e[p as int].name@));
        out.insert(p, x);
        proof {
            reveal_with_fuel(Seq::filter, 2);
            let e2 = out@;
            assert(e2 =~= e.insert(p as int, x));
            assert(e.insert(p as int, x) =~= e.take(p as int) + seq![x] + e.skip(p as int));
            assert(e =~= e.take(p as int) + e.skip(p as int));
            // every file from `p` on has a greater name than `x`
            assert forall|b: int| p <= b < e.len() implies str_less(x.name@, #[trigger] e[b].name@) by {
                if b > p {
                    assert(!str_less(e[b].name@, e[p as int].name@));
                    if !str_less(x.name@, e[b].name@) {
                        if x.name@ != e[b].name@ {
                            lemma_str_less_total(x.name@, e[b].name@);
                            lemma_str_less_transitive(e[b].name@, x.name@, e[p as int].name@);
                        }
                    }
                }
            }
            assert forall|a: int, b: int| #![trigger e2[a], e2[b]] 0 <= a < b < e2.len() implies !str_less(
                e2[b].name@,
                e2[a].name@,
            ) by {
                if b < p {
                    assert(e2[a] == e[a] && e2[b] == e[b]);
                } else if b == p {
                    assert(e2[a] == e[a]);
                } else if a < p {
                    assert(e2[a] == e[a] && e2[b] == e[b - 1]);
                } else if a == p {
                    assert(e2[b] == e[b - 1]);
                    assert(str_less(x.name@, e[b - 1].name@));
                    lemma_str_less_asymmetric(x.name@, e[b - 1].name@);
                } else {
                    assert(e2[a] == e[a - 1] && e2[b] == e[b - 1]);
                }
            }
            assert forall|k: Seq<char>| #[trigger] named(e2, k) == named(input.take(i + 1), k) by {
                let pred = has_name(k);
                let prev = input.take(i as int);
                assert(named(e, k) == named(prev, k));
                assert(input.take(i + 1).drop_last() =~= prev);
                assert(input.take(i + 1).last() == x);
                Seq::filter_distributes_over_add(e.take(p as int) + seq![x], e.skip(p as int), pred);
                Seq::filter_distributes_over_add(e.take(p as int), seq![x], pred);
                Seq::filter_distributes_over_add(e.take(p as int), e.skip(p as int), pred);
                assert(seq![x].drop_last() =~= Seq::<ContextFile>::empty());
                if x.name@ == k {
                    assert forall|b: int| 0 <= b < e.skip(p as int).len() implies !pred(#[trigger] e.skip(p as int)[b]) by {
                        assert(e.skip(p as int)[b] == e[p + b]);
                        assert(str_less(x.name@, e[p + b].name@));
                        lemma_str_less_irreflexive(x.name@);
                    }
                    lemma_filter_none(e.skip(p as int), pred);
                    assert(seq![x].filter(pred) =~= seq![x]);
                    assert(e2.filter(pred) =~= e.filter(pred).push(x));
                    assert(input.take(i + 1).filter(pred) == prev.filter(pred).push(x));
                } else {
                    assert(seq![x].filter(pred) =~= Seq::<ContextFile>::empty());
                    assert(e2.filter(pred) =~= e.filter(pred));
                    assert(input.take(i + 1).filter(pred) == prev.filter(pred));
                }
            }
            vstd::seq_lib::to_multiset_insert(e, p as int, x);
            vstd::seq_lib::to_multiset_build(input.take(i as int), x);
            assert(e2.to_multiset() == input.take(i + 1).to_multiset());
        }
        i += 1;
    }
    assert(input.take(i as int) =~= input);
    out
}

/// A sequence none of whose items meets `pred` filters to nothing.
proof fn lemma_filter_none(s: Seq<ContextFile>, pred: spec_fn(ContextFile) -> bool)
    requires
        forall|b: int| 0 <= b < s.len() ==> !pred(#[trigger] s[b]),
    ensures
        s.filter(pred) =~= Seq::<ContextFile>::empty(),
    decreases s.len(),
{
    reveal(Seq::filter);
    if s.len() > 0 {
        assert forall|b: int| 0 <= b < s.drop_last().len() implies !pred(#[trigger] s.drop_last()[b]) by {
            assert(s.drop_last()[b] == s[b]);
        }
        lemma_filter_none(s.drop_last(), pred);
    }
}

} // verus!
