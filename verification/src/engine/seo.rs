//! SEO analysis of Markdown content: word, sentence and syllable counts,
//! heading structure, the issues found and the recommendations made.
//!
//! The readability score and the keyword densities are floating-point
//! figures; they are computed by the application, which hands the
//! library the facts it decides on.
use vstd::prelude::*;
use vstd::utf8::encode_utf8;
use crate::deps::{alphanumeric, is_alphanumeric, lowercase, to_lowercase};
use crate::text::{
    byte_len, comma_items, first_chars, pieces, take_chars, trimmed, trimmed_nonempty,
    chars_of, count_words_in, decimal, decimal_string, has_prefix, join, join_strings, lines,
    lines_of, owned, push_all, string_of, string_views, trim, trim_bounds, word_list, words,
    words_of,
};

verus! {

/// Heading structure analysis
#[derive(Clone, Debug)]
pub struct HeadingStructure {
    pub h1_count: usize,
    pub h2_count: usize,
    pub h3_count: usize,
    pub has_proper_hierarchy: bool,
    pub headings: Vec<Heading>,
}

/// A heading: its level, text and the byte offset of its line.
#[derive(Clone, Debug)]
pub struct Heading {
    pub level: u8,
    pub text: String,
    pub position: usize,
}

/// SEO issue severity
#[derive(Clone, Copy, Debug, PartialEq, Eq, Structural)]
pub enum SeoIssueSeverity {
    Critical,
    Warning,
    Info,
}

/// SEO issue
#[derive(Clone, Debug)]
pub struct SeoIssue {
    pub severity: SeoIssueSeverity,
    pub title: String,
    pub description: String,
    pub fix: Option<String>,
}

/// What the issue checks and recommendations read of an analysis. The
/// application fills in the two facts that come from floating-point
/// figures: the readability score rendered with one decimal when it is
/// below 50, and whether sentences average more than 25 words.
#[derive(Clone, Debug)]
pub struct SeoFacts {
    pub heading_structure: HeadingStructure,
    pub meta_description: String,
    pub word_count: usize,
    pub suggested_keywords: Vec<String>,
    pub schema_markup: Option<String>,
    pub difficult_readability: Option<String>,
    pub long_sentences: bool,
}

/// Count words in text
pub fn count_words(text: &str) -> (n: usize)
    ensures
        n == words(text@),
{
    count_words_in(text)
}

/// Number of sentence marks (`.`, `!`, `?`) in `s`.
pub open spec fn sentence_marks(s: Seq<char>) -> nat
    decreases s.len(),
{
    if s.len() == 0 {
        0
    } else {
        sentence_marks(s.drop_last()) + if s.last() == '.' || s.last() == '!' || s.last() == '?' {
            1nat
        } else {
            0nat
        }
    }
}

/// Count sentences in text: its sentence marks, and at least one.
pub fn count_sentences(text: &str) -> (n: usize)
    ensures
        n == if sentence_marks(text@) < 1 {
            1
        } else {
            sentence_marks(text@)
        },
{
    let v = chars_of(text);
    let mut count: usize = 0;
    let mut i: usize = 0;
    while i < v.len()
        invariant
            i <= v@.len(),
            v@ == text@,
            count <= i,
            count == sentence_marks(v@.take(i as int)),
        decreases v@.len() - i,
    {
        assert(v@.take(i + 1).drop_last() == v@.take(i as int));
        let c = v[i];
        if c == '.' || c == '!' || c == '?' {
            count += 1;
        }
        i += 1;
    }
    assert(v@.take(v@.len() as int) == v@);
    if count < 1 {
        1
    } else {
        count
    }
}

/// The letters counted as vowels.
pub open spec fn is_vowel(c: char) -> bool {
    c == 'a' || c == 'e' || c == 'i' || c == 'o' || c == 'u' || c == 'y'
}

/// Number of maximal runs of vowels in `s`.
pub open spec fn vowel_groups(s: Seq<char>) -> nat
    decreases s.len(),
{
    if s.len() == 0 {
        0
    } else {
        let n = s.len() - 1;
        vowel_groups(s.take(n)) + if is_vowel(s[n]) && (n == 0 || !is_vowel(s[n - 1])) {
            1nat
        } else {
            0nat
        }
    }
}

/// Estimated syllables of a word: the vowel groups of its lowercase form,
/// one less for a final silent `e` when there are several, and at least one.
pub open spec fn syllables(word: Seq<char>) -> nat {
    let l = lowercase(word);
    let c = vowel_groups(l);
    let c2: nat = if l.len() > 0 && l.last() == 'e' && c > 1 {
        (c - 1) as nat
    } else {
        c
    };
    if c2 < 1 {
        1
    } else {
        c2
    }
}

/// Estimate syllables in a word (simplified heuristic)
pub fn estimate_syllables(word: &str) -> (n: usize)
    ensures
        n == syllables(word@),
{
    let lower = to_lowercase(word);
    let v = chars_of(lower.as_str());
    let mut count: usize = 0;
    let mut prev_was_vowel = false;
    let mut i: usize = 0;
    while i < v.len()
        invariant
            i <= v@.len(),
            v@ == lowercase(word@),
            count <= i,
            count == vowel_groups(v@.take(i as int)),
            prev_was_vowel == (i > 0 && is_vowel(v@[i - 1])),
        decreases v@.len() - i,
    {
        assert(v@.take(i + 1).drop_last() == v@.take(i as int));
        let ch = v[i];
        let vowel = ch == 'a' || ch == 'e' || ch == 'i' || ch == 'o' || ch == 'u' || ch == 'y';
        if vowel {
            if !prev_was_vowel {
                count += 1;
            }
            prev_was_vowel = true;
        } else {
            prev_was_vowel = false;
        }
        i += 1;
    }
    assert(v@.take(v@.len() as int) == v@);
    let n = v.len();
    if n > 0 && v[n - 1] == 'e' && count > 1 {
        count -= 1;
    }
    if count < 1 {
        1
    } else {
        count
    }
}

/// Total estimated syllables of `ws`.
pub open spec fn syllable_total(ws: Seq<Seq<char>>) -> nat
    decreases ws.len(),
{
    if ws.len() == 0 {
        0
    } else {
        syllable_total(ws.drop_last()) + syllables(ws.last())
    }
}

/// The syllables of a prefix of the words are at most those of all.
proof fn lemma_syllable_total_prefix(ws: Seq<Seq<char>>, n: int)
    requires
        0 <= n <= ws.len(),
    ensures
        syllable_total(ws.take(n)) <= syllable_total(ws),
    decreases ws.len() - n,
{
    if n < ws.len() {
        lemma_syllable_total_prefix(ws, n + 1);
        assert(ws.take(n + 1).drop_last() == ws.take(n));
    } else {
        assert(ws.take(n) == ws);
    }
}

/// Estimate syllable count of a text: the sum over its words.
pub fn count_syllables(text: &str) -> (n: usize)
    requires
        syllable_total(word_list(text@)) <= usize::MAX,
    ensures
        n == syllable_total(word_list(text@)),
{
    let v = chars_of(text);
    let ws = words_of(&v);
    let ghost wl = word_list(text@);
    let mut total: usize = 0;
    let mut i: usize = 0;
    while i < ws.len()
        invariant
            i <= ws@.len() == wl.len(),
            wl == word_list(text@),
            syllable_total(wl) <= usize::MAX,
            forall|k: int| 0 <= k < ws@.len() ==> #[trigger] ws@[k]@ == wl[k],
            total == syllable_total(wl.take(i as int)),
        decreases ws@.len() - i,
    {
        assert(wl.take(i + 1).drop_last() == wl.take(i as int));
        assert(wl.take(i + 1).last() == ws@[i as int]@);
        proof {
            lemma_syllable_total_prefix(wl, i + 1);
        }
        let w = string_of(&ws[i], 0, ws[i].len());
        assert(ws@[i as int]@.subrange(0, ws@[i as int]@.len() as int) == ws@[i as int]@);
        total = total + estimate_syllables(w.as_str());
        i += 1;
    }
    assert(wl.take(wl.len() as int) == wl);
    total
}

/// The grade of a Flesch reading-ease score, by the score's whole points.
pub open spec fn grade_of(points: u32) -> Seq<char> {
    if 90 <= points <= 100 {
        "Very Easy (5th grade)"@
    } else if 80 <= points <= 89 {
        "Easy (6th grade)"@
    } else if 70 <= points <= 79 {
        "Fairly Easy (7th grade)"@
    } else if 60 <= points <= 69 {
        "Standard (8th-9th grade)"@
    } else if 50 <= points <= 59 {
        "Fairly Difficult (10th-12th grade)"@
    } else if 30 <= points <= 49 {
        "Difficult (College)"@
    } else {
        "Very Difficult (College graduate)"@
    }
}

/// The reading grade for a reading-ease score of `points` whole points.
pub fn readability_grade(points: u32) -> (g: String)
    ensures
        g@ == grade_of(points),
{
    if 90 <= points && points <= 100 {
        owned("Very Easy (5th grade)")
    } else if 80 <= points && points <= 89 {
        owned("Easy (6th grade)")
    } else if 70 <= points && points <= 79 {
        owned("Fairly Easy (7th grade)")
    } else if 60 <= points && points <= 69 {
        owned("Standard (8th-9th grade)")
    } else if 50 <= points && points <= 59 {
        owned("Fairly Difficult (10th-12th grade)")
    } else if 30 <= points && points <= 49 {
        owned("Difficult (College)")
    } else {
        owned("Very Difficult (College graduate)")
    }
}

/// The level and text of a heading line (already trimmed), if it is one.
pub open spec fn heading_of_line(t: Seq<char>) -> Option<(u8, Seq<char>)> {
    if has_prefix(t, seq!['#', ' ']) && !has_prefix(t, seq!['#', '#', ' ']) {
        Some((1u8, t.skip(2)))
    } else if has_prefix(t, seq!['#', '#', ' ']) && !has_prefix(t, seq!['#', '#', '#', ' ']) {
        Some((2u8, t.skip(3)))
    } else if has_prefix(t, seq!['#', '#', '#', ' ']) {
        Some((3u8, t.skip(4)))
    } else {
        None
    }
}

/// Byte offset after the lines `ls`: each line's UTF-8 length plus one.
pub open spec fn line_offset(ls: Seq<Seq<char>>) -> nat
    decreases ls.len(),
{
    if ls.len() == 0 {
        0
    } else {
        line_offset(ls.drop_last()) + encode_utf8(ls.last()).len() + 1
    }
}

/// The headings of the lines `ls`: level, text and the offset of the line.
pub open spec fn headings_in(ls: Seq<Seq<char>>) -> Seq<(u8, Seq<char>, nat)>
    decreases ls.len(),
{
    if ls.len() == 0 {
        Seq::empty()
    } else {
        let prev = headings_in(ls.drop_last());
        match heading_of_line(trim(ls.last())) {
            Some(h) => prev.push((h.0, h.1, line_offset(ls.drop_last()))),
            None => prev,
        }
    }
}

/// Number of headings at `level`.
pub open spec fn level_count(hs: Seq<(u8, Seq<char>, nat)>, level: u8) -> nat
    decreases hs.len(),
{
    if hs.len() == 0 {
        0
    } else {
        level_count(hs.drop_last(), level) + if hs.last().0 == level {
            1nat
        } else {
            0nat
        }
    }
}

/// The offset of a prefix of the lines is at most that of all.
proof fn lemma_line_offset_prefix(ls: Seq<Seq<char>>, n: int)
    requires
        0 <= n <= ls.len(),
    ensures
        line_offset(ls.take(n)) <= line_offset(ls),
    decreases ls.len() - n,
{
    if n < ls.len() {
        lemma_line_offset_prefix(ls, n + 1);
        assert(ls.take(n + 1).drop_last() == ls.take(n));
    } else {
        assert(ls.take(n) == ls);
    }
}

/// The heading of a trimmed line, read from its characters `v[lo..hi]`.
fn heading_at(v: &Vec<char>, lo: usize, hi: usize) -> (r: Option<(u8, String)>)
    requires
        lo <= hi <= v@.len(),
    ensures
        match r {
            Some(h) => heading_of_line(v@.subrange(lo as int, hi as int)) == Some((h.0, h.1@)),
            None => heading_of_line(v@.subrange(lo as int, hi as int)) is None,
        },
{
    let ghost t = v@.subrange(lo as int, hi as int);
    let n = hi - lo;
    let p1 = n >= 2 && v[lo] == '#' && v[lo + 1] == ' ';
    let p2 = n >= 3 && v[lo] == '#' && v[lo + 1] == '#' && v[lo + 2] == ' ';
    let p3 = n >= 4 && v[lo] == '#' && v[lo + 1] == '#' && v[lo + 2] == '#' && v[lo + 3] == ' ';
    assert(p1 == has_prefix(t, seq!['#', ' '])) by {
        if n >= 2 {
            assert(t.take(2)[0] == t[0] && t.take(2)[1] == t[1]);
            if p1 {
                assert(t.take(2) =~= seq!['#', ' ']);
            }
        }
    }
    assert(p2 == has_prefix(t, seq!['#', '#', ' '])) by {
        if n >= 3 {
            assert(t.take(3)[0] == t[0] && t.take(3)[1] == t[1] && t.take(3)[2] == t[2]);
            if p2 {
                assert(t.take(3) =~= seq!['#', '#', ' ']);
            }
        }
    }
    assert(p3 == has_prefix(t, seq!['#', '#', '#', ' '])) by {
        if n >= 4 {
            assert(t.take(4)[0] == t[0] && t.take(4)[1] == t[1] && t.take(4)[2] == t[2] && t.take(4)[3] == t[3]);
            if p3 {
                assert(t.take(4) =~= seq!['#', '#', '#', ' ']);
            }
        }
    }
    if p1 && !p2 {
        assert(t.skip(2) =~= v@.subrange(lo + 2, hi as int));
        Some((1u8, string_of(v, lo + 2, hi)))
    } else if p2 && !p3 {
        assert(t.skip(3) =~= v@.subrange(lo + 3, hi as int));
        Some((2u8, string_of(v, lo + 3, hi)))
    } else if p3 {
        assert(t.skip(4) =~= v@.subrange(lo + 4, hi as int));
        Some((3u8, string_of(v, lo + 4, hi)))
    } else {
        None
    }
}

/// Analyze heading structure: the Markdown headings of each line, with
/// the byte offset of their line, and whether there is exactly one H1.
pub fn analyze_heading_structure(text: &str) -> (hs: HeadingStructure)
    requires
        line_offset(lines(text@)) <= usize::MAX,
    ensures
        ({
            let found = headings_in(lines(text@));
            &&& hs.headings@.len() == found.len()
            &&& forall|k: int|
                0 <= k < found.len() ==> {
                    &&& (#[trigger] hs.headings@[k]).level == found[k].0
                    &&& hs.headings@[k].text@ == found[k].1
                    &&& hs.headings@[k].position == found[k].2
                }
            &&& hs.h1_count == level_count(found, 1)
            &&& hs.h2_count == level_count(found, 2)
            &&& hs.h3_count == level_count(found, 3)
            &&& hs.has_proper_hierarchy == (level_count(found, 1) == 1)
        }),
{
    let v = chars_of(text);
    let ls = lines_of(&v);
    let ghost lv = lines(text@);
    let mut headings: Vec<Heading> = Vec::new();
    let mut h1: usize = 0;
    let mut h2: usize = 0;
    let mut h3: usize = 0;
    let mut char_pos: usize = 0;
    let mut i: usize = 0;
    while i < ls.len()
        invariant
            i <= ls@.len() == lv.len(),
            lv == lines(text@),
            line_offset(lv) <= usize::MAX,
            forall|k: int| 0 <= k < ls@.len() ==> #[trigger] ls@[k]@ == lv[k],
            char_pos == line_offset(lv.take(i as int)),
            headings@.len() == headings_in(lv.take(i as int)).len(),
            forall|k: int|
                0 <= k < headings@.len() ==> {
                    let h = headings_in(lv.take(i as int))[k];
                    &&& (#[trigger] headings@[k]).level == h.0
                    &&& headings@[k].text@ == h.1
                    &&& headings@[k].position == h.2
                },
            h1 == level_count(headings_in(lv.take(i as int)), 1),
            h2 == level_count(headings_in(lv.take(i as int)), 2),
            h3 == level_count(headings_in(lv.take(i as int)), 3),
            h1 <= headings@.len(),
            h2 <= headings@.len(),
            h3 <= headings@.len(),
            headings@.len() <= i,
        decreases ls@.len() - i,
    {
        let line = &ls[i];
        assert(lv.take(i + 1).drop_last() == lv.take(i as int));
        assert(lv.take(i + 1).last() == line@);
        proof {
            lemma_line_offset_prefix(lv, i + 1);
        }
        let (lo, hi) = trim_bounds(line);
        let found = heading_at(line, lo, hi);
        let ghost prev = headings_in(lv.take(i as int));
        match found {
            Some((level, htext)) => {
                let ghost e = (level, htext@, line_offset(lv.take(i as int)));
                assert(headings_in(lv.take(i + 1)) == prev.push(e));
                assert(prev.push(e).drop_last() == prev);
                let ghost before = headings@;
                headings.push(Heading { level, text: htext, position: char_pos });
                if level == 1 {
                    h1 += 1;
                } else if level == 2 {
                    h2 += 1;
                } else {
                    h3 += 1;
                }
                assert(forall|k: int| 0 <= k < before.len() ==> headings@[k] == before[k]);
            },
            None => {},
        }
        let s = string_of(line, 0, line.len());
        assert(line@.subrange(0, line@.len() as int) == line@);
        let bytes = s.as_str().len();
        char_pos = char_pos + bytes + 1;
        i += 1;
    }
    assert(lv.take(lv.len() as int) == lv);
    HeadingStructure {
        h1_count: h1,
        h2_count: h2,
        h3_count: h3,
        has_proper_hierarchy: h1 == 1,
        headings,
    }
}

/// Severity, title, description and fix of an issue.
pub open spec fn issue_view(i: SeoIssue) -> (SeoIssueSeverity, Seq<char>, Seq<char>, Option<Seq<char>>) {
    (i.severity, i.title@, i.description@, match i.fix {
        Some(f) => Some(f@),
        None => None,
    })
}

/// An issue reported for an analysis, as plain values.
pub type IssueView = (SeoIssueSeverity, Seq<char>, Seq<char>, Option<Seq<char>>);

/// The issue reported when the content has no title.
pub open spec fn title_issues(has_title: bool) -> Seq<IssueView> {
    if !has_title {
        seq![(SeoIssueSeverity::Critical, "Missing Title"@, "Content should have a clear title (H1)"@, Some("Add an H1 heading at the beginning"@))]
    } else {
        Seq::empty()
    }
}

/// The issue reported on the number of H1 headings.
pub open spec fn h1_issues(h1: usize) -> Seq<IssueView> {
    if h1 == 0 {
        seq![(SeoIssueSeverity::Critical, "No H1 Heading"@, "Every page should have exactly one H1 heading"@, Some("Add a single H1 heading"@))]
    } else if h1 > 1 {
        seq![(SeoIssueSeverity::Warning, "Multiple H1 Headings"@, "Found "@ + decimal(h1 as nat) + " H1 headings. Best practice is to have exactly one."@, Some("Use only one H1, convert others to H2 or H3"@))]
    } else {
        Seq::empty()
    }
}

/// The issue reported on the byte length of the meta description.
pub open spec fn description_issues(desc_len: nat) -> Seq<IssueView> {
    if desc_len < 120 {
        seq![(SeoIssueSeverity::Warning, "Short Meta Description"@, "Meta description is "@ + decimal(desc_len) + " characters. Recommended: 150-160"@, Some("Expand the meta description"@))]
    } else if desc_len > 160 {
        seq![(SeoIssueSeverity::Info, "Long Meta Description"@, "Meta description is "@ + decimal(desc_len) + " characters. It may be truncated in search results."@, Some("Shorten to 150-160 characters"@))]
    } else {
        Seq::empty()
    }
}

/// The issue reported on a low word count.
pub open spec fn word_count_issues(word_count: usize) -> Seq<IssueView> {
    if word_count < 300 {
        seq![(SeoIssueSeverity::Warning, "Low Word Count"@, "Content has "@ + decimal(word_count as nat) + " words. Recommended: 300+ for better SEO"@, Some("Add more detailed content"@))]
    } else {
        Seq::empty()
    }
}

/// The issue reported on a difficult readability score.
pub open spec fn readability_issues(difficult: Option<String>) -> Seq<IssueView> {
    match difficult {
        Some(score) => seq![(SeoIssueSeverity::Info, "Difficult Readability"@, "Readability score is "@ + score@ + ". Content may be too complex for general audience."@, Some("Use shorter sentences and simpler words"@))],
        None => Seq::empty(),
    }
}

/// The issues found in an analysis, in the order they are reported. The
/// description is measured in UTF-8 bytes, as `str::len` counts them.
pub open spec fn expected_issues(f: SeoFacts, has_title: bool) -> Seq<IssueView> {
    title_issues(has_title) + h1_issues(f.heading_structure.h1_count) + description_issues(
        (encode_utf8(f.meta_description@).len() as usize) as nat,
    ) + word_count_issues(f.word_count) + readability_issues(f.difficult_readability)
}

/// An issue with the given parts.
fn issue(severity: SeoIssueSeverity, title: &str, description: String, fix: &str) -> (i: SeoIssue)
    ensures
        issue_view(i) == (severity, title@, description@, Some(fix@)),
{
    SeoIssue { severity, title: owned(title), description, fix: Some(owned(fix)) }
}

/// `prefix` followed by `middle` and `suffix`.
fn framed(prefix: &str, middle: &str, suffix: &str) -> (s: String)
    ensures
        s@ == prefix@ + middle@ + suffix@,
{
    let mut s = owned(prefix);
    push_all(&mut s, middle);
    push_all(&mut s, suffix);
    s
}

/// Identify SEO issues
pub fn identify_seo_issues(analysis: &SeoFacts, title: Option<&str>) -> (issues: Vec<SeoIssue>)
    ensures
        issues@.map_values(|i: SeoIssue| issue_view(i)) == expected_issues(*analysis, title is Some),
{
    let ghost f = *analysis;
    let mut issues: Vec<SeoIssue> = Vec::new();
    if title.is_none() {
        issues.push(issue(SeoIssueSeverity::Critical, "Missing Title", owned("Content should have a clear title (H1)"), "Add an H1 heading at the beginning"));
    }
    let ghost a = issues@.map_values(|i: SeoIssue| issue_view(i));
    assert(a =~= title_issues(title is Some));
    let h1 = analysis.heading_structure.h1_count;
    if h1 == 0 {
        issues.push(issue(SeoIssueSeverity::Critical, "No H1 Heading", owned("Every page should have exactly one H1 heading"), "Add a single H1 heading"));
    } else if h1 > 1 {
        let n = decimal_string(h1);
        issues.push(issue(SeoIssueSeverity::Warning, "Multiple H1 Headings", framed("Found ", n.as_str(), " H1 headings. Best practice is to have exactly one."), "Use only one H1, convert others to H2 or H3"));
    }
    let ghost b = issues@.map_values(|i: SeoIssue| issue_view(i));
    assert(b =~= a + h1_issues(h1));
    let desc_len = analysis.meta_description.as_str().len();
    if desc_len < 120 {
        let n = decimal_string(desc_len);
        issues.push(issue(SeoIssueSeverity::Warning, "Short Meta Description", framed("Meta description is ", n.as_str(), " characters. Recommended: 150-160"), "Expand the meta description"));
    } else if desc_len > 160 {
        let n = decimal_string(desc_len);
        issues.push(issue(SeoIssueSeverity::Info, "Long Meta Description", framed("Meta description is ", n.as_str(), " characters. It may be truncated in search results."), "Shorten to 150-160 characters"));
    }
    let ghost c = issues@.map_values(|i: SeoIssue| issue_view(i));
    assert(c =~= b + description_issues(desc_len as nat));
    if analysis.word_count < 300 {
        let n = decimal_string(analysis.word_count);
        issues.push(issue(SeoIssueSeverity::Warning, "Low Word Count", framed("Content has ", n.as_str(), " words. Recommended: 300+ for better SEO"), "Add more detailed content"));
    }
    let ghost d = issues@.map_values(|i: SeoIssue| issue_view(i));
    assert(d =~= c + word_count_issues(f.word_count));
    match &analysis.difficult_readability {
        Some(score) => {
            issues.push(issue(SeoIssueSeverity::Info, "Difficult Readability", framed("Readability score is ", score.as_str(), ". Content may be too complex for general audience."), "Use shorter sentences and simpler words"));
        },
        None => {},
    }
    let ghost e = issues@.map_values(|i: SeoIssue| issue_view(i));
    assert(e =~= d + readability_issues(f.difficult_readability));
    issues
}

/// The recommendations made for an analysis, in order.
pub open spec fn expected_recommendations(f: SeoFacts) -> Seq<Seq<char>> {
    let hs = f.heading_structure;
    (if hs.h2_count == 0 {
        seq!["Add H2 subheadings to break up content and improve readability"@]
    } else {
        Seq::empty()
    }) + (if f.word_count > 500 && hs.h2_count + hs.h3_count < 3 {
        seq!["Add more subheadings for better content structure"@]
    } else {
        Seq::empty()
    }) + (if f.long_sentences {
        seq!["Consider shortening some sentences for better readability"@]
    } else {
        Seq::empty()
    }) + (if f.suggested_keywords@.len() < 5 {
        seq!["Include more relevant keywords naturally in the content"@]
    } else {
        Seq::empty()
    }) + (if f.schema_markup is None {
        seq!["Add Schema.org markup to enhance search engine understanding"@]
    } else {
        Seq::empty()
    })
}

/// Generate recommendations
pub fn generate_recommendations(analysis: &SeoFacts) -> (recs: Vec<String>)
    ensures
        string_views(recs@) == expected_recommendations(*analysis),
{
    let hs = &analysis.heading_structure;
    let mut recs: Vec<String> = Vec::new();
    if hs.h2_count == 0 {
        recs.push(owned("Add H2 subheadings to break up content and improve readability"));
    }
    let ghost a = string_views(recs@);
    if analysis.word_count > 500 && hs.h2_count < 3 && hs.h3_count < 3 - hs.h2_count {
        recs.push(owned("Add more subheadings for better content structure"));
    }
    let ghost b = string_views(recs@);
    if analysis.long_sentences {
        recs.push(owned("Consider shortening some sentences for better readability"));
    }
    let ghost c = string_views(recs@);
    if analysis.suggested_keywords.len() < 5 {
        recs.push(owned("Include more relevant keywords naturally in the content"));
    }
    let ghost d = string_views(recs@);
    if analysis.schema_markup.is_none() {
        recs.push(owned("Add Schema.org markup to enhance search engine understanding"));
    }
    proof {
        assert(string_views(recs@) =~= expected_recommendations(*analysis));
    }
    recs
}

/// The Article JSON-LD markup for a title and an analysis.
pub open spec fn article_schema(title: Seq<char>, f: SeoFacts) -> Seq<char> {
    "{\n  \"@context\": \"https://schema.org\",\n  \"@type\": \"Article\",\n  \"headline\": \""@ + title
        + "\",\n  \"description\": \""@ + f.meta_description@ + "\",\n  \"wordCount\": "@ + decimal(
        f.word_count as nat,
    ) + ",\n  \"keywords\": \""@ + join(string_views(f.suggested_keywords@), ", "@) + "\"\n}"@
}

/// Generate Article schema markup (JSON-LD)
pub fn generate_article_schema(title: &str, analysis: &SeoFacts) -> (s: String)
    ensures
        s@ == article_schema(title@, *analysis),
{
    let mut s = owned("{\n  \"@context\": \"https://schema.org\",\n  \"@type\": \"Article\",\n  \"headline\": \"");
    push_all(&mut s, title);
    push_all(&mut s, "\",\n  \"description\": \"");
    push_all(&mut s, analysis.meta_description.as_str());
    push_all(&mut s, "\",\n  \"wordCount\": ");
    let n = decimal_string(analysis.word_count);
    push_all(&mut s, n.as_str());
    push_all(&mut s, ",\n  \"keywords\": \"");
    let k = join_strings(&analysis.suggested_keywords, ", ");
    push_all(&mut s, k.as_str());
    push_all(&mut s, "\"\n}");
    s
}

/// `s` without leading characters that are not alphanumeric.
pub open spec fn trim_start_non_alnum(s: Seq<char>) -> Seq<char>
    decreases s.len(),
{
    if s.len() > 0 && !alphanumeric(s[0]) {
        trim_start_non_alnum(s.drop_first())
    } else {
        s
    }
}

/// `s` without trailing characters that are not alphanumeric.
pub open spec fn trim_end_non_alnum(s: Seq<char>) -> Seq<char>
    decreases s.len(),
{
    if s.len() > 0 && !alphanumeric(s.last()) {
        trim_end_non_alnum(s.drop_last())
    } else {
        s
    }
}

/// The keyword a word counts as: lowercased, without surrounding
/// characters that are not alphanumeric.
pub open spec fn keyword_of(word: Seq<char>) -> Seq<char> {
    trim_end_non_alnum(trim_start_non_alnum(lowercase(word)))
}

/// The position counted for each word: the bytes of the words before it,
/// each followed by one separator.
pub open spec fn words_span(ws: Seq<Seq<char>>) -> nat
    decreases ws.len(),
{
    if ws.len() == 0 {
        0
    } else {
        words_span(ws.drop_last()) + byte_len(ws.last()) + 1
    }
}

/// Keyword occurrences grouped by keyword: each keyword once, in order of
/// first occurrence, with its positions in order.
pub type KeywordGroups = Seq<(Seq<char>, Seq<usize>)>;

/// No keyword appears twice.
pub open spec fn distinct_keys(gs: KeywordGroups) -> bool {
    forall|a: int, b: int| 0 <= a < b < gs.len() ==> #[trigger] gs[a].0 != #[trigger] gs[b].0
}

/// The groups after one more occurrence of `k` at `p`.
pub open spec fn group_add(gs: KeywordGroups, k: Seq<char>, p: usize) -> KeywordGroups {
    if exists|i: int| 0 <= i < gs.len() && gs[i].0 == k {
        let i = choose|i: int| 0 <= i < gs.len() && gs[i].0 == k;
        gs.update(i, (k, gs[i].1.push(p)))
    } else {
        gs.push((k, seq![p]))
    }
}

/// The keyword groups of a list of words: words whose keyword is longer
/// than three bytes, at their positions.
pub open spec fn keyword_groups(ws: Seq<Seq<char>>) -> KeywordGroups
    decreases ws.len(),
{
    if ws.len() == 0 {
        Seq::empty()
    } else {
        let prev = keyword_groups(ws.drop_last());
        let k = keyword_of(ws.last());
        if byte_len(k) > 3 {
            group_add(prev, k, words_span(ws.drop_last()) as usize)
        } else {
            prev
        }
    }
}

/// The groups as plain values.
pub open spec fn groups_view(v: Seq<(String, Vec<usize>)>) -> KeywordGroups {
    v.map_values(|g: (String, Vec<usize>)| (g.0@, g.1@))
}

/// The spans of prefixes of the words are at most the span of all.
proof fn lemma_words_span_prefix(ws: Seq<Seq<char>>, n: int)
    requires
        0 <= n <= ws.len(),
    ensures
        words_span(ws.take(n)) <= words_span(ws),
    decreases ws.len() - n,
{
    if n < ws.len() {
        lemma_words_span_prefix(ws, n + 1);
        assert(ws.take(n + 1).drop_last() == ws.take(n));
    } else {
        assert(ws.take(n) == ws);
    }
}

/// A word's keyword: lowercased and trimmed of characters that are not
/// alphanumeric.
pub fn normalize_keyword(word: &str) -> (k: String)
    ensures
        k@ == keyword_of(word@),
{
    let low = to_lowercase(word);
    let v = chars_of(low.as_str());
    let n = v.len();
    let mut lo: usize = 0;
    assert(v@.subrange(0, n as int) == v@);
    while lo < n && !is_alphanumeric(v[lo])
        invariant
            lo <= n == v@.len(),
            trim_start_non_alnum(v@) == trim_start_non_alnum(v@.subrange(lo as int, n as int)),
        decreases n - lo,
    {
        assert(v@.subrange(lo as int, n as int).drop_first() == v@.subrange(lo + 1, n as int));
        lo += 1;
    }
    assert(trim_start_non_alnum(v@.subrange(lo as int, n as int)) == v@.subrange(lo as int, n as int));
    let mut hi: usize = n;
    while hi > lo && !is_alphanumeric(v[hi - 1])
        invariant
            lo <= hi <= n == v@.len(),
            trim_end_non_alnum(trim_start_non_alnum(v@)) == trim_end_non_alnum(v@.subrange(lo as int, hi as int)),
        decreases hi - lo,
    {
        assert(v@.subrange(lo as int, hi as int).drop_last() == v@.subrange(lo as int, hi - 1));
        hi -= 1;
    }
    string_of(&v, lo, hi)
}

/// Where each keyword of a text occurs: every word whose keyword is longer
/// than three bytes, grouped by keyword in order of first occurrence, with
/// the positions counted from the words' byte lengths (one separator after
/// each). The keyword densities are these counts over the word count.
pub fn keyword_occurrences(text: &str) -> (gs: Vec<(String, Vec<usize>)>)
    requires
        words_span(word_list(text@)) <= usize::MAX,
    ensures
        groups_view(gs@) == keyword_groups(word_list(text@)),
        distinct_keys(groups_view(gs@)),
{
    let v = chars_of(text);
    let ws = words_of(&v);
    let ghost wl = word_list(text@);
    let mut gs: Vec<(String, Vec<usize>)> = Vec::new();
    let mut pos: usize = 0;
    let mut i: usize = 0;
    while i < ws.len()
        invariant
            i <= ws@.len() == wl.len(),
            wl == word_list(text@),
            words_span(wl) <= usize::MAX,
            forall|k: int| 0 <= k < ws@.len() ==> #[trigger] ws@[k]@ == wl[k],
            pos == words_span(wl.take(i as int)),
            groups_view(gs@) == keyword_groups(wl.take(i as int)),
            distinct_keys(groups_view(gs@)),
        decreases ws@.len() - i,
    {
        assert(wl.take(i + 1).drop_last() == wl.take(i as int));
        assert(wl.take(i + 1).last() == ws@[i as int]@);
        proof {
            lemma_words_span_prefix(wl, i + 1);
        }
        let w = string_of(&ws[i], 0, ws[i].len());
        assert(ws@[i as int]@.subrange(0, ws@[i as int]@.len() as int) == ws@[i as int]@);
        let k = normalize_keyword(w.as_str());
        if k.as_str().len() > 3 {
            let ghost before = groups_view(gs@);
            let mut j: usize = 0;
            while j < gs.len()
                invariant
                    j <= gs@.len(),
                    before == groups_view(gs@),
                    forall|a: int| 0 <= a < j ==> #[trigger] gs@[a].0@ != k@,
                ensures
                    j <= gs@.len(),
                    forall|a: int| 0 <= a < j ==> #[trigger] gs@[a].0@ != k@,
                    j < gs@.len() ==> gs@[j as int].0@ == k@,
                decreases gs@.len() - j,
            {
                if gs[j].0 == k {
                    break;
                }
                j += 1;
            }
            let found = j < gs.len();
            if found {
                proof {
                    let c = choose|c: int| 0 <= c < before.len() && before[c].0 == k@;
                    assert(before[j as int].0 == k@);
                    assert(c == j);
                }
                let mut g = gs.remove(j);
                g.1.push(pos);
                gs.insert(j, g);
                assert(groups_view(gs@) =~= group_add(before, k@, pos));
            } else {
                assert(!(exists|c: int| 0 <= c < before.len() && before[c].0 == k@));
                let mut ps: Vec<usize> = Vec::new();
                ps.push(pos);
                gs.push((k, ps));
                assert(groups_view(gs@) =~= group_add(before, k@, pos));
            }
        }
        pos = pos + w.as_str().len() + 1;
        i += 1;
    }
    assert(wl.take(wl.len() as int) == wl);
    gs
}

/// The prompt part that names the title, if there is one.
pub open spec fn title_part(title: Option<Seq<char>>) -> Seq<char> {
    match title {
        Some(t) => "Title: "@ + t + "\n\n"@,
        None => Seq::empty(),
    }
}

/// An optional text as a plain value.
pub open spec fn opt_text(t: Option<&str>) -> Option<Seq<char>> {
    match t {
        Some(x) => Some(x@),
        None => None,
    }
}

/// The text naming the title, if there is one.
fn title_part_text(title: Option<&str>) -> (s: String)
    ensures
        s@ == title_part(opt_text(title)),
{
    match title {
        Some(t) => {
            let mut s = owned("Title: ");
            push_all(&mut s, t);
            push_all(&mut s, "\n\n");
            s
        },
        None => String::new(),
    }
}

/// The prompt asking for a meta description of the content.
pub open spec fn meta_description_request(content: Seq<char>, title: Option<Seq<char>>) -> Seq<char> {
    title_part(title) + "Write a compelling SEO meta description (150-160 characters) for this content:\n\n"@
        + first_chars(content, 500)
        + "\n\nRequirements:\n- Exactly 150-160 characters\n- Include main keywords naturally\n- Engaging and click-worthy\n- No quotation marks\nReturn only the meta description, nothing else."@
}

/// The prompt asking for a meta description.
pub fn meta_description_prompt(content: &str, title: Option<&str>) -> (p: String)
    ensures
        p@ == meta_description_request(content@, opt_text(title)),
{
    let mut p = title_part_text(title);
    push_all(&mut p, "Write a compelling SEO meta description (150-160 characters) for this content:\n\n");
    push_all(&mut p, take_chars(content, 500).as_str());
    push_all(
        &mut p,
        "\n\nRequirements:\n- Exactly 150-160 characters\n- Include main keywords naturally\n- Engaging and click-worthy\n- No quotation marks\nReturn only the meta description, nothing else.",
    );
    p
}

/// The meta description made of the model's answer: trimmed, at most 160
/// characters.
pub fn meta_description_from(answer: &str) -> (d: String)
    ensures
        d@ == first_chars(trim(answer@), 160),
{
    let t = trimmed(answer);
    take_chars(t.as_str(), 160)
}

/// The prompt asking for keywords for the content.
pub open spec fn keywords_request(content: Seq<char>, title: Option<Seq<char>>) -> Seq<char> {
    title_part(title) + "Analyze this content and suggest 7-10 SEO keywords:\n\n"@ + first_chars(content, 1000)
        + "\n\nRequirements:\n- Mix of short-tail and long-tail keywords\n- Relevant to the content\n- High search potential\n- Return only keywords, comma-separated, no explanations"@
}

/// The prompt asking for keywords.
pub fn keywords_prompt(content: &str, title: Option<&str>) -> (p: String)
    ensures
        p@ == keywords_request(content@, opt_text(title)),
{
    let mut p = title_part_text(title);
    push_all(&mut p, "Analyze this content and suggest 7-10 SEO keywords:\n\n");
    push_all(&mut p, take_chars(content, 1000).as_str());
    push_all(
        &mut p,
        "\n\nRequirements:\n- Mix of short-tail and long-tail keywords\n- Relevant to the content\n- High search potential\n- Return only keywords, comma-separated, no explanations",
    );
    p
}

/// The keywords in the model's answer: its comma-separated items, trimmed,
/// without empty ones, at most ten.
pub fn keywords_from(answer: &str) -> (ks: Vec<String>)
    ensures
        string_views(ks@) == first_items(trimmed_nonempty(pieces(answer@, ',')), 10),
{
    let all = comma_items(answer);
    let mut ks: Vec<String> = Vec::new();
    let mut i: usize = 0;
    while i < all.len() && i < 10
        invariant
            i <= all@.len(),
            i <= 10,
            string_views(ks@) == string_views(all@).take(i as int),
        decreases all@.len() - i,
    {
        let t = all[i].clone();
        let ghost before = ks@;
        ks.push(t);
        assert(string_views(ks@) == string_views(before).push(t@));
        assert(string_views(all@).take(i + 1) == string_views(all@).take(i as int).push(all@[i as int]@));
        i += 1;
    }
    assert(string_views(all@).take(string_views(all@).len() as int) == string_views(all@));
    ks
}

/// The first `n` items of `s` (all of them when there are fewer).
pub open spec fn first_items(s: Seq<Seq<char>>, n: nat) -> Seq<Seq<char>> {
    if s.len() <= n {
        s
    } else {
        s.take(n as int)
    }
}

/// Each of the letters a, e, i, o, u and y is a vowel: appending one of
/// them after a letter that is not among them (or to nothing) starts a new
/// vowel run, and appending any other character starts none.
pub proof fn lemma_vowel_runs_push(s: Seq<char>, c: char)
    ensures
        ({
            let v = c == 'a' || c == 'e' || c == 'i' || c == 'o' || c == 'u' || c == 'y';
            let after_vowel = s.len() > 0 && (s.last() == 'a' || s.last() == 'e' || s.last() == 'i' || s.last()
                == 'o' || s.last() == 'u' || s.last() == 'y');
            vowel_groups(s.push(c)) == vowel_groups(s) + if v && !after_vowel {
                1nat
            } else {
                0nat
            }
        }),
{
    assert(s.push(c).take(s.len() as int) =~= s);
}

/// A word is estimated at the number of vowel runs of its lowercase form,
/// one less for a final silent `e` when there are several, and at least
/// one syllable.
pub proof fn lemma_syllables_are_vowel_runs(word: Seq<char>)
    ensures
        syllables(word) >= 1,
        ({
            let l = lowercase(word);
            (l.len() == 0 || l.last() != 'e') ==> syllables(word) == if vowel_groups(l) == 0 {
                1
            } else {
                vowel_groups(l)
            }
        }),
{
}

} // verus!
