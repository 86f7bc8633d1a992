//! Content source management: RSS feeds, web pages and local files, the
//! articles taken from them, and the registry of sources.
use vstd::prelude::*;
use crate::deps::{
    extract_readable, feed_parse, new_id, now, opt_text_view, parse_feed, parts_view, time_view, FeedEntryView, path_file_name, path_file_name_text, path_file_stem,
    path_file_stem_text, readable_page, FeedEntryParts, Timestamp,
};
use crate::text::{count_words_in, owned, push_all, words};

verus! {

/// Content source types
#[derive(Clone, Copy, Debug, PartialEq, Eq, Structural)]
pub enum ContentSourceType {
    RssFeed,
    WebPage,
    LocalFile,
}

/// A content source (RSS feed, web page, or local file)
#[derive(Clone, Debug)]
pub struct ContentSource {
    pub id: String,
    pub name: String,
    pub source_type: ContentSourceType,
    pub url: Option<String>,
    pub path: Option<String>,
    pub created_at: Timestamp,
    pub last_fetched: Option<Timestamp>,
}

impl ContentSource {
    pub fn new_rss(name: &str, url: &str) -> (s: Self)
        ensures
            s.name@ == name@,
            s.source_type == ContentSourceType::RssFeed,
            s.url matches Some(u) && u@ == url@,
            s.path is None,
            s.last_fetched is None,
    {
        ContentSource {
            id: new_id(),
            name: owned(name),
            source_type: ContentSourceType::RssFeed,
            url: Some(owned(url)),
            path: None,
            created_at: now(),
            last_fetched: None,
        }
    }

    pub fn new_webpage(url: &str) -> (s: Self)
        ensures
            s.name@ == url@,
            s.source_type == ContentSourceType::WebPage,
            s.url matches Some(u) && u@ == url@,
            s.path is None,
            s.last_fetched is None,
    {
        ContentSource {
            id: new_id(),
            name: owned(url),
            source_type: ContentSourceType::WebPage,
            url: Some(owned(url)),
            path: None,
            created_at: now(),
            last_fetched: None,
        }
    }

    /// A local file source, named by the file name of `path` or
    /// `"Unnamed File"` when the path has none.
    pub fn new_local_file(path: String) -> (s: Self)
        ensures
            s.name@ == match path_file_name(path@) {
                Some(n) => n,
                None => "Unnamed File"@,
            },
            s.source_type == ContentSourceType::LocalFile,
            s.url is None,
            s.path == Some(path),
            s.last_fetched is None,
    {
        let name = match path_file_name_text(path.as_str()) {
            Some(n) => n,
            None => owned("Unnamed File"),
        };
        ContentSource {
            id: new_id(),
            name,
            source_type: ContentSourceType::LocalFile,
            url: None,
            path: Some(path),
            created_at: now(),
            last_fetched: None,
        }
    }
}

/// An article extracted from a content source
#[derive(Clone, Debug)]
pub struct Article {
    pub id: String,
    pub source_id: String,
    pub title: String,
    pub content: String,
    pub summary: Option<String>,
    pub url: Option<String>,
    pub author: Option<String>,
    pub published_at: Option<Timestamp>,
    pub fetched_at: Timestamp,
    pub word_count: usize,
}

impl Article {
    pub fn new(source_id: &str, title: &str, content: &str) -> (a: Self)
        ensures
            a.source_id@ == source_id@,
            a.title@ == title@,
            a.content@ == content@,
            a.summary is None,
            a.url is None,
            a.author is None,
            a.published_at is None,
            a.word_count == words(content@),
    {
        let word_count = count_words_in(content);
        Article {
            id: new_id(),
            source_id: owned(source_id),
            title: owned(title),
            content: owned(content),
            summary: None,
            url: None,
            author: None,
            published_at: None,
            fetched_at: now(),
            word_count,
        }
    }

    pub fn with_url(self, url: &str) -> (a: Self)
        ensures
            a.url matches Some(u) && u@ == url@,
            a.id == self.id,
            a.source_id == self.source_id,
            a.title == self.title,
            a.content == self.content,
            a.summary == self.summary,
            a.author == self.author,
            a.published_at == self.published_at,
            a.fetched_at == self.fetched_at,
            a.word_count == self.word_count,
    {
        let mut a = self;
        a.url = Some(owned(url));
        a
    }

    pub fn with_author(self, author: &str) -> (a: Self)
        ensures
            a.author matches Some(u) && u@ == author@,
            a.id == self.id,
            a.source_id == self.source_id,
            a.title == self.title,
            a.content == self.content,
            a.summary == self.summary,
            a.url == self.url,
            a.published_at == self.published_at,
            a.fetched_at == self.fetched_at,
            a.word_count == self.word_count,
    {
        let mut a = self;
        a.author = Some(owned(author));
        a
    }

    pub fn with_summary(self, summary: &str) -> (a: Self)
        ensures
            a.summary matches Some(u) && u@ == summary@,
            a.id == self.id,
            a.source_id == self.source_id,
            a.title == self.title,
            a.content == self.content,
            a.url == self.url,
            a.author == self.author,
            a.published_at == self.published_at,
            a.fetched_at == self.fetched_at,
            a.word_count == self.word_count,
    {
        let mut a = self;
        a.summary = Some(owned(summary));
        a
    }
}

/// The article `read_local_file` makes of a file's text: titled by the
/// file stem of `path`, or `"Untitled"`, under a fresh source id.
pub fn article_from_file(path: &str, content: &str) -> (a: Article)
    ensures
        a.title@ == match path_file_stem(path@) {
            Some(n) => n,
            None => "Untitled"@,
        },
        a.content@ == content@,
        a.word_count == words(content@),
        a.summary is None,
        a.url is None,
        a.author is None,
        a.published_at is None,
{
    let title = match path_file_stem_text(path) {
        Some(n) => n,
        None => owned("Untitled"),
    };
    let source_id = new_id();
    Article::new(source_id.as_str(), title.as_str(), content)
}

/// The article `extract_article` makes of a page: the readable title and
/// text under a fresh source id, with the page's URL.
pub fn article_from_page(url: &str, title: &str, text: &str) -> (a: Article)
    ensures
        a.title@ == title@,
        a.content@ == text@,
        a.word_count == words(text@),
        a.url matches Some(u) && u@ == url@,
        a.summary is None,
        a.author is None,
        a.published_at is None,
{
    let source_id = new_id();
    let mut article = Article::new(source_id.as_str(), title, text);
    article.url = Some(owned(url));
    article
}

/// RSS Feed entry (subset of full article for list display)
#[derive(Clone, Debug)]
pub struct FeedEntry {
    pub id: String,
    pub title: String,
    pub url: String,
    pub summary: Option<String>,
    pub published_at: Option<Timestamp>,
}

impl FeedEntry {
    /// The list entry `fetch_rss_feed` makes of a parsed feed entry: its
    /// title or `"Untitled"`, and its first link or the empty text.
    pub fn from_parts(
        id: String,
        title: Option<String>,
        links: Vec<String>,
        summary: Option<String>,
        published_at: Option<Timestamp>,
    ) -> (e: Self)
        ensures
            e.id == id,
            e.title@ == match title {
                Some(t) => t@,
                None => "Untitled"@,
            },
            e.url@ == if links@.len() > 0 {
                links@[0]@
            } else {
                Seq::<char>::empty()
            },
            e.summary == summary,
            e.published_at == published_at,
    {
        let title = match title {
            Some(t) => t,
            None => owned("Untitled"),
        };
        let url = if links.len() > 0 {
            links[0].clone()
        } else {
            String::new()
        };
        FeedEntry { id, title, url, summary, published_at }
    }
}

/// `e` is the list entry made of the parts of a parsed feed entry.
pub open spec fn entry_of_parts(e: FeedEntry, p: FeedEntryParts) -> bool {
    &&& e.id == p.0
    &&& e.title@ == match p.1 {
        Some(t) => t@,
        None => "Untitled"@,
    }
    &&& e.url@ == if p.2@.len() > 0 {
        p.2@[0]@
    } else {
        Seq::<char>::empty()
    }
    &&& e.summary == p.3
    &&& e.published_at == p.4
}

/// `r` is what a feed's parse gives: an entry for each parsed entry, in
/// order, or the parse error after "Failed to parse RSS feed: ".
pub open spec fn feed_outcome(parsed: Result<Vec<FeedEntryParts>, String>, r: Result<Vec<FeedEntry>, String>) -> bool {
    match parsed {
        Ok(ps) => r matches Ok(es) && es@.len() == ps@.len() && forall|i: int|
            0 <= i < ps@.len() ==> entry_of_parts(#[trigger] es@[i], ps@[i]),
        Err(e) => r matches Err(m) && m@ == "Failed to parse RSS feed: "@ + e@,
    }
}

/// The entries of a parsed feed, or the error of its parse.
pub fn entries_from_parsed(parsed: Result<Vec<FeedEntryParts>, String>) -> (r: Result<Vec<FeedEntry>, String>)
    ensures
        feed_outcome(parsed, r),
{
    match parsed {
        Err(e) => {
            let mut m = owned("Failed to parse RSS feed: ");
            push_all(&mut m, e.as_str());
            Err(m)
        },
        Ok(ps) => {
            let ghost all = ps@;
            let mut rest = ps;
            let mut es: Vec<FeedEntry> = Vec::new();
            let n = rest.len();
            let mut i: usize = 0;
            while i < n
                invariant
                    n == all.len(),
                    i <= n,
                    rest@ == all.skip(i as int),
                    es@.len() == i,
                    forall|k: int| 0 <= k < i ==> entry_of_parts(#[trigger] es@[k], all[k]),
                decreases n - i,
            {
                let (id, title, links, summary, published_at) = rest.remove(0);
                assert(all.skip(i + 1) =~= all.skip(i as int).drop_first());
                es.push(FeedEntry::from_parts(id, title, links, summary, published_at));
                i += 1;
            }
            Ok(es)
        },
    }
}

/// `e` is the list entry of a parsed entry given as plain values (its id
/// aside): titled "Untitled" without a title, at its first link or at no
/// address without one.
pub open spec fn entry_of_view(e: FeedEntry, q: FeedEntryView) -> bool {
    &&& e.title@ == match q.0 {
        Some(t) => t,
        None => "Untitled"@,
    }
    &&& e.url@ == if q.1.len() > 0 {
        q.1[0]
    } else {
        Seq::<char>::empty()
    }
    &&& opt_text_view(e.summary) == q.2
    &&& time_view(e.published_at) == q.3
}

/// Parse a fetched RSS or Atom feed into its entries (what `fetch_rss_feed`
/// does with the bytes it fetched): an entry for each entry the parser finds
/// in these bytes, in order, or the parse error after "Failed to parse RSS
/// feed: ". The entries' ids are the parser's.
pub fn parse_rss_feed(bytes: &[u8]) -> (r: Result<Vec<FeedEntry>, String>)
    ensures
        match feed_parse(bytes@) {
            Ok(qs) => r matches Ok(es) && es@.len() == qs.len() && forall|i: int|
                0 <= i < qs.len() ==> entry_of_view(#[trigger] es@[i], qs[i]),
            Err(m) => r matches Err(e) && e@ == "Failed to parse RSS feed: "@ + m,
        },
        exists|parsed: Result<Vec<FeedEntryParts>, String>| feed_outcome(parsed, r),
{
    let parsed = parse_feed(bytes);
    let ghost p = parsed;
    let r = entries_from_parsed(parsed);
    assert(feed_outcome(p, r));
    proof {
        match p {
            Ok(ps) => {
                let qs = ps@.map_values(|x: FeedEntryParts| parts_view(x));
                assert forall|i: int| 0 <= i < qs.len() implies entry_of_view(#[trigger] r->Ok_0@[i], qs[i]) by {
                    assert(entry_of_parts(r->Ok_0@[i], ps@[i]));
                    assert(qs[i] == parts_view(ps@[i]));
                    if ps@[i].2@.len() > 0 {
                        assert(qs[i].1[0] == ps@[i].2@[0]@);
                    }
                }
            },
            Err(_) => {},
        }
    }
    r
}

/// The article made of a page's extraction: its title and readable text,
/// with the page's URL; or the extraction error.
pub fn article_from_extraction(url: &str, extracted: Result<(String, String), String>) -> (r: Result<Article, String>)
    ensures
        match extracted {
            Ok((title, text)) => r matches Ok(a) && a.title@ == title@ && a.content@ == text@ && a.word_count == words(text@)
                && (a.url matches Some(u) && u@ == url@) && a.summary is None && a.author is None
                && a.published_at is None,
            Err(e) => r matches Err(m) && m@ == "Failed to extract article: "@ + e@,
        },
{
    match extracted {
        Ok((title, text)) => Ok(article_from_page(url, title.as_str(), text.as_str())),
        Err(e) => {
            let mut m = owned("Failed to extract article: ");
            push_all(&mut m, e.as_str());
            Err(m)
        },
    }
}

/// Extract article content from a fetched page with readability.
pub fn extract_article(url: &str, html: &str) -> (r: Result<Article, String>)
    ensures
        match readable_page(html@, url@) {
            Ok((title, text)) => r matches Ok(a) && a.title@ == title && a.content@ == text && a.word_count == words(text)
                && (a.url matches Some(u) && u@ == url@) && a.summary is None && a.author is None
                && a.published_at is None,
            Err(e) => r matches Err(m) && m@ == "Failed to extract article: "@ + e,
        },
{
    let extracted = extract_readable(html, url);
    article_from_extraction(url, extracted)
}

/// The first source in `s` with the id `id`.
pub open spec fn first_with_id(s: Seq<ContentSource>, id: Seq<char>) -> Option<ContentSource>
    decreases s.len(),
{
    if s.len() == 0 {
        None
    } else if s[0].id@ == id {
        Some(s[0])
    } else {
        first_with_id(s.drop_first(), id)
    }
}

/// The sources of `s` whose id is not `id`, in order.
pub open spec fn without_id(s: Seq<ContentSource>, id: Seq<char>) -> Seq<ContentSource>
    decreases s.len(),
{
    if s.len() == 0 {
        s
    } else {
        let rest = without_id(s.drop_last(), id);
        if s.last().id@ != id {
            rest.push(s.last())
        } else {
            rest
        }
    }
}

/// The sources of `s` of type `t`, in order.
pub open spec fn of_type(s: Seq<ContentSource>, t: ContentSourceType) -> Seq<ContentSource>
    decreases s.len(),
{
    if s.len() == 0 {
        s
    } else {
        let rest = of_type(s.drop_last(), t);
        if s.last().source_type == t {
            rest.push(s.last())
        } else {
            rest
        }
    }
}

/// Source manager for handling multiple content sources
pub struct SourceManager {
    pub sources: Vec<ContentSource>,
}

impl Default for SourceManager {
    fn default() -> (m: Self)
        ensures
            m.sources@.len() == 0,
    {
        SourceManager { sources: Vec::new() }
    }
}

impl SourceManager {
    pub fn new() -> (m: Self)
        ensures
            m.sources@.len() == 0,
    {
        SourceManager { sources: Vec::new() }
    }

    pub fn add_source(&mut self, source: ContentSource)
        ensures
            final(self).sources@ == old(self).sources@.push(source),
    {
        self.sources.push(source);
    }

    pub fn remove_source(&mut self, id: &str)
        ensures
            final(self).sources@ == without_id(old(self).sources@, id@),
    {
        let key = owned(id);
        let ghost pre = self.sources@;
        let mut kept: Vec<ContentSource> = Vec::new();
        let mut i: usize = 0;
        while i < self.sources.len()
            invariant
                i <= self.sources@.len(),
                self.sources@ == pre,
                key@ == id@,
                kept@ == without_id(pre.take(i as int), id@),
            decreases self.sources@.len() - i,
        {
            assert(pre.take(i + 1).drop_last() == pre.take(i as int));
            if !(self.sources[i].id == key) {
                kept.push(self.sources[i].clone_source());
            }
            i += 1;
        }
        assert(pre.take(pre.len() as int) == pre);
        self.sources = kept;
    }

    pub fn get_source(&self, id: &str) -> (r: Option<&ContentSource>)
        ensures
            match r {
                Some(s) => first_with_id(self.sources@, id@) == Some(*s),
                None => first_with_id(self.sources@, id@) is None,
            },
    {
        let key = owned(id);
        let mut i: usize = 0;
        assert(self.sources@.skip(0) == self.sources@);
        while i < self.sources.len()
            invariant
                i <= self.sources@.len(),
                key@ == id@,
                first_with_id(self.sources@, id@) == first_with_id(self.sources@.skip(i as int), id@),
            decreases self.sources@.len() - i,
        {
            assert(self.sources@.skip(i as int).drop_first() == self.sources@.skip(i + 1));
            if self.sources[i].id == key {
                return Some(&self.sources[i]);
            }
            i += 1;
        }
        None
    }

    pub fn list_sources(&self) -> (r: &[ContentSource])
        ensures
            r@ == self.sources@,
    {
        self.sources.as_slice()
    }

    pub fn list_sources_by_type(&self, source_type: ContentSourceType) -> (r: Vec<&ContentSource>)
        ensures
            r@.len() == of_type(self.sources@, source_type).len(),
            forall|k: int| 0 <= k < r@.len() ==> *#[trigger] r@[k] == of_type(self.sources@, source_type)[k],
    {
        let mut r: Vec<&ContentSource> = Vec::new();
        let mut i: usize = 0;
        while i < self.sources.len()
            invariant
                i <= self.sources@.len(),
                r@.len() == of_type(self.sources@.take(i as int), source_type).len(),
                forall|k: int| 0 <= k < r@.len() ==> *#[trigger] r@[k] == of_type(self.sources@.take(i as int), source_type)[k],
            decreases self.sources@.len() - i,
        {
            assert(self.sources@.take(i + 1).drop_last() == self.sources@.take(i as int));
            if self.sources[i].source_type == source_type {
                r.push(&self.sources[i]);
            }
            i += 1;
        }
        assert(self.sources@.take(self.sources@.len() as int) == self.sources@);
        r
    }
}

impl ContentSource {
    /// A copy of the source with every field equal.
    pub fn clone_source(&self) -> (c: Self)
        ensures
            c == *self,
    {
        ContentSource {
            id: self.id.clone(),
            name: self.name.clone(),
            source_type: self.source_type,
            url: match &self.url {
                Some(u) => Some(u.clone()),
                None => None,
            },
            path: match &self.path {
                Some(p) => Some(p.clone()),
                None => None,
            },
            created_at: self.created_at,
            last_fetched: self.last_fetched,
        }
    }
}

/// Removing a source leaves no source with its id, so looking the id up
/// afterwards finds nothing.
pub proof fn lemma_removed_source_not_found(s: Seq<ContentSource>, id: Seq<char>)
    ensures
        first_with_id(without_id(s, id), id) is None,
    decreases s.len(),
{
    lemma_without_id_has_none(s, id);
    lemma_first_none_when_absent(without_id(s, id), id);
}

/// No source kept by `without_id` has the removed id.
pub proof fn lemma_without_id_has_none(s: Seq<ContentSource>, id: Seq<char>)
    ensures
        forall|k: int| 0 <= k < without_id(s, id).len() ==> (#[trigger] without_id(s, id)[k]).id@ != id,
    decreases s.len(),
{
    if s.len() > 0 {
        lemma_without_id_has_none(s.drop_last(), id);
    }
}

/// Looking up an id that no source has finds nothing.
proof fn lemma_first_none_when_absent(s: Seq<ContentSource>, id: Seq<char>)
    requires
        forall|k: int| 0 <= k < s.len() ==> (#[trigger] s[k]).id@ != id,
    ensures
        first_with_id(s, id) is None,
    decreases s.len(),
{
    if s.len() > 0 {
        assert(s[0].id@ != id);
        assert forall|k: int| 0 <= k < s.drop_first().len() implies (#[trigger] s.drop_first()[k]).id@ != id by {
            assert(s.drop_first()[k] == s[k + 1]);
        }
        lemma_first_none_when_absent(s.drop_first(), id);
    }
}

/// Adding a source whose id no registered source has makes it the one
/// found under that id.
pub proof fn lemma_added_source_found(s: Seq<ContentSource>, source: ContentSource)
    requires
        first_with_id(s, source.id@) is None,
    ensures
        first_with_id(s.push(source), source.id@) == Some(source),
    decreases s.len(),
{
    if s.len() > 0 {
        assert(s.push(source).drop_first() == s.drop_first().push(source));
        lemma_added_source_found(s.drop_first(), source);
    } else {
        assert(s.push(source)[0] == source);
    }
}

} // verus!
