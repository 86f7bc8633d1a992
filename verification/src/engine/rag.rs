//! Retrieval-augmented prompts: the question with the documents found for
//! it. Finding the documents is the caller's part.
use vstd::prelude::*;

use crate::text::{
    chars_of, decimal, decimal_u64, join, join_strings, lines, lines_of, owned, push_all, string_of, string_views,
};

verus! {

/// A found document as Markdown: its title as a third-level heading, then
/// its body.
pub open spec fn document_block(title: Seq<char>, body: Seq<char>) -> Seq<char> {
    "### "@ + title + "\n"@ + body
}

/// The documents' blocks, in order.
pub open spec fn document_blocks(docs: Seq<(String, String)>) -> Seq<Seq<char>> {
    docs.map_values(|d: (String, String)| document_block(d.0@, d.1@))
}

/// The prompt for a question and the documents found for it: the question
/// alone when there are none, else the documents as context before it.
pub open spec fn augmented(query: Seq<char>, docs: Seq<(String, String)>) -> Seq<char> {
    if docs.len() == 0 {
        query
    } else {
        "Use the following context to answer the question:\n\n"@ + join(document_blocks(docs), "\n\n"@)
            + "\n\n---\n\nQuestion: "@ + query
    }
}

/// Augment a prompt with relevant context: `docs` are the titles and
/// bodies of the documents found for the question.
pub fn augment_prompt(query: &str, docs: &Vec<(String, String)>) -> (p: String)
    ensures
        p@ == augmented(query@, docs@),
{
    if docs.len() == 0 {
        return owned(query);
    }
    let mut blocks: Vec<String> = Vec::new();
    let mut i: usize = 0;
    while i < docs.len()
        invariant
            i <= docs@.len(),
            string_views(blocks@) == document_blocks(docs@.take(i as int)),
        decreases docs@.len() - i,
    {
        let mut b = owned("### ");
        push_all(&mut b, docs[i].0.as_str());
        push_all(&mut b, "\n");
        push_all(&mut b, docs[i].1.as_str());
        let ghost before = blocks@;
        blocks.push(b);
        assert(string_views(blocks@) == string_views(before).push(b@));
        assert(document_blocks(docs@.take(i + 1)) =~= document_blocks(docs@.take(i as int)).push(b@));
        i += 1;
    }
    assert(docs@.take(docs@.len() as int) == docs@);
    let mut p = owned("Use the following context to answer the question:\n\n");
    push_all(&mut p, join_strings(&blocks, "\n\n").as_str());
    push_all(&mut p, "\n\n---\n\nQuestion: ");
    push_all(&mut p, query);
    p
}

/// A retrieved document as a numbered reference: its number, its relevance
/// in percent as the caller rendered it, its title, then its body.
pub open spec fn reference_block(n: nat, relevance: Seq<char>, title: Seq<char>, body: Seq<char>) -> Seq<char> {
    "[Reference "@ + decimal(n) + "] (Relevance: "@ + relevance + "%)\nTitle: "@ + title + "\n"@ + body
        + "\n"@
}

/// The references of the documents `(relevance, title, body)`, numbered
/// from 1 in order.
pub open spec fn reference_blocks(docs: Seq<(String, String, String)>) -> Seq<Seq<char>> {
    Seq::new(docs.len(), |i: int| reference_block((i + 1) as nat, docs[i].0@, docs[i].1@, docs[i].2@))
}

/// The context handed to the model: the references separated by rules;
/// empty when nothing was found.
pub open spec fn reference_context(docs: Seq<(String, String, String)>) -> Seq<char> {
    join(reference_blocks(docs), "\n---\n"@)
}

/// The retrieved documents as the context for a question: each is given
/// as `(relevance, title, body)`, the relevance being the percentage
/// already rounded and rendered.
pub fn format_references(docs: &Vec<(String, String, String)>) -> (c: String)
    requires
        docs.len() < u64::MAX,
    ensures
        c@ == reference_context(docs@),
{
    let mut blocks: Vec<String> = Vec::new();
    let mut i: usize = 0;
    while i < docs.len()
        invariant
            i <= docs@.len(),
            docs@.len() < u64::MAX,
            string_views(blocks@) == reference_blocks(docs@.take(i as int)),
        decreases docs@.len() - i,
    {
        let mut b = owned("[Reference ");
        let n: u64 = (i + 1) as u64;
        push_all(&mut b, decimal_u64(n).as_str());
        push_all(&mut b, "] (Relevance: ");
        push_all(&mut b, docs[i].0.as_str());
        push_all(&mut b, "%)\nTitle: ");
        push_all(&mut b, docs[i].1.as_str());
        push_all(&mut b, "\n");
        push_all(&mut b, docs[i].2.as_str());
        push_all(&mut b, "\n");
        let ghost before = blocks@;
        blocks.push(b);
        assert(string_views(blocks@) == string_views(before).push(b@));
        assert(reference_blocks(docs@.take(i + 1)) =~= reference_blocks(docs@.take(i as int)).push(b@));
        i += 1;
    }
    assert(docs@.take(docs@.len() as int) == docs@);
    join_strings(&blocks, "\n---\n")
}

/// The title a context document is stored under: its first line, or
/// `Unknown` when it has none.
pub open spec fn document_title_of(body: Seq<char>) -> Seq<char> {
    if lines(body).len() > 0 {
        lines(body)[0]
    } else {
        "Unknown"@
    }
}

/// The title of a context document with this body.
pub fn document_title(body: &str) -> (t: String)
    ensures
        t@ == document_title_of(body@),
{
    let v = chars_of(body);
    let ls = lines_of(&v);
    if ls.len() > 0 {
        let first = &ls[0];
        let t = string_of(first, 0, first.len());
        assert(first@.subrange(0, first@.len() as int) =~= first@);
        t
    } else {
        owned("Unknown")
    }
}

} // verus!
