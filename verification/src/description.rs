//! Description records: the text that a new record starts out with.
//!
//! A record is operator-authored text. The repository writes it once, from a
//! fixed template, and never reads its structure back.

use crate::search::{contains, lemma_contains_middle, lemma_contains_transitive};
use vstd::prelude::*;
use vstd::string::*;

verus! {

/// The text of each tag, in order.
pub open spec fn tag_texts(tags: Seq<&str>) -> Seq<Seq<char>> {
    tags.map_values(|tag: &str| tag@)
}

/// The tags in order, with a comma between each two. Tags are taken as they
/// are: none is dropped, trimmed or merged with an equal one.
pub open spec fn join_tags(tags: Seq<Seq<char>>) -> Seq<char>
    decreases tags.len(),
{
    if tags.len() == 0 {
        Seq::empty()
    } else if tags.len() == 1 {
        tags[0]
    } else {
        join_tags(tags.drop_last()) + seq![','] + tags.last()
    }
}

/// The text that a new description record holds: the dataset's name, the
/// path it came from, its tags and its fingerprint, one labelled line each.
pub open spec fn template_text(
    name: Seq<char>,
    orig_path: Seq<char>,
    tags: Seq<char>,
    hexmd5: Seq<char>,
) -> Seq<char> {
    "name: "@ + name + "\norig-path: "@ + orig_path + "\ntags: "@ + tags + "\nmd5: "@ + hexmd5
        + "\n"@
}

/// The tags as one line of text, comma-joined and in the order given.
pub fn format_tags(tags: &Vec<&str>) -> (tags_str: String)
    ensures
        tags_str@ == join_tags(tag_texts(tags@)),
{
    let ghost texts = tag_texts(tags@);
    let mut tags_str = String::new();
    let mut step: usize = 0;
    while step < tags.len()
        invariant
            step <= tags.len(),
            texts == tag_texts(tags@),
            tags_str@ == join_tags(texts.take(step as int)),
        decreases tags.len() - step,
    {
        proof {
            reveal_strlit(",");
            assert(","@ == seq![',']);
            let now = texts.take(step + 1);
            assert(now.drop_last() == texts.take(step as int));
            assert(now.last() == tags@[step as int]@);
        }
        if step > 0 {
            tags_str.append(",");
        }
        tags_str.append(tags[step]);
        step += 1;
    }
    assert(texts.take(step as int) == texts);
    tags_str
}

/// The text of a new description record.
pub fn render_template(name: &str, orig_path: &str, tags: &str, hexmd5: &str) -> (text: String)
    ensures
        text@ == template_text(name@, orig_path@, tags@, hexmd5@),
{
    let mut text = String::from_str("name: ");
    text.append(name);
    text.append("\norig-path: ");
    text.append(orig_path);
    text.append("\ntags: ");
    text.append(tags);
    text.append("\nmd5: ");
    text.append(hexmd5);
    text.append("\n");
    text
}

/// One tag is formatted as itself, and each further tag adds a comma and
/// its own text at the end.
pub proof fn lemma_join_tags_push(tags: Seq<Seq<char>>, tag: Seq<char>)
    ensures
        join_tags(tags.push(tag)) == if tags.len() == 0 {
            tag
        } else {
            join_tags(tags) + seq![','] + tag
        },
{
    assert(tags.push(tag).drop_last() == tags);
}

/// A fresh record holds the name, the path of the file, the tag line and the
/// fingerprint, each as a literal part of its text: a search for any of them
/// finds the record.
pub proof fn lemma_template_holds_fields(
    name: Seq<char>,
    orig_path: Seq<char>,
    tags: Seq<char>,
    hexmd5: Seq<char>,
)
    ensures
        contains(template_text(name, orig_path, tags, hexmd5), name),
        contains(template_text(name, orig_path, tags, hexmd5), orig_path),
        contains(template_text(name, orig_path, tags, hexmd5), tags),
        contains(template_text(name, orig_path, tags, hexmd5), hexmd5),
{
    let text = template_text(name, orig_path, tags, hexmd5);
    let a = "name: "@;
    let b = "\norig-path: "@;
    let c = "\ntags: "@;
    let d = "\nmd5: "@;
    let e = "\n"@;
    lemma_contains_middle(a, name, b + orig_path + c + tags + d + hexmd5 + e);
    assert(text == a + name + (b + orig_path + c + tags + d + hexmd5 + e));
    lemma_contains_middle(a + name + b, orig_path, c + tags + d + hexmd5 + e);
    assert(text == (a + name + b) + orig_path + (c + tags + d + hexmd5 + e));
    lemma_contains_middle(a + name + b + orig_path + c, tags, d + hexmd5 + e);
    assert(text == (a + name + b + orig_path + c) + tags + (d + hexmd5 + e));
    lemma_contains_middle(a + name + b + orig_path + c + tags + d, hexmd5, e);
}

/// Each tag stands in the tag line as it was given.
pub proof fn lemma_join_tags_holds_each(tags: Seq<Seq<char>>, i: int)
    requires
        0 <= i < tags.len(),
    ensures
        contains(join_tags(tags), tags[i]),
    decreases tags.len(),
{
    let none = Seq::<char>::empty();
    if tags.len() == 1 {
        lemma_contains_middle(none, tags[0], none);
        assert(none + tags[0] + none == tags[0]);
    } else {
        let rest = tags.drop_last();
        if i == tags.len() - 1 {
            lemma_contains_middle(join_tags(rest) + seq![','], tags.last(), none);
            assert(join_tags(rest) + seq![','] + tags.last() + none == join_tags(tags));
        } else {
            lemma_join_tags_holds_each(rest, i);
            lemma_contains_middle(none, join_tags(rest), seq![','] + tags.last());
            assert(none + join_tags(rest) + (seq![','] + tags.last()) == join_tags(tags));
            lemma_contains_transitive(join_tags(tags), join_tags(rest), tags[i]);
        }
    }
}

/// A fresh record holds each of its tags: a search for any one of them
/// finds the record.
pub proof fn lemma_template_holds_each_tag(
    name: Seq<char>,
    orig_path: Seq<char>,
    tags: Seq<Seq<char>>,
    hexmd5: Seq<char>,
    i: int,
)
    requires
        0 <= i < tags.len(),
    ensures
        contains(template_text(name, orig_path, join_tags(tags), hexmd5), tags[i]),
{
    lemma_join_tags_holds_each(tags, i);
    lemma_template_holds_fields(name, orig_path, join_tags(tags), hexmd5);
    lemma_contains_transitive(
        template_text(name, orig_path, join_tags(tags), hexmd5),
        join_tags(tags),
        tags[i],
    );
}

} // verus!
