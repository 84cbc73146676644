//! The page of tags and branches.

use crate::html::{
    element, element_text, header_row, header_row_text, no_attributes, one_attribute, plain_row,
    plain_row_text, table, table_text, wrap, wrapped_text, Tag,
};
use crate::model::{RefRecord, RefView};
use crate::text::{lemma_texts_push, texts};
use vstd::prelude::*;

verus! {

/// The row of one ref: its name, and the time and the author of the commit
/// it points to.
pub open spec fn ref_row_text(one: RefView) -> Seq<char> {
    plain_row_text(seq![one.name, one.time.text(), one.author])
}

/// The head of a table of refs.
pub open spec fn refs_head_text() -> Seq<char> {
    header_row_text(seq!["Name"@, "Last commit time"@, "Author"@])
}

/// A table of refs with the given id.
pub open spec fn refs_table_text(id: Seq<char>, refs: Seq<RefView>) -> Seq<char> {
    table_text(
        seq![("id"@, id)],
        seq![refs_head_text()],
        refs.map_values(|one: RefView| ref_row_text(one)),
    )
}

/// The refs of a repository: the tags under their heading, where there are
/// any, then the branches under theirs.
pub open spec fn refs_text(tags: Seq<RefView>, branches: Seq<RefView>) -> Seq<char> {
    element_text(
        Tag::Div.name(),
        Seq::empty(),
        (if tags.len() > 0 {
            seq![
                wrapped_text(Tag::Heading2, Seq::empty(), "Tags"@),
                refs_table_text("tags"@, tags),
            ]
        } else {
            Seq::empty()
        }) + seq![
            wrapped_text(Tag::Heading2, Seq::empty(), "Branches"@),
            refs_table_text("branches"@, branches),
        ],
    )
}

/// The row of one ref.
pub fn ref_row(one: &RefRecord) -> (html: String)
    ensures
        html@ == ref_row_text(one@),
{
    let mut values: Vec<String> = Vec::new();
    values.push(one.name.clone());
    values.push(one.time.format());
    values.push(one.author.clone());
    proof {
        assert(texts(values@) =~= seq![one.name@, one.time.text(), one.author@]);
    }
    plain_row(&values)
}

/// A table of refs with the given id.
pub fn refs_table(id: &str, refs: &Vec<RefRecord>) -> (html: String)
    ensures
        html@ == refs_table_text(id@, refs.deep_view()),
{
    let mut rows: Vec<String> = Vec::new();
    let mut i: usize = 0;
    while i < refs.len()
        invariant
            i <= refs.len(),
            texts(rows@) == refs.deep_view().take(i as int).map_values(
                |one: RefView| ref_row_text(one),
            ),
        decreases refs.len() - i,
    {
        let one = ref_row(&refs[i]);
        proof {
            lemma_texts_push(rows@, one);
        }
        rows.push(one);
        i = i + 1;
    }
    assert(refs.deep_view().take(refs.len() as int) =~= refs.deep_view());
    let mut names: Vec<String> = Vec::new();
    names.push(String::from_str("Name"));
    names.push(String::from_str("Last commit time"));
    names.push(String::from_str("Author"));
    proof {
        assert(texts(names@) =~= seq!["Name"@, "Last commit time"@, "Author"@]);
    }
    let mut head: Vec<String> = Vec::new();
    head.push(header_row(&names));
    proof {
        assert(texts(head@) =~= seq![refs_head_text()]);
    }
    table(&one_attribute("id", id), &head, &rows)
}

/// The refs of a repository.
pub fn get_refs(tags: &Vec<RefRecord>, branches: &Vec<RefRecord>) -> (html: String)
    ensures
        html@ == refs_text(tags.deep_view(), branches.deep_view()),
{
    let mut children: Vec<String> = Vec::new();
    if tags.len() > 0 {
        children.push(wrap(Tag::Heading2, &no_attributes(), "Tags"));
        children.push(refs_table("tags", tags));
    }
    children.push(wrap(Tag::Heading2, &no_attributes(), "Branches"));
    children.push(refs_table("branches", branches));
    proof {
        let first = if tags@.len() > 0 {
            seq![
                wrapped_text(Tag::Heading2, Seq::empty(), "Tags"@),
                refs_table_text("tags"@, tags.deep_view()),
            ]
        } else {
            Seq::empty()
        };
        assert(texts(children@) =~= first + seq![
            wrapped_text(Tag::Heading2, Seq::empty(), "Branches"@),
            refs_table_text("branches"@, branches.deep_view()),
        ]);
    }
    element(Tag::Div, &no_attributes(), &children)
}

} // verus!
