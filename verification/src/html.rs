//! HTML text. Elements, character escaping and the page frame are rendered by
//! the `build_html` crate; this module states what comes back and builds the
//! few shapes the renderers share.

use crate::text::{concat, lemma_texts_push, texts};
use build_html::{Html, HtmlChild, HtmlContainer, HtmlElement, HtmlPage, HtmlTag};
use vstd::prelude::*;

verus! {

/// The element names this library writes.
#[derive(Clone, Copy, Debug, PartialEq, Eq)]
pub enum Tag {
    Anchor,
    Div,
    Heading1,
    Heading2,
    HorizontalRule,
    Image,
    Navigation,
    Paragraph,
    Preformatted,
    Span,
    Table,
    TableBody,
    TableCell,
    TableHeader,
    TableHeaderCell,
    TableRow,
}

impl Tag {
    /// The name as it stands in the markup.
    pub open spec fn name(self) -> Seq<char> {
        match self {
            Tag::Anchor => "a"@,
            Tag::Div => "div"@,
            Tag::Heading1 => "h1"@,
            Tag::Heading2 => "h2"@,
            Tag::HorizontalRule => "hr"@,
            Tag::Image => "img"@,
            Tag::Navigation => "nav"@,
            Tag::Paragraph => "p"@,
            Tag::Preformatted => "pre"@,
            Tag::Span => "span"@,
            Tag::Table => "table"@,
            Tag::TableBody => "tbody"@,
            Tag::TableCell => "td"@,
            Tag::TableHeader => "thead"@,
            Tag::TableHeaderCell => "th"@,
            Tag::TableRow => "tr"@,
        }
    }

    /// The name as it stands in the markup.
    pub fn as_str(self) -> (name: &'static str)
        ensures
            name@ == self.name(),
    {
        match self {
            Tag::Anchor => "a",
            Tag::Div => "div",
            Tag::Heading1 => "h1",
            Tag::Heading2 => "h2",
            Tag::HorizontalRule => "hr",
            Tag::Image => "img",
            Tag::Navigation => "nav",
            Tag::Paragraph => "p",
            Tag::Preformatted => "pre",
            Tag::Span => "span",
            Tag::Table => "table",
            Tag::TableBody => "tbody",
            Tag::TableCell => "td",
            Tag::TableHeader => "thead",
            Tag::TableHeaderCell => "th",
            Tag::TableRow => "tr",
        }
    }
}

/// An attribute: its name, then its value.
pub type Attribute = (String, String);

/// The characters of an attribute's name and value.
pub type AttributeText = (Seq<char>, Seq<char>);

/// The names and values of `attributes` as characters.
pub open spec fn attribute_views(attributes: Seq<Attribute>) -> Seq<AttributeText> {
    attributes.map_values(|a: Attribute| (a.0@, a.1@))
}

/// One attribute as written in an opening tag: a space, the name, and the
/// value in double quotes.
pub open spec fn attribute_text(attribute: AttributeText) -> Seq<char> {
    " "@ + attribute.0 + "=\""@ + attribute.1 + "\""@
}

/// The attributes of an opening tag, in order.
pub open spec fn attributes_text(attributes: Seq<AttributeText>) -> Seq<char>
    decreases attributes.len(),
{
    if attributes.len() == 0 {
        Seq::empty()
    } else {
        attributes_text(attributes.drop_last()) + attribute_text(attributes.last())
    }
}

/// The markup of one element. Without children it closes itself; with
/// children, their texts stand between the opening and the closing tag.
pub open spec fn element_text(
    tag: Seq<char>,
    attributes: Seq<AttributeText>,
    children: Seq<Seq<char>>,
) -> Seq<char> {
    if children.len() == 0 {
        "<"@ + tag + attributes_text(attributes) + "/>"@
    } else {
        "<"@ + tag + attributes_text(attributes) + ">"@ + concat(children) + "</"@ + tag + ">"@
    }
}

/// An element around one piece of text.
pub open spec fn wrapped_text(tag: Tag, attributes: Seq<AttributeText>, body: Seq<char>) -> Seq<
    char,
> {
    "<"@ + tag.name() + attributes_text(attributes) + ">"@ + body + "</"@ + tag.name() + ">"@
}

/// An element without children.
pub open spec fn leaf_text(tag: Tag, attributes: Seq<AttributeText>) -> Seq<char> {
    "<"@ + tag.name() + attributes_text(attributes) + "/>"@
}

/// What stands for one character in escaped text.
pub open spec fn escaped_char(c: char) -> Seq<char> {
    if c == '"' {
        "&quot;"@
    } else if c == '\'' {
        "&#39;"@
    } else if c == '&' {
        "&amp;"@
    } else if c == '<' {
        "&lt;"@
    } else if c == '>' {
        "&gt;"@
    } else {
        seq![c]
    }
}

/// `s` with the five characters that HTML reads as markup replaced by their
/// entities.
pub open spec fn escaped(s: Seq<char>) -> Seq<char>
    decreases s.len(),
{
    if s.len() == 0 {
        Seq::empty()
    } else {
        escaped(s.drop_last()) + escaped_char(s.last())
    }
}

/// A `link` element of the page head.
pub open spec fn head_link_text(href: Seq<char>, rel: Seq<char>) -> Seq<char> {
    "<link href=\""@ + href + "\" rel=\""@ + rel + "\">"@
}

/// A whole HTML5 document: a title, a stylesheet link and one more link in
/// the head, then the body.
pub open spec fn document_text(
    title: Seq<char>,
    stylesheet: Seq<char>,
    link: Seq<char>,
    rel: Seq<char>,
    body: Seq<char>,
) -> Seq<char> {
    "<!DOCTYPE html><html><head>"@ + "<title>"@ + title + "</title>"@ + head_link_text(
        stylesheet,
        "stylesheet"@,
    ) + head_link_text(link, rel) + "</head><body>"@ + body + "</body></html>"@
}

/// Renders one element. Wraps `HtmlElement::to_html_string` of `build_html`,
/// on an element made by `HtmlElement::new` from the tag that
/// `HtmlTag::from_str` gives for `tag`, with `attributes` and with each of
/// `children` as a raw child. The crate writes `<tag`, each attribute as
/// ` name="value"`, then `/>` if there is no child, else `>`, the children
/// and `</tag>`. `from_str` knows every name of [`Tag`].
#[verifier::external_body]
fn render_element(tag: &str, attributes: &Vec<Attribute>, children: &Vec<String>) -> (html: String)
    requires
        exists|known: Tag| tag@ == known.name(),
    ensures
        html@ == element_text(tag@, attribute_views(attributes@), texts(children@)),
{
    let mut element = HtmlElement::new(tag.parse::<HtmlTag>().unwrap());
    element.attributes = attributes.clone();
    element.children = children.iter().cloned().map(HtmlChild::Raw).collect();
    element.to_html_string()
}

/// Escapes text for use in markup. Wraps `build_html::escape_html`, which
/// replaces `"`, `'`, `&`, `<` and `>` by `&quot;`, `&#39;`, `&amp;`, `&lt;`
/// and `&gt;` and copies every other character.
#[verifier::external_body]
fn escape_markup(text: &str) -> (safe: String)
    ensures
        safe@ == escaped(text@),
{
    build_html::escape_html(text)
}

/// Renders a document. Wraps `HtmlPage::to_html_string` of `build_html` on a
/// page made by `HtmlPage::new`, `with_title`, `with_stylesheet`,
/// `with_head_link` and `with_raw`. The crate writes the HTML5 doctype, then
/// `<html>`, the head items in the order they were added inside `<head>`, the
/// body text inside `<body>`, and `</html>`.
#[verifier::external_body]
fn render_document(title: &str, stylesheet: &str, link: &str, rel: &str, body: &str) -> (html:
    String)
    ensures
        html@ == document_text(title@, stylesheet@, link@, rel@, body@),
{
    HtmlPage::new().with_title(title).with_stylesheet(stylesheet).with_head_link(link, rel)
        .with_raw(body).to_html_string()
}

/// The markup of an element with the given attributes and children.
pub fn element(tag: Tag, attributes: &Vec<Attribute>, children: &Vec<String>) -> (html: String)
    ensures
        html@ == element_text(tag.name(), attribute_views(attributes@), texts(children@)),
{
    render_element(tag.as_str(), attributes, children)
}

/// The markup of an element around one piece of text.
pub fn wrap(tag: Tag, attributes: &Vec<Attribute>, body: &str) -> (html: String)
    ensures
        html@ == wrapped_text(tag, attribute_views(attributes@), body@),
{
    let mut children: Vec<String> = Vec::new();
    children.push(String::from_str(body));
    proof {
        reveal_with_fuel(concat, 2);
    }
    element(tag, attributes, &children)
}

/// The markup of an element without children.
pub fn leaf(tag: Tag, attributes: &Vec<Attribute>) -> (html: String)
    ensures
        html@ == leaf_text(tag, attribute_views(attributes@)),
{
    let children: Vec<String> = Vec::new();
    element(tag, attributes, &children)
}

/// `text` with markup characters replaced by entities.
pub fn escape(text: &str) -> (safe: String)
    ensures
        safe@ == escaped(text@),
{
    escape_markup(text)
}

/// A whole document around `body`.
pub fn document(title: &str, stylesheet: &str, link: &str, rel: &str, body: &str) -> (html: String)
    ensures
        html@ == document_text(title@, stylesheet@, link@, rel@, body@),
{
    render_document(title, stylesheet, link, rel, body)
}

/// No attributes.
pub fn no_attributes() -> (attributes: Vec<Attribute>)
    ensures
        attribute_views(attributes@) == Seq::<AttributeText>::empty(),
{
    let attributes: Vec<Attribute> = Vec::new();
    attributes
}

/// Adds one attribute after those that are there.
pub fn add_attribute(attributes: &mut Vec<Attribute>, name: &str, value: &str)
    ensures
        attribute_views(final(attributes)@) == attribute_views(old(attributes)@).push(
            (name@, value@),
        ),
{
    attributes.push((String::from_str(name), String::from_str(value)));
}

/// One attribute.
pub fn one_attribute(name: &str, value: &str) -> (attributes: Vec<Attribute>)
    ensures
        attribute_views(attributes@) == seq![(name@, value@)],
{
    let mut attributes = no_attributes();
    add_attribute(&mut attributes, name, value);
    attributes
}

/// Text set in bold.
#[derive(Debug)]
pub struct Bold {
    content: String,
}

impl View for Bold {
    type V = Seq<char>;

    closed spec fn view(&self) -> Seq<char> {
        self.content@
    }
}

impl Bold {
    /// Bold text that reads `value`.
    pub fn from(value: &str) -> (bold: Bold)
        ensures
            bold@ == value@,
    {
        Bold { content: String::from_str(value) }
    }

    /// The content between `<b>` and `</b>`.
    pub fn to_html_string(&self) -> (html: String)
        ensures
            html@ == "<b>"@ + self@ + "</b>"@,
    {
        let mut html = String::from_str("<b>");
        html.append(self.content.as_str());
        html.append("</b>");
        html
    }
}

/// A table cell around `content`.
pub open spec fn cell_text(content: Seq<char>) -> Seq<char> {
    wrapped_text(Tag::TableCell, Seq::empty(), content)
}

/// A header cell around `content`.
pub open spec fn header_cell_text(content: Seq<char>) -> Seq<char> {
    wrapped_text(Tag::TableHeaderCell, Seq::empty(), content)
}

/// A table cell of the class `num` around `content`.
pub open spec fn numeric_cell_text(content: Seq<char>) -> Seq<char> {
    wrapped_text(Tag::TableCell, seq![("class"@, "num"@)], content)
}

/// A table row of the given cells.
pub open spec fn row_text(cells: Seq<Seq<char>>) -> Seq<char> {
    element_text(Tag::TableRow.name(), Seq::empty(), cells)
}

/// A table row with one plain cell for each value.
pub open spec fn plain_row_text(values: Seq<Seq<char>>) -> Seq<char> {
    row_text(values.map_values(|v: Seq<char>| cell_text(v)))
}

/// A table row with one header cell for each value.
pub open spec fn header_row_text(values: Seq<Seq<char>>) -> Seq<char> {
    row_text(values.map_values(|v: Seq<char>| header_cell_text(v)))
}

/// A table: the rows of its head, then the rows of its body.
pub open spec fn table_text(
    attributes: Seq<AttributeText>,
    head: Seq<Seq<char>>,
    body: Seq<Seq<char>>,
) -> Seq<char> {
    element_text(
        Tag::Table.name(),
        attributes,
        seq![
            element_text(Tag::TableHeader.name(), Seq::empty(), head),
            element_text(Tag::TableBody.name(), Seq::empty(), body),
        ],
    )
}

/// A link to `href` that reads `content`.
pub open spec fn link_text(href: Seq<char>, content: Seq<char>) -> Seq<char> {
    wrapped_text(Tag::Anchor, seq![("href"@, href)], content)
}

/// A table cell around `content`.
pub fn cell(content: &str) -> (html: String)
    ensures
        html@ == cell_text(content@),
{
    wrap(Tag::TableCell, &no_attributes(), content)
}

/// A header cell around `content`.
pub fn header_cell(content: &str) -> (html: String)
    ensures
        html@ == header_cell_text(content@),
{
    wrap(Tag::TableHeaderCell, &no_attributes(), content)
}

/// A table cell of the class `num` around `content`.
pub fn numeric_cell(content: &str) -> (html: String)
    ensures
        html@ == numeric_cell_text(content@),
{
    wrap(Tag::TableCell, &one_attribute("class", "num"), content)
}

/// A table row of the given cells.
pub fn row(cells: &Vec<String>) -> (html: String)
    ensures
        html@ == row_text(texts(cells@)),
{
    element(Tag::TableRow, &no_attributes(), cells)
}

/// A table row with one plain cell for each value.
pub fn plain_row(values: &Vec<String>) -> (html: String)
    ensures
        html@ == plain_row_text(texts(values@)),
{
    let mut cells: Vec<String> = Vec::new();
    let mut i: usize = 0;
    while i < values.len()
        invariant
            i <= values.len(),
            texts(cells@) == texts(values@.take(i as int)).map_values(
                |v: Seq<char>| cell_text(v),
            ),
        decreases values.len() - i,
    {
        let one = cell(values[i].as_str());
        proof {
            lemma_texts_push(cells@, one);
        }
        cells.push(one);
        i = i + 1;
    }
    assert(values@.take(values.len() as int) =~= values@);
    row(&cells)
}

/// A table row with one header cell for each value.
pub fn header_row(values: &Vec<String>) -> (html: String)
    ensures
        html@ == header_row_text(texts(values@)),
{
    let mut cells: Vec<String> = Vec::new();
    let mut i: usize = 0;
    while i < values.len()
        invariant
            i <= values.len(),
            texts(cells@) == texts(values@.take(i as int)).map_values(
                |v: Seq<char>| header_cell_text(v),
            ),
        decreases values.len() - i,
    {
        let one = header_cell(values[i].as_str());
        proof {
            lemma_texts_push(cells@, one);
        }
        cells.push(one);
        i = i + 1;
    }
    assert(values@.take(values.len() as int) =~= values@);
    row(&cells)
}

/// A table of the given rows.
pub fn table(attributes: &Vec<Attribute>, head: &Vec<String>, body: &Vec<String>) -> (html: String)
    ensures
        html@ == table_text(attribute_views(attributes@), texts(head@), texts(body@)),
{
    let mut parts: Vec<String> = Vec::new();
    parts.push(element(Tag::TableHeader, &no_attributes(), head));
    parts.push(element(Tag::TableBody, &no_attributes(), body));
    proof {
        assert(texts(parts@) =~= seq![
            element_text(Tag::TableHeader.name(), Seq::empty(), texts(head@)),
            element_text(Tag::TableBody.name(), Seq::empty(), texts(body@)),
        ]);
    }
    element(Tag::Table, attributes, &parts)
}

/// A link to `href` that reads `content`.
pub fn link(href: &str, content: &str) -> (html: String)
    ensures
        html@ == link_text(href@, content@),
{
    wrap(Tag::Anchor, &one_attribute("href", href), content)
}

} // verus!
