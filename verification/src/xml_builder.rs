//! The low-level XML construction primitive: a single-pass accumulator that
//! emits open tags, self-closing tags with conditionally present attributes,
//! already-serialized children, and close tags.
//!
//! The text that each operation appends is pinned down by spec functions
//! (`open_tag_text`, `close_tag_text`, `closed_tag_text`, `attr_text`), so an
//! element's serialization contract can state its exact output.

use vstd::prelude::*;

verus! {

use vstd::string::StringExecFns;
use vstd::string::StrSliceExecFns;

/// What one character of an attribute value contributes to the serialized
/// form: the XML-significant characters are replaced by entity references,
/// every other character stands for itself.
pub open spec fn escape_char(c: char) -> Seq<char> {
    if c == '&' {
        "&amp;"@
    } else if c == '<' {
        "&lt;"@
    } else if c == '>' {
        "&gt;"@
    } else if c == '"' {
        "&quot;"@
    } else {
        seq![c]
    }
}

/// An attribute value escaped for the double-quoted XML attribute context.
pub open spec fn escape_attr(s: Seq<char>) -> Seq<char>
    decreases s.len(),
{
    if s.len() == 0 {
        Seq::empty()
    } else {
        escape_char(s[0]) + escape_attr(s.drop_first())
    }
}

/// Escaping distributes over concatenation.
pub proof fn lemma_escape_attr_concat(a: Seq<char>, b: Seq<char>)
    ensures
        escape_attr(a + b) == escape_attr(a) + escape_attr(b),
    decreases a.len(),
{
    if a.len() == 0 {
        assert(a + b =~= b);
        assert(escape_attr(a) + escape_attr(b) =~= escape_attr(b));
    } else {
        assert((a + b).drop_first() =~= a.drop_first() + b);
        assert((a + b)[0] == a[0]);
        lemma_escape_attr_concat(a.drop_first(), b);
        assert(escape_attr(a + b) =~= escape_attr(a) + escape_attr(b));
    }
}

/// The text of one present attribute: a leading space, the attribute name,
/// `="`, the escaped value, and the closing quote.
pub open spec fn attr_text(name: Seq<char>, value: Seq<char>) -> Seq<char> {
    " "@ + name + "=\""@ + escape_attr(value) + "\""@
}

/// The text of a list of (name, raw value) attribute pairs, in order.
pub open spec fn attrs_text(attrs: Seq<(Seq<char>, Seq<char>)>) -> Seq<char>
    decreases attrs.len(),
{
    if attrs.len() == 0 {
        Seq::empty()
    } else {
        attr_text(attrs[0].0, attrs[0].1) + attrs_text(attrs.drop_first())
    }
}

/// Attribute text distributes over concatenation of attribute lists.
pub proof fn lemma_attrs_text_concat(a: Seq<(Seq<char>, Seq<char>)>, b: Seq<(Seq<char>, Seq<char>)>)
    ensures
        attrs_text(a + b) == attrs_text(a) + attrs_text(b),
    decreases a.len(),
{
    if a.len() == 0 {
        assert(a + b =~= b);
        assert(attrs_text(a) + attrs_text(b) =~= attrs_text(b));
    } else {
        assert((a + b).drop_first() =~= a.drop_first() + b);
        assert((a + b)[0] == a[0]);
        lemma_attrs_text_concat(a.drop_first(), b);
        assert(attrs_text(a + b) =~= attrs_text(a) + attrs_text(b));
    }
}

/// The attribute-list contribution of one optional field: one entry when the
/// field is present, nothing when it is absent.
pub open spec fn opt_attr(name: Seq<char>, value: Option<Seq<char>>) -> Seq<(Seq<char>, Seq<char>)> {
    match value {
        Some(v) => seq![(name, v)],
        None => Seq::empty(),
    }
}

/// The view of an optional borrowed string.
pub open spec fn opt_ref_view(v: Option<&String>) -> Option<Seq<char>> {
    match v {
        Some(s) => Some(s@),
        None => None,
    }
}

/// The view of an optional owned string.
pub open spec fn opt_string_view(v: Option<String>) -> Option<Seq<char>> {
    match v {
        Some(s) => Some(s@),
        None => None,
    }
}

/// An opening tag.
pub open spec fn open_tag_text(name: Seq<char>) -> Seq<char> {
    "<"@ + name + ">"@
}

/// A closing tag.
pub open spec fn close_tag_text(name: Seq<char>) -> Seq<char> {
    "</"@ + name + ">"@
}

/// A self-closing tag carrying exactly the given attributes, with a single
/// space before the self-closing marker.
pub open spec fn closed_tag_text(name: Seq<char>, attrs: Seq<(Seq<char>, Seq<char>)>) -> Seq<char> {
    "<"@ + name + attrs_text(attrs) + " />"@
}

/// The fixed attribute list of the run-fonts element: one entry per present
/// slot, in the schema's declared order.
pub open spec fn run_fonts_attrs(
    ascii: Option<Seq<char>>,
    hi_ansi: Option<Seq<char>>,
    cs: Option<Seq<char>>,
    east_asia: Option<Seq<char>>,
) -> Seq<(Seq<char>, Seq<char>)> {
    opt_attr("w:ascii"@, ascii) + opt_attr("w:hAnsi"@, hi_ansi) + opt_attr("w:cs"@, cs)
        + opt_attr("w:eastAsia"@, east_asia)
}

/// Relies on `String::push`: appends exactly the one given character.
#[verifier::external_body]
fn push_char(s: &mut String, c: char)
    ensures
        final(s)@ == old(s)@ + seq![c],
{
    s.push(c);
}

/// Escape a string for use as a double-quoted XML attribute value.
pub fn escape_attr_value(s: &str) -> (r: String)
    ensures
        r@ == escape_attr(s@),
{
    let n: usize = s.unicode_len();
    let mut r = String::new();
    let mut i: usize = 0;
    while i < n
        invariant
            n == s@.len(),
            i <= n,
            r@ == escape_attr(s@.take(i as int)),
        decreases n - i,
    {
        let c = s.get_char(i);
        if c == '&' {
            r.append("&amp;");
        } else if c == '<' {
            r.append("&lt;");
        } else if c == '>' {
            r.append("&gt;");
        } else if c == '"' {
            r.append("&quot;");
        } else {
            push_char(&mut r, c);
        }
        proof {
            let prefix = s@.take(i as int);
            let ch = s@[i as int];
            assert(s@.take(i + 1) =~= prefix + seq![ch]);
            lemma_escape_attr_concat(prefix, seq![ch]);
            assert(seq![ch].drop_first() =~= Seq::<char>::empty());
            assert(seq![ch][0] == ch);
            assert(escape_attr(Seq::<char>::empty()) =~= Seq::<char>::empty());
            assert(escape_attr(seq![ch]) =~= escape_char(ch) + escape_attr(Seq::<char>::empty()));
            assert(escape_attr(seq![ch]) =~= escape_char(ch));
        }
        i = i + 1;
    }
    proof {
        assert(s@.take(n as int) =~= s@);
    }
    r
}

/// Append one present attribute, or nothing for an absent one.
fn push_opt_attr(buf: &mut String, name: &str, value: Option<&String>)
    ensures
        final(buf)@ == old(buf)@ + attrs_text(opt_attr(name@, opt_ref_view(value))),
{
    match value {
        Some(v) => {
            buf.append(" ");
            buf.append(name);
            buf.append("=\"");
            let esc = escape_attr_value(v.as_str());
            buf.append(esc.as_str());
            buf.append("\"");
            proof {
                let entry = opt_attr(name@, opt_ref_view(value));
                assert(entry =~= seq![(name@, v@)]);
                assert(entry.drop_first() =~= Seq::<(Seq<char>, Seq<char>)>::empty());
                assert(attrs_text(Seq::<(Seq<char>, Seq<char>)>::empty())
                    =~= Seq::<char>::empty());
                assert(attrs_text(entry) =~= attr_text(name@, v@));
                assert(buf@ =~= old(buf)@ + attrs_text(entry));
            }
        },
        None => {
            proof {
                assert(attrs_text(opt_attr(name@, opt_ref_view(value))) =~= Seq::<char>::empty());
                assert(buf@ =~= old(buf)@ + Seq::<char>::empty());
            }
        },
    }
}

/// The XML construction primitive: a single-pass accumulator over the output
/// text, with a stack of the currently open tags. `text` is the output
/// produced so far; `tags` are the open tag names, innermost last.
pub struct XMLBuilder {
    buf: String,
    open_tags: Vec<String>,
}

impl XMLBuilder {
    /// The output text accumulated so far.
    pub closed spec fn text(self) -> Seq<char> {
        self.buf@
    }

    /// The names of the open tags, outermost first.
    pub closed spec fn tags(self) -> Seq<Seq<char>> {
        Seq::new(self.open_tags@.len(), |i: int| self.open_tags@[i]@)
    }

    /// A fresh builder with no output and no open tags.
    pub fn new() -> (r: Self)
        ensures
            r.text() == Seq::<char>::empty(),
            r.tags() == Seq::<Seq<char>>::empty(),
    {
        let r = XMLBuilder { buf: String::new(), open_tags: Vec::new() };
        proof {
            assert(r.text() =~= Seq::<char>::empty());
            assert(r.tags() =~= Seq::<Seq<char>>::empty());
        }
        r
    }

    /// Open a tag: emit it and push its name.
    fn open_el(self, name: &str) -> (r: Self)
        ensures
            r.text() == self.text() + open_tag_text(name@),
            r.tags() == self.tags().push(name@),
    {
        let mut b = self;
        b.buf.append("<");
        b.buf.append(name);
        b.buf.append(">");
        b.open_tags.push(name.to_owned());
        proof {
            assert(b.text() =~= self.text() + open_tag_text(name@));
            assert(b.tags() =~= self.tags().push(name@));
        }
        b
    }

    /// Emit a self-closing tag with no attributes.
    fn closed_el(self, name: &str) -> (r: Self)
        ensures
            r.text() == self.text() + closed_tag_text(name@, Seq::empty()),
            r.tags() == self.tags(),
    {
        let mut b = self;
        b.buf.append("<");
        b.buf.append(name);
        b.buf.append(" />");
        proof {
            assert(attrs_text(Seq::<(Seq<char>, Seq<char>)>::empty()) =~= Seq::<char>::empty());
            assert(b.text() =~= self.text() + closed_tag_text(name@, Seq::empty()));
        }
        b
    }

    /// Open the table-row element.
    pub fn open_table_row(self) -> (r: Self)
        ensures
            r.text() == self.text() + open_tag_text("w:tr"@),
            r.tags() == self.tags().push("w:tr"@),
    {
        self.open_el("w:tr")
    }

    /// Open the table-cell element.
    pub fn open_table_cell(self) -> (r: Self)
        ensures
            r.text() == self.text() + open_tag_text("w:tc"@),
            r.tags() == self.tags().push("w:tc"@),
    {
        self.open_el("w:tc")
    }

    /// Emit the (empty) table-row property element.
    pub fn table_row_property(self) -> (r: Self)
        ensures
            r.text() == self.text() + closed_tag_text("w:trPr"@, Seq::empty()),
            r.tags() == self.tags(),
    {
        self.closed_el("w:trPr")
    }

    /// Emit the (empty) table-cell property element.
    pub fn table_cell_property(self) -> (r: Self)
        ensures
            r.text() == self.text() + closed_tag_text("w:tcPr"@, Seq::empty()),
            r.tags() == self.tags(),
    {
        self.closed_el("w:tcPr")
    }

    /// Emit the run-fonts element, with one attribute per present slot, in
    /// the schema's declared order, values escaped.
    pub fn run_fonts(
        self,
        ascii: Option<&String>,
        hi_ansi: Option<&String>,
        cs: Option<&String>,
        east_asia: Option<&String>,
    ) -> (r: Self)
        ensures
            r.text() == self.text() + closed_tag_text(
                "w:rFonts"@,
                run_fonts_attrs(
                    opt_ref_view(ascii),
                    opt_ref_view(hi_ansi),
                    opt_ref_view(cs),
                    opt_ref_view(east_asia),
                ),
            ),
            r.tags() == self.tags(),
    {
        let mut b = self;
        b.buf.append("<");
        b.buf.append("w:rFonts");
        push_opt_attr(&mut b.buf, "w:ascii", ascii);
        push_opt_attr(&mut b.buf, "w:hAnsi", hi_ansi);
        push_opt_attr(&mut b.buf, "w:cs", cs);
        push_opt_attr(&mut b.buf, "w:eastAsia", east_asia);
        b.buf.append(" />");
        proof {
            let a = opt_attr("w:ascii"@, opt_ref_view(ascii));
            let h = opt_attr("w:hAnsi"@, opt_ref_view(hi_ansi));
            let c = opt_attr("w:cs"@, opt_ref_view(cs));
            let e = opt_attr("w:eastAsia"@, opt_ref_view(east_asia));
            lemma_attrs_text_concat(a, h);
            lemma_attrs_text_concat(a + h, c);
            lemma_attrs_text_concat(a + h + c, e);
            assert(b.text() =~= self.text() + closed_tag_text(
                "w:rFonts"@,
                run_fonts_attrs(
                    opt_ref_view(ascii),
                    opt_ref_view(hi_ansi),
                    opt_ref_view(cs),
                    opt_ref_view(east_asia),
                ),
            ));
        }
        b
    }

    /// Append an already-serialized child element.
    pub fn add_child<T: crate::documents::build_xml::BuildXML>(self, child: &T) -> (r: Self)
        ensures
            r.text() == self.text() + child.xml_text(),
            r.tags() == self.tags(),
    {
        let mut b = self;
        let s = child.build_text();
        b.buf.append(s.as_str());
        proof {
            assert(b.tags() =~= self.tags());
        }
        b
    }

    /// Append the serializations of all given children, in order.
    pub fn add_children<T: crate::documents::build_xml::BuildXML>(
        self,
        children: &Vec<T>,
    ) -> (r: Self)
        ensures
            r.text() == self.text() + crate::documents::build_xml::seq_text(children@),
            r.tags() == self.tags(),
    {
        let mut b = self;
        let mut i: usize = 0;
        while i < children.len()
            invariant
                i <= children@.len(),
                b.text() == self.text()
                    + crate::documents::build_xml::seq_text(children@.take(i as int)),
                b.tags() == self.tags(),
            decreases children@.len() - i,
        {
            let s = children[i].build_text();
            b.buf.append(s.as_str());
            proof {
                let prefix = children@.take(i as int);
                let one = seq![children@[i as int]];
                assert(children@.take(i + 1) =~= prefix + one);
                crate::documents::build_xml::lemma_seq_text_concat::<T>(prefix, one);
                assert(one.drop_first() =~= Seq::<T>::empty());
                assert(crate::documents::build_xml::seq_text(Seq::<T>::empty())
                    =~= Seq::<char>::empty());
                assert(crate::documents::build_xml::seq_text(one)
                    =~= children@[i as int].xml_text());
            }
            i = i + 1;
        }
        proof {
            assert(children@.take(children@.len() as int) =~= children@);
        }
        b
    }

    /// Close the innermost open tag.
    pub fn close(self) -> (r: Self)
        requires
            self.tags().len() > 0,
        ensures
            r.text() == self.text() + close_tag_text(self.tags().last()),
            r.tags() == self.tags().drop_last(),
    {
        let mut b = self;
        let name = match b.open_tags.pop() {
            Some(n) => n,
            None => vstd::pervasive::unreached(),
        };
        b.buf.append("</");
        b.buf.append(name.as_str());
        b.buf.append(">");
        proof {
            assert(name@ == self.tags().last());
            assert(b.text() =~= self.text() + close_tag_text(self.tags().last()));
            assert(b.tags() =~= self.tags().drop_last());
        }
        b
    }

    /// Finish: the accumulated output as a string. All opened tags must have
    /// been closed, so the output is well-formed.
    pub fn build_string(self) -> (r: String)
        requires
            self.tags().len() == 0,
        ensures
            r@ == self.text(),
    {
        self.buf
    }

    /// Finish: the accumulated output as UTF-8 bytes.
    pub fn build(self) -> (r: Vec<u8>)
        requires
            self.tags().len() == 0,
        ensures
            r@ == vstd::utf8::encode_utf8(self.text()),
    {
        vstd::slice::slice_to_vec(self.buf.as_str().as_bytes())
    }
}

} // verus!
