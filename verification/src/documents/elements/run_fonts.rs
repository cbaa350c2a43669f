//! The run-fonts leaf property element.
//!
//! It specifies the fonts used to display the text contents of a run. Within
//! a single run there can be up to four font slots, each independently
//! optional: ASCII range, high ANSI range, east-Asian range, and complex
//! script range. An absent slot contributes no attribute at all to the
//! serialized form.

use vstd::prelude::*;

verus! {

use crate::documents::build_xml::BuildXML;
use crate::xml_builder::{
    attrs_text, closed_tag_text, opt_attr, opt_string_view, run_fonts_attrs, XMLBuilder,
};

/// A run-fonts element: four independently optional font-name slots.
#[derive(Debug, Clone, PartialEq)]
pub struct RunFonts {
    pub ascii: Option<String>,
    pub hi_ansi: Option<String>,
    pub east_asia: Option<String>,
    pub cs: Option<String>,
}

impl RunFonts {
    /// A run-fonts element with every slot absent.
    pub fn new() -> (r: RunFonts)
        ensures
            r.ascii.is_none(),
            r.hi_ansi.is_none(),
            r.east_asia.is_none(),
            r.cs.is_none(),
    {
        RunFonts { ascii: None, hi_ansi: None, east_asia: None, cs: None }
    }

    /// Set the ASCII-range font name.
    pub fn ascii(self, f: &str) -> (r: RunFonts)
        ensures
            opt_string_view(r.ascii) == Some(f@),
            r.hi_ansi == self.hi_ansi,
            r.east_asia == self.east_asia,
            r.cs == self.cs,
    {
        RunFonts { ascii: Some(f.to_owned()), ..self }
    }

    /// Set the high-ANSI-range font name.
    pub fn hi_ansi(self, f: &str) -> (r: RunFonts)
        ensures
            opt_string_view(r.hi_ansi) == Some(f@),
            r.ascii == self.ascii,
            r.east_asia == self.east_asia,
            r.cs == self.cs,
    {
        RunFonts { hi_ansi: Some(f.to_owned()), ..self }
    }

    /// Set the east-Asian-range font name.
    pub fn east_asia(self, f: &str) -> (r: RunFonts)
        ensures
            opt_string_view(r.east_asia) == Some(f@),
            r.ascii == self.ascii,
            r.hi_ansi == self.hi_ansi,
            r.cs == self.cs,
    {
        RunFonts { east_asia: Some(f.to_owned()), ..self }
    }

    /// Set the complex-script-range font name.
    pub fn cs(self, f: &str) -> (r: RunFonts)
        ensures
            opt_string_view(r.cs) == Some(f@),
            r.ascii == self.ascii,
            r.hi_ansi == self.hi_ansi,
            r.east_asia == self.east_asia,
    {
        RunFonts { cs: Some(f.to_owned()), ..self }
    }

    /// The element's attribute list: one entry per present slot, in the
    /// schema's declared order.
    pub open spec fn attr_list(self) -> Seq<(Seq<char>, Seq<char>)> {
        run_fonts_attrs(
            opt_string_view(self.ascii),
            opt_string_view(self.hi_ansi),
            opt_string_view(self.cs),
            opt_string_view(self.east_asia),
        )
    }
}

impl Default for RunFonts {
    /// Same as `new`: every slot absent.
    fn default() -> (r: RunFonts)
        ensures
            r.ascii.is_none(),
            r.hi_ansi.is_none(),
            r.east_asia.is_none(),
            r.cs.is_none(),
    {
        RunFonts::new()
    }
}

impl BuildXML for RunFonts {
    open spec fn xml_text(&self) -> Seq<char> {
        closed_tag_text("w:rFonts"@, self.attr_list())
    }

    fn build_text(&self) -> (r: String) {
        let b = XMLBuilder::new();
        let b = b.run_fonts(
            self.ascii.as_ref(),
            self.hi_ansi.as_ref(),
            self.cs.as_ref(),
            self.east_asia.as_ref(),
        );
        let r = b.build_string();
        proof {
            assert(r@ =~= self.xml_text());
        }
        r
    }
}

/// How many entries of an attribute list carry the given name.
pub open spec fn count_name(attrs: Seq<(Seq<char>, Seq<char>)>, name: Seq<char>) -> int
    decreases attrs.len(),
{
    if attrs.len() == 0 {
        0
    } else {
        (if attrs[0].0 == name {
            1int
        } else {
            0int
        }) + count_name(attrs.drop_first(), name)
    }
}

/// Name counting distributes over concatenation of attribute lists.
proof fn lemma_count_name_concat(
    a: Seq<(Seq<char>, Seq<char>)>,
    b: Seq<(Seq<char>, Seq<char>)>,
    name: Seq<char>,
)
    ensures
        count_name(a + b, name) == count_name(a, name) + count_name(b, name),
    decreases a.len(),
{
    if a.len() == 0 {
        assert(a + b =~= b);
    } else {
        assert((a + b).drop_first() =~= a.drop_first() + b);
        assert((a + b)[0] == a[0]);
        lemma_count_name_concat(a.drop_first(), b, name);
    }
}

/// The count of one optional field's contribution under its own name, and
/// under any other name.
proof fn lemma_count_name_opt(name: Seq<char>, value: Option<Seq<char>>, probe: Seq<char>)
    ensures
        count_name(opt_attr(name, value), probe) == (if value.is_some() && name == probe {
            1int
        } else {
            0int
        }),
{
    match value {
        Some(v) => {
            let one = opt_attr(name, value);
            assert(one =~= seq![(name, v)]);
            assert(one.drop_first() =~= Seq::<(Seq<char>, Seq<char>)>::empty());
            assert(count_name(Seq::<(Seq<char>, Seq<char>)>::empty(), probe) == 0);
        },
        None => {
            assert(opt_attr(name, value) =~= Seq::<(Seq<char>, Seq<char>)>::empty());
        },
    }
}

/// The four attribute names of the run-fonts element are pairwise distinct.
proof fn lemma_run_fonts_names_distinct()
    ensures
        "w:ascii"@ != "w:hAnsi"@,
        "w:ascii"@ != "w:cs"@,
        "w:ascii"@ != "w:eastAsia"@,
        "w:hAnsi"@ != "w:cs"@,
        "w:hAnsi"@ != "w:eastAsia"@,
        "w:cs"@ != "w:eastAsia"@,
{
    reveal_strlit("w:ascii");
    reveal_strlit("w:hAnsi");
    reveal_strlit("w:cs");
    reveal_strlit("w:eastAsia");
    assert("w:ascii"@.len() == 7);
    assert("w:hAnsi"@.len() == 7);
    assert("w:cs"@.len() == 4);
    assert("w:eastAsia"@.len() == 10);
    assert("w:ascii"@[2] == 'a');
    assert("w:hAnsi"@[2] == 'h');
}

/// How many of the element's slots are set.
pub open spec fn set_slot_count(f: RunFonts) -> int {
    (if f.ascii.is_some() {
        1int
    } else {
        0int
    }) + (if f.hi_ansi.is_some() {
        1int
    } else {
        0int
    }) + (if f.cs.is_some() {
        1int
    } else {
        0int
    }) + (if f.east_asia.is_some() {
        1int
    } else {
        0int
    })
}

/// The attribute-count invariant: the serialized tag of a run-fonts element
/// carries exactly one attribute per set slot — its attribute list holds one
/// entry under each set slot's name, no entry under an absent slot's name,
/// and nothing else.
pub proof fn lemma_attr_count(f: RunFonts)
    ensures
        f.xml_text() == closed_tag_text("w:rFonts"@, f.attr_list()),
        f.attr_list().len() == set_slot_count(f),
        count_name(f.attr_list(), "w:ascii"@) == (if f.ascii.is_some() {
            1int
        } else {
            0int
        }),
        count_name(f.attr_list(), "w:hAnsi"@) == (if f.hi_ansi.is_some() {
            1int
        } else {
            0int
        }),
        count_name(f.attr_list(), "w:cs"@) == (if f.cs.is_some() {
            1int
        } else {
            0int
        }),
        count_name(f.attr_list(), "w:eastAsia"@) == (if f.east_asia.is_some() {
            1int
        } else {
            0int
        }),
{
    lemma_run_fonts_names_distinct();
    let a = opt_attr("w:ascii"@, opt_string_view(f.ascii));
    let h = opt_attr("w:hAnsi"@, opt_string_view(f.hi_ansi));
    let c = opt_attr("w:cs"@, opt_string_view(f.cs));
    let e = opt_attr("w:eastAsia"@, opt_string_view(f.east_asia));
    lemma_count_under_probe(f, "w:ascii"@);
    lemma_count_under_probe(f, "w:hAnsi"@);
    lemma_count_under_probe(f, "w:cs"@);
    lemma_count_under_probe(f, "w:eastAsia"@);
    assert(a.len() + h.len() + c.len() + e.len() == set_slot_count(f));
}

/// How often one probe name occurs in a run-fonts attribute list.
proof fn lemma_count_under_probe(f: RunFonts, probe: Seq<char>)
    ensures
        count_name(f.attr_list(), probe) == (if f.ascii.is_some() && probe == "w:ascii"@ {
            1int
        } else {
            0int
        }) + (if f.hi_ansi.is_some() && probe == "w:hAnsi"@ {
            1int
        } else {
            0int
        }) + (if f.cs.is_some() && probe == "w:cs"@ {
            1int
        } else {
            0int
        }) + (if f.east_asia.is_some() && probe == "w:eastAsia"@ {
            1int
        } else {
            0int
        }),
{
    let a = opt_attr("w:ascii"@, opt_string_view(f.ascii));
    let h = opt_attr("w:hAnsi"@, opt_string_view(f.hi_ansi));
    let c = opt_attr("w:cs"@, opt_string_view(f.cs));
    let e = opt_attr("w:eastAsia"@, opt_string_view(f.east_asia));
    lemma_count_name_concat(a, h, probe);
    lemma_count_name_concat(a + h, c, probe);
    lemma_count_name_concat(a + h + c, e, probe);
    lemma_count_name_opt("w:ascii"@, opt_string_view(f.ascii), probe);
    lemma_count_name_opt("w:hAnsi"@, opt_string_view(f.hi_ansi), probe);
    lemma_count_name_opt("w:cs"@, opt_string_view(f.cs), probe);
    lemma_count_name_opt("w:eastAsia"@, opt_string_view(f.east_asia), probe);
}

/// With no slot set the element serializes as its bare self-closing tag with
/// no attributes.
pub proof fn lemma_empty_run_fonts(f: RunFonts)
    requires
        f.ascii.is_none(),
        f.hi_ansi.is_none(),
        f.east_asia.is_none(),
        f.cs.is_none(),
    ensures
        f.xml_text() == closed_tag_text("w:rFonts"@, Seq::empty()),
        f.xml_text() == "<w:rFonts />"@,
{
    assert(f.attr_list() =~= Seq::<(Seq<char>, Seq<char>)>::empty());
    reveal_strlit("<");
    reveal_strlit("w:rFonts");
    reveal_strlit(" />");
    reveal_strlit("<w:rFonts />");
    assert(attrs_text(Seq::<(Seq<char>, Seq<char>)>::empty()) =~= Seq::<char>::empty());
    assert(f.xml_text() =~= "<w:rFonts />"@);
}

} // verus!
