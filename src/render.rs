use vstd::prelude::*;
use crate::record::{ServiceRecord, RecordView, strings_view};
use crate::registry::{ServiceRegistry, is_selected};
use crate::screen::{ListScreen, ViewDiscoveryScreen};

verus! {

/// The glyph beside the title; it alternates every second.
#[derive(Clone, Copy, Debug, PartialEq, Eq)]
pub enum HeaderGlyph {
    Apple,
    Coin,
}

/// The title's glyph `seconds` after start: the apple on even seconds, the
/// coin on odd ones.
pub fn header_glyph(seconds: u64) -> (r: HeaderGlyph)
    ensures
        r == (if seconds % 2 == 0 { HeaderGlyph::Apple } else { HeaderGlyph::Coin }),
{
    if seconds % 2 == 0 {
        HeaderGlyph::Apple
    } else {
        HeaderGlyph::Coin
    }
}

/// The mark in front of a list entry.
#[derive(Clone, Copy, Debug, PartialEq, Eq)]
pub enum SelectionMark {
    Selected,
    Unselected,
}

/// The mark for the entry at `index`: selected exactly at the registry's
/// selection.
pub fn get_symbol_for_index(registry: &ServiceRegistry, index: usize) -> (r: SelectionMark)
    ensures
        r == (if index == registry@.index { SelectionMark::Selected } else { SelectionMark::Unselected }),
{
    if is_selected(registry, &index) {
        SelectionMark::Selected
    } else {
        SelectionMark::Unselected
    }
}

/// One entry of the list: its mark, whether it takes the second of the two
/// alternating colours, and the record it shows.
#[derive(Clone, Debug, PartialEq, Eq)]
pub struct ListLine {
    pub mark: SelectionMark,
    pub shaded: bool,
    pub record: ServiceRecord,
}

impl ListScreen {
    /// One line per record, in discovery order: the selected one marked, odd
    /// positions shaded.
    pub fn lines(&self, registry: &ServiceRegistry) -> (r: Vec<ListLine>)
        ensures
            r@.len() == registry@.records.len(),
            forall|i: int| 0 <= i < r@.len() ==> {
                &&& (#[trigger] r@[i]).mark == (if i == registry@.index {
                    SelectionMark::Selected
                } else {
                    SelectionMark::Unselected
                })
                &&& r@[i].shaded == (i % 2 == 1)
                &&& r@[i].record@ == registry@.records[i]
            },
    {
        let mut out: Vec<ListLine> = Vec::new();
        let n = registry.length();
        let mut i: usize = 0;
        while i < n
            invariant
                n == registry@.records.len(),
                i <= n,
                out@.len() == i,
                forall|j: int| 0 <= j < i ==> {
                    &&& (#[trigger] out@[j]).mark == (if j == registry@.index {
                        SelectionMark::Selected
                    } else {
                        SelectionMark::Unselected
                    })
                    &&& out@[j].shaded == (j % 2 == 1)
                    &&& out@[j].record@ == registry@.records[j]
                },
            decreases n - i,
        {
            match registry.get(i) {
                Some(record) => {
                    out.push(ListLine { mark: get_symbol_for_index(registry, i), shaded: i % 2 == 1, record });
                },
                None => {},
            }
            i = i + 1;
        }
        out
    }
}

/// The headings of the detail view.
#[derive(Clone, Copy, Debug, PartialEq, Eq)]
pub enum Field {
    Name,
    Hostname,
    Address,
    Service,
    SubTypes,
    Txt,
}

/// The value under a heading of the detail view.
#[derive(Clone, Debug, PartialEq, Eq)]
pub enum FieldValue {
    Name(String),
    HostPort(String, u16),
    AddressPort(String, u16),
    Service(String, String),
    NoSubTypes,
}

/// One line of the detail view.
#[derive(Clone, Debug, PartialEq, Eq)]
pub enum DetailLine {
    Label(Field),
    Value { value: FieldValue, bold: bool },
    SubType(String),
    TxtPair(String, String),
}

pub enum FieldValueView {
    Name(Seq<char>),
    HostPort(Seq<char>, u16),
    AddressPort(Seq<char>, u16),
    Service(Seq<char>, Seq<char>),
    NoSubTypes,
}

pub enum DetailLineView {
    Label(Field),
    Value { value: FieldValueView, bold: bool },
    SubType(Seq<char>),
    TxtPair(Seq<char>, Seq<char>),
}

impl View for FieldValue {
    type V = FieldValueView;

    open spec fn view(&self) -> FieldValueView {
        match self {
            FieldValue::Name(s) => FieldValueView::Name(s@),
            FieldValue::HostPort(h, p) => FieldValueView::HostPort(h@, *p),
            FieldValue::AddressPort(a, p) => FieldValueView::AddressPort(a@, *p),
            FieldValue::Service(n, p) => FieldValueView::Service(n@, p@),
            FieldValue::NoSubTypes => FieldValueView::NoSubTypes,
        }
    }
}

impl View for DetailLine {
    type V = DetailLineView;

    open spec fn view(&self) -> DetailLineView {
        match self {
            DetailLine::Label(f) => DetailLineView::Label(*f),
            DetailLine::Value { value, bold } => DetailLineView::Value { value: value@, bold: *bold },
            DetailLine::SubType(s) => DetailLineView::SubType(s@),
            DetailLine::TxtPair(k, v) => DetailLineView::TxtPair(k@, v@),
        }
    }
}

pub open spec fn detail_lines_view(v: Seq<DetailLine>) -> Seq<DetailLineView> {
    v.map_values(|l: DetailLine| l@)
}

/// The fixed part of the detail view: each heading and its value, values
/// alternately plain and bold, ending with the sub-types heading.
pub open spec fn detail_head(r: RecordView) -> Seq<DetailLineView> {
    seq![
        DetailLineView::Label(Field::Name),
        DetailLineView::Value { value: FieldValueView::Name(r.name), bold: false },
        DetailLineView::Label(Field::Hostname),
        DetailLineView::Value { value: FieldValueView::HostPort(r.host_name, r.port), bold: true },
        DetailLineView::Label(Field::Address),
        DetailLineView::Value { value: FieldValueView::AddressPort(r.address, r.port), bold: false },
        DetailLineView::Label(Field::Service),
        DetailLineView::Value {
            value: FieldValueView::Service(r.service_type.name, r.service_type.protocol),
            bold: true,
        },
        DetailLineView::Label(Field::SubTypes),
    ]
}

/// One line per sub-type, or a plain "none" line when there is none.
pub open spec fn detail_sub_types(r: RecordView) -> Seq<DetailLineView> {
    if r.service_type.sub_types.len() == 0 {
        seq![DetailLineView::Value { value: FieldValueView::NoSubTypes, bold: false }]
    } else {
        r.service_type.sub_types.map_values(|s: Seq<char>| DetailLineView::SubType(s))
    }
}

/// Without a text record nothing; with one, its heading and a line per pair.
pub open spec fn detail_txt(r: RecordView) -> Seq<DetailLineView> {
    match r.txt {
        None => Seq::empty(),
        Some(t) => seq![DetailLineView::Label(Field::Txt)]
            + t.map_values(|p: (Seq<char>, Seq<char>)| DetailLineView::TxtPair(p.0, p.1)),
    }
}

/// Everything the detail view shows of `r`, top to bottom.
pub open spec fn detail_lines(r: RecordView) -> Seq<DetailLineView> {
    detail_head(r) + detail_sub_types(r) + detail_txt(r)
}

impl ViewDiscoveryScreen {
    /// The lines of the detail view, all drawn from the copy held by the
    /// screen, never from the registry.
    pub fn lines(&self) -> (r: Vec<DetailLine>)
        ensures
            detail_lines_view(r@) == detail_lines(self.discovery@),
    {
        let d = &self.discovery;
        let mut out: Vec<DetailLine> = Vec::new();
        out.push(DetailLine::Label(Field::Name));
        out.push(DetailLine::Value { value: FieldValue::Name(d.name.clone()), bold: false });
        out.push(DetailLine::Label(Field::Hostname));
        out.push(DetailLine::Value { value: FieldValue::HostPort(d.host_name.clone(), d.port), bold: true });
        out.push(DetailLine::Label(Field::Address));
        out.push(DetailLine::Value { value: FieldValue::AddressPort(d.address.clone(), d.port), bold: false });
        out.push(DetailLine::Label(Field::Service));
        out.push(DetailLine::Value {
            value: FieldValue::Service(d.service_type.name.clone(), d.service_type.protocol.clone()),
            bold: true,
        });
        out.push(DetailLine::Label(Field::SubTypes));
        assert(detail_lines_view(out@) =~= detail_head(d@));

        let subs = &d.service_type.sub_types;
        if subs.len() == 0 {
            out.push(DetailLine::Value { value: FieldValue::NoSubTypes, bold: false });
            assert(detail_lines_view(out@) =~= detail_head(d@) + detail_sub_types(d@));
        } else {
            let ghost sv = detail_sub_types(d@);
            let mut i: usize = 0;
            while i < subs.len()
                invariant
                    i <= subs@.len(),
                    subs@.len() > 0,
                    strings_view(subs@) == d@.service_type.sub_types,
                    sv == detail_sub_types(d@),
                    detail_lines_view(out@) == detail_head(d@) + sv.subrange(0, i as int),
                decreases subs@.len() - i,
            {
                let ghost prev = out@;
                out.push(DetailLine::SubType(subs[i].clone()));
                proof {
                    assert(strings_view(subs@)[i as int] == subs@[i as int]@);
                    assert(sv[i as int] == DetailLineView::SubType(subs@[i as int]@));
                    assert(detail_lines_view(out@) =~= detail_lines_view(prev).push(sv[i as int]));
                    assert(sv.subrange(0, i + 1) =~= sv.subrange(0, i as int).push(sv[i as int]));
                }
                i = i + 1;
            }
            assert(sv.subrange(0, sv.len() as int) =~= sv);
        }
        let ghost upto = detail_lines_view(out@);

        match &d.txt {
            None => {
                assert(detail_lines_view(out@) =~= upto + detail_txt(d@));
            },
            Some(t) => {
                let ghost tv = detail_txt(d@);
                out.push(DetailLine::Label(Field::Txt));
                assert(detail_lines_view(out@) =~= upto + tv.subrange(0, 1));
                let mut i: usize = 0;
                while i < t.len()
                    invariant
                        i <= t@.len(),
                        d.txt == Some(*t),
                        tv == detail_txt(d@),
                        tv.len() == t@.len() + 1,
                        detail_lines_view(out@) == upto + tv.subrange(0, i + 1),
                    decreases t@.len() - i,
                {
                    let ghost prev = out@;
                    let (k, v) = &t[i];
                    out.push(DetailLine::TxtPair(k.clone(), v.clone()));
                    proof {
                        assert(tv[i + 1] == DetailLineView::TxtPair(t@[i as int].0@, t@[i as int].1@));
                        assert(detail_lines_view(out@) =~= detail_lines_view(prev).push(tv[i + 1]));
                        assert(tv.subrange(0, i + 2) =~= tv.subrange(0, i + 1).push(tv[i + 1]));
                    }
                    i = i + 1;
                }
                assert(tv.subrange(0, tv.len() as int) =~= tv);
            },
        }
        assert(detail_lines_view(out@) =~= detail_lines(d@));
        out
    }
}

} // verus!
