//! The rendering engine: turns the schema model into Markdown documents with
//! cross-document links, stable sort order and per-kind table layouts. Each
//! renderer's contract gives the exact text it produces, over the
//! specification views of the markdown primitives.

use crate::markdown::{
    description_view, header_view, inline_code_view, label_view, link_view, list_view,
    named_anchor_view, notice_view, table_row_view, table_separator_view, to_description,
    to_header, to_inline_code, to_label, to_link, to_list, to_named_anchor, to_notice,
    to_table_row, to_table_separator,
};
use crate::schema::{
    actual_kind_view, actual_name_view, decorated_name_view, get_type_view, root_name_view,
    types_of_kind_view, Enum, Field, Input, Schema, SchemaError, Type, TypeRef, TYPE_LEVELS,
};
use crate::sort::{
    lemma_sort_strings, seq_of_refs, sort_by_name, sort_by_name_view, sort_name_seqs,
    sort_refs_by_name, str_views,
};
use crate::text::{lower_of, lowercase, push_char, str_eq, trim_str, trim_view};
use std::collections::HashMap;
use vstd::prelude::*;

verus! {

broadcast use {
    crate::sort::lemma_seq_of_refs_index,
    crate::sort::lemma_seq_of_refs_len,
    crate::sort::lemma_str_views_index,
    crate::sort::lemma_str_views_len,
};

/// The sequence without any newline characters.
pub open spec fn strip_newlines(s: Seq<char>) -> Seq<char> {
    s.filter(|c: char| c != '\n')
}

/// What a free-text table cell renders as: absent text is empty; present
/// text is trimmed of surrounding whitespace and stripped of embedded
/// newlines, so a table row always occupies one output line.
pub open spec fn safe_string_view(o: Option<Seq<char>>) -> Seq<char> {
    match o {
        Option::Some(s) => strip_newlines(trim_view(s)),
        Option::None => Seq::empty(),
    }
}

/// Returns the text of an optional string made safe for a one-line table
/// cell: trimmed, with embedded newlines removed; absent text is empty.
pub fn to_safe_string(opt_s: &Option<String>) -> (r: String)
    ensures
        r@ == safe_string_view(opt_s.deep_view()),
        forall|k: int| 0 <= k < r@.len() ==> r@[k] != '\n',
{
    match opt_s {
        Option::Some(s) => {
            let t = trim_str(s.as_str());
            let n = t.unicode_len();
            let mut out = String::new();
            let mut i: usize = 0;
            while i < n
                invariant
                    i <= n,
                    n == t@.len(),
                    out@ == strip_newlines(t@.take(i as int)),
                    forall|k: int| 0 <= k < out@.len() ==> out@[k] != '\n',
                decreases n - i,
            {
                let c = t.get_char(i);
                if c != '\n' {
                    push_char(&mut out, c);
                }
                proof {
                    reveal(Seq::filter);
                    assert(t@.take(i + 1).drop_last() =~= t@.take(i as int));
                    assert(t@.take(i + 1).last() == t@[i as int]);
                }
                i = i + 1;
            }
            proof {
                assert(t@.take(n as int) =~= t@);
            }
            out
        },
        Option::None => String::new(),
    }
}

/// The document name a GraphQL kind links into; unknown kinds map to an
/// empty document name, giving a degenerate but harmless link.
pub open spec fn doc_for_kind(kind: Seq<char>) -> Seq<char> {
    if kind == "INPUT_OBJECT"@ {
        "inputs"@
    } else if kind == "OBJECT"@ {
        "objects"@
    } else if kind == "ENUM"@ {
        "enums"@
    } else if kind == "INTERFACE"@ {
        "interfaces"@
    } else if kind == "UNION"@ {
        "unions"@
    } else if kind == "SCALAR"@ {
        "scalars"@
    } else {
        Seq::empty()
    }
}

fn kind_to_doc(kind: &str) -> (r: &'static str)
    ensures
        r@ == doc_for_kind(kind@),
{
    proof {
        reveal_strlit("");
        assert(""@ =~= Seq::<char>::empty());
    }
    if str_eq(kind, "INPUT_OBJECT") {
        "inputs"
    } else if str_eq(kind, "OBJECT") {
        "objects"
    } else if str_eq(kind, "ENUM") {
        "enums"
    } else if str_eq(kind, "INTERFACE") {
        "interfaces"
    } else if str_eq(kind, "UNION") {
        "unions"
    } else if str_eq(kind, "SCALAR") {
        "scalars"
    } else {
        ""
    }
}

/// The relative link a type reference resolves to: the document of its
/// resolved kind and an anchor of its lowercased resolved name.
pub open spec fn link_for_type_ref_view(t: TypeRef) -> Seq<char> {
    doc_for_kind(actual_kind_view(t, TYPE_LEVELS as nat)) + ".md#"@ + lower_of(
        actual_name_view(t, TYPE_LEVELS as nat),
    )
}

fn get_link_for_type_ref(type_ref: &TypeRef) -> (r: String)
    ensures
        r@ == link_for_type_ref_view(*type_ref),
{
    let kind = type_ref.get_actual_kind();
    let link_to = kind_to_doc(kind.as_str());
    let name = type_ref.get_actual_name();
    let lower = lowercase(name.as_str());
    let mut s = String::from_str(link_to);
    s.append(".md#");
    s.append(lower.as_str());
    proof {
        assert(s@ =~= link_for_type_ref_view(*type_ref));
    }
    s
}

/// The table cell for an optional type reference: the decorated name in
/// inline code, linked to the resolved document; absent references render
/// as an empty cell.
pub open spec fn type_cell_view(t: Option<TypeRef>) -> Seq<char> {
    match t {
        Option::Some(tr) => link_view(
            inline_code_view(decorated_name_view(tr, TYPE_LEVELS as nat)),
            link_for_type_ref_view(tr),
        ),
        Option::None => Seq::empty(),
    }
}

fn type_cell(t: &Option<TypeRef>) -> (r: String)
    ensures
        r@ == type_cell_view(*t),
{
    match t {
        Option::Some(tr) => {
            let code = to_inline_code(tr.get_decorated_name().as_str());
            let link = get_link_for_type_ref(tr);
            to_link(code.as_str(), link.as_str())
        },
        Option::None => {
            let code = to_inline_code(String::new().as_str());
            to_link(code.as_str(), String::new().as_str())
        },
    }
}

/// An entity that can describe itself as one row of display cells.
pub trait TableItem {
    /// The cells of the entity's table row.
    spec fn row_view(&self) -> Seq<Seq<char>>;

    /// Returns the entity's table row cells.
    fn table_fields(&self) -> (r: Vec<String>)
        ensures
            r.deep_view() == self.row_view(),
    ;
}

impl TableItem for Field {
    open spec fn row_view(&self) -> Seq<Seq<char>> {
        seq![
            inline_code_view(safe_string_view(self.name.deep_view())),
            type_cell_view(self.field_type),
            safe_string_view(self.description.deep_view()),
        ]
    }

    fn table_fields(&self) -> (r: Vec<String>) {
        let mut v: Vec<String> = Vec::new();
        v.push(to_inline_code(to_safe_string(&self.name).as_str()));
        v.push(type_cell(&self.field_type));
        v.push(to_safe_string(&self.description));
        proof {
            assert(v.deep_view() =~= self.row_view());
        }
        v
    }
}

impl TableItem for Input {
    open spec fn row_view(&self) -> Seq<Seq<char>> {
        seq![
            inline_code_view(safe_string_view(self.name.deep_view())),
            type_cell_view(self.input_type),
            safe_string_view(self.description.deep_view()),
            inline_code_view(safe_string_view(self.default_value.deep_view())),
        ]
    }

    fn table_fields(&self) -> (r: Vec<String>) {
        let mut v: Vec<String> = Vec::new();
        v.push(to_inline_code(to_safe_string(&self.name).as_str()));
        v.push(type_cell(&self.input_type));
        v.push(to_safe_string(&self.description));
        v.push(to_inline_code(to_safe_string(&self.default_value).as_str()));
        proof {
            assert(v.deep_view() =~= self.row_view());
        }
        v
    }
}

impl TableItem for Enum {
    open spec fn row_view(&self) -> Seq<Seq<char>> {
        seq![
            inline_code_view(safe_string_view(self.name.deep_view())),
            safe_string_view(self.description.deep_view()),
            if self.is_deprecated == Option::Some(true) {
                safe_string_view(self.deprecation_reason.deep_view())
            } else {
                "no"@
            },
        ]
    }

    fn table_fields(&self) -> (r: Vec<String>) {
        let is_deprecated = match &self.is_deprecated {
            Option::Some(b) => *b,
            Option::None => false,
        };
        let deprecation = if is_deprecated {
            to_safe_string(&self.deprecation_reason)
        } else {
            String::from_str("no")
        };
        let mut v: Vec<String> = Vec::new();
        v.push(to_inline_code(to_safe_string(&self.name).as_str()));
        v.push(to_safe_string(&self.description));
        v.push(deprecation);
        proof {
            assert(v.deep_view() =~= self.row_view());
        }
        v
    }
}

/// The row lines of a table body, one per item in order.
pub open spec fn table_rows_view<T: TableItem>(items: Seq<T>) -> Seq<char>
    decreases items.len(),
{
    if items.len() == 0 {
        Seq::empty()
    } else {
        table_rows_view(items.drop_last()) + table_row_view(items.last().row_view())
    }
}

/// A whole table: header row, separator sized to the header, one row per
/// item, and a trailing blank line.
pub open spec fn table_view<T: TableItem>(headers: Seq<Seq<char>>, items: Seq<T>) -> Seq<char> {
    table_row_view(headers) + table_separator_view(headers.len()) + table_rows_view(items)
        + "\n"@
}

fn to_markdown_table<T: TableItem>(headers: Vec<String>, items: &Vec<&T>) -> (r: String)
    ensures
        r@ == table_view(headers.deep_view(), seq_of_refs(items@)),
{
    let mut s = to_table_row(headers.as_slice());
    s.append(to_table_separator(headers.len()).as_str());
    let n = items.len();
    let mut i: usize = 0;
    while i < n
        invariant
            i <= n,
            n == items@.len(),
            s@ == table_row_view(headers.deep_view()) + table_separator_view(
                headers.deep_view().len(),
            ) + table_rows_view(seq_of_refs(items@).take(i as int)),
        decreases n - i,
    {
        let row = items[i].table_fields();
        s.append(to_table_row(row.as_slice()).as_str());
        proof {
            let vals = seq_of_refs(items@);
            assert(vals.take(i + 1).drop_last() =~= vals.take(i as int));
            assert(vals.take(i + 1).last() == vals[i as int]);
            assert(row.deep_view() == vals[i as int].row_view());
            assert(s@ =~= table_row_view(headers.deep_view()) + table_separator_view(
                headers.deep_view().len(),
            ) + table_rows_view(vals.take(i + 1)));
        }
        i = i + 1;
    }
    s.append("\n");
    proof {
        assert(seq_of_refs(items@).take(n as int) =~= seq_of_refs(items@));
        assert(s@ =~= table_view(headers.deep_view(), seq_of_refs(items@)));
    }
    s
}

fn collect_refs<T>(v: &Vec<T>) -> (r: Vec<&T>)
    ensures
        seq_of_refs(r@) == v@,
{
    let mut out: Vec<&T> = Vec::new();
    let n = v.len();
    let mut i: usize = 0;
    while i < n
        invariant
            i <= n,
            n == v@.len(),
            seq_of_refs(out@) =~= v@.take(i as int),
        decreases n - i,
    {
        let item = &v[i];
        out.push(item);
        proof {
            assert(seq_of_refs(out@) =~= v@.take(i + 1));
        }
        i = i + 1;
    }
    proof {
        assert(v@.take(n as int) =~= v@);
    }
    out
}

/// The headers of a fields table.
pub open spec fn field_table_headers() -> Seq<Seq<char>> {
    seq!["Name"@, "Type"@, "Description"@]
}

/// The headers of an inputs or arguments table.
pub open spec fn input_table_headers() -> Seq<Seq<char>> {
    seq!["Name"@, "Type"@, "Description"@, "Default Value"@]
}

/// The headers of an enum values table.
pub open spec fn enum_table_headers() -> Seq<Seq<char>> {
    seq!["Name"@, "Description"@, "Deprecated"@]
}

fn field_headers() -> (r: Vec<String>)
    ensures
        r.deep_view() == field_table_headers(),
{
    let mut v: Vec<String> = Vec::new();
    v.push(String::from_str("Name"));
    v.push(String::from_str("Type"));
    v.push(String::from_str("Description"));
    proof {
        assert(v.deep_view() =~= field_table_headers());
    }
    v
}

fn input_headers() -> (r: Vec<String>)
    ensures
        r.deep_view() == input_table_headers(),
{
    let mut v: Vec<String> = Vec::new();
    v.push(String::from_str("Name"));
    v.push(String::from_str("Type"));
    v.push(String::from_str("Description"));
    v.push(String::from_str("Default Value"));
    proof {
        assert(v.deep_view() =~= input_table_headers());
    }
    v
}

fn enum_headers() -> (r: Vec<String>)
    ensures
        r.deep_view() == enum_table_headers(),
{
    let mut v: Vec<String> = Vec::new();
    v.push(String::from_str("Name"));
    v.push(String::from_str("Description"));
    v.push(String::from_str("Deprecated"));
    proof {
        assert(v.deep_view() =~= enum_table_headers());
    }
    v
}

/// The list entries for a type's possible types: each name in inline code,
/// unnamed entries as empty text, in the original order.
pub open spec fn possible_names_view(ps: Seq<TypeRef>) -> Seq<Seq<char>> {
    Seq::new(
        ps.len(),
        |i: int|
            match ps[i].name {
                Option::Some(n) => inline_code_view(n@),
                Option::None => Seq::empty(),
            },
    )
}

/// A list of type references has as many list entries as references.
pub broadcast proof fn lemma_possible_names_len(ps: Seq<TypeRef>)
    ensures
        (#[trigger] possible_names_view(ps)).len() == ps.len(),
{
}

/// The list entry at an index renders the name of the reference there.
pub broadcast proof fn lemma_possible_names_index(ps: Seq<TypeRef>, i: int)
    requires
        0 <= i < ps.len(),
    ensures
        #[trigger] possible_names_view(ps)[i] == (match ps[i].name {
            Option::Some(n) => inline_code_view(n@),
            Option::None => Seq::empty(),
        }),
{
}

fn possible_names(ps: &Vec<TypeRef>) -> (r: Vec<String>)
    ensures
        str_views(r@) == possible_names_view(ps@),
{
    broadcast use {lemma_possible_names_index, lemma_possible_names_len};

    let mut names: Vec<String> = Vec::new();
    let n = ps.len();
    let mut i: usize = 0;
    proof {
        assert(str_views(names@) =~= possible_names_view(ps@.take(0)));
    }
    while i < n
        invariant
            i <= n,
            n == ps@.len(),
            str_views(names@) == possible_names_view(ps@.take(i as int)),
        decreases n - i,
    {
        let entry = match &ps[i].name {
            Option::Some(name) => to_inline_code(name.as_str()),
            Option::None => String::new(),
        };
        let ghost prev: Seq<String> = names@;
        let ghost pushed: String = entry;
        names.push(entry);
        proof {
            assert forall|k: int| 0 <= k < i + 1 implies str_views(names@)[k]
                == possible_names_view(ps@.take(i + 1))[k] by {
                assert(ps@.take(i + 1)[k] == ps@[k]);
                if k < i {
                    assert(str_views(prev)[k] == possible_names_view(ps@.take(i as int))[k]);
                    assert(prev.push(pushed)[k] == prev[k]);
                } else {
                    assert(prev.push(pushed)[k] == pushed);
                }
            }
            assert(str_views(names@) =~= possible_names_view(ps@.take(i + 1)));
        }
        i = i + 1;
    }
    proof {
        assert(ps@.take(n as int) =~= ps@);
    }
    names
}

/// One field section of a root operation type: a level-2 header for the
/// name, a deprecation notice, the description, the linked type label, and
/// an arguments table when the field has arguments.
pub open spec fn field_md_view(f: Field) -> Seq<char> {
    (match f.name {
        Option::Some(n) => header_view(2, n@),
        Option::None => Seq::empty(),
    }) + (if f.is_deprecated == Option::Some(true) {
        notice_view("Deprecated"@)
    } else {
        Seq::empty()
    }) + (match f.description {
        Option::Some(d) => description_view(d@),
        Option::None => Seq::empty(),
    }) + (match f.field_type {
        Option::Some(t) => label_view("Type"@, type_cell_view(Option::Some(t))),
        Option::None => Seq::empty(),
    }) + (match f.args {
        Option::Some(args) => if args@.len() > 0 {
            header_view(3, "Arguments"@) + table_view(
                input_table_headers(),
                sort_by_name_view(args@),
            )
        } else {
            Seq::empty()
        },
        Option::None => Seq::empty(),
    })
}

fn field_to_markdown(field: &Field) -> (r: String)
    ensures
        r@ == field_md_view(*field),
{
    let mut s = String::new();
    match &field.name {
        Option::Some(name) => s.append(to_header(2, name.as_str()).as_str()),
        Option::None => {},
    }
    match &field.is_deprecated {
        Option::Some(deprecated) => {
            if *deprecated {
                s.append(to_notice("Deprecated").as_str());
            }
        },
        Option::None => {},
    }
    match &field.description {
        Option::Some(description) => s.append(to_description(description.as_str()).as_str()),
        Option::None => {},
    }
    match &field.field_type {
        Option::Some(_) => {
            let cell = type_cell(&field.field_type);
            s.append(to_label("Type", cell.as_str()).as_str());
        },
        Option::None => {},
    }
    match &field.args {
        Option::Some(args) => {
            if args.len() > 0 {
                s.append(to_header(3, "Arguments").as_str());
                let mut sorted = collect_refs(args);
                sort_refs_by_name(&mut sorted);
                s.append(to_markdown_table(input_headers(), &sorted).as_str());
            }
        },
        Option::None => {},
    }
    proof {
        assert(s@ =~= field_md_view(*field));
    }
    s
}

/// The anchored level-2 header of a type section, when the type is named.
pub open spec fn type_anchor_section(t: Type) -> Seq<char> {
    match t.name {
        Option::Some(n) => header_view(2, named_anchor_view(n@)),
        Option::None => Seq::empty(),
    }
}

/// The block-quote description of a type section, when present.
pub open spec fn type_desc_section(t: Type) -> Seq<char> {
    match t.description {
        Option::Some(d) => description_view(d@),
        Option::None => Seq::empty(),
    }
}

/// The fields table of a type section, sorted by field name.
pub open spec fn type_fields_section(t: Type) -> Seq<char> {
    match t.fields {
        Option::Some(fs) => header_view(3, "Fields"@) + table_view(
            field_table_headers(),
            sort_by_name_view(fs@),
        ),
        Option::None => Seq::empty(),
    }
}

/// The inputs table of a type section, sorted by input name.
pub open spec fn type_inputs_section(t: Type) -> Seq<char> {
    match t.inputs {
        Option::Some(ins) => header_view(3, "Inputs"@) + table_view(
            input_table_headers(),
            sort_by_name_view(ins@),
        ),
        Option::None => Seq::empty(),
    }
}

/// The enum values table of a type section, sorted by value name.
pub open spec fn type_enums_section(t: Type) -> Seq<char> {
    match t.enums {
        Option::Some(es) => header_view(3, "Values"@) + table_view(
            enum_table_headers(),
            sort_by_name_view(es@),
        ),
        Option::None => Seq::empty(),
    }
}

/// The possible-types list of a type section: the names in inline code,
/// sorted, without links.
pub open spec fn type_possible_section(t: Type) -> Seq<char> {
    match t.possible_types {
        Option::Some(ps) => header_view(3, "Implemented by"@) + list_view(
            sort_name_seqs(possible_names_view(ps@)),
        ),
        Option::None => Seq::empty(),
    }
}

/// One type section of a kind document: a level-2 anchored header, the
/// description, and the tables and lists for whichever member lists the
/// type carries, each sorted by name.
pub open spec fn type_md_view(t: Type) -> Seq<char> {
    type_anchor_section(t) + type_desc_section(t) + type_fields_section(t) + type_inputs_section(
        t,
    ) + type_enums_section(t) + type_possible_section(t)
}

fn render_type_anchor(typ: &Type) -> (r: String)
    ensures
        r@ == type_anchor_section(*typ),
{
    match &typ.name {
        Option::Some(name) => {
            let anchor = to_named_anchor(name.as_str());
            to_header(2, anchor.as_str())
        },
        Option::None => String::new(),
    }
}

fn render_type_desc(typ: &Type) -> (r: String)
    ensures
        r@ == type_desc_section(*typ),
{
    match &typ.description {
        Option::Some(description) => to_description(description.as_str()),
        Option::None => String::new(),
    }
}

fn render_type_fields(typ: &Type) -> (r: String)
    ensures
        r@ == type_fields_section(*typ),
{
    match &typ.fields {
        Option::Some(fields) => {
            let mut s = to_header(3, "Fields");
            let mut sorted = collect_refs(fields);
            sort_refs_by_name(&mut sorted);
            s.append(to_markdown_table(field_headers(), &sorted).as_str());
            s
        },
        Option::None => String::new(),
    }
}

fn render_type_inputs(typ: &Type) -> (r: String)
    ensures
        r@ == type_inputs_section(*typ),
{
    match &typ.inputs {
        Option::Some(inputs) => {
            let mut s = to_header(3, "Inputs");
            let mut sorted = collect_refs(inputs);
            sort_refs_by_name(&mut sorted);
            s.append(to_markdown_table(input_headers(), &sorted).as_str());
            s
        },
        Option::None => String::new(),
    }
}

fn render_type_enums(typ: &Type) -> (r: String)
    ensures
        r@ == type_enums_section(*typ),
{
    match &typ.enums {
        Option::Some(enums) => {
            let mut s = to_header(3, "Values");
            let mut sorted = collect_refs(enums);
            sort_refs_by_name(&mut sorted);
            s.append(to_markdown_table(enum_headers(), &sorted).as_str());
            s
        },
        Option::None => String::new(),
    }
}

fn render_type_possible(typ: &Type) -> (r: String)
    ensures
        r@ == type_possible_section(*typ),
{
    match &typ.possible_types {
        Option::Some(possible_types) => {
            let mut s = to_header(3, "Implemented by");
            let mut names = possible_names(possible_types);
            let ghost unsorted: Seq<String> = names@;
            sort_by_name(&mut names);
            proof {
                lemma_sort_strings(unsorted);
            }
            let list = to_list(names.as_slice());
            proof {
                assert(names.deep_view() =~= str_views(names@));
            }
            s.append(list.as_str());
            s
        },
        Option::None => String::new(),
    }
}

/// Returns the Markdown section for one type of a kind document.
pub fn type_to_markdown(typ: &Type) -> (r: String)
    ensures
        r@ == type_md_view(*typ),
{
    let mut s = render_type_anchor(typ);
    s.append(render_type_desc(typ).as_str());
    s.append(render_type_fields(typ).as_str());
    s.append(render_type_inputs(typ).as_str());
    s.append(render_type_enums(typ).as_str());
    s.append(render_type_possible(typ).as_str());
    proof {
        assert(s@ =~= type_md_view(*typ));
    }
    s
}

/// The sections of a kind document, one per type in order.
pub open spec fn types_sections_view(ts: Seq<Type>) -> Seq<char>
    decreases ts.len(),
{
    if ts.len() == 0 {
        Seq::empty()
    } else {
        types_sections_view(ts.drop_last()) + type_md_view(ts.last())
    }
}

/// A whole kind document: empty when the schema has no type of the kind,
/// otherwise a level-1 title header and one section per type, the types
/// sorted by name.
pub open spec fn types_doc_view(s: Schema, title: Seq<char>, kind: Seq<char>) -> Seq<char> {
    let ts = types_of_kind_view(s, kind);
    if ts.len() == 0 {
        Seq::empty()
    } else {
        header_view(1, title) + types_sections_view(sort_by_name_view(ts))
    }
}

/// Returns the Markdown document for all types of the given kind, under the
/// given human title.
pub fn types_to_markdown(schema: &Schema, title: &str, kind: &str) -> (r: String)
    ensures
        r@ == types_doc_view(*schema, title@, kind@),
{
    let mut types = schema.get_types_of_kind(kind);
    if types.is_empty() {
        return String::new();
    }
    sort_refs_by_name(&mut types);
    let ghost sorted: Seq<Type> = seq_of_refs(types@);
    let mut s = to_header(1, title);
    let n = types.len();
    let mut i: usize = 0;
    proof {
        assert(sorted.take(0) =~= Seq::<Type>::empty());
    }
    while i < n
        invariant
            i <= n,
            n == types@.len(),
            sorted == seq_of_refs(types@),
            s@ == header_view(1, title@) + types_sections_view(sorted.take(i as int)),
        decreases n - i,
    {
        let section = type_to_markdown(types[i]);
        s.append(section.as_str());
        proof {
            assert(sorted.take(i + 1).drop_last() =~= sorted.take(i as int));
            assert(sorted.take(i + 1).last() == sorted[i as int]);
            assert(s@ =~= header_view(1, title@) + types_sections_view(sorted.take(i + 1)));
        }
        i = i + 1;
    }
    proof {
        assert(sorted.take(n as int) =~= sorted);
    }
    s
}

/// The field sections of a root operation type, in declaration order:
/// operation fields are hand-ordered by the API author, so they are not
/// sorted.
pub open spec fn fields_sections_view(fs: Seq<Field>) -> Seq<char>
    decreases fs.len(),
{
    if fs.len() == 0 {
        Seq::empty()
    } else {
        fields_sections_view(fs.drop_last()) + field_md_view(fs.last())
    }
}

/// What a root operation category renders as: empty when the root type name
/// is absent or no type of that name exists; otherwise a level-1 header,
/// the description, and one section per field in declaration order.
pub open spec fn schema_type_view(s: Schema, root_name: Option<String>) -> Seq<char> {
    match root_name {
        Option::Some(name) => match get_type_view(s, name@) {
            Option::Some(t) => (match t.name {
                Option::Some(n) => header_view(1, n@),
                Option::None => Seq::empty(),
            }) + (match t.description {
                Option::Some(d) => description_view(d@),
                Option::None => Seq::empty(),
            }) + (match t.fields {
                Option::Some(fs) => fields_sections_view(fs@),
                Option::None => Seq::empty(),
            }),
            Option::None => Seq::empty(),
        },
        Option::None => Seq::empty(),
    }
}

/// Returns the Markdown document for one root operation type, resolved by
/// its name in the schema's type list.
pub fn schema_type_to_markdown(schema: &Schema, root_name: Option<String>) -> (r: String)
    ensures
        r@ == schema_type_view(*schema, root_name),
{
    match &root_name {
        Option::Some(name) => match schema.get_type(name.as_str()) {
            Option::Some(typ) => {
                let mut s = String::new();
                match &typ.name {
                    Option::Some(n) => s.append(to_header(1, n.as_str()).as_str()),
                    Option::None => {},
                }
                match &typ.description {
                    Option::Some(description) => s.append(
                        to_description(description.as_str()).as_str(),
                    ),
                    Option::None => {},
                }
                match &typ.fields {
                    Option::Some(fields) => {
                        let n_fields = fields.len();
                        let mut i: usize = 0;
                        proof {
                            assert(fields@.take(0) =~= Seq::<Field>::empty());
                        }
                        while i < n_fields
                            invariant
                                i <= n_fields,
                                n_fields == fields@.len(),
                                typ.fields == Option::Some(*fields),
                                typ.name is Some || typ.name is None,
                                s@ == (match typ.name {
                                    Option::Some(n) => header_view(1, n@),
                                    Option::None => Seq::empty(),
                                }) + (match typ.description {
                                    Option::Some(d) => description_view(d@),
                                    Option::None => Seq::empty(),
                                }) + fields_sections_view(fields@.take(i as int)),
                            decreases n_fields - i,
                        {
                            let section = field_to_markdown(&fields[i]);
                            s.append(section.as_str());
                            proof {
                                assert(fields@.take(i + 1).drop_last() =~= fields@.take(i as int));
                                assert(fields@.take(i + 1).last() == fields@[i as int]);
                                assert(s@ =~= (match typ.name {
                                    Option::Some(n) => header_view(1, n@),
                                    Option::None => Seq::<char>::empty(),
                                }) + (match typ.description {
                                    Option::Some(d) => description_view(d@),
                                    Option::None => Seq::<char>::empty(),
                                }) + fields_sections_view(fields@.take(i + 1)));
                            }
                            i = i + 1;
                        }
                        proof {
                            assert(fields@.take(n_fields as int) =~= fields@);
                        }
                    },
                    Option::None => {},
                }
                proof {
                    assert(s@ =~= schema_type_view(*schema, root_name));
                }
                s
            },
            Option::None => String::new(),
        },
        Option::None => String::new(),
    }
}


/// The renderer for a whole schema; `multiple` records whether the caller
/// intends to write one file per document.
#[derive(Debug)]
pub struct Markdown {
    multiple: bool,
}

/// The nine documents a schema renders to, each by name: the three root
/// operation categories and the six kind catalogues. A document with no
/// content is the empty string.
pub fn render_documents(schema: &Schema) -> (r: Vec<(String, String)>)
    ensures
        r@.len() == 9,
        r@[0].0@ == "queries"@,
        r@[0].1@ == schema_type_view(*schema, root_name_view(schema.query_type)),
        r@[1].0@ == "mutations"@,
        r@[1].1@ == schema_type_view(*schema, root_name_view(schema.mutation_type)),
        r@[2].0@ == "subscriptions"@,
        r@[2].1@ == schema_type_view(*schema, root_name_view(schema.subscription_type)),
        r@[3].0@ == "inputs"@,
        r@[3].1@ == types_doc_view(*schema, "Inputs"@, "INPUT_OBJECT"@),
        r@[4].0@ == "objects"@,
        r@[4].1@ == types_doc_view(*schema, "Objects"@, "OBJECT"@),
        r@[5].0@ == "enums"@,
        r@[5].1@ == types_doc_view(*schema, "Enums"@, "ENUM"@),
        r@[6].0@ == "interfaces"@,
        r@[6].1@ == types_doc_view(*schema, "Interfaces"@, "INTERFACE"@),
        r@[7].0@ == "unions"@,
        r@[7].1@ == types_doc_view(*schema, "Unions"@, "UNION"@),
        r@[8].0@ == "scalars"@,
        r@[8].1@ == types_doc_view(*schema, "Scalars"@, "SCALAR"@),
{
    let mut r: Vec<(String, String)> = Vec::new();
    r.push(
        (
            String::from_str("queries"),
            schema_type_to_markdown(schema, schema.get_query_name()),
        ),
    );
    r.push(
        (
            String::from_str("mutations"),
            schema_type_to_markdown(schema, schema.get_mutation_name()),
        ),
    );
    r.push(
        (
            String::from_str("subscriptions"),
            schema_type_to_markdown(schema, schema.get_subscription_name()),
        ),
    );
    r.push((String::from_str("inputs"), types_to_markdown(schema, "Inputs", "INPUT_OBJECT")));
    r.push((String::from_str("objects"), types_to_markdown(schema, "Objects", "OBJECT")));
    r.push((String::from_str("enums"), types_to_markdown(schema, "Enums", "ENUM")));
    r.push(
        (String::from_str("interfaces"), types_to_markdown(schema, "Interfaces", "INTERFACE")),
    );
    r.push((String::from_str("unions"), types_to_markdown(schema, "Unions", "UNION")));
    r.push((String::from_str("scalars"), types_to_markdown(schema, "Scalars", "SCALAR")));
    r
}

impl Markdown {
    /// A new renderer.
    pub fn new(multiple: bool) -> (r: Result<Markdown, SchemaError>)
        ensures
            r is Ok,
    {
        Ok(Markdown { multiple })
    }

    /// Renders the schema into a map of document name to Markdown text, with
    /// the nine fixed document names. The per-document contents are those of
    /// `render_documents`, whose contract gives them exactly; the map itself
    /// carries no specification because its keys are strings.
    pub fn generate_from_schema(&self, schema: &Schema) -> HashMap<String, String> {
        let mut docs = render_documents(schema);
        let mut contents: HashMap<String, String> = HashMap::new();
        while docs.len() > 0
            decreases docs@.len(),
        {
            let pair = docs.pop().unwrap();
            contents.insert(pair.0, pair.1);
        }
        contents
    }
}

/// An empty schema renders to nine empty documents: with no root types and
/// no type list, every category and every kind catalogue is the empty
/// string.
pub proof fn lemma_render_empty_schema(s: Schema)
    requires
        s.query_type is None,
        s.mutation_type is None,
        s.subscription_type is None,
        s.types is None,
        s.directives is None,
    ensures
        schema_type_view(s, root_name_view(s.query_type)) == Seq::<char>::empty(),
        schema_type_view(s, root_name_view(s.mutation_type)) == Seq::<char>::empty(),
        schema_type_view(s, root_name_view(s.subscription_type)) == Seq::<char>::empty(),
        forall|title: Seq<char>, kind: Seq<char>|
            types_doc_view(s, title, kind) == Seq::<char>::empty(),
{
    assert forall|title: Seq<char>, kind: Seq<char>|
        types_doc_view(s, title, kind) == Seq::<char>::empty() by {
        assert(types_of_kind_view(s, kind).len() == 0);
    }
}

} // verus!
