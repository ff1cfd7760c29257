//! Format-agnostic Markdown text builders: headers, block quotes, inline
//! code, links, lists, named anchors and table rows. Each builder's contract
//! gives the exact text it produces.

use crate::text::{lower_of, lowercase};
use vstd::prelude::*;

verus! {

/// Markdown header: `level` leading '#' characters, a space, the text, and a
/// blank line.
pub open spec fn header_view(level: nat, text: Seq<char>) -> Seq<char> {
    Seq::new(level, |_i: int| '#') + " "@ + text + "\n\n"@
}

/// Markdown block-quote description: the text behind `> `, and a blank line.
pub open spec fn description_view(text: Seq<char>) -> Seq<char> {
    "> "@ + text + "\n\n"@
}

/// Inline code: the text in backticks; empty text stays empty rather than
/// becoming an empty pair of backticks.
pub open spec fn inline_code_view(text: Seq<char>) -> Seq<char> {
    if text.len() == 0 {
        Seq::empty()
    } else {
        "`"@ + text + "`"@
    }
}

/// Bold label and value on one line, followed by a blank line.
pub open spec fn label_view(label: Seq<char>, value: Seq<char>) -> Seq<char> {
    "**"@ + label + ":** "@ + value + "\n\n"@
}

/// Markdown link; empty link text renders as nothing at all.
pub open spec fn link_view(text: Seq<char>, destination: Seq<char>) -> Seq<char> {
    if text.len() == 0 {
        Seq::empty()
    } else {
        "["@ + text + "]("@ + destination + ")"@
    }
}

/// The item lines of an unordered list, one `* item` line each.
pub open spec fn list_items_view(items: Seq<Seq<char>>) -> Seq<char>
    decreases items.len(),
{
    if items.len() == 0 {
        Seq::empty()
    } else {
        list_items_view(items.drop_last()) + "* "@ + items.last() + "\n"@
    }
}

/// An unordered list: the item lines and a trailing blank line; an empty list
/// is just the blank line.
pub open spec fn list_view(items: Seq<Seq<char>>) -> Seq<char> {
    list_items_view(items) + "\n"@
}

/// An HTML anchor whose name is the lowercased text, directly followed by the
/// text in its original case.
pub open spec fn named_anchor_view(text: Seq<char>) -> Seq<char> {
    "<a name=\""@ + lower_of(text) + "\"></a>"@ + text
}

/// An italic notice line.
pub open spec fn notice_view(text: Seq<char>) -> Seq<char> {
    "_"@ + text + "_\n"@
}

/// The cells joined by ` | `.
pub open spec fn row_cells_view(cells: Seq<Seq<char>>) -> Seq<char>
    decreases cells.len(),
{
    if cells.len() == 0 {
        Seq::empty()
    } else if cells.len() == 1 {
        cells[0]
    } else {
        row_cells_view(cells.drop_last()) + " | "@ + cells.last()
    }
}

/// A pipe-delimited table row on one line.
pub open spec fn table_row_view(cells: Seq<Seq<char>>) -> Seq<char> {
    "| "@ + row_cells_view(cells) + " |\n"@
}

/// A separator row of `num` `---` cells.
pub open spec fn table_separator_view(num: nat) -> Seq<char> {
    table_row_view(Seq::new(num, |_i: int| "---"@))
}

/// Returns a Markdown header of the given level.
pub fn to_header(level: u8, text: &str) -> (r: String)
    ensures
        r@ == header_view(level as nat, text@),
{
    let mut s = String::new();
    let mut i: u8 = 0;
    while i < level
        invariant
            i <= level,
            s@ =~= Seq::new(i as nat, |_j: int| '#'),
        decreases level - i,
    {
        proof {
            reveal_strlit("#");
        }
        s.append("#");
        i = i + 1;
    }
    s.append(" ");
    s.append(text);
    s.append("\n\n");
    proof {
        assert(s@ =~= header_view(level as nat, text@));
    }
    s
}

/// Returns a Markdown block-quote description.
pub fn to_description(text: &str) -> (r: String)
    ensures
        r@ == description_view(text@),
{
    let mut s = String::from_str("> ");
    s.append(text);
    s.append("\n\n");
    s
}

/// Returns the text as Markdown inline code; empty text renders as empty.
pub fn to_inline_code(text: &str) -> (r: String)
    ensures
        r@ == inline_code_view(text@),
{
    if text.is_empty() {
        String::new()
    } else {
        let mut s = String::from_str("`");
        s.append(text);
        s.append("`");
        s
    }
}

/// Returns a bold Markdown label with its value.
pub fn to_label(label: &str, value: &str) -> (r: String)
    ensures
        r@ == label_view(label@, value@),
{
    let mut s = String::from_str("**");
    s.append(label);
    s.append(":** ");
    s.append(value);
    s.append("\n\n");
    proof {
        assert(s@ =~= label_view(label@, value@));
    }
    s
}

/// Returns a Markdown link; empty link text renders as empty.
pub fn to_link(text: &str, destination: &str) -> (r: String)
    ensures
        r@ == link_view(text@, destination@),
{
    if text.is_empty() {
        String::new()
    } else {
        let mut s = String::from_str("[");
        s.append(text);
        s.append("](");
        s.append(destination);
        s.append(")");
        proof {
            assert(s@ =~= link_view(text@, destination@));
        }
        s
    }
}

/// Returns a Markdown unordered list of the items.
pub fn to_list(items: &[String]) -> (r: String)
    ensures
        r@ == list_view(items.deep_view()),
{
    let mut s = String::new();
    let n = items.len();
    let mut i: usize = 0;
    while i < n
        invariant
            i <= n,
            n == items@.len(),
            s@ == list_items_view(items.deep_view().take(i as int)),
        decreases n - i,
    {
        s.append("* ");
        s.append(items[i].as_str());
        s.append("\n");
        proof {
            let dv = items.deep_view();
            assert(dv.take(i + 1).drop_last() =~= dv.take(i as int));
            assert(dv.take(i + 1).last() == dv[i as int]);
            assert(s@ =~= list_items_view(dv.take(i + 1)));
        }
        i = i + 1;
    }
    s.append("\n");
    proof {
        assert(items.deep_view().take(n as int) =~= items.deep_view());
    }
    s
}

/// Returns an HTML named anchor for intra-document links: the anchor name is
/// the lowercased text, the display text keeps its case.
pub fn to_named_anchor(text: &str) -> (r: String)
    ensures
        r@ == named_anchor_view(text@),
{
    let mut s = String::from_str("<a name=\"");
    let lower = lowercase(text);
    s.append(lower.as_str());
    s.append("\"></a>");
    s.append(text);
    proof {
        assert(s@ =~= named_anchor_view(text@));
    }
    s
}

/// Returns an italic Markdown notice.
pub fn to_notice(notice: &str) -> (r: String)
    ensures
        r@ == notice_view(notice@),
{
    let mut s = String::from_str("_");
    s.append(notice);
    s.append("_\n");
    s
}

/// Returns a Markdown table row of the cells.
pub fn to_table_row(items: &[String]) -> (r: String)
    ensures
        r@ == table_row_view(items.deep_view()),
{
    let mut s = String::from_str("| ");
    let n = items.len();
    let mut i: usize = 0;
    while i < n
        invariant
            i <= n,
            n == items@.len(),
            s@ == "| "@ + row_cells_view(items.deep_view().take(i as int)),
        decreases n - i,
    {
        if i > 0 {
            s.append(" | ");
        }
        s.append(items[i].as_str());
        proof {
            let dv = items.deep_view();
            assert(dv.take(i + 1).drop_last() =~= dv.take(i as int));
            assert(dv.take(i + 1).last() == dv[i as int]);
            if i == 0 {
                assert(dv.take(1) =~= seq![dv[0]]);
            }
            assert(s@ =~= "| "@ + row_cells_view(dv.take(i + 1)));
        }
        i = i + 1;
    }
    s.append(" |\n");
    proof {
        assert(items.deep_view().take(n as int) =~= items.deep_view());
        assert(s@ =~= table_row_view(items.deep_view()));
    }
    s
}

/// Returns a table separator row with the given number of columns.
pub fn to_table_separator(num: usize) -> (r: String)
    ensures
        r@ == table_separator_view(num as nat),
{
    let mut cells: Vec<String> = Vec::new();
    let mut i: usize = 0;
    while i < num
        invariant
            i <= num,
            cells@.len() == i,
            forall|k: int| 0 <= k < i ==> cells@[k]@ == "---"@,
        decreases num - i,
    {
        cells.push(String::from_str("---"));
        i = i + 1;
    }
    let r = to_table_row(cells.as_slice());
    proof {
        assert(cells.deep_view() =~= Seq::new(num as nat, |_j: int| "---"@));
    }
    r
}

} // verus!
