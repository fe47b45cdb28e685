//! Layout of delimited lists: choosing a tactic and rendering the items.
use vstd::prelude::*;

verus! {

/// How a list asks to be laid out.
#[derive(Clone, Copy, Debug, PartialEq, Eq, Structural)]
pub enum ListTactic {
    /// One item per row.
    Vertical,
    /// All items on one row.
    Horizontal,
    /// Try Horizontal layout, if that fails then vertical.
    HorizontalVertical,
    /// Pack as many items as possible per row over (possibly) many rows.
    Mixed,
}

/// Whether the last item of a list is followed by a separator.
#[derive(Clone, Copy, Debug, PartialEq, Eq, Structural)]
pub enum SeparatorTactic {
    Always,
    Never,
    Vertical,
}

/// The layout finally chosen for one list.
#[derive(Clone, Copy, Debug, PartialEq, Eq, Structural)]
pub enum DefinitiveListTactic {
    Vertical,
    Horizontal,
    Mixed,
}

/// Whether a list laid out with `tactic` ends with a separator under policy `sep`.
pub open spec fn spec_needs_trailing_separator(sep: SeparatorTactic, tactic: DefinitiveListTactic) -> bool {
    match sep {
        SeparatorTactic::Always => true,
        SeparatorTactic::Never => false,
        SeparatorTactic::Vertical => tactic == DefinitiveListTactic::Vertical,
    }
}

pub fn needs_trailing_separator(sep: SeparatorTactic, tactic: DefinitiveListTactic) -> (r: bool)
    ensures
        r == spec_needs_trailing_separator(sep, tactic),
{
    match sep {
        SeparatorTactic::Always => true,
        SeparatorTactic::Never => false,
        SeparatorTactic::Vertical => match tactic {
            DefinitiveListTactic::Vertical => true,
            _ => false,
        },
    }
}


/// One element of a delimited list: its rendered text and the comments that
/// the source attached before and after it.
pub struct ListItem {
    pub item: String,
    pub pre_comment: Option<String>,
    pub post_comment: Option<String>,
}

pub open spec fn has_comment(it: ListItem) -> bool {
    it.pre_comment is Some || it.post_comment is Some
}

pub open spec fn is_multiline(it: ListItem) -> bool {
    it.item@.contains('\n')
}

pub open spec fn spaces(n: nat) -> Seq<char> {
    Seq::new(n, |_i: int| ' ')
}

/// Whether the item at `i` is followed by a separator.
pub open spec fn has_separator(items: Seq<ListItem>, i: int, trailing: bool) -> bool {
    i + 1 < items.len() || trailing
}

/// The text of item `i`: its leading comment (followed by `gap`), the item,
/// its separator where it has one, and its trailing comment.
pub open spec fn piece(items: Seq<ListItem>, i: int, trailing: bool, gap: Seq<char>) -> Seq<char> {
    let it = items[i];
    let head = match it.pre_comment {
        Some(c) => c@ + gap,
        None => Seq::<char>::empty(),
    };
    let sep = if has_separator(items, i, trailing) {
        seq![',']
    } else {
        Seq::<char>::empty()
    };
    let tail = match it.post_comment {
        Some(c) => seq![' '] + c@,
        None => Seq::<char>::empty(),
    };
    head + it.item@ + sep + tail
}

/// The first `n` pieces, with `between` standing between two of them.
pub open spec fn joined(
    items: Seq<ListItem>,
    n: nat,
    trailing: bool,
    gap: Seq<char>,
    between: Seq<char>,
) -> Seq<char>
    decreases n,
{
    if n == 0 {
        Seq::empty()
    } else if n == 1 {
        piece(items, 0, trailing, gap)
    } else {
        joined(items, (n - 1) as nat, trailing, gap, between) + between + piece(
            items,
            n - 1,
            trailing,
            gap,
        )
    }
}

pub open spec fn newline_indent(indent: nat) -> Seq<char> {
    seq!['\n'] + spaces(indent)
}

/// All items on one line.
pub open spec fn horizontal_text(items: Seq<ListItem>, trailing: bool) -> Seq<char> {
    joined(items, items.len(), trailing, seq![' '], seq![' '])
}

/// One item per line; every line after the first starts at column `indent`.
pub open spec fn vertical_text(items: Seq<ListItem>, trailing: bool, indent: nat) -> Seq<char> {
    joined(items, items.len(), trailing, newline_indent(indent), newline_indent(indent))
}

pub open spec fn sat_add(a: int, b: int) -> int {
    if a + b > usize::MAX {
        usize::MAX as int
    } else {
        a + b
    }
}

/// The first `n` items packed greedily into lines of at most `width` columns,
/// with the column at which the text ends.
pub open spec fn mixed_layout(
    items: Seq<ListItem>,
    n: nat,
    trailing: bool,
    indent: nat,
    width: nat,
) -> (Seq<char>, int)
    decreases n,
{
    if n == 0 {
        (Seq::empty(), indent as int)
    } else if n == 1 {
        let p = piece(items, 0, trailing, seq![' ']);
        (p, sat_add(indent as int, p.len() as int))
    } else {
        let prev = mixed_layout(items, (n - 1) as nat, trailing, indent, width);
        let p = piece(items, n - 1, trailing, seq![' ']);
        if prev.1 + 1 + p.len() <= width {
            (prev.0 + seq![' '] + p, prev.1 + 1 + p.len())
        } else {
            (prev.0 + newline_indent(indent) + p, sat_add(indent as int, p.len() as int))
        }
    }
}

pub open spec fn mixed_text(items: Seq<ListItem>, trailing: bool, indent: nat, width: nat) -> Seq<char> {
    mixed_layout(items, items.len(), trailing, indent, width).0
}

/// The text of a list laid out with `tactic`.
pub open spec fn list_text(
    items: Seq<ListItem>,
    tactic: DefinitiveListTactic,
    sep: SeparatorTactic,
    indent: nat,
    width: nat,
) -> Seq<char> {
    let trailing = spec_needs_trailing_separator(sep, tactic);
    match tactic {
        DefinitiveListTactic::Horizontal => horizontal_text(items, trailing),
        DefinitiveListTactic::Vertical => vertical_text(items, trailing, indent),
        DefinitiveListTactic::Mixed => mixed_text(items, trailing, indent, width),
    }
}

/// Sum of the widths of the first `n` items.
pub open spec fn items_width(items: Seq<ListItem>, n: nat) -> int
    decreases n,
{
    if n == 0 {
        0
    } else {
        items_width(items, (n - 1) as nat) + items[n - 1].item@.len()
    }
}

/// Width of the items written on one line, separated by `", "`; a trailing
/// separator, where the policy adds one, is not counted.
pub open spec fn horizontal_width(items: Seq<ListItem>) -> int {
    if items.len() == 0 {
        0
    } else {
        items_width(items, items.len()) + 2 * (items.len() - 1)
    }
}

/// The layout chosen for a list: comments force one item per line; a list
/// that may go on one line does so when it fits in `width` and no item spans
/// several lines.
pub open spec fn spec_definitive_tactic(
    items: Seq<ListItem>,
    tactic: ListTactic,
    width: nat,
) -> DefinitiveListTactic {
    if exists|i: int| 0 <= i < items.len() && has_comment(#[trigger] items[i]) {
        DefinitiveListTactic::Vertical
    } else {
        match tactic {
            ListTactic::Horizontal => DefinitiveListTactic::Horizontal,
            ListTactic::Vertical => DefinitiveListTactic::Vertical,
            _ => if horizontal_width(items) <= width && !(exists|i: int|
                0 <= i < items.len() && is_multiline(#[trigger] items[i])) {
                DefinitiveListTactic::Horizontal
            } else if tactic == ListTactic::Mixed {
                DefinitiveListTactic::Mixed
            } else {
                DefinitiveListTactic::Vertical
            },
        }
    }
}

fn spaces_string(n: usize) -> (r: String)
    ensures
        r@ == spaces(n as nat),
{
    let mut s = String::new();
    let mut i: usize = 0;
    proof {
        reveal_strlit(" ");
    }
    while i < n
        invariant
            i <= n,
            s@ == spaces(i as nat),
        decreases n - i,
    {
        proof {
            reveal_strlit(" ");
        }
        s.append(" ");
        i += 1;
        assert(s@ =~= spaces(i as nat));
    }
    assert(s@ =~= spaces(n as nat));
    s
}

fn contains_newline(s: &str) -> (r: bool)
    ensures
        r == s@.contains('\n'),
{
    let n = s.unicode_len();
    let mut i: usize = 0;
    while i < n
        invariant
            i <= n,
            n == s@.len(),
            forall|j: int| 0 <= j < i ==> s@[j] != '\n',
        decreases n - i,
    {
        if s.get_char(i) == '\n' {
            return true;
        }
        i += 1;
    }
    false
}

fn render_piece(items: &Vec<ListItem>, i: usize, trailing: bool, gap: &str) -> (r: String)
    requires
        i < items@.len(),
    ensures
        r@ == piece(items@, i as int, trailing, gap@),
{
    let it = &items[i];
    let mut out = String::new();
    match &it.pre_comment {
        Some(c) => {
            out.append(c.as_str());
            out.append(gap);
        },
        None => {},
    }
    out.append(it.item.as_str());
    let n = items.len();
    if i + 1 < n || trailing {
        out.append(",");
    }
    match &it.post_comment {
        Some(c) => {
            out.append(" ");
            out.append(c.as_str());
        },
        None => {},
    }
    proof {
        reveal_strlit(",");
        reveal_strlit(" ");
    }
    assert(out@ =~= piece(items@, i as int, trailing, gap@));
    out
}

fn write_joined(items: &Vec<ListItem>, trailing: bool, gap: &str, between: &str) -> (r: String)
    ensures
        r@ == joined(items@, items@.len(), trailing, gap@, between@),
{
    let mut out = String::new();
    let mut i: usize = 0;
    while i < items.len()
        invariant
            i <= items@.len(),
            out@ == joined(items@, i as nat, trailing, gap@, between@),
        decreases items@.len() - i,
    {
        if i > 0 {
            out.append(between);
        }
        let p = render_piece(items, i, trailing, gap);
        out.append(p.as_str());
        i += 1;
    }
    out
}

fn write_mixed(items: &Vec<ListItem>, trailing: bool, indent: usize, width: usize) -> (r: String)
    ensures
        r@ == mixed_text(items@, trailing, indent as nat, width as nat),
{
    let mut out = String::new();
    let mut line: usize = indent;
    let mut i: usize = 0;
    let pad = spaces_string(indent);
    proof {
        reveal_strlit(" ");
        reveal_strlit("\n");
    }
    while i < items.len()
        invariant
            i <= items@.len(),
            pad@ == spaces(indent as nat),
            (out@, line as int) == mixed_layout(items@, i as nat, trailing, indent as nat, width as nat),
        decreases items@.len() - i,
    {
        proof {
            reveal_strlit(" ");
            reveal_strlit("\n");
        }
        let p = render_piece(items, i, trailing, " ");
        assert(" "@ =~= seq![' ']);
        let plen = p.as_str().unicode_len();
        if i > 0 && plen < width && line <= width - 1 - plen {
            out.append(" ");
            out.append(p.as_str());
            line = line + 1 + plen;
        } else {
            if i > 0 {
                out.append("\n");
                out.append(pad.as_str());
            }
            out.append(p.as_str());
            line = if indent > usize::MAX - plen {
                usize::MAX
            } else {
                indent + plen
            };
        }
        i += 1;
        assert(out@ =~= mixed_layout(items@, i as nat, trailing, indent as nat, width as nat).0);
    }
    out
}

/// Renders `items` with the layout `tactic`, ending with a separator as `sep` asks.
pub fn write_list(
    items: &Vec<ListItem>,
    tactic: DefinitiveListTactic,
    sep: SeparatorTactic,
    indent: usize,
    width: usize,
) -> (r: String)
    ensures
        r@ == list_text(items@, tactic, sep, indent as nat, width as nat),
{
    let trailing = needs_trailing_separator(sep, tactic);
    proof {
        reveal_strlit(" ");
    }
    match tactic {
        DefinitiveListTactic::Horizontal => {
            assert(" "@ =~= seq![' ']);
            write_joined(items, trailing, " ", " ")
        },
        DefinitiveListTactic::Vertical => {
            let mut nl = String::from_str("\n");
            let pad = spaces_string(indent);
            nl.append(pad.as_str());
            proof {
                reveal_strlit("\n");
            }
            assert(nl@ =~= newline_indent(indent as nat));
            write_joined(items, trailing, nl.as_str(), nl.as_str())
        },
        DefinitiveListTactic::Mixed => write_mixed(items, trailing, indent, width),
    }
}


fn sat_add_usize(a: usize, b: usize) -> (r: usize)
    ensures
        r as int == sat_add(a as int, b as int),
{
    if a > usize::MAX - b {
        usize::MAX
    } else {
        a + b
    }
}

/// Chooses the layout of `items` for the requested `tactic` and a budget of
/// `width` columns.
pub fn definitive_tactic(items: &Vec<ListItem>, tactic: ListTactic, width: usize) -> (r:
    DefinitiveListTactic)
    ensures
        r == spec_definitive_tactic(items@, tactic, width as nat),
{
    let n = items.len();
    let mut i: usize = 0;
    while i < n
        invariant
            i <= n,
            n == items@.len(),
            forall|j: int| 0 <= j < i ==> !has_comment(#[trigger] items@[j]),
        decreases n - i,
    {
        let commented = match (&items[i].pre_comment, &items[i].post_comment) {
            (None, None) => false,
            _ => true,
        };
        if commented {
            return DefinitiveListTactic::Vertical;
        }
        i += 1;
    }
    match tactic {
        ListTactic::Horizontal => {
            return DefinitiveListTactic::Horizontal;
        },
        ListTactic::Vertical => {
            return DefinitiveListTactic::Vertical;
        },
        _ => {},
    }
    // `room` is what is left of `width` while the items seen so far fit in it
    let mut room: usize = width;
    let mut too_wide = false;
    let mut multiline = false;
    i = 0;
    while i < n
        invariant
            i <= n,
            n == items@.len(),
            forall|j: int| 0 <= j < n ==> !has_comment(#[trigger] items@[j]),
            !too_wide ==> room + items_width(items@, i as nat) == width,
            too_wide ==> items_width(items@, i as nat) > width,
            multiline == exists|j: int| 0 <= j < i && is_multiline(#[trigger] items@[j]),
        decreases n - i,
    {
        let w = items[i].item.as_str().unicode_len();
        if !too_wide {
            if w > room {
                too_wide = true;
            } else {
                room = room - w;
            }
        }
        if contains_newline(items[i].item.as_str()) {
            multiline = true;
        }
        i += 1;
        assert(multiline == exists|j: int| 0 <= j < i && is_multiline(#[trigger] items@[j])) by {
            if multiline {
                if !is_multiline(items@[i - 1]) {
                    let j = choose|j: int| 0 <= j < i - 1 && is_multiline(#[trigger] items@[j]);
                    assert(0 <= j < i && is_multiline(items@[j]));
                }
            }
        }
    }
    if n > 0 && !too_wide {
        if n - 1 > room / 2 {
            too_wide = true;
        }
    }
    assert(too_wide <==> horizontal_width(items@) > width);
    assert(!exists|j: int| 0 <= j < items@.len() && has_comment(#[trigger] items@[j]));
    if !too_wide && !multiline {
        DefinitiveListTactic::Horizontal
    } else if tactic == ListTactic::Mixed {
        DefinitiveListTactic::Mixed
    } else {
        DefinitiveListTactic::Vertical
    }
}

/// Lays out `items`: chooses the layout for `tactic` and `width`, then renders it.
pub fn format_list(
    items: &Vec<ListItem>,
    tactic: ListTactic,
    sep: SeparatorTactic,
    indent: usize,
    width: usize,
) -> (r: String)
    ensures
        r@ == list_text(
            items@,
            spec_definitive_tactic(items@, tactic, width as nat),
            sep,
            indent as nat,
            width as nat,
        ),
{
    let chosen = definitive_tactic(items, tactic, width);
    write_list(items, chosen, sep, indent, width)
}

pub open spec fn ends_with(text: Seq<char>, suffix: Seq<char>) -> bool {
    text.len() >= suffix.len() && text.subrange(text.len() - suffix.len(), text.len() as int)
        == suffix
}

/// A list that does not ask to stay on one line, and whose one-line form is
/// wider than the budget, is not laid out on one line; with two items or more
/// and a layout of one item per line its text breaks the line.
pub proof fn lemma_width_respected(
    items: Seq<ListItem>,
    tactic: ListTactic,
    sep: SeparatorTactic,
    indent: nat,
    width: nat,
)
    requires
        tactic != ListTactic::Horizontal,
        horizontal_width(items) > width,
    ensures
        spec_definitive_tactic(items, tactic, width) != DefinitiveListTactic::Horizontal,
        items.len() >= 2 && tactic != ListTactic::Mixed ==> list_text(
            items,
            spec_definitive_tactic(items, tactic, width),
            sep,
            indent,
            width,
        ).contains('\n'),
{
    if items.len() >= 2 && tactic != ListTactic::Mixed {
        let trailing = spec_needs_trailing_separator(sep, DefinitiveListTactic::Vertical);
        let nl = newline_indent(indent);
        let prev = joined(items, (items.len() - 1) as nat, trailing, nl, nl);
        let text = vertical_text(items, trailing, indent);
        assert(text == prev + nl + piece(items, items.len() - 1, trailing, nl));
        assert(text[prev.len() as int] == '\n');
    }
}

/// Under the policy that puts a separator after the last item only in a
/// vertical layout, a list on one line never ends with a separator, and a list
/// with one item per line always does.
pub proof fn lemma_trailing_separator_vertical_only(
    items: Seq<ListItem>,
    indent: nat,
    width: nat,
)
    requires
        items.len() > 0,
        items.last().post_comment is None,
    ensures
        list_text(items, DefinitiveListTactic::Horizontal, SeparatorTactic::Vertical, indent, width)
            == horizontal_text(items, false),
        ends_with(
            list_text(items, DefinitiveListTactic::Horizontal, SeparatorTactic::Vertical, indent, width),
            items.last().item@,
        ),
        list_text(items, DefinitiveListTactic::Vertical, SeparatorTactic::Vertical, indent, width)
            == vertical_text(items, true, indent),
        ends_with(
            list_text(items, DefinitiveListTactic::Vertical, SeparatorTactic::Vertical, indent, width),
            items.last().item@ + seq![','],
        ),
{
    let n = items.len();
    let sp = seq![' '];
    let nl = newline_indent(indent);
    let h = horizontal_text(items, false);
    let ph = piece(items, n - 1, false, sp);
    let v = vertical_text(items, true, indent);
    let pv = piece(items, n - 1, true, nl);
    let last = items.last().item@;
    if n == 1 {
        assert(h == ph);
        assert(v == pv);
    } else {
        assert(h == joined(items, (n - 1) as nat, false, sp, sp) + sp + ph);
        assert(v == joined(items, (n - 1) as nat, true, nl, nl) + nl + pv);
    }
    let hh = match items.last().pre_comment {
        Some(c) => c@ + sp,
        None => Seq::<char>::empty(),
    };
    let hv = match items.last().pre_comment {
        Some(c) => c@ + nl,
        None => Seq::<char>::empty(),
    };
    assert(ph =~= hh + last);
    assert(pv =~= hv + (last + seq![',']));
    assert(h.subrange(h.len() - last.len(), h.len() as int) =~= last);
    assert(v.subrange(v.len() - (last + seq![',']).len(), v.len() as int) =~= last + seq![',']);
}

} // verus!
