//! Rendering a board into a single static page: a heading block with the
//! config fields and a timestamp, then one outer list entry per column
//! group, each holding the group's values in order, the column name first.
//! Text is escaped so that it reads in the page exactly as it stood in the
//! input files.

use vstd::prelude::*;
use vstd::string::StrSliceExecFns;
use vstd::string::StringExecFns;
use crate::board::{Board, BoardView};

verus! {

/// How one character reads once escaped for markup.
pub open spec fn escaped_char(c: char) -> Seq<char> {
    if c == '&' {
        "&amp;"@
    } else if c == '<' {
        "&lt;"@
    } else if c == '>' {
        "&gt;"@
    } else if c == '"' {
        "&quot;"@
    } else if c == '\'' {
        "&#39;"@
    } else {
        seq![c]
    }
}

/// The text `s` with every character escaped for markup.
pub open spec fn escaped(s: Seq<char>) -> Seq<char>
    decreases s.len(),
{
    if s.len() == 0 {
        Seq::empty()
    } else {
        escaped(s.drop_last()) + escaped_char(s.last())
    }
}

/// One inner list entry per value, each holding the value escaped.
pub open spec fn items_markup(values: Seq<Seq<char>>) -> Seq<char>
    decreases values.len(),
{
    if values.len() == 0 {
        Seq::empty()
    } else {
        items_markup(values.drop_last()) + "<li>"@ + escaped(values.last()) + "</li>"@
    }
}

/// One outer list entry per group, each holding the group's own inner list.
pub open spec fn groups_markup(groups: Seq<Seq<Seq<char>>>) -> Seq<char>
    decreases groups.len(),
{
    if groups.len() == 0 {
        Seq::empty()
    } else {
        groups_markup(groups.drop_last()) + "<li><ul>"@ + items_markup(groups.last())
            + "</ul></li>"@
    }
}

/// Everything of the page before the grouped lists.
pub open spec fn doc_prefix(board: BoardView, ts: Seq<char>) -> Seq<char> {
    "<!DOCTYPE html><html><head><title>"@ + escaped(board.title)
        + "</title><link rel=\"stylesheet\" href=\"reset.css\"/><link rel=\"stylesheet\" href=\"kanban.css\"/></head><body><header><h1>"@
        + escaped(board.title) + "</h1><h2>created by "@ + escaped(board.author) + "</h2><p>"@
        + escaped(board.description) + "</p><time>Last edited on "@ + escaped(ts)
        + "</time></header><ul>"@
}

/// Everything of the page after the grouped lists.
pub open spec fn doc_suffix() -> Seq<char> {
    "</ul><footer><p>Statically generated with Rust</p></footer></body></html>"@
}

/// The whole page for a board, its column groups and a timestamp.
pub open spec fn render_spec(board: BoardView, groups: Seq<Seq<Seq<char>>>, ts: Seq<char>) -> Seq<
    char,
> {
    doc_prefix(board, ts) + groups_markup(groups) + doc_suffix()
}

/// Escape `s` for markup, exactly as [`escaped`] describes.
pub fn escape_html(s: &str) -> (r: String)
    ensures
        r@ == escaped(s@),
{
    let len = s.unicode_len();
    let mut out = String::new();
    let mut i: usize = 0;
    while i < len
        invariant
            i <= len,
            len == s@.len(),
            out@ == escaped(s@.take(i as int)),
        decreases len - i,
    {
        let c = s.get_char(i);
        if c == '&' {
            out.append("&amp;");
        } else if c == '<' {
            out.append("&lt;");
        } else if c == '>' {
            out.append("&gt;");
        } else if c == '"' {
            out.append("&quot;");
        } else if c == '\'' {
            out.append("&#39;");
        } else {
            out.push(c);
        }
        proof {
            assert(s@.take(i + 1).drop_last() =~= s@.take(i as int));
            assert(s@.take(i + 1).last() == s@[i as int]);
            assert(out@ =~= escaped(s@.take(i + 1)));
        }
        i += 1;
    }
    proof {
        assert(s@.take(len as int) =~= s@);
    }
    out
}

/// Render the page for `board`, its column `groups` and the timestamp `ts`:
/// exactly [`render_spec`] of them.
pub fn render_document(board: &Board, groups: &Vec<Vec<String>>, ts: &str) -> (r: String)
    ensures
        r@ == render_spec(board@, groups.deep_view(), ts@),
{
    let mut out = "<!DOCTYPE html><html><head><title>".to_owned();
    let title_text = escape_html(board.title.as_str());
    out.append(title_text.as_str());
    out.append(
        "</title><link rel=\"stylesheet\" href=\"reset.css\"/><link rel=\"stylesheet\" href=\"kanban.css\"/></head><body><header><h1>",
    );
    out.append(title_text.as_str());
    out.append("</h1><h2>created by ");
    let author_text = escape_html(board.author.as_str());
    out.append(author_text.as_str());
    out.append("</h2><p>");
    let description_text = escape_html(board.description.as_str());
    out.append(description_text.as_str());
    out.append("</p><time>Last edited on ");
    let ts_text = escape_html(ts);
    out.append(ts_text.as_str());
    out.append("</time></header><ul>");
    proof {
        assert(out@ =~= doc_prefix(board@, ts@));
    }
    let ghost prefix = out@;
    let mut gi: usize = 0;
    while gi < groups.len()
        invariant
            gi <= groups@.len(),
            prefix == doc_prefix(board@, ts@),
            out@ == prefix + groups_markup(groups.deep_view().take(gi as int)),
        decreases groups@.len() - gi,
    {
        let ghost before_group = out@;
        out.append("<li><ul>");
        let g = &groups[gi];
        let mut ii: usize = 0;
        while ii < g.len()
            invariant
                ii <= g@.len(),
                out@ == before_group + "<li><ul>"@ + items_markup(g.deep_view().take(ii as int)),
            decreases g@.len() - ii,
        {
            out.append("<li>");
            let value_text = escape_html(g[ii].as_str());
            out.append(value_text.as_str());
            out.append("</li>");
            proof {
                let iv = g.deep_view();
                assert(iv.take(ii + 1).drop_last() =~= iv.take(ii as int));
                assert(iv.take(ii + 1).last() == iv[ii as int]);
                assert(items_markup(iv.take(ii + 1)) == items_markup(iv.take(ii as int)) + "<li>"@
                    + escaped(iv[ii as int]) + "</li>"@);
                assert(out@ =~= before_group + "<li><ul>"@ + items_markup(iv.take(ii + 1)));
            }
            ii += 1;
        }
        out.append("</ul></li>");
        proof {
            let gd = groups.deep_view();
            assert(g.deep_view().take(g.deep_view().len() as int) =~= g.deep_view());
            assert(g.deep_view() == gd[gi as int]);
            assert(gd.take(gi + 1).drop_last() =~= gd.take(gi as int));
            assert(gd.take(gi + 1).last() == gd[gi as int]);
            assert(groups_markup(gd.take(gi + 1)) == groups_markup(gd.take(gi as int)) + "<li><ul>"@
                + items_markup(gd[gi as int]) + "</ul></li>"@);
            assert(out@ =~= prefix + groups_markup(gd.take(gi + 1)));
        }
        gi += 1;
    }
    proof {
        let gd = groups.deep_view();
        assert(gd.take(gd.len() as int) =~= gd);
    }
    out.append("</ul><footer><p>Statically generated with Rust</p></footer></body></html>");
    proof {
        assert(out@ =~= render_spec(board@, groups.deep_view(), ts@));
    }
    out
}

} // verus!
