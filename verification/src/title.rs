//! Headings of the content panes: a template with `{name}`, `{count}` and `{total}` in it.
use vstd::prelude::*;
use crate::pagination::PaginationInfo;
use crate::text::{append, contains_char, decimal, decimal_string, owned, replace, replace_all};

verus! {

/// The heading a template renders to: unchanged when it has no `{` at all, otherwise with
/// `{name}`, then `{count}`, then `{total}` substituted in turn.
pub open spec fn spec_render_title(template: Seq<char>, name: Seq<char>, count: nat, total: nat) -> Seq<char> {
    if !template.contains('{') {
        template
    } else {
        replace_all(
            replace_all(replace_all(template, "{name}"@, name), "{count}"@, decimal(count)),
            "{total}"@,
            decimal(total),
        )
    }
}

/// Fill a heading template with the view's name, the number of items loaded and the total the
/// API reported.
pub fn render_title(template: &str, name: &str, count: usize, total: usize) -> (r: String)
    ensures
        r@ == spec_render_title(template@, name@, count as nat, total as nat),
{
    if !contains_char(template, '{') {
        return owned(template);
    }
    proof {
        reveal_strlit("{name}");
        reveal_strlit("{count}");
        reveal_strlit("{total}");
    }
    let with_name = replace(template, "{name}", name);
    let count_text = decimal_string(count as u64);
    let with_count = replace(with_name.as_str(), "{count}", count_text.as_str());
    let total_text = decimal_string(total as u64);
    replace(with_count.as_str(), "{total}", total_text.as_str())
}

/// A heading between the two title arrows of the active symbol set, a space on either side.
pub open spec fn spec_bordered_title(open: Seq<char>, template: Seq<char>, name: Seq<char>, count: nat, total: nat, close: Seq<char>) -> Seq<char> {
    open + seq![' '] + spec_render_title(template, name, count, total) + seq![' '] + close
}

/// Render a heading and set it between `open` and `close`, the title arrows of the symbol set
/// in use; a terminal that cannot draw arrows gets whatever that set has in their place.
pub fn bordered_title(template: &str, name: &str, count: usize, total: usize, open: &str, close: &str) -> (r: String)
    ensures
        r@ == spec_bordered_title(open@, template@, name@, count as nat, total as nat, close@),
{
    let mut out = owned(open);
    append(&mut out, " ");
    let title = render_title(template, name, count, total);
    append(&mut out, title.as_str());
    append(&mut out, " ");
    append(&mut out, close);
    proof { reveal_strlit(" "); }
    assert(out@ =~= spec_bordered_title(open@, template@, name@, count as nat, total as nat, close@));
    out
}

/// The count a content heading shows as its total: the API's, when the content is paged, else
/// the number of items loaded.
pub open spec fn heading_total(pagination: Option<PaginationInfo>, count: usize) -> usize {
    match pagination {
        Some(p) => p.total as usize,
        None => count,
    }
}

/// The template a content heading is rendered from: the navigation item's own, else one that
/// shows `count/total` when the content is paged and its total known, and only the count when
/// it is not.
pub open spec fn heading_template(item_template: Option<Seq<char>>, pagination: Option<PaginationInfo>) -> Seq<char> {
    match item_template {
        Some(t) => t,
        None => if pagination matches Some(p) && p.total > 0 {
            "\u{25BA} {name} ({count}/{total}) \u{25C4}"@
        } else {
            "\u{25BA} {name} ({count}) \u{25C4}"@
        },
    }
}

/// The heading of the main content pane: the focused navigation item's name (`SONGS` when no
/// item is selected), the number of items loaded and, for paged content, the total the API
/// reported.
pub fn content_heading(
    item_name: Option<&str>,
    item_template: Option<&str>,
    pagination: Option<&PaginationInfo>,
    count: usize,
) -> (r: String)
    ensures
        r@ == spec_render_title(
            heading_template(
                match item_template { Some(t) => Some(t@), None => None },
                match pagination { Some(p) => Some(*p), None => None },
            ),
            match item_name { Some(n) => n@, None => "SONGS"@ },
            count as nat,
            heading_total(match pagination { Some(p) => Some(*p), None => None }, count) as nat,
        ),
{
    let name = match item_name {
        Some(n) => n,
        None => "SONGS",
    };
    let total: usize = match pagination {
        Some(p) => p.total as usize,
        None => count,
    };
    let show_total = match pagination {
        Some(p) => p.total > 0,
        None => false,
    };
    let template = match item_template {
        Some(t) => t,
        None => if show_total {
            "\u{25BA} {name} ({count}/{total}) \u{25C4}"
        } else {
            "\u{25BA} {name} ({count}) \u{25C4}"
        },
    };
    render_title(template, name, count, total)
}

} // verus!
