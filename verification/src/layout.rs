use vstd::prelude::*;

use crate::state::State;
use crate::text::string_push;

verus! {

/// How the search screen is laid out.
#[derive(Clone, Copy, Debug, PartialEq, Eq)]
pub enum Style {
    /// Compact on a terminal lower than 14 rows, or of unknown size.
    Auto,
    /// Title, help and a framed query box.
    Full,
    /// One header line and a one-line prompt.
    Compact,
}

/// Whether the screen is drawn compact, given the terminal's height if it
/// could be read.
pub open spec fn compact_layout(style: Style, terminal_height: Option<u16>) -> bool {
    match style {
        Style::Auto => match terminal_height {
            Some(h) => h < 14,
            None => true,
        },
        Style::Compact => true,
        Style::Full => false,
    }
}

/// Whether the screen is drawn compact, given the terminal's height if it
/// could be read.
pub fn use_compact(style: Style, terminal_height: Option<u16>) -> (r: bool)
    ensures
        r == compact_layout(style, terminal_height),
{
    match style {
        Style::Auto => match terminal_height {
            Some(h) => h < 14,
            None => true,
        },
        Style::Compact => true,
        Style::Full => false,
    }
}

/// The number of terminal columns that `unicode_width` gives for the text.
pub uninterp spec fn display_width(s: Seq<char>) -> usize;

/// The columns that the text takes on a terminal, from
/// `unicode_width::UnicodeWidthStr::width`. The number is named, not stated.
#[verifier::external_body]
fn text_width(s: &str) -> (w: usize)
    ensures
        w == display_width(s@),
{
    unicode_width::UnicodeWidthStr::width(s)
}

/// The columns before the query in the input area: the framed box's left
/// border, or the compact prompt's `] `.
pub open spec fn cursor_gap(compact: bool) -> int {
    if compact {
        2
    } else {
        1
    }
}

/// The cursor's column and row fit in `u16`.
pub open spec fn cursor_fits(area_x: u16, area_y: u16, width: usize, compact: bool) -> bool {
    &&& area_x + (width as u16) + cursor_gap(compact) <= u16::MAX
    &&& area_y + 1 <= u16::MAX
}

/// Where the cursor goes: past a query `width` columns wide in the input area
/// at (`area_x`, `area_y`), one row down (from the framed box's border to the
/// query's line; the compact layout moves down alike). The width is taken
/// modulo 65536.
pub fn cursor_position(area_x: u16, area_y: u16, width: usize, compact: bool) -> (r: (u16, u16))
    requires
        cursor_fits(area_x, area_y, width, compact),
    ensures
        r.0 == area_x + (width as u16) + cursor_gap(compact),
        r.1 == area_y + 1,
{
    let gap: u16 = if compact {
        2
    } else {
        1
    };
    (area_x + width as u16 + gap, area_y + 1)
}

/// The compact prompt: `] ` and the query.
pub open spec fn prompt_text(input: Seq<char>) -> Seq<char> {
    seq![']', ' '] + input
}

impl State {
    /// Where the cursor goes after the query in the input area at
    /// (`area_x`, `area_y`); `None` when that column or row is past `u16`.
    pub fn input_cursor(&self, area_x: u16, area_y: u16, compact: bool) -> (r: Option<(u16, u16)>)
        ensures
            r is Some <==> cursor_fits(area_x, area_y, display_width(self.input@), compact),
            r matches Some(p) ==> p.0 == area_x + (display_width(self.input@) as u16)
                + cursor_gap(compact) && p.1 == area_y + 1,
    {
        let width = text_width(self.input.as_str());
        let gap: u16 = if compact {
            2
        } else {
            1
        };
        if area_y < u16::MAX && (width as u16) <= u16::MAX - area_x && gap <= u16::MAX - area_x
            - width as u16 {
            Some(cursor_position(area_x, area_y, width, compact))
        } else {
            None
        }
    }

    /// The compact prompt line: `] ` and the query.
    pub fn compact_prompt(&self) -> (r: String)
        ensures
            r@ == prompt_text(self.input@),
    {
        let mut out = String::new();
        string_push(&mut out, ']');
        string_push(&mut out, ' ');
        out.append(self.input.as_str());
        assert(out@ =~= prompt_text(self.input@));
        out
    }
}

} // verus!
