//! Fitting a text into a column of a table.

use ellipse::Ellipse;
use vstd::prelude::*;
use vstd::string::StringExecFns;
use vstd::utf8::encode_utf8;

verus! {

/// What [`Ellipse::truncate_ellipse`] makes of `text` for a limit of `len`:
/// `text` itself where it has no more than `len` grapheme clusters, else its
/// first `len` grapheme clusters with three dots behind them, and the empty
/// text for a limit of 0.
pub uninterp spec fn truncated(text: Seq<char>, len: usize) -> Seq<char>;

/// Calls [`Ellipse::truncate_ellipse`] on `text` with the limit `len`.
/// Nothing is proved of the call: the contract gives its result a name,
/// which says that the result depends on `text` and `len` alone, and claims
/// nothing else of it. Where one grapheme cluster ends and the next begins
/// is left to the outside crate.
#[verifier::external_body]
fn truncate_ellipse(text: &str, len: usize) -> (short: String)
    ensures
        short@ == truncated(text@, len),
{
    text.truncate_ellipse(len).into_owned()
}

/// `count` times the character `fill`.
pub open spec fn repeated(fill: char, count: nat) -> Seq<char> {
    Seq::new(count, |i: int| fill)
}

/// `text` as it stands in a column that is `width` wide, its length taken
/// in bytes of UTF-8:
/// - a shorter text is followed by spaces up to `width`;
/// - a text of that length stands as it is;
/// - a longer text is cut down to `width - 3` grapheme clusters and three
///   dots; in a column of three or less, only the dots that fit are left.
pub open spec fn column_string(text: Seq<char>, width: usize) -> Seq<char> {
    let len = encode_utf8(text).len();
    if len > width {
        if width <= 3 {
            repeated('.', width as nat)
        } else {
            truncated(text, (width - 3) as usize)
        }
    } else {
        text + repeated(' ', (width - len) as nat)
    }
}

/// Fits `s` into a column that is `width` wide.
pub fn get_column_string(s: &str, width: usize) -> (column: String)
    ensures
        column@ == column_string(s@, width),
{
    let len = s.as_bytes().len();
    if len > width {
        if width == 0 {
            let column = "".to_string();
            proof {
                reveal_strlit("");
            }
            return column;
        } else if width == 1 {
            let column = ".".to_string();
            proof {
                reveal_strlit(".");
            }
            return column;
        } else if width == 2 {
            let column = "..".to_string();
            proof {
                reveal_strlit("..");
            }
            return column;
        } else if width == 3 {
            let column = "...".to_string();
            proof {
                reveal_strlit("...");
            }
            return column;
        }
        return truncate_ellipse(s, width - 3);
    } else if len < width {
        let missing = width - len;
        let mut spaces = String::new();
        let mut i: usize = 0;
        proof {
            reveal_strlit(" ");
        }
        while i < missing
            invariant
                i <= missing,
                spaces@ == repeated(' ', i as nat),
                " "@ == seq![' '],
            decreases missing - i,
        {
            spaces.append(" ");
            i += 1;
        }
        let mut column = s.to_string();
        column.append(spaces.as_str());
        return column;
    }
    s.to_string()
}

} // verus!
