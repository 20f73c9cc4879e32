//! The page count reported by the pdf info tool: the first `Pages:` line
//! of its text output that carries a decimal number. Running the tool is
//! the surrounding program's job; reading its report happens here.

use vstd::prelude::*;
use crate::numbers::dec_val;
use crate::numbers::parse_u64;
use crate::progress::find_first;
use crate::progress::find_first_char;
use crate::progress::lemma_find_first;
use crate::progress::trim_of;
use crate::progress::trim_spec;
use crate::strings::all_digits;
use crate::strings::starts_with;

verus! {

/// Spec: the page count one report line carries: the `Pages:` label, then
/// — after trimming — an optional plus sign and a decimal number that
/// fits the result type.
pub open spec fn line_pages_spec(line: Seq<char>) -> Option<u32> {
    let label = "Pages:"@;
    if !(label.len() <= line.len() && line.subrange(0, label.len() as int) == label) {
        None
    } else {
        let t = trim_spec(line.subrange(label.len() as int, line.len() as int));
        let digits = if t.len() > 0 && t[0] == '+' {
            t.drop_first()
        } else {
            t
        };
        if digits.len() > 0 && all_digits(digits) && dec_val(digits) <= u32::MAX {
            Some(dec_val(digits) as u32)
        } else {
            None
        }
    }
}

/// Spec: the count the whole report gives: the first line whose label and
/// number both read cleanly.
pub open spec fn pdf_pages_spec(s: Seq<char>) -> Option<u32>
    decreases s.len(),
{
    let nl = find_first(s, '\n');
    if !(0 <= nl < s.len()) {
        line_pages_spec(s)
    } else {
        match line_pages_spec(s.subrange(0, nl)) {
            Some(v) => Some(v),
            None => pdf_pages_spec(s.subrange(nl + 1, s.len() as int)),
        }
    }
}

/// The page count one report line carries.
fn line_pages(line: &str) -> (r: Option<u32>)
    ensures
        r == line_pages_spec(line@),
{
    if !starts_with(line, "Pages:") {
        return None;
    }
    let label_len: usize = "Pages:".unicode_len();
    let n: usize = line.unicode_len();
    let t = trim_of(line.substring_char(label_len, n));
    let tn: usize = t.unicode_len();
    let digits = if tn > 0 && t.get_char(0) == '+' {
        proof {
            assert(t@.drop_first() =~= t@.subrange(1, tn as int));
        }
        t.substring_char(1, tn)
    } else {
        t
    };
    match parse_u64(digits) {
        Some(v) => {
            if v <= u32::MAX as u64 {
                Some(v as u32)
            } else {
                None
            }
        },
        None => None,
    }
}

/// Scans the pdf info tool's report for the document's page count: the
/// first `Pages:` line whose value is a decimal number decides; lines with
/// an unreadable value are passed over, and a report without one gives
/// nothing.
pub fn parse_pdf_page_count(text: &str) -> (r: Option<u32>)
    ensures
        r == pdf_pages_spec(text@),
{
    let n: usize = text.unicode_len();
    let mut pos: usize = 0;
    proof {
        assert(text@.subrange(0, n as int) =~= text@);
    }
    loop
        invariant
            n == text@.len(),
            pos <= n,
            pdf_pages_spec(text@) == pdf_pages_spec(text@.subrange(pos as int, n as int)),
        decreases n - pos,
    {
        let window = text.substring_char(pos, n);
        let ghost w = text@.subrange(pos as int, n as int);
        match find_first_char(window, '\n') {
            Some(i) => {
                proof {
                    lemma_find_first(w, '\n');
                }
                let line = window.substring_char(0, i);
                proof {
                    assert(w.subrange(0, i as int) =~= line@);
                }
                if let Some(v) = line_pages(line) {
                    return Some(v);
                }
                pos = pos + i + 1;
                proof {
                    assert(w.subrange(i + 1, w.len() as int) =~= text@.subrange(
                        pos as int,
                        n as int,
                    ));
                }
            },
            None => {
                return line_pages(window);
            },
        }
    }
}

} // verus!
