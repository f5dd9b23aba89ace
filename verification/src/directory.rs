//! The printer directory: parsing the gateway's status listing and
//! discovering a default label printer.
//!
//! The gateway's status output is line-oriented: a line is a printer record
//! exactly when it begins with the literal `"printer "`, and the printer's
//! name is the second whitespace-delimited token of that line (the first is
//! the word `printer` itself, so the name is the first token after the
//! prefix). All other lines are ignored.

use vstd::prelude::*;

use crate::errors::PrinterError;
use crate::text::chars_of;
use crate::text::ci_contains;
use crate::text::ci_find_needle;
use crate::text::find_line_end;
use crate::text::join_strings;
use crate::text::join_with;
use crate::text::line_end;
use crate::text::match_at;
use crate::text::matches_at;
use crate::text::skip_spaces;
use crate::text::skip_token;
use crate::text::token_end;
use crate::text::token_start;

verus! {

/// The name recorded on the line `s[start..e]`, if that line is a printer
/// record: it must begin with `"printer "`, and the name is the next
/// whitespace-delimited token after that prefix.
pub open spec fn record_name_at(s: Seq<char>, start: int, e: int) -> Option<Seq<char>> {
    if start + 8 <= e && matches_at(s, start, "printer "@) {
        let a = token_start(s, start + 8, e);
        if a < e {
            Some(s.subrange(a, token_end(s, a, e)))
        } else {
            None
        }
    } else {
        None
    }
}

/// A line's end never lies before its start nor past the end of the text.
pub proof fn lemma_line_end_bounds(s: Seq<char>, i: int)
    requires
        0 <= i <= s.len(),
    ensures
        i <= line_end(s, i) <= s.len(),
    decreases s.len() - i,
{
    if i < s.len() && s[i] != '\n' {
        lemma_line_end_bounds(s, i + 1);
    }
}

/// The printer names recorded in `s[start..]`, line by line, in order.
pub open spec fn parse_from(s: Seq<char>, start: int) -> Seq<Seq<char>>
    decreases s.len() - start,
        via parse_from_dec
{
    if start < 0 || start >= s.len() {
        Seq::empty()
    } else {
        let e = line_end(s, start);
        let rest = if e < s.len() {
            parse_from(s, e + 1)
        } else {
            Seq::<Seq<char>>::empty()
        };
        match record_name_at(s, start, e) {
            Some(n) => seq![n] + rest,
            None => rest,
        }
    }
}

#[via_fn]
proof fn parse_from_dec(s: Seq<char>, start: int) {
    if 0 <= start < s.len() {
        lemma_line_end_bounds(s, start);
    }
}

/// All printer names recorded in the gateway's status output, in the order
/// the gateway reported them.
pub open spec fn parse_printers(s: Seq<char>) -> Seq<Seq<char>> {
    parse_from(s, 0)
}

/// Parsing the status listing is a pure function of the listing text: equal
/// gateway output always parses to the identical ordered sequence of names.
pub proof fn lemma_parse_printers_deterministic(a: Seq<char>, b: Seq<char>)
    requires
        a == b,
    ensures
        parse_printers(a) == parse_printers(b),
{
}

/// Parses the gateway's status output into the ordered list of printer
/// names, exactly as `parse_printers` describes.
pub fn parse_printer_list(out: &str) -> (r: Vec<String>)
    ensures
        r.deep_view() == parse_printers(out@),
{
    proof {
        reveal_strlit("printer ");
    }
    let prefix = chars_of("printer ");
    let cs = chars_of(out);
    let n = cs.len();
    let mut res: Vec<String> = Vec::new();
    let mut start: usize = 0;
    while start < n
        invariant
            start <= n,
            n == cs@.len(),
            cs@ == out@,
            prefix@ == "printer "@,
            prefix@.len() == 8,
            parse_printers(out@) == res.deep_view() + parse_from(out@, start as int),
        decreases n - start,
    {
        let ghost pre = res.deep_view();
        let ghost rest = parse_from(out@, start as int);
        let e = find_line_end(&cs, start);
        let ghost tail = if e < n {
            parse_from(out@, e + 1 as int)
        } else {
            Seq::<Seq<char>>::empty()
        };
        if e - start >= 8 && match_at(&cs, start, &prefix) {
            let a = skip_spaces(&cs, start + 8, e);
            if a < e {
                let b = skip_token(&cs, a, e);
                let name = out.substring_char(a, b).to_owned();
                proof {
                    assert(record_name_at(out@, start as int, e as int) == Some(name@));
                }
                res.push(name);
                proof {
                    assert(res.deep_view() =~= pre.push(name@));
                    assert(rest == seq![name@] + tail);
                    assert(pre.push(name@) + tail =~= pre + (seq![name@] + tail));
                }
            } else {
                proof {
                    assert(record_name_at(out@, start as int, e as int) is None);
                }
            }
        } else {
            proof {
                assert(record_name_at(out@, start as int, e as int) is None);
            }
        }
        if e < n {
            start = e + 1;
        } else {
            start = n;
            proof {
                assert(parse_from(out@, n as int) =~= Seq::<Seq<char>>::empty());
                assert(res.deep_view() + parse_from(out@, n as int) =~= res.deep_view());
            }
        }
    }
    proof {
        assert(parse_from(out@, n as int) =~= Seq::<Seq<char>>::empty());
        assert(res.deep_view() + parse_from(out@, n as int) =~= res.deep_view());
    }
    res
}

/// A printer name qualifies for discovery when it contains the vendor
/// substring `"dymo"`, compared without regard to ASCII case.
pub open spec fn contains_dymo(s: Seq<char>) -> bool {
    ci_contains(s, "dymo"@)
}

/// The first name in the list that qualifies for discovery, if any.
pub open spec fn first_dymo(names: Seq<Seq<char>>) -> Option<Seq<char>>
    decreases names.len(),
{
    if names.len() == 0 {
        None
    } else if contains_dymo(names[0]) {
        Some(names[0])
    } else {
        first_dymo(names.drop_first())
    }
}

/// Discovery comes up empty exactly when no listed name qualifies.
pub proof fn lemma_no_match_means_none(names: Seq<Seq<char>>)
    ensures
        (first_dymo(names) is None) <==> (forall|i: int|
            0 <= i < names.len() ==> !contains_dymo(names[i])),
    decreases names.len(),
{
    if names.len() > 0 {
        lemma_no_match_means_none(names.drop_first());
        if first_dymo(names) is None {
            assert forall|i: int| 0 <= i < names.len() implies !contains_dymo(names[i]) by {
                if i > 0 {
                    assert(names.drop_first()[i - 1] == names[i]);
                }
            }
        } else {
            if !contains_dymo(names[0]) {
                let k = choose|k: int|
                    0 <= k < names.drop_first().len() && contains_dymo(names.drop_first()[k]);
                assert(names.drop_first()[k] == names[k + 1]);
            }
        }
    }
}

/// Discovery does not depend on where in the listing the matching name
/// stands: whenever exactly one name qualifies, that name is selected,
/// whatever order the gateway reported the printers in.
pub proof fn lemma_unique_match_selected(names: Seq<Seq<char>>, i: int)
    requires
        0 <= i < names.len(),
        contains_dymo(names[i]),
        forall|j: int| 0 <= j < names.len() && j != i ==> !contains_dymo(names[j]),
    ensures
        first_dymo(names) == Some(names[i]),
    decreases names.len(),
{
    if i > 0 {
        assert(!contains_dymo(names[0]));
        let rest = names.drop_first();
        assert(rest[i - 1] == names[i]);
        assert forall|j: int| 0 <= j < rest.len() && j != i - 1 implies !contains_dymo(
            rest[j],
        ) by {
            assert(rest[j] == names[j + 1]);
        }
        lemma_unique_match_selected(rest, i - 1);
    }
}

/// Picks the default label printer from a directory listing: the first name
/// containing `"dymo"` (ASCII-case-insensitively). With an empty listing the
/// error says no printers exist; otherwise it enumerates every listed name.
pub fn find_dymo_printer(printers: &Vec<String>) -> (r: Result<String, PrinterError>)
    ensures
        ({
            let names = printers.deep_view();
            match first_dymo(names) {
                Some(n) => r matches Ok(p) && p@ == n,
                None => if names.len() == 0 {
                    r matches Err(e) && e matches PrinterError::PrinterNotFound(m) && m@
                        == "No printers found"@
                } else {
                    r matches Err(e) && e matches PrinterError::PrinterNotFound(m) && m@
                        == "No Dymo printer found. Available printers: "@ + join_with(
                        names,
                        ", "@,
                    )
                },
            }
        }),
{
    let ghost names = printers.deep_view();
    let needle = chars_of("dymo");
    let mut i: usize = 0;
    proof {
        assert(names.skip(0) =~= names);
    }
    while i < printers.len()
        invariant
            i <= printers@.len(),
            needle@ == "dymo"@,
            names == printers.deep_view(),
            names.len() == printers@.len(),
            forall|q: int| 0 <= q < names.len() ==> names[q] == printers@[q]@,
            first_dymo(names) == first_dymo(names.skip(i as int)),
        decreases printers@.len() - i,
    {
        let cs = chars_of(printers[i].as_str());
        proof {
            assert(names.skip(i as int)[0] == names[i as int]);
        }
        if ci_find_needle(&cs, &needle) {
            return Ok(printers[i].clone());
        }
        proof {
            assert(names.skip(i as int).drop_first() =~= names.skip(i + 1));
        }
        i = i + 1;
    }
    proof {
        assert(names.skip(printers@.len() as int) =~= Seq::<Seq<char>>::empty());
    }
    if printers.len() == 0 {
        Err(PrinterError::PrinterNotFound(String::from_str("No printers found")))
    } else {
        let mut msg = String::from_str("No Dymo printer found. Available printers: ");
        let listed = join_strings(printers, ", ");
        msg.append(listed.as_str());
        Err(PrinterError::PrinterNotFound(msg))
    }
}

/// Maps the gateway's status-query outcome: a failing exit carries the raw
/// diagnostic text as a gateway error, and a successful exit yields the
/// parsed printer names.
pub fn list_printers_outcome(success: bool, stdout: &String, stderr: &String) -> (r: Result<
    Vec<String>,
    PrinterError,
>)
    ensures
        !success ==> (r matches Err(e) && e matches PrinterError::CupsError(m) && m@ == stderr@),
        success ==> (r matches Ok(v) && v.deep_view() == parse_printers(stdout@)),
{
    if !success {
        Err(PrinterError::CupsError(stderr.clone()))
    } else {
        Ok(parse_printer_list(stdout.as_str()))
    }
}

} // verus!
