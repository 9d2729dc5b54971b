//! Response presentation: a received response becomes a status line,
//! one line per header in the order received, a blank separator and the
//! body text; a decode failure or a transport failure becomes lines for
//! the diagnostic stream instead.
use vstd::prelude::*;
use vstd::string::StrSliceExecFns;
use vstd::string::StringExecFns;

use crate::headers::hview;

verus! {

/// The decimal digit character for a value below ten.
pub open spec fn digit_char(d: nat) -> char {
    if d == 0 {
        '0'
    } else if d == 1 {
        '1'
    } else if d == 2 {
        '2'
    } else if d == 3 {
        '3'
    } else if d == 4 {
        '4'
    } else if d == 5 {
        '5'
    } else if d == 6 {
        '6'
    } else if d == 7 {
        '7'
    } else if d == 8 {
        '8'
    } else {
        '9'
    }
}

/// The decimal notation of a number, most significant digit first,
/// with no leading zeros (a single `0` for zero).
pub open spec fn dec_digits(n: nat) -> Seq<char>
    decreases n,
{
    if n < 10 {
        seq![digit_char(n)]
    } else {
        dec_digits(n / 10).push(digit_char(n % 10))
    }
}

fn digit_str(d: u16) -> (r: &'static str)
    requires
        d < 10,
    ensures
        r@ =~= seq![digit_char(d as nat)],
{
    proof {
        reveal_strlit("0");
        reveal_strlit("1");
        reveal_strlit("2");
        reveal_strlit("3");
        reveal_strlit("4");
        reveal_strlit("5");
        reveal_strlit("6");
        reveal_strlit("7");
        reveal_strlit("8");
        reveal_strlit("9");
    }
    match d {
        0 => "0",
        1 => "1",
        2 => "2",
        3 => "3",
        4 => "4",
        5 => "5",
        6 => "6",
        7 => "7",
        8 => "8",
        _ => "9",
    }
}

/// Renders a status code in decimal.
pub fn u16_to_decimal(n: u16) -> (r: String)
    ensures
        r@ == dec_digits(n as nat),
    decreases n,
{
    if n < 10 {
        digit_str(n).to_owned()
    } else {
        let mut s = u16_to_decimal(n / 10);
        s.append(digit_str(n % 10));
        proof {
            assert(dec_digits((n / 10) as nat) + seq![digit_char((n % 10) as nat)] =~= dec_digits(
                (n / 10) as nat,
            ).push(digit_char((n % 10) as nat)));
        }
        s
    }
}

/// What the transport handed back on success: numeric status and
/// reason, the response headers in the order received, and the body
/// text or the message of the decode failure.
pub struct ResponseView {
    pub status: u16,
    pub reason: String,
    pub headers: Vec<(String, String)>,
    pub body: Result<String, String>,
}

/// A transport-level failure, in its summary and detailed form.
pub struct TransportFailure {
    pub summary: String,
    pub detail: String,
}

/// The lines to print: `out` for standard output, `diag` for the
/// diagnostic stream.
pub struct Presentation {
    pub out: Vec<String>,
    pub diag: Vec<String>,
}

/// The status line of a response.
pub open spec fn status_line_of(status: nat, reason: Seq<char>) -> Seq<char> {
    "Status: "@ + dec_digits(status) + " "@ + reason
}

/// One printed header line.
pub open spec fn header_line_of(name: Seq<char>, value: Seq<char>) -> Seq<char> {
    name + ": "@ + value
}

/// The printed header lines, one per header, in order.
pub open spec fn header_lines_of(hs: Seq<(Seq<char>, Seq<char>)>) -> Seq<Seq<char>> {
    Seq::new(hs.len(), |i: int| header_line_of(hs[i].0, hs[i].1))
}

/// The views of a sequence of owned lines.
pub open spec fn lines_view(v: Seq<String>) -> Seq<Seq<char>> {
    Seq::new(v.len(), |i: int| v[i]@)
}

/// What a successful response prints on standard output: the status
/// line, every header line in order, and, when the body decoded, a
/// blank separator followed by the body text.
pub open spec fn rendered_out_of(r: ResponseView) -> Seq<Seq<char>> {
    seq![status_line_of(r.status as nat, r.reason@)] + header_lines_of(hview(r.headers@)) + (
    match r.body {
        Ok(t) => seq![Seq::<char>::empty(), t@],
        Err(_) => Seq::<Seq<char>>::empty(),
    })
}

/// What a successful response prints on the diagnostic stream: nothing,
/// unless the body failed to decode.
pub open spec fn rendered_diag_of(r: ResponseView) -> Seq<Seq<char>> {
    match r.body {
        Ok(_) => Seq::<Seq<char>>::empty(),
        Err(e) => seq!["could not decode the response body: "@ + e@],
    }
}

/// The diagnostic lines of a transport failure.
pub open spec fn transport_error_lines(summary: Seq<char>, detail: Seq<char>) -> Seq<Seq<char>> {
    seq!["request error: "@ + summary, "details: "@ + detail]
}

/// Renders a received response: status line, then each header as
/// `name: value` in the order received, then a blank separator and the
/// body text; when the body did not decode, the decode error goes to
/// the diagnostic lines instead, the lines already rendered staying.
pub fn render_response(resp: &ResponseView) -> (p: Presentation)
    ensures
        lines_view(p.out@) == rendered_out_of(*resp),
        lines_view(p.diag@) == rendered_diag_of(*resp),
{
    let mut out: Vec<String> = Vec::new();
    let mut diag: Vec<String> = Vec::new();

    let mut line = String::from_str("Status: ");
    let num = u16_to_decimal(resp.status);
    line.append(num.as_str());
    line.append(" ");
    line.append(resp.reason.as_str());
    out.push(line);

    let mut i: usize = 0;
    while i < resp.headers.len()
        invariant
            0 <= i <= resp.headers@.len(),
            lines_view(out@) =~= seq![status_line_of(resp.status as nat, resp.reason@)]
                + header_lines_of(hview(resp.headers@).take(i as int)),
        decreases resp.headers@.len() - i,
    {
        let mut hl = resp.headers[i].0.clone();
        hl.append(": ");
        hl.append(resp.headers[i].1.as_str());
        proof {
            let hs = hview(resp.headers@);
            assert(hl@ == header_line_of(hs[i as int].0, hs[i as int].1));
            assert(header_lines_of(hs.take(i + 1)) =~= header_lines_of(hs.take(i as int)).push(
                header_line_of(hs[i as int].0, hs[i as int].1),
            ));
            assert(lines_view(out@.push(hl)) =~= lines_view(out@).push(hl@));
        }
        out.push(hl);
        i += 1;
    }
    proof {
        assert(hview(resp.headers@).take(resp.headers@.len() as int) =~= hview(resp.headers@));
    }
    match &resp.body {
        Ok(t) => {
            out.push(String::new());
            out.push(t.clone());
        },
        Err(e) => {
            let mut dl = String::from_str("could not decode the response body: ");
            dl.append(e.as_str());
            diag.push(dl);
        },
    }
    proof {
        assert(lines_view(out@) =~= rendered_out_of(*resp));
        assert(lines_view(diag@) =~= rendered_diag_of(*resp));
    }
    Presentation { out, diag }
}

/// Renders the outcome of one dispatch. On success the response is
/// rendered; on a transport failure nothing at all goes to standard
/// output, and the failure's summary and detail go to the diagnostic
/// stream.
pub fn render_outcome(outcome: &Result<ResponseView, TransportFailure>) -> (p: Presentation)
    ensures
        match outcome {
            Ok(resp) => lines_view(p.out@) == rendered_out_of(*resp) && lines_view(p.diag@)
                == rendered_diag_of(*resp),
            Err(f) => p.out@.len() == 0 && lines_view(p.diag@) == transport_error_lines(
                f.summary@,
                f.detail@,
            ),
        },
{
    match outcome {
        Ok(resp) => render_response(resp),
        Err(f) => {
            let mut diag: Vec<String> = Vec::new();
            let mut l1 = String::from_str("request error: ");
            l1.append(f.summary.as_str());
            diag.push(l1);
            let mut l2 = String::from_str("details: ");
            l2.append(f.detail.as_str());
            diag.push(l2);
            proof {
                assert(lines_view(diag@) =~= transport_error_lines(f.summary@, f.detail@));
            }
            Presentation { out: Vec::new(), diag }
        },
    }
}

} // verus!
