//! Rendering a response head for the wire, character for character.
//!
//! The head is the status line and the header lines, ended by the empty line.
//! A response that states no content-length (a not-found answer) is framed
//! with `Content-Length: 0`, so that the connection can stay open; a response
//! that states one carries it verbatim.

use vstd::prelude::*;

verus! {

use vstd::string::StringExecFns;
use crate::policy::reason_phrase;
use crate::policy::Response;
use crate::policy::ResponseModel;

/// The character of the decimal digit `d`.
pub open spec fn digit_char(d: int) -> char {
    if d == 0 {
        '0'
    } else if d == 1 {
        '1'
    } else if d == 2 {
        '2'
    } else if d == 3 {
        '3'
    } else if d == 4 {
        '4'
    } else if d == 5 {
        '5'
    } else if d == 6 {
        '6'
    } else if d == 7 {
        '7'
    } else if d == 8 {
        '8'
    } else {
        '9'
    }
}

/// The decimal digits of `n`, most significant first, no leading zeros.
pub open spec fn dec_digits(n: nat) -> Seq<char>
    decreases n,
{
    if n < 10 {
        seq![digit_char(n as int)]
    } else {
        dec_digits(n / 10) + seq![digit_char((n % 10) as int)]
    }
}

/// The one-character text of the decimal digit `d`.
fn digit_str(d: u64) -> (r: &'static str)
    requires
        d < 10,
    ensures
        r@ == seq![digit_char(d as int)],
{
    if d == 0 {
        proof {
            reveal_strlit("0");
            assert("0"@ =~= seq![digit_char(0)]);
        }
        "0"
    } else if d == 1 {
        proof {
            reveal_strlit("1");
            assert("1"@ =~= seq![digit_char(1)]);
        }
        "1"
    } else if d == 2 {
        proof {
            reveal_strlit("2");
            assert("2"@ =~= seq![digit_char(2)]);
        }
        "2"
    } else if d == 3 {
        proof {
            reveal_strlit("3");
            assert("3"@ =~= seq![digit_char(3)]);
        }
        "3"
    } else if d == 4 {
        proof {
            reveal_strlit("4");
            assert("4"@ =~= seq![digit_char(4)]);
        }
        "4"
    } else if d == 5 {
        proof {
            reveal_strlit("5");
            assert("5"@ =~= seq![digit_char(5)]);
        }
        "5"
    } else if d == 6 {
        proof {
            reveal_strlit("6");
            assert("6"@ =~= seq![digit_char(6)]);
        }
        "6"
    } else if d == 7 {
        proof {
            reveal_strlit("7");
            assert("7"@ =~= seq![digit_char(7)]);
        }
        "7"
    } else if d == 8 {
        proof {
            reveal_strlit("8");
            assert("8"@ =~= seq![digit_char(8)]);
        }
        "8"
    } else {
        proof {
            reveal_strlit("9");
            assert("9"@ =~= seq![digit_char(9)]);
        }
        "9"
    }
}

/// Append the decimal digits of `n` to `out`.
fn push_decimal(n: u64, out: &mut String)
    ensures
        final(out)@ == old(out)@ + dec_digits(n as nat),
    decreases n,
{
    if n < 10 {
        out.append(digit_str(n));
    } else {
        push_decimal(n / 10, out);
        let ghost mid = out@;
        out.append(digit_str(n % 10));
        proof {
            assert((n / 10) as nat == n as nat / 10);
            assert((n % 10) as nat == n as nat % 10);
            assert(dec_digits(n as nat) == dec_digits(n as nat / 10) + seq![
                digit_char((n as nat % 10) as int),
            ]);
            assert(old(out)@ + dec_digits(n as nat / 10) + seq![
                digit_char((n as nat % 10) as int),
            ] =~= old(out)@ + dec_digits(n as nat));
        }
    }
}

/// The decimal text of `n`.
pub fn decimal_string(n: u64) -> (s: String)
    ensures
        s@ == dec_digits(n as nat),
{
    let mut out = String::new();
    push_decimal(n, &mut out);
    proof {
        assert(Seq::<char>::empty() + dec_digits(n as nat) =~= dec_digits(n as nat));
    }
    out
}

/// The reason phrase of a status code, as text.
pub open spec fn reason_text(status: int) -> Seq<char> {
    if status == 200 {
        "OK"@
    } else {
        "Not Found"@
    }
}

/// The content-length header line: the stated length, or zero where the
/// response states none, so the wire is still framed.
pub open spec fn content_length_line(length: Option<int>) -> Seq<char> {
    match length {
        Some(n) => "Content-Length: "@ + dec_digits(n as nat) + "\r\n"@,
        None => "Content-Length: 0\r\n"@,
    }
}

/// The whole head a response is put on the wire with.
pub open spec fn head_text(m: ResponseModel) -> Seq<char> {
    "HTTP/1.1 "@ + dec_digits(m.status as nat) + " "@ + reason_text(m.status) + "\r\n"@
        + content_length_line(m.content_length) + (if m.content_type_plaintext {
        "Content-Type: text/plain\r\n"@
    } else {
        Seq::<char>::empty()
    }) + "\r\n"@
}

/// Render a response's head, exactly as `head_text` states it. The body
/// follows the head on the wire, unchanged.
pub fn render_head(response: &Response) -> (s: String)
    ensures
        s@ == head_text(response.model()),
{
    let mut out: String = "HTTP/1.1 ".to_owned();
    push_decimal(response.status as u64, &mut out);
    out.append(" ");
    out.append(reason_phrase(response.status));
    out.append("\r\n");
    match response.content_length {
        Some(n) => {
            out.append("Content-Length: ");
            push_decimal(n, &mut out);
            out.append("\r\n");
        },
        None => {
            out.append("Content-Length: 0\r\n");
        },
    }
    if response.content_type_plaintext {
        out.append("Content-Type: text/plain\r\n");
    }
    out.append("\r\n");
    proof {
        assert(out@ =~= head_text(response.model()));
    }
    out
}

} // verus!
