//! The request-line grammar: method and path out of one line of text.
//!
//! A request line is `method SP path SP remainder`: the method is everything
//! before the first space, the path everything between the first space and
//! the next one, and the remainder (the protocol version on the wire) is left
//! alone. A line whose method or path would be empty, or which has no second
//! space, carries no request.

use vstd::prelude::*;

verus! {

use vstd::string::StrSliceExecFns;
use crate::policy::Method;
use crate::policy::Request;

/// One parsed request line: the method name and the path, verbatim.
pub struct RequestLine {
    pub method: String,
    pub path: String,
}

/// The index of the first space in `s`, if any.
pub open spec fn first_space(s: Seq<char>) -> Option<int>
    decreases s.len(),
{
    if s.len() == 0 {
        None
    } else if s[0] == ' ' {
        Some(0)
    } else {
        match first_space(s.drop_first()) {
            Some(i) => Some(i + 1),
            None => None,
        }
    }
}

/// What `first_space` finds is the first space: it is a space, and nothing
/// before it is; when it finds nothing, there is no space at all.
pub proof fn lemma_first_space(s: Seq<char>)
    ensures
        match first_space(s) {
            Some(i) => 0 <= i < s.len() && s[i] == ' ' && forall|k: int|
                0 <= k < i ==> s[k] != ' ',
            None => forall|k: int| 0 <= k < s.len() ==> s[k] != ' ',
        },
    decreases s.len(),
{
    if s.len() > 0 && s[0] != ' ' {
        let t = s.drop_first();
        lemma_first_space(t);
        assert(forall|k: int| 0 <= k < t.len() ==> t[k] == s[k + 1]);
        match first_space(t) {
            Some(i) => {
                assert(s[i + 1] == ' ');
                assert forall|k: int| 0 <= k < i + 1 implies s[k] != ' ' by {
                    if k >= 1 {
                        assert(t[k - 1] != ' ');
                    }
                }
            },
            None => {
                assert forall|k: int| 0 <= k < s.len() implies s[k] != ' ' by {
                    if k >= 1 {
                        assert(t[k - 1] != ' ');
                    }
                }
            },
        }
    }
}

/// The method and path a line carries, if it is a well-formed request line.
pub open spec fn spec_parse_request_line(line: Seq<char>) -> Option<(Seq<char>, Seq<char>)> {
    match first_space(line) {
        None => None,
        Some(i) => if i == 0 {
            None
        } else {
            let rest = line.subrange(i + 1, line.len() as int);
            match first_space(rest) {
                None => None,
                Some(j) => if j == 0 {
                    None
                } else {
                    Some((line.subrange(0, i), rest.subrange(0, j)))
                },
            }
        },
    }
}

/// Scan for the first space at or after `from`.
fn find_space(line: &str, from: usize, len: usize) -> (r: Option<usize>)
    requires
        from <= len,
        len == line@.len(),
    ensures
        match r {
            Some(i) => from <= i < len && line@[i as int] == ' ' && forall|k: int|
                from <= k < i ==> line@[k] != ' ',
            None => forall|k: int| from <= k < len ==> line@[k] != ' ',
        },
{
    let mut idx: usize = from;
    while idx < len
        invariant
            from <= idx <= len,
            len == line@.len(),
            forall|k: int| from <= k < idx ==> line@[k] != ' ',
        decreases len - idx,
    {
        if line.get_char(idx) == ' ' {
            return Some(idx);
        }
        idx += 1;
    }
    None
}

/// If `s[i]` is a space and nothing before `i` is, then `i` is the first space;
/// if nothing in `s` is a space, there is none to find.
proof fn lemma_first_space_unique(s: Seq<char>, i: int)
    requires
        0 <= i < s.len(),
        s[i] == ' ',
        forall|k: int| 0 <= k < i ==> s[k] != ' ',
    ensures
        first_space(s) == Some(i),
{
    lemma_first_space(s);
    match first_space(s) {
        Some(j) => {
            if j < i {
                assert(s[j] != ' ');
            } else if i < j {
                assert(s[i] != ' ');
            }
        },
        None => {
            assert(s[i] != ' ');
        },
    }
}

/// If no position of `s` holds a space, `first_space` finds none.
proof fn lemma_first_space_absent(s: Seq<char>)
    requires
        forall|k: int| 0 <= k < s.len() ==> s[k] != ' ',
    ensures
        first_space(s) is None,
{
    lemma_first_space(s);
    match first_space(s) {
        Some(j) => {
            assert(s[j] != ' ');
        },
        None => {},
    }
}

/// Does `s` hold no space at all?
pub open spec fn space_free(s: Seq<char>) -> bool {
    forall|k: int| 0 <= k < s.len() ==> s[k] != ' '
}

/// Law: the grammar reads back what a line is assembled from — a space-free,
/// non-empty method, a space, a space-free, non-empty path, a space, and any
/// remainder parse to exactly that method and that path.
pub proof fn lemma_request_line_round_trip(method: Seq<char>, path: Seq<char>, rest: Seq<char>)
    requires
        method.len() > 0,
        space_free(method),
        path.len() > 0,
        space_free(path),
    ensures
        spec_parse_request_line(method + seq![' '] + path + seq![' '] + rest) == Some(
            (method, path),
        ),
{
    let line = method + seq![' '] + path + seq![' '] + rest;
    let i = method.len() as int;
    assert(line[i] == ' ');
    assert forall|k: int| 0 <= k < i implies line[k] != ' ' by {
        assert(line[k] == method[k]);
    }
    lemma_first_space_unique(line, i);
    let tail = line.subrange(i + 1, line.len() as int);
    assert(tail =~= path + seq![' '] + rest);
    let j = path.len() as int;
    assert(tail[j] == ' ');
    assert forall|k: int| 0 <= k < j implies tail[k] != ' ' by {
        assert(tail[k] == path[k]);
    }
    lemma_first_space_unique(tail, j);
    assert(line.subrange(0, i) =~= method);
    assert(tail.subrange(0, j) =~= path);
}

/// Parse one request line. Returns the method and path exactly when the line
/// fits the grammar, and nothing otherwise.
pub fn parse_request_line(line: &str) -> (r: Option<RequestLine>)
    ensures
        match r {
            Some(rl) => spec_parse_request_line(line@) == Some((rl.method@, rl.path@)),
            None => spec_parse_request_line(line@) is None,
        },
{
    let len: usize = line.unicode_len();
    let first = find_space(line, 0, len);
    let i = match first {
        None => {
            proof {
                lemma_first_space_absent(line@);
            }
            return None;
        },
        Some(i) => i,
    };
    proof {
        lemma_first_space_unique(line@, i as int);
    }
    if i == 0 {
        return None;
    }
    let ghost rest = line@.subrange(i + 1, line@.len() as int);
    let second = find_space(line, i + 1, len);
    let j = match second {
        None => {
            proof {
                assert(forall|k: int| 0 <= k < rest.len() ==> rest[k] == line@[k + i + 1]);
                lemma_first_space_absent(rest);
            }
            return None;
        },
        Some(j) => j,
    };
    proof {
        assert(forall|k: int| 0 <= k < rest.len() ==> rest[k] == line@[k + i + 1]);
        lemma_first_space_unique(rest, j - (i + 1));
    }
    if j == i + 1 {
        return None;
    }
    let method = line.substring_char(0, i);
    let path = line.substring_char(i + 1, j);
    proof {
        assert(rest.subrange(0, j - (i + 1)) =~= line@.subrange(i + 1, j as int));
    }
    Some(RequestLine { method: method.to_owned(), path: path.to_owned() })
}

/// Turn a parsed request line into the request the policy answers.
pub fn to_request(rl: RequestLine) -> (r: Request)
    ensures
        r.method == Method::Get <==> rl.method@ == "GET"@,
        r.method == Method::Other <==> rl.method@ != "GET"@,
        r.path == rl.path,
{
    let method = Method::from_name(rl.method.as_str());
    Request { method, path: rl.path }
}

/// Does this line end the header section of a request?
pub fn is_headers_end(line: &str) -> (r: bool)
    ensures
        r <==> (line@ == "\r\n"@ || line@ == "\n"@ || line@.len() == 0),
{
    let crlf: String = "\r\n".to_owned();
    let lf: String = "\n".to_owned();
    let owned: String = line.to_owned();
    line.unicode_len() == 0 || owned == crlf || owned == lf
}

} // verus!
