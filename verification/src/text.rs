//! Text helpers the request builders and the file model rest on: decimal
//! rendering of ids and grades, whitespace trimming of feedback, stripping
//! of leading path separators, and joining a directory with a file name.

use vstd::prelude::*;
use vstd::string::*;

verus! {

/// The decimal digit character for a value below ten.
pub open spec fn spec_digit_char(d: nat) -> char {
    if d == 0 {
        '0'
    } else if d == 1 {
        '1'
    } else if d == 2 {
        '2'
    } else if d == 3 {
        '3'
    } else if d == 4 {
        '4'
    } else if d == 5 {
        '5'
    } else if d == 6 {
        '6'
    } else if d == 7 {
        '7'
    } else if d == 8 {
        '8'
    } else {
        '9'
    }
}

/// The decimal rendering of a non-negative integer, without sign and
/// without leading zeros (a lone zero for zero itself).
pub open spec fn spec_dec(n: nat) -> Seq<char>
    decreases n,
{
    if n < 10 {
        seq![spec_digit_char(n)]
    } else {
        spec_dec(n / 10) + seq![spec_digit_char(n % 10)]
    }
}

/// The decimal rendering of an integer: a leading minus sign when negative.
pub open spec fn spec_dec_int(n: int) -> Seq<char> {
    if n < 0 {
        seq!['-'] + spec_dec((-n) as nat)
    } else {
        spec_dec(n as nat)
    }
}

fn digit_str(d: u64) -> (r: &'static str)
    requires
        d < 10,
    ensures
        r@ == seq![spec_digit_char(d as nat)],
{
    let r: &'static str = if d == 0 {
        "0"
    } else if d == 1 {
        "1"
    } else if d == 2 {
        "2"
    } else if d == 3 {
        "3"
    } else if d == 4 {
        "4"
    } else if d == 5 {
        "5"
    } else if d == 6 {
        "6"
    } else if d == 7 {
        "7"
    } else if d == 8 {
        "8"
    } else {
        "9"
    };
    proof {
        reveal_strlit("0");
        reveal_strlit("1");
        reveal_strlit("2");
        reveal_strlit("3");
        reveal_strlit("4");
        reveal_strlit("5");
        reveal_strlit("6");
        reveal_strlit("7");
        reveal_strlit("8");
        reveal_strlit("9");
        assert(r@ =~= seq![spec_digit_char(d as nat)]);
    }
    r
}

/// Renders an unsigned integer in decimal.
pub fn u64_dec(n: u64) -> (r: String)
    ensures
        r@ == spec_dec(n as nat),
    decreases n,
{
    if n < 10 {
        String::from_str(digit_str(n))
    } else {
        let mut s = u64_dec(n / 10);
        s.append(digit_str(n % 10));
        proof {
            assert(s@ =~= spec_dec(n as nat));
        }
        s
    }
}

/// Renders a signed integer in decimal.
pub fn i64_dec(n: i64) -> (r: String)
    ensures
        r@ == spec_dec_int(n as int),
{
    if n >= 0 {
        u64_dec(n as u64)
    } else {
        let magnitude: u64 = (-(n as i128)) as u64;
        let mut s = String::from_str("-");
        let digits = u64_dec(magnitude);
        s.append(digits.as_str());
        proof {
            reveal_strlit("-");
            assert(s@ =~= spec_dec_int(n as int));
        }
        s
    }
}

/// What `str::trim` returns: the input without leading and trailing
/// whitespace. The result depends on the characters alone.
pub uninterp spec fn trim_of(s: Seq<char>) -> Seq<char>;

/// Relies on `str::trim`: removes leading and trailing whitespace; an empty
/// string stays empty.
#[verifier::external_body]
pub fn trim_str(s: &str) -> (r: &str)
    ensures
        r@ == trim_of(s@),
        s@.len() == 0 ==> r@.len() == 0,
{
    s.trim()
}

/// The sequence with every leading path separator removed.
pub open spec fn spec_strip(s: Seq<char>) -> Seq<char>
    decreases s.len(),
{
    if s.len() > 0 && s[0] == '/' {
        spec_strip(s.subrange(1, s.len() as int))
    } else {
        s
    }
}

/// A stripped sequence never begins with a separator.
proof fn lemma_strip_no_leading_separator(s: Seq<char>)
    ensures
        spec_strip(s).len() == 0 || spec_strip(s)[0] != '/',
    decreases s.len(),
{
    if s.len() > 0 && s[0] == '/' {
        lemma_strip_no_leading_separator(s.subrange(1, s.len() as int));
    }
}

/// Stripping leading separators is idempotent: stripping twice equals
/// stripping once.
pub proof fn lemma_strip_idempotent(s: Seq<char>)
    ensures
        spec_strip(spec_strip(s)) == spec_strip(s),
{
    lemma_strip_no_leading_separator(s);
}

/// Removes every leading path separator from a server-provided path, so
/// that joining it onto a local destination directory cannot escape it.
pub fn strip_leading_separator(path: &str) -> (r: String)
    ensures
        r@ == spec_strip(path@),
{
    let len = path.unicode_len();
    let mut i: usize = 0;
    proof {
        assert(path@.subrange(0, len as int) =~= path@);
    }
    while i < len && path.get_char(i) == '/'
        invariant
            i <= len,
            len == path@.len(),
            spec_strip(path@) == spec_strip(path@.subrange(i as int, len as int)),
        decreases len - i,
    {
        proof {
            let tail = path@.subrange(i as int, len as int);
            assert(tail[0] == '/');
            assert(tail.subrange(1, tail.len() as int) =~= path@.subrange(
                i + 1,
                len as int,
            ));
        }
        i = i + 1;
    }
    let rest = path.substring_char(i, len);
    proof {
        let tail = path@.subrange(i as int, len as int);
        if i < len {
            assert(tail[0] != '/');
        }
        assert(spec_strip(tail) == tail);
        assert(rest@ =~= spec_strip(path@));
    }
    String::from_str(rest)
}

/// The attachment path formed from a directory (already stripped of its
/// leading separator) and a file name: the two joined by a single
/// separator, which is not doubled and not added after an empty directory.
pub open spec fn spec_join_path(dir: Seq<char>, name: Seq<char>) -> Seq<char> {
    if dir.len() == 0 {
        name
    } else if dir[dir.len() - 1] == '/' {
        dir + name
    } else {
        dir + seq!['/'] + name
    }
}

/// Joins a directory and a file name as `spec_join_path` states.
pub fn join_path(dir: &str, name: &str) -> (r: String)
    ensures
        r@ == spec_join_path(dir@, name@),
{
    let len = dir.unicode_len();
    if len == 0 {
        return String::from_str(name);
    }
    let mut s = String::from_str(dir);
    if dir.get_char(len - 1) != '/' {
        s.append("/");
        proof {
            reveal_strlit("/");
            assert(s@ =~= dir@ + seq!['/']);
        }
    }
    s.append(name);
    proof {
        assert(s@ =~= spec_join_path(dir@, name@));
    }
    s
}

} // verus!
