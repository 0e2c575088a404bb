use vstd::prelude::*;
use vstd::string::StringSliceAdditionalSpecFns;

use crate::error::Error;

verus! {

/// Relies on String::push of std: it appends the given character to the
/// end of the string.
pub assume_specification[ String::push ](s: &mut String, ch: char)
    ensures
        final(s)@ == old(s)@.push(ch),
;

/// True exactly of two strings with equal character sequences.
pub fn str_eq(a: &str, b: &str) -> (r: bool)
    ensures
        r == (a@ == b@),
{
    let x = a.to_owned();
    let y = b.to_owned();
    x == y
}

/// The view of one decimal digit.
pub open spec fn spec_digit(d: nat) -> Seq<char> {
    if d == 0 {
        "0"@
    } else if d == 1 {
        "1"@
    } else if d == 2 {
        "2"@
    } else if d == 3 {
        "3"@
    } else if d == 4 {
        "4"@
    } else if d == 5 {
        "5"@
    } else if d == 6 {
        "6"@
    } else if d == 7 {
        "7"@
    } else if d == 8 {
        "8"@
    } else {
        "9"@
    }
}

/// The decimal rendering of a natural number, most significant digit first.
pub open spec fn spec_dec_str(n: nat) -> Seq<char>
    decreases n,
{
    if n < 10 {
        spec_digit(n)
    } else {
        spec_dec_str(n / 10) + spec_digit(n % 10)
    }
}

fn digit_str(d: usize) -> (r: &'static str)
    requires
        d < 10,
    ensures
        r@ == spec_digit(d as nat),
{
    match d {
        0 => "0",
        1 => "1",
        2 => "2",
        3 => "3",
        4 => "4",
        5 => "5",
        6 => "6",
        7 => "7",
        8 => "8",
        _ => "9",
    }
}

/// Renders a number in decimal, for building messages and numbered
/// prompts.
pub fn usize_to_string(n: usize) -> (r: String)
    ensures
        r@ == spec_dec_str(n as nat),
    decreases n,
{
    if n < 10 {
        digit_str(n).to_owned()
    } else {
        let mut s = usize_to_string(n / 10);
        s.append(digit_str(n % 10));
        s
    }
}

/// Checks a query against a provider's input limit: the query passes
/// exactly when its byte length does not exceed the limit; the error
/// reports the limit and the excess.
pub fn input_limit_checker(query: &str, input_limit: u32) -> (r: Result<(), Error>)
    ensures
        r is Ok <==> query.spec_bytes().len() as usize <= input_limit as usize,
        r matches Err(e) ==> (e matches Error::Text(t) && t.message@ == "Input limit exceeded: "@
            + spec_dec_str(input_limit as nat) + " by "@ + spec_dec_str(
            (query.spec_bytes().len() as usize - input_limit as usize) as nat,
        ) && t.error is None),
{
    if query.len() > input_limit as usize {
        let mut m: String = "Input limit exceeded: ".to_owned();
        m.append(usize_to_string(input_limit as usize).as_str());
        m.append(" by ");
        m.append(usize_to_string(query.len() - input_limit as usize).as_str());
        return Err(Error::new_option(m.as_str()));
    }
    Ok(())
}

/// A sequence of character sequences joined with a separator.
pub open spec fn spec_join(parts: Seq<Seq<char>>, sep: Seq<char>) -> Seq<char>
    decreases parts.len(),
{
    if parts.len() == 0 {
        Seq::empty()
    } else if parts.len() == 1 {
        parts[0]
    } else {
        parts[0] + sep + spec_join(parts.skip(1), sep)
    }
}

proof fn lemma_join_take_step(parts: Seq<Seq<char>>, sep: Seq<char>, i: int)
    requires
        1 <= i < parts.len(),
    ensures
        spec_join(parts.take(i + 1), sep) == spec_join(parts.take(i), sep) + sep + parts[i],
    decreases i,
{
    if i == 1 {
        assert(parts.take(2).skip(1) =~= seq![parts[1]]);
        assert(spec_join(seq![parts[1]], sep) == parts[1]);
        assert(parts.take(2)[0] == parts[0]);
        assert(spec_join(parts.take(2), sep) == parts[0] + sep + spec_join(
            parts.take(2).skip(1),
            sep,
        ));
        assert(parts.take(1) =~= seq![parts[0]]);
        assert(spec_join(parts.take(1), sep) == parts[0]);
    } else {
        let sub = parts.skip(1);
        lemma_join_take_step(sub, sep, i - 1);
        assert(parts.take(i + 1).skip(1) =~= sub.take(i));
        assert(parts.take(i).skip(1) =~= sub.take(i - 1));
        assert(spec_join(parts.take(i + 1), sep) == parts[0] + sep + spec_join(sub.take(i), sep));
        assert(spec_join(parts.take(i), sep) == parts[0] + sep + spec_join(sub.take(i - 1), sep));
        assert((parts[0] + sep + (spec_join(sub.take(i - 1), sep) + sep + sub[i - 1])) =~= ((
        parts[0] + sep + spec_join(sub.take(i - 1), sep)) + sep + sub[i - 1]));
    }
}

/// Joins a list of strings with a separator.
pub fn join_with(parts: &Vec<String>, sep: &str) -> (r: String)
    ensures
        r@ == spec_join(parts@.map_values(|s: String| s@), sep@),
{
    let ghost views = parts@.map_values(|s: String| s@);
    let mut r = String::new();
    if parts.len() == 0 {
        return r;
    }
    let mut i: usize = 1;
    r.append(parts[0].as_str());
    proof {
        assert(views.take(1) =~= seq![views[0]]);
        assert(spec_join(seq![views[0]], sep@) == views[0]);
    }
    while i < parts.len()
        invariant
            1 <= i <= parts@.len(),
            views == parts@.map_values(|s: String| s@),
            r@ == spec_join(views.take(i as int), sep@),
        decreases parts@.len() - i,
    {
        proof {
            lemma_join_take_step(views, sep@, i as int);
        }
        r.append(sep);
        r.append(parts[i].as_str());
        i += 1;
    }
    proof {
        assert(views.take(parts@.len() as int) == views);
    }
    r
}

/// A character sequence split at every occurrence of a separator
/// character: always one piece more than there are separators, so two
/// adjacent separators enclose an empty piece.
pub open spec fn spec_split(s: Seq<char>, c: char) -> Seq<Seq<char>>
    decreases s.len(),
{
    if s.len() == 0 {
        seq![s]
    } else if s[0] == c {
        seq![Seq::<char>::empty()] + spec_split(s.skip(1), c)
    } else {
        let rest = spec_split(s.skip(1), c);
        seq![seq![s[0]] + rest[0]] + rest.skip(1)
    }
}

/// A split has at least its first piece.
pub proof fn lemma_split_len(s: Seq<char>, c: char)
    ensures
        spec_split(s, c).len() >= 1,
    decreases s.len(),
{
    if s.len() != 0 {
        lemma_split_len(s.skip(1), c);
    }
}

/// Splits a string at every occurrence of a character.
pub fn split_on_char(s: &str, c: char) -> (r: Vec<String>)
    ensures
        r@.map_values(|p: String| p@) == spec_split(s@, c),
{
    build_split(s, c)
}

fn build_split(s: &str, c: char) -> (r: Vec<String>)
    ensures
        r@.map_values(|p: String| p@) == spec_split(s@, c),
    decreases s@.len(),
{
    let n = s.unicode_len();
    if n == 0 {
        let mut r: Vec<String> = Vec::new();
        r.push(String::new());
        proof {
            assert(s@ =~= Seq::<char>::empty());
            assert(r@.map_values(|p: String| p@) =~~= spec_split(s@, c));
        }
        return r;
    }
    let first = s.get_char(0);
    let rest = s.substring_char(1, n);
    proof {
        assert(rest@ =~= s@.skip(1));
    }
    let mut tail = build_split(rest, c);
    if first == c {
        let mut r: Vec<String> = Vec::new();
        r.push(String::new());
        let ghost tailview = tail@;
        let mut t = tail;
        r.append(&mut t);
        proof {
            assert(r@.map_values(|p: String| p@) =~= seq![Seq::<char>::empty()]
                + tailview.map_values(|p: String| p@));
            assert(r@.map_values(|p: String| p@) =~= spec_split(s@, c));
        }
        r
    } else {
        proof {
            lemma_split_len(rest@, c);
            assert(tail@.len() >= 1);
        }
        let ghost tailview = tail@;
        let head = tail.remove(0);
        let mut piece = String::new();
        piece.push(first);
        piece.append(head.as_str());
        let mut r: Vec<String> = Vec::new();
        r.push(piece);
        let mut t = tail;
        r.append(&mut t);
        proof {
            assert(r@.map_values(|p: String| p@) =~= seq![seq![s@[0]] + tailview.map_values(
                |p: String| p@,
            )[0]] + tailview.map_values(|p: String| p@).skip(1));
            assert(r@.map_values(|p: String| p@) =~= spec_split(s@, c));
        }
        r
    }
}

/// Moves an error out of an option: `None` stays `None`, a carried
/// success is unwrapped, a carried error propagates.
pub fn option_error<T>(value: Option<Result<T, Error>>) -> (r: Result<Option<T>, Error>)
    ensures
        match value {
            None => r is Ok && (r matches Ok(o) && o is None),
            Some(inner) => match inner {
                Ok(v) => r matches Ok(o) && (o matches Some(w) && w == v),
                Err(e) => r matches Err(f) && f == e,
            },
        },
{
    match value {
        Some(v) => match v {
            Ok(x) => Ok(Some(x)),
            Err(e) => Err(e),
        },
        None => Ok(None),
    }
}

} // verus!
