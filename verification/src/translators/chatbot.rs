use vstd::prelude::*;

use crate::error::Error;
use crate::languages::Language;
use crate::translators::helpers::{
    spec_dec_str, spec_split, split_on_char, str_eq, usize_to_string,
};
use crate::translators::translator_structure::TranslationVecOutput;

verus! {

/// The fixed opening of a generative prompt, after any context hint.
pub open spec fn spec_query_head(context: Option<Seq<char>>, target: Seq<char>) -> Seq<char> {
    (match context {
        Some(c) => c + ". "@,
        None => Seq::<char>::empty(),
    }) + "Can you translate these sentences to "@ + target
        + "? Please keep the numbering! The output formatting should be the same as the input: "@
}

/// The first `n` queries rendered as numbered lines, one-based.
pub open spec fn spec_numbered(queries: Seq<Seq<char>>, n: int) -> Seq<char>
    decreases n,
{
    if n <= 0 {
        Seq::empty()
    } else {
        spec_numbered(queries, n - 1) + "\n"@ + spec_dec_str(n as nat) + ": "@ + queries[n - 1]
    }
}

/// Generate text for the generative providers: the prompt asking for a
/// numbered translation of every query.
pub fn generate_query(queries: &[String], target: &str, context: Option<&str>) -> (r: Result<
    String,
    Error,
>)
    ensures
        r matches Ok(q) && q@ == spec_query_head(
            match context {
                Some(c) => Some(c@),
                None => None,
            },
            target@,
        ) + spec_numbered(queries@.map_values(|s: String| s@), queries@.len() as int),
{
    let ghost views = queries@.map_values(|s: String| s@);
    let mut query: String = String::new();
    match context {
        Some(c) => {
            query.append(c);
            query.append(". ");
        },
        None => {},
    }
    query.append("Can you translate these sentences to ");
    query.append(target);
    query.append("? Please keep the numbering! The output formatting should be the same as the input: ");
    let ghost head = query@;
    let mut i: usize = 0;
    while i < queries.len()
        invariant
            i <= queries@.len(),
            views == queries@.map_values(|s: String| s@),
            query@ == head + spec_numbered(views, i as int),
        decreases queries@.len() - i,
    {
        query.append("\n");
        query.append(usize_to_string(i + 1).as_str());
        query.append(": ");
        query.append(queries[i].as_str());
        i += 1;
    }
    Ok(query)
}

/// The position of the first `": "` separator of a line, where it has
/// one.
pub open spec fn spec_find_sep(line: Seq<char>) -> Option<int>
    decreases line.len(),
{
    if line.len() < 2 {
        None
    } else if line[0] == ':' && line[1] == ' ' {
        Some(0)
    } else {
        match spec_find_sep(line.skip(1)) {
            Some(k) => Some(k + 1),
            None => None,
        }
    }
}

/// The number a digit run denotes, most significant digit first.
pub open spec fn spec_dec_val(s: Seq<char>) -> nat
    decreases s.len(),
{
    if s.len() == 0 {
        0
    } else {
        spec_dec_val(s.take(s.len() - 1)) * 10 + spec_digit_val(s.last())
    }
}

/// The value of one digit character.
pub open spec fn spec_digit_val(c: char) -> nat {
    if c == '0' {
        0
    } else if c == '1' {
        1
    } else if c == '2' {
        2
    } else if c == '3' {
        3
    } else if c == '4' {
        4
    } else if c == '5' {
        5
    } else if c == '6' {
        6
    } else if c == '7' {
        7
    } else if c == '8' {
        8
    } else {
        9
    }
}

/// True of a digit character.
pub open spec fn spec_is_digit(c: char) -> bool {
    c == '0' || c == '1' || c == '2' || c == '3' || c == '4' || c == '5' || c == '6' || c == '7'
        || c == '8' || c == '9'
}

/// A decimal text's digit run: what follows an optional leading plus
/// sign.
pub open spec fn spec_digits_of(s: Seq<char>) -> Seq<char> {
    if s.len() > 0 && s[0] == '+' {
        s.skip(1)
    } else {
        s
    }
}

/// True where every character of a run is a digit.
pub open spec fn spec_all_digits(ds: Seq<char>) -> bool {
    forall|i: int| 0 <= i < ds.len() ==> spec_is_digit(#[trigger] ds[i])
}

/// What a decimal text denotes: the value of its digits, after an
/// optional leading plus sign; nothing for an empty or non-digit text.
pub open spec fn spec_parse_number(s: Seq<char>) -> Option<nat> {
    if spec_digits_of(s).len() > 0 && spec_all_digits(spec_digits_of(s)) {
        Some(spec_dec_val(spec_digits_of(s)))
    } else {
        None
    }
}

fn digit_val(c: char) -> (r: Option<u32>)
    ensures
        r is Some <==> spec_is_digit(c),
        r matches Some(v) ==> v == spec_digit_val(c) && v <= 9,
{
    match c {
        '0' => Some(0),
        '1' => Some(1),
        '2' => Some(2),
        '3' => Some(3),
        '4' => Some(4),
        '5' => Some(5),
        '6' => Some(6),
        '7' => Some(7),
        '8' => Some(8),
        '9' => Some(9),
        _ => None,
    }
}

/// Parses a one-based line number; fails on non-digit text and on a
/// value that does not fit the machine.
#[verifier::loop_isolation(false)]
pub(crate) fn parse_number(s: &str) -> (r: Option<usize>)
    ensures
        r matches Some(v) ==> (spec_parse_number(s@) matches Some(n) && n == v),
        r is None ==> spec_parse_number(s@) is None || (spec_parse_number(s@) matches Some(n) && n
            > usize::MAX),
{
    let n = s.unicode_len();
    let mut start: usize = 0;
    if n > 0 && s.get_char(0) == '+' {
        start = 1;
    }
    if start >= n {
        return None;
    }
    let ghost ds = spec_digits_of(s@);
    let mut acc: usize = 0;
    let mut i: usize = start;
    proof {
        assert(ds.take(0) =~= Seq::<char>::empty());
    }
    while i < n
        invariant
            start <= 1,
            start <= i <= n,
            n == s@.len(),
            start == 1 ==> s@[0] == '+',
            start == 0 ==> s@.len() == 0 || s@[0] != '+',
            ds == spec_digits_of(s@),
            n - start == ds.len(),
            forall|j: int| 0 <= j < i - start ==> spec_is_digit(#[trigger] ds[j]),
            acc == spec_dec_val(ds.take(i - start)),
        decreases n - i,
    {
        let c = s.get_char(i);
        match digit_val(c) {
            None => {
                proof {
                    assert(spec_digits_of(s@)[i - start] == c);
                    assert(!spec_is_digit(spec_digits_of(s@)[i - start]));
                    assert(0 <= i - start < spec_digits_of(s@).len());
                    assert(!spec_all_digits(spec_digits_of(s@)));
                    assert(spec_parse_number(s@) is None);
                }
                return None;
            },
            Some(d) => {
                proof {
                    assert(ds[i - start] == c);
                    assert(ds.take(i + 1 - start).drop_last() =~= ds.take(i - start));
                    assert(ds.take(i + 1 - start).last() == ds[i - start]);
                }
                if acc > (usize::MAX - d as usize) / 10 {
                    proof {
                        lemma_dec_val_monotone(ds, i + 1 - start);
                        vstd::arithmetic::div_mod::lemma_fundamental_div_mod(
                            (usize::MAX - d as usize) as int,
                            10,
                        );
                        assert(spec_dec_val(ds.take(i + 1 - start)) == acc * 10 + spec_digit_val(
                            ds[i - start],
                        ));
                        assert(acc * 10 + d > usize::MAX);
                    }
                    return None;
                }
                acc = acc * 10 + d as usize;
            },
        }
        i += 1;
    }
    proof {
        assert(ds.take(ds.len() as int) =~= ds);
    }
    Some(acc)
}

/// A longer digit run denotes at least what its prefix denotes.
proof fn lemma_dec_val_monotone(ds: Seq<char>, k: int)
    requires
        0 < k <= ds.len(),
    ensures
        spec_dec_val(ds.take(k)) >= spec_dec_val(ds.take(k - 1)),
        spec_dec_val(ds) >= spec_dec_val(ds.take(k)),
    decreases ds.len() - k,
{
    assert(ds.take(k).drop_last() =~= ds.take(k - 1));
    if k == ds.len() {
        assert(ds.take(k) =~= ds);
    } else {
        lemma_dec_val_monotone(ds, k + 1);
    }
}

/// One parsed entry list: entries keyed by zero-based index, later lines
/// replacing earlier ones with the same number. Nothing where a line
/// with a separator carries no usable number (no number, a zero, or one
/// beyond the machine).
pub open spec fn spec_collect(lines: Seq<Seq<char>>) -> Option<Seq<(int, Seq<char>)>>
    decreases lines.len(),
{
    if lines.len() == 0 {
        Some(Seq::empty())
    } else {
        match spec_collect(lines.drop_last()) {
            None => None,
            Some(acc) => {
                let line = lines.last();
                match spec_find_sep(line) {
                    None => Some(acc),
                    Some(k) => match spec_parse_number(line.take(k)) {
                        None => None,
                        Some(nv) => if nv == 0 || nv > usize::MAX {
                            None
                        } else {
                            Some(spec_assoc_set(acc, nv - 1, line.skip(k + 2)))
                        },
                    },
                }
            },
        }
    }
}

/// An entry list with one key bound to a text: the key's entry replaced
/// where it exists, else appended.
pub open spec fn spec_assoc_set(acc: Seq<(int, Seq<char>)>, key: int, val: Seq<char>) -> Seq<
    (int, Seq<char>),
>
    decreases acc.len(),
{
    if acc.len() == 0 {
        seq![(key, val)]
    } else if acc[0].0 == key {
        seq![(key, val)] + acc.skip(1)
    } else {
        seq![acc[0]] + spec_assoc_set(acc.skip(1), key, val)
    }
}

/// The text bound to a key of an entry list.
pub open spec fn spec_assoc_get(acc: Seq<(int, Seq<char>)>, key: int) -> Option<Seq<char>>
    decreases acc.len(),
{
    if acc.len() == 0 {
        None
    } else if acc[0].0 == key {
        Some(acc[0].1)
    } else {
        spec_assoc_get(acc.skip(1), key)
    }
}

proof fn lemma_collect_none_extends(lines: Seq<Seq<char>>, k: int)
    requires
        0 <= k <= lines.len(),
        spec_collect(lines.take(k)) is None,
    ensures
        spec_collect(lines) is None,
    decreases lines.len() - k,
{
    if k < lines.len() {
        assert(lines.take(k + 1).drop_last() =~= lines.take(k));
        lemma_collect_none_extends(lines, k + 1);
    } else {
        assert(lines.take(k) =~= lines);
    }
}

struct NumberedEntries {
    entries: Vec<(usize, String)>,
}

impl NumberedEntries {
    spec fn view_entries(self) -> Seq<(int, Seq<char>)> {
        self.entries@.map_values(|e: (usize, String)| (e.0 as int, e.1@))
    }

    fn new() -> (r: Self)
        ensures
            r.view_entries() =~= Seq::<(int, Seq<char>)>::empty(),
    {
        NumberedEntries { entries: Vec::new() }
    }

    #[verifier::loop_isolation(false)]
    fn set(&mut self, key: usize, val: String)
        ensures
            final(self).view_entries() == spec_assoc_set(old(self).view_entries(), key as int, val@),
        decreases old(self).entries@.len(),
    {
        let mut i: usize = 0;
        let n = self.entries.len();
        let ghost orig = self.view_entries();
        proof {
            assert(orig.skip(0) =~= orig);
            assert(orig.take(0) =~= Seq::<(int, Seq<char>)>::empty());
            assert(orig.take(0) + spec_assoc_set(orig.skip(0), key as int, val@) =~= spec_assoc_set(
                orig,
                key as int,
                val@,
            ));
        }
        while i < n
            invariant
                n == self.entries@.len(),
                i <= n,
                orig == self.view_entries(),
                forall|j: int| 0 <= j < i ==> self.entries@[j].0 != key,
                spec_assoc_set(orig, key as int, val@) == orig.take(i as int) + spec_assoc_set(
                    orig.skip(i as int),
                    key as int,
                    val@,
                ),
            decreases n - i,
        {
            proof {
                assert(orig.skip(i as int)[0] == orig[i as int]);
            }
            if self.entries[i].0 == key {
                let ghost pre = self.view_entries();
                self.entries.set(i, (key, val));
                proof {
                    assert(orig.skip(i as int).skip(1) =~= orig.skip(i + 1));
                    assert(spec_assoc_set(orig.skip(i as int), key as int, val@) == seq![
                        (key as int, val@),
                    ] + orig.skip(i + 1));
                    assert(self.view_entries() =~= orig.update(i as int, (key as int, val@)));
                    assert(orig.update(i as int, (key as int, val@)) =~= orig.take(i as int) + (
                    seq![(key as int, val@)] + orig.skip(i + 1)));
                    assert(self.view_entries() == spec_assoc_set(orig, key as int, val@));
                }
                return ;
            }
            proof {
                assert(orig.skip(i as int).skip(1) =~= orig.skip(i + 1));
                assert(orig.take(i + 1) =~= orig.take(i as int).push(orig[i as int]));
                assert((orig.take(i as int) + (seq![orig[i as int]] + spec_assoc_set(
                    orig.skip(i + 1),
                    key as int,
                    val@,
                ))) =~= (orig.take(i + 1) + spec_assoc_set(orig.skip(i + 1), key as int, val@)));
            }
            i += 1;
        }
        self.entries.push((key, val));
        proof {
            assert(orig.skip(n as int) =~= Seq::<(int, Seq<char>)>::empty());
            assert(spec_assoc_set(orig.skip(n as int), key as int, val@) =~= seq![
                (key as int, val@),
            ]);
            assert(self.view_entries() =~= orig.take(n as int) + seq![(key as int, val@)]);
        }
    }

    #[verifier::loop_isolation(false)]
    fn get(&self, key: usize) -> (r: Option<&String>)
        ensures
            match spec_assoc_get(self.view_entries(), key as int) {
                Some(v) => r matches Some(s) && s@ == v,
                None => r is None,
            },
        decreases self.entries@.len(),
    {
        let mut i: usize = 0;
        let n = self.entries.len();
        let ghost orig = self.view_entries();
        proof {
            assert(orig.skip(0) =~= orig);
        }
        while i < n
            invariant
                n == self.entries@.len(),
                i <= n,
                orig == self.view_entries(),
                spec_assoc_get(orig, key as int) == spec_assoc_get(
                    orig.skip(i as int),
                    key as int,
                ),
            decreases n - i,
        {
            proof {
                assert(orig.skip(i as int)[0] == orig[i as int]);
                assert(orig.skip(i as int).skip(1) =~= orig.skip(i + 1));
            }
            if self.entries[i].0 == key {
                return Some(&self.entries[i].1);
            }
            i += 1;
        }
        proof {
            assert(orig.skip(n as int) =~= Seq::<(int, Seq<char>)>::empty());
        }
        None
    }

    fn len(&self) -> (r: usize)
        ensures
            r == self.view_entries().len(),
    {
        self.entries.len()
    }
}

/// Extract translations from a numbered response: each line of the form
/// `number: text` binds a one-based line number, later lines replacing
/// earlier ones; the response must bind exactly one text to every query
/// and nothing else, and the result keeps query order. The result's
/// language is the `Unknown` sentinel, since the provider does not
/// declare one.
#[verifier::loop_isolation(false)]
pub fn process_result(s: String, queries: &[String]) -> (r: Result<TranslationVecOutput, Error>)
    ensures
        r is Ok <==> (spec_collect(spec_split(s@, '\n')) matches Some(list) && list.len()
            == queries@.len() && (forall|i: int|
            0 <= i < queries@.len() ==> spec_assoc_get(list, i) is Some)),
        r matches Ok(out) ==> (spec_collect(spec_split(s@, '\n')) matches Some(list) && {
            &&& out.lang is Unknown
            &&& out.text@.len() == queries@.len()
            &&& forall|i: int|
                0 <= i < queries@.len() ==> (#[trigger] out.text@[i])@ == spec_assoc_get(
                    list,
                    i,
                )->0
        }),
{
    let lines = split_on_char(s.as_str(), '\n');
    let ghost line_views = lines@.map_values(|p: String| p@);
    let mut translated = NumberedEntries::new();
    let mut li: usize = 0;
    proof {
        assert(line_views.take(0) =~= Seq::<Seq<char>>::empty());
        assert(spec_collect(line_views.take(0)) == Some(Seq::<(int, Seq<char>)>::empty()));
    }
    while li < lines.len()
        invariant
            li <= lines@.len(),
            line_views == lines@.map_values(|p: String| p@),
            line_views == spec_split(s@, '\n'),
            spec_collect(line_views.take(li as int)) == Some(translated.view_entries()),
        decreases lines@.len() - li,
    {
        proof {
            assert(line_views.take(li + 1).drop_last() =~= line_views.take(li as int));
            assert(line_views.take(li + 1).last() == line_views[li as int]);
        }
        let line = &lines[li];
        match find_sep(line.as_str()) {
            None => {},
            Some(k) => {
                let n = line.as_str().unicode_len();
                let numpart = line.as_str().substring_char(0, k);
                proof {
                    assert(numpart@ =~= line_views[li as int].take(k as int));
                }
                match parse_number(numpart) {
                    None => {
                        proof {
                            assert(spec_collect(line_views.take(li + 1)) is None);
                            lemma_collect_none_extends(line_views, li + 1);
                        }
                        return Err(
                            Error::new(
                                "Failed to parse numbers for each prompt",
                                "invalid number",
                            ),
                        );
                    },
                    Some(num) => {
                        if num == 0 {
                            proof {
                                assert(spec_collect(line_views.take(li + 1)) is None);
                                lemma_collect_none_extends(line_views, li + 1);
                            }
                            return Err(
                                Error::new(
                                    "Failed to parse numbers for each prompt",
                                    "line numbers are one-based",
                                ),
                            );
                        }
                        let text = line.as_str().substring_char(k + 2, n).to_owned();
                        proof {
                            assert(text@ =~= line_views[li as int].skip(k + 2));
                        }
                        translated.set(num - 1, text);
                    },
                }
            },
        }
        li += 1;
    }
    proof {
        assert(line_views.take(lines@.len() as int) =~= line_views);
    }
    if translated.len() != queries.len() {
        let mut m: String = "Expected ".to_owned();
        m.append(usize_to_string(queries.len()).as_str());
        m.append(" translations, got ");
        m.append(usize_to_string(translated.len()).as_str());
        return Err(Error::new_option(m.as_str()));
    }
    let mut result: Vec<String> = Vec::new();
    let mut i: usize = 0;
    while i < queries.len()
        invariant
            i <= queries@.len(),
            spec_collect(spec_split(s@, '\n')) == Some(translated.view_entries()),
            translated.view_entries().len() == queries@.len(),
            result@.len() == i,
            forall|j: int|
                0 <= j < i ==> #[trigger] spec_assoc_get(translated.view_entries(), j) is Some,
            forall|j: int|
                0 <= j < i ==> (#[trigger] result@[j])@ == spec_assoc_get(
                    translated.view_entries(),
                    j,
                )->0,
        decreases queries@.len() - i,
    {
        match translated.get(i) {
            Some(v) => {
                result.push(v.clone());
            },
            None => {
                let mut m: String = "No translation for ".to_owned();
                m.append(queries[i].as_str());
                return Err(Error::new_option(m.as_str()));
            },
        }
        i += 1;
    }
    Ok(TranslationVecOutput { text: result, lang: Language::Unknown })
}

/// Finds the first `": "` separator of a line.
#[verifier::loop_isolation(false)]
fn find_sep(line: &str) -> (r: Option<usize>)
    ensures
        r is Some <==> spec_find_sep(line@) is Some,
        r matches Some(k) ==> spec_find_sep(line@) == Some(k as int) && k + 2 <= line@.len(),
{
    let n = line.unicode_len();
    if n < 2 {
        proof {
            assert(spec_find_sep(line@) is None);
        }
        return None;
    }
    let mut i: usize = 0;
    proof {
        assert(line@.skip(0) =~= line@);
    }
    while n - i >= 2
        invariant
            n == line@.len(),
            n >= 2,
            i <= n,
            spec_find_sep(line@) == (match spec_find_sep(line@.skip(i as int)) {
                Some(k) => Some(k + i),
                None => None,
            }),
        decreases n - i,
    {
        let c0 = line.get_char(i);
        let c1 = line.get_char(i + 1);
        proof {
            assert(line@.skip(i as int)[0] == line@[i as int]);
            assert(line@.skip(i as int)[1] == line@[i as int + 1]);
            assert(line@.skip(i as int).skip(1) =~= line@.skip(i + 1));
        }
        if c0 == ':' && c1 == ' ' {
            return Some(i);
        }
        i += 1;
    }
    proof {
        assert(line@.skip(i as int).len() < 2);
        assert(spec_find_sep(line@.skip(i as int)) is None);
    }
    None
}

} // verus!
