use vstd::prelude::*;

use crate::translators::helpers::{spec_split, split_on_char, str_eq};

verus! {

/// The language table behind the code generator: one header per
/// provider vocabulary, one row per language, one optional code per
/// cell. Reading the table in and writing it back out are the
/// embedding's part.
#[derive(Debug, PartialEq, Eq)]
pub struct Records {
    pub headers: Vec<String>,
    pub records: Vec<Vec<Option<String>>>,
}

/// The uppercase of one lowercase ASCII letter; any other character
/// stays.
pub open spec fn spec_upper(c: char) -> char {
    if c == 'a' {
        'A'
    } else if c == 'b' {
        'B'
    } else if c == 'c' {
        'C'
    } else if c == 'd' {
        'D'
    } else if c == 'e' {
        'E'
    } else if c == 'f' {
        'F'
    } else if c == 'g' {
        'G'
    } else if c == 'h' {
        'H'
    } else if c == 'i' {
        'I'
    } else if c == 'j' {
        'J'
    } else if c == 'k' {
        'K'
    } else if c == 'l' {
        'L'
    } else if c == 'm' {
        'M'
    } else if c == 'n' {
        'N'
    } else if c == 'o' {
        'O'
    } else if c == 'p' {
        'P'
    } else if c == 'q' {
        'Q'
    } else if c == 'r' {
        'R'
    } else if c == 's' {
        'S'
    } else if c == 't' {
        'T'
    } else if c == 'u' {
        'U'
    } else if c == 'v' {
        'V'
    } else if c == 'w' {
        'W'
    } else if c == 'x' {
        'X'
    } else if c == 'y' {
        'Y'
    } else if c == 'z' {
        'Z'
    } else {
        c
    }
}

fn upper_char(c: char) -> (r: char)
    ensures
        r == spec_upper(c),
{
    match c {
        'a' => 'A',
        'b' => 'B',
        'c' => 'C',
        'd' => 'D',
        'e' => 'E',
        'f' => 'F',
        'g' => 'G',
        'h' => 'H',
        'i' => 'I',
        'j' => 'J',
        'k' => 'K',
        'l' => 'L',
        'm' => 'M',
        'n' => 'N',
        'o' => 'O',
        'p' => 'P',
        'q' => 'Q',
        'r' => 'R',
        's' => 'S',
        't' => 'T',
        'u' => 'U',
        'v' => 'V',
        'w' => 'W',
        'x' => 'X',
        'y' => 'Y',
        'z' => 'Z',
        _ => c,
    }
}

/// The view of a titlecased word: the first character uppercased.
pub open spec fn spec_titlecase(s: Seq<char>) -> Seq<char> {
    if s.len() == 0 {
        s
    } else {
        seq![spec_upper(s[0])] + s.skip(1)
    }
}

/// The view of a name turned into an identifier: each space-separated
/// word titlecased, the words run together.
pub open spec fn spec_format_to_enum(s: Seq<char>) -> Seq<char> {
    spec_concat_titlecased(spec_split(s, ' '))
}

/// Each piece titlecased, then all pieces concatenated.
pub open spec fn spec_concat_titlecased(parts: Seq<Seq<char>>) -> Seq<char>
    decreases parts.len(),
{
    if parts.len() == 0 {
        Seq::empty()
    } else {
        spec_titlecase(parts[0]) + spec_concat_titlecased(parts.skip(1))
    }
}

proof fn lemma_concat_titlecased_take_step(parts: Seq<Seq<char>>, i: int)
    requires
        0 <= i < parts.len(),
    ensures
        spec_concat_titlecased(parts.take(i + 1)) == spec_concat_titlecased(parts.take(i))
            + spec_titlecase(parts[i]),
    decreases i,
{
    if i == 0 {
        assert(spec_concat_titlecased(Seq::<Seq<char>>::empty()) == Seq::<char>::empty());
        assert(parts.take(1) =~= seq![parts[0]]);
        assert(parts.take(1).skip(1) =~= Seq::<Seq<char>>::empty());
        assert(spec_concat_titlecased(parts.take(1)) == spec_titlecase(parts[0])
            + spec_concat_titlecased(parts.take(1).skip(1)));
        assert(spec_titlecase(parts[0]) + Seq::<char>::empty() =~= spec_titlecase(parts[0]));
        assert(parts.take(0) =~= Seq::<Seq<char>>::empty());
        assert(spec_concat_titlecased(parts.take(0)) + spec_titlecase(parts[0]) =~= spec_titlecase(
            parts[0],
        ));
    } else {
        let sub = parts.skip(1);
        lemma_concat_titlecased_take_step(sub, i - 1);
        assert(parts.take(i + 1).skip(1) =~= sub.take(i));
        assert(parts.take(i).skip(1) =~= sub.take(i - 1));
        assert(spec_concat_titlecased(parts.take(i + 1)) == spec_titlecase(parts[0])
            + spec_concat_titlecased(sub.take(i)));
        assert(spec_concat_titlecased(parts.take(i)) == spec_titlecase(parts[0])
            + spec_concat_titlecased(sub.take(i - 1)));
        assert((spec_titlecase(parts[0]) + (spec_concat_titlecased(sub.take(i - 1))
            + spec_titlecase(sub[i - 1]))) =~= ((spec_titlecase(parts[0])
            + spec_concat_titlecased(sub.take(i - 1))) + spec_titlecase(sub[i - 1])));
    }
}

/// True where some cell of a row carries exactly this text.
pub open spec fn spec_row_has(row: Seq<Option<String>>, val: Seq<char>) -> bool {
    exists|j: int| 0 <= j < row.len() && (#[trigger] row[j] matches Some(s) && s@ == val)
}

/// The first of the candidate values that a row carries, where any does.
pub open spec fn spec_first_match(row: Seq<Option<String>>, values: Seq<String>) -> Option<
    Seq<char>,
>
    decreases values.len(),
{
    if values.len() == 0 {
        None
    } else if spec_row_has(row, values[0]@) {
        Some(values[0]@)
    } else {
        spec_first_match(row, values.skip(1))
    }
}

impl Records {
    /// Titlecases a word: its first character is uppercased.
    pub fn make_ascii_titlecase(s: &str) -> (r: String)
        ensures
            r@ == spec_titlecase(s@),
    {
        let n = s.unicode_len();
        if n == 0 {
            return s.to_owned();
        }
        let mut r = String::new();
        r.push(upper_char(s.get_char(0)));
        r.append(s.substring_char(1, n));
        proof {
            assert(s@.subrange(1, s@.len() as int) =~= s@.skip(1));
            assert(r@ =~= spec_titlecase(s@));
        }
        r
    }

    /// Turns a language name into the identifier the generated code
    /// uses: every space-separated word titlecased and run together.
    pub fn format_to_enum(s: &str) -> (r: String)
        ensures
            r@ == spec_format_to_enum(s@),
    {
        let items = split_on_char(s, ' ');
        let ghost views = items@.map_values(|p: String| p@);
        let mut r = String::new();
        let mut i: usize = 0;
        proof {
            assert(views.take(0) =~= Seq::<Seq<char>>::empty());
        }
        while i < items.len()
            invariant
                i <= items@.len(),
                views == items@.map_values(|p: String| p@),
                views == spec_split(s@, ' '),
                r@ == spec_concat_titlecased(views.take(i as int)),
            decreases items@.len() - i,
        {
            proof {
                lemma_concat_titlecased_take_step(views, i as int);
            }
            r.append(Self::make_ascii_titlecase(items[i].as_str()).as_str());
            i += 1;
        }
        proof {
            assert(views.take(items@.len() as int) == views);
        }
        r
    }

    /// Appends one provider column: the header behind the headers, and
    /// per row the first of the provider's codes that the row already
    /// carries, or an empty cell.
    pub fn add_line(&mut self, header: &str, values: &[String])
        ensures
            final(self).headers@.len() == old(self).headers@.len() + 1,
            final(self).headers@.last()@ == header@,
            final(self).headers@.take(old(self).headers@.len() as int) == old(self).headers@,
            final(self).records@.len() == old(self).records@.len(),
            forall|r: int|
                #![trigger final(self).records@[r]]
                0 <= r < old(self).records@.len() ==> final(self).records@[r]@.len() == old(
                    self,
                ).records@[r]@.len() + 1 && final(self).records@[r]@.take(
                    old(self).records@[r]@.len() as int,
                ) == old(self).records@[r]@ && (match spec_first_match(
                    old(self).records@[r]@,
                    values@,
                ) {
                    Some(v) => final(self).records@[r]@.last() matches Some(s) && s@ == v,
                    None => final(self).records@[r]@.last() is None,
                }),
    {
        self.headers.push(header.to_owned());
        let n = self.records.len();
        let mut r: usize = 0;
        while r < n
            invariant
                n == self.records@.len(),
                r <= n,
                self.headers@.len() == old(self).headers@.len() + 1,
                self.headers@.last()@ == header@,
                self.headers@.take(old(self).headers@.len() as int) == old(self).headers@,
                self.records@.len() == old(self).records@.len(),
                forall|k: int|
                    r <= k < n ==> self.records@[k] == old(self).records@[k],
                forall|k: int|
                    0 <= k < r ==> self.records@[k]@.len() == old(self).records@[k]@.len() + 1
                        && self.records@[k]@.take(old(self).records@[k]@.len() as int) == old(
                        self,
                    ).records@[k]@ && (match spec_first_match(old(self).records@[k]@, values@) {
                        Some(v) => self.records@[k]@.last() matches Some(s) && s@ == v,
                        None => self.records@[k]@.last() is None,
                    }),
            decreases n - r,
        {
            let found = Self::first_match(&self.records[r], values);
            let ghost pre_row = self.records@[r as int]@;
            let row = &mut self.records[r];
            row.push(found);
            proof {
                assert(self.records@[r as int]@.take(pre_row.len() as int) =~= pre_row);
            }
            r += 1;
        }
    }

    fn first_match(row: &Vec<Option<String>>, values: &[String]) -> (r: Option<String>)
        ensures
            match spec_first_match(row@, values@) {
                Some(v) => r matches Some(s) && s@ == v,
                None => r is None,
            },
    {
        let mut i: usize = 0;
        proof {
            assert(values@.skip(0) =~= values@);
        }
        while i < values.len()
            invariant
                i <= values@.len(),
                spec_first_match(row@, values@) == spec_first_match(row@, values@.skip(i as int)),
            decreases values@.len() - i,
        {
            let mut j: usize = 0;
            let mut has: bool = false;
            while j < row.len()
                invariant
                    j <= row@.len(),
                    i < values@.len(),
                    has == exists|l: int|
                        0 <= l < j && (#[trigger] row@[l] matches Some(s) && s@ == values@[
                            i as int
                        ]@),
                decreases row@.len() - j,
            {
                match &row[j] {
                    Some(s) => {
                        if str_eq(s.as_str(), values[i].as_str()) {
                            has = true;
                        }
                    },
                    None => {},
                }
                j += 1;
            }
            proof {
                assert(has == spec_row_has(row@, values@[i as int]@));
                assert(values@.skip(i as int)[0] == values@[i as int]);
                assert(values@.skip(i as int).skip(1) =~= values@.skip(i + 1));
            }
            if has {
                return Some(values[i].clone());
            }
            i += 1;
        }
        proof {
            assert(values@.skip(values@.len() as int).len() == 0);
        }
        None
    }
}

/// The pairs one provider column yields: for every row whose cell under
/// the column carries a code, the row's language identifier beside that
/// code, in row order.
pub open spec fn spec_column_pairs(recs: Seq<Vec<Option<String>>>, c: int) -> Seq<
    (Seq<char>, Seq<char>),
>
    decreases recs.len(),
{
    if recs.len() == 0 {
        Seq::empty()
    } else {
        spec_column_pairs(recs.drop_last(), c) + (match recs.last()@[c] {
            Some(v) => seq![
                (spec_format_to_enum(recs.last()@[0]->0@), v@),
            ],
            None => Seq::empty(),
        })
    }
}

impl Records {
    /// One entry per header: the header's name beside the pairs its
    /// column yields. Rows must carry a name and one cell per header.
    pub fn format_data(&self) -> (r: Vec<(String, Vec<(String, String)>)>)
        requires
            forall|k: int|
                0 <= k < self.records@.len() ==> (#[trigger] self.records@[k])@.len()
                    >= self.headers@.len() && self.records@[k]@.len() > 0
                    && self.records@[k]@[0] is Some,
        ensures
            r@.len() == self.headers@.len(),
            forall|c: int|
                0 <= c < r@.len() ==> (#[trigger] r@[c]).0@ == self.headers@[c]@ && r@[c].1@.map_values(
                    |p: (String, String)| (p.0@, p.1@),
                ) == spec_column_pairs(self.records@, c),
    {
        let mut res: Vec<(String, Vec<(String, String)>)> = Vec::new();
        let mut c: usize = 0;
        while c < self.headers.len()
            invariant
                forall|k: int|
                    0 <= k < self.records@.len() ==> (#[trigger] self.records@[k])@.len()
                        >= self.headers@.len() && self.records@[k]@.len() > 0
                        && self.records@[k]@[0] is Some,
                c <= self.headers@.len(),
                res@.len() == c,
                forall|d: int|
                    0 <= d < c ==> (#[trigger] res@[d]).0@ == self.headers@[d]@ && res@[d].1@.map_values(
                        |p: (String, String)| (p.0@, p.1@),
                    ) == spec_column_pairs(self.records@, d),
            decreases self.headers@.len() - c,
        {
            let mut pairs: Vec<(String, String)> = Vec::new();
            let mut k: usize = 0;
            proof {
                assert(self.records@.take(0) =~= Seq::<Vec<Option<String>>>::empty());
            }
            while k < self.records.len()
                invariant
                    forall|l: int|
                        0 <= l < self.records@.len() ==> (#[trigger] self.records@[l])@.len()
                            >= self.headers@.len() && self.records@[l]@.len() > 0
                            && self.records@[l]@[0] is Some,
                    c < self.headers@.len(),
                    k <= self.records@.len(),
                    pairs@.map_values(|p: (String, String)| (p.0@, p.1@)) == spec_column_pairs(
                        self.records@.take(k as int),
                        c as int,
                    ),
                decreases self.records@.len() - k,
            {
                proof {
                    assert(self.records@.take(k + 1).drop_last() =~= self.records@.take(k as int));
                    assert(self.records@.take(k + 1).last() == self.records@[k as int]);
                }
                let row = &self.records[k];
                match &row[c] {
                    Some(v) => {
                        let name = match &row[0] {
                            Some(n) => Self::format_to_enum(n.as_str()),
                            None => unreached(),
                        };
                        let ghost pre = pairs@.map_values(|p: (String, String)| (p.0@, p.1@));
                        pairs.push((name, v.clone()));
                        proof {
                            assert(pairs@.map_values(|p: (String, String)| (p.0@, p.1@)) =~= pre
                                + seq![
                                (
                                    spec_format_to_enum(self.records@[k as int]@[0]->0@),
                                    self.records@[k as int]@[c as int]->0@,
                                ),
                            ]);
                        }
                    },
                    None => {
                        proof {
                            assert(pairs@.map_values(|p: (String, String)| (p.0@, p.1@))
                                + Seq::<(Seq<char>, Seq<char>)>::empty() =~= pairs@.map_values(
                                |p: (String, String)| (p.0@, p.1@),
                            ));
                        }
                    },
                }
                k += 1;
            }
            proof {
                assert(self.records@.take(self.records@.len() as int) =~= self.records@);
            }
            res.push((self.headers[c].clone(), pairs));
            c += 1;
        }
        res
    }
}

} // verus!
