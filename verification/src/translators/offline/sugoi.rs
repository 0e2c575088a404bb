use vstd::prelude::*;

use crate::error::Error;
use crate::languages::Language;
use crate::translators::offline::ctranslate2::Device;
use crate::translators::offline::ModelFormat;

verus! {

/// A local Japanese-to-English model bound to its on-disk assets.
pub struct SugoiTranslator {
    pub device: Device,
    pub base_path: String,
    pub model_format: ModelFormat,
    pub ident: String,
}

/// The pieces the sentence splitter cut one query into. The splitter is
/// outside code; everything after it is specified against this name.
pub uninterp spec fn sugoi_split_of(s: Seq<char>) -> Seq<Seq<char>>;

/// Relies on regex::Regex::split with the sentence pattern
/// `(\w[.‥…!?。・]+)`: the pieces depend on the query text alone.
#[verifier::external_body]
fn split_sentences(q: &str) -> (r: Vec<String>)
    ensures
        r@.map_values(|s: String| s@) == sugoi_split_of(q@),
{
    let re = regex::Regex::new(r"(\w[.‥…!?。・]+)").unwrap();
    re.split(q).map(|s| s.to_string()).collect()
}

/// The concatenation of a sequence of character sequences.
pub open spec fn spec_concat(parts: Seq<Seq<char>>) -> Seq<char>
    decreases parts.len(),
{
    if parts.len() == 0 {
        Seq::empty()
    } else {
        parts[0] + spec_concat(parts.skip(1))
    }
}

/// Every `.` and `。` replaced by `@`.
pub open spec fn spec_replace_dots(s: Seq<char>) -> Seq<char> {
    s.map_values(
        |c: char|
            if c == '.' || c == '\u{3002}' {
                '@'
            } else {
                c
            },
    )
}

fn concat_strs(parts: &[String]) -> (r: String)
    ensures
        r@ == spec_concat(parts@.map_values(|s: String| s@)),
    decreases parts@.len(),
{
    let ghost views = parts@.map_values(|s: String| s@);
    let mut r = String::new();
    let mut i: usize = 0;
    while i < parts.len()
        invariant
            i <= parts@.len(),
            views == parts@.map_values(|s: String| s@),
            r@ == spec_concat(views.take(i as int)),
        decreases parts@.len() - i,
    {
        proof {
            lemma_concat_take_step(views, i as int);
        }
        r.append(parts[i].as_str());
        i += 1;
    }
    proof {
        assert(views.take(parts@.len() as int) == views);
    }
    r
}

proof fn lemma_concat_take_step(parts: Seq<Seq<char>>, i: int)
    requires
        0 <= i < parts.len(),
    ensures
        spec_concat(parts.take(i + 1)) == spec_concat(parts.take(i)) + parts[i],
    decreases i,
{
    if i == 0 {
        assert(spec_concat(Seq::<Seq<char>>::empty()) == Seq::<char>::empty());
        assert(parts.take(1) =~= seq![parts[0]]);
        assert(parts.take(1).skip(1) =~= Seq::<Seq<char>>::empty());
        assert(spec_concat(parts.take(1)) == parts[0] + spec_concat(parts.take(1).skip(1)));
        assert(parts[0] + Seq::<char>::empty() =~= parts[0]);
        assert(parts.take(0) =~= Seq::<Seq<char>>::empty());
        assert(spec_concat(parts.take(0)) + parts[0] =~= parts[0]);
    } else {
        let sub = parts.skip(1);
        lemma_concat_take_step(sub, i - 1);
        assert(parts.take(i + 1).skip(1) =~= sub.take(i));
        assert(parts.take(i).skip(1) =~= sub.take(i - 1));
        assert(spec_concat(parts.take(i + 1)) == parts[0] + spec_concat(sub.take(i)));
        assert(spec_concat(parts.take(i)) == parts[0] + spec_concat(sub.take(i - 1)));
        assert((parts[0] + spec_concat(sub.take(i - 1))) + sub[i - 1] =~= parts[0] + (spec_concat(
            sub.take(i - 1),
        ) + sub[i - 1]));
    }
}

fn replace_dots(s: &str) -> (r: String)
    ensures
        r@ == spec_replace_dots(s@),
{
    let n = s.unicode_len();
    let mut r = String::new();
    let mut i: usize = 0;
    while i < n
        invariant
            i <= n,
            n == s@.len(),
            r@ == spec_replace_dots(s@).take(i as int),
        decreases n - i,
    {
        let c = s.get_char(i);
        let c2: char = if c == '.' || c == '\u{3002}' {
            '@'
        } else {
            c
        };
        r.push(c2);
        proof {
            assert(r@ =~= spec_replace_dots(s@).take(i + 1));
        }
        i += 1;
    }
    proof {
        assert(spec_replace_dots(s@).take(n as int) =~= spec_replace_dots(s@));
    }
    r
}

impl SugoiTranslator {
    /// The source language of a hop: Japanese, the only language the
    /// model reads, and only toward English.
    pub open spec fn spec_get_from(from: Option<Language>, to: Language) -> Option<Language> {
        match from {
            Some(f) => if f is Japanese && to is English {
                Some(f)
            } else {
                None
            },
            None => if to is English {
                Some(Language::Japanese)
            } else {
                None
            },
        }
    }

    /// Resolves the source language of a hop, rejecting any pair the model
    /// does not speak.
    pub fn get_from(from: Option<Language>, to: &Language) -> (r: Result<Language, Error>)
        ensures
            r is Ok <==> Self::spec_get_from(from, *to) is Some,
            r matches Ok(l) ==> Self::spec_get_from(from, *to) == Some(l),
    {
        if let Some(f) = from {
            if f == Language::Japanese && to == &Language::English {
                return Ok(f);
            }
            Err(Error::new_option("Language not supported"))
        } else {
            match to {
                Language::English => Ok(Language::Japanese),
                _ => Err(Error::new_option("Language not supported")),
            }
        }
    }

    /// What `get_model_name` returns for each parameter pair.
    pub open spec fn spec_get_model_name(device: Device, model_format: ModelFormat) -> Seq<char> {
        "sugoi-ja-en-ct2"@ + (match model_format {
            ModelFormat::Compact => match device {
                Device::CPU => "-int8"@,
                Device::CUDA => "-float16"@,
            },
            ModelFormat::Normal => ""@,
        })
    }

    /// The model-asset identifier of a parameter pair.
    pub fn get_model_name(device: &Device, model_format: &ModelFormat) -> (r: String)
        ensures
            r@ == Self::spec_get_model_name(*device, *model_format),
    {
        let mut s: String = "sugoi-ja-en-ct2".to_owned();
        s.append(
            match model_format {
                ModelFormat::Compact => match device {
                    Device::CPU => "-int8",
                    Device::CUDA => "-float16",
                },
                ModelFormat::Normal => "",
            },
        );
        s
    }

    /// The total of a list of group sizes.
    pub open spec fn spec_size_sum(sizes: Seq<usize>) -> int
        decreases sizes.len(),
    {
        if sizes.len() == 0 {
            0
        } else {
            Self::spec_size_sum(sizes.drop_last()) + sizes.last()
        }
    }

    /// One query's chunks: its split pieces taken four at a time, each
    /// group run together with dots shielded.
    pub open spec fn spec_chunks_of(parts: Seq<Seq<char>>) -> Seq<Seq<char>>
        decreases parts.len(),
    {
        if parts.len() == 0 {
            Seq::empty()
        } else if parts.len() <= 4 {
            seq![spec_replace_dots(spec_concat(parts))]
        } else {
            seq![spec_replace_dots(spec_concat(parts.take(4)))] + Self::spec_chunks_of(
                parts.skip(4),
            )
        }
    }

    /// Every query's chunks, in query order.
    pub open spec fn spec_all_chunks(queries: Seq<Seq<char>>) -> Seq<Seq<char>>
        decreases queries.len(),
    {
        if queries.len() == 0 {
            Seq::empty()
        } else {
            Self::spec_chunks_of(sugoi_split_of(queries[0])) + Self::spec_all_chunks(
                queries.skip(1),
            )
        }
    }

    /// Cuts each query at sentence ends, groups up to four sentences per
    /// chunk, and shields dots from the model. Returns all chunks in
    /// query order and, per query, how many chunks it became — their
    /// total is the chunk count — so `post_detokenize` can undo the
    /// grouping.
    #[verifier::loop_isolation(false)]
    pub fn pre_tokenize(queries: &[String]) -> (r: (Vec<String>, Vec<usize>))
        ensures
            r.0@.map_values(|p: String| p@) == Self::spec_all_chunks(
                queries@.map_values(|q: String| q@),
            ),
            r.1@.len() == queries@.len(),
            forall|j: int|
                0 <= j < queries@.len() ==> r.1@[j] == Self::spec_chunks_of(
                    sugoi_split_of(queries@.map_values(|q: String| q@)[j]),
                ).len(),
            Self::spec_size_sum(r.1@) == r.0@.len(),
    {
        let ghost qviews = queries@.map_values(|q: String| q@);
        let mut new_queries: Vec<String> = Vec::new();
        let mut query_split_sizes: Vec<usize> = Vec::new();
        let mut qi: usize = 0;
        proof {
            assert(qviews.skip(0) =~= qviews);
        }
        while qi < queries.len()
            invariant
                qi <= queries@.len(),
                query_split_sizes@.len() == qi,
                Self::spec_size_sum(query_split_sizes@) == new_queries@.len(),
                new_queries@.map_values(|p: String| p@) + Self::spec_all_chunks(
                    qviews.skip(qi as int),
                ) =~= Self::spec_all_chunks(qviews),
                forall|j: int|
                    0 <= j < qi ==> query_split_sizes@[j] == Self::spec_chunks_of(
                        sugoi_split_of(qviews[j]),
                    ).len(),
            decreases queries@.len() - qi,
        {
            let ghost old_sizes = query_split_sizes@;
            let sentences = split_sentences(queries[qi].as_str());
            let ghost sent_views = sentences@.map_values(|p: String| p@);
            proof {
                assert(sent_views == sugoi_split_of(qviews[qi as int]));
                assert(sent_views.skip(0) =~= sent_views);
            }
            let mut chunk_queries: Vec<String> = Vec::new();
            let mut start: usize = 0;
            while start < sentences.len()
                invariant
                    start <= sentences@.len(),
                    chunk_queries@.map_values(|p: String| p@) + Self::spec_chunks_of(
                        sent_views.skip(start as int),
                    ) =~= Self::spec_chunks_of(sent_views),
                decreases sentences@.len() - start,
            {
                let end = if sentences.len() - start >= 4 {
                    start + 4
                } else {
                    sentences.len()
                };
                let piece = &sentences.as_slice()[start..end];
                proof {
                    assert(piece@.map_values(|p: String| p@) =~= sent_views.subrange(
                        start as int,
                        end as int,
                    ));
                }
                let joined = concat_strs(piece);
                let ghost pre_chunks = chunk_queries@.map_values(|p: String| p@);
                chunk_queries.push(replace_dots(joined.as_str()));
                proof {
                    let tail = sent_views.skip(start as int);
                    if sent_views.len() - start >= 5 {
                        assert(tail.take(4) =~= sent_views.subrange(start as int, end as int));
                        assert(tail.skip(4) =~= sent_views.skip(end as int));
                        assert(Self::spec_chunks_of(tail) == seq![
                            spec_replace_dots(spec_concat(tail.take(4))),
                        ] + Self::spec_chunks_of(tail.skip(4)));
                    } else {
                        assert(tail =~= sent_views.subrange(start as int, end as int));
                        assert(sent_views.skip(end as int).len() == 0);
                        assert(Self::spec_chunks_of(sent_views.skip(end as int))
                            =~= Seq::<Seq<char>>::empty());
                        assert(Self::spec_chunks_of(tail) == seq![
                            spec_replace_dots(spec_concat(tail)),
                        ]);
                    }
                    assert(chunk_queries@.map_values(|p: String| p@) =~= pre_chunks + seq![
                        spec_replace_dots(spec_concat(sent_views.subrange(start as int, end as int))),
                    ]);
                }
                start = end;
            }
            query_split_sizes.push(chunk_queries.len());
            proof {
                assert(query_split_sizes@.drop_last() =~= old_sizes);
                assert(chunk_queries@.map_values(|p: String| p@) =~= Self::spec_chunks_of(
                    sent_views,
                ));
                assert(qviews.skip(qi as int)[0] == qviews[qi as int]);
                assert(qviews.skip(qi as int).skip(1) =~= qviews.skip(qi + 1));
            }
            let ghost pre_new = new_queries@.map_values(|p: String| p@);
            let mut rest = chunk_queries;
            new_queries.append(&mut rest);
            proof {
                assert(new_queries@.map_values(|p: String| p@) =~= pre_new + Self::spec_chunks_of(
                    sent_views,
                ));
            }
            qi += 1;
        }
        proof {
            assert(qviews.skip(queries@.len() as int).len() == 0);
            assert(Self::spec_all_chunks(qviews.skip(queries@.len() as int))
                =~= Seq::<Seq<char>>::empty());
        }
        (new_queries, query_split_sizes)
    }

    /// The view of one regrouped translation: a group of chunk
    /// translations joined with spaces, dots restored, tokenizer
    /// artifacts dropped.
    pub open spec fn spec_regroup(parts: Seq<Seq<char>>) -> Seq<char> {
        Self::spec_strip_unk(Self::spec_restore(Self::spec_join_space(parts)))
    }

    /// A sequence of character sequences joined with single spaces.
    pub open spec fn spec_join_space(parts: Seq<Seq<char>>) -> Seq<char>
        decreases parts.len(),
    {
        if parts.len() == 0 {
            Seq::empty()
        } else if parts.len() == 1 {
            parts[0]
        } else {
            parts[0] + " "@ + Self::spec_join_space(parts.skip(1))
        }
    }

    /// Every shielded `@` restored to `.`, every word-piece marker to a
    /// space.
    pub open spec fn spec_restore(s: Seq<char>) -> Seq<char> {
        s.map_values(
            |c: char|
                if c == '@' {
                    '.'
                } else if c == '\u{2581}' {
                    ' '
                } else {
                    c
                },
        )
    }

    /// The sequence with every `<unk>` marker removed.
    pub open spec fn spec_strip_unk(s: Seq<char>) -> Seq<char>
        decreases s.len(),
    {
        if s.len() < 5 {
            s
        } else if s.take(5) == "<unk>"@ {
            Self::spec_strip_unk(s.skip(5))
        } else {
            s.take(1) + Self::spec_strip_unk(s.skip(1))
        }
    }

    /// Per-query translations regrouped out of per-chunk translations:
    /// group sizes consumed in order, each group clamped to what
    /// remains, each regrouped as `spec_regroup` says.
    pub open spec fn spec_regrouped(trans: Seq<Seq<char>>, sizes: Seq<usize>) -> Seq<Seq<char>>
        decreases sizes.len(),
    {
        if sizes.len() == 0 {
            Seq::empty()
        } else {
            let n = if sizes[0] <= trans.len() {
                sizes[0] as int
            } else {
                trans.len() as int
            };
            seq![Self::spec_regroup(trans.take(n))] + Self::spec_regrouped(
                trans.skip(n),
                sizes.skip(1),
            )
        }
    }

    /// Reassembles per-query translations out of per-chunk translations:
    /// each query's group of chunks is joined and cleaned as
    /// `spec_regroup` says; groups follow `query_split_sizes`.
    #[verifier::loop_isolation(false)]
    pub fn post_detokenize(translations: Vec<String>, query_split_sizes: Vec<usize>) -> (r: Vec<
        String,
    >)
        ensures
            r@.len() == query_split_sizes@.len(),
            r@.map_values(|p: String| p@) == Self::spec_regrouped(
                translations@.map_values(|p: String| p@),
                query_split_sizes@,
            ),
    {
        let ghost tviews = translations@.map_values(|p: String| p@);
        let ghost sizes = query_split_sizes@;
        let mut new_translations: Vec<String> = Vec::new();
        let mut i: usize = 0;
        let mut g: usize = 0;
        proof {
            assert(tviews.skip(0) =~= tviews);
            assert(sizes.skip(0) =~= sizes);
        }
        while g < query_split_sizes.len()
            invariant
                g <= query_split_sizes@.len(),
                new_translations@.len() == g,
                i <= translations@.len(),
                new_translations@.map_values(|p: String| p@) + Self::spec_regrouped(
                    tviews.skip(i as int),
                    sizes.skip(g as int),
                ) =~= Self::spec_regrouped(tviews, sizes),
            decreases query_split_sizes@.len() - g,
        {
            let query_count = query_split_sizes[g];
            let end = if query_count <= translations.len() - i {
                i + query_count
            } else {
                translations.len()
            };
            let piece = &translations.as_slice()[i..end];
            proof {
                let tail = tviews.skip(i as int);
                let ghost n = if sizes[g as int] <= tail.len() {
                    sizes[g as int] as int
                } else {
                    tail.len() as int
                };
                assert(n == end - i);
                assert(piece@.map_values(|p: String| p@) =~= tail.take(n));
                assert(tail.skip(n) =~= tviews.skip(end as int));
                assert(sizes.skip(g as int)[0] == sizes[g as int]);
                assert(sizes.skip(g as int).skip(1) =~= sizes.skip(g + 1));
            }
            let joined = join_space(piece);
            let restored = restore_chars(joined.as_str());
            let ghost pre_out = new_translations@.map_values(|p: String| p@);
            new_translations.push(strip_unk(restored.as_str()));
            proof {
                let tail = tviews.skip(i as int);
                let n = end - i;
                assert(new_translations@.map_values(|p: String| p@) =~= pre_out + seq![
                    Self::spec_regroup(tail.take(n as int)),
                ]);
                assert((pre_out + seq![Self::spec_regroup(tail.take(n as int))])
                    + Self::spec_regrouped(tviews.skip(end as int), sizes.skip(g + 1)) =~= pre_out
                    + (seq![Self::spec_regroup(tail.take(n as int))] + Self::spec_regrouped(
                    tviews.skip(end as int),
                    sizes.skip(g + 1),
                )));
            }
            i = end;
            g += 1;
        }
        proof {
            assert(sizes.skip(query_split_sizes@.len() as int).len() == 0);
        }
        new_translations
    }
}

fn join_space(parts: &[String]) -> (r: String)
    ensures
        r@ == SugoiTranslator::spec_join_space(parts@.map_values(|s: String| s@)),
{
    let ghost views = parts@.map_values(|s: String| s@);
    let mut r = String::new();
    if parts.len() == 0 {
        return r;
    }
    let mut i: usize = 1;
    r.append(parts[0].as_str());
    proof {
        assert(views.take(1) =~= seq![views[0]]);
        assert(SugoiTranslator::spec_join_space(seq![views[0]]) == views[0]);
    }
    while i < parts.len()
        invariant
            1 <= i <= parts@.len(),
            views == parts@.map_values(|s: String| s@),
            r@ == SugoiTranslator::spec_join_space(views.take(i as int)),
        decreases parts@.len() - i,
    {
        proof {
            lemma_join_space_take_step(views, i as int);
        }
        r.append(" ");
        r.append(parts[i].as_str());
        i += 1;
    }
    proof {
        assert(views.take(parts@.len() as int) == views);
    }
    r
}

proof fn lemma_join_space_take_step(parts: Seq<Seq<char>>, i: int)
    requires
        1 <= i < parts.len(),
    ensures
        SugoiTranslator::spec_join_space(parts.take(i + 1)) == SugoiTranslator::spec_join_space(
            parts.take(i),
        ) + " "@ + parts[i],
    decreases i,
{
    if i == 1 {
        assert(parts.take(2).skip(1) =~= seq![parts[1]]);
        assert(SugoiTranslator::spec_join_space(seq![parts[1]]) == parts[1]);
        assert(parts.take(2)[0] == parts[0]);
        assert(SugoiTranslator::spec_join_space(parts.take(2)) == parts[0] + " "@
            + SugoiTranslator::spec_join_space(parts.take(2).skip(1)));
        assert(parts.take(1) =~= seq![parts[0]]);
        assert(SugoiTranslator::spec_join_space(parts.take(1)) == parts[0]);
    } else {
        let sub = parts.skip(1);
        lemma_join_space_take_step(sub, i - 1);
        assert(parts.take(i + 1).skip(1) =~= sub.take(i));
        assert(parts.take(i).skip(1) =~= sub.take(i - 1));
        assert(SugoiTranslator::spec_join_space(parts.take(i + 1)) == parts[0] + " "@
            + SugoiTranslator::spec_join_space(sub.take(i)));
        assert(SugoiTranslator::spec_join_space(parts.take(i)) == parts[0] + " "@
            + SugoiTranslator::spec_join_space(sub.take(i - 1)));
        assert((parts[0] + " "@ + (SugoiTranslator::spec_join_space(sub.take(i - 1)) + " "@
            + sub[i - 1])) =~= ((parts[0] + " "@ + SugoiTranslator::spec_join_space(
            sub.take(i - 1),
        )) + " "@ + sub[i - 1]));
    }
}

fn restore_chars(s: &str) -> (r: String)
    ensures
        r@ == SugoiTranslator::spec_restore(s@),
{
    let n = s.unicode_len();
    let mut r = String::new();
    let mut i: usize = 0;
    while i < n
        invariant
            i <= n,
            n == s@.len(),
            r@ == SugoiTranslator::spec_restore(s@).take(i as int),
        decreases n - i,
    {
        let c = s.get_char(i);
        let c2: char = if c == '@' {
            '.'
        } else if c == '\u{2581}' {
            ' '
        } else {
            c
        };
        r.push(c2);
        proof {
            assert(r@ =~= SugoiTranslator::spec_restore(s@).take(i + 1));
        }
        i += 1;
    }
    proof {
        assert(SugoiTranslator::spec_restore(s@).take(n as int) =~= SugoiTranslator::spec_restore(
            s@,
        ));
    }
    r
}

fn strip_unk(s: &str) -> (r: String)
    ensures
        r@ == SugoiTranslator::spec_strip_unk(s@),
{
    let n = s.unicode_len();
    let mut r = String::new();
    let mut i: usize = 0;
    proof {
        assert(s@.skip(0) =~= s@);
        assert(r@ + SugoiTranslator::spec_strip_unk(s@) =~= SugoiTranslator::spec_strip_unk(s@));
    }
    while i < n
        invariant
            i <= n,
            n == s@.len(),
            SugoiTranslator::spec_strip_unk(s@) == r@ + SugoiTranslator::spec_strip_unk(
                s@.skip(i as int),
            ),
        decreases n - i,
    {
        let c = s.get_char(i);
        let is_unk: bool = if c == '<' && n - i >= 5 {
            let piece = s.substring_char(i, i + 5);
            crate::translators::helpers::str_eq(piece, "<unk>")
        } else {
            false
        };
        proof {
            reveal_strlit("<unk>");
            assert(s@.skip(i as int).len() >= 1);
            if is_unk {
                assert(s@.skip(i as int).take(5) =~= s@.subrange(i as int, i + 5));
                assert(s@.skip(i as int).len() >= 5);
                assert(s@.skip(i as int).skip(5) =~= s@.skip(i + 5));
            } else {
                if s@.skip(i as int).len() >= 5 {
                    if n - i >= 5 {
                        assert(s@.skip(i as int).take(5) =~= s@.subrange(i as int, i + 5));
                        if c == '<' {
                            assert(s@.skip(i as int).take(5) != "<unk>"@);
                        } else {
                            assert(s@.skip(i as int).take(5)[0] == s@[i as int]);
                            assert(s@[i as int] != '<');
                            assert(s@.skip(i as int).take(5) != "<unk>"@);
                        }
                    }
                }
                assert(s@.skip(i as int).take(1) =~= seq![s@[i as int]]);
                assert(s@.skip(i as int).skip(1) =~= s@.skip(i + 1));
            }
        }
        if is_unk {
            i += 5;
        } else {
            r.push(c);
            proof {
                assert(r@ + SugoiTranslator::spec_strip_unk(s@.skip(i + 1)) =~= (r@.drop_last()
                    + (seq![c] + SugoiTranslator::spec_strip_unk(s@.skip(i + 1)))));
            }
            i += 1;
        }
    }
    proof {
        assert(s@.skip(n as int) =~= Seq::<char>::empty());
    }
    r
}

} // verus!
