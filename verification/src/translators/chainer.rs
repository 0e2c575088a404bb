use vstd::prelude::*;
use vstd::assert_maps_equal;
use vstd::map::*;

use crate::error::Error;
use crate::languages::Language;
use crate::translators::tokens::Tokens;
use crate::translators::translator_initilized::TranslatorInitialized;
use crate::translators::Translator;

verus! {

/// This represents a single translator with a target language
#[derive(Debug, PartialEq, Eq)]
pub struct TranslatorInfo {
    /// Translator
    pub translator: Translator,
    /// Target language
    pub to: Language,
}

impl Clone for TranslatorInfo {
    fn clone(&self) -> (r: Self)
        ensures
            r == *self,
    {
        TranslatorInfo { translator: self.translator.clone(), to: self.to }
    }
}

/// A small association table keyed by `Language`, the map shape all
/// selective topologies use. Keys are unique; entry order is the
/// insertion order.
pub struct LangTable<V> {
    entries: Vec<(Language, V)>,
}

impl<V> LangTable<V> {
    /// The table's entries, in order.
    pub closed spec fn entries_seq(self) -> Seq<(Language, V)> {
        self.entries@
    }

    /// Internal shape: keys pairwise distinct.
    pub closed spec fn wf(self) -> bool {
        forall|i: int, j: int|
            0 <= i < j < self.entries@.len() ==> self.entries@[i].0 != self.entries@[j].0
    }

    /// Whether a key has an entry.
    pub closed spec fn contains_key(self, k: Language) -> bool {
        exists|i: int| 0 <= i < self.entries@.len() && self.entries@[i].0 == k
    }

    closed spec fn index_of(self, k: Language) -> int {
        choose|i: int| 0 <= i < self.entries@.len() && self.entries@[i].0 == k
    }

    /// The value stored under a key.
    pub closed spec fn spec_get(self, k: Language) -> V {
        self.entries@[self.index_of(k)].1
    }

    /// The number of entries.
    pub open spec fn spec_len(self) -> nat {
        self.entries_seq().len()
    }

    /// The table's contents as a map.
    pub open spec fn as_map(self) -> Map<Language, V> {
        Map::new(|k: Language| self.contains_key(k), |k: Language| self.spec_get(k))
    }

    proof fn lemma_entry_at(self, i: int)
        requires
            self.wf(),
            0 <= i < self.entries_seq().len(),
        ensures
            self.contains_key(self.entries_seq()[i].0),
            self.spec_get(self.entries_seq()[i].0) == self.entries_seq()[i].1,
    {
        assert(self.contains_key(self.entries@[i].0));
        let j = self.index_of(self.entries@[i].0);
        if i < j {
            assert(self.entries@[i].0 != self.entries@[j].0);
        } else if j < i {
            assert(self.entries@[j].0 != self.entries@[i].0);
        }
    }

    /// An entry of the table, by position.
    pub proof fn lemma_entry_key(self, i: int)
        requires
            self.wf(),
            0 <= i < self.entries_seq().len(),
        ensures
            self.contains_key(self.entries_seq()[i].0),
            self.spec_get(self.entries_seq()[i].0) == self.entries_seq()[i].1,
            self.as_map().contains_key(self.entries_seq()[i].0),
            self.as_map()[self.entries_seq()[i].0] == self.entries_seq()[i].1,
    {
        self.lemma_entry_at(i);
    }

    /// An empty table.
    pub fn new() -> (r: Self)
        ensures
            r.wf(),
            r.spec_len() == 0,
            r.entries_seq() =~= Seq::<(Language, V)>::empty(),
            r.as_map() == Map::<Language, V>::empty(),
    {
        let r = LangTable { entries: Vec::new() };
        proof {
            assert_maps_equal!(r.as_map(), Map::<Language, V>::empty());
        }
        r
    }

    /// The number of entries.
    pub fn len(&self) -> (r: usize)
        ensures
            r == self.spec_len(),
    {
        self.entries.len()
    }

    /// The key of the entry at a position.
    pub fn key_at(&self, i: usize) -> (r: Language)
        requires
            i < self.spec_len(),
        ensures
            r == self.entries_seq()[i as int].0,
    {
        self.entries[i].0
    }

    /// The value of the entry at a position.
    pub fn val_at(&self, i: usize) -> (r: &V)
        requires
            i < self.spec_len(),
        ensures
            *r == self.entries_seq()[i as int].1,
    {
        &self.entries[i].1
    }

    fn find(&self, k: Language) -> (r: Option<usize>)
        requires
            self.wf(),
        ensures
            match r {
                Some(i) => i < self.entries_seq().len() && self.entries_seq()[i as int].0 == k,
                None => !self.contains_key(k),
            },
    {
        let mut i: usize = 0;
        while i < self.entries.len()
            invariant
                self.wf(),
                i <= self.entries@.len(),
                forall|j: int| 0 <= j < i ==> self.entries@[j].0 != k,
            decreases self.entries@.len() - i,
        {
            if self.entries[i].0 == k {
                return Some(i);
            }
            i += 1;
        }
        None
    }

    /// The value under a key, where the key has an entry.
    pub fn get(&self, k: Language) -> (r: Option<&V>)
        requires
            self.wf(),
        ensures
            r is Some <==> self.contains_key(k),
            r matches Some(v) ==> *v == self.spec_get(k),
    {
        match self.find(k) {
            Some(i) => {
                proof {
                    self.lemma_entry_at(i as int);
                }
                Some(&self.entries[i].1)
            },
            None => None,
        }
    }

    /// Stores a value under a key, replacing what an earlier insert put
    /// there.
    pub fn insert(&mut self, k: Language, v: V)
        requires
            old(self).wf(),
        ensures
            final(self).wf(),
            final(self).as_map() == old(self).as_map().insert(k, v),
            old(self).contains_key(k) ==> final(self).spec_len() == old(self).spec_len(),
            !old(self).contains_key(k) ==> final(self).spec_len() == old(self).spec_len() + 1
                && final(self).entries_seq() == old(self).entries_seq().push((k, v)),
    {
        match self.find(k) {
            Some(i) => {
                let ghost prev = *self;
                self.entries.set(i, (k, v));
                proof {
                    self.lemma_entry_at(i as int);
                    Self::lemma_same_but_one(prev, *self, k, i as int);
                    assert_maps_equal!(self.as_map(), prev.as_map().insert(k, v), kk => {});
                }
            },
            None => {
                let ghost prev = *self;
                self.entries.push((k, v));
                proof {
                    let n = self.entries@.len() - 1;
                    self.lemma_entry_at(n as int);
                    Self::lemma_same_but_one(prev, *self, k, n);
                    assert_maps_equal!(self.as_map(), prev.as_map().insert(k, v), kk => {});
                }
            },
        }
    }

    proof fn lemma_same_but_one(prev: Self, cur: Self, k: Language, at: int)
        requires
            prev.wf(),
            cur.wf(),
            0 <= at < cur.entries_seq().len(),
            cur.entries_seq()[at].0 == k,
            prev.entries_seq().len() == cur.entries_seq().len() || prev.entries_seq().push(
                cur.entries_seq()[at],
            ) == cur.entries_seq(),
            at < prev.entries_seq().len() ==> prev.entries_seq()[at].0 == k,
            forall|i: int|
                0 <= i < prev.entries_seq().len() && i != at ==> prev.entries_seq()[i]
                    == cur.entries_seq()[i],
            forall|i: int| 0 <= i < prev.entries_seq().len() && i != at ==> prev.entries_seq()[i].0
                != k,
        ensures
            forall|kk: Language|
                kk != k ==> (prev.contains_key(kk) == cur.contains_key(kk) && (prev.contains_key(
                    kk,
                ) ==> prev.spec_get(kk) == cur.spec_get(kk))),
    {
        assert forall|kk: Language| kk != k implies (prev.contains_key(kk) == cur.contains_key(kk)
            && (prev.contains_key(kk) ==> prev.spec_get(kk) == cur.spec_get(kk))) by {
            if prev.contains_key(kk) {
                let i = prev.index_of(kk);
                assert(prev.entries_seq()[i].0 == kk);
                assert(i != at);
                assert(cur.entries_seq()[i].0 == kk);
                prev.lemma_entry_at(i);
                cur.lemma_entry_at(i);
            }
            if cur.contains_key(kk) {
                let i = cur.index_of(kk);
                assert(cur.entries_seq()[i].0 == kk);
                assert(i != at);
                if i < prev.entries_seq().len() {
                    assert(prev.entries_seq()[i].0 == kk);
                    prev.lemma_entry_at(i);
                }
            }
        }
    }
}

impl<V: Clone> Clone for LangTable<V> {
    fn clone(&self) -> (r: Self) {
        LangTable { entries: self.entries.clone() }
    }
}

/// An enum where it is defined if Selective, SelectiveChain, Chain or
/// List is used. The translators are not initialized yet.
pub enum TranslatorSelectorInfo {
    /// A table with the from language as a key and the provider that
    /// serves it as a value; the second value is the default.
    Selective(LangTable<Translator>, TranslatorInfo),
    /// Equal to Selective, but the translator continues until the default
    /// translator is reached. Second value is default.
    SelectiveChain(LangTable<TranslatorInfo>, TranslatorInfo),
    /// Executes Translator after Translator until the end is reached
    Chain(Vec<TranslatorInfo>),
    List(Vec<TranslatorInfo>),
}

impl TranslatorSelectorInfo {
    /// A topology of one provider: a list with a single entry.
    pub fn create_single(v: TranslatorInfo) -> (r: Self)
        ensures
            r matches TranslatorSelectorInfo::List(l) && l@.len() == 1 && l@[0] == v,
    {
        let mut l: Vec<TranslatorInfo> = Vec::new();
        l.push(v);
        TranslatorSelectorInfo::List(l)
    }
}

/// The walk of the cycle check: follows `to`-edges from a start key,
/// carrying the keys already seen; true where it meets a seen key again
/// (or, beyond any real walk, where the step budget runs out).
pub open spec fn spec_walk_repeats(
    m: Map<Language, TranslatorInfo>,
    cur_to: Language,
    visited: Seq<Language>,
    fuel: nat,
) -> bool
    decreases fuel,
{
    if !m.contains_key(cur_to) {
        false
    } else if visited.contains(cur_to) {
        true
    } else if fuel == 0 {
        true
    } else {
        spec_walk_repeats(m, m[cur_to].to, visited.push(cur_to), (fuel - 1) as nat)
    }
}

/// A selective chain contains a routing loop: some key's walk returns to
/// a key it has already visited. The step budget `fuel` is the number of
/// keys, which any loop-free walk stays under.
pub open spec fn spec_selector_has_cycle(m: Map<Language, TranslatorInfo>, fuel: nat) -> bool {
    exists|k: Language| #[trigger] m.contains_key(k) && spec_walk_repeats(m, m[k].to, seq![k], fuel)
}

/// Walks the `to`-edges from every key of the table and reports whether
/// any walk revisits a key.
fn detect_cycle(t: &LangTable<TranslatorInfo>) -> (r: bool)
    requires
        t.wf(),
    ensures
        r == spec_selector_has_cycle(t.as_map(), t.spec_len()),
{
    let ghost m = t.as_map();
    let n = t.len();
    let mut i: usize = 0;
    while i < n
        invariant
            t.wf(),
            m == t.as_map(),
            n == t.spec_len(),
            i <= n,
            forall|k: int|
                0 <= k < i ==> !spec_walk_repeats(
                    m,
                    t.entries_seq()[k].1.to,
                    seq![t.entries_seq()[k].0],
                    n as nat,
                ),
        decreases n - i,
    {
        let ghost answer = spec_walk_repeats(
            m,
            t.entries_seq()[i as int].1.to,
            seq![t.entries_seq()[i as int].0],
            n as nat,
        );
        let mut visited: Vec<Language> = Vec::new();
        visited.push(t.key_at(i));
        let mut cur_to: Language = t.val_at(i).to;
        let mut fuel: usize = n;
        let mut found: bool = false;
        let mut done: bool = false;
        proof {
            assert(visited@ =~= seq![t.entries_seq()[i as int].0]);
        }
        while !done
            invariant
                t.wf(),
                m == t.as_map(),
                n == t.spec_len(),
                fuel <= n,
                !done ==> answer == spec_walk_repeats(m, cur_to, visited@, fuel as nat),
                done ==> answer == found,
            decreases fuel + 1, (if done {
                0int
            } else {
                1int
            }),
        {
            match t.get(cur_to) {
                None => {
                    found = false;
                    done = true;
                },
                Some(next) => {
                    let mut seen: bool = false;
                    let mut j: usize = 0;
                    while j < visited.len()
                        invariant
                            j <= visited@.len(),
                            seen == (exists|l: int| 0 <= l < j && visited@[l] == cur_to),
                        decreases visited@.len() - j,
                    {
                        if visited[j] == cur_to {
                            seen = true;
                        }
                        j += 1;
                    }
                    proof {
                        assert(seen == visited@.contains(cur_to));
                    }
                    if seen {
                        found = true;
                        done = true;
                    } else if fuel == 0 {
                        found = true;
                        done = true;
                    } else {
                        visited.push(cur_to);
                        cur_to = next.to;
                        fuel -= 1;
                    }
                },
            }
        }
        if found {
            proof {
                t.lemma_entry_key(i as int);
                assert(m.contains_key(t.entries_seq()[i as int].0));
                assert(m[t.entries_seq()[i as int].0] == t.entries_seq()[i as int].1);
                assert(spec_selector_has_cycle(m, n as nat));
            }
            return true;
        }
        i += 1;
    }
    proof {
        assert forall|k: Language| m.contains_key(k) implies !spec_walk_repeats(
            m,
            m[k].to,
            seq![k],
            n as nat,
        ) by {
            let idx = t.index_of(k);
            assert(t.entries_seq()[idx].0 == k);
            t.lemma_entry_key(idx);
        }
    }
    false
}

/// An enum where it is defined if Selective, SelectiveChain, Chain or
/// List is used. The translator is already initialized in the enum.
pub enum TranslatorSelectorInitilized {
    /// A table with the from language as a key and the initialized
    /// provider that serves it as a value.
    Selective(LangTable<TranslatorInitialized>),
    /// Equal to Selective, but the translator continues until the default
    /// translator is reached.
    SelectiveChain(LangTable<TranslatorInitialized>),
    /// Executes Translator after Translator until the end is reached
    Chain(Vec<TranslatorInitialized>),
    List(Vec<TranslatorInitialized>),
}

/// Every provider of a chain-entry table can be bound: each entry's
/// credential is present.
pub open spec fn spec_chain_tokens_ok(
    entries: Seq<(Language, TranslatorInfo)>,
    tokens: Tokens,
) -> bool {
    forall|i: int|
        0 <= i < entries.len() ==> TranslatorInitialized::spec_required_token_ok(
            entries[i].1.translator,
            tokens,
        )
}

/// The cycle error the resolver raises.
pub open spec fn spec_is_cycle_error(e: Error) -> bool {
    e matches Error::Text(t) && t.message@ == "Translator loop detected"@ && t.error is None
}

/// Initializes every value in a table of Selective chain entries.
#[verifier::loop_isolation(false)]
fn convert_selective_chain(translator_info_map: LangTable<TranslatorInfo>, tokens: &Tokens) -> (r:
    Result<LangTable<TranslatorInitialized>, Error>)
    requires
        translator_info_map.wf(),
    ensures
        r is Ok <==> !spec_selector_has_cycle(
            translator_info_map.as_map(),
            translator_info_map.spec_len(),
        ) && spec_chain_tokens_ok(translator_info_map.entries_seq(), *tokens),
        spec_selector_has_cycle(
            translator_info_map.as_map(),
            translator_info_map.spec_len(),
        ) ==> (r matches Err(e) && spec_is_cycle_error(e)),
        r matches Ok(out) ==> {
            &&& out.wf()
            &&& out.spec_len() == translator_info_map.spec_len()
            &&& forall|k: Language|
                out.as_map().contains_key(k) == translator_info_map.as_map().contains_key(k)
            &&& forall|k: Language|
                #![trigger out.as_map()[k]]
                translator_info_map.as_map().contains_key(k) ==> out.as_map()[k].translator
                    == translator_info_map.as_map()[k].translator && out.as_map()[k].to
                    == translator_info_map.as_map()[k].to && out.as_map()[k].data
                    == TranslatorInitialized::spec_capability(
                    translator_info_map.as_map()[k].translator,
                )
        },
{
    if detect_cycle(&translator_info_map) {
        return Err(Error::new_option("Translator loop detected"));
    }
    let mut translator_data_map: LangTable<TranslatorInitialized> = LangTable::new();
    let n = translator_info_map.len();
    let mut i: usize = 0;
    while i < n
        invariant
            translator_info_map.wf(),
            translator_data_map.wf(),
            !spec_selector_has_cycle(
                translator_info_map.as_map(),
                translator_info_map.spec_len(),
            ),
            n == translator_info_map.spec_len(),
            i <= n,
            translator_data_map.spec_len() == i,
            forall|j: int|
                0 <= j < i ==> TranslatorInitialized::spec_required_token_ok(
                    translator_info_map.entries_seq()[j].1.translator,
                    *tokens,
                ),
            forall|j: int|
                0 <= j < i ==> translator_data_map.entries_seq()[j].0
                    == translator_info_map.entries_seq()[j].0,
            forall|j: int|
                #![trigger translator_data_map.entries_seq()[j]]
                0 <= j < i ==> {
                    &&& translator_data_map.entries_seq()[j].1.translator
                        == translator_info_map.entries_seq()[j].1.translator
                    &&& translator_data_map.entries_seq()[j].1.to
                        == translator_info_map.entries_seq()[j].1.to
                    &&& translator_data_map.entries_seq()[j].1.data
                        == TranslatorInitialized::spec_capability(
                        translator_info_map.entries_seq()[j].1.translator,
                    )
                },
        decreases n - i,
    {
        let key = translator_info_map.key_at(i);
        let value = translator_info_map.val_at(i);
        let init = TranslatorInitialized::new(value.clone(), tokens)?;
        proof {
            translator_info_map.lemma_entry_key(i as int);
            if translator_data_map.contains_key(key) {
                let j = translator_data_map.index_of(key);
                assert(translator_data_map.entries_seq()[j].0 == key);
                assert(translator_info_map.entries_seq()[j].0 == key);
            }
            assert(!translator_data_map.contains_key(key));
        }
        translator_data_map.insert(key, init);
        i += 1;
    }
    proof {
        lemma_tables_agree(translator_info_map, translator_data_map);
    }
    Ok(translator_data_map)
}

proof fn lemma_tables_agree(src: LangTable<TranslatorInfo>, dst: LangTable<TranslatorInitialized>)
    requires
        src.wf(),
        dst.wf(),
        src.spec_len() == dst.spec_len(),
        forall|j: int|
            0 <= j < src.entries_seq().len() ==> dst.entries_seq()[j].0 == src.entries_seq()[j].0,
        forall|j: int|
            #![trigger dst.entries_seq()[j]]
            0 <= j < src.entries_seq().len() ==> {
                &&& dst.entries_seq()[j].1.translator == src.entries_seq()[j].1.translator
                &&& dst.entries_seq()[j].1.to == src.entries_seq()[j].1.to
                &&& dst.entries_seq()[j].1.data == TranslatorInitialized::spec_capability(
                    src.entries_seq()[j].1.translator,
                )
            },
    ensures
        forall|k: Language| dst.as_map().contains_key(k) == src.as_map().contains_key(k),
        forall|k: Language|
            #![trigger src.as_map()[k]]
            src.as_map().contains_key(k) ==> dst.as_map()[k].translator
                == src.as_map()[k].translator && dst.as_map()[k].to == src.as_map()[k].to
                && dst.as_map()[k].data == TranslatorInitialized::spec_capability(
                src.as_map()[k].translator,
            ),
{
    assert forall|k: Language| dst.as_map().contains_key(k) == src.as_map().contains_key(k) by {
        if src.contains_key(k) {
            let i = src.index_of(k);
            assert(src.entries_seq()[i].0 == k);
            dst.lemma_entry_key(i);
        }
        if dst.contains_key(k) {
            let i = dst.index_of(k);
            assert(dst.entries_seq()[i].0 == k);
            src.lemma_entry_key(i);
        }
    }
    assert forall|k: Language| src.as_map().contains_key(k) implies dst.as_map()[k].translator
        == src.as_map()[k].translator && dst.as_map()[k].to == src.as_map()[k].to
        && dst.as_map()[k].data == TranslatorInitialized::spec_capability(
        src.as_map()[k].translator,
    ) by {
        let i = src.index_of(k);
        assert(src.entries_seq()[i].0 == k);
        src.lemma_entry_key(i);
        dst.lemma_entry_key(i);
    }
}

/// Initializes every value in a table of Selective entries; every entry
/// targets the shared output language `to`.
#[verifier::loop_isolation(false)]
fn convert_selective_hashmap(
    translator_info_map: LangTable<Translator>,
    tokens: &Tokens,
    to: &Language,
) -> (r: Result<LangTable<TranslatorInitialized>, Error>)
    requires
        translator_info_map.wf(),
    ensures
        r is Ok <==> (forall|i: int|
            0 <= i < translator_info_map.entries_seq().len()
                ==> TranslatorInitialized::spec_required_token_ok(
                translator_info_map.entries_seq()[i].1,
                *tokens,
            )),
        r matches Ok(out) ==> {
            &&& out.wf()
            &&& out.spec_len() == translator_info_map.spec_len()
            &&& forall|k: Language|
                out.as_map().contains_key(k) == translator_info_map.as_map().contains_key(k)
            &&& forall|k: Language|
                #![trigger out.as_map()[k]]
                translator_info_map.as_map().contains_key(k) ==> out.as_map()[k].translator
                    == translator_info_map.as_map()[k] && out.as_map()[k].to == *to
                    && out.as_map()[k].data == TranslatorInitialized::spec_capability(
                    translator_info_map.as_map()[k],
                )
        },
{
    let mut translator_data_map: LangTable<TranslatorInitialized> = LangTable::new();
    let n = translator_info_map.len();
    let mut i: usize = 0;
    while i < n
        invariant
            translator_info_map.wf(),
            translator_data_map.wf(),
            n == translator_info_map.spec_len(),
            i <= n,
            translator_data_map.spec_len() == i,
            forall|j: int|
                0 <= j < i ==> TranslatorInitialized::spec_required_token_ok(
                    translator_info_map.entries_seq()[j].1,
                    *tokens,
                ),
            forall|j: int|
                0 <= j < i ==> translator_data_map.entries_seq()[j].0
                    == translator_info_map.entries_seq()[j].0,
            forall|j: int|
                #![trigger translator_data_map.entries_seq()[j]]
                0 <= j < i ==> {
                    &&& translator_data_map.entries_seq()[j].1.translator
                        == translator_info_map.entries_seq()[j].1
                    &&& translator_data_map.entries_seq()[j].1.to == *to
                    &&& translator_data_map.entries_seq()[j].1.data
                        == TranslatorInitialized::spec_capability(
                        translator_info_map.entries_seq()[j].1,
                    )
                },
        decreases n - i,
    {
        let key = translator_info_map.key_at(i);
        let value = translator_info_map.val_at(i);
        let init = TranslatorInitialized::new(
            TranslatorInfo { translator: value.clone(), to: *to },
            tokens,
        )?;
        proof {
            translator_info_map.lemma_entry_key(i as int);
            if translator_data_map.contains_key(key) {
                let j = translator_data_map.index_of(key);
                assert(translator_data_map.entries_seq()[j].0 == key);
                assert(translator_info_map.entries_seq()[j].0 == key);
            }
            assert(!translator_data_map.contains_key(key));
        }
        translator_data_map.insert(key, init);
        i += 1;
    }
    proof {
        lemma_selective_tables_agree(translator_info_map, translator_data_map, *to);
    }
    Ok(translator_data_map)
}

proof fn lemma_selective_tables_agree(
    src: LangTable<Translator>,
    dst: LangTable<TranslatorInitialized>,
    to: Language,
)
    requires
        src.wf(),
        dst.wf(),
        src.spec_len() == dst.spec_len(),
        forall|j: int|
            0 <= j < src.entries_seq().len() ==> dst.entries_seq()[j].0 == src.entries_seq()[j].0,
        forall|j: int|
            #![trigger dst.entries_seq()[j]]
            0 <= j < src.entries_seq().len() ==> {
                &&& dst.entries_seq()[j].1.translator == src.entries_seq()[j].1
                &&& dst.entries_seq()[j].1.to == to
                &&& dst.entries_seq()[j].1.data == TranslatorInitialized::spec_capability(
                    src.entries_seq()[j].1,
                )
            },
    ensures
        forall|k: Language| dst.as_map().contains_key(k) == src.as_map().contains_key(k),
        forall|k: Language|
            #![trigger src.as_map()[k]]
            src.as_map().contains_key(k) ==> dst.as_map()[k].translator == src.as_map()[k]
                && dst.as_map()[k].to == to && dst.as_map()[k].data
                == TranslatorInitialized::spec_capability(src.as_map()[k]),
{
    assert forall|k: Language| dst.as_map().contains_key(k) == src.as_map().contains_key(k) by {
        if src.contains_key(k) {
            let i = src.index_of(k);
            assert(src.entries_seq()[i].0 == k);
            dst.lemma_entry_key(i);
        }
        if dst.contains_key(k) {
            let i = dst.index_of(k);
            assert(dst.entries_seq()[i].0 == k);
            src.lemma_entry_key(i);
        }
    }
    assert forall|k: Language| src.as_map().contains_key(k) implies dst.as_map()[k].translator
        == src.as_map()[k] && dst.as_map()[k].to == to && dst.as_map()[k].data
        == TranslatorInitialized::spec_capability(src.as_map()[k]) by {
        let i = src.index_of(k);
        assert(src.entries_seq()[i].0 == k);
        src.lemma_entry_key(i);
        dst.lemma_entry_key(i);
    }
}

/// Initializes every value in a Vec of chain entries.
#[verifier::loop_isolation(false)]
fn convert_chain(vec: Vec<TranslatorInfo>, tokens: &Tokens) -> (r: Result<
    Vec<TranslatorInitialized>,
    Error,
>)
    ensures
        r is Ok <==> (forall|i: int|
            0 <= i < vec@.len() ==> TranslatorInitialized::spec_required_token_ok(
                vec@[i].translator,
                *tokens,
            )),
        r matches Ok(out) ==> out@.len() == vec@.len() && (forall|i: int|
            #![trigger out@[i]]
            0 <= i < vec@.len() ==> out@[i].translator == vec@[i].translator && out@[i].to
                == vec@[i].to && out@[i].data == TranslatorInitialized::spec_capability(
                vec@[i].translator,
            )),
{
    let mut res: Vec<TranslatorInitialized> = Vec::new();
    let mut i: usize = 0;
    while i < vec.len()
        invariant
            i <= vec@.len(),
            res@.len() == i,
            forall|j: int|
                0 <= j < i ==> TranslatorInitialized::spec_required_token_ok(
                    vec@[j].translator,
                    *tokens,
                ),
            forall|j: int|
                #![trigger res@[j]]
                0 <= j < i ==> res@[j].translator == vec@[j].translator && res@[j].to == vec@[j].to
                    && res@[j].data == TranslatorInitialized::spec_capability(vec@[j].translator),
        decreases vec@.len() - i,
    {
        let init = TranslatorInitialized::new(vec[i].clone(), tokens)?;
        res.push(init);
        i += 1;
    }
    Ok(res)
}

/// The number of keys a selective table holds once the default is
/// inserted under `Unknown`.
pub open spec fn spec_len_with_unknown<V>(m: LangTable<V>) -> nat {
    if m.contains_key(Language::Unknown) {
        m.spec_len()
    } else {
        m.spec_len() + 1
    }
}

/// Per-entry credential facts and per-key credential facts of a
/// Selective table say the same thing.
proof fn lemma_selective_tokens_iff(t: LangTable<Translator>, tokens: Tokens)
    requires
        t.wf(),
    ensures
        (forall|i: int|
            0 <= i < t.entries_seq().len() ==> TranslatorInitialized::spec_required_token_ok(
                t.entries_seq()[i].1,
                tokens,
            )) <==> (forall|k: Language|
            #[trigger] t.as_map().contains_key(k)
                ==> TranslatorInitialized::spec_required_token_ok(t.as_map()[k], tokens)),
{
    if forall|i: int|
        0 <= i < t.entries_seq().len() ==> TranslatorInitialized::spec_required_token_ok(
            t.entries_seq()[i].1,
            tokens,
        ) {
        assert forall|k: Language| #[trigger] t.as_map().contains_key(k)
            implies TranslatorInitialized::spec_required_token_ok(t.as_map()[k], tokens) by {
            let i = t.index_of(k);
            assert(t.entries_seq()[i].0 == k);
            t.lemma_entry_key(i);
            assert(TranslatorInitialized::spec_required_token_ok(t.entries_seq()[i].1, tokens));
        }
    }
    if forall|k: Language|
        #[trigger] t.as_map().contains_key(k) ==> TranslatorInitialized::spec_required_token_ok(
            t.as_map()[k],
            tokens,
        ) {
        assert forall|i: int|
            0 <= i < t.entries_seq().len() implies TranslatorInitialized::spec_required_token_ok(
            t.entries_seq()[i].1,
            tokens,
        ) by {
            t.lemma_entry_key(i);
            assert(t.as_map().contains_key(t.entries_seq()[i].0));
        }
    }
}

/// Per-entry credential facts and per-key credential facts of a
/// SelectiveChain table say the same thing.
proof fn lemma_selective_chain_tokens_iff(t: LangTable<TranslatorInfo>, tokens: Tokens)
    requires
        t.wf(),
    ensures
        spec_chain_tokens_ok(t.entries_seq(), tokens) <==> (forall|k: Language|
            #[trigger] t.as_map().contains_key(k)
                ==> TranslatorInitialized::spec_required_token_ok(
                t.as_map()[k].translator,
                tokens,
            )),
{
    if spec_chain_tokens_ok(t.entries_seq(), tokens) {
        assert forall|k: Language| #[trigger] t.as_map().contains_key(k)
            implies TranslatorInitialized::spec_required_token_ok(
            t.as_map()[k].translator,
            tokens,
        ) by {
            let i = t.index_of(k);
            assert(t.entries_seq()[i].0 == k);
            t.lemma_entry_key(i);
            assert(TranslatorInitialized::spec_required_token_ok(
                t.entries_seq()[i].1.translator,
                tokens,
            ));
        }
    }
    if forall|k: Language|
        #[trigger] t.as_map().contains_key(k) ==> TranslatorInitialized::spec_required_token_ok(
            t.as_map()[k].translator,
            tokens,
        ) {
        assert forall|i: int|
            0 <= i < t.entries_seq().len() implies TranslatorInitialized::spec_required_token_ok(
            t.entries_seq()[i].1.translator,
            tokens,
        ) by {
            t.lemma_entry_key(i);
            assert(t.as_map().contains_key(t.entries_seq()[i].0));
        }
    }
}

impl TranslatorSelectorInitilized {
    /// Resolves a declarative topology into bound providers: inserts the
    /// default under the `Unknown` key, rejects routing loops of a
    /// selective chain before anything is bound, and binds each entry's
    /// credential. No entry is bound out of a configuration that is
    /// rejected.
    pub fn from_info(info: TranslatorSelectorInfo, tokens: &Tokens) -> (r: Result<Self, Error>)
        requires
            match info {
                TranslatorSelectorInfo::Selective(m, _) => m.wf(),
                TranslatorSelectorInfo::SelectiveChain(m, _) => m.wf(),
                _ => true,
            },
        ensures
            match info {
                TranslatorSelectorInfo::Selective(m, default) => {
                    &&& r is Ok <==> (forall|k: Language|
                        #[trigger] m.as_map().insert(
                            Language::Unknown,
                            default.translator,
                        ).contains_key(k) ==> TranslatorInitialized::spec_required_token_ok(
                            m.as_map().insert(Language::Unknown, default.translator)[k],
                            *tokens,
                        ))
                    &&& r matches Ok(s) ==> (s matches TranslatorSelectorInitilized::Selective(out)
                        && out.wf() && out.as_map().contains_key(Language::Unknown) && (forall|
                        k: Language,
                    |
                        out.as_map().contains_key(k) == m.as_map().insert(
                            Language::Unknown,
                            default.translator,
                        ).contains_key(k)) && (forall|k: Language|
                        #![trigger out.as_map()[k]]
                        out.as_map().contains_key(k) ==> out.as_map()[k].to == default.to
                            && out.as_map()[k].translator == m.as_map().insert(
                            Language::Unknown,
                            default.translator,
                        )[k]))
                },
                TranslatorSelectorInfo::SelectiveChain(m, default) => {
                    &&& spec_selector_has_cycle(
                        m.as_map().insert(Language::Unknown, default),
                        spec_len_with_unknown(m),
                    ) ==> (r matches Err(e) && spec_is_cycle_error(e))
                    &&& r is Ok <==> !spec_selector_has_cycle(
                        m.as_map().insert(Language::Unknown, default),
                        spec_len_with_unknown(m),
                    ) && (forall|k: Language|
                        #[trigger] m.as_map().insert(Language::Unknown, default).contains_key(k)
                            ==> TranslatorInitialized::spec_required_token_ok(
                            m.as_map().insert(Language::Unknown, default)[k].translator,
                            *tokens,
                        ))
                    &&& r matches Ok(s) ==> (s
                        matches TranslatorSelectorInitilized::SelectiveChain(out) && out.wf()
                        && !spec_selector_has_cycle(
                        m.as_map().insert(Language::Unknown, default),
                        spec_len_with_unknown(m),
                    ) && out.as_map().contains_key(Language::Unknown) && (forall|k: Language|
                        out.as_map().contains_key(k) == m.as_map().insert(
                            Language::Unknown,
                            default,
                        ).contains_key(k)) && (forall|k: Language|
                        #![trigger out.as_map()[k]]
                        out.as_map().contains_key(k) ==> out.as_map()[k].translator
                            == m.as_map().insert(Language::Unknown, default)[k].translator
                            && out.as_map()[k].to == m.as_map().insert(
                            Language::Unknown,
                            default,
                        )[k].to))
                },
                TranslatorSelectorInfo::Chain(v) => {
                    &&& r is Ok <==> (forall|i: int|
                        0 <= i < v@.len() ==> TranslatorInitialized::spec_required_token_ok(
                            v@[i].translator,
                            *tokens,
                        ))
                    &&& r matches Ok(s) ==> (s matches TranslatorSelectorInitilized::Chain(out)
                        && out@.len() == v@.len() && (forall|i: int|
                        #![trigger out@[i]]
                        0 <= i < v@.len() ==> out@[i].translator == v@[i].translator && out@[i].to
                            == v@[i].to))
                },
                TranslatorSelectorInfo::List(v) => {
                    &&& r is Ok <==> (forall|i: int|
                        0 <= i < v@.len() ==> TranslatorInitialized::spec_required_token_ok(
                            v@[i].translator,
                            *tokens,
                        ))
                    &&& r matches Ok(s) ==> (s matches TranslatorSelectorInitilized::List(out)
                        && out@.len() == v@.len() && (forall|i: int|
                        #![trigger out@[i]]
                        0 <= i < v@.len() ==> out@[i].translator == v@[i].translator && out@[i].to
                            == v@[i].to))
                },
            },
    {
        match info {
            TranslatorSelectorInfo::Selective(v, default) => {
                let mut v = v;
                v.insert(Language::Unknown, default.translator.clone());
                proof {
                    lemma_selective_tokens_iff(v, *tokens);
                    assert(v.as_map().contains_key(Language::Unknown));
                }
                let out = convert_selective_hashmap(v, tokens, &default.to)?;
                Ok(Self::Selective(out))
            },
            TranslatorSelectorInfo::SelectiveChain(v, default) => {
                let mut v = v;
                v.insert(Language::Unknown, default.clone());
                proof {
                    lemma_selective_chain_tokens_iff(v, *tokens);
                    assert(v.as_map().contains_key(Language::Unknown));
                }
                let out = convert_selective_chain(v, tokens)?;
                Ok(Self::SelectiveChain(out))
            },
            TranslatorSelectorInfo::Chain(v) => Ok(Self::Chain(convert_chain(v, tokens)?)),
            TranslatorSelectorInfo::List(v) => Ok(Self::List(convert_chain(v, tokens)?)),
        }
    }
}

/// A selective chain entry whose `to`-edge routes back to its own key is
/// a routing loop: the walk from that key revisits it at once, so the
/// resolver's cycle test holds and `from_info` rejects the configuration
/// with the loop error before any entry is bound.
pub proof fn lemma_self_loop_is_cycle(m: Map<Language, TranslatorInfo>, k: Language, fuel: nat)
    requires
        m.contains_key(k),
        m[k].to == k,
    ensures
        spec_selector_has_cycle(m, fuel),
{
    assert(seq![k].len() == 1 && seq![k][0] == k);
    assert(seq![k].contains(k));
    assert(spec_walk_repeats(m, m[k].to, seq![k], fuel));
}

/// Two entries routing to each other's keys are a routing loop as well:
/// the walk from either key returns to it after one intermediate step.
pub proof fn lemma_two_step_cycle(
    m: Map<Language, TranslatorInfo>,
    k1: Language,
    k2: Language,
    fuel: nat,
)
    requires
        k1 != k2,
        m.contains_key(k1),
        m.contains_key(k2),
        m[k1].to == k2,
        m[k2].to == k1,
        fuel >= 1,
    ensures
        spec_selector_has_cycle(m, fuel),
{
    assert(seq![k1].len() == 1 && seq![k1][0] == k1);
    assert(!seq![k1].contains(k2));
    assert(seq![k1].push(k2)[0] == k1);
    assert(seq![k1].push(k2).contains(k1));
    assert(spec_walk_repeats(m, m[k2].to, seq![k1].push(k2), (fuel - 1) as nat));
    assert(spec_walk_repeats(m, m[k1].to, seq![k1], fuel));
}

} // verus!
