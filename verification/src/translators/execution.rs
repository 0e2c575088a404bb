use vstd::prelude::*;

use crate::detector::{detect_language, whatlang_code_of, Detectors};
use crate::error::Error;
use crate::languages::Language;
use crate::translators::chainer::{LangTable, TranslatorSelectorInitilized};
use crate::translators::context::Context;
use crate::translators::helpers::{join_with, spec_join};
use crate::translators::translator_initilized::{TranslatorCapability, TranslatorInitialized};
use crate::translators::translator_structure::{
    clone_strings, TranslationOutput, TranslationVecOutput,
};
use crate::translators::Translators;

verus! {

/// What resolving a request path against a topology yields: the ordered
/// hops, or the reason there are none.
pub enum PathResolution {
    /// The ordered hops of the request.
    Found(Seq<TranslatorInitialized>),
    /// A selective topology without an entry under the `Unknown` key.
    NoDefault,
    /// A selective chain whose walk never reaches a terminal.
    Unterminated,
}

/// The walk of a selective chain: the hop under the current key, then
/// onward along `to`-edges until the hop's target equals the default's
/// target, or one fallback hop to the default where a key is absent.
pub open spec fn spec_walk_path(
    m: Map<Language, TranslatorInitialized>,
    default: TranslatorInitialized,
    li: Language,
    fuel: nat,
) -> PathResolution
    decreases fuel,
{
    if !m.contains_key(li) {
        PathResolution::Found(seq![default])
    } else {
        let t = m[li];
        if t.to == default.to {
            PathResolution::Found(seq![t])
        } else if fuel == 0 {
            PathResolution::Unterminated
        } else {
            match spec_walk_path(m, default, t.to, (fuel - 1) as nat) {
                PathResolution::Found(rest) => PathResolution::Found(seq![t] + rest),
                PathResolution::NoDefault => PathResolution::NoDefault,
                PathResolution::Unterminated => PathResolution::Unterminated,
            }
        }
    }
}

/// The ordered hops a topology resolves a source language to: all
/// entries for Chain and List; the language's entry or the default for
/// Selective; the walk from the language's entry for SelectiveChain.
pub open spec fn spec_selector_path(
    sel: TranslatorSelectorInitilized,
    lang: Language,
) -> PathResolution {
    match sel {
        TranslatorSelectorInitilized::Chain(v) => PathResolution::Found(v@),
        TranslatorSelectorInitilized::List(v) => PathResolution::Found(v@),
        TranslatorSelectorInitilized::Selective(m) => if m.contains_key(lang) {
            PathResolution::Found(seq![m.spec_get(lang)])
        } else if m.contains_key(Language::Unknown) {
            PathResolution::Found(seq![m.spec_get(Language::Unknown)])
        } else {
            PathResolution::NoDefault
        },
        TranslatorSelectorInitilized::SelectiveChain(m) => if m.contains_key(Language::Unknown) {
            spec_walk_path(m.as_map(), m.spec_get(Language::Unknown), lang, m.spec_len())
        } else {
            PathResolution::NoDefault
        },
    }
}

/// A prefix of resolved hops glued onto the rest of a walk.
pub open spec fn spec_path_append(
    prefix: Seq<TranslatorInitialized>,
    rest: PathResolution,
) -> PathResolution {
    match rest {
        PathResolution::Found(p) => PathResolution::Found(prefix + p),
        PathResolution::NoDefault => PathResolution::NoDefault,
        PathResolution::Unterminated => PathResolution::Unterminated,
    }
}

/// One provider invocation the embedding must perform: which provider,
/// what query, which languages.
pub struct HopCall {
    /// The hop's position in the resolved path.
    pub index: usize,
    /// The provider to invoke.
    pub translator: crate::translators::Translator,
    /// Which capability shape to drive.
    pub capability: TranslatorCapability,
    /// The texts to hand over.
    pub query: Vec<String>,
    /// The source language to declare, where one is declared.
    pub from: Option<Language>,
    /// The target language to ask for.
    pub to: Language,
}

/// The per-request execution state: the resolved hops, the records
/// produced so far, and the retry accounting. The embedding drives it:
/// it asks for the next call, performs the provider work, and hands the
/// outcome back; every decision in between is made here.
pub struct RequestState {
    pub hops: Vec<TranslatorInitialized>,
    pub list_mode: bool,
    pub single_mode: bool,
    pub records: Vec<TranslationVecOutput>,
    pub slots: Vec<Option<TranslationVecOutput>>,
    pub fails: Vec<Option<Error>>,
    pub attempts: Vec<u32>,
    pub next_hop: usize,
    pub attempts_allowed: u32,
    pub from_hint: Option<Language>,
    pub detector: Detectors,
    pub context: Vec<Context>,
    pub failed: bool,
}

impl RequestState {
    /// The state's shape: one attempt counter per hop; a list request
    /// keeps one slot and one failure cell per hop beside the initial
    /// record; a chain request keeps one record per completed hop behind
    /// the initial one; a single-text request holds exactly one text per
    /// record.
    pub open spec fn wf(self) -> bool {
        &&& self.attempts_allowed >= 1
        &&& self.attempts@.len() == self.hops@.len()
        &&& (if self.list_mode {
            &&& self.records@.len() == 1
            &&& self.slots@.len() == self.hops@.len()
            &&& self.fails@.len() == self.hops@.len()
            &&& self.next_hop == 0
        } else {
            &&& self.slots@.len() == 0
            &&& self.fails@.len() == 0
            &&& self.next_hop <= self.hops@.len()
            &&& self.records@.len() == 1 + self.next_hop
        })
        &&& (self.single_mode ==> forall|i: int|
            0 <= i < self.records@.len() ==> self.records@[i].text@.len() == 1)
    }

    /// The record a hop outcome becomes: for a single-text request the
    /// produced text tagged with the hop's target language, else the
    /// outcome as the provider returned it.
    pub open spec fn spec_record_of(
        pre: RequestState,
        v: TranslationVecOutput,
    ) -> TranslationVecOutput {
        if pre.single_mode {
            TranslationVecOutput { text: v.text, lang: pre.hops@[pre.next_hop as int].to }
        } else {
            v
        }
    }

    /// The records after a successful first hop: where the initial record
    /// carried `Unknown`, it is backfilled with the first concrete
    /// language produced.
    pub open spec fn spec_backfilled(
        pre: RequestState,
        rec: TranslationVecOutput,
    ) -> Seq<TranslationVecOutput> {
        if pre.records@.len() == 1 && pre.records@[0].lang is Unknown && !(rec.lang is Unknown) {
            pre.records@.update(
                0,
                TranslationVecOutput { text: pre.records@[0].text, lang: rec.lang },
            )
        } else {
            pre.records@
        }
    }

    /// A successful hop: its record is appended (after any backfill of
    /// the initial record), the request advances to the next hop, and
    /// everything else stays.
    pub open spec fn spec_step_ok(
        pre: RequestState,
        v: TranslationVecOutput,
        post: RequestState,
    ) -> bool {
        let rec = Self::spec_record_of(pre, v);
        &&& post.hops == pre.hops
        &&& post.list_mode == pre.list_mode
        &&& post.single_mode == pre.single_mode
        &&& post.records@ == Self::spec_backfilled(pre, rec).push(rec)
        &&& post.slots == pre.slots
        &&& post.fails == pre.fails
        &&& post.attempts@ == pre.attempts@.update(pre.next_hop as int, 0u32)
        &&& post.next_hop == pre.next_hop + 1
        &&& post.attempts_allowed == pre.attempts_allowed
        &&& post.from_hint == pre.from_hint
        &&& post.detector == pre.detector
        &&& post.context == pre.context
        &&& post.failed == false
    }

    /// A failed attempt with attempts left: only the current hop's
    /// attempt counter moves.
    pub open spec fn spec_step_retry(pre: RequestState, post: RequestState) -> bool {
        &&& post.hops == pre.hops
        &&& post.list_mode == pre.list_mode
        &&& post.single_mode == pre.single_mode
        &&& post.records == pre.records
        &&& post.slots == pre.slots
        &&& post.fails == pre.fails
        &&& post.attempts@ == pre.attempts@.update(
            pre.next_hop as int,
            (pre.attempts@[pre.next_hop as int] + 1) as u32,
        )
        &&& post.next_hop == pre.next_hop
        &&& post.attempts_allowed == pre.attempts_allowed
        &&& post.from_hint == pre.from_hint
        &&& post.detector == pre.detector
        &&& post.context == pre.context
        &&& post.failed == false
    }

    /// A failed attempt with no attempt left: the request is failed and
    /// nothing else moves.
    pub open spec fn spec_step_fail(pre: RequestState, post: RequestState) -> bool {
        &&& post.hops == pre.hops
        &&& post.records == pre.records
        &&& post.attempts == pre.attempts
        &&& post.next_hop == pre.next_hop
        &&& post.failed == true
    }

    /// Whether every hop has produced a record.
    pub fn is_done(&self) -> (r: bool)
        requires
            self.wf(),
            !self.list_mode,
        ensures
            r == (self.next_hop == self.hops@.len()),
    {
        self.next_hop == self.hops.len()
    }

    /// What `next_call` leaves behind and hands out: past the last hop
    /// nothing, else the pending hop's call, whose query is the latest
    /// record's text. A hop of the one provider kind that needs a
    /// declared source language gets it from the latest record,
    /// detecting it first — and updating that record — where the record
    /// still carries `Unknown`.
    pub open spec fn spec_next_call_ok(
        pre: RequestState,
        post: RequestState,
        o: Option<HopCall>,
    ) -> bool {
        if pre.next_hop == pre.hops@.len() {
            o is None && post == pre
        } else {
            let hop = pre.hops@[pre.next_hop as int];
            o matches Some(c) && {
                &&& c.index == pre.next_hop
                &&& c.translator == hop.translator
                &&& c.capability == hop.data
                &&& c.to == hop.to
                &&& c.query@ == post.records@.last().text@
                &&& if hop.translator is MyMemory {
                    &&& c.from == Some(post.records@.last().lang)
                    &&& if pre.records@.last().lang is Unknown {
                        &&& pre.detector is Whatlang
                        &&& (whatlang_code_of(
                            spec_join(
                                pre.records@.last().text@.map_values(|s: String| s@),
                                "\n"@,
                            ),
                        ) matches Some(code) && post.records@ == pre.records@.update(
                            pre.records@.len() - 1,
                            TranslationVecOutput {
                                text: pre.records@.last().text,
                                lang: Language::spec_from_iso693(code),
                            },
                        ))
                        &&& Self::spec_same_but_records(pre, post)
                        &&& post.failed == false
                    } else {
                        post == pre
                    }
                } else {
                    c.from == pre.from_hint && post == pre
                }
            }
        }
    }

    /// Everything but the records is unchanged.
    pub open spec fn spec_same_but_records(pre: RequestState, post: RequestState) -> bool {
        &&& post.hops == pre.hops
        &&& post.list_mode == pre.list_mode
        &&& post.single_mode == pre.single_mode
        &&& post.slots == pre.slots
        &&& post.fails == pre.fails
        &&& post.attempts == pre.attempts
        &&& post.next_hop == pre.next_hop
        &&& post.attempts_allowed == pre.attempts_allowed
        &&& post.from_hint == pre.from_hint
        &&& post.detector == pre.detector
        &&& post.context == pre.context
    }

    /// The next call of a chain request, or nothing once every hop is
    /// done. A hop of the one provider kind that needs a declared source
    /// language detects it here from the pending text, updating the
    /// latest record, and fails the request where detection fails.
    pub fn next_call(&mut self) -> (r: Result<Option<HopCall>, Error>)
        requires
            old(self).wf(),
            !old(self).list_mode,
            !old(self).failed,
        ensures
            final(self).wf(),
            !final(self).list_mode,
            r is Err <==> old(self).next_hop < old(self).hops@.len() && old(self).hops@[old(
                self,
            ).next_hop as int].translator is MyMemory && old(self).records@.last().lang is Unknown
                && !(old(self).detector is Whatlang && whatlang_code_of(
                spec_join(old(self).records@.last().text@.map_values(|s: String| s@), "\n"@),
            ) is Some),
            r is Err ==> final(self).failed && Self::spec_same_but_records(*old(self), *final(self))
                && final(self).records == old(self).records,
            r matches Ok(o) ==> Self::spec_next_call_ok(*old(self), *final(self), o),
    {
        if self.next_hop >= self.hops.len() {
            return Ok(None);
        }
        let hop_translator = self.hops[self.next_hop].translator.clone();
        let is_mymemory = matches!(hop_translator, crate::translators::Translator::MyMemory);
        let last_idx = self.records.len() - 1;
        let from: Option<Language> = if is_mymemory {
            let need_detect = matches!(self.records[last_idx].lang, Language::Unknown);
            if need_detect {
                let joined = join_with(&self.records[last_idx].text, "\n");
                match detect_language(joined.as_str(), &self.detector) {
                    Ok(l2) => {
                        let ghost pre = *self;
                        let mut last = match self.records.pop() {
                            Some(v) => v,
                            None => unreached(),
                        };
                        last.lang = l2;
                        self.records.push(last);
                        proof {
                            assert(self.records@ =~= pre.records@.update(
                                pre.records@.len() - 1,
                                TranslationVecOutput {
                                    text: pre.records@.last().text,
                                    lang: l2,
                                },
                            ));
                        }
                        Some(l2)
                    },
                    Err(e) => {
                        self.failed = true;
                        return Err(e);
                    },
                }
            } else {
                Some(self.records[last_idx].lang)
            }
        } else {
            self.from_hint
        };
        let hop = &self.hops[self.next_hop];
        let call = HopCall {
            index: self.next_hop,
            translator: hop_translator,
            capability: hop.data,
            query: clone_strings(&self.records[self.records.len() - 1].text),
            from,
            to: hop.to,
        };
        Ok(Some(call))
    }

    /// Applies one outcome of the current hop of a chain request. A
    /// success records the hop and advances; a failure is retried while
    /// attempts are left — `Ok(false)` asks the embedding to call again —
    /// and otherwise fails the whole request with that error.
    pub fn apply(&mut self, outcome: Result<TranslationVecOutput, Error>) -> (r: Result<
        bool,
        Error,
    >)
        requires
            old(self).wf(),
            !old(self).list_mode,
            !old(self).failed,
            old(self).next_hop < old(self).hops@.len(),
            old(self).single_mode && outcome is Ok ==> outcome->Ok_0.text@.len() == 1,
        ensures
            final(self).wf(),
            match outcome {
                Ok(v) => r matches Ok(b) && b == true && Self::spec_step_ok(
                    *old(self),
                    v,
                    *final(self),
                ),
                Err(e) => if old(self).attempts@[old(self).next_hop as int] + 1 < old(
                    self,
                ).attempts_allowed {
                    r matches Ok(b) && b == false && Self::spec_step_retry(*old(self), *final(self))
                } else {
                    r matches Err(e2) && e2 == e && Self::spec_step_fail(*old(self), *final(self))
                },
            },
    {
        match outcome {
            Ok(v) => {
                let rec = if self.single_mode {
                    TranslationVecOutput { text: v.text, lang: self.hops[self.next_hop].to }
                } else {
                    v
                };
                let ghost pre = *old(self);
                let ghost grec = rec;
                if self.records.len() == 1 {
                    let first_unknown = matches!(self.records[0].lang, Language::Unknown);
                    let rec_known = !matches!(rec.lang, Language::Unknown);
                    if first_unknown && rec_known {
                        let mut first = match self.records.pop() {
                            Some(x) => x,
                            None => unreached(),
                        };
                        first.lang = rec.lang;
                        self.records.push(first);
                        proof {
                            assert(self.records@ =~= RequestState::spec_backfilled(pre, grec));
                        }
                    }
                }
                proof {
                    assert(self.records@ =~= RequestState::spec_backfilled(pre, grec));
                }
                self.records.push(rec);
                self.attempts.set(self.next_hop, 0);
                self.next_hop += 1;
                proof {
                    assert(self.records@ =~= RequestState::spec_backfilled(pre, grec).push(grec));
                }
                Ok(true)
            },
            Err(e) => {
                let a = self.attempts[self.next_hop];
                if a < u32::MAX && a + 1 < self.attempts_allowed {
                    self.attempts.set(self.next_hop, a + 1);
                    Ok(false)
                } else {
                    proof {
                        if a >= u32::MAX {
                            assert(a + 1 >= self.attempts_allowed);
                        }
                    }
                    self.failed = true;
                    Err(e)
                }
            },
        }
    }

    /// The complete ordered result of a chain request: the initial record
    /// followed by one record per hop, in hop order.
    pub fn finish(self) -> (r: Vec<TranslationVecOutput>)
        requires
            self.wf(),
            !self.list_mode,
            !self.failed,
            self.next_hop == self.hops@.len(),
        ensures
            r@ == self.records@,
    {
        self.records
    }

    /// The complete ordered result of a single-text chain request: each
    /// record reduced to its one text.
    pub fn finish_single(self) -> (r: Vec<TranslationOutput>)
        requires
            self.wf(),
            !self.list_mode,
            self.single_mode,
            !self.failed,
            self.next_hop == self.hops@.len(),
        ensures
            r@.len() == self.records@.len(),
            forall|i: int|
                0 <= i < r@.len() ==> (#[trigger] r@[i]).text == self.records@[i].text@[0]
                    && r@[i].lang == self.records@[i].lang,
    {
        let mut out: Vec<TranslationOutput> = Vec::new();
        let mut rest = self.records;
        let ghost recs = rest@;
        let n = rest.len();
        let mut i: usize = 0;
        while i < n
            invariant
                n == recs.len(),
                rest@ =~= recs.skip(i as int),
                i <= n,
                out@.len() == i,
                forall|j: int| 0 <= j < n ==> (#[trigger] recs[j]).text@.len() == 1,
                forall|j: int|
                    0 <= j < i ==> (#[trigger] out@[j]).text == recs[j].text@[0] && out@[j].lang
                        == recs[j].lang,
            decreases n - i,
        {
            let rec = rest.remove(0);
            let lang = rec.lang;
            let mut texts = rec.text;
            let text = texts.remove(0);
            out.push(TranslationOutput { text, lang });
            i += 1;
        }
        out
    }

    /// One call of a list request: every pending slot's call carries the
    /// initial text and the shared source hint; the slot index says where
    /// the outcome belongs, whatever order the calls complete in.
    pub fn list_call(&self, i: usize) -> (c: HopCall)
        requires
            self.wf(),
            self.list_mode,
            i < self.hops@.len(),
            self.slots@[i as int] is None,
            self.fails@[i as int] is None,
        ensures
            c.index == i,
            c.translator == self.hops@[i as int].translator,
            c.capability == self.hops@[i as int].data,
            c.to == self.hops@[i as int].to,
            c.query@ == self.records@[0].text@,
            c.from == self.from_hint,
    {
        let hop = &self.hops[i];
        HopCall {
            index: i,
            translator: hop.translator.clone(),
            capability: hop.data,
            query: clone_strings(&self.records[0].text),
            from: self.from_hint,
            to: hop.to,
        }
    }

    /// A list outcome lands in its own slot and touches nothing else, so
    /// the assembled output keeps configuration order whatever order the
    /// providers finish in.
    pub open spec fn spec_list_step(
        pre: RequestState,
        i: int,
        outcome: Result<TranslationVecOutput, Error>,
        post: RequestState,
    ) -> bool {
        &&& post.hops == pre.hops
        &&& post.list_mode == pre.list_mode
        &&& post.single_mode == pre.single_mode
        &&& post.records == pre.records
        &&& post.next_hop == pre.next_hop
        &&& post.attempts_allowed == pre.attempts_allowed
        &&& post.from_hint == pre.from_hint
        &&& post.detector == pre.detector
        &&& post.context == pre.context
        &&& post.failed == pre.failed
        &&& match outcome {
            Ok(v) => {
                &&& post.slots@ == pre.slots@.update(
                    i,
                    Some(
                        if pre.single_mode {
                            TranslationVecOutput { text: v.text, lang: pre.hops@[i].to }
                        } else {
                            v
                        },
                    ),
                )
                &&& post.fails == pre.fails
                &&& post.attempts@ == pre.attempts@.update(i, 0u32)
            },
            Err(e) => if pre.attempts@[i] + 1 < pre.attempts_allowed {
                &&& post.slots == pre.slots
                &&& post.fails == pre.fails
                &&& post.attempts@ == pre.attempts@.update(i, (pre.attempts@[i] + 1) as u32)
            } else {
                &&& post.slots == pre.slots
                &&& post.fails@ == pre.fails@.update(i, Some(e))
                &&& post.attempts == pre.attempts
            },
        }
    }

    /// Applies one outcome of slot `i` of a list request: a success fills
    /// the slot, a failure is retried while attempts are left —
    /// `Ok(false)` asks the embedding to call again — and otherwise the
    /// error settles in the slot's failure cell for `finish_list`.
    pub fn apply_at(&mut self, i: usize, outcome: Result<TranslationVecOutput, Error>) -> (r: Result<
        bool,
        Error,
    >)
        requires
            old(self).wf(),
            old(self).list_mode,
            i < old(self).hops@.len(),
            old(self).slots@[i as int] is None,
            old(self).fails@[i as int] is None,
            old(self).single_mode && outcome is Ok ==> outcome->Ok_0.text@.len() == 1,
        ensures
            final(self).wf(),
            r matches Ok(b) && b == (match outcome {
                Ok(_) => true,
                Err(_) => old(self).attempts@[i as int] + 1 >= old(self).attempts_allowed,
            }),
            Self::spec_list_step(*old(self), i as int, outcome, *final(self)),
    {
        match outcome {
            Ok(v) => {
                let rec = if self.single_mode {
                    TranslationVecOutput { text: v.text, lang: self.hops[i].to }
                } else {
                    v
                };
                self.slots.set(i, Some(rec));
                self.attempts.set(i, 0);
                Ok(true)
            },
            Err(e) => {
                let a = self.attempts[i];
                if a < u32::MAX && a + 1 < self.attempts_allowed {
                    self.attempts.set(i, a + 1);
                    Ok(false)
                } else {
                    proof {
                        if a >= u32::MAX {
                            assert(a + 1 >= self.attempts_allowed);
                        }
                    }
                    self.fails.set(i, Some(e));
                    Ok(true)
                }
            },
        }
    }

    /// Whether a list request still has an undecided slot.
    pub fn list_pending(&self) -> (r: Option<usize>)
        requires
            self.wf(),
            self.list_mode,
        ensures
            match r {
                Some(i) => i < self.hops@.len() && self.slots@[i as int] is None
                    && self.fails@[i as int] is None,
                None => forall|j: int|
                    0 <= j < self.hops@.len() ==> self.slots@[j] is Some || self.fails@[j] is Some,
            },
    {
        let mut i: usize = 0;
        while i < self.slots.len()
            invariant
                self.wf(),
                self.list_mode,
                i <= self.slots@.len(),
                forall|j: int| 0 <= j < i ==> self.slots@[j] is Some || self.fails@[j] is Some,
            decreases self.slots@.len() - i,
        {
            if self.slots[i].is_none() && self.fails[i].is_none() {
                return Some(i);
            }
            i += 1;
        }
        None
    }

    /// The complete ordered result of a list request: the initial record,
    /// then slot 0, slot 1, ... in configuration order — or the failure
    /// of the earliest slot whose attempts ran out.
    #[verifier::loop_isolation(false)]
    pub fn finish_list(self) -> (r: Result<Vec<TranslationVecOutput>, Error>)
        requires
            self.wf(),
            self.list_mode,
            forall|j: int|
                0 <= j < self.hops@.len() ==> self.slots@[j] is Some || self.fails@[j] is Some,
        ensures
            match r {
                Ok(v) => {
                    &&& forall|j: int| 0 <= j < self.hops@.len() ==> self.fails@[j] is None
                    &&& v@.len() == self.hops@.len() + 1
                    &&& v@[0] == self.records@[0]
                    &&& forall|j: int|
                        0 <= j < self.hops@.len() ==> v@[j + 1] == self.slots@[j]->0
                },
                Err(e) => exists|j: int|
                    #![trigger self.fails@[j]]
                    0 <= j < self.hops@.len() && (self.fails@[j] matches Some(f) && f == e) && (
                    forall|l: int| 0 <= l < j ==> self.fails@[l] is None),
            },
    {
        let mut out: Vec<TranslationVecOutput> = Vec::new();
        let mut rest = self.records;
        match rest.pop() {
            Some(first) => {
                out.push(first);
            },
            None => unreached(),
        }
        let mut slots = self.slots;
        let mut fails = self.fails;
        let n = slots.len();
        let mut i: usize = 0;
        let ghost slots0 = slots@;
        let ghost fails0 = fails@;
        while i < n
            invariant
                n == slots0.len(),
                slots@ =~= slots0.skip(i as int),
                fails@ =~= fails0.skip(i as int),
                i <= n,
                out@.len() == i + 1,
                out@[0] == self.records@[0],
                forall|j: int| 0 <= j < i ==> fails0[j] is None,
                forall|j: int| 0 <= j < n ==> slots0[j] is Some || fails0[j] is Some,
                forall|j: int| 0 <= j < i ==> out@[j + 1] == slots0[j]->0,
            decreases n - i,
        {
            match fails.remove(0) {
                Some(e) => {
                    return Err(e);
                },
                None => {},
            }
            match slots.remove(0) {
                Some(v) => {
                    out.push(v);
                },
                None => unreached(),
            }
            i += 1;
        }
        proof {
            assert(out@.len() == self.hops@.len() + 1);
            assert(out@[0] == self.records@[0]);
            assert(forall|j: int| 0 <= j < self.hops@.len() ==> self.fails@[j] is None);
            assert(forall|j: int| 0 <= j < self.hops@.len() ==> out@[j + 1] == self.slots@[j]->0);
        }
        Ok(out)
    }
}

/// How many attempts one hop gets: the configured retry count, at least
/// one; a missing configuration means a single attempt.
pub open spec fn spec_attempts_allowed(rc: Option<u32>) -> u32 {
    match rc {
        Some(v) => if v >= 1 {
            v
        } else {
            1
        },
        None => 1,
    }
}

/// Whether a resolved path contains the one provider kind that needs a
/// detected source language.
pub open spec fn spec_needs_lang(hops: Seq<TranslatorInitialized>) -> bool {
    exists|i: int| 0 <= i < hops.len() && hops[i].translator is MyMemory
}

/// The source language a request starts from: the declared one; the
/// `Unknown` sentinel for the topologies that do not branch on it; else
/// the detector's guess.
pub open spec fn spec_determined_lang(
    t: Translators,
    from: Option<Language>,
    text: Seq<char>,
) -> Option<Language> {
    match from {
        Some(v) => Some(v),
        None => match t.translators {
            TranslatorSelectorInitilized::Chain(_) => Some(Language::Unknown),
            TranslatorSelectorInitilized::List(_) => Some(Language::Unknown),
            _ => if t.detector is Whatlang {
                match whatlang_code_of(text) {
                    Some(c) => Some(Language::spec_from_iso693(c)),
                    None => None,
                }
            } else {
                None
            },
        },
    }
}

impl Translators {
    fn get_lang(&self, from: Option<Language>, text: &str) -> (r: Result<Language, Error>)
        requires
            self.wf(),
        ensures
            r is Ok <==> spec_determined_lang(*self, from, text@) is Some,
            r matches Ok(l) ==> spec_determined_lang(*self, from, text@) == Some(l),
    {
        match from {
            Some(v) => Ok(v),
            None => match &self.translators {
                TranslatorSelectorInitilized::Chain(_) => Ok(Language::Unknown),
                TranslatorSelectorInitilized::List(_) => Ok(Language::Unknown),
                _ => detect_language(text, &self.detector),
            },
        }
    }

    /// This generates a chain of translators. If no translator is found
    /// for a selective key, the default translator serves instead.
    #[verifier::loop_isolation(false)]
    fn get_translator_chain(&self, lang_iso: &Language) -> (r: Result<
        Vec<TranslatorInitialized>,
        Error,
    >)
        requires
            self.wf(),
        ensures
            match spec_selector_path(self.translators, *lang_iso) {
                PathResolution::Found(p) => r matches Ok(v) && v@ == p,
                PathResolution::NoDefault => r is Err,
                PathResolution::Unterminated => r is Err,
            },
    {
        match &self.translators {
            TranslatorSelectorInitilized::Chain(v) => {
                let r = clone_hops(v);
                proof {
                    assert(r@ =~= v@);
                }
                Ok(r)
            },
            TranslatorSelectorInitilized::List(v) => {
                let r = clone_hops(v);
                proof {
                    assert(r@ =~= v@);
                }
                Ok(r)
            },
            TranslatorSelectorInitilized::Selective(m) => {
                let mut res: Vec<TranslatorInitialized> = Vec::new();
                match m.get(*lang_iso) {
                    Some(t) => {
                        res.push(t.clone());
                        proof {
                            assert(res@ =~= seq![m.spec_get(*lang_iso)]);
                        }
                    },
                    None => {
                        let d = self.get_default_translator()?;
                        res.push(d.clone());
                        proof {
                            assert(res@ =~= seq![m.spec_get(Language::Unknown)]);
                        }
                    },
                }
                Ok(res)
            },
            TranslatorSelectorInitilized::SelectiveChain(m) => {
                let default = self.get_default_translator()?.clone();
                let ghost answer = spec_walk_path(
                    m.as_map(),
                    m.spec_get(Language::Unknown),
                    *lang_iso,
                    m.spec_len(),
                );
                let mut res: Vec<TranslatorInitialized> = Vec::new();
                let mut li: Language = *lang_iso;
                let mut fuel: usize = m.len();
                let mut done: bool = false;
                while !done
                    invariant
                        m.wf(),
                        fuel <= m.spec_len(),
                        default == m.spec_get(Language::Unknown),
                        !done ==> spec_path_append(
                            res@,
                            spec_walk_path(m.as_map(), default, li, fuel as nat),
                        ) == answer,
                        done ==> answer == PathResolution::Found(res@),
                    decreases fuel + 1, (if done {
                        0int
                    } else {
                        1int
                    }),
                {
                    match m.get(li) {
                        Some(t) => {
                            let ghost pre_res = res@;
                            res.push(t.clone());
                            if t.to == default.to {
                                proof {
                                    assert(pre_res + seq![m.as_map()[li]] =~= res@);
                                }
                                done = true;
                            } else if fuel == 0 {
                                return Err(Error::new_option("Translator loop detected"));
                            } else {
                                let next = t.to;
                                proof {
                                    assert(pre_res + seq![m.as_map()[li]] =~= res@);
                                    assert forall|rest: Seq<TranslatorInitialized>|
                                        true implies (pre_res + (seq![m.as_map()[li]] + rest) =~= (
                                        res@ + rest)) by {}
                                }
                                li = next;
                                fuel -= 1;
                            }
                        },
                        None => {
                            let ghost pre_res = res@;
                            res.push(default.clone());
                            proof {
                                assert(pre_res + seq![default] =~= res@);
                            }
                            done = true;
                        },
                    }
                }
                Ok(res)
            },
        }
    }

    /// Starts a batched request: determines the source language, resolves
    /// the path (failing before any provider work where it is empty or
    /// undefined), performs the one up-front detection a list with a
    /// detection-needing provider asks for, and hands back the machine
    /// the embedding drives.
    #[verifier::loop_isolation(false)]
    pub fn translate_vec_request(&self, queries: Vec<String>, from: Option<Language>, context_data: Vec<
        Context,
    >) -> (r: Result<RequestState, Error>)
        requires
            self.wf(),
        ensures
            r is Ok <==> (spec_determined_lang(
                *self,
                from,
                spec_join(queries@.map_values(|s: String| s@), "\n"@),
            ) matches Some(lang) && (spec_selector_path(self.translators, lang)
                matches PathResolution::Found(p) && p.len() >= 1 && (self.translators is List
                && spec_needs_lang(p) && lang is Unknown ==> self.detector is Whatlang
                && whatlang_code_of(
                spec_join(queries@.map_values(|s: String| s@), "\n"@),
            ) is Some))),
            (spec_determined_lang(
                *self,
                from,
                spec_join(queries@.map_values(|s: String| s@), "\n"@),
            ) matches Some(lang) && (spec_selector_path(self.translators, lang)
                matches PathResolution::Found(p) && p.len() == 0)) ==> (r matches Err(e) && (e
                matches Error::Text(t) && t.message@ == "No translator found"@ && t.error is None)),
            r matches Ok(st) ==> {
                &&& st.wf()
                &&& !st.failed
                &&& !st.single_mode
                &&& st.detector == self.detector
                &&& st.context == context_data
                &&& st.attempts_allowed == spec_attempts_allowed(self.retry_count)
                &&& st.next_hop == 0
                &&& (forall|i: int| 0 <= i < st.attempts@.len() ==> st.attempts@[i] == 0)
                &&& st.list_mode == (self.translators is List)
                &&& (spec_determined_lang(
                    *self,
                    from,
                    spec_join(queries@.map_values(|s: String| s@), "\n"@),
                ) matches Some(lang) && spec_selector_path(self.translators, lang)
                    == PathResolution::Found(st.hops@) && st.hops@.len() >= 1
                    && st.records@.len() == 1 && st.records@[0].text@ == queries@ && (if st.list_mode
                    && spec_needs_lang(st.hops@) {
                    st.from_hint == Some(st.records@[0].lang)
                        && (lang is Unknown ==> self.detector is Whatlang && (whatlang_code_of(
                        spec_join(queries@.map_values(|s: String| s@), "\n"@),
                    ) matches Some(c) && st.records@[0].lang == Language::spec_from_iso693(c)))
                        && (!(lang is Unknown) ==> st.records@[0].lang == lang)
                } else {
                    st.records@[0].lang == lang && st.from_hint == (if from is Some {
                        Some(lang)
                    } else {
                        None
                    })
                }))
                &&& (st.list_mode ==> forall|i: int|
                    0 <= i < st.hops@.len() ==> st.slots@[i] is None && st.fails@[i] is None)
            },
    {
        let joined = join_with(&queries, "\n");
        let add_from_lang = from.is_some();
        let lang = self.get_lang(from, joined.as_str())?;
        let from2: Option<Language> = if add_from_lang {
            Some(lang)
        } else {
            None
        };
        let chain = self.get_translator_chain(&lang)?;
        if chain.len() == 0 {
            return Err(Error::new_option("No translator found"));
        }
        let list_mode = matches!(self.translators, TranslatorSelectorInitilized::List(_));
        let mut records: Vec<TranslationVecOutput> = Vec::new();
        records.push(TranslationVecOutput { text: queries, lang });
        let mut from_hint: Option<Language> = from2;
        if list_mode && Self::need_lang(&chain) {
            let cur = records[0].lang;
            if matches!(cur, Language::Unknown) {
                let lang2 = detect_language(joined.as_str(), &self.detector)?;
                let mut first = match records.pop() {
                    Some(v) => v,
                    None => unreached(),
                };
                first.lang = lang2;
                records.push(first);
                from_hint = Some(lang2);
            } else {
                from_hint = Some(cur);
            }
        }
        let n = chain.len();
        let retry = match self.retry_count {
            Some(v) => if v >= 1 {
                v
            } else {
                1
            },
            None => 1,
        };
        let mut slots: Vec<Option<TranslationVecOutput>> = Vec::new();
        let mut fails: Vec<Option<Error>> = Vec::new();
        let mut attempts: Vec<u32> = Vec::new();
        let mut i: usize = 0;
        while i < n
            invariant
                i <= n,
                attempts@.len() == i,
                slots@.len() == (if list_mode {
                    i as int
                } else {
                    0int
                }),
                fails@.len() == (if list_mode {
                    i as int
                } else {
                    0int
                }),
                forall|j: int| 0 <= j < i ==> attempts@[j] == 0,
                forall|j: int| 0 <= j < slots@.len() ==> slots@[j] is None,
                forall|j: int| 0 <= j < fails@.len() ==> fails@[j] is None,
            decreases n - i,
        {
            attempts.push(0);
            if list_mode {
                slots.push(None);
                fails.push(None);
            }
            i += 1;
        }
        Ok(
            RequestState {
                hops: chain,
                list_mode,
                single_mode: false,
                records,
                slots,
                fails,
                attempts,
                next_hop: 0,
                attempts_allowed: retry,
                from_hint,
                detector: self.detector,
                context: context_data,
                failed: false,
            },
        )
    }

    /// Starts a single-text request: the same machine with a one-element
    /// batch, whose hop records are tagged with each hop's target
    /// language.
    pub fn translate_request(&self, text: String, from: Option<Language>, context_data: Vec<
        Context,
    >) -> (r: Result<RequestState, Error>)
        requires
            self.wf(),
        ensures
            r is Ok <==> (spec_determined_lang(*self, from, text@) matches Some(lang) && (
            spec_selector_path(self.translators, lang) matches PathResolution::Found(p) && p.len()
                >= 1 && (self.translators is List && spec_needs_lang(p) && lang is Unknown
                ==> self.detector is Whatlang && whatlang_code_of(text@) is Some))),
            (spec_determined_lang(*self, from, text@) matches Some(lang) && (spec_selector_path(
                self.translators,
                lang,
            ) matches PathResolution::Found(p) && p.len() == 0)) ==> (r matches Err(e) && (e
                matches Error::Text(t) && t.message@ == "No translator found"@ && t.error is None)),
            r matches Ok(st) ==> {
                &&& st.wf()
                &&& !st.failed
                &&& st.single_mode
                &&& st.detector == self.detector
                &&& st.context == context_data
                &&& st.attempts_allowed == spec_attempts_allowed(self.retry_count)
                &&& st.next_hop == 0
                &&& (forall|i: int| 0 <= i < st.attempts@.len() ==> st.attempts@[i] == 0)
                &&& st.list_mode == (self.translators is List)
                &&& (spec_determined_lang(*self, from, text@) matches Some(lang)
                    && spec_selector_path(self.translators, lang) == PathResolution::Found(st.hops@)
                    && st.hops@.len() >= 1 && st.records@.len() == 1 && st.records@[0].text@.len()
                    == 1 && st.records@[0].text@[0]@ == text@ && (if st.list_mode
                    && spec_needs_lang(st.hops@) {
                    st.from_hint == Some(st.records@[0].lang)
                } else {
                    st.records@[0].lang == lang && st.from_hint == (if from is Some {
                        Some(lang)
                    } else {
                        None
                    })
                }))
                &&& (st.list_mode ==> forall|i: int|
                    0 <= i < st.hops@.len() ==> st.slots@[i] is None && st.fails@[i] is None)
            },
    {
        let mut queries: Vec<String> = Vec::new();
        let ghost tview = text@;
        queries.push(text);
        proof {
            assert(queries@.map_values(|s: String| s@) =~= seq![tview]);
            assert(spec_join(queries@.map_values(|s: String| s@), "\n"@) == tview);
        }
        let st = self.translate_vec_request(queries, from, context_data)?;
        let mut st = st;
        st.single_mode = true;
        Ok(st)
    }
}

/// Copies a resolved hop list.
fn clone_hops(v: &Vec<TranslatorInitialized>) -> (r: Vec<TranslatorInitialized>)
    ensures
        r@.len() == v@.len(),
        forall|i: int| 0 <= i < v@.len() ==> r@[i] == v@[i],
{
    let mut r: Vec<TranslatorInitialized> = Vec::new();
    let mut i: usize = 0;
    while i < v.len()
        invariant
            i <= v@.len(),
            r@.len() == i,
            forall|j: int| 0 <= j < i ==> r@[j] == v@[j],
        decreases v@.len() - i,
    {
        r.push(v[i].clone());
        i += 1;
    }
    r
}

/// Selective fallback law: a source language absent from an explicit
/// Selective table routes to the entry under the `Unknown` key — the
/// default installed at resolution.
pub proof fn lemma_selective_fallback(m: LangTable<TranslatorInitialized>, lang: Language)
    requires
        !m.contains_key(lang),
        m.contains_key(Language::Unknown),
    ensures
        spec_selector_path(TranslatorSelectorInitilized::Selective(m), lang)
            == PathResolution::Found(seq![m.spec_get(Language::Unknown)]),
{
}

/// A run of failed attempts of one hop, each with attempts left: state
/// `i + 1` follows state `i` by one retry step.
pub open spec fn spec_retry_chain(states: Seq<RequestState>) -> bool {
    forall|i: int|
        0 <= i < states.len() - 1 ==> RequestState::spec_step_retry(
            #[trigger] states[i],
            states[i + 1],
        )
}

/// Along a run of retries nothing but the pending hop's attempt counter
/// moves, and it counts the failures.
pub proof fn lemma_retry_chain_state(states: Seq<RequestState>)
    requires
        states.len() >= 1,
        states[0].wf(),
        !states[0].list_mode,
        !states[0].failed,
        states[0].next_hop < states[0].hops@.len(),
        spec_retry_chain(states),
        states[0].attempts@[states[0].next_hop as int] + states.len() - 1 <= u32::MAX,
    ensures
        states.last().wf(),
        !states.last().list_mode,
        !states.last().failed,
        states.last().hops == states[0].hops,
        states.last().records == states[0].records,
        states.last().next_hop == states[0].next_hop,
        states.last().attempts_allowed == states[0].attempts_allowed,
        states.last().single_mode == states[0].single_mode,
        states.last().attempts@.len() == states[0].attempts@.len(),
        states.last().attempts@[states[0].next_hop as int] == states[0].attempts@[states[0].next_hop as int]
            + states.len() - 1,
    decreases states.len(),
{
    if states.len() == 1 {
    } else {
        let prefix = states.take(states.len() - 1);
        assert(spec_retry_chain(prefix)) by {
            assert forall|i: int|
                0 <= i < prefix.len() - 1 implies RequestState::spec_step_retry(
                #[trigger] prefix[i],
                prefix[i + 1],
            ) by {
                assert(RequestState::spec_step_retry(states[i], states[i + 1]));
            }
        }
        lemma_retry_chain_state(prefix);
        assert(RequestState::spec_step_retry(states[states.len() - 2], states[states.len() - 1]));
        assert(states[states.len() - 2].attempts@[states[0].next_hop as int] + 1 <= u32::MAX);
    }
}

/// Retry policy law, success side: after a provider fails the first
/// `k - 1` attempts of a hop and the budget admits at least `k`
/// attempts, the hop is still pending with attempts left, and a success
/// on attempt `k` records the hop's result and advances the request.
pub proof fn lemma_retry_policy_succeeds(
    states: Seq<RequestState>,
    v: TranslationVecOutput,
    post: RequestState,
)
    requires
        states.len() >= 1,
        states[0].wf(),
        !states[0].list_mode,
        !states[0].failed,
        states[0].next_hop < states[0].hops@.len(),
        states[0].attempts@[states[0].next_hop as int] == 0,
        spec_retry_chain(states),
        states.len() <= states[0].attempts_allowed,
        RequestState::spec_step_ok(states.last(), v, post),
    ensures
        states.last().attempts@[states[0].next_hop as int] + 1 <= states[0].attempts_allowed,
        !post.failed,
        post.next_hop == states[0].next_hop + 1,
        post.records@.len() == states[0].records@.len() + 1,
        post.records@.last() == RequestState::spec_record_of(states.last(), v),
{
    lemma_retry_chain_state(states);
}

/// Retry policy law, exhaustion side: once a provider has failed as many
/// attempts as the budget allows but one, one more failure leaves no
/// attempt, so the next failed outcome is terminal for the request.
pub proof fn lemma_retry_policy_exhausted(states: Seq<RequestState>)
    requires
        states.len() >= 1,
        states[0].wf(),
        !states[0].list_mode,
        !states[0].failed,
        states[0].next_hop < states[0].hops@.len(),
        states[0].attempts@[states[0].next_hop as int] == 0,
        spec_retry_chain(states),
        states.len() == states[0].attempts_allowed,
    ensures
        states.last().attempts@[states[0].next_hop as int] + 1 >= states[0].attempts_allowed,
{
    lemma_retry_chain_state(states);
}

/// List ordering law: outcomes land by slot index alone, so two
/// outcomes for different slots leave the same state whichever arrives
/// first — the assembled output keeps configuration order regardless of
/// completion order.
pub proof fn lemma_list_order_independent(
    s0: RequestState,
    i: int,
    oi: Result<TranslationVecOutput, Error>,
    j: int,
    oj: Result<TranslationVecOutput, Error>,
    s1: RequestState,
    s2: RequestState,
    t1: RequestState,
    t2: RequestState,
)
    requires
        i != j,
        0 <= i < s0.hops@.len(),
        0 <= j < s0.hops@.len(),
        s0.wf(),
        s0.list_mode,
        RequestState::spec_list_step(s0, i, oi, s1),
        RequestState::spec_list_step(s1, j, oj, s2),
        RequestState::spec_list_step(s0, j, oj, t1),
        RequestState::spec_list_step(t1, i, oi, t2),
    ensures
        s2.hops == t2.hops,
        s2.records == t2.records,
        s2.slots@ == t2.slots@,
        s2.fails@ == t2.fails@,
        s2.attempts@ == t2.attempts@,
        s2.next_hop == t2.next_hop,
        s2.failed == t2.failed,
{
    assert(s2.slots@ =~= t2.slots@);
    assert(s2.fails@ =~= t2.fails@);
    assert(s2.attempts@ =~= t2.attempts@);
}

} // verus!
