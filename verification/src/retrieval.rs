//! The retrieval pipeline's decisions: which request a pass answers, which
//! ranked hits survive deduplication, the context budget and the limit, and
//! how the survivors become a cited answer. Scoring and ranking (floating
//! point) and the database live with the caller.

use vstd::prelude::*;
use crate::citations::{
    consistent_citations, AnnotatedAnswer, Citation, CitationLocation, ClaimBlock, ClaimLabel,
    TrustClassification,
};

verus! {

/// Dimension of the vectors embedding adapters produce.
pub const EMBED_DIM: usize = 384;

/// A deterministic embedding stub: the SHA-256 of the text, spread over
/// the vector. Stable, not semantically meaningful.
pub struct StubEmbeddingProvider;

/// Sensitivity filter of a retrieval pass; local-only content never
/// crosses to a cloud provider.
#[derive(Debug, Clone, Copy, PartialEq, Eq, Structural)]
pub enum SensitivityFilter {
    /// Include all current records.
    All,
    /// Exclude local-only records (for cloud-bound context).
    ExcludeLocalOnly,
}

/// Parameters of a retrieval pass.
#[derive(Debug, Clone)]
pub struct RetrievalRequest {
    pub query: String,
    pub limit: u32,
    pub sensitivity: SensitivityFilter,
    /// Most snippet characters returned in all (the context budget).
    pub context_budget_chars: usize,
}

impl Default for RetrievalRequest {
    fn default() -> (r: Self)
        ensures
            r.query@.len() == 0,
            r.limit == 10,
            r.sensitivity == SensitivityFilter::All,
            r.context_budget_chars == 4000,
    {
        RetrievalRequest { query: String::new(), limit: 10, sensitivity: SensitivityFilter::All, context_budget_chars: 4000 }
    }
}

/// Whether a record of this sensitivity may be returned under the filter.
pub fn passes_filter(filter: SensitivityFilter, sensitivity: &str) -> (b: bool)
    ensures
        b == (filter == SensitivityFilter::All || sensitivity@ != "local_only"@),
{
    match filter {
        SensitivityFilter::All => true,
        SensitivityFilter::ExcludeLocalOnly => !crate::text::str_eq(sensitivity, "local_only"),
    }
}

/// Hit `i` is the first of its record id among the ranked hits.
pub open spec fn first_of_id(ids: Seq<Seq<char>>, i: int) -> bool {
    forall|k: int| 0 <= k < i ==> #[trigger] ids[k] != ids[i]
}

/// The ranked hits that survive deduplication (first of each id), in order.
pub open spec fn deduped(ids: Seq<Seq<char>>, n: int) -> Seq<int>
    decreases n,
{
    if n <= 0 {
        Seq::empty()
    } else if first_of_id(ids, n - 1) {
        deduped(ids, n - 1).push(n - 1)
    } else {
        deduped(ids, n - 1)
    }
}

/// Total snippet characters of the given hits.
pub open spec fn total_chars(lens: Seq<usize>, picks: Seq<int>) -> nat
    decreases picks.len(),
{
    if picks.len() == 0 {
        0
    } else {
        total_chars(lens, picks.drop_last()) + lens[picks.last()] as nat
    }
}

/// The longest prefix of `picks` whose snippets fit in `budget`.
pub open spec fn within_budget(lens: Seq<usize>, picks: Seq<int>, budget: nat) -> Seq<int>
    decreases picks.len(),
{
    if picks.len() == 0 {
        Seq::empty()
    } else if total_chars(lens, picks) <= budget {
        picks
    } else {
        within_budget(lens, picks.drop_last(), budget)
    }
}

/// The hits a pass returns from ranked hits (record ids and snippet
/// lengths): deduplicated, cut at the context budget, at most `limit`.
pub open spec fn selected(ids: Seq<Seq<char>>, lens: Seq<usize>, budget: nat, limit: nat) -> Seq<int> {
    let kept = within_budget(lens, deduped(ids, ids.len() as int), budget);
    if kept.len() <= limit { kept } else { kept.take(limit as int) }
}

proof fn lemma_total_monotone(lens: Seq<usize>, picks: Seq<int>, n: int)
    requires
        0 <= n <= picks.len(),
    ensures
        total_chars(lens, picks.take(n)) <= total_chars(lens, picks),
    decreases picks.len(),
{
    if n < picks.len() {
        assert(picks.drop_last().take(n) =~= picks.take(n));
        lemma_total_monotone(lens, picks.drop_last(), n);
    } else {
        assert(picks.take(n) =~= picks);
    }
}

proof fn lemma_within_budget_prefix(lens: Seq<usize>, picks: Seq<int>, budget: nat, n: int)
    requires
        0 <= n <= picks.len(),
        total_chars(lens, picks.take(n)) <= budget,
        n == picks.len() || total_chars(lens, picks.take(n + 1)) > budget,
    ensures
        within_budget(lens, picks, budget) == picks.take(n),
    decreases picks.len(),
{
    if n == picks.len() {
        assert(picks.take(n) =~= picks);
    } else {
        assert(total_chars(lens, picks) > budget) by {
            lemma_total_monotone(lens, picks, n + 1);
        }
        assert(picks.drop_last().take(n) =~= picks.take(n));
        if n + 1 < picks.len() {
            assert(picks.drop_last().take(n + 1) =~= picks.take(n + 1));
        }
        lemma_within_budget_prefix(lens, picks.drop_last(), budget, n);
    }
}

/// Deduplication keeps hits in rank order, with pairwise different record
/// ids, all among the first `n`.
proof fn lemma_deduped_shape(ids: Seq<Seq<char>>, n: int)
    requires
        0 <= n <= ids.len(),
    ensures
        forall|a: int| 0 <= a < deduped(ids, n).len() ==> 0 <= #[trigger] deduped(ids, n)[a] < n,
        forall|a: int, b: int| 0 <= a < b < deduped(ids, n).len() ==> deduped(ids, n)[a] < deduped(ids, n)[b]
            && ids[deduped(ids, n)[a]] != ids[deduped(ids, n)[b]],
    decreases n,
{
    if n > 0 {
        lemma_deduped_shape(ids, n - 1);
        let d = deduped(ids, n - 1);
        if first_of_id(ids, n - 1) {
            let e = d.push(n - 1);
            assert(deduped(ids, n) == e);
            assert forall|a: int, b: int| 0 <= a < b < e.len() implies e[a] < e[b] && ids[e[a]] != ids[e[b]] by {
                if b == d.len() {
                    assert(e[a] == d[a]);
                    assert(0 <= d[a] < n - 1);
                    assert(ids[d[a]] != ids[n - 1]);
                } else {
                    assert(e[a] == d[a] && e[b] == d[b]);
                }
            }
            assert forall|a: int| 0 <= a < e.len() implies 0 <= #[trigger] e[a] < n by {
                if a < d.len() {
                    assert(e[a] == d[a]);
                }
            }
        }
    }
}

/// Cutting at the budget keeps a prefix whose snippets fit.
proof fn lemma_within_budget_shape(lens: Seq<usize>, picks: Seq<int>, budget: nat)
    ensures
        within_budget(lens, picks, budget).len() <= picks.len(),
        within_budget(lens, picks, budget) == picks.take(within_budget(lens, picks, budget).len() as int),
        total_chars(lens, within_budget(lens, picks, budget)) <= budget,
    decreases picks.len(),
{
    if picks.len() == 0 {
        assert(picks.take(0) =~= picks);
    } else if total_chars(lens, picks) <= budget {
        assert(picks.take(picks.len() as int) =~= picks);
    } else {
        lemma_within_budget_shape(lens, picks.drop_last(), budget);
        let w = within_budget(lens, picks.drop_last(), budget);
        assert(picks.drop_last().take(w.len() as int) =~= picks.take(w.len() as int));
    }
}

/// What a retrieval pass selects: at most `limit` hits whose snippets fit
/// in the budget, with pairwise different record ids, in rank order.
pub proof fn lemma_selected_hits(ids: Seq<Seq<char>>, lens: Seq<usize>, budget: nat, limit: nat)
    requires
        ids.len() == lens.len(),
    ensures
        selected(ids, lens, budget, limit).len() <= limit,
        total_chars(lens, selected(ids, lens, budget, limit)) <= budget,
        forall|a: int| 0 <= a < selected(ids, lens, budget, limit).len()
            ==> 0 <= #[trigger] selected(ids, lens, budget, limit)[a] < ids.len(),
        forall|a: int, b: int| 0 <= a < b < selected(ids, lens, budget, limit).len()
            ==> selected(ids, lens, budget, limit)[a] < selected(ids, lens, budget, limit)[b]
            && ids[selected(ids, lens, budget, limit)[a]] != ids[selected(ids, lens, budget, limit)[b]],
{
    let d = deduped(ids, ids.len() as int);
    lemma_deduped_shape(ids, ids.len() as int);
    lemma_within_budget_shape(lens, d, budget);
    let kept = within_budget(lens, d, budget);
    let r = selected(ids, lens, budget, limit);
    if kept.len() > limit {
        lemma_total_monotone(lens, kept, limit as int);
        assert(r == kept.take(limit as int));
    }
    assert forall|a: int| 0 <= a < r.len() implies r[a] == d[a] by {
        assert(kept[a] == d[a]);
    }
    assert forall|a: int| 0 <= a < r.len() implies 0 <= #[trigger] r[a] < ids.len() by {
        assert(r[a] == d[a]);
    }
    assert forall|a: int, b: int| 0 <= a < b < r.len() implies r[a] < r[b] && ids[r[a]] != ids[r[b]] by {
        assert(r[a] == d[a] && r[b] == d[b]);
    }
}

/// Positions of the ranked hits a pass returns: the first hit of each
/// record id, while the snippets so far fit in the context budget, at most
/// `limit` of them, in rank order.
pub fn select_hits(ids: &Vec<String>, snippet_chars: &Vec<usize>, budget: usize, limit: u32) -> (r: Vec<usize>)
    requires
        ids@.len() == snippet_chars@.len(),
    ensures
        r@.map_values(|i: usize| i as int) == selected(crate::text::views_of(ids@), snippet_chars@, budget as nat, limit as nat),
{
    let ghost v = crate::text::views_of(ids@);
    let mut firsts: Vec<usize> = Vec::new();
    let mut i: usize = 0;
    while i < ids.len()
        invariant
            i <= ids@.len(),
            v == crate::text::views_of(ids@),
            firsts@.map_values(|x: usize| x as int) == deduped(v, i as int),
            forall|m: int| 0 <= m < firsts@.len() ==> (#[trigger] firsts@[m]) < i,
        decreases ids@.len() - i,
    {
        let mut k: usize = 0;
        let mut dup = false;
        while k < i
            invariant
                k <= i < ids@.len(),
                v == crate::text::views_of(ids@),
                dup == exists|m: int| 0 <= m < k && #[trigger] v[m] == v[i as int],
            decreases i - k,
        {
            assert(v[k as int] == ids@[k as int]@ && v[i as int] == ids@[i as int]@);
            if ids[k] == ids[i] {
                dup = true;
            }
            k = k + 1;
        }
        proof {
            assert(first_of_id(v, i as int) == !dup);
        }
        if !dup {
            firsts.push(i);
        }
        proof {
            assert(firsts@.map_values(|x: usize| x as int) =~= deduped(v, (i + 1) as int));
        }
        i = i + 1;
    }
    let ghost picks = deduped(v, ids@.len() as int);
    let mut kept: Vec<usize> = Vec::new();
    let mut total: usize = 0;
    let mut j: usize = 0;
    let mut over = false;
    while j < firsts.len() && !over
        invariant
            j <= firsts@.len(),
            firsts@.map_values(|x: usize| x as int) == picks,
            forall|m: int| 0 <= m < firsts@.len() ==> (#[trigger] firsts@[m]) < snippet_chars@.len(),
            ids@.len() == snippet_chars@.len(),
            total == total_chars(snippet_chars@, picks.take(j as int)),
            total <= budget,
            kept@.map_values(|x: usize| x as int) == picks.take(j as int),
            over ==> j < picks.len() && total_chars(snippet_chars@, picks.take(j + 1)) > budget,
        decreases 2 * (firsts@.len() - j) + (if over { 0int } else { 1int }),
    {
        let len = snippet_chars[firsts[j]];
        proof {
            assert(picks.take(j + 1).drop_last() =~= picks.take(j as int));
        }
        if len <= budget - total {
            total = total + len;
            kept.push(firsts[j]);
            proof {
                assert(kept@.map_values(|x: usize| x as int) =~= picks.take(j + 1));
            }
            j = j + 1;
        } else {
            over = true;
        }
    }
    proof {
        lemma_within_budget_prefix(snippet_chars@, picks, budget as nat, j as int);
    }
    let mut out: Vec<usize> = Vec::new();
    let mut m: usize = 0;
    let lim: usize = limit as usize;
    assert(lim == limit);
    while m < kept.len() && m < lim
        invariant
            m <= kept@.len(),
            m <= lim,
            lim == limit,
            out@ == kept@.take(m as int),
        decreases kept@.len() - m,
    {
        out.push(kept[m]);
        m = m + 1;
        proof {
            assert(out@ =~= kept@.take(m as int));
        }
    }
    proof {
        let kv = kept@.map_values(|x: usize| x as int);
        if kv.len() <= limit {
            assert(m == kept@.len());
            assert(out@ =~= kept@);
        } else {
            assert(m == limit);
            assert(out@.map_values(|x: usize| x as int) =~= kv.take(limit as int));
        }
        assert(out@.map_values(|x: usize| x as int) =~= (if kv.len() <= limit { kv } else { kv.take(limit as int) }));
    }
    out
}

/// A hit as an answer cites it: the record and its snippet.
#[derive(Debug, Clone)]
pub struct GroundingHit {
    pub record_id: String,
    pub snippet: String,
}

/// The id of the `i`-th citation of an assembled answer.
pub open spec fn cite_id(i: nat) -> Seq<char> {
    "cite-"@ + crate::text::decimal(i)
}

/// Assemble an answer from the hits: inference when there are none;
/// otherwise source-supported, citing every hit in order as `cite-<i>`,
/// with one stored-fact claim that cites them all. The answer never cites
/// an id it does not list.
pub fn assemble_answer(plain_text: &str, hits: &[GroundingHit]) -> (a: AnnotatedAnswer)
    ensures
        a.plain_text@ == plain_text@,
        consistent_citations(a),
        hits@.len() == 0 ==> a.trust == TrustClassification::Inference && a.citations@.len() == 0
            && a.claims@.len() == 0,
        hits@.len() > 0 ==> {
            &&& a.trust == TrustClassification::SourceSupported
            &&& a.citations@.len() == hits@.len()
            &&& forall|i: int| 0 <= i < hits@.len() ==> {
                &&& (#[trigger] a.citations@[i]).id@ == cite_id(i as nat)
                &&& a.citations@[i].snippet@ == hits@[i].snippet@
                &&& a.citations@[i].location matches CitationLocation::KnowledgeRecord { record_id }
                    && record_id@ == hits@[i].record_id@
            }
            &&& a.claims@.len() == 1
            &&& a.claims@[0].text@ == plain_text@
            &&& a.claims@[0].label == ClaimLabel::StoredFact
            &&& a.claims@[0].citations@.len() == hits@.len()
            &&& forall|i: int| 0 <= i < hits@.len() ==> (#[trigger] a.claims@[0].citations@[i])@ == cite_id(i as nat)
        },
{
    if hits.len() == 0 {
        return AnnotatedAnswer::inference(plain_text);
    }
    let mut citations: Vec<Citation> = Vec::new();
    let mut ids: Vec<String> = Vec::new();
    let mut i: usize = 0;
    while i < hits.len()
        invariant
            i <= hits@.len(),
            citations@.len() == i,
            ids@.len() == i,
            forall|k: int| 0 <= k < i ==> {
                &&& (#[trigger] citations@[k]).id@ == cite_id(k as nat)
                &&& citations@[k].snippet@ == hits@[k].snippet@
                &&& citations@[k].location matches CitationLocation::KnowledgeRecord { record_id }
                    && record_id@ == hits@[k].record_id@
            },
            forall|k: int| 0 <= k < i ==> (#[trigger] ids@[k])@ == cite_id(k as nat),
        decreases hits@.len() - i,
    {
        let mut id = "cite-".to_owned();
        crate::text::push_str(&mut id, crate::text::decimal_string(i).as_str());
        let h = &hits[i];
        ids.push(id.clone());
        citations.push(Citation {
            id,
            location: CitationLocation::KnowledgeRecord { record_id: h.record_id.clone() },
            snippet: h.snippet.clone(),
        });
        i = i + 1;
    }
    let mut claims: Vec<ClaimBlock> = Vec::new();
    claims.push(ClaimBlock { text: plain_text.to_owned(), label: ClaimLabel::StoredFact, citations: ids });
    let a = AnnotatedAnswer {
        plain_text: plain_text.to_owned(),
        trust: TrustClassification::SourceSupported,
        citations,
        claims,
    };
    proof {
        assert forall|p: int, q: int|
            0 <= p < a.claims@.len() && 0 <= q < a.claims@[p].citations@.len()
            implies crate::citations::cites_id(a.citations@, #[trigger] a.claims@[p].citations@[q]@) by {
            assert(p == 0);
            assert(a.citations@[q].id@ == cite_id(q as nat));
        }
    }
    a
}

} // verus!
