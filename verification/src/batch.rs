//! Batch rendering: an ordered list of views is processed sequentially; the
//! first failure aborts the rest and the whole batch answers with a single
//! error and no partial payload; if every view succeeds, the payload is the
//! ordered comma-joined list of encoded images, one entry per view. A ghost
//! history of per-view outcomes ties the accumulated state to what happened.
use vstd::prelude::*;
use vstd::string::StringExecFns;
use crate::codec::{b64_of, comma_free, encode_png, png_of, Raster};
use crate::protocol::{spec_message, DaemonError, Response};

verus! {

/// One per-view outcome, as recorded in a batch's ghost history.
pub enum BatchEntry {
    /// The view rendered and encoded to this payload entry.
    Succeeded { png: Seq<char> },
    /// The view failed: engine failure, encode failure, or no renderer.
    Failed,
}

/// The payload entry of a history entry (empty for a failed one).
pub open spec fn entry_png(e: BatchEntry) -> Seq<char> {
    match e {
        BatchEntry::Succeeded { png } => png,
        BatchEntry::Failed => Seq::empty(),
    }
}

pub open spec fn all_succeeded(h: Seq<BatchEntry>) -> bool {
    forall|i: int| 0 <= i < h.len() ==> h[i] is Succeeded
}

/// The payload entries of a history, in view order.
pub open spec fn payloads(h: Seq<BatchEntry>) -> Seq<Seq<char>> {
    h.map_values(|e: BatchEntry| entry_png(e))
}

/// The number of commas in `s`.
pub open spec fn comma_count(s: Seq<char>) -> nat
    decreases s.len(),
{
    if s.len() == 0 {
        0
    } else {
        comma_count(s.drop_last()) + (if s.last() == ',' {
            1nat
        } else {
            0nat
        })
    }
}

pub proof fn lemma_comma_count_concat(a: Seq<char>, b: Seq<char>)
    ensures
        comma_count(a + b) == comma_count(a) + comma_count(b),
    decreases b.len(),
{
    if b.len() == 0 {
        assert(a + b =~= a);
    } else {
        assert((a + b).drop_last() =~= a + b.drop_last());
        assert((a + b).last() == b.last());
        lemma_comma_count_concat(a, b.drop_last());
    }
}

pub proof fn lemma_comma_free_count(s: Seq<char>)
    requires
        comma_free(s),
    ensures
        comma_count(s) == 0,
    decreases s.len(),
{
    if s.len() > 0 {
        assert(comma_free(s.drop_last()));
        lemma_comma_free_count(s.drop_last());
    }
}

/// The joined form of `n >= 1` comma-free parts contains exactly `n - 1`
/// commas: the payload of a fully successful batch of `n` views has exactly
/// `n` comma-separated entries.
pub proof fn lemma_join_comma_entry_count(parts: Seq<Seq<char>>)
    requires
        parts.len() >= 1,
        forall|i: int| 0 <= i < parts.len() ==> comma_free(parts[i]),
    ensures
        comma_count(join_comma_spec(parts)) == parts.len() - 1,
    decreases parts.len(),
{
    if parts.len() == 1 {
        lemma_comma_free_count(parts[0]);
    } else {
        let head = parts.drop_last();
        assert(forall|i: int| 0 <= i < head.len() ==> comma_free(head[i]));
        lemma_join_comma_entry_count(head);
        lemma_comma_count_concat(join_comma_spec(head), ","@);
        lemma_comma_count_concat(join_comma_spec(head) + ","@, parts.last());
        lemma_comma_free_count(parts.last());
        assert(comma_count(","@) == 1) by {
            reveal_strlit(",");
            assert(","@.len() == 1);
            assert(","@[0] == ',');
            assert(","@.last() == ',');
            assert(","@.drop_last() =~= Seq::<char>::empty());
            assert(comma_count(Seq::<char>::empty()) == 0);
        }
    }
}

/// The parts joined with a single comma between consecutive parts.
pub open spec fn join_comma_spec(parts: Seq<Seq<char>>) -> Seq<char>
    decreases parts.len(),
{
    if parts.len() == 0 {
        Seq::empty()
    } else if parts.len() == 1 {
        parts[0]
    } else {
        join_comma_spec(parts.drop_last()) + ","@ + parts.last()
    }
}

/// Joins the strings with commas.
pub fn join_comma(v: &Vec<String>) -> (r: String)
    ensures
        r@ == join_comma_spec(v@.map_values(|s: String| s@)),
{
    let ghost parts = v@.map_values(|s: String| s@);
    let mut r = String::new();
    let mut i: usize = 0;
    while i < v.len()
        invariant
            i <= v.len(),
            parts == v@.map_values(|s: String| s@),
            parts.len() == v@.len(),
            r@ == join_comma_spec(parts.take(i as int)),
        decreases v.len() - i,
    {
        if i > 0 {
            r.append(",");
        }
        r.append(v[i].as_str());
        proof {
            let p1 = parts.take(i as int + 1);
            assert(p1.drop_last() =~= parts.take(i as int));
            assert(p1.last() == parts[i as int]);
            assert(r@ =~= join_comma_spec(p1));
        }
        i += 1;
    }
    proof {
        assert(parts.take(v@.len() as int) =~= parts);
    }
    r
}

/// The running state of one `render_batch` command: the payload entries
/// accumulated so far, the failure that aborted the batch (if any), and the
/// ghost history of per-view outcomes.
pub struct BatchRun {
    pub pngs: Vec<String>,
    pub failed: Option<DaemonError>,
    pub history: Ghost<Seq<BatchEntry>>,
}

impl BatchRun {
    /// While no failure occurred, every recorded view succeeded and the
    /// accumulated entries are exactly the history's payloads, in order.
    pub open spec fn wf(self) -> bool {
        self.failed is None ==> {
            &&& all_succeeded(self.history@)
            &&& self.pngs@.len() == self.history@.len()
            &&& forall|i: int|
                0 <= i < self.history@.len() ==> self.pngs@[i]@ == entry_png(self.history@[i])
            &&& forall|i: int| 0 <= i < self.pngs@.len() ==> comma_free(self.pngs@[i]@)
        }
    }

    /// An empty batch in progress.
    pub fn new() -> (r: BatchRun)
        ensures
            r.wf(),
            r.failed is None,
            r.history@ == Seq::<BatchEntry>::empty(),
            r.pngs@.len() == 0,
    {
        BatchRun { pngs: Vec::new(), failed: None, history: Ghost(Seq::empty()) }
    }

    /// Records one view's outcome: an engine failure aborts the batch with
    /// the batch-render error; a raster is encoded, a payload entry appended
    /// on success, and an encode failure aborts the batch too. The returned
    /// flag says whether the batch goes on.
    pub fn step(&mut self, outcome: Result<Raster, String>) -> (cont: bool)
        requires
            old(self).wf(),
            old(self).failed is None,
        ensures
            final(self).wf(),
            cont <==> final(self).failed is None,
            final(self).history@.len() == old(self).history@.len() + 1,
            outcome matches Err(d) ==> (final(self).failed == Some(
                DaemonError::BatchRender { detail: d },
            ) && final(self).history@ == old(self).history@.push(BatchEntry::Failed)
                && final(self).pngs@ == old(self).pngs@),
            outcome matches Ok(raster) ==> (cont ==> (final(self).history@ == old(
                self,
            ).history@.push(
                BatchEntry::Succeeded {
                    png: b64_of(png_of(raster.pixels@, raster.width, raster.height)),
                },
            ) && final(self).pngs@.len() == old(self).pngs@.len() + 1)),
            outcome matches Ok(raster) ==> (!cont ==> ((final(self).failed matches Some(e)
                && e matches DaemonError::Encode { .. }) && final(self).history@ == old(
                self,
            ).history@.push(BatchEntry::Failed) && final(self).pngs@ == old(self).pngs@)),
            outcome matches Ok(raster) ==> (!raster.wf() ==> !cont),
            outcome matches Ok(raster) ==> ((raster.wf() && raster.width > 0
                && raster.height > 0) ==> cont),
    {
        match outcome {
            Ok(raster) => {
                match encode_png(&raster) {
                    Ok(png) => {
                        proof {
                            let entry = BatchEntry::Succeeded { png: png@ };
                            assert(entry_png(entry) == png@);
                        }
                        self.history = Ghost(
                            self.history@.push(BatchEntry::Succeeded { png: png@ }),
                        );
                        self.pngs.push(png);
                        true
                    },
                    Err(e) => {
                        self.history = Ghost(self.history@.push(BatchEntry::Failed));
                        self.failed = Some(e);
                        false
                    },
                }
            },
            Err(d) => {
                self.history = Ghost(self.history@.push(BatchEntry::Failed));
                self.failed = Some(DaemonError::BatchRender { detail: d });
                false
            },
        }
    }

    /// Aborts the batch because no renderer is initialized; like every other
    /// failure this discards any accumulated entries in the final response.
    pub fn abort_uninitialized(&mut self)
        requires
            old(self).wf(),
            old(self).failed is None,
        ensures
            final(self).wf(),
            final(self).failed == Some(DaemonError::BatchNotInitialized),
            final(self).history@ == old(self).history@.push(BatchEntry::Failed),
            final(self).pngs@ == old(self).pngs@,
    {
        self.history = Ghost(self.history@.push(BatchEntry::Failed));
        self.failed = Some(DaemonError::BatchNotInitialized);
    }

    /// The single response of the whole batch: on any failure exactly one
    /// error and no image payload at all; otherwise the comma-joined payload
    /// entries of all views, in input order.
    pub fn finish(&self) -> (r: Response)
        requires
            self.wf(),
        ensures
            r.wf(),
            self.failed matches Some(e) ==> (r.status is Error && r.png is None
                && (r.error matches Some(m) && m@ == spec_message(e))),
            self.failed is None ==> (r.status is Success && r.error is None
                && (r.png matches Some(p) && p@ == join_comma_spec(payloads(self.history@))
                && all_succeeded(self.history@)
                && (self.history@.len() >= 1 ==> comma_count(p@) == self.history@.len() - 1))),
    {
        match &self.failed {
            Some(e) => Response::failure(e),
            None => {
                let joined = join_comma(&self.pngs);
                proof {
                    let parts = self.pngs@.map_values(|s: String| s@);
                    assert(parts =~= payloads(self.history@));
                    if self.history@.len() >= 1 {
                        lemma_join_comma_entry_count(parts);
                    }
                }
                Response::ok_png(joined)
            },
        }
    }
}

} // verus!
