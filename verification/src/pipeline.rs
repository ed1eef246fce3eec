//! The voice-asset generation pipeline, as a state machine the surrounding
//! process drives.  The pipeline hands out, in slot order, the utterance
//! text of each query to request; collects the returned query blobs; hands
//! out one batch per hour for synthesis; and unpacks each hour's returned
//! archive into the slot assets to store, entry i of the archive belonging
//! to the hour's i-th slot.  An hour succeeds exactly when its archive
//! supplies one readable audio file per slot, so a successful run leaves a
//! complete file set.  The driver performs the backend calls and the file
//! writes; every decision in between is made here.

use vstd::prelude::*;
use vstd::arithmetic::div_mod::{
    lemma_fundamental_div_mod, lemma_mod_pos_bound, lemma_multiply_divide_lt,
};
use vstd::arithmetic::mul::{
    lemma_mul_basics, lemma_mul_inequality, lemma_mul_is_commutative,
    lemma_mul_is_distributive_add_other_way,
};
use crate::archive::{
    archive_entries, archive_len, open_archive, read_entry, zip_entries_of, ArchiveEntry,
};
use crate::errors::BackendError;
use crate::filenames::{voice_path, voice_path_chars};
use crate::slots::{slots_per_hour, slots_per_hour_count, valid_interval};
use crate::text::{slot_text, slot_text_chars};

verus! {

/// One generated asset: the canonical path and the audio bytes to store
/// there.
#[derive(Debug)]
pub struct SlotAudio {
    pub path: String,
    pub data: Vec<u8>,
}

/// The abstract content of a list of generated assets.
pub open spec fn outputs_view(v: Seq<SlotAudio>) -> Seq<(Seq<char>, Seq<u8>)> {
    v.map_values(|sa: SlotAudio| (sa.path@, sa.data@))
}

/// The bytes an archive entry supplies; only file entries supply any.
pub open spec fn entry_bytes(e: ArchiveEntry) -> Seq<u8> {
    match e {
        ArchiveEntry::File(b) => b,
        _ => Seq::empty(),
    }
}

/// Whether one hour's archive can supply the hour in full: the bytes parse
/// as an archive whose first s entries are all readable plain files.
pub open spec fn hour_complete(parsed: Option<Seq<ArchiveEntry>>, s: int) -> bool {
    match parsed {
        Some(es) => es.len() >= s && (forall|i: int| 0 <= i < s ==> es[i] is File),
        None => false,
    }
}

/// The assets a complete hour yields: the hour's i-th slot gets entry i's
/// bytes, at the slot's canonical path.
pub open spec fn hour_assets(h: int, interval: int, es: Seq<ArchiveEntry>, s: int) -> Seq<
    (Seq<char>, Seq<u8>),
> {
    Seq::new(s as nat, |i: int| (voice_path_chars(h, i * interval), entry_bytes(es[i])))
}

/// The generation pipeline for one run: a configured interval and style,
/// the query blobs collected so far in slot order, and the number of hours
/// already synthesized.
pub struct GenerationPipeline {
    interval: u8,
    style_id: u32,
    queries: Vec<String>,
    synth_hour: u8,
}

impl GenerationPipeline {
    /// The configured interval, in minutes.
    pub closed spec fn interval(&self) -> int {
        self.interval as int
    }

    /// The style the run synthesizes with.
    pub closed spec fn style(&self) -> u32 {
        self.style_id
    }

    /// The query blobs collected so far, in slot order over the whole day.
    pub closed spec fn queries(&self) -> Seq<Seq<char>> {
        self.queries.deep_view()
    }

    /// How many hours have been synthesized so far.
    pub closed spec fn hours_synthesized(&self) -> int {
        self.synth_hour as int
    }

    /// Every slot's query has been collected.
    pub open spec fn query_phase_done(&self) -> bool {
        self.queries().len() == 24 * slots_per_hour(self.interval())
    }

    /// Internal consistency: a valid interval, at most one day of queries,
    /// and synthesis only once the query phase is complete.
    pub closed spec fn wf(&self) -> bool {
        &&& valid_interval(self.interval())
        &&& self.queries().len() <= 24 * slots_per_hour(self.interval())
        &&& self.hours_synthesized() <= 24
        &&& self.hours_synthesized() > 0 ==> self.query_phase_done()
    }

    /// A fresh pipeline for one generation run.
    pub fn new(style_id: u32, interval: u8) -> (r: Self)
        requires
            valid_interval(interval as int),
        ensures
            r.wf(),
            r.interval() == interval as int,
            r.style() == style_id,
            r.queries() == Seq::<Seq<char>>::empty(),
            r.hours_synthesized() == 0,
    {
        let r = GenerationPipeline { interval, style_id, queries: Vec::new(), synth_hour: 0 };
        proof {
            assert(r.queries() =~= Seq::<Seq<char>>::empty());
        }
        r
    }

    /// The total number of slots of the run, the progress unit count of
    /// each of the two phases.
    pub fn total_slots(&self) -> (n: usize)
        requires
            self.wf(),
        ensures
            n == 24 * slots_per_hour(self.interval()),
    {
        let s = slots_per_hour_count(self.interval);
        24 * s
    }

    /// How many queries have been collected, the progress of the query
    /// phase.
    pub fn queries_collected(&self) -> (n: usize)
        ensures
            n == self.queries().len(),
    {
        self.queries.len()
    }

    /// How many slots have been synthesized, the progress of the synthesis
    /// phase.
    pub fn synthesized_units(&self) -> (n: usize)
        requires
            self.wf(),
        ensures
            n == self.hours_synthesized() * slots_per_hour(self.interval()),
    {
        let s = slots_per_hour_count(self.interval);
        proof {
            lemma_mul_inequality(self.hours_synthesized(), 24, s as int);
        }
        self.synth_hour as usize * s
    }

    /// The utterance text of the next query to request, or nothing once the
    /// query phase is complete.  The text is the canonical announcement of
    /// the slot the next collected blob will belong to.
    pub fn next_query_text(&self) -> (r: Option<String>)
        requires
            self.wf(),
        ensures
            r is Some <==> !self.query_phase_done(),
            r matches Some(t) ==> t@ == slot_text_chars(
                self.queries().len() as int / slots_per_hour(self.interval()),
                (self.queries().len() as int % slots_per_hour(self.interval())) * self.interval(),
            ),
    {
        let s = slots_per_hour_count(self.interval);
        let total = self.total_slots();
        let idx = self.queries.len();
        if idx >= total {
            None
        } else {
            proof {
                lemma_multiply_divide_lt(idx as int, s as int, 24);
                lemma_mod_pos_bound(idx as int, s as int);
                // The slot index within the hour keeps the minute below 60.
                lemma_mul_inequality(idx as int % s as int, 59int / self.interval(), self.interval());
                lemma_fundamental_div_mod(59, self.interval());
                lemma_mod_pos_bound(59, self.interval());
                lemma_mul_is_commutative(59int / self.interval(), self.interval());
            }
            let hour = (idx / s) as u8;
            let j = idx % s;
            let minute = (j as u8) * self.interval;
            Some(slot_text(hour, minute))
        }
    }

    /// Stores the backend's query blob for the current slot and moves to
    /// the next.
    pub fn push_query(&mut self, query: String)
        requires
            old(self).wf(),
            !old(self).query_phase_done(),
        ensures
            final(self).wf(),
            final(self).interval() == old(self).interval(),
            final(self).style() == old(self).style(),
            final(self).hours_synthesized() == old(self).hours_synthesized(),
            final(self).queries() == old(self).queries().push(query@),
    {
        self.queries.push(query);
        proof {
            assert(self.queries() =~= old(self).queries().push(query@));
        }
    }

    /// The next batch to synthesize: the hour and that hour's query blobs,
    /// in slot order, or nothing before the query phase is done or after
    /// the last hour.  The batch is exactly the day's queries for that
    /// hour, so the archive that comes back is positionally aligned with
    /// the hour's slots.
    pub fn next_batch(&self) -> (r: Option<(u8, Vec<String>)>)
        requires
            self.wf(),
        ensures
            r is Some <==> self.query_phase_done() && self.hours_synthesized() < 24,
            r matches Some(b) ==> b.0 as int == self.hours_synthesized() && b.1.deep_view()
                == self.queries().subrange(
                b.0 as int * slots_per_hour(self.interval()),
                (b.0 as int + 1) * slots_per_hour(self.interval()),
            ),
    {
        let s = slots_per_hour_count(self.interval);
        let total = self.total_slots();
        if self.queries.len() != total || self.synth_hour >= 24 {
            return None;
        }
        let h = self.synth_hour;
        proof {
            lemma_mul_inequality(h as int, 23, s as int);
            lemma_mul_inequality(h as int + 1, 24, s as int);
            lemma_mul_is_distributive_add_other_way(s as int, h as int, 1);
            lemma_mul_basics(s as int);
        }
        let start = (h as usize) * s;
        let ghost lo = h as int * s as int;
        let mut batch: Vec<String> = Vec::new();
        let mut i: usize = 0;
        while i < s
            invariant
                self.wf(),
                s == slots_per_hour(self.interval()),
                self.query_phase_done(),
                i <= s,
                lo == h as int * s as int,
                lo + s <= self.queries().len(),
                start == lo,
                batch@.len() == i as int,
                forall|j: int| 0 <= j < i as int ==> batch@[j]@ == self.queries()[lo + j],
            decreases s - i,
        {
            let q = self.queries[start + i].clone();
            proof {
                assert(q@ == self.queries()[lo + i as int]);
            }
            batch.push(q);
            i = i + 1;
        }
        proof {
            assert forall|j: int| 0 <= j < s as int implies batch.deep_view()[j]
                == self.queries().subrange(lo, lo + s as int)[j] by {
                assert(batch.deep_view()[j] == batch@[j]@);
            }
            assert(batch.deep_view() =~= self.queries().subrange(lo, lo + s as int));
        }
        Some((h, batch))
    }

    /// Unpacks one hour's synthesis archive into that hour's slot assets
    /// and advances to the next hour.  The hour succeeds exactly when the
    /// bytes parse as an archive whose first slots-per-hour entries are all
    /// readable plain files; entry i then becomes the asset at the canonical
    /// path of the hour's i-th slot, and entries beyond the hour's slot
    /// count are ignored.  Bytes that are no archive are a malformed
    /// response; an archive that is short, or holds a non-file or
    /// unreadable entry within the hour, is an incomplete one.  Any failure
    /// leaves the pipeline as it was.
    #[verifier::loop_isolation(false)]
    pub fn push_archive(&mut self, data: Vec<u8>) -> (r: Result<Vec<SlotAudio>, BackendError>)
        requires
            old(self).wf(),
            old(self).query_phase_done(),
            old(self).hours_synthesized() < 24,
        ensures
            final(self).wf(),
            final(self).interval() == old(self).interval(),
            final(self).style() == old(self).style(),
            final(self).queries() == old(self).queries(),
            r is Ok <==> hour_complete(
                zip_entries_of(data@),
                slots_per_hour(old(self).interval()),
            ),
            r is Err ==> *final(self) == *old(self),
            r == Err::<Vec<SlotAudio>, BackendError>(BackendError::MalformedArchive) <==> zip_entries_of(
                data@,
            ) is None,
            (zip_entries_of(data@) is Some && !hour_complete(
                zip_entries_of(data@),
                slots_per_hour(old(self).interval()),
            )) ==> r == Err::<Vec<SlotAudio>, BackendError>(BackendError::IncompleteArchive),
            r matches Ok(v) ==> (final(self).hours_synthesized() == old(self).hours_synthesized()
                + 1 && v@.len() == slots_per_hour(old(self).interval()) && outputs_view(v@)
                == hour_assets(
                old(self).hours_synthesized(),
                old(self).interval(),
                zip_entries_of(data@).unwrap(),
                slots_per_hour(old(self).interval()),
            )),
    {
        let mut a = match open_archive(data) {
            Ok(a) => a,
            Err(_) => {
                return Err(BackendError::MalformedArchive);
            },
        };
        let ghost es = zip_entries_of(data@).unwrap();
        let n = archive_len(&a);
        let ivl = self.interval;
        let s = slots_per_hour_count(ivl);
        let h = self.synth_hour;
        if n < s {
            return Err(BackendError::IncompleteArchive);
        }
        let mut out: Vec<SlotAudio> = Vec::new();
        let mut i: usize = 0;
        while i < s
            invariant
                archive_entries(a) == es,
                n == es.len(),
                s <= n,
                i <= s,
                forall|j: int| 0 <= j < i as int ==> es[j] is File,
                out@.len() == i as int,
                forall|j: int|
                    0 <= j < i as int ==> (#[trigger] out@[j]).path@ == voice_path_chars(
                        h as int,
                        j * ivl as int,
                    ) && out@[j].data@ == entry_bytes(es[j]),
            decreases s - i,
        {
            proof {
                // The i-th slot's minute stays below 60.
                lemma_mul_inequality(i as int, 59int / ivl as int, ivl as int);
                lemma_fundamental_div_mod(59, ivl as int);
                lemma_mod_pos_bound(59, ivl as int);
                lemma_mul_is_commutative(59int / ivl as int, ivl as int);
            }
            match read_entry(&mut a, i) {
                Ok(Some(bytes)) => {
                    let minute = (i as u8) * ivl;
                    let path = voice_path(h, minute);
                    let ghost prev = out@;
                    out.push(SlotAudio { path, data: bytes });
                    proof {
                        assert forall|j: int| 0 <= j < i as int + 1 implies (out@[j].path@
                            == voice_path_chars(h as int, j * ivl as int) && out@[j].data@
                            == entry_bytes(es[j])) by {
                            if j < i as int {
                                assert(prev[j].path@ == voice_path_chars(
                                    h as int,
                                    j * ivl as int,
                                ));
                                assert(out@[j] == prev[j]);
                            } else {
                                assert(out@[j].path@ == voice_path_chars(
                                    h as int,
                                    i as int * ivl as int,
                                ));
                                assert(out@[j].data@ == entry_bytes(es[i as int]));
                            }
                        }
                    }
                },
                Ok(None) => {
                    return Err(BackendError::IncompleteArchive);
                },
                Err(_) => {
                    return Err(BackendError::IncompleteArchive);
                },
            }
            i = i + 1;
        }
        proof {
            let ghost assets = hour_assets(h as int, ivl as int, es, s as int);
            assert forall|j: int| 0 <= j < s as int implies outputs_view(out@)[j] == assets[j] by {
                assert(outputs_view(out@)[j] == (out@[j].path@, out@[j].data@));
            }
            assert(outputs_view(out@) =~= assets);
        }
        self.synth_hour = h + 1;
        Ok(out)
    }
}

} // verus!
