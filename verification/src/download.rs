use vstd::prelude::*;

use crate::errors::McsError;

verus! {

/// The bytes a chunked stream delivers, in order: the concatenation of
/// its chunks.
pub open spec fn flatten_chunks(cs: Seq<Vec<u8>>) -> Seq<u8>
    decreases cs.len(),
{
    if cs.len() == 0 {
        Seq::empty()
    } else {
        flatten_chunks(cs.drop_last()) + cs.last()@
    }
}

/// The least number of bytes a stream must deliver to be complete: the
/// declared content length, or nothing when the transport declared none.
pub open spec fn required_len(content_length: Option<u64>) -> int {
    match content_length {
        Some(t) => t as int,
        None => 0,
    }
}

proof fn lemma_flatten_take_step(cs: Seq<Vec<u8>>, i: int)
    requires
        0 <= i < cs.len(),
    ensures
        flatten_chunks(cs.take(i + 1)) == flatten_chunks(cs.take(i)) + cs[i]@,
{
    assert(cs.take(i + 1).drop_last() =~= cs.take(i));
    assert(cs.take(i + 1).last() == cs[i]);
}

proof fn lemma_flatten_take_len_monotone(cs: Seq<Vec<u8>>, i: int)
    requires
        0 <= i <= cs.len(),
    ensures
        flatten_chunks(cs.take(i)).len() <= flatten_chunks(cs).len(),
    decreases cs.len() - i,
{
    if i < cs.len() {
        lemma_flatten_take_step(cs, i);
        lemma_flatten_take_len_monotone(cs, i + 1);
    } else {
        assert(cs.take(i) =~= cs);
    }
}

/// Progress accounting for one streamed download: how many bytes have
/// arrived against the content length the transport declared, if any.
/// It only observes the stream; the bytes themselves pass by unchanged.
pub struct DownloadTracker {
    pub expected: Option<u64>,
    pub received: u64,
}

impl DownloadTracker {
    /// The progress value to report: bytes so far, clamped to the
    /// declared total when one is known.
    pub open spec fn spec_progress(&self) -> int {
        match self.expected {
            Some(t) => if self.received <= t {
                self.received as int
            } else {
                t as int
            },
            None => self.received as int,
        }
    }

    /// Whether the stream has delivered at least the declared length.
    pub open spec fn spec_complete(&self) -> bool {
        self.received >= required_len(self.expected)
    }

    pub fn new(content_length: Option<u64>) -> (t: Self)
        ensures
            t.expected == content_length,
            t.received == 0,
    {
        DownloadTracker { expected: content_length, received: 0 }
    }

    /// Accounts one chunk of `n` bytes. Progress never decreases.
    pub fn record_chunk(&mut self, n: u64)
        requires
            old(self).received + n <= u64::MAX,
        ensures
            final(self).expected == old(self).expected,
            final(self).received == old(self).received + n,
            final(self).spec_progress() >= old(self).spec_progress(),
    {
        self.received = self.received + n;
    }

    /// The value to hand to an interactive progress display.
    pub fn progress_position(&self) -> (p: u64)
        ensures
            p == self.spec_progress(),
    {
        match self.expected {
            Some(t) => if self.received <= t {
                self.received
            } else {
                t
            },
            None => self.received,
        }
    }

    /// Verdict once the stream has closed: a stream shorter than the
    /// declared content length is `DownloadIncomplete`, never a
    /// silently short result.
    pub fn completion(&self) -> (r: Result<(), McsError>)
        ensures
            r is Ok <==> self.spec_complete(),
            r matches Err(e) ==> e is DownloadIncomplete,
    {
        match self.expected {
            Some(t) => if self.received >= t {
                Ok(())
            } else {
                Err(McsError::DownloadIncomplete)
            },
            None => Ok(()),
        }
    }
}

/// Materializes a downloaded byte stream: concatenates the chunks the
/// transport delivered, in order and verbatim, and checks the total
/// against the declared content length. A stream that closed early
/// yields `DownloadIncomplete` rather than a short byte string.
pub fn assemble_download(chunks: &Vec<Vec<u8>>, content_length: Option<u64>) -> (r: Result<
    Vec<u8>,
    McsError,
>)
    requires
        flatten_chunks(chunks@).len() <= u64::MAX,
    ensures
        flatten_chunks(chunks@).len() >= required_len(content_length) ==> (r matches Ok(data)
            && data@ == flatten_chunks(chunks@)),
        flatten_chunks(chunks@).len() < required_len(content_length) ==> (r matches Err(e)
            && e is DownloadIncomplete),
{
    let mut out: Vec<u8> = Vec::new();
    let mut tracker = DownloadTracker::new(content_length);
    let n = chunks.len();
    let mut k: usize = 0;
    proof {
        assert(chunks@.take(0) =~= Seq::<Vec<u8>>::empty());
    }
    while k < n
        invariant
            n == chunks@.len(),
            k <= n,
            out@ == flatten_chunks(chunks@.take(k as int)),
            tracker.expected == content_length,
            tracker.received == out@.len(),
            flatten_chunks(chunks@).len() <= u64::MAX,
        decreases n - k,
    {
        proof {
            lemma_flatten_take_step(chunks@, k as int);
            lemma_flatten_take_len_monotone(chunks@, k as int + 1);
        }
        let chunk = &chunks[k];
        let m = chunk.len();
        let mut j: usize = 0;
        while j < m
            invariant
                m == chunk@.len(),
                j <= m,
                out@ == flatten_chunks(chunks@.take(k as int)) + chunk@.take(j as int),
            decreases m - j,
        {
            let b = chunk[j];
            out.push(b);
            proof {
                assert(chunk@.take(j + 1) =~= chunk@.take(j as int).push(chunk@[j as int]));
            }
            j += 1;
        }
        proof {
            assert(chunk@.take(m as int) =~= chunk@);
        }
        tracker.record_chunk(m as u64);
        k += 1;
    }
    proof {
        assert(chunks@.take(n as int) =~= chunks@);
    }
    match tracker.completion() {
        Ok(()) => Ok(out),
        Err(e) => Err(e),
    }
}

} // verus!
