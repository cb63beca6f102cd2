use vstd::prelude::*;
use vstd::string::StringSliceAdditionalSpecFns;

use crate::session::ListenType;

verus! {

/// Separator between two listens of a batch.
pub const COMMA: u8 = 44;

/// Byte form of a string: its UTF-8 encoding.
pub open spec fn utf8(s: &str) -> Seq<u8> {
    s.spec_bytes()
}

/// Opening of a request body, up to the payload array's first element.
pub open spec fn batch_head(lt: ListenType) -> Seq<u8> {
    if lt == ListenType::Single {
        utf8("{\"listen_type\":\"single\",\"payload\":[")
    } else if lt == ListenType::Import {
        utf8("{\"listen_type\":\"import\",\"payload\":[")
    } else {
        utf8("{\"listen_type\":\"playing_now\",\"payload\":[")
    }
}

/// Closing of a request body.
pub open spec fn batch_tail() -> Seq<u8> {
    utf8("]}")
}

/// The listens, separated by commas.
pub open spec fn join_bodies(bodies: Seq<Seq<u8>>) -> Seq<u8>
    decreases bodies.len(),
{
    if bodies.len() == 0 {
        Seq::empty()
    } else if bodies.len() == 1 {
        bodies[0]
    } else {
        join_bodies(bodies.drop_last()) + seq![COMMA] + bodies.last()
    }
}

/// A full request body carrying `bodies` as its payload array.
pub open spec fn frame(lt: ListenType, bodies: Seq<Seq<u8>>) -> Seq<u8> {
    batch_head(lt) + join_bodies(bodies) + batch_tail()
}

/// One cached listen goes out as a "single" listen, several as an import.
pub open spec fn batch_type(n: nat) -> ListenType {
    if n == 1 {
        ListenType::Single
    } else {
        ListenType::Import
    }
}

/// The decimal digits of `n`, most significant first.
pub open spec fn decimal(n: nat) -> Seq<u8>
    decreases n,
{
    if n < 10 {
        seq![(48 + n) as u8]
    } else {
        decimal(n / 10).push((48 + n % 10) as u8)
    }
}

/// The cache file that holds the listen stamped `listened_at`.
pub open spec fn file_name_spec(listened_at: u64) -> Seq<u8> {
    decimal(listened_at as nat) + utf8(".json")
}

fn append_bytes(out: &mut Vec<u8>, b: &[u8])
    ensures
        final(out)@ == old(out)@ + b@,
{
    let mut i: usize = 0;
    while i < b.len()
        invariant
            i <= b@.len(),
            out@ == old(out)@ + b@.subrange(0, i as int),
        decreases b@.len() - i,
    {
        out.push(b[i]);
        i = i + 1;
        assert(out@ =~= old(out)@ + b@.subrange(0, i as int));
    }
    assert(b@.subrange(0, i as int) =~= b@);
}

fn push_decimal(out: &mut Vec<u8>, n: u64)
    ensures
        final(out)@ == old(out)@ + decimal(n as nat),
    decreases n,
{
    if n >= 10 {
        push_decimal(out, n / 10);
    }
    out.push(48 + (n % 10) as u8);
    assert(out@ =~= old(out)@ + decimal(n as nat));
}

/// Name of the cache file for a listen stamped `listened_at`:
/// `<listened_at>.json`.
pub fn cache_file_name(listened_at: u64) -> (r: Vec<u8>)
    ensures
        r@ == file_name_spec(listened_at),
{
    let mut out: Vec<u8> = Vec::new();
    push_decimal(&mut out, listened_at);
    append_bytes(&mut out, ".json".as_bytes());
    out
}

/// Request body for a batch of cached listens.
pub fn frame_batch(lt: ListenType, bodies: &Vec<Vec<u8>>) -> (r: Vec<u8>)
    ensures
        r@ == frame(lt, bodies@.map_values(|b: Vec<u8>| b@)),
{
    let ghost all = bodies@.map_values(|b: Vec<u8>| b@);
    let head: &str = match lt {
        ListenType::Single => "{\"listen_type\":\"single\",\"payload\":[",
        ListenType::Import => "{\"listen_type\":\"import\",\"payload\":[",
        ListenType::PlayingNow => "{\"listen_type\":\"playing_now\",\"payload\":[",
    };
    let mut out: Vec<u8> = Vec::new();
    append_bytes(&mut out, head.as_bytes());
    let mut i: usize = 0;
    while i < bodies.len()
        invariant
            i <= bodies@.len(),
            all == bodies@.map_values(|b: Vec<u8>| b@),
            out@ == batch_head(lt) + join_bodies(all.take(i as int)),
        decreases bodies@.len() - i,
    {
        if i > 0 {
            out.push(COMMA);
        }
        append_bytes(&mut out, bodies[i].as_slice());
        proof {
            let prev = all.take(i as int);
            let next = all.take(i as int + 1);
            assert(next.drop_last() =~= prev);
            assert(next.last() == bodies@[i as int]@);
            if i == 0 {
                assert(prev =~= Seq::<Seq<u8>>::empty());
                assert(out@ =~= batch_head(lt) + join_bodies(next));
            } else {
                assert(out@ =~= batch_head(lt) + join_bodies(next));
            }
        }
        i = i + 1;
    }
    assert(all.take(i as int) =~= all);
    append_bytes(&mut out, "]}".as_bytes());
    out
}

/// What becomes of a listen after one attempt to submit it online.
#[derive(PartialEq, Eq, Structural, Clone, Copy, Debug)]
pub enum SubmitOutcome {
    /// It went through: drain the offline cache.
    FlushCache,
    /// It failed and is a completed listen: keep it under its stamp.
    Store(u64),
    /// It failed and is a "now playing" notice, which is worthless later.
    Discard,
}

pub open spec fn outcome_spec(sent_ok: bool, listened_at: Option<u64>) -> SubmitOutcome {
    if sent_ok {
        SubmitOutcome::FlushCache
    } else {
        match listened_at {
            Some(ts) => SubmitOutcome::Store(ts),
            None => SubmitOutcome::Discard,
        }
    }
}

/// Decides the follow-up of a submission attempt.
pub fn submit_outcome(sent_ok: bool, listened_at: Option<u64>) -> (r: SubmitOutcome)
    ensures
        r == outcome_spec(sent_ok, listened_at),
{
    if sent_ok {
        SubmitOutcome::FlushCache
    } else {
        match listened_at {
            Some(ts) => SubmitOutcome::Store(ts),
            None => SubmitOutcome::Discard,
        }
    }
}

} // verus!

verus! {

/// A cached listen as the directory holds it: its stamp and its serialized
/// payload.
pub struct CachedListen {
    pub listened_at: u64,
    pub body: Vec<u8>,
}

/// The listens that wait to be sent, one per stamp.
pub struct OfflineCache {
    entries: Vec<CachedListen>,
}

/// No two entries share a stamp.
pub open spec fn stamps_unique(s: Seq<(u64, Seq<u8>)>) -> bool {
    forall|i: int, j: int| 0 <= i < j < s.len() ==> s[i].0 != s[j].0
}

/// The entries after storing `body` under `ts`: a listen with the same stamp
/// is overwritten in place, a new one is added last.
pub open spec fn put(s: Seq<(u64, Seq<u8>)>, ts: u64, body: Seq<u8>) -> Seq<(u64, Seq<u8>)> {
    if exists|i: int| 0 <= i < s.len() && s[i].0 == ts {
        let i = choose|i: int| 0 <= i < s.len() && s[i].0 == ts;
        s.update(i, (ts, body))
    } else {
        s.push((ts, body))
    }
}

/// The request that drains the entries: none when there are none.
pub open spec fn flush_spec(s: Seq<(u64, Seq<u8>)>) -> Option<(ListenType, Seq<u8>)> {
    if s.len() == 0 {
        None
    } else {
        Some((batch_type(s.len()), frame(batch_type(s.len()), s.map_values(|e: (u64, Seq<u8>)| e.1))))
    }
}

/// The entries after a drain attempt: gone if it was accepted, kept if not.
pub open spec fn after_flush(s: Seq<(u64, Seq<u8>)>, sent_ok: bool) -> Seq<(u64, Seq<u8>)> {
    if sent_ok {
        Seq::empty()
    } else {
        s
    }
}

impl View for OfflineCache {
    type V = Seq<(u64, Seq<u8>)>;

    closed spec fn view(&self) -> Seq<(u64, Seq<u8>)> {
        self.entries@.map_values(|e: CachedListen| (e.listened_at, e.body@))
    }
}

impl OfflineCache {
    pub open spec fn wf(&self) -> bool {
        stamps_unique(self@)
    }

    pub fn new() -> (r: OfflineCache)
        ensures
            r.wf(),
            r@ == Seq::<(u64, Seq<u8>)>::empty(),
    {
        let r = OfflineCache { entries: Vec::new() };
        assert(r@ =~= Seq::<(u64, Seq<u8>)>::empty());
        r
    }

    pub fn len(&self) -> (r: usize)
        ensures
            r == self@.len(),
    {
        self.entries.len()
    }

    /// Stores a listen under its stamp, replacing one stored under the same
    /// stamp.
    pub fn enqueue(&mut self, listened_at: u64, body: Vec<u8>)
        requires
            old(self).wf(),
        ensures
            final(self).wf(),
            final(self)@ == put(old(self)@, listened_at, body@),
    {
        let ghost s = self@;
        let ghost b = body@;
        let mut i: usize = 0;
        while i < self.entries.len()
            invariant
                i <= self.entries@.len(),
                s == self@,
                s == old(self)@,
                b == body@,
                stamps_unique(s),
                forall|k: int| 0 <= k < i ==> s[k].0 != listened_at,
            decreases self.entries@.len() - i,
        {
            if self.entries[i].listened_at == listened_at {
                assert(0 <= i < s.len() && s[i as int].0 == listened_at);
                let ghost before = self.entries@;
                self.entries.set(i, CachedListen { listened_at, body });
                proof {
                    let w = choose|k: int| 0 <= k < s.len() && s[k].0 == listened_at;
                    assert(w == i);
                    assert forall|k: int| 0 <= k < s.len() implies #[trigger] self@[k] == s.update(
                        i as int,
                        (listened_at, b),
                    )[k] by {
                        if k != i {
                            assert(self.entries@[k] == before[k]);
                        }
                    }
                    assert(self@ =~= s.update(i as int, (listened_at, b)));
                    assert(put(s, listened_at, b) == s.update(i as int, (listened_at, b)));
                }
                return;
            }
            i = i + 1;
        }
        self.entries.push(CachedListen { listened_at, body });
        assert(self@ =~= s.push((listened_at, b)));
    }

    /// The stamps of the stored listens, in storage order.
    pub fn stamps(&self) -> (r: Vec<u64>)
        ensures
            r@ == self@.map_values(|e: (u64, Seq<u8>)| e.0),
    {
        let mut r: Vec<u64> = Vec::new();
        let mut i: usize = 0;
        while i < self.entries.len()
            invariant
                i <= self.entries@.len(),
                r@ == self@.take(i as int).map_values(|e: (u64, Seq<u8>)| e.0),
            decreases self.entries@.len() - i,
        {
            r.push(self.entries[i].listened_at);
            i = i + 1;
            assert(r@ =~= self@.take(i as int).map_values(|e: (u64, Seq<u8>)| e.0));
        }
        assert(self@.take(i as int) =~= self@);
        r
    }

    /// The request that would drain the cache, with its listen type: one
    /// listen goes as "single", several as one "import".
    pub fn flush_request(&self) -> (r: Option<(ListenType, Vec<u8>)>)
        ensures
            match r {
                Some((lt, bytes)) => flush_spec(self@) == Some((lt, bytes@)),
                None => flush_spec(self@) is None,
            },
    {
        let n = self.entries.len();
        if n == 0 {
            return None;
        }
        let mut bodies: Vec<Vec<u8>> = Vec::new();
        let mut i: usize = 0;
        while i < n
            invariant
                n == self.entries@.len(),
                i <= n,
                bodies@.len() == i,
                forall|k: int| 0 <= k < i ==> bodies@[k]@ == self.entries@[k].body@,
            decreases n - i,
        {
            bodies.push(copy_bytes(&self.entries[i].body));
            i = i + 1;
        }
        assert(bodies@.map_values(|b: Vec<u8>| b@) =~= self@.map_values(|e: (u64, Seq<u8>)| e.1));
        let lt = if n == 1 {
            ListenType::Single
        } else {
            ListenType::Import
        };
        Some((lt, frame_batch(lt, &bodies)))
    }

    /// Records the result of sending the drain request: an accepted request
    /// empties the cache, a failed one leaves it for the next attempt.
    pub fn flushed(&mut self, sent_ok: bool)
        requires
            old(self).wf(),
        ensures
            final(self).wf(),
            final(self)@ == after_flush(old(self)@, sent_ok),
    {
        if sent_ok {
            self.entries = Vec::new();
            assert(self@ =~= Seq::<(u64, Seq<u8>)>::empty());
        }
    }
}

fn copy_bytes(b: &Vec<u8>) -> (r: Vec<u8>)
    ensures
        r@ == b@,
{
    let mut r: Vec<u8> = Vec::new();
    append_bytes(&mut r, b.as_slice());
    r
}

/// Storing a listen in an empty cache and draining it sends exactly that
/// listen as a "single" listen, and an accepted drain leaves the cache empty.
pub proof fn lemma_enqueue_flush_round_trip(ts: u64, body: Seq<u8>)
    ensures
        put(Seq::empty(), ts, body) == seq![(ts, body)],
        flush_spec(put(Seq::empty(), ts, body)) == Some(
            (ListenType::Single, frame(ListenType::Single, seq![body])),
        ),
        after_flush(put(Seq::empty(), ts, body), true).len() == 0,
{
    let s = put(Seq::empty(), ts, body);
    assert(s =~= seq![(ts, body)]);
    assert(s.map_values(|e: (u64, Seq<u8>)| e.1) =~= seq![body]);
}

/// A drain of `n > 1` listens is one "import" request whose payload holds all
/// `n` of them in order; a drain of one is a "single" request.
pub proof fn lemma_batch_kind(s: Seq<(u64, Seq<u8>)>)
    requires
        s.len() > 0,
    ensures
        flush_spec(s) is Some,
        s.len() == 1 ==> flush_spec(s)->Some_0.0 == ListenType::Single,
        s.len() > 1 ==> flush_spec(s)->Some_0.0 == ListenType::Import,
        flush_spec(s)->Some_0.1 == batch_head(flush_spec(s)->Some_0.0) + join_bodies(
            s.map_values(|e: (u64, Seq<u8>)| e.1),
        ) + batch_tail(),
        s.map_values(|e: (u64, Seq<u8>)| e.1).len() == s.len(),
{
}

} // verus!
