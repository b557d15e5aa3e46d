//! The watch event decoder: splits a continuous byte stream into
//! newline-delimited frames, decodes each frame as an event envelope — a
//! `type` discriminator plus an embedded `object` payload — and yields the
//! typed events strictly in arrival order. A frame that fails to decode is
//! silently dropped from the produced sequence; it neither ends the stream
//! nor surfaces an error. The sequence ends when the underlying stream
//! ends; reconnecting belongs to a caller-level loop.

use core::marker::PhantomData;
use vstd::prelude::*;

use crate::bytes::{
    bytes_eq, find_byte, find_from, lemma_find_from_first, lemma_find_from_none,
    lemma_find_from_some, match_at, matches_at, push_all, subvec, NEWLINE, QUOTE,
};
use crate::resource::{KubeObject, WatchEvent, WatchEventView};
use crate::status::Status;

verus! {

/// The bytes of `{"type":"`.
pub open spec fn type_prefix() -> Seq<u8> {
    seq![
        '{' as u8, '"' as u8, 't' as u8, 'y' as u8, 'p' as u8, 'e' as u8, '"' as u8, ':' as u8,
        '"' as u8,
    ]
}

/// The bytes of `","object":`.
pub open spec fn object_prefix() -> Seq<u8> {
    seq![
        '"' as u8, ',' as u8, '"' as u8, 'o' as u8, 'b' as u8, 'j' as u8, 'e' as u8, 'c' as u8,
        't' as u8, '"' as u8, ':' as u8,
    ]
}

/// The discriminator word `ADDED`.
pub open spec fn added_word() -> Seq<u8> {
    seq!['A' as u8, 'D' as u8, 'D' as u8, 'E' as u8, 'D' as u8]
}

/// The discriminator word `MODIFIED`.
pub open spec fn modified_word() -> Seq<u8> {
    seq!['M' as u8, 'O' as u8, 'D' as u8, 'I' as u8, 'F' as u8, 'I' as u8, 'E' as u8, 'D' as u8]
}

/// The discriminator word `DELETED`.
pub open spec fn deleted_word() -> Seq<u8> {
    seq!['D' as u8, 'E' as u8, 'L' as u8, 'E' as u8, 'T' as u8, 'E' as u8, 'D' as u8]
}

/// The discriminator word `ERROR`.
pub open spec fn error_word() -> Seq<u8> {
    seq!['E' as u8, 'R' as u8, 'R' as u8, 'O' as u8, 'R' as u8]
}

/// Builds the bytes of `{"type":"`.
fn type_prefix_vec() -> (v: Vec<u8>)
    ensures
        v@ == type_prefix(),
{
    let mut v: Vec<u8> = Vec::new();
    v.push('{' as u8);
    v.push('"' as u8);
    v.push('t' as u8);
    v.push('y' as u8);
    v.push('p' as u8);
    v.push('e' as u8);
    v.push('"' as u8);
    v.push(':' as u8);
    v.push('"' as u8);
    proof {
        assert(v@ =~= type_prefix());
    }
    v
}

/// Builds the bytes of `","object":`.
fn object_prefix_vec() -> (v: Vec<u8>)
    ensures
        v@ == object_prefix(),
{
    let mut v: Vec<u8> = Vec::new();
    v.push('"' as u8);
    v.push(',' as u8);
    v.push('"' as u8);
    v.push('o' as u8);
    v.push('b' as u8);
    v.push('j' as u8);
    v.push('e' as u8);
    v.push('c' as u8);
    v.push('t' as u8);
    v.push('"' as u8);
    v.push(':' as u8);
    proof {
        assert(v@ =~= object_prefix());
    }
    v
}

/// Builds the bytes of `ADDED`.
fn added_vec() -> (v: Vec<u8>)
    ensures
        v@ == added_word(),
{
    let mut v: Vec<u8> = Vec::new();
    v.push('A' as u8);
    v.push('D' as u8);
    v.push('D' as u8);
    v.push('E' as u8);
    v.push('D' as u8);
    proof {
        assert(v@ =~= added_word());
    }
    v
}

/// Builds the bytes of `MODIFIED`.
fn modified_vec() -> (v: Vec<u8>)
    ensures
        v@ == modified_word(),
{
    let mut v: Vec<u8> = Vec::new();
    v.push('M' as u8);
    v.push('O' as u8);
    v.push('D' as u8);
    v.push('I' as u8);
    v.push('F' as u8);
    v.push('I' as u8);
    v.push('E' as u8);
    v.push('D' as u8);
    proof {
        assert(v@ =~= modified_word());
    }
    v
}

/// Builds the bytes of `DELETED`.
fn deleted_vec() -> (v: Vec<u8>)
    ensures
        v@ == deleted_word(),
{
    let mut v: Vec<u8> = Vec::new();
    v.push('D' as u8);
    v.push('E' as u8);
    v.push('L' as u8);
    v.push('E' as u8);
    v.push('T' as u8);
    v.push('E' as u8);
    v.push('D' as u8);
    proof {
        assert(v@ =~= deleted_word());
    }
    v
}

/// Builds the bytes of `ERROR`.
fn error_vec() -> (v: Vec<u8>)
    ensures
        v@ == error_word(),
{
    let mut v: Vec<u8> = Vec::new();
    v.push('E' as u8);
    v.push('R' as u8);
    v.push('R' as u8);
    v.push('O' as u8);
    v.push('R' as u8);
    proof {
        assert(v@ =~= error_word());
    }
    v
}

/// The event a single frame decodes to, if any: the frame must be the JSON
/// object `{"type":"<WORD>","object":<PAYLOAD>}` with a known word and a
/// payload that decodes as `K` (or, for `ERROR`, as an operation status).
pub open spec fn frame_event<K: KubeObject>(f: Seq<u8>) -> Option<WatchEventView<K::V>> {
    if !matches_at(f, 0, type_prefix()) {
        None
    } else {
        match find_from(f, QUOTE, 9) {
            Option::None => None,
            Option::Some(w) => {
                if !matches_at(f, w, object_prefix()) {
                    None
                } else if f.len() < w + 12 {
                    None
                } else if f[f.len() - 1] != '}' as u8 {
                    None
                } else {
                    let word = f.subrange(9, w);
                    let payload = f.subrange(w + 11, f.len() - 1);
                    if word == added_word() {
                        match K::decode_of(payload) {
                            Option::Some(v) => Some(WatchEventView::Added(v)),
                            Option::None => None,
                        }
                    } else if word == modified_word() {
                        match K::decode_of(payload) {
                            Option::Some(v) => Some(WatchEventView::Modified(v)),
                            Option::None => None,
                        }
                    } else if word == deleted_word() {
                        match K::decode_of(payload) {
                            Option::Some(v) => Some(WatchEventView::Deleted(v)),
                            Option::None => None,
                        }
                    } else if word == error_word() {
                        match <Status as KubeObject>::decode_of(payload) {
                            Option::Some(sv) => Some(WatchEventView::Error(sv)),
                            Option::None => None,
                        }
                    } else {
                        None
                    }
                }
            },
        }
    }
}

/// Decodes one frame, yielding its event or nothing for a malformed frame.
pub fn decode_frame<K: KubeObject>(f: &[u8]) -> (r: Option<WatchEvent<K>>)
    ensures
        match r {
            Some(e) => frame_event::<K>(f@) == Some(e@),
            None => frame_event::<K>(f@) is None,
        },
{
    let tp = type_prefix_vec();
    if !match_at(f, 0, tp.as_slice()) {
        return None;
    }
    match find_byte(f, QUOTE, 9) {
        Option::None => None,
        Option::Some(w) => {
            proof {
                lemma_find_from_some(f@, QUOTE, 9);
            }
            let op = object_prefix_vec();
            if !match_at(f, w, op.as_slice()) {
                return None;
            }
            if f.len() < 12 || w > f.len() - 12 {
                proof {
                    assert(f@.len() < w + 12);
                }
                return None;
            }
            if f[f.len() - 1] != '}' as u8 {
                return None;
            }
            let word = subvec(f, 9, w);
            let payload = subvec(f, w + 11, f.len() - 1);
            if bytes_eq(word.as_slice(), added_vec().as_slice()) {
                match K::decode(payload.as_slice()) {
                    Option::Some(k) => Some(WatchEvent::Added(k)),
                    Option::None => None,
                }
            } else if bytes_eq(word.as_slice(), modified_vec().as_slice()) {
                match K::decode(payload.as_slice()) {
                    Option::Some(k) => Some(WatchEvent::Modified(k)),
                    Option::None => None,
                }
            } else if bytes_eq(word.as_slice(), deleted_vec().as_slice()) {
                match K::decode(payload.as_slice()) {
                    Option::Some(k) => Some(WatchEvent::Deleted(k)),
                    Option::None => None,
                }
            } else if bytes_eq(word.as_slice(), error_vec().as_slice()) {
                match <Status as KubeObject>::decode(payload.as_slice()) {
                    Option::Some(st) => Some(WatchEvent::Error(st)),
                    Option::None => None,
                }
            } else {
                None
            }
        },
    }
}

/// The exact event sequence a byte stream decodes to: its newline-delimited
/// frames in arrival order, each well-formed frame contributing its event
/// and each malformed frame contributing nothing.
pub open spec fn events_of<K: KubeObject>(s: Seq<u8>) -> Seq<WatchEventView<K::V>>
    decreases s.len(),
    via events_of_decreases::<K>
{
    match find_from(s, NEWLINE, 0) {
        Option::None => Seq::empty(),
        Option::Some(i) => {
            let frame = s.subrange(0, i);
            let rest = s.subrange(i + 1, s.len() as int);
            match frame_event::<K>(frame) {
                Option::Some(e) => seq![e] + events_of::<K>(rest),
                Option::None => events_of::<K>(rest),
            }
        },
    }
}

#[via_fn]
proof fn events_of_decreases<K: KubeObject>(s: Seq<u8>) {
    lemma_find_from_some(s, NEWLINE, 0);
}

/// Peeling one whole frame off the front of a stream splits its event
/// sequence accordingly.
pub proof fn lemma_events_of_split<K: KubeObject>(frame: Seq<u8>, rest: Seq<u8>)
    requires
        find_from(frame, NEWLINE, 0) is None,
    ensures
        events_of::<K>(frame + seq![NEWLINE] + rest) == match frame_event::<K>(frame) {
            Option::Some(e) => seq![e] + events_of::<K>(rest),
            Option::None => events_of::<K>(rest),
        },
{
    let s = frame + seq![NEWLINE] + rest;
    lemma_find_from_none(frame, NEWLINE, 0);
    assert forall|j: int| 0 <= j < frame.len() implies s[j] != NEWLINE by {
        assert(s[j] == frame[j]);
    }
    assert(s[frame.len() as int] == NEWLINE);
    lemma_find_from_first(s, NEWLINE, 0, frame.len() as int);
    assert(s.subrange(0, frame.len() as int) =~= frame);
    assert(s.subrange(frame.len() as int + 1, s.len() as int) =~= rest);
}

/// Law: a stream holding no complete frame yields no event. In particular
/// a watch started at the exact version snapshot a list returned, with no
/// concurrent mutation, has nothing to send and replays nothing.
pub proof fn lemma_quiet_stream_no_events<K: KubeObject>(s: Seq<u8>)
    requires
        find_from(s, NEWLINE, 0) is None,
    ensures
        events_of::<K>(s) == Seq::<WatchEventView<K::V>>::empty(),
{
}

/// Decodes a whole, already-ended stream into its event sequence.
pub fn decode_all<K: KubeObject>(input: &[u8]) -> (r: Vec<WatchEvent<K>>)
    ensures
        r@.map_values(|e: WatchEvent<K>| e@) == events_of::<K>(input@),
    decreases input@.len(),
{
    match find_byte(input, NEWLINE, 0) {
        Option::None => {
            let r: Vec<WatchEvent<K>> = Vec::new();
            proof {
                assert(r@.map_values(|e: WatchEvent<K>| e@) =~= events_of::<K>(input@));
            }
            r
        },
        Option::Some(i) => {
            proof {
                lemma_find_from_some(input@, NEWLINE, 0);
            }
            let n = input.len();
            let frame = subvec(input, 0, i);
            let rest = subvec(input, i + 1, n);
            let mut tail = decode_all::<K>(rest.as_slice());
            match decode_frame::<K>(frame.as_slice()) {
                Option::Some(e) => {
                    let ghost tail0 = tail@;
                    let mut out: Vec<WatchEvent<K>> = Vec::new();
                    out.push(e);
                    out.append(&mut tail);
                    proof {
                        assert(out@ =~= seq![e] + tail0);
                        assert(out@.map_values(|x: WatchEvent<K>| x@) =~= seq![e@]
                            + tail0.map_values(|x: WatchEvent<K>| x@));
                    }
                    out
                },
                Option::None => tail,
            }
        },
    }
}

/// The event sequence a pull result contributes: one event or none.
pub open spec fn opt_event<K: KubeObject>(r: Option<WatchEvent<K>>) -> Seq<WatchEventView<K::V>> {
    match r {
        Option::Some(e) => seq![e@],
        Option::None => Seq::empty(),
    }
}

/// The incremental watch decoder: a forward-only, non-restartable cursor
/// over the streamed response. The caller's loop feeds arriving chunks
/// with [`WatchDecoder::push_bytes`] and pulls assembled events with
/// [`WatchDecoder::next_event`]; no event is produced ahead of demand.
#[derive(Debug)]
pub struct WatchDecoder<K> {
    buf: Vec<u8>,
    _marker: PhantomData<K>,
}

impl<K: KubeObject> WatchDecoder<K> {
    /// The bytes received and not yet consumed into events.
    pub closed spec fn buffered(&self) -> Seq<u8> {
        self.buf@
    }

    /// An empty decoder.
    pub fn new() -> (r: Self)
        ensures
            r.buffered() == Seq::<u8>::empty(),
    {
        let buf: Vec<u8> = Vec::new();
        WatchDecoder { buf, _marker: PhantomData }
    }

    /// Feeds the next chunk of the streamed response.
    pub fn push_bytes(&mut self, chunk: &[u8])
        ensures
            final(self).buffered() == old(self).buffered() + chunk@,
    {
        push_all(&mut self.buf, chunk);
    }

    /// Pulls the next event: consumes complete frames in arrival order,
    /// dropping malformed ones, until an event is assembled or no complete
    /// frame remains. Whatever bytes arrive later, the events of the
    /// buffer are exactly what was pulled plus the events still pending.
    pub fn next_event(&mut self) -> (r: Option<WatchEvent<K>>)
        ensures
            forall|z: Seq<u8>|
                #[trigger] events_of::<K>(old(self).buffered() + z) == opt_event(r) + events_of::<
                    K,
                >(final(self).buffered() + z),
            events_of::<K>(old(self).buffered()) == opt_event(r) + events_of::<K>(
                final(self).buffered(),
            ),
            r is None ==> find_from(final(self).buffered(), NEWLINE, 0) is None,
        decreases self.buffered().len(),
    {
        match find_byte(self.buf.as_slice(), NEWLINE, 0) {
            Option::None => {
                proof {
                    assert forall|z: Seq<u8>|
                        #[trigger] events_of::<K>(old(self).buffered() + z) == opt_event(
                            None::<WatchEvent<K>>,
                        ) + events_of::<K>(self.buffered() + z) by {
                        assert(opt_event(None::<WatchEvent<K>>) + events_of::<K>(
                            self.buffered() + z,
                        ) =~= events_of::<K>(self.buffered() + z));
                    }
                    assert(opt_event(None::<WatchEvent<K>>) + events_of::<K>(self.buffered()) =~=
                    events_of::<K>(self.buffered()));
                }
                None
            },
            Option::Some(i) => {
                proof {
                    lemma_find_from_some(self.buf@, NEWLINE, 0);
                }
                let n = self.buf.len();
                let frame = subvec(self.buf.as_slice(), 0, i);
                let rest = subvec(self.buf.as_slice(), i + 1, n);
                let ghost pre = self.buf@;
                self.buf = rest;
                proof {
                    assert(forall|j: int| 0 <= j < frame@.len() ==> frame@[j] != NEWLINE);
                    lemma_find_from_none(frame@, NEWLINE, 0);
                    assert forall|z: Seq<u8>|
                        #[trigger] events_of::<K>(pre + z) == (match frame_event::<K>(frame@) {
                            Option::Some(ev) => seq![ev] + events_of::<K>(self.buf@ + z),
                            Option::None => events_of::<K>(self.buf@ + z),
                        }) by {
                        assert(pre + z =~= frame@ + seq![NEWLINE] + (self.buf@ + z));
                        lemma_events_of_split::<K>(frame@, self.buf@ + z);
                    }
                }
                match decode_frame::<K>(frame.as_slice()) {
                    Option::Some(e) => {
                        proof {
                            assert forall|z: Seq<u8>|
                                #[trigger] events_of::<K>(pre + z) == opt_event(
                                    Some(e),
                                ) + events_of::<K>(self.buf@ + z) by {
                                assert(events_of::<K>(pre + z) == seq![e@] + events_of::<K>(
                                    self.buf@ + z,
                                ));
                                assert(opt_event(Some(e)) =~= seq![e@]);
                            }
                            assert(pre + Seq::<u8>::empty() =~= pre);
                            assert(self.buf@ + Seq::<u8>::empty() =~= self.buf@);
                            assert(events_of::<K>(pre) == opt_event(Some(e)) + events_of::<K>(
                                self.buf@,
                            ));
                        }
                        Some(e)
                    },
                    Option::None => {
                        let ghost mid = self.buf@;
                        let r = self.next_event();
                        proof {
                            assert forall|z: Seq<u8>|
                                #[trigger] events_of::<K>(pre + z) == opt_event(r) + events_of::<
                                    K,
                                >(self.buf@ + z) by {
                                assert(events_of::<K>(pre + z) == events_of::<K>(mid + z));
                                assert(events_of::<K>(mid + z) == opt_event(r) + events_of::<K>(
                                    self.buf@ + z,
                                ));
                            }
                            assert(pre + Seq::<u8>::empty() =~= pre);
                            assert(self.buf@ + Seq::<u8>::empty() =~= self.buf@);
                            assert(events_of::<K>(pre) == opt_event(r) + events_of::<K>(
                                self.buf@,
                            ));
                        }
                        r
                    },
                }
            },
        }
    }
}

} // verus!
