//! What a completed room holds for its creator.
use crate::key::{CipherKey, KEY_LEN};
use crate::wire::{framed, framed_text, parse_framed, parse_text, put_framed, put_text, take_framed, take_text, Wire};
use crate::wire::{lemma_framed_round_trip, lemma_text_round_trip};
use vstd::prelude::*;
use vstd::slice::slice_subrange;
use vstd::utf8::encode_utf8;

verus! {

/// The peer's transport answer and the key of the conversation.
#[derive(Debug)]
pub struct RoomData {
    /// The transport description with which the creator completes the link.
    pub responder_string: String,
    /// The key under which the conversation's messages are sealed.
    pub symmetric_key: CipherKey,
}

/// Room data as plain values.
pub struct RoomDataView {
    pub responder_string: Seq<char>,
    pub symmetric_key: Seq<u8>,
}

impl View for RoomData {
    type V = RoomDataView;

    open spec fn view(&self) -> RoomDataView {
        RoomDataView {
            responder_string: self.responder_string@,
            symmetric_key: self.symmetric_key@,
        }
    }
}

impl Clone for RoomData {
    fn clone(&self) -> (r: Self)
        ensures
            r == *self,
    {
        RoomData {
            responder_string: self.responder_string.clone(),
            symmetric_key: self.symmetric_key.clone(),
        }
    }
}

impl Wire for RoomData {
    open spec fn encodable(v: RoomDataView) -> bool {
        encode_utf8(v.responder_string).len() <= u64::MAX && v.symmetric_key.len() == KEY_LEN
    }

    /// The responder string as text, then the key as a byte string.
    open spec fn wire_of(v: RoomDataView) -> Seq<u8> {
        framed_text(v.responder_string) + framed(v.symmetric_key)
    }

    open spec fn parse(bytes: Seq<u8>) -> Option<(RoomDataView, nat)> {
        match parse_text(bytes) {
            Some((responder_string, n)) => match parse_framed(bytes.skip(n as int)) {
                Some((symmetric_key, m)) => if symmetric_key.len() == KEY_LEN {
                    Some((RoomDataView { responder_string, symmetric_key }, n + m))
                } else {
                    None
                },
                None => None,
            },
            None => None,
        }
    }

    proof fn lemma_round_trip(v: RoomDataView, rest: Seq<u8>) {
        let all = Self::wire_of(v) + rest;
        let tail = framed(v.symmetric_key) + rest;
        assert(all =~= framed_text(v.responder_string) + tail);
        lemma_text_round_trip(v.responder_string, tail);
        assert(all.skip(framed_text(v.responder_string).len() as int) =~= tail);
        lemma_framed_round_trip(v.symmetric_key, rest);
    }

    proof fn lemma_parse_bound(bytes: Seq<u8>) {
    }

    fn encode(&self) -> (r: Vec<u8>) {
        let mut out: Vec<u8> = Vec::new();
        put_text(&mut out, self.responder_string.as_str());
        proof {
            self.symmetric_key.lemma_len();
        }
        put_framed(&mut out, self.symmetric_key.as_bytes().as_slice());
        assert(out@ =~= framed_text(self.responder_string@) + framed(self.symmetric_key@));
        out
    }

    fn decode(bytes: &[u8]) -> (r: Option<Self>) {
        assert(bytes@.skip(0) =~= bytes@);
        let (responder_string, end) = match take_text(bytes, 0) {
            None => { return None; },
            Some(found) => found,
        };
        let (start, stop) = match take_framed(bytes, end) {
            None => { return None; },
            Some(range) => range,
        };
        match CipherKey::from_slice(slice_subrange(bytes, start, stop)) {
            None => None,
            Some(symmetric_key) => Some(RoomData { responder_string, symmetric_key }),
        }
    }
}

} // verus!
