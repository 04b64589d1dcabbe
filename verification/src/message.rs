//! What users say to each other over a channel.
use crate::wire::{copy_range, framed, framed_text, parse_framed, parse_tag, parse_text, put_framed, put_tag, put_text, tag_bytes, take_framed, take_tag, take_text, Wire};
use crate::wire::{lemma_framed_round_trip, lemma_tag_round_trip, lemma_text_round_trip};
use vstd::prelude::*;
use vstd::utf8::encode_utf8;

verus! {

/// A message as it travels: a line of text, or a file with its name.
#[derive(Debug)]
pub enum AtrisMessageData {
    /// A line of text.
    Text(String),
    /// A file.
    File {
        /// The file's contents.
        data: Vec<u8>,
        /// The file's name, without a directory.
        name: String,
    },
}

/// A line in the conversation as one side sees it.
#[derive(Debug)]
pub enum AtrisMessage {
    /// What this side sent.
    Sent(String),
    /// What the other side sent.
    Received(String),
}

/// A travelling message as plain values.
pub enum AtrisMessageDataView {
    Text(Seq<char>),
    File { data: Seq<u8>, name: Seq<char> },
}

impl View for AtrisMessageData {
    type V = AtrisMessageDataView;

    open spec fn view(&self) -> AtrisMessageDataView {
        match self {
            AtrisMessageData::Text(s) => AtrisMessageDataView::Text(s@),
            AtrisMessageData::File { data, name } => AtrisMessageDataView::File {
                data: data@,
                name: name@,
            },
        }
    }
}

impl Clone for AtrisMessageData {
    fn clone(&self) -> (r: Self)
        ensures
            r@ == self@,
    {
        match self {
            AtrisMessageData::Text(s) => AtrisMessageData::Text(s.clone()),
            AtrisMessageData::File { data, name } => AtrisMessageData::File {
                data: data.clone(),
                name: name.clone(),
            },
        }
    }
}

impl Clone for AtrisMessage {
    fn clone(&self) -> (r: Self)
        ensures
            r == *self,
    {
        match self {
            AtrisMessage::Sent(s) => AtrisMessage::Sent(s.clone()),
            AtrisMessage::Received(s) => AtrisMessage::Received(s.clone()),
        }
    }
}

/// The variant tag of a text message.
pub const TEXT_TAG: u32 = 0;

/// The variant tag of a file message.
pub const FILE_TAG: u32 = 1;

impl Wire for AtrisMessageData {
    open spec fn encodable(v: AtrisMessageDataView) -> bool {
        match v {
            AtrisMessageDataView::Text(s) => encode_utf8(s).len() <= u64::MAX,
            AtrisMessageDataView::File { data, name } => data.len() <= u64::MAX && encode_utf8(
                name,
            ).len() <= u64::MAX,
        }
    }

    /// The variant tag, then the variant's fields in order.
    open spec fn wire_of(v: AtrisMessageDataView) -> Seq<u8> {
        match v {
            AtrisMessageDataView::Text(s) => tag_bytes(TEXT_TAG) + framed_text(s),
            AtrisMessageDataView::File { data, name } => tag_bytes(FILE_TAG) + (framed(data)
                + framed_text(name)),
        }
    }

    open spec fn parse(bytes: Seq<u8>) -> Option<(AtrisMessageDataView, nat)> {
        match parse_tag(bytes) {
            None => None,
            Some(tag) => {
                let body = bytes.skip(4);
                if tag == TEXT_TAG {
                    match parse_text(body) {
                        Some((s, n)) => Some((AtrisMessageDataView::Text(s), 4 + n)),
                        None => None,
                    }
                } else if tag == FILE_TAG {
                    match parse_framed(body) {
                        Some((data, n)) => match parse_text(body.skip(n as int)) {
                            Some((name, m)) => Some(
                                (AtrisMessageDataView::File { data, name }, 4 + n + m),
                            ),
                            None => None,
                        },
                        None => None,
                    }
                } else {
                    None
                }
            },
        }
    }

    proof fn lemma_round_trip(v: AtrisMessageDataView, rest: Seq<u8>) {
        let all = Self::wire_of(v) + rest;
        match v {
            AtrisMessageDataView::Text(s) => {
                assert(all =~= tag_bytes(TEXT_TAG) + (framed_text(s) + rest));
                lemma_tag_round_trip(TEXT_TAG, framed_text(s) + rest);
                assert(all.skip(4) =~= framed_text(s) + rest);
                lemma_text_round_trip(s, rest);
            },
            AtrisMessageDataView::File { data, name } => {
                let tail = framed_text(name) + rest;
                assert(all =~= tag_bytes(FILE_TAG) + (framed(data) + tail));
                lemma_tag_round_trip(FILE_TAG, framed(data) + tail);
                assert(all.skip(4) =~= framed(data) + tail);
                lemma_framed_round_trip(data, tail);
                assert(all.skip(4).skip(framed(data).len() as int) =~= tail);
                lemma_text_round_trip(name, rest);
            },
        }
    }

    proof fn lemma_parse_bound(bytes: Seq<u8>) {
    }

    fn encode(&self) -> (r: Vec<u8>) {
        let mut out: Vec<u8> = Vec::new();
        match self {
            AtrisMessageData::Text(s) => {
                put_tag(&mut out, TEXT_TAG);
                put_text(&mut out, s.as_str());
                assert(out@ =~= tag_bytes(TEXT_TAG) + framed_text(s@));
            },
            AtrisMessageData::File { data, name } => {
                put_tag(&mut out, FILE_TAG);
                let data_len = data.len();
                assert(data@.len() == data_len);
                put_framed(&mut out, data.as_slice());
                put_text(&mut out, name.as_str());
                assert(out@ =~= tag_bytes(FILE_TAG) + (framed(data@) + framed_text(name@)));
            },
        }
        out
    }

    fn decode(bytes: &[u8]) -> (r: Option<Self>) {
        assert(bytes@.skip(0) =~= bytes@);
        let tag = match take_tag(bytes, 0) {
            None => { return None; },
            Some(t) => t,
        };
        if tag == TEXT_TAG {
            match take_text(bytes, 4) {
                None => None,
                Some((s, _)) => Some(AtrisMessageData::Text(s)),
            }
        } else if tag == FILE_TAG {
            let (start, end) = match take_framed(bytes, 4) {
                None => { return None; },
                Some(range) => range,
            };
            assert(bytes@.skip(4).skip(end - 4) =~= bytes@.skip(end as int));
            match take_text(bytes, end) {
                None => None,
                Some((name, _)) => Some(
                    AtrisMessageData::File { data: copy_range(bytes, start, end), name },
                ),
            }
        } else {
            None
        }
    }
}

} // verus!
