//! The encrypted channel between two peers.
//!
//! A channel sits on an ordered, reliable transport that carries frames.
//! Going out, a value is encoded and sealed, queued, and handed to the
//! transport as a frame, in the order of sending. Coming in, a frame is
//! decoded into nonce and ciphertext and queued; a frame that does not decode
//! is dropped, and the channel lives on. The receiver opens what is queued,
//! oldest first. Both queues are bounded.
//!
//! This is the channel's state and its rules. The waiting is the driver's:
//! where a queue is full or empty the operations say so and change nothing.
use crate::encrypted::{decrypts_to, fresh_nonce, sealable, sealed, DecryptionError, Encrypted, EncryptionError, NONCE_LEN};
use crate::key::Cipher;
use crate::wire::{text_from_utf8, Wire};
use vstd::prelude::*;
use vstd::utf8::{decode_utf8, valid_utf8};

verus! {

/// How many messages each queue of a channel holds.
pub const QUEUE_CAPACITY: usize = 20;

/// A sealed message as plain values: nonce and ciphertext.
pub type SealedView = (Seq<u8>, Seq<u8>);

/// Why a poll of the inbound queue gave no sealed message.
#[derive(Debug, Clone, Copy, PartialEq, Eq, Structural)]
pub enum TryRecvError {
    /// Nothing is queued; more may come.
    Empty,
    /// Nothing is queued, and the transport is gone.
    Disconnected,
}

/// Why a value was not sent. The value comes back in every case.
#[derive(Debug)]
pub enum SendError<T> {
    /// The transport is gone.
    ChannelError(T),
    /// The value could not be encrypted.
    EncryptionError(T, EncryptionError),
    /// The outbound queue is full; the transport has not caught up.
    QueueFull(T),
}

/// Why a poll gave no value.
#[derive(Debug, Clone, Copy, PartialEq, Eq, Structural)]
pub enum TryReceiveError {
    /// The inbound queue gave nothing.
    Emp(TryRecvError),
    /// The oldest message was taken from the queue and did not decrypt.
    DecryptionError(DecryptionError),
}

/// What became of a frame that the transport delivered.
#[derive(Debug, Clone, Copy, PartialEq, Eq, Structural)]
pub enum FrameOutcome {
    /// The frame decoded and was queued.
    Queued,
    /// The frame did not decode and was dropped.
    Dropped,
    /// The inbound queue is full; the frame was not taken.
    Full,
    /// The channel is closed; the frame was not taken.
    Closed,
}

/// A poll that may have nothing to report yet.
#[derive(Debug)]
pub enum Polled<V> {
    /// The result.
    Ready(V),
    /// Nothing yet; ask again later.
    Pending,
}

/// The two queues of a channel as plain values, oldest message first.
pub struct PartsView {
    /// Sealed messages waiting for the transport.
    pub outgoing: Seq<SealedView>,
    /// Sealed messages waiting for the receiver.
    pub incoming: Seq<SealedView>,
    /// Whether the channel was closed.
    pub closed: bool,
}

/// The frame that carries a sealed message: the nonce as a byte string,
/// then the ciphertext as a byte string.
pub open spec fn frame_of(message: SealedView) -> Seq<u8> {
    crate::encrypted::EncryptedBytes::wire_of(message)
}

/// The sealed message that a frame carries, if it carries one.
pub open spec fn message_of(frame: Seq<u8>) -> Option<SealedView> {
    match crate::encrypted::EncryptedBytes::parse(frame) {
        Some((message, _)) => Some(message),
        None => None,
    }
}

/// The queues after the transport was handed the oldest outbound message.
pub open spec fn after_next_frame(parts: PartsView) -> PartsView {
    if parts.outgoing.len() == 0 {
        parts
    } else {
        PartsView { outgoing: parts.outgoing.drop_first(), ..parts }
    }
}

/// What becomes of a frame that the transport delivers.
pub open spec fn frame_outcome(parts: PartsView, frame: Seq<u8>) -> FrameOutcome {
    if parts.closed {
        FrameOutcome::Closed
    } else if message_of(frame) is None {
        FrameOutcome::Dropped
    } else if parts.incoming.len() >= QUEUE_CAPACITY {
        FrameOutcome::Full
    } else {
        FrameOutcome::Queued
    }
}

/// The queues after the transport delivered a frame.
pub open spec fn after_frame(parts: PartsView, frame: Seq<u8>) -> PartsView {
    if frame_outcome(parts, frame) == FrameOutcome::Queued {
        PartsView { incoming: parts.incoming.push(message_of(frame)->0), ..parts }
    } else {
        parts
    }
}

/// Whether a sealed message can be queued for sending.
pub open spec fn can_queue(parts: PartsView) -> bool {
    !parts.closed && parts.outgoing.len() < QUEUE_CAPACITY
}

/// The queues of a channel, and whether the channel was closed.
#[derive(Debug)]
pub struct AtrisChannelParts<T> {
    outgoing: Vec<Encrypted<T>>,
    incoming: Vec<Encrypted<T>>,
    closed: bool,
}

impl<T> View for AtrisChannelParts<T> {
    type V = PartsView;

    closed spec fn view(&self) -> PartsView {
        PartsView {
            outgoing: self.outgoing@.map_values(|e: Encrypted<T>| e@),
            incoming: self.incoming@.map_values(|e: Encrypted<T>| e@),
            closed: self.closed,
        }
    }
}

impl<T: Wire> AtrisChannelParts<T> {
    /// Two empty queues on an open channel.
    pub fn new() -> (r: Self)
        ensures
            r@ == (PartsView {
                outgoing: Seq::<SealedView>::empty(),
                incoming: Seq::<SealedView>::empty(),
                closed: false,
            }),
    {
        let r = AtrisChannelParts { outgoing: Vec::new(), incoming: Vec::new(), closed: false };
        assert(r@.outgoing =~= Seq::<SealedView>::empty());
        assert(r@.incoming =~= Seq::<SealedView>::empty());
        r
    }

    /// Whether the channel was closed.
    pub fn is_closed(&self) -> (r: bool)
        ensures
            r == self@.closed,
    {
        self.closed
    }

    /// How many messages wait for the transport.
    pub fn outgoing_len(&self) -> (r: usize)
        ensures
            r == self@.outgoing.len(),
    {
        self.outgoing.len()
    }

    /// How many messages wait for the receiver.
    pub fn incoming_len(&self) -> (r: usize)
        ensures
            r == self@.incoming.len(),
    {
        self.incoming.len()
    }

    /// Closes the channel: the transport failed, or either side hung up.
    /// What is queued stays queued.
    pub fn close(&mut self)
        ensures
            final(self)@ == (PartsView { closed: true, ..old(self)@ }),
    {
        self.closed = true;
    }

    /// Queues a sealed message for the transport, unless the channel is
    /// closed or the queue is full; then the message comes back.
    pub fn queue(&mut self, message: Encrypted<T>) -> (r: Option<Encrypted<T>>)
        ensures
            if can_queue(old(self)@) {
                r is None && final(self)@ == (PartsView {
                    outgoing: old(self)@.outgoing.push(message@),
                    ..old(self)@
                })
            } else {
                r == Some(message) && final(self)@ == old(self)@
            },
    {
        if self.closed || self.outgoing.len() >= QUEUE_CAPACITY {
            return Some(message);
        }
        assert(self.outgoing@.push(message).map_values(|e: Encrypted<T>| e@)
            =~= self.outgoing@.map_values(|e: Encrypted<T>| e@).push(message@));
        self.outgoing.push(message);
        None
    }

    /// Takes the oldest outbound message and makes the frame that the
    /// transport is to carry, which decodes to that message; `None` where
    /// nothing waits.
    pub fn next_frame(&mut self) -> (r: Option<Vec<u8>>)
        ensures
            final(self)@ == after_next_frame(old(self)@),
            match r {
                Some(frame) => old(self)@.outgoing.len() > 0 && frame@ == frame_of(
                    old(self)@.outgoing[0],
                ) && message_of(frame@) == Some(old(self)@.outgoing[0]),
                None => old(self)@.outgoing.len() == 0,
            },
    {
        if self.outgoing.len() == 0 {
            return None;
        }
        let ghost before = self.outgoing@;
        let message = self.outgoing.remove(0);
        assert(before.remove(0) =~= before.drop_first());
        assert(before.drop_first().map_values(|e: Encrypted<T>| e@) =~= before.map_values(
            |e: Encrypted<T>| e@,
        ).drop_first());
        let frame = message.encode();
        proof {
            crate::encrypted::EncryptedBytes::lemma_round_trip(message@, Seq::empty());
            assert(frame@ + Seq::<u8>::empty() =~= frame@);
        }
        Some(frame)
    }

    /// Takes a frame from the transport.
    ///
    /// A frame that does not decode is dropped and changes nothing. One that
    /// decodes is queued for the receiver, unless the queue is full or the
    /// channel is closed, in which case nothing changes either.
    pub fn accept_frame(&mut self, frame: &[u8]) -> (r: FrameOutcome)
        ensures
            r == frame_outcome(old(self)@, frame@),
            final(self)@ == after_frame(old(self)@, frame@),
    {
        if self.closed {
            return FrameOutcome::Closed;
        }
        match Encrypted::<T>::decode(frame) {
            None => FrameOutcome::Dropped,
            Some(message) => {
                if self.incoming.len() >= QUEUE_CAPACITY {
                    return FrameOutcome::Full;
                }
                assert(self.incoming@.push(message).map_values(|e: Encrypted<T>| e@)
                    =~= self.incoming@.map_values(|e: Encrypted<T>| e@).push(message@));
                self.incoming.push(message);
                FrameOutcome::Queued
            },
        }
    }

    /// Takes the oldest inbound message, still sealed.
    pub fn take_incoming(&mut self) -> (r: Result<Encrypted<T>, TryRecvError>)
        ensures
            match r {
                Ok(message) => old(self)@.incoming.len() > 0 && message@ == old(self)@.incoming[0]
                    && final(self)@ == (PartsView {
                    incoming: old(self)@.incoming.drop_first(),
                    ..old(self)@
                }),
                Err(e) => {
                    &&& old(self)@.incoming.len() == 0
                    &&& final(self)@ == old(self)@
                    &&& e == if old(self)@.closed {
                        TryRecvError::Disconnected
                    } else {
                        TryRecvError::Empty
                    }
                },
            },
    {
        if self.incoming.len() == 0 {
            if self.closed {
                return Err(TryRecvError::Disconnected);
            }
            return Err(TryRecvError::Empty);
        }
        let ghost before = self.incoming@;
        let message = self.incoming.remove(0);
        assert(before.remove(0) =~= before.drop_first());
        assert(before.drop_first().map_values(|e: Encrypted<T>| e@) =~= before.map_values(
            |e: Encrypted<T>| e@,
        ).drop_first());
        Ok(message)
    }
}

/// A channel: its queues and the cipher of the conversation.
#[derive(Debug)]
pub struct AtrisChannel<T> {
    atris_channel_internal: AtrisChannelParts<T>,
    cipher: Cipher,
}

impl<T: Wire> AtrisChannel<T> {
    /// The queues.
    pub closed spec fn parts(&self) -> PartsView {
        self.atris_channel_internal@
    }

    /// The key of the conversation.
    pub closed spec fn key(&self) -> Seq<u8> {
        self.cipher.key()
    }

    /// A channel over the given queues, under the given cipher.
    pub fn new(parts: AtrisChannelParts<T>, cipher: Cipher) -> (r: Self)
        ensures
            r.parts() == parts@,
            r.key() == cipher.key(),
    {
        AtrisChannel { atris_channel_internal: parts, cipher }
    }

    /// Whether the channel was closed.
    pub fn is_closed(&self) -> (r: bool)
        ensures
            r == self.parts().closed,
    {
        self.atris_channel_internal.is_closed()
    }

    /// Closes the channel. What is queued stays queued.
    pub fn close(&mut self)
        ensures
            final(self).key() == old(self).key(),
            final(self).parts() == (PartsView { closed: true, ..old(self).parts() }),
    {
        self.atris_channel_internal.close();
    }

    /// Takes the oldest outbound message and makes the frame that the
    /// transport is to carry, which decodes to that message; `None` where
    /// nothing waits.
    pub fn next_frame(&mut self) -> (r: Option<Vec<u8>>)
        ensures
            final(self).key() == old(self).key(),
            final(self).parts() == after_next_frame(old(self).parts()),
            match r {
                Some(frame) => old(self).parts().outgoing.len() > 0 && frame@ == frame_of(
                    old(self).parts().outgoing[0],
                ) && message_of(frame@) == Some(old(self).parts().outgoing[0]),
                None => old(self).parts().outgoing.len() == 0,
            },
    {
        self.atris_channel_internal.next_frame()
    }

    /// Takes a frame from the transport: queued where it decodes and there
    /// is room, dropped where it does not decode.
    pub fn accept_frame(&mut self, frame: &[u8]) -> (r: FrameOutcome)
        ensures
            final(self).key() == old(self).key(),
            r == frame_outcome(old(self).parts(), frame@),
            final(self).parts() == after_frame(old(self).parts(), frame@),
    {
        self.atris_channel_internal.accept_frame(frame)
    }

    /// Seals `t` with the given nonce and queues it for the transport.
    ///
    /// Fails with `EncryptionError` where the encoding of `t` is too long to
    /// be sealed, else with `ChannelError` where the channel is closed, else
    /// with `QueueFull` where the outbound queue is full. A failure changes
    /// nothing and hands `t` back. Otherwise the sealed message is the
    /// newest in the outbound queue.
    pub fn send_with_nonce(&mut self, t: T, nonce: [u8; 12]) -> (r: Result<(), SendError<T>>)
        ensures
            final(self).key() == old(self).key(),
            if !sealable(T::wire_of(t@).len()) {
                r matches Err(SendError::EncryptionError(back, e)) && back == t && e
                    == EncryptionError::Serialization && final(self).parts() == old(self).parts()
            } else if old(self).parts().closed {
                r matches Err(SendError::ChannelError(back)) && back == t && final(self).parts()
                    == old(self).parts()
            } else if old(self).parts().outgoing.len() >= QUEUE_CAPACITY {
                r matches Err(SendError::QueueFull(back)) && back == t && final(self).parts()
                    == old(self).parts()
            } else {
                let message = (nonce@, sealed(old(self).key(), nonce@, T::wire_of(t@)));
                &&& r is Ok
                &&& final(self).parts() == (PartsView {
                    outgoing: old(self).parts().outgoing.push(message),
                    ..old(self).parts()
                })
                &&& decrypts_to::<T>(message, old(self).key()) == Ok::<T::V, DecryptionError>(t@)
            },
    {
        let encrypted = match Encrypted::<T>::encrypt_with_nonce(&t, &self.cipher, nonce) {
            Ok(s) => s,
            Err(e) => { return Err(SendError::EncryptionError(t, e)); },
        };
        if self.atris_channel_internal.is_closed() {
            return Err(SendError::ChannelError(t));
        }
        match self.atris_channel_internal.queue(encrypted) {
            None => Ok(()),
            Some(_) => Err(SendError::QueueFull(t)),
        }
    }

    /// Seals `t` with a fresh random nonce and queues it for the transport.
    ///
    /// The failures are those of [`AtrisChannel::send_with_nonce`], on the
    /// same inputs. On success the outbound queue has grown by one message,
    /// which decrypts under the channel's key to `t`.
    pub fn send(&mut self, t: T) -> (r: Result<(), SendError<T>>)
        ensures
            final(self).key() == old(self).key(),
            if !sealable(T::wire_of(t@).len()) {
                r matches Err(SendError::EncryptionError(back, e)) && back == t && e
                    == EncryptionError::Serialization && final(self).parts() == old(self).parts()
            } else if old(self).parts().closed {
                r matches Err(SendError::ChannelError(back)) && back == t && final(self).parts()
                    == old(self).parts()
            } else if old(self).parts().outgoing.len() >= QUEUE_CAPACITY {
                r matches Err(SendError::QueueFull(back)) && back == t && final(self).parts()
                    == old(self).parts()
            } else {
                &&& r is Ok
                &&& final(self).parts().incoming == old(self).parts().incoming
                &&& final(self).parts().closed == old(self).parts().closed
                &&& final(self).parts().outgoing.len() == old(self).parts().outgoing.len() + 1
                &&& final(self).parts().outgoing.drop_last() == old(self).parts().outgoing
                &&& final(self).parts().outgoing.last().0.len() == NONCE_LEN
                &&& final(self).parts().outgoing.last().1 == sealed(
                    old(self).key(),
                    final(self).parts().outgoing.last().0,
                    T::wire_of(t@),
                )
                &&& decrypts_to::<T>(final(self).parts().outgoing.last(), old(self).key()) == Ok::<
                    T::V,
                    DecryptionError,
                >(t@)
            },
    {
        let ghost before = self.parts().outgoing;
        let nonce = fresh_nonce();
        let r = self.send_with_nonce(t, nonce);
        proof {
            if r is Ok {
                let message = (nonce@, sealed(self.key(), nonce@, T::wire_of(t@)));
                assert(before.push(message).drop_last() =~= before);
            }
        }
        r
    }

    /// Takes the oldest inbound message and opens it.
    ///
    /// Where nothing is queued, nothing changes, and the error says whether
    /// more may come. Otherwise the oldest message leaves the queue, and the
    /// result is what it decrypts to under the channel's key.
    pub fn try_receive(&mut self) -> (r: Result<T, TryReceiveError>)
        ensures
            final(self).key() == old(self).key(),
            if old(self).parts().incoming.len() == 0 {
                &&& final(self).parts() == old(self).parts()
                &&& r matches Err(e)
                &&& e == TryReceiveError::Emp(
                    if old(self).parts().closed {
                        TryRecvError::Disconnected
                    } else {
                        TryRecvError::Empty
                    },
                )
            } else {
                &&& final(self).parts() == (PartsView {
                    incoming: old(self).parts().incoming.drop_first(),
                    ..old(self).parts()
                })
                &&& match decrypts_to::<T>(old(self).parts().incoming[0], old(self).key()) {
                    Ok(v) => r matches Ok(t) && t@ == v,
                    Err(e) => r matches Err(f) && f == TryReceiveError::DecryptionError(e),
                }
            },
    {
        match self.atris_channel_internal.take_incoming() {
            Err(e) => Err(TryReceiveError::Emp(e)),
            Ok(message) => match message.decrypt(&self.cipher) {
                Ok(t) => Ok(t),
                Err(e) => Err(TryReceiveError::DecryptionError(e)),
            },
        }
    }

    /// Takes the oldest inbound message and opens it, as a receiver that
    /// would wait sees it.
    ///
    /// `Pending` where nothing is queued and more may come; `Ready(None)`
    /// where nothing is queued and the channel is closed; otherwise the
    /// oldest message leaves the queue and `Ready(Some(..))` holds what it
    /// decrypts to.
    pub fn receive(&mut self) -> (r: Polled<Option<Result<T, DecryptionError>>>)
        ensures
            final(self).key() == old(self).key(),
            if old(self).parts().incoming.len() == 0 {
                &&& final(self).parts() == old(self).parts()
                &&& if old(self).parts().closed {
                    r matches Polled::Ready(None)
                } else {
                    r is Pending
                }
            } else {
                &&& final(self).parts() == (PartsView {
                    incoming: old(self).parts().incoming.drop_first(),
                    ..old(self).parts()
                })
                &&& match decrypts_to::<T>(old(self).parts().incoming[0], old(self).key()) {
                    Ok(v) => r matches Polled::Ready(Some(Ok(t))) && t@ == v,
                    Err(e) => r matches Polled::Ready(Some(Err(f))) && f == e,
                }
            },
    {
        match self.try_receive() {
            Ok(t) => Polled::Ready(Some(Ok(t))),
            Err(TryReceiveError::DecryptionError(e)) => Polled::Ready(Some(Err(e))),
            Err(TryReceiveError::Emp(TryRecvError::Disconnected)) => Polled::Ready(None),
            Err(TryReceiveError::Emp(TryRecvError::Empty)) => Polled::Pending,
        }
    }
}

/// Carries the oldest outbound frame of `from` over to `to`, as a transport
/// that loses nothing does; `None` where nothing waits in `from`.
///
/// The message leaves `from` and, where `to` is open and has room, becomes
/// the newest inbound message of `to`. So what `from` sent under the key
/// that `to` holds, `to` receives as sent.
pub fn carry<T: Wire>(from: &mut AtrisChannel<T>, to: &mut AtrisChannel<T>) -> (r: Option<
    FrameOutcome,
>)
    ensures
        final(from).key() == old(from).key(),
        final(to).key() == old(to).key(),
        final(from).parts() == after_next_frame(old(from).parts()),
        match r {
            None => old(from).parts().outgoing.len() == 0 && final(to).parts() == old(to).parts(),
            Some(outcome) => {
                let message = old(from).parts().outgoing[0];
                &&& old(from).parts().outgoing.len() > 0
                &&& outcome == frame_outcome(old(to).parts(), frame_of(message))
                &&& outcome != FrameOutcome::Dropped
                &&& final(to).parts() == if outcome == FrameOutcome::Queued {
                    PartsView { incoming: old(to).parts().incoming.push(message), ..old(to).parts() }
                } else {
                    old(to).parts()
                }
            },
        },
{
    match from.next_frame() {
        None => None,
        Some(frame) => Some(to.accept_frame(frame.as_slice())),
    }
}

/// A frame that does not decode leaves a channel exactly as it was, so
/// every later frame fares as if the bad one had never come.
pub proof fn lemma_malformed_frame_changes_nothing(parts: PartsView, bad: Seq<u8>, next: Seq<u8>)
    requires
        message_of(bad) is None,
    ensures
        after_frame(parts, bad) == parts,
        !parts.closed ==> frame_outcome(parts, bad) == FrameOutcome::Dropped,
        frame_outcome(after_frame(parts, bad), next) == frame_outcome(parts, next),
        after_frame(after_frame(parts, bad), next) == after_frame(parts, next),
{
}

/// The frame made of a sealed message carries that message, so an open
/// channel with room queues it, behind what was queued before.
pub proof fn lemma_frame_carries_message(parts: PartsView, message: SealedView)
    requires
        message.0.len() <= u64::MAX,
        message.1.len() <= u64::MAX,
    ensures
        message_of(frame_of(message)) == Some(message),
        !parts.closed && parts.incoming.len() < QUEUE_CAPACITY ==> frame_outcome(
            parts,
            frame_of(message),
        ) == FrameOutcome::Queued && after_frame(parts, frame_of(message)).incoming
            == parts.incoming.push(message),
{
    crate::encrypted::EncryptedBytes::lemma_round_trip(message, Seq::empty());
    assert(frame_of(message) + Seq::<u8>::empty() =~= frame_of(message));
}

/// Frames are queued in the order the transport delivers them, and taken
/// from the front, so what was delivered first is received first.
pub proof fn lemma_first_in_first_out(parts: PartsView, first: Seq<u8>, second: Seq<u8>)
    requires
        parts.incoming.len() == 0,
        frame_outcome(parts, first) == FrameOutcome::Queued,
        frame_outcome(after_frame(parts, first), second) == FrameOutcome::Queued,
    ensures
        after_frame(after_frame(parts, first), second).incoming == seq![
            message_of(first)->0,
            message_of(second)->0,
        ],
{
    assert(after_frame(after_frame(parts, first), second).incoming =~= seq![
        message_of(first)->0,
        message_of(second)->0,
    ]);
}

/// No operation of the transport side lets a queue grow beyond its
/// capacity.
pub proof fn lemma_queues_stay_bounded(parts: PartsView, frame: Seq<u8>)
    requires
        parts.incoming.len() <= QUEUE_CAPACITY,
        parts.outgoing.len() <= QUEUE_CAPACITY,
    ensures
        after_frame(parts, frame).incoming.len() <= QUEUE_CAPACITY,
        after_frame(parts, frame).outgoing.len() <= QUEUE_CAPACITY,
        after_next_frame(parts).incoming.len() <= QUEUE_CAPACITY,
        after_next_frame(parts).outgoing.len() <= QUEUE_CAPACITY,
{
}

/// The text left of `s` once `str::trim` has removed the white space at
/// both ends.
pub uninterp spec fn trimmed(s: Seq<char>) -> Seq<char>;

/// Removes leading and trailing white space with `str::trim`. The result is
/// the named text.
#[verifier::external_body]
fn trim<'a>(s: &'a str) -> (r: &'a str)
    ensures
        r@ == trimmed(s@),
{
    s.trim()
}

/// What happened at one end of a conversation in text.
#[derive(Debug)]
pub enum IoEvent {
    /// The channel gave what [`AtrisChannel::receive`] gives when ready.
    Incoming(Option<Result<String, DecryptionError>>),
    /// The user's input gave these bytes; none at its end.
    Input(Vec<u8>),
    /// The user's input failed.
    InputFailed,
}

/// What to do about it.
#[derive(Debug)]
pub enum IoAction {
    /// Show the line to the user.
    Print(String),
    /// Send the line to the peer.
    Send(String),
    /// Nothing to do; go on.
    Continue,
    /// The conversation is over.
    Stop,
}

/// An action as plain values.
pub enum IoActionView {
    Print(Seq<char>),
    Send(Seq<char>),
    Continue,
    Stop,
}

impl View for IoAction {
    type V = IoActionView;

    open spec fn view(&self) -> IoActionView {
        match self {
            IoAction::Print(s) => IoActionView::Print(s@),
            IoAction::Send(s) => IoActionView::Send(s@),
            IoAction::Continue => IoActionView::Continue,
            IoAction::Stop => IoActionView::Stop,
        }
    }
}

/// The line that is shown for a message from the peer.
pub open spec fn shown(message: Seq<char>) -> Seq<char> {
    "From other user: '"@ + message + "'"@
}

/// What a conversation in text does about an event.
///
/// A message from the peer is shown; one that did not decrypt is passed
/// over; a closed channel ends the conversation. Input of more than one
/// byte is sent, trimmed, where it is UTF-8, and passed over where it is
/// not; a single byte is an empty line and is passed over; the end of the
/// input, or its failure, ends the conversation.
pub open spec fn io_action(event: IoEvent) -> IoActionView {
    match event {
        IoEvent::Incoming(None) => IoActionView::Stop,
        IoEvent::Incoming(Some(Ok(message))) => IoActionView::Print(shown(message@)),
        IoEvent::Incoming(Some(Err(_))) => IoActionView::Continue,
        IoEvent::InputFailed => IoActionView::Stop,
        IoEvent::Input(bytes) => if bytes@.len() == 0 {
            IoActionView::Stop
        } else if bytes@.len() == 1 || !valid_utf8(bytes@) {
            IoActionView::Continue
        } else {
            IoActionView::Send(trimmed(decode_utf8(bytes@)))
        },
    }
}

/// Decides what a conversation in text does about an event.
pub fn io_step(event: IoEvent) -> (r: IoAction)
    ensures
        r@ == io_action(event),
{
    match event {
        IoEvent::Incoming(None) => IoAction::Stop,
        IoEvent::Incoming(Some(Ok(message))) => IoAction::Print(
            crate::text::between("From other user: '", message.as_str(), "'"),
        ),
        IoEvent::Incoming(Some(Err(_))) => IoAction::Continue,
        IoEvent::InputFailed => IoAction::Stop,
        IoEvent::Input(bytes) => {
            if bytes.len() == 0 {
                IoAction::Stop
            } else if bytes.len() == 1 {
                IoAction::Continue
            } else {
                match text_from_utf8(bytes) {
                    None => IoAction::Continue,
                    Some(text) => IoAction::Send(trim(text.as_str()).to_owned()),
                }
            }
        },
    }
}

} // verus!
