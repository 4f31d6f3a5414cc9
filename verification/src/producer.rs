//! Producers: what feeds the channels from the workers' output.
//!
//! A producer reads from one worker. It is bound to the handle of the
//! process it reads from, and what it offers is accepted only while that
//! very process is the registered one. A restart of the worker therefore
//! silences the producer until it is bound again, to the replacement.

use crate::bus::EventKind;
use crate::channel::Channel;
use crate::registry::ProcessRegistry;
use base64::Engine;
use vstd::prelude::*;
use vstd::string::*;

verus! {

/// The seconds that the QR producer lets pass before it reads the image.
pub const QRCODE_WAIT_BEFORE_READ_SECS: u64 = 1;

/// The seconds that the QR producer lets pass after it has pushed an item.
pub const QRCODE_WAIT_AFTER_PUSH_SECS: u64 = 2;

/// Whether the encoding of `len` bytes has a length that fits the machine.
pub open spec fn encodable(len: nat) -> bool {
    4 * ((len + 2) / 3) <= usize::MAX
}

/// The text that the standard base64 alphabet, with padding, gives for
/// `bytes`.
pub uninterp spec fn base64_standard(bytes: Seq<u8>) -> Seq<char>;

/// `Engine::encode` of the `STANDARD` engine of the base64 crate.
///
/// Taken on trust: the result is the padded standard encoding of `bytes`,
/// which has four characters for every three bytes begun, the length that
/// the crate's `encoded_len` computes before it encodes. The call panics
/// where that length does not fit in `usize`; such inputs are left out.
#[verifier::external_body]
fn encode_standard(bytes: &[u8]) -> (text: String)
    requires
        encodable(bytes@.len()),
    ensures
        text@ == base64_standard(bytes@),
        text@.len() == 4 * ((bytes@.len() + 2) / 3),
{
    base64::engine::general_purpose::STANDARD.encode(bytes)
}

/// Whether an image of `len` bytes can be encoded.
pub fn can_encode(len: usize) -> (fits: bool)
    ensures
        fits == encodable(len as nat),
{
    len / 3 < usize::MAX / 4 || (len / 3 == usize::MAX / 4 && len % 3 == 0)
}

/// The QR image as it is sent to the front end: the image's bytes in
/// base64. The failure to read the image is passed on as it is. The text
/// for an image that has bytes is not empty, so that it is never mistaken
/// for the item that stands for a missing image.
pub fn get_qrcode(image: Result<Vec<u8>, String>) -> (encoded: Result<String, String>)
    requires
        image matches Ok(bytes) ==> encodable(bytes@.len()),
    ensures
        match image {
            Ok(bytes) => encoded matches Ok(text) && text@ == base64_standard(bytes@)
                && text@.len() == 4 * ((bytes@.len() + 2) / 3) && (bytes@.len() > 0 ==> text@.len()
                > 0),
            Err(reason) => encoded == Err::<String, String>(reason),
        },
{
    match image {
        Ok(bytes) => Ok(encode_standard(bytes.as_slice())),
        Err(reason) => Err(reason),
    }
}

/// The item that the QR producer pushes for one poll: the encoded image,
/// or the empty text where the image could not be had.
pub fn qrcode_message(encoded: Result<String, String>) -> (message: String)
    ensures
        message@ == match encoded {
            Ok(text) => text@,
            Err(_) => Seq::<char>::empty(),
        },
{
    match encoded {
        Ok(text) => text,
        Err(_) => String::new(),
    }
}

/// What a [`Producer`] stands for: the kind of events it produces, and the
/// identity of the process it reads from, if it is bound to one.
pub struct Binding {
    pub kind: EventKind,
    pub source: Option<u64>,
}

impl Binding {
    /// Whether the process that the producer reads from is the one
    /// registered for the producer's worker.
    pub open spec fn live(self, registry: Map<Seq<char>, u64>) -> bool {
        self.source is Some && registry.get(self.kind.source_spec().name_spec()) == self.source
    }
}

/// What came of an item that a producer offered.
#[derive(Debug, PartialEq, Eq)]
pub enum Produced<T> {
    /// The item is in the channel.
    Pushed,
    /// The producer's process is not the registered one: the item was not
    /// taken, and is handed back.
    Stale(T),
    /// The channel is closed: the item was not taken, and is handed back.
    Closed(T),
}

/// The feeder of one channel.
pub struct Producer {
    kind: EventKind,
    source: Option<u64>,
}

impl View for Producer {
    type V = Binding;

    closed spec fn view(&self) -> Binding {
        Binding { kind: self.kind, source: self.source }
    }
}

impl Producer {
    /// A producer of events of kind `kind` that is not bound to a process.
    pub fn new(kind: EventKind) -> (producer: Producer)
        ensures
            producer@ == (Binding { kind, source: None }),
    {
        Producer { kind, source: None }
    }

    /// The kind of events that this producer produces.
    pub fn kind(&self) -> (kind: EventKind)
        ensures
            kind == self@.kind,
    {
        self.kind
    }

    /// The identity of the process that the producer is bound to.
    pub fn source(&self) -> (source: Option<u64>)
        ensures
            source == self@.source,
    {
        self.source
    }

    /// Binds the producer to the process that is registered for its worker,
    /// or to none if none is registered.
    pub fn bind(&mut self, registry: &ProcessRegistry)
        ensures
            final(self)@ == (Binding {
                kind: old(self)@.kind,
                source: registry@.get(old(self)@.kind.source_spec().name_spec()),
            }),
    {
        self.source = match registry.get(self.kind.source().name()) {
            Some(handle) => Some(handle.id()),
            None => None,
        };
    }

    /// Whether the process that the producer reads from is the registered
    /// one.
    pub fn is_live(&self, registry: &ProcessRegistry) -> (live: bool)
        ensures
            live == self@.live(registry@),
    {
        match (self.source, registry.get(self.kind.source().name())) {
            (Some(bound), Some(handle)) => bound == handle.id(),
            _ => false,
        }
    }

    /// Offers `item` to `channel`. The item is pushed if the producer is
    /// live and the channel open; else the channel stays as it is and the
    /// item comes back.
    pub fn produce<T>(&self, registry: &ProcessRegistry, channel: &mut Channel<T>, item: T) -> (done:
        Produced<T>)
        ensures
            done == if !self@.live(registry@) {
                Produced::Stale(item)
            } else if old(channel)@.closed {
                Produced::Closed(item)
            } else {
                Produced::Pushed
            },
            final(channel)@ == if self@.live(registry@) {
                old(channel)@.pushed(item)
            } else {
                old(channel)@
            },
    {
        if !self.is_live(registry) {
            Produced::Stale(item)
        } else {
            match channel.push(item) {
                Some(back) => Produced::Closed(back),
                None => Produced::Pushed,
            }
        }
    }
}

} // verus!
