//! The message envelope: a value that owns one message buffer and exposes
//! read/write byte access, text interpretation, and two optional scalar
//! properties — a routing identifier and a group name.
//!
//! An envelope is never bit-copied: it is moved, or duplicated only through
//! the explicit [`Msg::clone`] content copy, so the buffer it owns is
//! released exactly once, on scope exit, whatever the control flow.
//! Envelope equality is by handle identity ([`Msg::is_same`]), never by
//! content: two byte-identical messages are not interchangeable.

use vstd::prelude::*;
use vstd::utf8::decode_utf8;
use vstd::utf8::encode_utf8;
use vstd::utf8::valid_utf8;
use vstd::string::StrSliceExecFns;
use crate::error::Error;
use crate::group::Group;

verus! {

/// A generated identifier used to route a message to the appropriate peer
/// connection.
///
/// The transport assigns an identifier to each peer; the value zero is
/// reserved to mean "absent" and is rejected by [`Msg::set_routing_id`].
/// Identifiers order and compare by their raw value.
#[derive(Debug, Clone, Copy, PartialEq, Eq, Structural, PartialOrd, Ord, Hash)]
pub struct RoutingId(u32);

impl RoutingId {
    /// The raw 32-bit value of the identifier.
    pub closed spec fn raw_spec(self) -> u32 {
        self.0
    }

    /// Round-trips a raw value previously observed on a received envelope.
    pub fn from_raw(raw: u32) -> (r: RoutingId)
        ensures
            r.raw_spec() == raw,
    {
        RoutingId(raw)
    }

    /// The raw value, for handing back to the transport layer.
    pub fn raw(self) -> (r: u32)
        ensures
            r == self.raw_spec(),
    {
        self.0
    }
}

/// A message envelope.
///
/// It owns exactly one buffer; the content region, the optional routing
/// identifier, the optional group name and the read-only "has more parts"
/// flag are its observable state.
#[derive(Debug)]
pub struct Msg {
    content: Vec<u8>,
    routing: u32,
    group: Option<Group>,
    more: bool,
}

impl Msg {
    /// The content bytes of the envelope.
    pub closed spec fn bytes(self) -> Seq<u8> {
        self.content@
    }

    /// The routing identifier property; a raw value of zero means absent.
    pub closed spec fn routing_id_of(self) -> Option<RoutingId> {
        if self.routing == 0 {
            None
        } else {
            Some(RoutingId(self.routing))
        }
    }

    /// The group name property, as text.
    pub closed spec fn group_of(self) -> Option<Seq<char>> {
        match self.group {
            Some(g) => Some(g@),
            None => None,
        }
    }

    /// The "has more parts" flag, set by the transport on multi-part
    /// reception and read-only from this layer.
    pub closed spec fn more_spec(self) -> bool {
        self.more
    }

    /// The envelope as it stands after a group name is assigned.
    pub closed spec fn with_group(self, group: Group) -> Msg {
        Msg { group: Some(group), ..self }
    }

    /// The envelope as it stands after a routing identifier is assigned.
    pub closed spec fn with_routing(self, routing_id: RoutingId) -> Msg {
        Msg { routing: routing_id.0, ..self }
    }

    /// Creates an empty envelope: zero-length content, no properties set.
    pub fn new() -> (r: Msg)
        ensures
            r.bytes() == Seq::<u8>::empty(),
            r.routing_id_of() is None,
            r.group_of() is None,
            !r.more_spec(),
    {
        Msg { content: Vec::new(), routing: 0, group: None, more: false }
    }

    /// Creates an envelope holding `size` zero-initialized bytes.
    ///
    /// Buffer allocation failure is treated as fatal by the underlying
    /// runtime and cannot surface here as a recoverable error.
    pub fn with_size(size: usize) -> (r: Msg)
        ensures
            r.bytes() == Seq::new(size as nat, |i: int| 0u8),
            r.routing_id_of() is None,
            r.group_of() is None,
            !r.more_spec(),
    {
        let content: Vec<u8> = vec![0u8; size];
        proof {
            assert(content@ =~= Seq::new(size as nat, |i: int| 0u8));
        }
        Msg { content, routing: 0, group: None, more: false }
    }

    /// The content size in bytes.
    pub fn len(&self) -> (r: usize)
        ensures
            r == self.bytes().len(),
    {
        self.content.len()
    }

    /// True exactly when the content has size zero.
    pub fn is_empty(&self) -> (r: bool)
        ensures
            r == (self.bytes().len() == 0),
    {
        self.len() == 0
    }

    /// Interprets the content as UTF-8 text, without copying.
    ///
    /// Fails with [`Error::TextEncodingError`] exactly when the content
    /// bytes are not valid UTF-8.
    pub fn to_str(&self) -> (r: Result<&str, Error>)
        ensures
            r is Ok <==> valid_utf8(self.bytes()),
            (r matches Ok(s) ==> s@ == decode_utf8(self.bytes())),
            r is Err ==> r == Err::<&str, Error>(Error::TextEncodingError),
    {
        match bytes_as_str(self.content.as_slice()) {
            Some(s) => Ok(s),
            None => Err(Error::TextEncodingError),
        }
    }

    /// The content as a borrowed byte slice.
    pub fn as_bytes(&self) -> (r: &[u8])
        ensures
            r@ == self.bytes(),
    {
        self.content.as_slice()
    }

    /// The content as a mutable byte slice; writing through it overwrites
    /// the content in place without changing its length or the envelope's
    /// properties.
    pub fn as_bytes_mut(&mut self) -> (r: &mut [u8])
        ensures
            r@ == old(self).bytes(),
            final(self).bytes() == final(r)@,
            final(self).routing_id_of() == old(self).routing_id_of(),
            final(self).group_of() == old(self).group_of(),
            final(self).more_spec() == old(self).more_spec(),
    {
        self.content.as_mut_slice()
    }

    /// The routing identifier assigned to the envelope, if the stored raw
    /// value is nonzero; absent otherwise.
    pub fn routing_id(&self) -> (r: Option<RoutingId>)
        ensures
            r == self.routing_id_of(),
    {
        if self.routing == 0 {
            None
        } else {
            Some(RoutingId(self.routing))
        }
    }

    /// Assigns a routing identifier.
    ///
    /// Fails with [`Error::InvalidInput`] exactly when the identifier's raw
    /// value is zero (reserved to mean absent), leaving the envelope
    /// unchanged. Any other native failure would be a broken internal
    /// invariant, not a recoverable condition, and cannot surface here.
    pub fn set_routing_id(&mut self, routing_id: RoutingId) -> (r: Result<(), Error>)
        ensures
            r is Ok <==> routing_id.raw_spec() != 0,
            routing_id.raw_spec() == 0 ==> r == Err::<(), Error>(Error::InvalidInput)
                && *final(self) == *old(self),
            routing_id.raw_spec() != 0 ==> *final(self) == old(self).with_routing(routing_id)
                && final(self).routing_id_of() == Some(routing_id)
                && final(self).bytes() == old(self).bytes()
                && final(self).group_of() == old(self).group_of()
                && final(self).more_spec() == old(self).more_spec(),
    {
        if routing_id.0 == 0 {
            Err(Error::InvalidInput)
        } else {
            self.routing = routing_id.0;
            Ok(())
        }
    }

    /// The group name property, if one was set.
    pub fn group(&self) -> (r: Option<&Group>)
        ensures
            (r matches Some(g) ==> self.group_of() == Some(g@)),
            r is None <==> self.group_of() is None,
    {
        match &self.group {
            Some(g) => Some(g),
            None => None,
        }
    }

    /// Assigns a group name.
    ///
    /// The length bound on the name is validated when the [`Group`] is
    /// constructed, not here; assignment itself always succeeds. A native
    /// failure at this point would be a broken internal invariant, not a
    /// recoverable condition, and cannot surface here.
    pub fn set_group(&mut self, group: Group)
        ensures
            *final(self) == old(self).with_group(group),
            final(self).group_of() == Some(group@),
            final(self).bytes() == old(self).bytes(),
            final(self).routing_id_of() == old(self).routing_id_of(),
            final(self).more_spec() == old(self).more_spec(),
    {
        self.group = Some(group);
    }

    /// The "has more parts" flag of a multi-part transmission.
    pub fn has_more(&self) -> (r: bool)
        ensures
            r == self.more_spec(),
    {
        self.more
    }

    /// Identity comparison: envelopes are equal only when they are the
    /// identical handle, never by content.
    ///
    /// Relies on `core::ptr::eq`, which its documentation states returns
    /// true exactly when the two references have the same address; the
    /// same address means the same envelope object, so every observable
    /// property then coincides.
    #[verifier::external_body]
    pub fn is_same(&self, other: &Msg) -> (r: bool)
        ensures
            r ==> self.bytes() == other.bytes() && self.routing_id_of() == other.routing_id_of()
                && self.group_of() == other.group_of() && self.more_spec() == other.more_spec(),
    {
        core::ptr::eq(self, other)
    }

    /// Copies borrowed bytes into a freshly sized envelope. The caller's
    /// storage is not owned here, so copying is the only safe strategy.
    pub fn from_slice(bytes: &[u8]) -> (r: Msg)
        ensures
            r.bytes() == bytes@,
            r.routing_id_of() is None,
            r.group_of() is None,
            !r.more_spec(),
    {
        let mut content: Vec<u8> = Vec::new();
        let mut i: usize = 0;
        while i < bytes.len()
            invariant
                i <= bytes@.len(),
                content@ == bytes@.subrange(0, i as int),
            decreases bytes@.len() - i,
        {
            content.push(bytes[i]);
            i = i + 1;
            proof {
                assert(content@ =~= bytes@.subrange(0, i as int));
            }
        }
        proof {
            assert(content@ =~= bytes@);
        }
        Msg { content, routing: 0, group: None, more: false }
    }

    /// Adopts an owned byte buffer: the envelope takes over the exact
    /// allocation instead of copying it. An empty buffer short-circuits to
    /// the empty envelope, since a zero-length allocation must not be
    /// adopted by the native buffer.
    pub fn from_vec(bytes: Vec<u8>) -> (r: Msg)
        ensures
            r.bytes() == bytes@,
            r.routing_id_of() is None,
            r.group_of() is None,
            !r.more_spec(),
    {
        if bytes.is_empty() {
            let r = Msg::new();
            proof {
                assert(r.bytes() =~= bytes@);
            }
            r
        } else {
            Msg { content: bytes, routing: 0, group: None, more: false }
        }
    }

    /// Copies borrowed text into a fresh envelope; the content becomes the
    /// UTF-8 encoding of the text.
    pub fn from_str(text: &str) -> (r: Msg)
        ensures
            r.bytes() == encode_utf8(text@),
            r.routing_id_of() is None,
            r.group_of() is None,
            !r.more_spec(),
    {
        let content = text.as_bytes_vec();
        Msg { content, routing: 0, group: None, more: false }
    }

    /// Adopts owned text: the envelope takes over the text's byte buffer,
    /// which holds the UTF-8 encoding of the text.
    pub fn from_string(text: String) -> (r: Msg)
        ensures
            r.bytes() == encode_utf8(text@),
            r.routing_id_of() is None,
            r.group_of() is None,
            !r.more_spec(),
    {
        let content = text.as_str().as_bytes_vec();
        Msg::from_vec(content)
    }

    /// Adopts a fixed-size byte array.
    pub fn from_array<const N: usize>(bytes: [u8; N]) -> (r: Msg)
        ensures
            r.bytes() == bytes@,
            r.routing_id_of() is None,
            r.group_of() is None,
            !r.more_spec(),
    {
        Msg::from_slice(bytes.as_slice())
    }
}

impl Default for Msg {
    /// Initialises an empty envelope, exactly as [`Msg::new`] does.
    fn default() -> (r: Msg)
        ensures
            r.bytes() == Seq::<u8>::empty(),
            r.routing_id_of() is None,
            r.group_of() is None,
            !r.more_spec(),
    {
        Msg::new()
    }
}

impl Clone for Msg {
    /// Content duplication: produces an independent envelope whose buffer
    /// is a true copy of this one's, carrying the same properties. A
    /// corrupted source buffer would be fatal at the native layer, never a
    /// recoverable error.
    fn clone(&self) -> (r: Self)
        ensures
            r.bytes() == self.bytes(),
            r.routing_id_of() == self.routing_id_of(),
            r.group_of() == self.group_of(),
            r.more_spec() == self.more_spec(),
    {
        let content = self.content.clone();
        proof {
            assert forall|i: int| 0 <= i < self.content@.len() implies content@[i]
                == self.content@[i] by {}
            assert(content@ =~= self.content@);
        }
        let group = match &self.group {
            Some(g) => Some(g.clone()),
            None => None,
        };
        Msg { content, routing: self.routing, group, more: self.more }
    }
}

/// Relies on `std::str::from_utf8`: its documentation states that it
/// returns the byte slice viewed as text exactly when the bytes are valid
/// UTF-8, and an error otherwise.
#[verifier::external_body]
fn bytes_as_str(bytes: &[u8]) -> (r: Option<&str>)
    ensures
        r is Some <==> valid_utf8(bytes@),
        (r matches Some(s) ==> s@ == decode_utf8(bytes@)),
{
    std::str::from_utf8(bytes).ok()
}

/// Law: after a group name is assigned, the envelope reports exactly that
/// group, and the content and the routing identifier are untouched.
pub proof fn lemma_set_group_round_trip(m: Msg, g: Group)
    ensures
        m.with_group(g).group_of() == Some(g@),
        m.with_group(g).bytes() == m.bytes(),
        m.with_group(g).routing_id_of() == m.routing_id_of(),
        m.with_group(g).more_spec() == m.more_spec(),
{
}

/// Law: after a nonzero routing identifier is assigned, the envelope
/// reports exactly that identifier, and the content and the group are
/// untouched.
pub proof fn lemma_set_routing_id_round_trip(m: Msg, id: RoutingId)
    requires
        id.raw_spec() != 0,
    ensures
        m.with_routing(id).routing_id_of() == Some(id),
        m.with_routing(id).bytes() == m.bytes(),
        m.with_routing(id).group_of() == m.group_of(),
        m.with_routing(id).more_spec() == m.more_spec(),
{
}

/// Law: text stored in an envelope can always be read back unchanged —
/// an envelope whose content is the UTF-8 encoding of some text holds
/// valid UTF-8, and interpreting it yields exactly that text.
pub proof fn lemma_text_round_trip(m: Msg, text: Seq<char>)
    requires
        m.bytes() == encode_utf8(text),
    ensures
        valid_utf8(m.bytes()),
        decode_utf8(m.bytes()) == text,
{
    broadcast use vstd::utf8::encode_utf8_valid_utf8;
    broadcast use vstd::utf8::encode_utf8_decode_utf8;
}

} // verus!
