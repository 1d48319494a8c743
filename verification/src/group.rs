//! The group name property: a short text label used for multicast-style
//! fan-out, at most [`MAX_GROUP_SIZE`] bytes long in its UTF-8 encoding.

use vstd::prelude::*;
use vstd::std_specs::cmp::PartialEqSpec;
use vstd::utf8::encode_utf8;
use crate::error::Error;

verus! {

/// The maximum number of bytes in the UTF-8 encoding of a group name.
pub const MAX_GROUP_SIZE: usize = 15;

/// An owned, validated group name.
///
/// Construction enforces the encoded length bound; every `Group` value
/// therefore satisfies it. Groups compare and hash by text content.
#[derive(Debug, Hash)]
pub struct Group {
    name: String,
}

impl View for Group {
    type V = Seq<char>;

    closed spec fn view(&self) -> Seq<char> {
        self.name@
    }
}

impl Group {
    #[verifier::type_invariant]
    spec fn length_bound(self) -> bool {
        encode_utf8(self.name@).len() <= MAX_GROUP_SIZE
    }

    /// Validates the encoded length bound and copies the text into an
    /// owned group name. Fails with [`Error::InvalidInput`] exactly when
    /// the text encodes to more than [`MAX_GROUP_SIZE`] bytes.
    pub fn new(name: &str) -> (r: Result<Group, Error>)
        ensures
            r is Ok <==> encode_utf8(name@).len() <= MAX_GROUP_SIZE,
            (r matches Ok(g) ==> g@ == name@),
            r is Err ==> r == Err::<Group, Error>(Error::InvalidInput),
    {
        if name.as_bytes().len() <= MAX_GROUP_SIZE {
            Ok(Group { name: name.to_owned() })
        } else {
            Err(Error::InvalidInput)
        }
    }

    /// The group name as text.
    pub fn as_str(&self) -> (r: &str)
        ensures
            r@ == self@,
    {
        self.name.as_str()
    }

    /// The number of bytes in the UTF-8 encoding of the group name.
    pub fn len(&self) -> (r: usize)
        ensures
            r == encode_utf8(self@).len(),
    {
        self.name.as_str().as_bytes().len()
    }
}

impl Clone for Group {
    /// Duplicates the group name; the copy carries the same text.
    fn clone(&self) -> (r: Self)
        ensures
            r@ == self@,
    {
        proof {
            use_type_invariant(self);
        }
        Group { name: self.name.clone() }
    }
}

impl PartialEq for Group {
    /// Groups compare by text content.
    fn eq(&self, other: &Group) -> (r: bool) {
        self.name == other.name
    }
}

impl Eq for Group {}

impl vstd::std_specs::cmp::PartialEqSpecImpl for Group {
    open spec fn obeys_eq_spec() -> bool {
        true
    }

    open spec fn eq_spec(&self, other: &Group) -> bool {
        self.view() == other.view()
    }
}

/// Law: groups compare by text content — under the specification of `==`,
/// two groups are equal exactly when their text is equal, whichever way
/// each was constructed.
pub proof fn lemma_group_eq_by_content(a: Group, b: Group)
    ensures
        a.eq_spec(&b) <==> a@ == b@,
{
}

} // verus!
