//! Identities of callers and canisters.

use vstd::prelude::*;

verus! {

/// The greatest number of bytes an identity can hold.
pub const MAX_PRINCIPAL_LENGTH: usize = 29;

/// The single byte of the anonymous identity.
pub const ANONYMOUS_TAG: u8 = 4;

/// An opaque identity of a caller or a canister: at most 29 bytes.
#[derive(Debug)]
pub struct Principal {
    pub(crate) bytes: Vec<u8>,
}

impl View for Principal {
    type V = Seq<u8>;

    closed spec fn view(&self) -> Seq<u8> {
        self.bytes@
    }
}

/// The text of an identity: its checksum and bytes in base 32, in groups of
/// five letters.
pub uninterp spec fn principal_text(bytes: Seq<u8>) -> Seq<char>;

/// The bytes of the identity that a text spells, or `None` where it spells none.
pub uninterp spec fn principal_of_text(text: Seq<char>) -> Option<Seq<u8>>;

/// `candid::Principal::to_text` on the identity with these bytes.
#[verifier::external_body]
fn text_of(principal: &Principal) -> (r: String)
    requires
        principal@.len() <= MAX_PRINCIPAL_LENGTH,
    ensures
        r@ == principal_text(principal@),
{
    candid::Principal::from_slice(&principal.bytes).to_text()
}

/// `candid::Principal::from_text`: the identity that `text` spells, or
/// `None` where the text is not the text of an identity.
#[verifier::external_body]
fn parse_text(text: &str) -> (r: Option<Principal>)
    ensures
        r is Some <==> principal_of_text(text@) is Some,
        r is Some ==> Some(r->0@) == principal_of_text(text@),
{
    candid::Principal::from_text(text).ok().map(|p| Principal { bytes: p.as_slice().to_vec() })
}

impl Principal {
    /// The text of the identity.
    pub fn to_text(&self) -> (r: String)
        ensures
            r@ == principal_text(self@),
    {
        proof {
            use_type_invariant(self);
        }
        text_of(self)
    }

    /// The identity that `text` spells, or `None` where it spells none.
    pub fn from_text(text: &str) -> (r: Option<Principal>)
        ensures
            r is Some <==> principal_of_text(text@) is Some,
            r is Some ==> Some(r->0@) == principal_of_text(text@),
    {
        parse_text(text)
    }

    /// Every identity is at most 29 bytes long.
    #[verifier::type_invariant]
    pub open spec fn within_length(&self) -> bool {
        self@.len() <= MAX_PRINCIPAL_LENGTH
    }

    /// The identity with the given bytes, or `None` where they are more than 29.
    pub fn try_from_slice(bytes: &[u8]) -> (r: Option<Principal>)
        ensures
            r is Some <==> bytes@.len() <= MAX_PRINCIPAL_LENGTH,
            r is Some ==> r->0@ == bytes@,
    {
        if bytes.len() > MAX_PRINCIPAL_LENGTH {
            return None;
        }
        let mut copy: Vec<u8> = Vec::new();
        let mut i: usize = 0;
        while i < bytes.len()
            invariant
                i <= bytes@.len(),
                bytes@.len() <= MAX_PRINCIPAL_LENGTH,
                copy@ == bytes@.subrange(0, i as int),
            decreases bytes@.len() - i,
        {
            copy.push(bytes[i]);
            i += 1;
            assert(copy@ =~= bytes@.subrange(0, i as int));
        }
        assert(copy@ =~= bytes@);
        Some(Principal { bytes: copy })
    }

    /// The identity with the given bytes.
    pub fn from_slice(bytes: &[u8]) -> (r: Principal)
        requires
            bytes@.len() <= MAX_PRINCIPAL_LENGTH,
        ensures
            r@ == bytes@,
    {
        match Principal::try_from_slice(bytes) {
            Some(p) => p,
            None => Principal { bytes: Vec::new() },
        }
    }

    /// The identity of the management canister: no bytes.
    pub fn management_canister() -> (r: Principal)
        ensures
            r@ == Seq::<u8>::empty(),
    {
        Principal { bytes: Vec::new() }
    }

    /// The identity of a caller who did not sign: the single byte 4.
    pub fn anonymous() -> (r: Principal)
        ensures
            r@ == seq![ANONYMOUS_TAG],
    {
        let mut bytes: Vec<u8> = Vec::new();
        bytes.push(ANONYMOUS_TAG);
        assert(bytes@ =~= seq![ANONYMOUS_TAG]);
        Principal { bytes }
    }

    /// Whether this is the anonymous identity.
    pub fn is_anonymous(&self) -> (r: bool)
        ensures
            r == (self@ == seq![ANONYMOUS_TAG]),
    {
        let r = self.bytes.len() == 1 && self.bytes[0] == ANONYMOUS_TAG;
        assert(r == (self.bytes@ =~= seq![ANONYMOUS_TAG]));
        r
    }

    /// The bytes of the identity.
    pub fn as_slice(&self) -> (r: &[u8])
        ensures
            r@ == self@,
    {
        self.bytes.as_slice()
    }

    /// Whether two identities hold the same bytes.
    pub fn same(&self, other: &Principal) -> (r: bool)
        ensures
            r == (self@ == other@),
    {
        if self.bytes.len() != other.bytes.len() {
            return false;
        }
        let mut i: usize = 0;
        while i < self.bytes.len()
            invariant
                i <= self.bytes@.len(),
                self.bytes@.len() == other.bytes@.len(),
                self.bytes@.subrange(0, i as int) == other.bytes@.subrange(0, i as int),
            decreases self.bytes@.len() - i,
        {
            if self.bytes[i] != other.bytes[i] {
                return false;
            }
            i += 1;
            assert(self.bytes@.subrange(0, i as int) =~= self.bytes@.subrange(0, i - 1).push(
                self.bytes@[i - 1],
            ));
            assert(other.bytes@.subrange(0, i as int) =~= other.bytes@.subrange(0, i - 1).push(
                other.bytes@[i - 1],
            ));
        }
        assert(self.bytes@ =~= self.bytes@.subrange(0, i as int));
        assert(other.bytes@ =~= other.bytes@.subrange(0, i as int));
        true
    }
}

impl Clone for Principal {
    fn clone(&self) -> (r: Principal)
        ensures
            r@ == self@,
    {
        proof {
            use_type_invariant(self);
        }
        Principal { bytes: self.bytes.clone() }
    }
}

} // verus!
