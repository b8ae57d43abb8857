//! The record kept for every wallet canister that was spawned.

use crate::types::codec::{
    blob_encoding, get_blob, get_u64, lemma_take_blob, lemma_take_u64, put_blob, put_u64, tail,
    take_blob, take_u64, u64_encoding,
};
use crate::types::principal::{Principal, MAX_PRINCIPAL_LENGTH};
use vstd::prelude::*;

verus! {

/// Who created a wallet, who owns it now, and the payments that funded it.
#[derive(Debug)]
pub struct WalletData {
    created_by: Principal,
    owner: Principal,
    created_at: u64,
    updated_at: u64,
    icp_blockheight: u64,
    cmc_blockheight: u64,
    group_id: u64,
}

/// The content of a [`WalletData`].
pub struct WalletDataView {
    pub created_by: Seq<u8>,
    pub owner: Seq<u8>,
    pub created_at: u64,
    pub updated_at: u64,
    pub icp_blockheight: u64,
    pub cmc_blockheight: u64,
    pub group_id: u64,
}

impl WalletDataView {
    /// Both identities are at most 29 bytes long.
    pub open spec fn wf(self) -> bool {
        &&& self.created_by.len() <= MAX_PRINCIPAL_LENGTH
        &&& self.owner.len() <= MAX_PRINCIPAL_LENGTH
    }

    /// The record of a wallet that `caller` created at `now`.
    pub open spec fn created(
        caller: Seq<u8>,
        now: u64,
        icp_blockheight: u64,
        cmc_blockheight: u64,
        group_id: u64,
    ) -> WalletDataView {
        WalletDataView {
            created_by: caller,
            owner: caller,
            created_at: now,
            updated_at: now,
            icp_blockheight,
            cmc_blockheight,
            group_id,
        }
    }

    /// The same record with another owner; nothing else changes.
    pub open spec fn owned_by(self, owner: Seq<u8>) -> WalletDataView {
        WalletDataView { owner, ..self }
    }
}

/// The bytes under which a wallet record is stored.
pub open spec fn wallet_encoding(w: WalletDataView) -> Seq<u8> {
    blob_encoding(w.created_by) + (blob_encoding(w.owner) + (u64_encoding(w.created_at) + (
    u64_encoding(w.updated_at) + (u64_encoding(w.icp_blockheight) + (u64_encoding(
        w.cmc_blockheight,
    ) + u64_encoding(w.group_id))))))
}

/// The wallet record that `s` holds, or `None` where `s` is no stored record.
#[verifier::opaque]
pub open spec fn wallet_decoding(s: Seq<u8>) -> Option<WalletDataView> {
    match take_blob(s) {
        Some((created_by, s)) => match take_blob(s) {
            Some((owner, s)) => match take_u64(s) {
                Some((created_at, s)) => match take_u64(s) {
                    Some((updated_at, s)) => match take_u64(s) {
                        Some((icp_blockheight, s)) => match take_u64(s) {
                            Some((cmc_blockheight, s)) => match take_u64(s) {
                                Some((group_id, s)) => {
                                    let w = WalletDataView {
                                        created_by,
                                        owner,
                                        created_at,
                                        updated_at,
                                        icp_blockheight,
                                        cmc_blockheight,
                                        group_id,
                                    };
                                    if s.len() == 0 && w.wf() {
                                        Some(w)
                                    } else {
                                        None
                                    }
                                },
                                None => None,
                            },
                            None => None,
                        },
                        None => None,
                    },
                    None => None,
                },
                None => None,
            },
            None => None,
        },
        None => None,
    }
}

/// Decoding the bytes of a wallet record gives the record back, equal in all fields.
pub proof fn lemma_wallet_round_trip(w: WalletDataView)
    requires
        w.wf(),
    ensures
        wallet_decoding(wallet_encoding(w)) == Some(w),
{
    reveal(wallet_decoding);
    let s6 = u64_encoding(w.group_id);
    let s5 = u64_encoding(w.cmc_blockheight) + s6;
    let s4 = u64_encoding(w.icp_blockheight) + s5;
    let s3 = u64_encoding(w.updated_at) + s4;
    let s2 = u64_encoding(w.created_at) + s3;
    let s1 = blob_encoding(w.owner) + s2;
    lemma_take_blob(w.created_by, s1);
    lemma_take_blob(w.owner, s2);
    lemma_take_u64(w.created_at, s3);
    lemma_take_u64(w.updated_at, s4);
    lemma_take_u64(w.icp_blockheight, s5);
    lemma_take_u64(w.cmc_blockheight, s6);
    assert(s6 =~= s6 + Seq::<u8>::empty());
    lemma_take_u64(w.group_id, Seq::<u8>::empty());
}

impl View for WalletData {
    type V = WalletDataView;

    closed spec fn view(&self) -> WalletDataView {
        WalletDataView {
            created_by: self.created_by@,
            owner: self.owner@,
            created_at: self.created_at,
            updated_at: self.updated_at,
            icp_blockheight: self.icp_blockheight,
            cmc_blockheight: self.cmc_blockheight,
            group_id: self.group_id,
        }
    }
}

impl WalletData {
    /// The record of a wallet that `caller` creates at `now`: `caller` is
    /// both its creator and its first owner.
    pub fn new(
        caller: Principal,
        now: u64,
        icp_blockheight: u64,
        cmc_blockheight: u64,
        group_id: u64,
    ) -> (r: WalletData)
        ensures
            r@ == WalletDataView::created(caller@, now, icp_blockheight, cmc_blockheight, group_id),
    {
        WalletData {
            created_by: caller.clone(),
            owner: caller,
            created_at: now,
            updated_at: now,
            icp_blockheight,
            cmc_blockheight,
            group_id,
        }
    }

    /// Whether `principal` owns the wallet.
    pub fn is_owner(&self, principal: Principal) -> (r: bool)
        ensures
            r == (self@.owner == principal@),
    {
        self.owner.same(&principal)
    }

    /// Hands the wallet to `owner`, and gives a copy of the changed record.
    pub fn set_owner(&mut self, owner: Principal) -> (r: WalletData)
        ensures
            final(self)@ == old(self)@.owned_by(owner@),
            r@ == final(self)@,
    {
        self.owner = owner;
        self.clone()
    }

    /// Who created the wallet.
    pub fn created_by(&self) -> (r: Principal)
        ensures
            r@ == self@.created_by,
    {
        self.created_by.clone()
    }

    /// Who owns the wallet.
    pub fn owner(&self) -> (r: Principal)
        ensures
            r@ == self@.owner,
    {
        self.owner.clone()
    }

    /// When the wallet was created.
    pub fn created_at(&self) -> (r: u64)
        ensures
            r == self@.created_at,
    {
        self.created_at
    }

    /// When the record was last changed.
    pub fn updated_at(&self) -> (r: u64)
        ensures
            r == self@.updated_at,
    {
        self.updated_at
    }

    /// The ledger block of the payment that funded the wallet.
    pub fn icp_blockheight(&self) -> (r: u64)
        ensures
            r == self@.icp_blockheight,
    {
        self.icp_blockheight
    }

    /// The ledger block of the transfer to the cycles minting canister.
    pub fn cmc_blockheight(&self) -> (r: u64)
        ensures
            r == self@.cmc_blockheight,
    {
        self.cmc_blockheight
    }

    /// The group the wallet belongs to.
    pub fn group_id(&self) -> (r: u64)
        ensures
            r == self@.group_id,
    {
        self.group_id
    }

    /// The content of every wallet record has identities of valid length.
    pub(crate) fn check_wf(&self)
        ensures
            self@.wf(),
    {
        proof {
            use_type_invariant(&self.created_by);
            use_type_invariant(&self.owner);
        }
    }

    /// The bytes under which the record is stored.
    pub fn to_bytes(&self) -> (r: Vec<u8>)
        ensures
            r@ == wallet_encoding(self@),
    {
        let mut out: Vec<u8> = Vec::new();
        put_blob(&mut out, self.created_by.as_slice());
        put_blob(&mut out, self.owner.as_slice());
        put_u64(&mut out, self.created_at);
        put_u64(&mut out, self.updated_at);
        put_u64(&mut out, self.icp_blockheight);
        put_u64(&mut out, self.cmc_blockheight);
        put_u64(&mut out, self.group_id);
        assert(out@ =~= wallet_encoding(self@));
        out
    }

    /// The record that `bytes` hold, or `None` where they hold none.
    pub fn from_bytes(bytes: &[u8]) -> (r: Option<WalletData>)
        ensures
            r is Some <==> wallet_decoding(bytes@) is Some,
            r is Some ==> Some(r->0@) == wallet_decoding(bytes@),
    {
        reveal(wallet_decoding);
        assert(tail(bytes@, 0) =~= bytes@);
        let (created_by, at) = match get_blob(bytes, 0) {
            Some(x) => x,
            None => { return None; },
        };
        let (owner, at) = match get_blob(bytes, at) {
            Some(x) => x,
            None => { return None; },
        };
        let (created_at, at) = match get_u64(bytes, at) {
            Some(x) => x,
            None => { return None; },
        };
        let (updated_at, at) = match get_u64(bytes, at) {
            Some(x) => x,
            None => { return None; },
        };
        let (icp_blockheight, at) = match get_u64(bytes, at) {
            Some(x) => x,
            None => { return None; },
        };
        let (cmc_blockheight, at) = match get_u64(bytes, at) {
            Some(x) => x,
            None => { return None; },
        };
        let (group_id, at) = match get_u64(bytes, at) {
            Some(x) => x,
            None => { return None; },
        };
        if at != bytes.len() {
            return None;
        }
        let created_by = match Principal::try_from_slice(created_by.as_slice()) {
            Some(p) => p,
            None => { return None; },
        };
        let owner = match Principal::try_from_slice(owner.as_slice()) {
            Some(p) => p,
            None => { return None; },
        };
        Some(
            WalletData {
                created_by,
                owner,
                created_at,
                updated_at,
                icp_blockheight,
                cmc_blockheight,
                group_id,
            },
        )
    }
}

impl Clone for WalletData {
    fn clone(&self) -> (r: WalletData)
        ensures
            r@ == self@,
    {
        WalletData {
            created_by: self.created_by.clone(),
            owner: self.owner.clone(),
            created_at: self.created_at,
            updated_at: self.updated_at,
            icp_blockheight: self.icp_blockheight,
            cmc_blockheight: self.cmc_blockheight,
            group_id: self.group_id,
        }
    }
}

} // verus!
