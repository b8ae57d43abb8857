//! The record of how far a spawn or a top-up has come.

use crate::types::codec::{
    flag_encoding, get_flag, get_opt_blob, get_opt_text, get_opt_u128, get_opt_u64,
    lemma_take_flag, lemma_take_opt_blob, lemma_take_opt_text, lemma_take_opt_u128,
    lemma_take_opt_u64, opt_blob_encoding, opt_text_encoding, opt_u128_encoding, opt_u64_encoding,
    put_blob, put_flag, put_opt_u128, put_opt_u64, put_text, tail, take_flag, take_opt_blob,
    take_opt_text, take_opt_u128, take_opt_u64,
};
use crate::types::principal::{Principal, MAX_PRINCIPAL_LENGTH};
use vstd::prelude::*;
use vstd::string::*;
use vstd::utf8::encode_utf8;

verus! {

/// The steps of one run that have been completed, each with what it produced.
///
/// A field is empty until its step has succeeded. No operation empties a field.
#[derive(Debug)]
pub struct SpawnStatus {
    status_type: Option<String>,
    transaction_valid: Option<u64>,
    min_amount_error: Option<u64>,
    transferred_to_cmc: Option<u64>,
    topped_up_self: Option<u128>,
    canister_spawned: Option<Principal>,
    canister_installed: Option<Principal>,
    done: Option<()>,
}

/// The content of a [`SpawnStatus`].
pub struct SpawnStatusView {
    /// What kind of run this is.
    pub status_type: Option<Seq<char>>,
    /// The amount of the payment, in e8s, once the payment was found valid.
    pub transaction_valid: Option<u64>,
    /// The ledger block of the refund, where the payment was too small.
    pub min_amount_error: Option<u64>,
    /// The ledger block of the transfer to the cycles minting canister.
    pub transferred_to_cmc: Option<u64>,
    /// The cycles that the cycles minting canister granted.
    pub topped_up_self: Option<u128>,
    /// The canister that was created.
    pub canister_spawned: Option<Seq<u8>>,
    /// The canister into which the wallet was installed.
    pub canister_installed: Option<Seq<u8>>,
    /// Whether the run is complete.
    pub done: bool,
}

impl SpawnStatusView {
    /// Identities are at most 29 bytes long, and the label can be stored.
    pub open spec fn wf(self) -> bool {
        &&& self.status_type matches Some(t) ==> encode_utf8(t).len() <= u64::MAX
        &&& self.canister_spawned matches Some(p) ==> p.len() <= MAX_PRINCIPAL_LENGTH
        &&& self.canister_installed matches Some(p) ==> p.len() <= MAX_PRINCIPAL_LENGTH
    }

    /// The record of a run of which no step is complete.
    pub open spec fn started(status_type: Option<Seq<char>>) -> SpawnStatusView {
        SpawnStatusView {
            status_type,
            transaction_valid: None,
            min_amount_error: None,
            transferred_to_cmc: None,
            topped_up_self: None,
            canister_spawned: None,
            canister_installed: None,
            done: false,
        }
    }

    /// The record with the amount of the valid payment.
    pub open spec fn with_transaction_valid(self, amount: u64) -> SpawnStatusView {
        SpawnStatusView { transaction_valid: Some(amount), ..self }
    }

    /// The record with the block of the refund.
    pub open spec fn with_min_amount_error(self, block_index: u64) -> SpawnStatusView {
        SpawnStatusView { min_amount_error: Some(block_index), ..self }
    }

    /// The record with the block of the transfer to the cycles minting canister.
    pub open spec fn with_transferred_to_cmc(self, block_index: u64) -> SpawnStatusView {
        SpawnStatusView { transferred_to_cmc: Some(block_index), ..self }
    }

    /// The record with the cycles that were granted.
    pub open spec fn with_topped_up_self(self, cycles: u128) -> SpawnStatusView {
        SpawnStatusView { topped_up_self: Some(cycles), ..self }
    }

    /// The record with the canister that was created.
    pub open spec fn with_canister_spawned(self, canister_id: Seq<u8>) -> SpawnStatusView {
        SpawnStatusView { canister_spawned: Some(canister_id), ..self }
    }

    /// The record with the canister into which the wallet was installed.
    pub open spec fn with_canister_installed(self, canister_id: Seq<u8>) -> SpawnStatusView {
        SpawnStatusView { canister_installed: Some(canister_id), ..self }
    }

    /// The record of a run that is complete.
    pub open spec fn with_done(self) -> SpawnStatusView {
        SpawnStatusView { done: true, ..self }
    }

    /// The run spawns a wallet: its record is labelled so.
    pub open spec fn is_spawn_run(self) -> bool {
        self.status_type == Some("Wallet spawn"@)
    }

    /// No step is complete: the payment may be recorded as valid.
    pub open spec fn may_validate(self) -> bool {
        &&& self.transaction_valid is None
        &&& self.min_amount_error is None
        &&& self.transferred_to_cmc is None
        &&& self.topped_up_self is None
        &&& self.canister_spawned is None
        &&& self.canister_installed is None
        &&& !self.done
    }

    /// The payment is valid and nothing was done with it: it may be sent
    /// back, or forwarded to the cycles minting canister.
    pub open spec fn may_transfer(self) -> bool {
        &&& self.transaction_valid is Some
        &&& self.min_amount_error is None
        &&& self.transferred_to_cmc is None
        &&& self.topped_up_self is None
        &&& self.canister_spawned is None
        &&& self.canister_installed is None
        &&& !self.done
    }

    /// The payment was forwarded and no cycles were granted yet: they may be.
    pub open spec fn may_top_up(self) -> bool {
        &&& self.transaction_valid is Some
        &&& self.min_amount_error is None
        &&& self.transferred_to_cmc is Some
        &&& self.topped_up_self is None
        &&& self.canister_spawned is None
        &&& self.canister_installed is None
        &&& !self.done
    }

    /// The cycles were granted and no canister was created yet: one may be.
    pub open spec fn may_spawn(self) -> bool {
        &&& self.transaction_valid is Some
        &&& self.min_amount_error is None
        &&& self.transferred_to_cmc is Some
        &&& self.topped_up_self is Some
        &&& self.canister_spawned is None
        &&& self.canister_installed is None
        &&& !self.done
    }

    /// The canister was created and holds no wallet yet: one may be installed.
    pub open spec fn may_install(self) -> bool {
        &&& self.transaction_valid is Some
        &&& self.min_amount_error is None
        &&& self.transferred_to_cmc is Some
        &&& self.topped_up_self is Some
        &&& self.canister_spawned is Some
        &&& self.canister_installed is None
        &&& !self.done
    }

    /// Every step of the run is complete: the payment was validated and
    /// forwarded and the cycles were granted, and for a run that spawns a
    /// wallet the canister was created and the wallet installed.
    pub open spec fn may_finish(self) -> bool {
        &&& self.transaction_valid is Some
        &&& self.min_amount_error is None
        &&& self.transferred_to_cmc is Some
        &&& self.topped_up_self is Some
        &&& self.is_spawn_run() ==> self.canister_spawned is Some && self.canister_installed is Some
        &&& !self.done
    }

    /// The record after the payment was reported valid: recorded where no
    /// step was complete, and refused, the record as it was, elsewhere.
    pub open spec fn recorded_transaction_valid(self, amount: u64) -> SpawnStatusView {
        if self.may_validate() {
            self.with_transaction_valid(amount)
        } else {
            self
        }
    }

    /// The record after a refund was reported: recorded where the payment
    /// was valid and nothing was done with it, refused elsewhere.
    pub open spec fn recorded_min_amount_error(self, block_index: u64) -> SpawnStatusView {
        if self.may_transfer() {
            self.with_min_amount_error(block_index)
        } else {
            self
        }
    }

    /// The record after the forwarding was reported: recorded where the
    /// payment was valid and nothing was done with it, refused elsewhere.
    pub open spec fn recorded_transferred_to_cmc(self, block_index: u64) -> SpawnStatusView {
        if self.may_transfer() {
            self.with_transferred_to_cmc(block_index)
        } else {
            self
        }
    }

    /// The record after cycles were reported granted: recorded where the
    /// payment was forwarded and no cycles were granted yet, refused elsewhere.
    pub open spec fn recorded_topped_up_self(self, cycles: u128) -> SpawnStatusView {
        if self.may_top_up() {
            self.with_topped_up_self(cycles)
        } else {
            self
        }
    }

    /// The record after a canister was reported created: recorded where the
    /// cycles were granted and no canister was created yet, refused elsewhere.
    pub open spec fn recorded_canister_spawned(self, canister_id: Seq<u8>) -> SpawnStatusView {
        if self.may_spawn() {
            self.with_canister_spawned(canister_id)
        } else {
            self
        }
    }

    /// The record after the wallet was reported installed: recorded where
    /// the canister was created and held no wallet yet, refused elsewhere.
    pub open spec fn recorded_canister_installed(self, canister_id: Seq<u8>) -> SpawnStatusView {
        if self.may_install() {
            self.with_canister_installed(canister_id)
        } else {
            self
        }
    }

    /// The record after the run was reported complete: done where every
    /// step of the run is complete, refused elsewhere.
    pub open spec fn recorded_done(self) -> SpawnStatusView {
        if self.may_finish() {
            self.with_done()
        } else {
            self
        }
    }

    /// Whatever `earlier` holds, `self` holds the same: the label, what
    /// every complete step produced, and that the run is done.
    pub open spec fn keeps(self, earlier: SpawnStatusView) -> bool {
        &&& earlier.status_type is Some ==> self.status_type == earlier.status_type
        &&& earlier.transaction_valid is Some ==> self.transaction_valid
            == earlier.transaction_valid
        &&& earlier.min_amount_error is Some ==> self.min_amount_error == earlier.min_amount_error
        &&& earlier.transferred_to_cmc is Some ==> self.transferred_to_cmc
            == earlier.transferred_to_cmc
        &&& earlier.topped_up_self is Some ==> self.topped_up_self == earlier.topped_up_self
        &&& earlier.canister_spawned is Some ==> self.canister_spawned == earlier.canister_spawned
        &&& earlier.canister_installed is Some ==> self.canister_installed
            == earlier.canister_installed
        &&& earlier.done ==> self.done
    }
}

/// The bytes under which a status record is stored.
pub open spec fn status_encoding(s: SpawnStatusView) -> Seq<u8> {
    opt_text_encoding(s.status_type) + (opt_u64_encoding(s.transaction_valid) + (opt_u64_encoding(
        s.min_amount_error,
    ) + (opt_u64_encoding(s.transferred_to_cmc) + (opt_u128_encoding(s.topped_up_self) + (
    opt_blob_encoding(s.canister_spawned) + (opt_blob_encoding(s.canister_installed)
        + flag_encoding(s.done)))))))
}

/// The status record that `s` holds, or `None` where `s` is no stored record.
#[verifier::opaque]
pub open spec fn status_decoding(s: Seq<u8>) -> Option<SpawnStatusView> {
    match take_opt_text(s) {
        Some((status_type, s)) => match take_opt_u64(s) {
            Some((transaction_valid, s)) => match take_opt_u64(s) {
                Some((min_amount_error, s)) => match take_opt_u64(s) {
                    Some((transferred_to_cmc, s)) => match take_opt_u128(s) {
                        Some((topped_up_self, s)) => match take_opt_blob(s) {
                            Some((canister_spawned, s)) => match take_opt_blob(s) {
                                Some((canister_installed, s)) => match take_flag(s) {
                                    Some((done, s)) => {
                                        let v = SpawnStatusView {
                                            status_type,
                                            transaction_valid,
                                            min_amount_error,
                                            transferred_to_cmc,
                                            topped_up_self,
                                            canister_spawned,
                                            canister_installed,
                                            done,
                                        };
                                        if s.len() == 0 && v.wf() {
                                            Some(v)
                                        } else {
                                            None
                                        }
                                    },
                                    None => None,
                                },
                                None => None,
                            },
                            None => None,
                        },
                        None => None,
                    },
                    None => None,
                },
                None => None,
            },
            None => None,
        },
        None => None,
    }
}

/// Decoding the bytes of a status record gives the record back, equal in all fields.
pub proof fn lemma_status_round_trip(s: SpawnStatusView)
    requires
        s.wf(),
    ensures
        status_decoding(status_encoding(s)) == Some(s),
{
    reveal(status_decoding);
    let s7 = flag_encoding(s.done);
    let s6 = opt_blob_encoding(s.canister_installed) + s7;
    let s5 = opt_blob_encoding(s.canister_spawned) + s6;
    let s4 = opt_u128_encoding(s.topped_up_self) + s5;
    let s3 = opt_u64_encoding(s.transferred_to_cmc) + s4;
    let s2 = opt_u64_encoding(s.min_amount_error) + s3;
    let s1 = opt_u64_encoding(s.transaction_valid) + s2;
    lemma_take_opt_text(s.status_type, s1);
    lemma_take_opt_u64(s.transaction_valid, s2);
    lemma_take_opt_u64(s.min_amount_error, s3);
    lemma_take_opt_u64(s.transferred_to_cmc, s4);
    lemma_take_opt_u128(s.topped_up_self, s5);
    lemma_take_opt_blob(s.canister_spawned, s6);
    lemma_take_opt_blob(s.canister_installed, s7);
    assert(s7 =~= s7 + Seq::<u8>::empty());
    lemma_take_flag(s.done, Seq::<u8>::empty());
}

/// The bytes of an optional identity.
pub open spec fn principal_view(p: Option<Principal>) -> Option<Seq<u8>> {
    match p {
        Some(p) => Some(p@),
        None => None,
    }
}

impl View for SpawnStatus {
    type V = SpawnStatusView;

    closed spec fn view(&self) -> SpawnStatusView {
        SpawnStatusView {
            status_type: self.status_type.deep_view(),
            transaction_valid: self.transaction_valid,
            min_amount_error: self.min_amount_error,
            transferred_to_cmc: self.transferred_to_cmc,
            topped_up_self: self.topped_up_self,
            canister_spawned: principal_view(self.canister_spawned),
            canister_installed: principal_view(self.canister_installed),
            done: self.done is Some,
        }
    }
}

fn clone_principal(p: &Option<Principal>) -> (r: Option<Principal>)
    ensures
        principal_view(r) == principal_view(*p),
{
    match p {
        Some(p) => Some(p.clone()),
        None => None,
    }
}

fn clone_label(text: &Option<String>) -> (r: Option<String>)
    ensures
        r.deep_view() == text.deep_view(),
{
    match text {
        Some(s) => Some(s.clone()),
        None => None,
    }
}

fn put_opt_principal(out: &mut Vec<u8>, p: &Option<Principal>)
    ensures
        final(out)@ == old(out)@ + opt_blob_encoding(principal_view(*p)),
{
    match p {
        Some(p) => {
            put_flag(out, true);
            put_blob(out, p.as_slice());
        },
        None => {
            put_flag(out, false);
        },
    }
    assert(out@ =~= old(out)@ + opt_blob_encoding(principal_view(*p)));
}

fn put_opt_label(out: &mut Vec<u8>, text: &Option<String>)
    ensures
        final(out)@ == old(out)@ + opt_text_encoding(text.deep_view()),
{
    match text {
        Some(t) => {
            put_flag(out, true);
            put_text(out, t.as_str());
        },
        None => {
            put_flag(out, false);
        },
    }
    assert(out@ =~= old(out)@ + opt_text_encoding(text.deep_view()));
}

proof fn lemma_regroup(a: Seq<u8>, b: Seq<u8>, c: Seq<u8>)
    ensures
        (a + b) + c == a + (b + c),
{
    assert((a + b) + c =~= a + (b + c));
}

fn principal_of(bytes: Option<Vec<u8>>) -> (r: Option<Option<Principal>>)
    ensures
        r is Some <==> (bytes matches Some(b) ==> b@.len() <= MAX_PRINCIPAL_LENGTH),
        r matches Some(p) ==> principal_view(p) == bytes.deep_view(),
{
    match bytes {
        None => Some(None),
        Some(b) => {
            assert(b.deep_view() =~= b@);
            match Principal::try_from_slice(b.as_slice()) {
                Some(p) => Some(Some(p)),
                None => None,
            }
        },
    }
}

impl Default for SpawnStatus {
    fn default() -> (r: SpawnStatus)
        ensures
            r@ == SpawnStatusView::started(None),
    {
        SpawnStatus::new(None)
    }
}

impl SpawnStatus {
    /// The record of a run of which no step is complete.
    pub fn new(status_type: Option<String>) -> (r: SpawnStatus)
        ensures
            r@ == SpawnStatusView::started(status_type.deep_view()),
    {
        SpawnStatus {
            status_type,
            transaction_valid: None,
            min_amount_error: None,
            transferred_to_cmc: None,
            topped_up_self: None,
            canister_spawned: None,
            canister_installed: None,
            done: None,
        }
    }

    /// Records that the payment was found valid, with its amount in e8s.
    /// Refused, and the record left as it was, where a step is complete already.
    pub fn transaction_valid(&mut self, amount: u64) -> (r: SpawnStatus)
        ensures
            final(self)@ == old(self)@.recorded_transaction_valid(amount),
            r@ == final(self)@,
    {
        if self.nothing_after(0) && self.transaction_valid.is_none() {
            self.transaction_valid = Some(amount);
        }
        self.clone()
    }

    /// Records the ledger block of the refund of a payment that was too
    /// small. Refused, and the record left as it was, where the payment is
    /// not valid or something was done with it already.
    pub fn min_amount_error(&mut self, block_index: u64) -> (r: SpawnStatus)
        ensures
            final(self)@ == old(self)@.recorded_min_amount_error(block_index),
            r@ == final(self)@,
    {
        if self.nothing_after(0) && self.transaction_valid.is_some() {
            self.min_amount_error = Some(block_index);
        }
        self.clone()
    }

    /// Records the ledger block of the transfer to the cycles minting
    /// canister. Refused, and the record left as it was, where the payment
    /// is not valid or something was done with it already.
    pub fn transferred_to_cmc(&mut self, block_index: u64) -> (r: SpawnStatus)
        ensures
            final(self)@ == old(self)@.recorded_transferred_to_cmc(block_index),
            r@ == final(self)@,
    {
        if self.nothing_after(0) && self.transaction_valid.is_some() {
            self.transferred_to_cmc = Some(block_index);
        }
        self.clone()
    }

    /// Records the cycles that were granted. Refused, and the record left
    /// as it was, where the payment was not forwarded or cycles were
    /// granted already.
    pub fn topped_up_self(&mut self, cycles: u128) -> (r: SpawnStatus)
        ensures
            final(self)@ == old(self)@.recorded_topped_up_self(cycles),
            r@ == final(self)@,
    {
        if self.nothing_after(1) && self.transaction_valid.is_some()
            && self.transferred_to_cmc.is_some() {
            self.topped_up_self = Some(cycles);
        }
        self.clone()
    }

    /// Records the canister that was created. Refused, and the record left
    /// as it was, where no cycles were granted or a canister was created already.
    pub fn canister_spawned(&mut self, canister_id: Principal) -> (r: SpawnStatus)
        ensures
            final(self)@ == old(self)@.recorded_canister_spawned(canister_id@),
            r@ == final(self)@,
    {
        if self.nothing_after(2) && self.transaction_valid.is_some()
            && self.transferred_to_cmc.is_some() && self.topped_up_self.is_some() {
            self.canister_spawned = Some(canister_id);
        }
        self.clone()
    }

    /// Records the canister into which the wallet was installed. Refused,
    /// and the record left as it was, where no canister was created or a
    /// wallet was installed already.
    pub fn canister_installed(&mut self, canister_id: Principal) -> (r: SpawnStatus)
        ensures
            final(self)@ == old(self)@.recorded_canister_installed(canister_id@),
            r@ == final(self)@,
    {
        if self.nothing_after(3) && self.transaction_valid.is_some()
            && self.transferred_to_cmc.is_some() && self.topped_up_self.is_some()
            && self.canister_spawned.is_some() {
            self.canister_installed = Some(canister_id);
        }
        self.clone()
    }

    /// Records that the run is complete. Refused, and the record left as
    /// it was, where a step of the run is not complete.
    pub fn done(&mut self) -> (r: SpawnStatus)
        ensures
            final(self)@ == old(self)@.recorded_done(),
            r@ == final(self)@,
    {
        if self.may_finish() {
            self.done = Some(());
        }
        self.clone()
    }

    /// Whether every step of the run is complete and the run is not done yet.
    pub fn may_finish(&self) -> (r: bool)
        ensures
            r == self@.may_finish(),
    {
        let spawn_run = match &self.status_type {
            Some(label) => {
                let spawn = String::from_str("Wallet spawn");
                *label == spawn
            },
            None => false,
        };
        self.done.is_none() && self.transaction_valid.is_some() && self.min_amount_error.is_none()
            && self.transferred_to_cmc.is_some() && self.topped_up_self.is_some() && (!spawn_run
            || (self.canister_spawned.is_some() && self.canister_installed.is_some()))
    }

    /// Whether the run is not done, no refund was made, and none of the
    /// steps behind the first `steps` of forwarding, top-up, creation and
    /// installation is complete.
    fn nothing_after(&self, steps: u8) -> (r: bool)
        ensures
            r == {
                &&& !self@.done
                &&& self@.min_amount_error is None
                &&& steps < 1 ==> self@.transferred_to_cmc is None
                &&& steps < 2 ==> self@.topped_up_self is None
                &&& steps < 3 ==> self@.canister_spawned is None
                &&& self@.canister_installed is None
            },
    {
        self.done.is_none() && self.min_amount_error.is_none() && (steps >= 1
            || self.transferred_to_cmc.is_none()) && (steps >= 2 || self.topped_up_self.is_none())
            && (steps >= 3 || self.canister_spawned.is_none()) && self.canister_installed.is_none()
    }

    /// The label of the run, if it has one.
    pub fn status_type(&self) -> (r: Option<String>)
        ensures
            r.deep_view() == self@.status_type,
    {
        clone_label(&self.status_type)
    }

    /// The amount of the payment, in e8s, once it was found valid.
    pub fn get_transaction_valid(&self) -> (r: Option<u64>)
        ensures
            r == self@.transaction_valid,
    {
        self.transaction_valid
    }

    /// The ledger block of the refund, if one was made.
    pub fn get_min_amount_error(&self) -> (r: Option<u64>)
        ensures
            r == self@.min_amount_error,
    {
        self.min_amount_error
    }

    /// The ledger block of the transfer to the cycles minting canister.
    pub fn get_transferred_to_cmc(&self) -> (r: Option<u64>)
        ensures
            r == self@.transferred_to_cmc,
    {
        self.transferred_to_cmc
    }

    /// The cycles that were granted.
    pub fn get_topped_up_self(&self) -> (r: Option<u128>)
        ensures
            r == self@.topped_up_self,
    {
        self.topped_up_self
    }

    /// The canister that was created.
    pub fn get_canister_spawned(&self) -> (r: Option<Principal>)
        ensures
            principal_view(r) == self@.canister_spawned,
    {
        clone_principal(&self.canister_spawned)
    }

    /// The canister into which the wallet was installed.
    pub fn get_canister_installed(&self) -> (r: Option<Principal>)
        ensures
            principal_view(r) == self@.canister_installed,
    {
        clone_principal(&self.canister_installed)
    }

    /// Whether the run is complete.
    pub fn is_done(&self) -> (r: bool)
        ensures
            r == self@.done,
    {
        self.done.is_some()
    }

    /// The content of every status record can be stored.
    pub(crate) fn check_wf(&self)
        ensures
            self@.wf(),
    {
        match &self.status_type {
            Some(t) => {
                let n = t.as_str().as_bytes().len();
            },
            None => {},
        }
        match &self.canister_spawned {
            Some(p) => {
                proof {
                    use_type_invariant(p);
                }
            },
            None => {},
        }
        match &self.canister_installed {
            Some(p) => {
                proof {
                    use_type_invariant(p);
                }
            },
            None => {},
        }
    }

    /// The bytes under which the record is stored.
    pub fn to_bytes(&self) -> (r: Vec<u8>)
        ensures
            r@ == status_encoding(self@),
    {
        let ghost e1 = opt_text_encoding(self@.status_type);
        let ghost e2 = opt_u64_encoding(self@.transaction_valid);
        let ghost e3 = opt_u64_encoding(self@.min_amount_error);
        let ghost e4 = opt_u64_encoding(self@.transferred_to_cmc);
        let ghost e5 = opt_u128_encoding(self@.topped_up_self);
        let ghost e6 = opt_blob_encoding(self@.canister_spawned);
        let ghost e7 = opt_blob_encoding(self@.canister_installed);
        let ghost e8 = flag_encoding(self@.done);
        let mut out: Vec<u8> = Vec::new();
        put_opt_label(&mut out, &self.status_type);
        assert(out@ == e1) by {
            assert(Seq::<u8>::empty() + e1 =~= e1);
        }
        put_opt_u64(&mut out, self.transaction_valid);
        put_opt_u64(&mut out, self.min_amount_error);
        put_opt_u64(&mut out, self.transferred_to_cmc);
        put_opt_u128(&mut out, self.topped_up_self);
        put_opt_principal(&mut out, &self.canister_spawned);
        put_opt_principal(&mut out, &self.canister_installed);
        put_flag(&mut out, self.done.is_some());
        proof {
            assert(out@ == ((((((e1 + e2) + e3) + e4) + e5) + e6) + e7) + e8);
            lemma_regroup(((((e1 + e2) + e3) + e4) + e5) + e6, e7, e8);
            lemma_regroup((((e1 + e2) + e3) + e4) + e5, e6, e7 + e8);
            lemma_regroup(((e1 + e2) + e3) + e4, e5, e6 + (e7 + e8));
            lemma_regroup((e1 + e2) + e3, e4, e5 + (e6 + (e7 + e8)));
            lemma_regroup(e1 + e2, e3, e4 + (e5 + (e6 + (e7 + e8))));
            lemma_regroup(e1, e2, e3 + (e4 + (e5 + (e6 + (e7 + e8)))));
        }
        out
    }

    /// The record that `bytes` hold, or `None` where they hold none.
    pub fn from_bytes(bytes: &[u8]) -> (r: Option<SpawnStatus>)
        ensures
            r is Some <==> status_decoding(bytes@) is Some,
            r is Some ==> Some(r->0@) == status_decoding(bytes@),
    {
        reveal(status_decoding);
        assert(tail(bytes@, 0) =~= bytes@);
        let (status_type, at) = match get_opt_text(bytes, 0) {
            Some(x) => x,
            None => { return None; },
        };
        let (transaction_valid, at) = match get_opt_u64(bytes, at) {
            Some(x) => x,
            None => { return None; },
        };
        let (min_amount_error, at) = match get_opt_u64(bytes, at) {
            Some(x) => x,
            None => { return None; },
        };
        let (transferred_to_cmc, at) = match get_opt_u64(bytes, at) {
            Some(x) => x,
            None => { return None; },
        };
        let (topped_up_self, at) = match get_opt_u128(bytes, at) {
            Some(x) => x,
            None => { return None; },
        };
        let (spawned, at) = match get_opt_blob(bytes, at) {
            Some(x) => x,
            None => { return None; },
        };
        let (installed, at) = match get_opt_blob(bytes, at) {
            Some(x) => x,
            None => { return None; },
        };
        let (done, at) = match get_flag(bytes, at) {
            Some(x) => x,
            None => { return None; },
        };
        if at != bytes.len() {
            return None;
        }
        match &status_type {
            Some(t) => {
                let n = t.as_str().as_bytes().len();
            },
            None => {},
        }
        let canister_spawned = match principal_of(spawned) {
            Some(p) => p,
            None => { return None; },
        };
        let canister_installed = match principal_of(installed) {
            Some(p) => p,
            None => { return None; },
        };
        Some(
            SpawnStatus {
                status_type,
                transaction_valid,
                min_amount_error,
                transferred_to_cmc,
                topped_up_self,
                canister_spawned,
                canister_installed,
                done: if done { Some(()) } else { None },
            },
        )
    }
}

impl Clone for SpawnStatus {
    fn clone(&self) -> (r: SpawnStatus)
        ensures
            r@ == self@,
    {
        SpawnStatus {
            status_type: clone_label(&self.status_type),
            transaction_valid: self.transaction_valid,
            min_amount_error: self.min_amount_error,
            transferred_to_cmc: self.transferred_to_cmc,
            topped_up_self: self.topped_up_self,
            canister_spawned: clone_principal(&self.canister_spawned),
            canister_installed: clone_principal(&self.canister_installed),
            done: self.done,
        }
    }
}

} // verus!
