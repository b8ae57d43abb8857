//! What the wallet index asks of the ledger, and what it makes of the answers.

use crate::storage::state::{CATALYZE_E8S_FEE, ICP_TRANSACTION_FEE, MEMO_TOP_UP_CANISTER};
use crate::types::error::{Error, ErrorKind, ErrorView};
use crate::types::principal::{Principal, MAX_PRINCIPAL_LENGTH};
use crate::types::text::{decimal_text, tokens_text};
use vstd::prelude::*;

verus! {

/// The length of a subaccount and of an account identifier.
pub const ACCOUNT_LENGTH: usize = 32;

/// One of the accounts of an identity: 32 bytes.
#[derive(Debug)]
pub struct Subaccount {
    pub(crate) bytes: Vec<u8>,
}

impl View for Subaccount {
    type V = Seq<u8>;

    closed spec fn view(&self) -> Seq<u8> {
        self.bytes@
    }
}

/// The address of an account on the ledger.
#[derive(Debug)]
pub struct AccountIdentifier {
    bytes: Vec<u8>,
}

impl View for AccountIdentifier {
    type V = Seq<u8>;

    closed spec fn view(&self) -> Seq<u8> {
        self.bytes@
    }
}

/// The address of the account `subaccount` of `owner`: a hash of both,
/// preceded by its checksum.
pub uninterp spec fn account_identifier(owner: Seq<u8>, subaccount: Seq<u8>) -> Seq<u8>;

/// The subaccount that is used where none is named: 32 zero bytes.
pub open spec fn default_subaccount() -> Seq<u8> {
    Seq::new(ACCOUNT_LENGTH as nat, |i: int| 0u8)
}

/// The subaccount that stands for an identity: the number of its bytes,
/// its bytes, and zeros up to 32 bytes.
pub open spec fn principal_subaccount(principal: Seq<u8>) -> Seq<u8>
    recommends
        principal.len() <= MAX_PRINCIPAL_LENGTH,
{
    Seq::new(
        ACCOUNT_LENGTH as nat,
        |i: int|
            if i == 0 {
                principal.len() as u8
            } else if i <= principal.len() {
                principal[i - 1]
            } else {
                0u8
            },
    )
}

/// The identity of the ledger canister.
pub open spec fn ledger_canister() -> Seq<u8> {
    seq![0u8, 0u8, 0u8, 0u8, 0u8, 0u8, 0u8, 2u8, 1u8, 1u8]
}

/// The identity of the cycles minting canister.
pub open spec fn cycles_minting_canister() -> Seq<u8> {
    seq![0u8, 0u8, 0u8, 0u8, 0u8, 0u8, 0u8, 4u8, 1u8, 1u8]
}

/// `ic_ledger_types::AccountIdentifier::new`, by the bytes of its result.
#[verifier::external_body]
fn account_bytes(owner: &Principal, subaccount: &Subaccount) -> (r: Vec<u8>)
    requires
        owner@.len() <= MAX_PRINCIPAL_LENGTH,
        subaccount@.len() == ACCOUNT_LENGTH,
    ensures
        r@ == account_identifier(owner@, subaccount@),
{
    let owner = candid::Principal::from_slice(&owner.bytes);
    let mut raw = [0u8; 32];
    raw.copy_from_slice(&subaccount.bytes);
    ic_ledger_types::AccountIdentifier::new(&owner, &ic_ledger_types::Subaccount(raw)).as_ref().to_vec()
}

/// `ic_ledger_types::Subaccount::from` an identity: its length in the
/// first byte, its bytes behind it, zeros in the rest.
#[verifier::external_body]
fn subaccount_bytes(principal: &Principal) -> (r: Vec<u8>)
    requires
        principal@.len() <= MAX_PRINCIPAL_LENGTH,
    ensures
        r@ == principal_subaccount(principal@),
{
    ic_ledger_types::Subaccount::from(candid::Principal::from_slice(&principal.bytes)).0.to_vec()
}

impl Subaccount {
    /// Every subaccount is 32 bytes long.
    #[verifier::type_invariant]
    pub open spec fn full_length(&self) -> bool {
        self@.len() == ACCOUNT_LENGTH
    }

    /// The subaccount that is used where none is named.
    pub fn default_subaccount() -> (r: Subaccount)
        ensures
            r@ == default_subaccount(),
    {
        let mut bytes: Vec<u8> = Vec::new();
        let mut i: usize = 0;
        while i < ACCOUNT_LENGTH
            invariant
                i <= ACCOUNT_LENGTH,
                bytes@.len() == i,
                forall|j: int| 0 <= j < i ==> bytes@[j] == 0u8,
            decreases ACCOUNT_LENGTH - i,
        {
            bytes.push(0u8);
            i += 1;
        }
        assert(bytes@ =~= default_subaccount());
        Subaccount { bytes }
    }

    /// The subaccount that stands for `principal`.
    pub fn from_principal(principal: &Principal) -> (r: Subaccount)
        ensures
            r@ == principal_subaccount(principal@),
    {
        proof {
            use_type_invariant(principal);
        }
        Subaccount { bytes: subaccount_bytes(principal) }
    }

    /// The bytes of the subaccount.
    pub fn as_slice(&self) -> (r: &[u8])
        ensures
            r@ == self@,
    {
        self.bytes.as_slice()
    }
}

impl AccountIdentifier {
    /// The address of the account `subaccount` of `owner`.
    pub fn new(owner: &Principal, subaccount: &Subaccount) -> (r: AccountIdentifier)
        ensures
            r@ == account_identifier(owner@, subaccount@),
    {
        proof {
            use_type_invariant(owner);
            use_type_invariant(subaccount);
        }
        AccountIdentifier { bytes: account_bytes(owner, subaccount) }
    }

    /// The address with the given bytes.
    pub fn from_bytes(bytes: Vec<u8>) -> (r: AccountIdentifier)
        ensures
            r@ == bytes@,
    {
        AccountIdentifier { bytes }
    }

    /// The bytes of the address.
    pub fn as_slice(&self) -> (r: &[u8])
        ensures
            r@ == self@,
    {
        self.bytes.as_slice()
    }

    /// Whether two addresses hold the same bytes.
    pub fn same(&self, other: &AccountIdentifier) -> (r: bool)
        ensures
            r == (self@ == other@),
    {
        let r = self.bytes == other.bytes;
        proof {
            broadcast use vstd::std_specs::vec::lemma_vec_obeys_view_eq;

            assert(r == (self.bytes@ =~= other.bytes@));
        }
        r
    }
}

/// What a transaction on the ledger did. Only a transfer is looked into.
#[derive(Debug)]
pub enum Operation {
    Mint,
    Burn,
    Transfer { from: AccountIdentifier, to: AccountIdentifier, amount: u64, fee: u64 },
    Approve,
    TransferFrom,
}

/// A block of the ledger: the operation of its transaction, if it has one.
#[derive(Debug)]
pub struct Block {
    pub operation: Option<Operation>,
}

/// Which blocks to ask for.
#[derive(Debug)]
pub struct GetBlocksArgs {
    pub start: u64,
    pub length: u64,
}

/// A range of blocks that the ledger has handed to an archive.
#[derive(Debug)]
pub struct ArchivedBlockRange {
    pub start: u64,
    pub length: u64,
}

/// What the ledger answers when asked for blocks.
#[derive(Debug)]
pub struct QueryBlocksResponse {
    /// The blocks that the ledger still holds.
    pub blocks: Vec<Block>,
    /// The ranges of those that are with an archive, each with its archive.
    pub archived_blocks: Vec<ArchivedBlockRange>,
}

/// Where a block is to be had.
#[derive(Debug)]
pub enum BlockLookup {
    /// The ledger sent the block.
    Found(Block),
    /// The archive of the range with this number holds the block.
    Archived(usize),
    /// Neither the ledger nor an archive has the block.
    Missing,
}

/// A transfer to ask of the ledger, from the default account of this canister.
#[derive(Debug)]
pub struct TransferArgs {
    pub memo: u64,
    pub amount: u64,
    pub fee: u64,
    pub to: AccountIdentifier,
}

/// The content of a [`TransferArgs`].
pub struct TransferArgsView {
    pub memo: u64,
    pub amount: u64,
    pub fee: u64,
    pub to: Seq<u8>,
}

impl View for TransferArgs {
    type V = TransferArgsView;

    open spec fn view(&self) -> TransferArgsView {
        TransferArgsView { memo: self.memo, amount: self.amount, fee: self.fee, to: self.to@ }
    }
}

/// The transfer that sends `amount` back to `caller`.
pub open spec fn refund_of(amount: u64, caller: Seq<u8>) -> TransferArgsView {
    TransferArgsView {
        memo: 0,
        amount: (amount - ICP_TRANSACTION_FEE) as u64,
        fee: ICP_TRANSACTION_FEE,
        to: account_identifier(caller, default_subaccount()),
    }
}

/// The transfer that forwards `amount` to the cycles minting canister for `canister_id`.
pub open spec fn forward_of(amount: u64, canister_id: Seq<u8>) -> TransferArgsView {
    TransferArgsView {
        memo: MEMO_TOP_UP_CANISTER,
        amount: (amount - CATALYZE_E8S_FEE) as u64,
        fee: ICP_TRANSACTION_FEE,
        to: account_identifier(cycles_minting_canister(), principal_subaccount(canister_id)),
    }
}

/// Why the ledger refused a transfer.
#[derive(Clone, Copy, Debug, PartialEq, Eq, Structural)]
pub enum TransferError {
    BadFee { expected_fee: u64 },
    InsufficientFunds { balance: u64 },
    TxTooOld { allowed_window_nanos: u64 },
    TxCreatedInFuture,
    TxDuplicate { duplicate_of: u64 },
}

/// The words in which the ledger's refusal of a transfer is reported.
pub open spec fn transfer_error_text(e: TransferError) -> Seq<char> {
    match e {
        TransferError::BadFee { expected_fee } => "transaction fee should be "@ + tokens_text(
            expected_fee,
        ),
        TransferError::InsufficientFunds { balance } =>
            "the debit account doesn't have enough funds to complete the transaction, current balance: "@
                + tokens_text(balance),
        TransferError::TxTooOld { allowed_window_nanos } => "transaction is older than "@
            + decimal_text((allowed_window_nanos / 1_000_000_000) as nat) + " seconds"@,
        TransferError::TxCreatedInFuture => "transaction's created_at_time is in future"@,
        TransferError::TxDuplicate { duplicate_of } =>
            "transaction is a duplicate of another transaction in block "@ + decimal_text(
                duplicate_of as nat,
            ),
    }
}

/// `Display` of `ic_ledger_types::TransferError`.
#[verifier::external_body]
fn transfer_error_string(e: TransferError) -> (r: String)
    ensures
        r@ == transfer_error_text(e),
{
    match e {
        TransferError::BadFee { expected_fee } => ic_ledger_types::TransferError::BadFee {
            expected_fee: ic_ledger_types::Tokens::from_e8s(expected_fee),
        },
        TransferError::InsufficientFunds { balance } => ic_ledger_types::TransferError::InsufficientFunds {
            balance: ic_ledger_types::Tokens::from_e8s(balance),
        },
        TransferError::TxTooOld { allowed_window_nanos } => ic_ledger_types::TransferError::TxTooOld { allowed_window_nanos },
        TransferError::TxCreatedInFuture => ic_ledger_types::TransferError::TxCreatedInFuture,
        TransferError::TxDuplicate { duplicate_of } => ic_ledger_types::TransferError::TxDuplicate { duplicate_of },
    }.to_string()
}

/// The content of an operation.
pub enum OperationView {
    Mint,
    Burn,
    Transfer { from: Seq<u8>, to: Seq<u8>, amount: u64, fee: u64 },
    Approve,
    TransferFrom,
}

impl View for Operation {
    type V = OperationView;

    open spec fn view(&self) -> OperationView {
        match *self {
            Operation::Mint => OperationView::Mint,
            Operation::Burn => OperationView::Burn,
            Operation::Transfer { from, to, amount, fee } => OperationView::Transfer {
                from: from@,
                to: to@,
                amount,
                fee,
            },
            Operation::Approve => OperationView::Approve,
            Operation::TransferFrom => OperationView::TransferFrom,
        }
    }
}

/// The operation of a block, if it has one.
pub open spec fn block_operation(block: Block) -> Option<OperationView> {
    match block.operation {
        Some(op) => Some(op@),
        None => None,
    }
}

/// The block `index` lies in the range.
pub open spec fn covers(range: ArchivedBlockRange, index: u64) -> bool {
    range.start <= index && index - range.start < range.length
}

/// What a payment must look like to be accepted from `principal`: a
/// transfer from the default account of `principal` to the default account
/// of this canister. Gives its amount, or the error that refuses it.
pub open spec fn validation(
    principal: Seq<u8>,
    canister_id: Seq<u8>,
    block: Option<Block>,
    now: u64,
) -> Result<u64, ErrorView> {
    match block {
        None => Err(ErrorView::bare(ErrorKind::NotFound, now).with_message("Block not found"@)),
        Some(block) => match block_operation(block) {
            None => Err(
                ErrorView::bare(ErrorKind::NotFound, now).with_message("Transaction not found"@),
            ),
            Some(OperationView::Transfer { from, to, amount, fee }) => if from
                != account_identifier(principal, default_subaccount()) {
                Err(
                    ErrorView::bare(ErrorKind::BadRequest, now).with_message(
                        "Transaction not from the given principal"@,
                    ),
                )
            } else if to != account_identifier(canister_id, default_subaccount()) {
                Err(
                    ErrorView::bare(ErrorKind::BadRequest, now).with_message(
                        "Transaction not to the given principal"@,
                    ),
                )
            } else {
                Ok(amount)
            },
            Some(_) => Err(
                ErrorView::bare(ErrorKind::Unsupported, now).with_message("Not a transfer"@),
            ),
        },
    }
}

/// The outcome of a transfer as the wallet index reports it.
pub open spec fn transfer_outcome(
    outcome: Result<Result<u64, TransferError>, String>,
    now: u64,
) -> Result<u64, ErrorView> {
    match outcome {
        Ok(Ok(block_index)) => Ok(block_index),
        Ok(Err(e)) => Err(
            ErrorView::bare(ErrorKind::BadRequest, now).with_message(transfer_error_text(e)),
        ),
        Err(reason) => Err(ErrorView::bare(ErrorKind::Internal, now).with_message(reason@)),
    }
}

/// A result with its error by its content.
pub open spec fn result_view<T>(r: Result<T, Error>) -> Result<T, ErrorView> {
    match r {
        Ok(v) => Ok(v),
        Err(e) => Err(e@),
    }
}

/// The dealings of the wallet index with the ledger.
pub struct Ledger;

impl Ledger {
    /// The identity of the ledger canister.
    pub fn mainnet_ledger_canister_id() -> (r: Principal)
        ensures
            r@ == ledger_canister(),
    {
        let bytes: [u8; 10] = [0, 0, 0, 0, 0, 0, 0, 2, 1, 1];
        assert(bytes@ =~= ledger_canister());
        Principal::from_slice(bytes.as_slice())
    }

    /// The identity of the cycles minting canister.
    pub fn mainnet_cycles_minting_canister_id() -> (r: Principal)
        ensures
            r@ == cycles_minting_canister(),
    {
        let bytes: [u8; 10] = [0, 0, 0, 0, 0, 0, 0, 4, 1, 1];
        assert(bytes@ =~= cycles_minting_canister());
        Principal::from_slice(bytes.as_slice())
    }

    /// The address of the default account of `principal`.
    pub fn principal_to_account_identifier(principal: &Principal) -> (r: AccountIdentifier)
        ensures
            r@ == account_identifier(principal@, default_subaccount()),
    {
        AccountIdentifier::new(principal, &Subaccount::default_subaccount())
    }

    /// The transfer that sends a payment back to `caller`: the amount less
    /// the fee of the transfer, to the default account of `caller`.
    pub fn transfer_icp_back_to_caller(amount: u64, caller: &Principal) -> (r: TransferArgs)
        requires
            amount >= ICP_TRANSACTION_FEE,
        ensures
            r@ == refund_of(amount, caller@),
    {
        TransferArgs {
            memo: 0,
            amount: amount - ICP_TRANSACTION_FEE,
            fee: ICP_TRANSACTION_FEE,
            to: Ledger::principal_to_account_identifier(caller),
        }
    }

    /// The transfer that forwards a payment to the cycles minting canister
    /// for the benefit of `canister_id`: the amount less the share of the
    /// service, which covers the fee of the transfer.
    pub fn transfer_icp_to_cmc(amount: u64, canister_id: &Principal) -> (r: TransferArgs)
        requires
            amount >= CATALYZE_E8S_FEE,
        ensures
            r@ == forward_of(amount, canister_id@),
    {
        let catalyze_amount: u64 = CATALYZE_E8S_FEE - ICP_TRANSACTION_FEE;
        let wallet_amount: u64 = amount - ICP_TRANSACTION_FEE - catalyze_amount;
        TransferArgs {
            memo: MEMO_TOP_UP_CANISTER,
            amount: wallet_amount,
            fee: ICP_TRANSACTION_FEE,
            to: AccountIdentifier::new(
                &Ledger::mainnet_cycles_minting_canister_id(),
                &Subaccount::from_principal(canister_id),
            ),
        }
    }

    /// What a transfer came to: the block that holds it; `BadRequest` with
    /// the ledger's reason where the ledger refused it; `Internal` with the
    /// reason where the call failed.
    pub fn transfer_result(outcome: Result<Result<u64, TransferError>, String>, now: u64) -> (r:
        Result<u64, Error>)
        ensures
            result_view(r) == transfer_outcome(outcome, now),
    {
        match outcome {
            Ok(Ok(block_index)) => Ok(block_index),
            Ok(Err(e)) => {
                let reason = transfer_error_string(e);
                Err(Error::bad_request(now).add_message(reason.as_str()))
            },
            Err(reason) => Err(Error::internal(now).add_message(reason.as_str())),
        }
    }

    /// What to ask the ledger for to see the block `block_index`: that one block.
    pub fn get_block(block_index: u64) -> (r: GetBlocksArgs)
        ensures
            r.start == block_index,
            r.length == 1,
    {
        GetBlocksArgs { start: block_index, length: 1 }
    }

    /// Where the block `block_index` is to be had, given the ledger's
    /// answer: the first block that the ledger sent, if it sent any; else
    /// the archive of the first range that covers the block; else nowhere.
    pub fn locate_block(response: QueryBlocksResponse, block_index: u64) -> (r: BlockLookup)
        ensures
            response.blocks@.len() > 0 ==> r == BlockLookup::Found(response.blocks@[0]),
            response.blocks@.len() == 0 ==> match r {
                BlockLookup::Found(_) => false,
                BlockLookup::Archived(at) => at < response.archived_blocks@.len() && covers(
                    response.archived_blocks@[at as int],
                    block_index,
                ) && forall|k: int|
                    0 <= k < at ==> !covers(#[trigger] response.archived_blocks@[k], block_index),
                BlockLookup::Missing => forall|k: int|
                    0 <= k < response.archived_blocks@.len() ==> !covers(
                        #[trigger] response.archived_blocks@[k],
                        block_index,
                    ),
            },
    {
        let QueryBlocksResponse { blocks, archived_blocks } = response;
        let mut blocks = blocks;
        if blocks.len() > 0 {
            let first = blocks.swap_remove(0);
            return BlockLookup::Found(first);
        }
        let mut at: usize = 0;
        while at < archived_blocks.len()
            invariant
                at <= archived_blocks@.len(),
                archived_blocks@ == response.archived_blocks@,
                response.blocks@.len() == 0,
                forall|k: int| 0 <= k < at ==> !covers(#[trigger] archived_blocks@[k], block_index),
            decreases archived_blocks@.len() - at,
        {
            let range = &archived_blocks[at];
            if range.start <= block_index && block_index - range.start < range.length {
                return BlockLookup::Archived(at);
            }
            at += 1;
        }
        BlockLookup::Missing
    }

    /// The block that an archive sent: the first of its answer, if it
    /// answered with any.
    pub fn archived_block(outcome: Option<Vec<Block>>) -> (r: Option<Block>)
        ensures
            r is Some <==> (outcome matches Some(blocks) && blocks@.len() > 0),
            r matches Some(block) ==> block == outcome->0@[0],
    {
        match outcome {
            Some(blocks) => {
                let mut blocks = blocks;
                if blocks.len() > 0 {
                    Some(blocks.swap_remove(0))
                } else {
                    None
                }
            },
            None => None,
        }
    }

    /// Accepts the payment in `block` as one of `principal` to this
    /// canister, and gives its amount in e8s. `NotFound` where there is no
    /// block, or no operation in it; `Unsupported` where the operation is no
    /// transfer; `BadRequest` where the transfer is not from the default
    /// account of `principal`, or else not to that of this canister.
    pub fn validate_transaction(
        principal: &Principal,
        canister_id: &Principal,
        block: Option<Block>,
        now: u64,
    ) -> (r: Result<u64, Error>)
        ensures
            result_view(r) == validation(principal@, canister_id@, block, now),
    {
        let block = match block {
            Some(block) => block,
            None => { return Err(Error::not_found(now).add_message("Block not found")); },
        };
        match block.operation {
            Some(Operation::Transfer { from, to, amount, fee }) => {
                if !from.same(&Ledger::principal_to_account_identifier(principal)) {
                    return Err(
                        Error::bad_request(now).add_message(
                            "Transaction not from the given principal",
                        ),
                    );
                }
                if !to.same(&Ledger::principal_to_account_identifier(canister_id)) {
                    return Err(
                        Error::bad_request(now).add_message(
                            "Transaction not to the given principal",
                        ),
                    );
                }
                Ok(amount)
            },
            Some(_) => Err(Error::unsupported(now).add_message("Not a transfer")),
            None => Err(Error::not_found(now).add_message("Transaction not found")),
        }
    }
}

} // verus!
