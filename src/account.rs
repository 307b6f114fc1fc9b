//! Account records as the node returns them, and the JSON document that an
//! export writes.
use vstd::prelude::*;

use crate::error::IndexerError;
use crate::identifier::Identifier;

verus! {

/// An account record, carried through unread: its key, its balance in
/// lamports, its data, the program that owns it, whether it holds a program,
/// and the epoch at which it next owes rent.
#[derive(Clone, Debug, PartialEq, Eq)]
pub struct AccountRecord {
    pub pubkey: Identifier,
    pub lamports: u64,
    pub data: Vec<u8>,
    pub owner: Identifier,
    pub executable: bool,
    pub rent_epoch: u64,
}

/// The value of an account record.
pub struct RecordView {
    pub pubkey: Seq<u8>,
    pub lamports: u64,
    pub data: Seq<u8>,
    pub owner: Seq<u8>,
    pub executable: bool,
    pub rent_epoch: u64,
}

impl View for AccountRecord {
    type V = RecordView;

    open spec fn view(&self) -> RecordView {
        RecordView {
            pubkey: self.pubkey.key(),
            lamports: self.lamports,
            data: self.data@,
            owner: self.owner.key(),
            executable: self.executable,
            rent_epoch: self.rent_epoch,
        }
    }
}

/// The values of a list of records, in order.
pub open spec fn records_view(records: Seq<AccountRecord>) -> Seq<RecordView> {
    records.map_values(|a: AccountRecord| a@)
}

/// The JSON text of a list of `(Pubkey, Account)` pairs holding these records,
/// or `None` where serde_json reports an error.
pub uninterp spec fn accounts_json(records: Seq<RecordView>) -> Option<Seq<char>>;

#[verifier::external_type_specification]
#[verifier::external_body]
pub struct ExJsonError(serde_json::Error);

/// Relies on `serde_json::to_string` over solana's `Pubkey` and `Account`
/// serialisation: its outcome depends on the records' values alone.
#[verifier::external_body]
fn encode_accounts(records: &Vec<AccountRecord>) -> (r: Result<String, serde_json::Error>)
    ensures
        match r {
            Ok(s) => accounts_json(records_view(records@)) == Some(s@),
            Err(_) => accounts_json(records_view(records@)) is None,
        },
{
    let pairs: Vec<(solana_sdk::pubkey::Pubkey, solana_sdk::account::Account)> = records.iter().map(
        |a| (solana_sdk::pubkey::Pubkey::new_from_array(a.pubkey.bytes), solana_sdk::account::Account {
            lamports: a.lamports,
            data: a.data.clone(),
            owner: solana_sdk::pubkey::Pubkey::new_from_array(a.owner.bytes),
            executable: a.executable,
            rent_epoch: a.rent_epoch,
        }),
    ).collect();
    serde_json::to_string(&pairs)
}

/// The document that an export writes for the fetched records: their JSON
/// text, or `EncodeFailure` where it cannot be produced.
pub fn export_document(records: &Vec<AccountRecord>) -> (r: Result<String, IndexerError>)
    ensures
        match accounts_json(records_view(records@)) {
            Some(text) => r matches Ok(s) && s@ == text,
            None => r == Err::<String, IndexerError>(IndexerError::EncodeFailure),
        },
{
    match encode_accounts(records) {
        Ok(s) => Ok(s),
        Err(_) => Err(IndexerError::EncodeFailure),
    }
}

} // verus!
