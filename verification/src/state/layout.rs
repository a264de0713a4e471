//! The bytes of a config account in storage: 160 bytes, integers little-endian,
//! in the order authority, approver, recipient, vault, time gate, daily
//! ceiling, the two policy bytes, the two disambiguation bytes, and twelve
//! reserved bytes. On the ledger they follow an 8-byte prefix that names the
//! kind of the account.

use vstd::prelude::*;
use vstd::bytes::{
    lemma_auto_spec_u64_to_from_le_bytes, spec_u64_from_le_bytes, spec_u64_to_le_bytes,
    u64_from_le_bytes, u64_to_le_bytes,
};
use vstd::slice::slice_subrange;
use crate::pubkey::Pubkey;
use crate::state::config_account::ConfigAccount;

verus! {

/// The eight bytes that precede a config account in storage and name its kind.
pub const DISCRIMINATOR: [u8; 8] = [189, 255, 97, 70, 186, 189, 24, 102];

/// Bytes that a config account takes in storage, prefix included.
pub const ACCOUNT_SPACE: usize = 168;

/// The bytes of a record in storage.
pub open spec fn config_bytes(account: ConfigAccount) -> Seq<u8> {
    account.authority@ + account.approver@ + account.recipient@ + account.escrow@
        + spec_u64_to_le_bytes(account.cliff_time) + spec_u64_to_le_bytes(account.amount_per_day)
        + seq![
        account.update_actor_mode,
        account.enable_transfer_full,
        account.config_bump,
        account.escrow_bump,
    ] + account.padding_0@
}

/// The data of a config account in storage: the prefix, then the record.
pub open spec fn account_data(account: ConfigAccount) -> Seq<u8> {
    DISCRIMINATOR@ + config_bytes(account)
}

/// Appends bytes to a vector.
fn append(out: &mut Vec<u8>, bytes: &[u8])
    ensures
        final(out)@ == old(out)@ + bytes@,
{
    let ghost before = out@;
    let mut i: usize = 0;
    while i < bytes.len()
        invariant
            i <= bytes@.len(),
            out@ == before + bytes@.subrange(0, i as int),
        decreases bytes@.len() - i,
    {
        out.push(bytes[i]);
        i += 1;
    }
    assert(bytes@.subrange(0, bytes@.len() as int) == bytes@);
}

/// Reads the address that lies at an offset.
fn read_key(bytes: &[u8], offset: usize) -> (key: Pubkey)
    requires
        offset + 32 <= bytes@.len(),
    ensures
        key@ == bytes@.subrange(offset as int, offset + 32),
{
    let len: usize = bytes.len();
    let mut out = [0u8; 32];
    let mut i: usize = 0;
    while i < 32
        invariant
            i <= 32,
            offset + 32 <= len,
            len == bytes@.len(),
            forall|j: int| 0 <= j < i ==> out@[j] == bytes@[offset + j],
        decreases 32 - i,
    {
        out[i] = bytes[offset + i];
        i += 1;
    }
    assert(out@ =~= bytes@.subrange(offset as int, offset + 32));
    Pubkey::new_from_array(out)
}

/// Reads the twelve reserved bytes that lie at an offset.
fn read_padding(bytes: &[u8], offset: usize) -> (padding: [u8; 12])
    requires
        offset + 12 <= bytes@.len(),
    ensures
        padding@ == bytes@.subrange(offset as int, offset + 12),
{
    let len: usize = bytes.len();
    let mut out = [0u8; 12];
    let mut i: usize = 0;
    while i < 12
        invariant
            i <= 12,
            offset + 12 <= len,
            len == bytes@.len(),
            forall|j: int| 0 <= j < i ==> out@[j] == bytes@[offset + j],
        decreases 12 - i,
    {
        out[i] = bytes[offset + i];
        i += 1;
    }
    assert(out@ =~= bytes@.subrange(offset as int, offset + 12));
    out
}

impl ConfigAccount {
    /// The bytes of the record in storage.
    pub fn to_bytes(&self) -> (bytes: Vec<u8>)
        ensures
            bytes@ == config_bytes(*self),
            bytes@.len() == ConfigAccount::INIT_SPACE,
    {
        let mut out: Vec<u8> = Vec::new();
        append(&mut out, self.authority.bytes.as_slice());
        append(&mut out, self.approver.bytes.as_slice());
        append(&mut out, self.recipient.bytes.as_slice());
        append(&mut out, self.escrow.bytes.as_slice());
        let cliff_time = u64_to_le_bytes(self.cliff_time);
        append(&mut out, cliff_time.as_slice());
        let amount_per_day = u64_to_le_bytes(self.amount_per_day);
        append(&mut out, amount_per_day.as_slice());
        out.push(self.update_actor_mode);
        out.push(self.enable_transfer_full);
        out.push(self.config_bump);
        out.push(self.escrow_bump);
        append(&mut out, self.padding_0.as_slice());
        assert(out@ =~= config_bytes(*self));
        out
    }

    /// The record that the bytes hold: there is one exactly when there are 160
    /// bytes, and it is the one whose bytes they are.
    pub fn from_bytes(bytes: &[u8]) -> (account: Option<ConfigAccount>)
        ensures
            account is Some <==> bytes@.len() == ConfigAccount::INIT_SPACE,
            account matches Some(account) ==> config_bytes(account) == bytes@,
    {
        if bytes.len() != 160 {
            return None;
        }
        let authority = read_key(bytes, 0);
        let approver = read_key(bytes, 32);
        let recipient = read_key(bytes, 64);
        let escrow = read_key(bytes, 96);
        let cliff_time = u64_from_le_bytes(slice_subrange(bytes, 128, 136));
        let amount_per_day = u64_from_le_bytes(slice_subrange(bytes, 136, 144));
        let account = ConfigAccount {
            authority,
            approver,
            recipient,
            escrow,
            cliff_time,
            amount_per_day,
            update_actor_mode: bytes[144],
            enable_transfer_full: bytes[145],
            config_bump: bytes[146],
            escrow_bump: bytes[147],
            padding_0: read_padding(bytes, 148),
        };
        proof {
            lemma_auto_spec_u64_to_from_le_bytes();
            assert(config_bytes(account) =~= bytes@);
        }
        Some(account)
    }
}

impl ConfigAccount {
    /// The data of the config account in storage.
    pub fn to_account_data(&self) -> (data: Vec<u8>)
        ensures
            data@ == account_data(*self),
            data@.len() == ACCOUNT_SPACE,
    {
        let mut out: Vec<u8> = Vec::new();
        append(&mut out, DISCRIMINATOR.as_slice());
        let record = self.to_bytes();
        append(&mut out, record.as_slice());
        out
    }

    /// The config account that the data of an account hold: there is one
    /// exactly when there are 168 bytes that start with the prefix of config
    /// accounts, and it is the one whose data they are.
    pub fn from_account_data(data: &[u8]) -> (account: Option<ConfigAccount>)
        ensures
            account is Some <==> data@.len() == ACCOUNT_SPACE && data@.subrange(0, 8)
                == DISCRIMINATOR@,
            account matches Some(account) ==> account_data(account) == data@,
    {
        if data.len() != ACCOUNT_SPACE {
            return None;
        }
        let mut i: usize = 0;
        while i < 8
            invariant
                i <= 8,
                data@.len() == ACCOUNT_SPACE,
                forall|j: int| 0 <= j < i ==> data@[j] == DISCRIMINATOR@[j],
            decreases 8 - i,
        {
            if data[i] != DISCRIMINATOR[i] {
                return None;
            }
            i += 1;
        }
        assert(data@.subrange(0, 8) =~= DISCRIMINATOR@);
        let account = ConfigAccount::from_bytes(slice_subrange(data, 8, ACCOUNT_SPACE));
        proof {
            if let Some(found) = account {
                assert(account_data(found) =~= data@);
            }
        }
        account
    }
}

/// Every record takes 160 bytes.
pub proof fn lemma_config_bytes_len(account: ConfigAccount)
    ensures
        config_bytes(account).len() == 160,
{
    lemma_auto_spec_u64_to_from_le_bytes();
}

/// Two records with the same bytes are the same record: reading back what was
/// written gives the record that was written.
pub proof fn lemma_config_bytes_injective(a: ConfigAccount, b: ConfigAccount)
    requires
        config_bytes(a) == config_bytes(b),
    ensures
        a == b,
{
    lemma_auto_spec_u64_to_from_le_bytes();
    let whole = config_bytes(a);
    assert(a.authority@ =~= whole.subrange(0, 32));
    assert(b.authority@ =~= whole.subrange(0, 32));
    assert(a.approver@ =~= whole.subrange(32, 64));
    assert(b.approver@ =~= whole.subrange(32, 64));
    assert(a.recipient@ =~= whole.subrange(64, 96));
    assert(b.recipient@ =~= whole.subrange(64, 96));
    assert(a.escrow@ =~= whole.subrange(96, 128));
    assert(b.escrow@ =~= whole.subrange(96, 128));
    assert(spec_u64_to_le_bytes(a.cliff_time) =~= whole.subrange(128, 136));
    assert(spec_u64_to_le_bytes(b.cliff_time) =~= whole.subrange(128, 136));
    assert(spec_u64_to_le_bytes(a.amount_per_day) =~= whole.subrange(136, 144));
    assert(spec_u64_to_le_bytes(b.amount_per_day) =~= whole.subrange(136, 144));
    assert(a.cliff_time == spec_u64_from_le_bytes(spec_u64_to_le_bytes(a.cliff_time)));
    assert(b.cliff_time == spec_u64_from_le_bytes(spec_u64_to_le_bytes(b.cliff_time)));
    assert(a.amount_per_day == spec_u64_from_le_bytes(spec_u64_to_le_bytes(a.amount_per_day)));
    assert(b.amount_per_day == spec_u64_from_le_bytes(spec_u64_to_le_bytes(b.amount_per_day)));
    assert(a.update_actor_mode == whole[144] && b.update_actor_mode == whole[144]);
    assert(a.enable_transfer_full == whole[145] && b.enable_transfer_full == whole[145]);
    assert(a.config_bump == whole[146] && b.config_bump == whole[146]);
    assert(a.escrow_bump == whole[147] && b.escrow_bump == whole[147]);
    assert(a.padding_0@ =~= whole.subrange(148, 160));
    assert(b.padding_0@ =~= whole.subrange(148, 160));
    assert(a.authority.bytes =~= b.authority.bytes);
    assert(a.approver.bytes =~= b.approver.bytes);
    assert(a.recipient.bytes =~= b.recipient.bytes);
    assert(a.escrow.bytes =~= b.escrow.bytes);
    assert(a.padding_0 =~= b.padding_0);
}

/// Two config accounts with the same data in storage are the same account.
pub proof fn lemma_account_data_injective(a: ConfigAccount, b: ConfigAccount)
    requires
        account_data(a) == account_data(b),
    ensures
        a == b,
{
    lemma_config_bytes_len(a);
    lemma_config_bytes_len(b);
    assert(config_bytes(a) =~= account_data(a).subrange(8, 168));
    assert(config_bytes(b) =~= account_data(b).subrange(8, 168));
    lemma_config_bytes_injective(a, b);
}

} // verus!
